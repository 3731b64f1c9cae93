//! Rectangles, the snap test between two windows, and the conversion of a
//! requested visual frame into the raw placement that the OS move call takes.
use vstd::prelude::*;

verus! {

/// Distance in pixels under which two edges count as touching.
pub const SNAP_THRESHOLD: i32 = 40;

/// A rectangle in screen pixels.
#[derive(Clone, Copy, Debug, PartialEq, Eq, Structural)]
pub struct Rect {
    pub left: i32,
    pub top: i32,
    pub right: i32,
    pub bottom: i32,
}

impl Rect {
    pub fn new(left: i32, top: i32, right: i32, bottom: i32) -> (r: Rect)
        ensures
            r == (Rect { left, top, right, bottom }),
    {
        Rect { left, top, right, bottom }
    }
}

pub open spec fn abs(x: int) -> int {
    if x < 0 {
        -x
    } else {
        x
    }
}

/// Two edge coordinates lie within `threshold` pixels of each other.
pub open spec fn near(a: int, b: int, threshold: int) -> bool {
    abs(a - b) < threshold
}

/// The moved window `m` snapped against the peer `p`: the first of the four
/// edge tests that holds moves one edge of `m` onto the facing edge of `p`.
pub open spec fn snapped(m: Rect, p: Rect, threshold: int) -> Option<Rect> {
    if near(m.right as int, p.left as int, threshold) {
        Some(Rect { left: m.left, top: m.top, right: p.left, bottom: m.bottom })
    } else if near(m.left as int, p.right as int, threshold) {
        Some(Rect { left: p.right, top: m.top, right: m.right, bottom: m.bottom })
    } else if near(m.bottom as int, p.top as int, threshold) {
        Some(Rect { left: m.left, top: m.top, right: m.right, bottom: p.top })
    } else if near(m.top as int, p.bottom as int, threshold) {
        Some(Rect { left: m.left, top: p.bottom, right: m.right, bottom: m.bottom })
    } else {
        None
    }
}

fn is_near(a: i32, b: i32, threshold: i32) -> (r: bool)
    ensures
        r == near(a as int, b as int, threshold as int),
{
    let d: i64 = a as i64 - b as i64;
    let dist: i64 = if d < 0 {
        -d
    } else {
        d
    };
    dist < threshold as i64
}

/// Snaps `m` against `p`, testing in order: the right edge of `m` against the
/// left edge of `p`, the left against the right, the bottom against the top,
/// and the top against the bottom. `None` when no pair of edges is near.
pub fn snap_rect(m: Rect, p: Rect, threshold: i32) -> (r: Option<Rect>)
    ensures
        r == snapped(m, p, threshold as int),
{
    if is_near(m.right, p.left, threshold) {
        Some(Rect { right: p.left, ..m })
    } else if is_near(m.left, p.right, threshold) {
        Some(Rect { left: p.right, ..m })
    } else if is_near(m.bottom, p.top, threshold) {
        Some(Rect { bottom: p.top, ..m })
    } else if is_near(m.top, p.bottom, threshold) {
        Some(Rect { top: p.bottom, ..m })
    } else {
        None
    }
}

/// Origin and size handed to the OS move call, in raw window coordinates.
#[derive(Clone, Copy, Debug, PartialEq, Eq, Structural)]
pub struct Placement {
    pub x: i32,
    pub y: i32,
    pub width: i32,
    pub height: i32,
}

/// Four integers as an unbounded tuple (left, top, right, bottom) or (x, y, width, height).
pub type Quad = (int, int, int, int);

pub open spec fn quad_of(r: Rect) -> Quad {
    (r.left as int, r.top as int, r.right as int, r.bottom as int)
}

/// How far the visual frame lies inside the raw window rectangle, per edge.
pub open spec fn borders(raw: Rect, frame: Rect) -> Quad {
    (
        frame.left - raw.left,
        frame.top - raw.top,
        raw.right - frame.right,
        raw.bottom - frame.bottom,
    )
}

/// The raw placement whose visual frame is `target`, for a window whose raw
/// rectangle is `raw` while its visual frame is `frame`.
pub open spec fn placement_for(target: Rect, raw: Rect, frame: Rect) -> Quad {
    let b = borders(raw, frame);
    (
        target.left - b.0,
        target.top - b.1,
        target.right - target.left + b.0 + b.2,
        target.bottom - target.top + b.1 + b.3,
    )
}

pub open spec fn fits_i32(x: int) -> bool {
    i32::MIN <= x <= i32::MAX
}

pub open spec fn quad_fits(q: Quad) -> bool {
    fits_i32(q.0) && fits_i32(q.1) && fits_i32(q.2) && fits_i32(q.3)
}

pub open spec fn placement_quad(p: Placement) -> Quad {
    (p.x as int, p.y as int, p.width as int, p.height as int)
}

fn narrow(x: i64) -> (r: Option<i32>)
    ensures
        r matches Some(v) ==> v as int == x as int,
        r is Some <==> fits_i32(x as int),
{
    if i32::MIN as i64 <= x && x <= i32::MAX as i64 {
        Some(x as i32)
    } else {
        None
    }
}

/// The raw placement that gives a window the visual frame `target`, given the
/// window's current raw rectangle and visual frame. `None` when a coordinate
/// of that placement does not fit in 32 bits.
pub fn client_placement(target: Rect, raw: Rect, frame: Rect) -> (r: Option<Placement>)
    ensures
        r is Some <==> quad_fits(placement_for(target, raw, frame)),
        r matches Some(p) ==> placement_quad(p) == placement_for(target, raw, frame),
{
    let bl: i64 = frame.left as i64 - raw.left as i64;
    let bt: i64 = frame.top as i64 - raw.top as i64;
    let br: i64 = raw.right as i64 - frame.right as i64;
    let bb: i64 = raw.bottom as i64 - frame.bottom as i64;
    let x = narrow(target.left as i64 - bl);
    let y = narrow(target.top as i64 - bt);
    let w = narrow(target.right as i64 - target.left as i64 + bl + br);
    let h = narrow(target.bottom as i64 - target.top as i64 + bt + bb);
    match (x, y, w, h) {
        (Some(x), Some(y), Some(width), Some(height)) => Some(Placement { x, y, width, height }),
        _ => None,
    }
}

/// The visual frame that a window shows once the OS has applied `p` as its
/// raw rectangle, its border offsets being those measured from `raw` and `frame`.
pub open spec fn frame_after(p: Placement, raw: Rect, frame: Rect) -> Quad {
    let b = borders(raw, frame);
    (p.x + b.0, p.y + b.1, p.x + p.width - b.2, p.y + p.height - b.3)
}

/// Moving a window to the placement computed for `target`, and reading its
/// visual frame back from an OS that honoured the move, gives `target` exactly.
pub proof fn lemma_reposition_round_trip(target: Rect, raw: Rect, frame: Rect, p: Placement)
    requires
        placement_quad(p) == placement_for(target, raw, frame),
    ensures
        frame_after(p, raw, frame) == quad_of(target),
{
}

} // verus!
