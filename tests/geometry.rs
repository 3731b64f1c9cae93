use window_snap::geometry::{client_placement, snap_rect, Placement, Rect, SNAP_THRESHOLD};

fn rect(l: i32, t: i32, r: i32, b: i32) -> Rect {
    Rect::new(l, t, r, b)
}

#[test]
fn left_snap_moves_right_edge_only() {
    let m = rect(100, 100, 300, 300);
    let p = rect(305, 90, 500, 290);
    assert_eq!(snap_rect(m, p, 40), Some(rect(100, 100, 305, 300)));
}

#[test]
fn far_apart_windows_do_not_snap() {
    let m = rect(100, 100, 300, 300);
    let p = rect(1000, 1000, 1200, 1200);
    assert_eq!(snap_rect(m, p, 40), None);
}

#[test]
fn right_snap_moves_left_edge() {
    let m = rect(520, 100, 700, 300);
    let p = rect(100, 600, 500, 900);
    assert_eq!(snap_rect(m, p, 40), Some(rect(500, 100, 700, 300)));
}

#[test]
fn top_snap_moves_bottom_edge() {
    let m = rect(100, 100, 300, 300);
    let p = rect(600, 330, 900, 500);
    assert_eq!(snap_rect(m, p, 40), Some(rect(100, 100, 300, 330)));
}

#[test]
fn bottom_snap_moves_top_edge() {
    let m = rect(100, 410, 300, 600);
    let p = rect(600, 100, 900, 400);
    assert_eq!(snap_rect(m, p, 40), Some(rect(100, 400, 300, 600)));
}

#[test]
fn horizontal_test_wins_over_vertical() {
    // Right edge of m near left edge of p, and bottom of m near top of p.
    let m = rect(100, 100, 300, 300);
    let p = rect(310, 320, 500, 500);
    assert_eq!(snap_rect(m, p, 40), Some(rect(100, 100, 310, 300)));
}

#[test]
fn threshold_is_exclusive() {
    let m = rect(100, 100, 300, 300);
    let at = rect(340, 1000, 500, 1200);
    let inside = rect(339, 1000, 500, 1200);
    assert_eq!(snap_rect(m, at, SNAP_THRESHOLD), None);
    assert_eq!(snap_rect(m, inside, SNAP_THRESHOLD), Some(rect(100, 100, 339, 300)));
}

#[test]
fn extreme_coordinates_do_not_overflow() {
    let m = rect(i32::MIN, i32::MIN, i32::MAX, i32::MAX);
    let p = rect(i32::MIN, i32::MIN, i32::MAX, i32::MAX);
    assert_eq!(snap_rect(m, p, 40), None);
}

#[test]
fn placement_adds_invisible_borders() {
    // Raw rectangle 7 px wider on each side and 7 px taller at the bottom.
    let raw = rect(0, 0, 100, 100);
    let frame = rect(7, 0, 93, 93);
    let p = client_placement(rect(10, 20, 110, 220), raw, frame);
    assert_eq!(p, Some(Placement { x: 3, y: 20, width: 114, height: 207 }));
}

#[test]
fn placement_out_of_range_is_refused() {
    let raw = rect(-10, 0, 100, 100);
    let frame = rect(0, 0, 100, 100);
    assert_eq!(client_placement(rect(i32::MIN, 0, 10, 10), raw, frame), None);
}

/// A window manager that honours every move: the raw rectangle becomes the
/// requested one, and the border offsets stay as they were.
struct FakeWindow {
    raw: Rect,
    frame: Rect,
}

impl FakeWindow {
    fn set_pos(&mut self, p: Placement) {
        let bl = self.frame.left - self.raw.left;
        let bt = self.frame.top - self.raw.top;
        let br = self.raw.right - self.frame.right;
        let bb = self.raw.bottom - self.frame.bottom;
        self.raw = rect(p.x, p.y, p.x + p.width, p.y + p.height);
        self.frame = rect(self.raw.left + bl, self.raw.top + bt, self.raw.right - br, self.raw.bottom - bb);
    }
}

#[test]
fn reposition_then_read_frame_round_trips() {
    let mut w = FakeWindow { raw: rect(50, 60, 450, 380), frame: rect(57, 60, 443, 373) };
    let target = rect(200, 100, 640, 500);
    let p = client_placement(target, w.raw, w.frame).unwrap();
    w.set_pos(p);
    assert_eq!(w.frame, target);
}
