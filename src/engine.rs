//! The snap engine. A move/resize-end event for a window opens a session that
//! holds the window's visual frame, captured once. Each other top-level window
//! is then visited in enumeration order: a step function says which OS query
//! to make next, whether to reposition the moved window, and whether the walk
//! goes on. The first peer that leads to an accepted reposition ends the walk.
use crate::eligibility::{
    eligibility_next, eligibility_step, taskbar_eligible, Probe, Reply, Verdict, WindowFacts,
    SW_SHOWMAXIMIZED, SW_SHOWMINIMIZED,
};
use crate::geometry::{snap_rect, snapped, Rect, SNAP_THRESHOLD};
use vstd::prelude::*;

verus! {

/// Event kind sent when the user finishes moving or resizing a window.
pub const EVENT_SYSTEM_MOVESIZEEND: u32 = 0x000B;

/// Child id of an event about the window itself rather than a part of it.
pub const CHILDID_SELF: i32 = 0;

/// Whether an event is a move/resize end of a whole window: the only kind
/// that starts a snap.
pub fn is_snap_event(event: u32, id_child: i32) -> (r: bool)
    ensures
        r == (event == EVENT_SYSTEM_MOVESIZEEND && id_child == CHILDID_SELF),
{
    event == EVENT_SYSTEM_MOVESIZEEND && id_child == CHILDID_SELF
}

/// Whether a show state is that of a minimized window.
pub fn is_window_minimized(show_cmd: u32) -> (r: bool)
    ensures
        r == (show_cmd == SW_SHOWMINIMIZED),
{
    show_cmd == SW_SHOWMINIMIZED
}

/// Whether a show state is that of a maximized window.
pub fn is_window_maximized(show_cmd: u32) -> (r: bool)
    ensures
        r == (show_cmd == SW_SHOWMAXIMIZED),
{
    show_cmd == SW_SHOWMAXIMIZED
}

/// One move/resize-end event being resolved.
#[derive(Clone, Copy, Debug, PartialEq, Eq, Structural)]
pub struct SnapSession {
    /// Handle of the window the user moved.
    pub moved: usize,
    /// Its visual frame when the event came.
    pub frame: Rect,
    /// Distance in pixels under which edges snap.
    pub threshold: i32,
}

/// What the walk does next for the peer being visited.
#[derive(Clone, Copy, Debug, PartialEq, Eq, Structural)]
pub enum PeerStep {
    /// Answer this probe about the peer.
    Ask(Probe),
    /// Move the moved window to this visual frame, then report the outcome.
    Reposition(Rect),
    /// Go on to the next peer.
    Continue,
    /// End the walk.
    Stop,
}

/// Whether the walk takes part a peer with these facts: shown neither
/// minimized nor maximized, and on the taskbar.
pub open spec fn admitted(f: WindowFacts) -> bool {
    &&& f.show_cmd matches Some(c) && c != SW_SHOWMINIMIZED && c != SW_SHOWMAXIMIZED
    &&& taskbar_eligible(f)
}

impl SnapSession {
    /// A session for `moved`, whose visual frame is `frame`, with the usual threshold.
    pub fn new(moved: usize, frame: Rect) -> (s: SnapSession)
        ensures
            s == (SnapSession { moved, frame, threshold: SNAP_THRESHOLD }),
    {
        SnapSession { moved, frame, threshold: SNAP_THRESHOLD }
    }

    /// The visual frame the moved window should take because of peer `peer`,
    /// if any: none for the moved window itself, for a peer not admitted, or
    /// one whose frame cannot be read; else the snap of the two frames.
    pub open spec fn target(self, peer: usize, f: WindowFacts) -> Option<Rect> {
        if peer != self.moved && admitted(f) {
            match f.frame {
                Some(p) => snapped(self.frame, p, self.threshold as int),
                None => None,
            }
        } else {
            None
        }
    }

    pub open spec fn start_spec(self, peer: usize) -> PeerStep {
        if peer == self.moved {
            PeerStep::Continue
        } else {
            PeerStep::Ask(Probe::Placement)
        }
    }

    /// One step of a visit: what the reply to `probe` about the peer leads to.
    pub open spec fn next_spec(self, probe: Probe, reply: Reply) -> PeerStep {
        match (probe, reply) {
            (Probe::Placement, Reply::Bits(c)) => if c == SW_SHOWMINIMIZED || c
                == SW_SHOWMAXIMIZED {
                PeerStep::Continue
            } else {
                PeerStep::Ask(Probe::Visible)
            },
            (Probe::Placement, _) => PeerStep::Continue,
            (Probe::Frame, Reply::Bounds(p)) => match snapped(self.frame, p, self.threshold as int) {
                Some(t) => PeerStep::Reposition(t),
                None => PeerStep::Continue,
            },
            (Probe::Frame, _) => PeerStep::Continue,
            _ => match eligibility_next(probe, reply) {
                Verdict::Ask(p) => PeerStep::Ask(p),
                Verdict::Decided(true) => PeerStep::Ask(Probe::Frame),
                Verdict::Decided(false) => PeerStep::Continue,
            },
        }
    }

    /// The first step of a visit to `peer`.
    pub fn start(&self, peer: usize) -> (r: PeerStep)
        ensures
            r == self.start_spec(peer),
    {
        if peer == self.moved {
            PeerStep::Continue
        } else {
            PeerStep::Ask(Probe::Placement)
        }
    }

    /// Advances a visit by one answered probe.
    pub fn next(&self, probe: Probe, reply: Reply) -> (r: PeerStep)
        ensures
            r == self.next_spec(probe, reply),
    {
        match (probe, reply) {
            (Probe::Placement, Reply::Bits(c)) => if is_window_minimized(c) || is_window_maximized(
                c,
            ) {
                PeerStep::Continue
            } else {
                PeerStep::Ask(Probe::Visible)
            },
            (Probe::Placement, _) => PeerStep::Continue,
            (Probe::Frame, Reply::Bounds(p)) => match snap_rect(self.frame, p, self.threshold) {
                Some(t) => PeerStep::Reposition(t),
                None => PeerStep::Continue,
            },
            (Probe::Frame, _) => PeerStep::Continue,
            _ => match eligibility_step(probe, reply) {
                Verdict::Ask(p) => PeerStep::Ask(p),
                Verdict::Decided(true) => PeerStep::Ask(Probe::Frame),
                Verdict::Decided(false) => PeerStep::Continue,
            },
        }
    }

    /// A visit run against the facts `f` for at most `fuel` probes.
    pub open spec fn run(self, f: WindowFacts, step: PeerStep, fuel: nat) -> PeerStep
        decreases fuel,
    {
        match step {
            PeerStep::Ask(p) => if fuel == 0 {
                step
            } else {
                self.run(f, self.next_spec(p, f.reply_to(p)), (fuel - 1) as nat)
            },
            _ => step,
        }
    }

    /// What a whole visit to `peer` with facts `f` leads to.
    pub open spec fn outcome(self, peer: usize, f: WindowFacts) -> PeerStep {
        match self.target(peer, f) {
            Some(t) => PeerStep::Reposition(t),
            None => PeerStep::Continue,
        }
    }

    /// Visiting a peer step by step, answering from its facts, ends within
    /// `PEER_PROBES` probes in exactly the outcome its facts call for.
    pub proof fn lemma_visit_outcome(self, peer: usize, f: WindowFacts)
        ensures
            self.run(f, self.start_spec(peer), PEER_PROBES as nat) == self.outcome(peer, f),
    {
        reveal_with_fuel(SnapSession::run, 9);
    }

    /// The reposition target for `peer`, found by running a visit against its facts.
    pub fn target_for(&self, peer: usize, facts: &WindowFacts) -> (r: Option<Rect>)
        ensures
            r == self.target(peer, *facts),
    {
        proof {
            self.lemma_visit_outcome(peer, *facts);
        }
        let mut step = self.start(peer);
        let mut fuel: usize = PEER_PROBES;
        loop
            invariant
                fuel <= PEER_PROBES,
                self.run(*facts, step, fuel as nat) == self.outcome(peer, *facts),
            decreases fuel,
        {
            match step {
                PeerStep::Ask(probe) => {
                    assert(fuel > 0);
                    step = self.next(probe, facts.answer(probe));
                    fuel = fuel - 1;
                },
                PeerStep::Reposition(t) => {
                    return Some(t);
                },
                _ => {
                    return None;
                },
            }
        }
    }
}

/// Probes a visit may ask before it settles.
pub const PEER_PROBES: usize = 8;

pub open spec fn after_move_spec(accepted: bool) -> PeerStep {
    if accepted {
        PeerStep::Stop
    } else {
        PeerStep::Continue
    }
}

/// The step after a reposition: an accepted move ends the walk, a refused one
/// lets it go on to the next peer.
pub fn after_move(accepted: bool) -> (r: PeerStep)
    ensures
        r == after_move_spec(accepted),
{
    if accepted {
        PeerStep::Stop
    } else {
        PeerStep::Continue
    }
}

/// A peer as the walk meets it: its handle, what the OS answers about it, and
/// whether the OS accepts the reposition that it may lead to.
pub type PeerView = (usize, WindowFacts, bool);

/// The walk over peers in enumeration order: the repositions it asks for, in
/// order, and the number of peers it visits before it ends.
pub open spec fn walk(s: SnapSession, peers: Seq<PeerView>) -> (Seq<Rect>, nat)
    decreases peers.len(),
{
    if peers.len() == 0 {
        (Seq::empty(), 0)
    } else {
        let (peer, f, accepted) = peers[0];
        let rest = walk(s, peers.drop_first());
        match s.outcome(peer, f) {
            PeerStep::Reposition(t) => if after_move_spec(accepted) == PeerStep::Stop {
                (seq![t], 1)
            } else {
                (seq![t] + rest.0, rest.1 + 1)
            },
            _ => (rest.0, rest.1 + 1),
        }
    }
}

/// The first peer to call for a reposition that the OS accepts is the only one
/// repositioned against, and the walk ends right after it: peers that come
/// later are not visited, however close they are.
pub proof fn lemma_first_match_wins(s: SnapSession, peers: Seq<PeerView>, i: int)
    requires
        0 <= i < peers.len(),
        forall|k: int| 0 <= k < i ==> s.target(#[trigger] peers[k].0, peers[k].1) is None,
        s.target(peers[i].0, peers[i].1) is Some,
        peers[i].2,
    ensures
        walk(s, peers) == (seq![s.target(peers[i].0, peers[i].1)->0], (i + 1) as nat),
    decreases i,
{
    if i > 0 {
        let rest = peers.drop_first();
        assert forall|k: int| 0 <= k < i - 1 implies s.target(#[trigger] rest[k].0, rest[k].1) is None by {
            assert(rest[k] == peers[k + 1]);
        }
        lemma_first_match_wins(s, rest, i - 1);
        assert(s.target(peers[0].0, peers[0].1) is None);
    }
}

} // verus!
