use window_snap::eligibility::{WindowFacts, SW_SHOWMAXIMIZED, SW_SHOWMINIMIZED};
use window_snap::engine::{
    after_move, is_snap_event, is_window_maximized, is_window_minimized, PeerStep, SnapSession,
    CHILDID_SELF, EVENT_SYSTEM_MOVESIZEEND,
};
use window_snap::geometry::{Rect, SNAP_THRESHOLD};

fn peer(frame: Rect) -> WindowFacts {
    WindowFacts {
        show_cmd: Some(1),
        visible: true,
        cloaked: Some(0),
        ex_style: Some(0x100),
        style: Some(0x10CF_0000),
        owner: 0,
        titlebar_state: Some(0),
        frame: Some(frame),
    }
}

struct FakePeer {
    handle: usize,
    facts: WindowFacts,
    accepts_move: bool,
}

/// Enumerates `peers` in order as the OS would, driving the session's step
/// function. Returns the repositions requested and the number of peers visited.
fn walk(s: &SnapSession, peers: &[FakePeer]) -> (Vec<Rect>, usize) {
    let mut moves = Vec::new();
    let mut visited = 0;
    for p in peers {
        visited += 1;
        let mut step = s.start(p.handle);
        loop {
            match step {
                PeerStep::Ask(probe) => step = s.next(probe, p.facts.answer(probe)),
                PeerStep::Reposition(t) => {
                    moves.push(t);
                    step = after_move(p.accepts_move);
                }
                PeerStep::Continue | PeerStep::Stop => break,
            }
        }
        if step == PeerStep::Stop {
            break;
        }
    }
    (moves, visited)
}

#[test]
fn only_move_size_end_of_whole_window_starts_a_snap() {
    assert!(is_snap_event(EVENT_SYSTEM_MOVESIZEEND, CHILDID_SELF));
    assert!(!is_snap_event(EVENT_SYSTEM_MOVESIZEEND, 3));
    assert!(!is_snap_event(0x000A, CHILDID_SELF));
}

#[test]
fn show_states() {
    assert!(is_window_minimized(SW_SHOWMINIMIZED));
    assert!(!is_window_minimized(1));
    assert!(is_window_maximized(SW_SHOWMAXIMIZED));
    assert!(!is_window_maximized(SW_SHOWMINIMIZED));
}

#[test]
fn session_uses_standard_threshold() {
    let s = SnapSession::new(9, Rect::new(1, 2, 3, 4));
    assert_eq!(s.threshold, SNAP_THRESHOLD);
    assert_eq!(s.moved, 9);
    assert_eq!(s.frame, Rect::new(1, 2, 3, 4));
}

#[test]
fn near_peer_gives_left_snap() {
    let s = SnapSession::new(1, Rect::new(100, 100, 300, 300));
    let f = peer(Rect::new(305, 90, 500, 290));
    assert_eq!(s.target_for(2, &f), Some(Rect::new(100, 100, 305, 300)));
}

#[test]
fn far_peer_never_repositions() {
    let s = SnapSession::new(1, Rect::new(100, 100, 300, 300));
    let peers = [FakePeer { handle: 2, facts: peer(Rect::new(1000, 1000, 1200, 1200)), accepts_move: true }];
    assert_eq!(walk(&s, &peers), (vec![], 1));
}

#[test]
fn moved_window_is_not_its_own_peer() {
    let s = SnapSession::new(1, Rect::new(100, 100, 130, 300));
    let f = peer(Rect::new(100, 100, 130, 300));
    assert_eq!(s.start(1), PeerStep::Continue);
    assert_eq!(s.target_for(1, &f), None);
}

#[test]
fn minimized_maximized_and_hidden_peers_are_skipped() {
    let s = SnapSession::new(1, Rect::new(100, 100, 300, 300));
    let near = Rect::new(305, 90, 500, 290);
    let mut f = peer(near);
    f.show_cmd = Some(SW_SHOWMINIMIZED);
    assert_eq!(s.target_for(2, &f), None);
    f.show_cmd = Some(SW_SHOWMAXIMIZED);
    assert_eq!(s.target_for(2, &f), None);
    f.show_cmd = None;
    assert_eq!(s.target_for(2, &f), None);
    let mut g = peer(near);
    g.visible = false;
    assert_eq!(s.target_for(2, &g), None);
    let mut h = peer(near);
    h.frame = None;
    assert_eq!(s.target_for(2, &h), None);
}

#[test]
fn first_matching_peer_wins_and_walk_stops() {
    let s = SnapSession::new(1, Rect::new(100, 100, 300, 300));
    let peers = [
        FakePeer { handle: 2, facts: peer(Rect::new(1000, 1000, 1200, 1200)), accepts_move: true },
        FakePeer { handle: 3, facts: peer(Rect::new(320, 90, 500, 290)), accepts_move: true },
        FakePeer { handle: 4, facts: peer(Rect::new(305, 90, 500, 290)), accepts_move: true },
        FakePeer { handle: 5, facts: peer(Rect::new(-300, 90, 95, 290)), accepts_move: true },
    ];
    assert_eq!(walk(&s, &peers), (vec![Rect::new(100, 100, 320, 300)], 2));
}

#[test]
fn refused_move_lets_walk_go_on() {
    let s = SnapSession::new(1, Rect::new(100, 100, 300, 300));
    let peers = [
        FakePeer { handle: 3, facts: peer(Rect::new(320, 90, 500, 290)), accepts_move: false },
        FakePeer { handle: 4, facts: peer(Rect::new(600, 330, 900, 500)), accepts_move: true },
        FakePeer { handle: 5, facts: peer(Rect::new(305, 90, 500, 290)), accepts_move: true },
    ];
    assert_eq!(
        walk(&s, &peers),
        (vec![Rect::new(100, 100, 320, 300), Rect::new(100, 100, 300, 330)], 2)
    );
}

#[test]
fn after_move_outcomes() {
    assert_eq!(after_move(true), PeerStep::Stop);
    assert_eq!(after_move(false), PeerStep::Continue);
}
