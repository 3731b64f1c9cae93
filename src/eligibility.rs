//! Which windows a taskbar would show. The test is a chain of OS queries that
//! stops at the first one that settles it; it is written as a step function so
//! that the caller makes each query only when the previous answer asks for it.
use crate::geometry::Rect;
use vstd::prelude::*;

verus! {

/// Extended style bit: the window always appears on the taskbar.
pub const WS_EX_APPWINDOW: u32 = 0x0004_0000;

/// Extended style bit: a floating tool window.
pub const WS_EX_TOOLWINDOW: u32 = 0x0000_0080;

/// Extended style bit: the window does not become the foreground window.
pub const WS_EX_NOACTIVATE: u32 = 0x0800_0000;

/// Style bit: a child window.
pub const WS_CHILD: u32 = 0x4000_0000;

/// Title bar state bit: the title bar is not shown.
pub const STATE_SYSTEM_INVISIBLE: u32 = 0x0000_8000;

/// Show state of a minimized window.
pub const SW_SHOWMINIMIZED: u32 = 2;

/// Show state of a maximized window.
pub const SW_SHOWMAXIMIZED: u32 = 3;

/// A question about one window that the caller answers by querying the OS.
#[derive(Clone, Copy, Debug, PartialEq, Eq, Structural)]
pub enum Probe {
    /// Its show state, from its placement.
    Placement,
    /// Whether it is showing.
    Visible,
    /// Its compositor cloak attribute; nonzero means cloaked.
    Cloaked,
    /// Its extended style bits.
    ExtendedStyle,
    /// Its style bits.
    Style,
    /// Its owner window, zero when it has none.
    Owner,
    /// The state bits of its title bar.
    TitlebarState,
    /// Its visual frame.
    Frame,
}

/// The caller's answer to a probe.
#[derive(Clone, Copy, Debug, PartialEq, Eq, Structural)]
pub enum Reply {
    Flag(bool),
    Bits(u32),
    Window(usize),
    Bounds(Rect),
    /// The query failed, most likely because the window is gone.
    Failed,
}

/// Either the next probe to answer, or the final answer.
#[derive(Clone, Copy, Debug, PartialEq, Eq, Structural)]
pub enum Verdict {
    Ask(Probe),
    Decided(bool),
}

/// Everything the OS would answer about one window. A `None` is a query
/// that fails.
#[derive(Clone, Copy, Debug, PartialEq, Eq, Structural)]
pub struct WindowFacts {
    pub show_cmd: Option<u32>,
    pub visible: bool,
    pub cloaked: Option<u32>,
    pub ex_style: Option<u32>,
    pub style: Option<u32>,
    pub owner: usize,
    pub titlebar_state: Option<u32>,
    pub frame: Option<Rect>,
}

pub open spec fn bits_reply(b: Option<u32>) -> Reply {
    match b {
        Some(v) => Reply::Bits(v),
        None => Reply::Failed,
    }
}

impl WindowFacts {
    /// The reply these facts give to `probe`.
    pub open spec fn reply_to(self, probe: Probe) -> Reply {
        match probe {
            Probe::Placement => bits_reply(self.show_cmd),
            Probe::Visible => Reply::Flag(self.visible),
            Probe::Cloaked => bits_reply(self.cloaked),
            Probe::ExtendedStyle => bits_reply(self.ex_style),
            Probe::Style => bits_reply(self.style),
            Probe::Owner => Reply::Window(self.owner),
            Probe::TitlebarState => bits_reply(self.titlebar_state),
            Probe::Frame => match self.frame {
                Some(r) => Reply::Bounds(r),
                None => Reply::Failed,
            },
        }
    }

    pub fn answer(&self, probe: Probe) -> (r: Reply)
        ensures
            r == self.reply_to(probe),
    {
        let bits = |b: Option<u32>| -> (r: Reply)
            ensures
                r == bits_reply(b),
            {
                match b {
                    Some(v) => Reply::Bits(v),
                    None => Reply::Failed,
                }
            };
        match probe {
            Probe::Placement => bits(self.show_cmd),
            Probe::Visible => Reply::Flag(self.visible),
            Probe::Cloaked => bits(self.cloaked),
            Probe::ExtendedStyle => bits(self.ex_style),
            Probe::Style => bits(self.style),
            Probe::Owner => Reply::Window(self.owner),
            Probe::TitlebarState => bits(self.titlebar_state),
            Probe::Frame => match self.frame {
                Some(r) => Reply::Bounds(r),
                None => Reply::Failed,
            },
        }
    }
}

/// The taskbar rules, stated directly: a window is shown when it is visible,
/// not cloaked, and either has the app-window extended style, or has neither
/// the tool-window nor the no-activate extended style, is no child, has no
/// owner and shows its title bar. A failed query excludes the window.
pub open spec fn taskbar_eligible(f: WindowFacts) -> bool {
    &&& f.visible
    &&& f.cloaked == Some(0u32)
    &&& f.ex_style matches Some(x)
    &&& {
        ||| x & WS_EX_APPWINDOW != 0
        ||| {
            &&& x & (WS_EX_TOOLWINDOW | WS_EX_NOACTIVATE) == 0
            &&& f.style matches Some(s) && s & WS_CHILD == 0
            &&& f.owner == 0
            &&& f.titlebar_state matches Some(t) && t & STATE_SYSTEM_INVISIBLE == 0
        }
    }
}

/// One step of the taskbar test: what `reply` to `probe` settles, or which
/// probe comes next. A failed or mismatched reply settles it as not shown.
pub open spec fn eligibility_next(probe: Probe, reply: Reply) -> Verdict {
    match (probe, reply) {
        (Probe::Visible, Reply::Flag(shown)) => if shown {
            Verdict::Ask(Probe::Cloaked)
        } else {
            Verdict::Decided(false)
        },
        (Probe::Cloaked, Reply::Bits(c)) => if c == 0 {
            Verdict::Ask(Probe::ExtendedStyle)
        } else {
            Verdict::Decided(false)
        },
        (Probe::ExtendedStyle, Reply::Bits(x)) => if x & WS_EX_APPWINDOW != 0 {
            Verdict::Decided(true)
        } else if x & (WS_EX_TOOLWINDOW | WS_EX_NOACTIVATE) != 0 {
            Verdict::Decided(false)
        } else {
            Verdict::Ask(Probe::Style)
        },
        (Probe::Style, Reply::Bits(s)) => if s & WS_CHILD != 0 {
            Verdict::Decided(false)
        } else {
            Verdict::Ask(Probe::Owner)
        },
        (Probe::Owner, Reply::Window(owner)) => if owner != 0 {
            Verdict::Decided(false)
        } else {
            Verdict::Ask(Probe::TitlebarState)
        },
        (Probe::TitlebarState, Reply::Bits(t)) => Verdict::Decided(t & STATE_SYSTEM_INVISIBLE == 0),
        _ => Verdict::Decided(false),
    }
}

/// The probe the taskbar test starts with.
pub open spec fn eligibility_start() -> Probe {
    Probe::Visible
}

/// The first probe of the taskbar test.
pub fn first_eligibility_probe() -> (p: Probe)
    ensures
        p == eligibility_start(),
{
    Probe::Visible
}

/// Advances the taskbar test by one answered probe.
pub fn eligibility_step(probe: Probe, reply: Reply) -> (v: Verdict)
    ensures
        v == eligibility_next(probe, reply),
{
    match (probe, reply) {
        (Probe::Visible, Reply::Flag(shown)) => if shown {
            Verdict::Ask(Probe::Cloaked)
        } else {
            Verdict::Decided(false)
        },
        (Probe::Cloaked, Reply::Bits(c)) => if c == 0 {
            Verdict::Ask(Probe::ExtendedStyle)
        } else {
            Verdict::Decided(false)
        },
        (Probe::ExtendedStyle, Reply::Bits(x)) => if x & WS_EX_APPWINDOW != 0 {
            Verdict::Decided(true)
        } else if x & (WS_EX_TOOLWINDOW | WS_EX_NOACTIVATE) != 0 {
            Verdict::Decided(false)
        } else {
            Verdict::Ask(Probe::Style)
        },
        (Probe::Style, Reply::Bits(s)) => if s & WS_CHILD != 0 {
            Verdict::Decided(false)
        } else {
            Verdict::Ask(Probe::Owner)
        },
        (Probe::Owner, Reply::Window(owner)) => if owner != 0 {
            Verdict::Decided(false)
        } else {
            Verdict::Ask(Probe::TitlebarState)
        },
        (Probe::TitlebarState, Reply::Bits(t)) => Verdict::Decided(t & STATE_SYSTEM_INVISIBLE == 0),
        _ => Verdict::Decided(false),
    }
}

/// The taskbar test run from `probe` against `f` for at most `fuel` probes:
/// where it ends, and the probes it asked, in order.
pub open spec fn run_eligibility(f: WindowFacts, probe: Probe, fuel: nat) -> (Verdict, Seq<Probe>)
    decreases fuel,
{
    if fuel == 0 {
        (Verdict::Ask(probe), Seq::empty())
    } else {
        match eligibility_next(probe, f.reply_to(probe)) {
            Verdict::Ask(next) => {
                let rest = run_eligibility(f, next, (fuel - 1) as nat);
                (rest.0, seq![probe] + rest.1)
            },
            Verdict::Decided(b) => (Verdict::Decided(b), seq![probe]),
        }
    }
}

/// Probes the taskbar test may ask before it settles.
pub const ELIGIBILITY_PROBES: usize = 6;

/// Run to its end against any window, the step function settles on exactly
/// the taskbar rules.
pub proof fn lemma_eligibility_decides_rules(f: WindowFacts)
    ensures
        run_eligibility(f, eligibility_start(), ELIGIBILITY_PROBES as nat).0 == Verdict::Decided(
            taskbar_eligible(f),
        ),
{
    reveal_with_fuel(run_eligibility, 7);
}

/// A window that is not visible is never shown, and the test settles that on
/// the visibility query alone: no other query is made.
pub proof fn lemma_invisible_settles_at_once(f: WindowFacts)
    requires
        !f.visible,
    ensures
        !taskbar_eligible(f),
        run_eligibility(f, eligibility_start(), ELIGIBILITY_PROBES as nat) == (
            Verdict::Decided(false),
            seq![Probe::Visible],
        ),
{
    reveal_with_fuel(run_eligibility, 2);
}

/// A visible, uncloaked window with the app-window extended style is shown,
/// whatever its other style bits (the tool-window bit among them) say.
pub proof fn lemma_app_window_is_shown(f: WindowFacts)
    requires
        f.visible,
        f.cloaked == Some(0u32),
        f.ex_style matches Some(x) && x & WS_EX_APPWINDOW != 0,
    ensures
        taskbar_eligible(f),
        run_eligibility(f, eligibility_start(), ELIGIBILITY_PROBES as nat).0 == Verdict::Decided(
            true,
        ),
{
    lemma_eligibility_decides_rules(f);
}

/// Whether a window with these facts appears on the taskbar, found by running
/// the step function against them.
pub fn is_taskbar_window(facts: &WindowFacts) -> (r: bool)
    ensures
        r == taskbar_eligible(*facts),
{
    proof {
        lemma_eligibility_decides_rules(*facts);
    }
    let mut probe = first_eligibility_probe();
    let mut fuel: usize = ELIGIBILITY_PROBES;
    loop
        invariant
            fuel <= ELIGIBILITY_PROBES,
            run_eligibility(*facts, probe, fuel as nat).0 == Verdict::Decided(
                taskbar_eligible(*facts),
            ),
        decreases fuel,
    {
        assert(fuel > 0);
        match eligibility_step(probe, facts.answer(probe)) {
            Verdict::Decided(shown) => {
                return shown;
            },
            Verdict::Ask(next) => {
                probe = next;
                fuel = fuel - 1;
            },
        }
    }
}

} // verus!
