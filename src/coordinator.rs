use vstd::prelude::*;

verus! {

/// The stages of a remapping session.
#[derive(Clone, Copy, Debug, PartialEq, Eq, Structural)]
pub enum Phase {
    Idle,
    Grabbing,
    Running,
    Draining,
    Terminated,
}

/// What the runner reports back after it performed an action, or what happened meanwhile.
#[derive(Clone, Copy, Debug, PartialEq, Eq, Structural)]
pub enum Signal {
    Start,
    GrabSucceeded,
    GrabFailed,
    SyntheticBuilt,
    SyntheticFailed,
    ReadFailed,
    WriterStopped,
    Shutdown,
    Drained,
}

/// What the runner must do next.
#[derive(Clone, Copy, Debug, PartialEq, Eq, Structural)]
pub enum Action {
    /// Nothing to do.
    Wait,
    /// Take exclusive access to the physical device.
    AcquireGrab,
    /// Build the synthetic device.
    BuildSynthetic,
    /// Start the reader and the writer.
    StartUnits,
    /// Stop reading and let the writer flush what the channel holds.
    DrainWriter,
    /// Release the synthetic device and the grab on the physical device.
    ReleaseGrab,
    /// Give up without holding anything.
    Abort,
}

/// The session's phase, and whether it holds the grab on the physical device.
#[derive(Clone, Copy, Debug, PartialEq, Eq, Structural)]
pub struct Coordinator {
    pub phase: Phase,
    pub holds_grab: bool,
}

/// Ends the session, releasing the grab where it is held.
pub open spec fn terminate_spec(c: Coordinator, otherwise: Action) -> (Coordinator, Action) {
    (
        Coordinator { phase: Phase::Terminated, holds_grab: false },
        if c.holds_grab {
            Action::ReleaseGrab
        } else {
            otherwise
        },
    )
}

/// One transition of the session.
pub open spec fn next_spec(c: Coordinator, s: Signal) -> (Coordinator, Action) {
    match c.phase {
        Phase::Idle => match s {
            Signal::Start => (Coordinator { phase: Phase::Grabbing, ..c }, Action::AcquireGrab),
            Signal::Shutdown => terminate_spec(c, Action::Wait),
            _ => (c, Action::Wait),
        },
        Phase::Grabbing => match s {
            Signal::GrabSucceeded => if !c.holds_grab {
                (Coordinator { phase: Phase::Grabbing, holds_grab: true }, Action::BuildSynthetic)
            } else {
                (c, Action::Wait)
            },
            Signal::GrabFailed => if !c.holds_grab {
                terminate_spec(c, Action::Abort)
            } else {
                (c, Action::Wait)
            },
            Signal::SyntheticBuilt => if c.holds_grab {
                (Coordinator { phase: Phase::Running, holds_grab: true }, Action::StartUnits)
            } else {
                (c, Action::Wait)
            },
            Signal::SyntheticFailed => terminate_spec(c, Action::Abort),
            Signal::Shutdown => terminate_spec(c, Action::Wait),
            _ => (c, Action::Wait),
        },
        Phase::Running => match s {
            Signal::ReadFailed => (Coordinator { phase: Phase::Draining, ..c }, Action::DrainWriter),
            Signal::Shutdown => (Coordinator { phase: Phase::Draining, ..c }, Action::DrainWriter),
            Signal::WriterStopped => terminate_spec(c, Action::Wait),
            _ => (c, Action::Wait),
        },
        Phase::Draining => match s {
            Signal::Drained => terminate_spec(c, Action::Wait),
            Signal::WriterStopped => terminate_spec(c, Action::Wait),
            _ => (c, Action::Wait),
        },
        Phase::Terminated => (c, Action::Wait),
    }
}

/// The state reached, and the actions asked for in order, after a sequence of signals.
pub open spec fn run_spec(c: Coordinator, signals: Seq<Signal>) -> (Coordinator, Seq<Action>)
    decreases signals.len(),
{
    if signals.len() == 0 {
        (c, Seq::empty())
    } else {
        let (mid, acts) = run_spec(c, signals.drop_last());
        let (last, a) = next_spec(mid, signals.last());
        (last, acts.push(a))
    }
}

/// How many times `a` occurs in `acts`.
pub open spec fn count_action(acts: Seq<Action>, a: Action) -> nat
    decreases acts.len(),
{
    if acts.len() == 0 {
        0
    } else {
        count_action(acts.drop_last(), a) + if acts.last() == a {
            1nat
        } else {
            0nat
        }
    }
}

/// The grab may still be taken from this state.
pub open spec fn can_acquire(c: Coordinator) -> bool {
    !c.holds_grab && (c.phase == Phase::Idle || c.phase == Phase::Grabbing)
}

pub open spec fn consistent(c: Coordinator) -> bool {
    c.phase == Phase::Terminated ==> !c.holds_grab
}

pub open spec fn bit(b: bool) -> nat {
    if b {
        1
    } else {
        0
    }
}

proof fn lemma_step(c: Coordinator, s: Signal)
    ensures
        ({
            let (t, a) = next_spec(c, s);
            &&& consistent(c) ==> consistent(t)
            &&& a == Action::ReleaseGrab ==> c.holds_grab && !t.holds_grab
            &&& a == Action::BuildSynthetic ==> !c.holds_grab && t.holds_grab && can_acquire(c)
                && !can_acquire(t)
            &&& a != Action::ReleaseGrab && a != Action::BuildSynthetic ==> t.holds_grab
                == c.holds_grab
            &&& can_acquire(t) ==> can_acquire(c)
        }),
{
}

proof fn lemma_run(c: Coordinator, signals: Seq<Signal>)
    requires
        consistent(c),
    ensures
        ({
            let (t, acts) = run_spec(c, signals);
            &&& consistent(t)
            &&& count_action(acts, Action::ReleaseGrab) + bit(t.holds_grab) == count_action(
                acts,
                Action::BuildSynthetic,
            ) + bit(c.holds_grab)
            &&& count_action(acts, Action::BuildSynthetic) + bit(can_acquire(t)) <= bit(
                can_acquire(c),
            )
        }),
    decreases signals.len(),
{
    if signals.len() > 0 {
        lemma_run(c, signals.drop_last());
        let (mid, acts) = run_spec(c, signals.drop_last());
        lemma_step(mid, signals.last());
        let (t, a) = next_spec(mid, signals.last());
        assert(acts.push(a).drop_last() =~= acts);
    }
}

/// From the start of a session, whatever signals come (a failed read at any point
/// included), the grab is taken at most once and released at most once, never while it is
/// not held; and once the session has terminated, it has been released exactly as often as
/// it was taken.
pub proof fn lemma_grab_released_once(signals: Seq<Signal>)
    ensures
        ({
            let (t, acts) = run_spec(Coordinator::initial(), signals);
            let grabs = count_action(acts, Action::BuildSynthetic);
            let releases = count_action(acts, Action::ReleaseGrab);
            &&& grabs <= 1
            &&& releases <= grabs
            &&& releases + bit(t.holds_grab) == grabs
            &&& t.phase == Phase::Terminated ==> releases == grabs
        }),
{
    lemma_run(Coordinator::initial(), signals);
}

impl Coordinator {
    pub open spec fn initial() -> Coordinator {
        Coordinator { phase: Phase::Idle, holds_grab: false }
    }

    pub fn new() -> (r: Coordinator)
        ensures
            r == Coordinator::initial(),
    {
        Coordinator { phase: Phase::Idle, holds_grab: false }
    }

    fn terminate(&mut self, otherwise: Action) -> (r: Action)
        ensures
            (*final(self), r) == terminate_spec(*old(self), otherwise),
    {
        let r = if self.holds_grab {
            Action::ReleaseGrab
        } else {
            otherwise
        };
        self.phase = Phase::Terminated;
        self.holds_grab = false;
        r
    }

    /// Takes one signal and says what to do next.
    pub fn step(&mut self, s: Signal) -> (r: Action)
        ensures
            (*final(self), r) == next_spec(*old(self), s),
    {
        match self.phase {
            Phase::Idle => match s {
                Signal::Start => {
                    self.phase = Phase::Grabbing;
                    Action::AcquireGrab
                },
                Signal::Shutdown => self.terminate(Action::Wait),
                _ => Action::Wait,
            },
            Phase::Grabbing => match s {
                Signal::GrabSucceeded => if !self.holds_grab {
                    self.holds_grab = true;
                    Action::BuildSynthetic
                } else {
                    Action::Wait
                },
                Signal::GrabFailed => if !self.holds_grab {
                    self.terminate(Action::Abort)
                } else {
                    Action::Wait
                },
                Signal::SyntheticBuilt => if self.holds_grab {
                    self.phase = Phase::Running;
                    Action::StartUnits
                } else {
                    Action::Wait
                },
                Signal::SyntheticFailed => self.terminate(Action::Abort),
                Signal::Shutdown => self.terminate(Action::Wait),
                _ => Action::Wait,
            },
            Phase::Running => match s {
                Signal::ReadFailed | Signal::Shutdown => {
                    self.phase = Phase::Draining;
                    Action::DrainWriter
                },
                Signal::WriterStopped => self.terminate(Action::Wait),
                _ => Action::Wait,
            },
            Phase::Draining => match s {
                Signal::Drained | Signal::WriterStopped => self.terminate(Action::Wait),
                _ => Action::Wait,
            },
            Phase::Terminated => Action::Wait,
        }
    }

    pub fn is_terminated(&self) -> (r: bool)
        ensures
            r == (self.phase == Phase::Terminated),
    {
        match self.phase {
            Phase::Terminated => true,
            _ => false,
        }
    }
}

} // verus!
