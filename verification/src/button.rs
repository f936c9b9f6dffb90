mod press_duration;
mod press_kind;

use vstd::prelude::*;
use crate::shared_const::BUTTON_DEBOUNCE_DELAY_IN_MS;
use crate::time::{Duration, Instant};

pub use press_duration::PressDuration;
pub use press_kind::PressKind;

verus! {

/// What the monitor waits for on the input line.
#[derive(Clone, Copy, Debug, PartialEq, Eq, Structural, Hash)]
pub enum InputWait {
    /// For the line to go from low to high: the button goes down.
    RisingEdge,
    /// For the line to go from high to low: the button comes up.
    FallingEdge,
    /// For `millis` milliseconds to pass, during which the line is not looked at.
    Settle { millis: u64 },
}

/// Where the monitor stands in one press, with times in microseconds.
pub enum PressPhase {
    /// No press is under way.
    Idle,
    /// The button went down at `pressed_at`; the line is settling.
    DebouncePress { pressed_at: nat },
    /// The button is down since `pressed_at`.
    AwaitRelease { pressed_at: nat },
    /// The button came up after `held` microseconds; the line is settling.
    DebounceRelease { held: nat },
}

#[derive(Debug)]
enum State {
    Idle,
    DebouncePress { pressed_at: Instant },
    AwaitRelease { pressed_at: Instant },
    DebounceRelease { held: Duration },
}

/// The state machine that turns the edges of the input line into presses.
///
/// Whoever owns the line asks `pending_wait` what to wait for, waits, and reports the end of
/// the wait with `wait_for_press`, until that returns a press.
#[derive(Debug)]
pub struct Button {
    state: State,
}

impl PressPhase {
    /// What the monitor waits for in a phase.
    pub open spec fn pending_wait(self) -> InputWait {
        match self {
            PressPhase::Idle => InputWait::RisingEdge,
            PressPhase::DebouncePress { .. } => InputWait::Settle {
                millis: BUTTON_DEBOUNCE_DELAY_IN_MS,
            },
            PressPhase::AwaitRelease { .. } => InputWait::FallingEdge,
            PressPhase::DebounceRelease { .. } => InputWait::Settle {
                millis: BUTTON_DEBOUNCE_DELAY_IN_MS,
            },
        }
    }

    /// Whether the wait of a phase can have ended at `now`: the button cannot come up before
    /// it went down.
    pub open spec fn accepts(self, now: nat) -> bool {
        self matches PressPhase::AwaitRelease { pressed_at } ==> pressed_at <= now
    }

    /// The phase that follows when the wait of this one ends at `now`. The hold is counted
    /// from the edge on which the button went down to the edge on which it came up, so it
    /// takes in the time the line settled after the first edge.
    pub open spec fn resumed(self, now: nat) -> PressPhase {
        match self {
            PressPhase::Idle => PressPhase::DebouncePress { pressed_at: now },
            PressPhase::DebouncePress { pressed_at } => PressPhase::AwaitRelease { pressed_at },
            PressPhase::AwaitRelease { pressed_at } => PressPhase::DebounceRelease {
                held: (now - pressed_at) as nat,
            },
            PressPhase::DebounceRelease { .. } => PressPhase::Idle,
        }
    }

    /// The press that is complete when the wait of this phase ends, if one is.
    pub open spec fn outcome(self) -> Option<PressDuration> {
        match self {
            PressPhase::DebounceRelease { held } => Some(PressDuration::classify(held)),
            _ => None,
        }
    }

    /// One press takes four waits: for the button to go down, for the line to settle, for the
    /// button to come up, for the line to settle again. Only the end of the last one yields a
    /// press, it leaves the monitor idle, and the press is classified by the time between the
    /// two edges alone.
    pub proof fn lemma_press_cycle(down: nat, settled: nat, up: nat, done: nat)
        requires
            down <= up,
        ensures
            PressPhase::Idle.outcome().is_none(),
            PressPhase::Idle.resumed(down).outcome().is_none(),
            PressPhase::Idle.resumed(down).resumed(settled).outcome().is_none(),
            PressPhase::Idle.resumed(down).resumed(settled).accepts(up),
            PressPhase::Idle.resumed(down).resumed(settled).resumed(up).outcome() == Some(
                PressDuration::classify((up - down) as nat),
            ),
            PressPhase::Idle.resumed(down).resumed(settled).resumed(up).resumed(done)
                == PressPhase::Idle,
    {
    }
}

impl View for Button {
    type V = PressPhase;

    closed spec fn view(&self) -> PressPhase {
        match self.state {
            State::Idle => PressPhase::Idle,
            State::DebouncePress { pressed_at } => PressPhase::DebouncePress {
                pressed_at: pressed_at@,
            },
            State::AwaitRelease { pressed_at } => PressPhase::AwaitRelease {
                pressed_at: pressed_at@,
            },
            State::DebounceRelease { held } => PressPhase::DebounceRelease { held: held@ },
        }
    }
}

impl Button {
    /// A monitor with no press under way.
    pub fn new() -> (button: Button)
        ensures
            button@ == PressPhase::Idle,
    {
        Button { state: State::Idle }
    }

    /// What to wait for next.
    pub fn pending_wait(&self) -> (wait: InputWait)
        ensures
            wait == self@.pending_wait(),
    {
        match self.state {
            State::Idle => InputWait::RisingEdge,
            State::DebouncePress { .. } => InputWait::Settle {
                millis: BUTTON_DEBOUNCE_DELAY_IN_MS,
            },
            State::AwaitRelease { .. } => InputWait::FallingEdge,
            State::DebounceRelease { .. } => InputWait::Settle {
                millis: BUTTON_DEBOUNCE_DELAY_IN_MS,
            },
        }
    }

    /// Whether the pending wait can have ended at `now`. It cannot where the button would have
    /// come up before it went down, which no clock that runs forward reports.
    pub fn accepts(&self, now: Instant) -> (accepted: bool)
        ensures
            accepted == self@.accepts(now@),
    {
        match self.state {
            State::AwaitRelease { pressed_at } => pressed_at.as_micros() <= now.as_micros(),
            _ => true,
        }
    }

    /// Takes in that the pending wait ended at `now`, and returns the press once it is
    /// complete: `None` means that there is more to wait for.
    pub fn wait_for_press(&mut self, now: Instant) -> (press: Option<PressDuration>)
        requires
            old(self)@.accepts(now@),
        ensures
            final(self)@ == old(self)@.resumed(now@),
            press == old(self)@.outcome(),
    {
        match self.state {
            State::Idle => {
                self.state = State::DebouncePress { pressed_at: now };
                None
            },
            State::DebouncePress { pressed_at } => {
                self.state = State::AwaitRelease { pressed_at };
                None
            },
            State::AwaitRelease { pressed_at } => {
                self.state = State::DebounceRelease { held: now.duration_since(pressed_at) };
                None
            },
            State::DebounceRelease { held } => {
                self.state = State::Idle;
                Some(PressDuration::from(held))
            },
        }
    }
}

} // verus!
