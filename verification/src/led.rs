mod driver;
mod mode;

use vstd::prelude::*;
use embassy_executor::SpawnError;
use crate::button::PressDuration;
use crate::error::Error;
use crate::signal::{ModeSignal, SignalHandle};

pub use driver::{DriverEvent, DriverState, DriverWait, LedDriver, Level, PinAction, Render};
pub use mode::LedMode;

verus! {

/// What a controller amounts to.
pub struct LedState {
    /// The mode that is asked for.
    pub mode: LedMode,
    /// The signal through which the driver is told.
    pub signal: ModeSignal,
    /// How many times the controller wrote to the signal.
    pub publishes: nat,
    /// The mode that the controller wrote last.
    pub published: Option<LedMode>,
}

/// The caller's handle on the LED: it holds the mode that is asked for and tells the driver
/// of every change through the signal.
pub struct Led {
    mode: LedMode,
    sender: SignalHandle,
}

impl View for Led {
    type V = LedState;

    closed spec fn view(&self) -> LedState {
        LedState {
            mode: self.mode,
            signal: self.sender@.signal,
            publishes: self.sender@.writes,
            published: self.sender@.last_written,
        }
    }
}

impl LedState {
    /// The state after `mode` was asked for: `mode` was written to the signal, in one write.
    pub open spec fn asked(self, mode: LedMode) -> LedState {
        LedState {
            mode,
            signal: self.signal,
            publishes: self.publishes + 1,
            published: Some(mode),
        }
    }

    /// The state after one advance: the mode has moved on one place round the cycle.
    pub open spec fn advanced(self) -> LedState {
        self.asked(self.mode.successor())
    }

    /// The state after a press was answered: a short press advances, a long press goes back
    /// to the default mode.
    pub open spec fn pressed(self, press: PressDuration) -> LedState {
        match press {
            PressDuration::Short => self.advanced(),
            PressDuration::Long => self.asked(LedMode::FastFlash),
        }
    }

    /// Four advances lead back to the mode they started from, whichever that was, and each of
    /// them is published, on the same signal.
    pub proof fn lemma_four_advances_close(self)
        ensures
            self.advanced().advanced().advanced().advanced().mode == self.mode,
            self.advanced().advanced().advanced().advanced().signal == self.signal,
            self.advanced().advanced().advanced().advanced().published == Some(self.mode),
            self.advanced().advanced().advanced().advanced().publishes == self.publishes + 4,
            self.advanced().mode != self.mode,
            self.advanced().advanced().mode != self.mode,
            self.advanced().advanced().advanced().mode != self.mode,
    {
    }
}

impl Led {
    /// Makes the controller, given what the executor answered when the driver task was handed
    /// to it. Where the executor turned the task down there is no controller, and the
    /// executor's reason is passed on.
    pub fn new(signal: &'static ModeSignal, spawned: Result<(), SpawnError>) -> (led: Result<
        Led,
        Error,
    >)
        ensures
            spawned is Ok ==> (led matches Ok(made) && made@ == (LedState {
                mode: LedMode::FastFlash,
                signal: *signal,
                publishes: 0,
                published: None,
            })),
            spawned matches Err(cause) ==> (led matches Err(error) && error == Error::TaskSpawn(
                cause,
            )),
    {
        match spawned {
            Ok(()) => Ok(Led { mode: LedMode::default(), sender: SignalHandle::new(signal) }),
            Err(cause) => Err(Error::from(cause)),
        }
    }

    /// The mode that is asked for.
    pub fn mode(&self) -> (mode: LedMode)
        ensures
            mode == self@.mode,
    {
        self.mode
    }

    /// Moves on to the next mode of the cycle, tells the driver, and returns the mode that
    /// was asked for before.
    pub fn advance_state(&mut self) -> (previous: LedMode)
        ensures
            previous == old(self)@.mode,
            final(self)@ == old(self)@.advanced(),
    {
        let old_mode = self.mode;
        self.mode = old_mode.next_cycle();
        self.sender.signal(self.mode);
        old_mode
    }

    /// Asks for `mode`, tells the driver, and returns the mode that was asked for before.
    pub fn set_mode(&mut self, mode: LedMode) -> (previous: LedMode)
        ensures
            previous == old(self)@.mode,
            final(self)@ == old(self)@.asked(mode),
    {
        let old_mode = self.mode;
        self.mode = mode;
        self.sender.signal(self.mode);
        old_mode
    }

    /// Goes back to the default mode, tells the driver, and returns the mode that was asked
    /// for before.
    pub fn reset(&mut self) -> (previous: LedMode)
        ensures
            previous == old(self)@.mode,
            final(self)@ == old(self)@.asked(LedMode::FastFlash),
    {
        self.set_mode(LedMode::default())
    }

    /// Answers a press: a short one advances the mode, a long one resets it. Returns the mode
    /// that was asked for before.
    pub fn handle_press(&mut self, press: PressDuration) -> (previous: LedMode)
        ensures
            previous == old(self)@.mode,
            final(self)@ == old(self)@.pressed(press),
    {
        match press {
            PressDuration::Long => self.reset(),
            PressDuration::Short => self.advance_state(),
        }
    }
}

} // verus!
