use vstd::prelude::*;
use crate::led::LedMode;
use crate::shared_const::{FAST_FLASH_DELAY_IN_MS, SLOW_FLASH_DELAY_IN_MS};

verus! {

/// The level of the output line.
#[derive(Clone, Copy, Debug, PartialEq, Eq, Structural, Hash)]
pub enum Level {
    Low,
    High,
}

/// What the driver does to the output line when it enters a mode.
#[derive(Clone, Copy, Debug, PartialEq, Eq, Structural, Hash)]
pub enum PinAction {
    Toggle,
    SetHigh,
    SetLow,
}

/// What the driver waits for once it has entered a mode.
#[derive(Clone, Copy, Debug, PartialEq, Eq, Structural, Hash)]
pub enum DriverWait {
    /// For a new mode, but no longer than `millis` milliseconds.
    TimerOrSignal { millis: u64 },
    /// For a new mode, however long that takes.
    SignalOnly,
}

/// What ended a wait of the driver.
#[derive(Clone, Copy, Debug, PartialEq, Eq, Structural, Hash)]
pub enum DriverEvent {
    /// The interval ran out and no new mode had come.
    TimerElapsed,
    /// A new mode came.
    ModeReceived(LedMode),
}

/// The two things to do on entering a mode: first drive the line, then wait.
#[derive(Clone, Copy, Debug, PartialEq, Eq, Structural, Hash)]
pub struct Render {
    pub action: PinAction,
    pub wait: DriverWait,
}

/// What a driver amounts to: the mode it shows and the level its line is at.
pub struct DriverState {
    pub mode: LedMode,
    pub level: Level,
}

/// The state machine of the task that owns the output line.
///
/// The task runs `render`, drives the line and waits as told, then reports with `resume` what
/// ended the wait, and starts over. It never ends.
#[derive(Debug)]
pub struct LedDriver {
    mode: LedMode,
    level: Level,
}

impl Level {
    /// The other level.
    pub open spec fn toggled(self) -> Level {
        match self {
            Level::Low => Level::High,
            Level::High => Level::Low,
        }
    }
}

impl PinAction {
    /// The action with which a mode is entered: the flashing modes toggle the line, the steady
    /// ones set it.
    pub open spec fn on_entering(mode: LedMode) -> PinAction {
        match mode {
            LedMode::FastFlash => PinAction::Toggle,
            LedMode::SlowFlash => PinAction::Toggle,
            LedMode::On => PinAction::SetHigh,
            LedMode::Off => PinAction::SetLow,
        }
    }

    /// The level of a line that was at `level` before the action.
    pub open spec fn apply(self, level: Level) -> Level {
        match self {
            PinAction::Toggle => level.toggled(),
            PinAction::SetHigh => Level::High,
            PinAction::SetLow => Level::Low,
        }
    }
}

impl DriverWait {
    /// The wait that belongs to a mode: the flashing modes wait one interval at most, the
    /// steady ones wait for a new mode alone.
    pub open spec fn in_mode(mode: LedMode) -> DriverWait {
        match mode {
            LedMode::FastFlash => DriverWait::TimerOrSignal { millis: FAST_FLASH_DELAY_IN_MS },
            LedMode::SlowFlash => DriverWait::TimerOrSignal { millis: SLOW_FLASH_DELAY_IN_MS },
            LedMode::On => DriverWait::SignalOnly,
            LedMode::Off => DriverWait::SignalOnly,
        }
    }
}

impl DriverEvent {
    /// The event that ends a wait, given what has become ready. A mode that came goes first,
    /// also where the interval has run out as well. An interval counts only in a wait that
    /// has one. With neither the wait goes on.
    pub open spec fn select(wait: DriverWait, received: Option<LedMode>, timer_elapsed: bool)
        -> Option<DriverEvent> {
        match received {
            Some(mode) => Some(DriverEvent::ModeReceived(mode)),
            None => if timer_elapsed && wait is TimerOrSignal {
                Some(DriverEvent::TimerElapsed)
            } else {
                None
            },
        }
    }

    /// Decides what ended a wait, if anything did, from what has become ready.
    pub fn resolve(wait: DriverWait, received: Option<LedMode>, timer_elapsed: bool) -> (event:
        Option<DriverEvent>)
        ensures
            event == Self::select(wait, received, timer_elapsed),
    {
        match received {
            Some(mode) => Some(DriverEvent::ModeReceived(mode)),
            None => match wait {
                DriverWait::TimerOrSignal { .. } => if timer_elapsed {
                    Some(DriverEvent::TimerElapsed)
                } else {
                    None
                },
                DriverWait::SignalOnly => None,
            },
        }
    }

    /// A mode that came ends every wait, whether or not the interval has run out as well.
    pub proof fn lemma_signal_goes_first(wait: DriverWait, mode: LedMode, timer_elapsed: bool)
        ensures
            Self::select(wait, Some(mode), timer_elapsed) == Some(DriverEvent::ModeReceived(mode)),
    {
    }

    /// Nothing but a mode that came ends the wait of a steady mode.
    pub proof fn lemma_steady_wait_ends_on_signal_only(
        mode: LedMode,
        received: Option<LedMode>,
        timer_elapsed: bool,
    )
        requires
            !mode.flashes(),
        ensures
            Self::select(DriverWait::in_mode(mode), None, timer_elapsed).is_none(),
            Self::select(DriverWait::in_mode(mode), received, timer_elapsed).is_some()
                <==> received.is_some(),
    {
    }
}

impl DriverState {
    /// The state after entering the current mode: the line has been driven, the mode stays.
    pub open spec fn rendered(self) -> DriverState {
        DriverState { mode: self.mode, level: PinAction::on_entering(self.mode).apply(self.level) }
    }

    /// The state after a wait has ended: a mode that came is taken on, a run-out interval
    /// changes nothing. The line is not touched.
    pub open spec fn resumed(self, event: DriverEvent) -> DriverState {
        match event {
            DriverEvent::TimerElapsed => self,
            DriverEvent::ModeReceived(mode) => DriverState { mode, level: self.level },
        }
    }

    /// The state after `ticks` rounds of entering the mode and seeing the interval run out.
    pub open spec fn after_ticks(self, ticks: nat) -> DriverState
        decreases ticks,
    {
        if ticks == 0 {
            self
        } else {
            self.after_ticks((ticks - 1) as nat).rendered().resumed(DriverEvent::TimerElapsed)
        }
    }

    /// A steady mode waits for a new mode alone, so no interval can end its wait; entering it
    /// never toggles the line but puts it at the mode's level, and entering it again leaves
    /// the line there. Even a run-out interval would not change the mode.
    pub proof fn lemma_steady_mode_stays(self)
        requires
            !self.mode.flashes(),
        ensures
            DriverWait::in_mode(self.mode) == DriverWait::SignalOnly,
            PinAction::on_entering(self.mode) != PinAction::Toggle,
            self.rendered().level == if self.mode == LedMode::On {
                Level::High
            } else {
                Level::Low
            },
            self.rendered().rendered() == self.rendered(),
            self.rendered().resumed(DriverEvent::TimerElapsed) == self.rendered(),
    {
    }

    /// A flashing mode waits one interval at most; each time the interval runs out the mode
    /// stays and the next entry flips the line.
    pub proof fn lemma_flashing_mode_toggles(self)
        requires
            self.mode.flashes(),
        ensures
            DriverWait::in_mode(self.mode) == (DriverWait::TimerOrSignal {
                millis: if self.mode == LedMode::FastFlash {
                    FAST_FLASH_DELAY_IN_MS
                } else {
                    SLOW_FLASH_DELAY_IN_MS
                },
            }),
            self.rendered().level == self.level.toggled(),
            self.rendered().level != self.level,
            self.rendered().resumed(DriverEvent::TimerElapsed).mode == self.mode,
    {
    }

    /// With no new mode the driver stays in its mode for any number of intervals. In a flashing
    /// mode the line is back at its level after every second interval and at the other level
    /// after the intervals between; in a steady mode it is at the mode's level from the first
    /// entry on.
    pub proof fn lemma_ticks(self, ticks: nat)
        ensures
            self.after_ticks(ticks).mode == self.mode,
            self.mode.flashes() ==> self.after_ticks(ticks).level == if ticks % 2 == 0 {
                self.level
            } else {
                self.level.toggled()
            },
            (self.mode == LedMode::On && ticks > 0) ==> self.after_ticks(ticks).level
                == Level::High,
            (self.mode == LedMode::Off && ticks > 0) ==> self.after_ticks(ticks).level
                == Level::Low,
        decreases ticks,
    {
        if ticks > 0 {
            self.lemma_ticks((ticks - 1) as nat);
        }
    }
}

impl View for LedDriver {
    type V = DriverState;

    closed spec fn view(&self) -> DriverState {
        DriverState { mode: self.mode, level: self.level }
    }
}

impl LedDriver {
    /// A driver that is about to enter `initial_mode`, its line low.
    pub fn new(initial_mode: LedMode) -> (driver: LedDriver)
        ensures
            driver@ == (DriverState { mode: initial_mode, level: Level::Low }),
    {
        LedDriver { mode: initial_mode, level: Level::Low }
    }

    /// The mode the driver shows.
    pub fn mode(&self) -> (mode: LedMode)
        ensures
            mode == self@.mode,
    {
        self.mode
    }

    /// The level the line is at, given that every action handed out by `render` was carried
    /// out.
    pub fn level(&self) -> (level: Level)
        ensures
            level == self@.level,
    {
        self.level
    }

    /// Enters the current mode: says what to do to the line and what to wait for then.
    pub fn render(&mut self) -> (render: Render)
        ensures
            render.action == PinAction::on_entering(old(self)@.mode),
            render.wait == DriverWait::in_mode(old(self)@.mode),
            final(self)@ == old(self)@.rendered(),
    {
        let render = match self.mode {
            LedMode::FastFlash => Render {
                action: PinAction::Toggle,
                wait: DriverWait::TimerOrSignal { millis: FAST_FLASH_DELAY_IN_MS },
            },
            LedMode::SlowFlash => Render {
                action: PinAction::Toggle,
                wait: DriverWait::TimerOrSignal { millis: SLOW_FLASH_DELAY_IN_MS },
            },
            LedMode::On => Render { action: PinAction::SetHigh, wait: DriverWait::SignalOnly },
            LedMode::Off => Render { action: PinAction::SetLow, wait: DriverWait::SignalOnly },
        };
        self.level = match render.action {
            PinAction::Toggle => match self.level {
                Level::Low => Level::High,
                Level::High => Level::Low,
            },
            PinAction::SetHigh => Level::High,
            PinAction::SetLow => Level::Low,
        };
        render
    }

    /// Takes in what ended the wait: a mode that came becomes the current mode.
    pub fn resume(&mut self, event: DriverEvent)
        ensures
            final(self)@ == old(self)@.resumed(event),
    {
        match event {
            DriverEvent::TimerElapsed => {},
            DriverEvent::ModeReceived(mode) => {
                self.mode = mode;
            },
        }
    }
}

} // verus!
