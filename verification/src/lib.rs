//! The logic of a push button that steers an LED: telling short presses from long ones, walking
//! the LED through its modes, and rendering the current mode on the output line.
//!
//! Nothing in here waits or reads a clock. Each state machine says what to wait for, is told
//! when the wait has ended, and answers with what to do next; the tasks that own the pins run
//! them.

pub mod button;
pub mod error;
pub mod led;
pub mod shared_const;
pub mod signal;
pub mod time;

pub use button::{Button, InputWait, PressDuration, PressKind, PressPhase};
pub use error::Error;
pub use led::{
    DriverEvent, DriverState, DriverWait, Led, LedDriver, LedMode, LedState, Level, PinAction,
    Render,
};
pub use signal::{HandleState, ModeSignal, SignalHandle, SlotState};
pub use time::{Duration, Instant};
