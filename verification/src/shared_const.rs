//! The timing configuration, in one place. Each value can be changed on its own; the state
//! machines read them and hold no number of their own.

use vstd::prelude::*;

verus! {

/// How long the input line is left alone after an edge, in milliseconds.
pub const BUTTON_DEBOUNCE_DELAY_IN_MS: u64 = 10;

/// The shortest hold, in milliseconds, that counts as a long press.
pub const LONG_PRESS_DURATION_IN_MS: u64 = 500;

/// The time between two toggles of the output while flashing fast, in milliseconds.
pub const FAST_FLASH_DELAY_IN_MS: u64 = 250;

/// The time between two toggles of the output while flashing slowly, in milliseconds.
pub const SLOW_FLASH_DELAY_IN_MS: u64 = 750;

} // verus!
