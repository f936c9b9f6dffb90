use vstd::prelude::*;
use vstd::std_specs::convert::FromSpec;
use crate::shared_const::LONG_PRESS_DURATION_IN_MS;
use crate::time::{Duration, MICROS_PER_MILLI};

verus! {

/// How long the button was held, as one of two categories.
#[derive(Clone, Copy, Debug, PartialEq, Eq, Structural, Hash, PartialOrd, Ord)]
pub enum PressDuration {
    Short,
    Long,
}

impl PressDuration {
    /// The shortest hold that counts as a long press, in microseconds.
    pub open spec fn threshold() -> nat {
        (LONG_PRESS_DURATION_IN_MS * MICROS_PER_MILLI) as nat
    }

    /// The category of a press that was held for `held_micros` microseconds: long from the
    /// threshold on, short below it.
    pub open spec fn classify(held_micros: nat) -> PressDuration {
        if held_micros >= Self::threshold() {
            PressDuration::Long
        } else {
            PressDuration::Short
        }
    }

    /// Every hold below the threshold converts to a short press, and every hold that reaches
    /// the threshold to a long one: the threshold itself is a long press.
    pub proof fn lemma_threshold_splits(held: Duration)
        ensures
            held@ < Self::threshold() ==> PressDuration::from_spec(held) == PressDuration::Short,
            held@ >= Self::threshold() ==> PressDuration::from_spec(held) == PressDuration::Long,
    {
    }
}

impl Default for PressDuration {
    fn default() -> (press: PressDuration)
        ensures
            press == PressDuration::Short,
    {
        PressDuration::Short
    }
}

impl From<Duration> for PressDuration {
    fn from(duration: Duration) -> (press: PressDuration) {
        if duration.as_micros() >= LONG_PRESS_DURATION_IN_MS * MICROS_PER_MILLI {
            PressDuration::Long
        } else {
            PressDuration::Short
        }
    }
}

impl vstd::std_specs::convert::FromSpecImpl<Duration> for PressDuration {
    open spec fn obeys_from_spec() -> bool {
        true
    }

    open spec fn from_spec(duration: Duration) -> PressDuration {
        PressDuration::classify(duration@)
    }
}

} // verus!
