use vstd::prelude::*;
use vstd::std_specs::convert::FromSpec;
use crate::shared_const::LONG_PRESS_DURATION_IN_MS;
use crate::time::{Duration, MICROS_PER_MILLI};

verus! {

/// The kind of a completed press: short or long.
#[derive(Clone, Copy, Debug, PartialEq, Eq, Structural, Hash, PartialOrd, Ord)]
pub enum PressKind {
    Short,
    Long,
}

impl PressKind {
    /// The shortest hold that counts as a long press, in microseconds.
    pub open spec fn threshold() -> nat {
        (LONG_PRESS_DURATION_IN_MS * MICROS_PER_MILLI) as nat
    }

    /// The category of a press that was held for `held_micros` microseconds: long from the
    /// threshold on, short below it.
    pub open spec fn classify(held_micros: nat) -> PressKind {
        if held_micros >= Self::threshold() {
            PressKind::Long
        } else {
            PressKind::Short
        }
    }

    /// Every hold below the threshold converts to a short press, and every hold that reaches
    /// the threshold to a long one: the threshold itself is a long press.
    pub proof fn lemma_threshold_splits(held: Duration)
        ensures
            held@ < Self::threshold() ==> PressKind::from_spec(held) == PressKind::Short,
            held@ >= Self::threshold() ==> PressKind::from_spec(held) == PressKind::Long,
    {
    }
}

impl Default for PressKind {
    fn default() -> (press: PressKind)
        ensures
            press == PressKind::Short,
    {
        PressKind::Short
    }
}

impl From<Duration> for PressKind {
    fn from(duration: Duration) -> (press: PressKind) {
        if duration.as_micros() >= LONG_PRESS_DURATION_IN_MS * MICROS_PER_MILLI {
            PressKind::Long
        } else {
            PressKind::Short
        }
    }
}

impl vstd::std_specs::convert::FromSpecImpl<Duration> for PressKind {
    open spec fn obeys_from_spec() -> bool {
        true
    }

    open spec fn from_spec(duration: Duration) -> PressKind {
        PressKind::classify(duration@)
    }
}

} // verus!
