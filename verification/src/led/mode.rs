use vstd::prelude::*;

verus! {

/// The behaviour the LED is asked to show.
///
/// The variants stand in the order in which the modes are walked through; after the last one
/// the walk starts over at the first.
#[derive(Clone, Copy, Debug, PartialEq, Eq, Structural, Hash, PartialOrd, Ord)]
pub enum LedMode {
    FastFlash,
    SlowFlash,
    On,
    Off,
}

impl LedMode {
    /// The number of modes.
    pub const CARDINALITY: usize = 4;

    /// The place of a mode in the walk, counted from zero.
    pub open spec fn position(self) -> nat {
        match self {
            LedMode::FastFlash => 0,
            LedMode::SlowFlash => 1,
            LedMode::On => 2,
            LedMode::Off => 3,
        }
    }

    /// Whether the mode is one in which the LED goes on and off by itself.
    pub open spec fn flashes(self) -> bool {
        self == LedMode::FastFlash || self == LedMode::SlowFlash
    }

    /// The mode that follows `self` round the cycle.
    pub open spec fn successor(self) -> LedMode {
        match self {
            LedMode::FastFlash => LedMode::SlowFlash,
            LedMode::SlowFlash => LedMode::On,
            LedMode::On => LedMode::Off,
            LedMode::Off => LedMode::FastFlash,
        }
    }

    /// The mode reached from `self` by `steps` advances.
    pub open spec fn advanced(self, steps: nat) -> LedMode
        decreases steps,
    {
        if steps == 0 {
            self
        } else {
            self.advanced((steps - 1) as nat).successor()
        }
    }

    /// The first mode of the walk.
    pub fn first() -> (mode: LedMode)
        ensures
            mode.position() == 0,
            mode == LedMode::FastFlash,
    {
        LedMode::FastFlash
    }

    /// The mode after `self`, or `None` where `self` is the last one.
    pub fn next(&self) -> (following: Option<LedMode>)
        ensures
            self.position() + 1 < LedMode::CARDINALITY ==> following == Some(self.successor()),
            self.position() + 1 == LedMode::CARDINALITY ==> following.is_none(),
    {
        match self {
            LedMode::FastFlash => Some(LedMode::SlowFlash),
            LedMode::SlowFlash => Some(LedMode::On),
            LedMode::On => Some(LedMode::Off),
            LedMode::Off => None,
        }
    }

    /// The mode after `self`, starting over at the first mode after the last.
    pub fn next_cycle(&self) -> (following: LedMode)
        ensures
            following == self.successor(),
    {
        match self.next() {
            Some(following) => following,
            None => LedMode::first(),
        }
    }

    /// Every mode has a place in the walk, and no two modes share one.
    pub proof fn lemma_position_in_range(self, other: LedMode)
        ensures
            self.position() < LedMode::CARDINALITY,
            self.position() == other.position() ==> self == other,
    {
    }

    /// One advance moves a mode one place on, and from the last place back to the first.
    pub proof fn lemma_successor_position(self)
        ensures
            self.successor().position() == (self.position() + 1) % (LedMode::CARDINALITY as nat),
    {
    }

    /// Advancing as many times as there are modes leads back to the mode one started from, and
    /// no smaller number of advances does.
    pub proof fn lemma_cycle_closes(self)
        ensures
            self.advanced(LedMode::CARDINALITY as nat) == self,
            forall|steps: nat| 0 < steps < LedMode::CARDINALITY ==> self.advanced(steps) != self,
    {
        assert(self.advanced(0) == self);
        assert(self.advanced(1) == self.successor());
        assert(self.advanced(2) == self.successor().successor());
        assert(self.advanced(3) == self.successor().successor().successor());
        assert(self.advanced(4) == self.successor().successor().successor().successor());
    }
}

impl Default for LedMode {
    fn default() -> (mode: LedMode)
        ensures
            mode == LedMode::FastFlash,
    {
        LedMode::FastFlash
    }
}

} // verus!
