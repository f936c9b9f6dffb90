//! The mailbox through which the controller tells the driver which mode to show.
//!
//! The mailbox is an `embassy_sync` signal. It has one slot: a write replaces whatever is in
//! the slot and never waits, a read empties it. The controller and the driver reach the same
//! signal through shared references, and each may change the slot whenever it runs. So no
//! contract in here says what the slot holds: a handle answers only for what was done
//! through it. What the slot does is written down apart from the handles, in `SlotState`.

use vstd::prelude::*;
use embassy_sync::blocking_mutex::raw::CriticalSectionRawMutex;
use embassy_sync::signal::Signal;
use crate::led::LedMode;

verus! {

/// The mailbox itself: an `embassy_sync::signal::Signal` for `LedMode` values, guarded by a
/// critical section. It is made once, lives as long as the program and is shared by
/// reference. The field is open so that it can be made in a `static` and so that the driver
/// task can suspend on the signal; nothing is assumed of what is inside.
#[verifier::external_body]
pub struct ModeSignal(pub Signal<CriticalSectionRawMutex, LedMode>);

/// `Signal::signal`: stores `mode` in the slot, wakes the reader if one waits, and returns.
/// Nothing is claimed of the slot afterwards: the reader may have emptied it already.
#[verifier::external_body]
fn signal_store(signal: &ModeSignal, mode: LedMode) {
    signal.0.signal(mode);
}

/// `Signal::try_take`: takes out what the slot holds, if it holds anything, and returns at
/// once. Nothing is claimed of the result: it depends on what the other side did.
#[verifier::external_body]
fn signal_try_take(signal: &ModeSignal) -> (taken: Option<LedMode>) {
    signal.0.try_take()
}

/// The slot of a signal on its own, as if a single party wrote to it and read from it.
pub struct SlotState {
    /// The mode that lies unread in the slot.
    pub unread: Option<LedMode>,
}

impl SlotState {
    /// The slot after a write of `mode`: it holds `mode`, and nothing of what it held.
    pub open spec fn written(self, mode: LedMode) -> SlotState {
        SlotState { unread: Some(mode) }
    }

    /// What a read hands out.
    pub open spec fn read(self) -> Option<LedMode> {
        self.unread
    }

    /// The slot after a read: it is empty.
    pub open spec fn drained(self) -> SlotState {
        SlotState { unread: None }
    }

    /// Of two writes with no read between them only the second is ever read, and it is read
    /// once: the read after it finds the slot empty.
    pub proof fn lemma_latest_write_wins(self, first: LedMode, second: LedMode)
        ensures
            self.written(first).written(second).read() == Some(second),
            self.written(first).written(second).drained().read() == None::<LedMode>,
    {
    }

    /// After a write, one read finds the mode and every further read finds nothing, until
    /// the slot is written again.
    pub proof fn lemma_read_consumes(self, mode: LedMode, later: LedMode)
        ensures
            self.written(mode).read() == Some(mode),
            self.written(mode).drained().read() == None::<LedMode>,
            self.written(mode).drained().drained().read() == None::<LedMode>,
            self.written(mode).drained().written(later).read() == Some(later),
    {
    }
}

/// What a handle amounts to: the signal it is on, and what was written through it.
pub struct HandleState {
    /// The signal that the handle is on.
    pub signal: ModeSignal,
    /// How many writes were made through the handle.
    pub writes: nat,
    /// The mode of the last of those writes.
    pub last_written: Option<LedMode>,
}

impl HandleState {
    /// The state after a write of `mode` through the handle.
    pub open spec fn written(self, mode: LedMode) -> HandleState {
        HandleState { signal: self.signal, writes: self.writes + 1, last_written: Some(mode) }
    }
}

/// One side's access to a `ModeSignal`.
pub struct SignalHandle {
    signal: &'static ModeSignal,
    writes: Ghost<nat>,
    last_written: Ghost<Option<LedMode>>,
}

impl View for SignalHandle {
    type V = HandleState;

    closed spec fn view(&self) -> HandleState {
        HandleState {
            signal: *self.signal,
            writes: self.writes@,
            last_written: self.last_written@,
        }
    }
}

impl SignalHandle {
    /// A handle on `signal`, through which nothing was written yet.
    pub fn new(signal: &'static ModeSignal) -> (handle: SignalHandle)
        ensures
            handle@ == (HandleState { signal: *signal, writes: 0, last_written: None }),
    {
        SignalHandle { signal, writes: Ghost(0), last_written: Ghost(None) }
    }

    /// Puts `mode` into the slot, in place of a mode that was not read yet.
    pub fn signal(&mut self, mode: LedMode)
        ensures
            final(self)@ == old(self)@.written(mode),
    {
        signal_store(self.signal, mode);
        self.writes = Ghost((self.writes@ + 1) as nat);
        self.last_written = Ghost(Some(mode));
    }

    /// Takes the unread mode out of the slot; `None` where there is none. Which of the two
    /// it is lies with the other side of the signal.
    pub fn try_take(&self) -> (taken: Option<LedMode>) {
        signal_try_take(self.signal)
    }
}

} // verus!
