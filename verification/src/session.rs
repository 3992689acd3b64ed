//! The per-session record kept in the registry.

use vstd::prelude::*;

verus! {

/// A value of a session's control channel. Only the latest one matters.
#[derive(Clone, Copy, Debug, PartialEq, Eq, Structural)]
pub enum Signal {
    Start,
    Quit,
    Delete,
}

/// One tracked remote connection.
///
/// The socket halves and the channels live with whoever performs the I/O;
/// `conn` names them. `raw_mode` is the operator's preference for this
/// session and survives detach and reattach. `cancelled` records that the
/// session's cancellation handle has fired, which is never undone.
#[derive(Clone, Copy, Debug, PartialEq, Eq, Structural)]
pub struct Handle {
    pub conn: u64,
    pub raw_mode: bool,
    pub cancelled: bool,
}

impl Handle {
    /// The record of a freshly accepted connection: cooked mode, live.
    pub open spec fn fresh(conn: u64) -> Handle {
        Handle { conn, raw_mode: false, cancelled: false }
    }

    /// This session with its cancellation handle fired.
    pub open spec fn cancel(self) -> Handle {
        Handle { conn: self.conn, raw_mode: self.raw_mode, cancelled: true }
    }

    /// This session with its raw-mode preference set to `raw`.
    pub open spec fn with_raw_mode(self, raw: bool) -> Handle {
        Handle { conn: self.conn, raw_mode: raw, cancelled: self.cancelled }
    }

    pub fn new(conn: u64) -> (h: Handle)
        ensures
            h == Handle::fresh(conn),
    {
        Handle { conn, raw_mode: false, cancelled: false }
    }
}

/// A session's control channel: a single slot that holds the latest signal
/// that was sent and not yet taken.
#[derive(Clone, Copy, Debug, PartialEq, Eq, Structural)]
pub struct ControlSlot {
    pub pending: Option<Signal>,
    /// Whether the controller still listens.
    pub open: bool,
}

impl ControlSlot {
    /// The slot after `signal` was sent: the signal takes the place of
    /// whatever was pending. A closed slot takes nothing.
    pub open spec fn sent(self, signal: Signal) -> ControlSlot {
        if self.open {
            ControlSlot { pending: Some(signal), open: true }
        } else {
            self
        }
    }

    /// An open slot with nothing pending.
    pub fn new() -> (slot: ControlSlot)
        ensures
            slot == (ControlSlot { pending: None, open: true }),
    {
        ControlSlot { pending: None, open: true }
    }

    /// Delivers `signal`. Fails, with nothing changed, once the controller
    /// is gone.
    pub fn send(&mut self, signal: Signal) -> (delivered: bool)
        ensures
            delivered == old(self).open,
            *final(self) == old(self).sent(signal),
    {
        if self.open {
            self.pending = Some(signal);
            true
        } else {
            false
        }
    }

    /// Takes the pending signal, if there is one, and leaves the slot empty.
    pub fn take(&mut self) -> (signal: Option<Signal>)
        ensures
            signal == old(self).pending,
            *final(self) == (ControlSlot { pending: None, open: old(self).open }),
    {
        let signal = self.pending;
        self.pending = None;
        signal
    }

    /// Closes the slot for good: the controller is gone.
    pub fn close(&mut self)
        ensures
            *final(self) == (ControlSlot { pending: None, open: false }),
    {
        self.pending = None;
        self.open = false;
    }
}

/// Only the last signal counts: a signal that is sent before the one before
/// it was taken replaces it.
pub proof fn lemma_last_signal_wins(slot: ControlSlot, earlier: Signal, later: Signal)
    ensures
        slot.sent(earlier).sent(later) == slot.sent(later),
        slot.open ==> slot.sent(earlier).sent(later).pending == Some(later),
{
}

/// Nothing reaches a closed slot.
pub proof fn lemma_closed_slot_takes_nothing(slot: ControlSlot, signal: Signal)
    requires
        !slot.open,
    ensures
        slot.sent(signal) == slot,
{
}

} // verus!
