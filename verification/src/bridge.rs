//! The pump between one session's socket and the rest of the console.
//!
//! Two directions run side by side for the whole life of a session: inbound,
//! from the socket to the terminal, and outbound, from the terminal to the
//! socket. The caller reads, writes and waits; each outcome goes through
//! `Bridge::step`, which says what to do with it.

use crate::session::Handle;
use crate::text::{decode_lossy, utf8_lossy};
use vstd::prelude::*;

verus! {

/// What happened on the socket or on the channels around it.
#[derive(Clone, Debug, PartialEq, Eq)]
pub enum BridgeEvent {
    /// A read returned these bytes; none at all means that the peer closed
    /// the connection.
    Received(Vec<u8>),
    /// A read failed.
    ReadFailed,
    /// Bytes arrived from the terminal side, to be written to the socket.
    Outgoing(Vec<u8>),
    /// A write or a flush failed.
    WriteFailed,
    /// The session's cancellation handle fired.
    Cancelled,
}

pub enum BridgeEventView {
    Received(Seq<u8>),
    ReadFailed,
    Outgoing(Seq<u8>),
    WriteFailed,
    Cancelled,
}

impl View for BridgeEvent {
    type V = BridgeEventView;

    open spec fn view(&self) -> BridgeEventView {
        match *self {
            BridgeEvent::Received(b) => BridgeEventView::Received(b@),
            BridgeEvent::ReadFailed => BridgeEventView::ReadFailed,
            BridgeEvent::Outgoing(b) => BridgeEventView::Outgoing(b@),
            BridgeEvent::WriteFailed => BridgeEventView::WriteFailed,
            BridgeEvent::Cancelled => BridgeEventView::Cancelled,
        }
    }
}

/// What the caller is to do after a step.
#[derive(Clone, Debug, PartialEq, Eq)]
pub enum BridgeAction {
    /// Nothing.
    Nothing,
    /// Hand this text to the terminal side.
    Deliver(String),
    /// Write these bytes to the socket, as they are, and flush.
    Write(Vec<u8>),
    /// Stop reading; writing goes on.
    CloseInbound,
    /// Stop both directions.
    Stop,
}

pub enum BridgeActionView {
    Nothing,
    Deliver(Seq<char>),
    Write(Seq<u8>),
    CloseInbound,
    Stop,
}

impl View for BridgeAction {
    type V = BridgeActionView;

    open spec fn view(&self) -> BridgeActionView {
        match *self {
            BridgeAction::Nothing => BridgeActionView::Nothing,
            BridgeAction::Deliver(s) => BridgeActionView::Deliver(s@),
            BridgeAction::Write(b) => BridgeActionView::Write(b@),
            BridgeAction::CloseInbound => BridgeActionView::CloseInbound,
            BridgeAction::Stop => BridgeActionView::Stop,
        }
    }
}

impl BridgeActionView {
    /// Whether the action touches the socket or passes on what came from it.
    pub open spec fn moves_data(self) -> bool {
        self is Deliver || self is Write
    }
}

/// Which directions of a session's bridge are still running.
#[derive(Clone, Copy, Debug, PartialEq, Eq, Structural)]
pub struct Bridge {
    pub inbound: bool,
    pub outbound: bool,
}

impl Bridge {
    pub open spec fn stopped() -> Bridge {
        Bridge { inbound: false, outbound: false }
    }

    /// The bridge that a session starts with: both directions run, unless
    /// the session is already cancelled.
    pub open spec fn initial(handle: Handle) -> Bridge {
        Bridge { inbound: !handle.cancelled, outbound: !handle.cancelled }
    }

    /// The state after `event`. A failure or the cancellation ends both
    /// directions; a closed connection ends the inbound one.
    pub open spec fn next(self, event: BridgeEventView) -> Bridge {
        match event {
            BridgeEventView::Received(bytes) => if self.inbound && bytes.len() == 0 {
                Bridge { inbound: false, outbound: self.outbound }
            } else {
                self
            },
            BridgeEventView::Outgoing(_) => self,
            BridgeEventView::ReadFailed => if self.inbound {
                Bridge::stopped()
            } else {
                self
            },
            BridgeEventView::WriteFailed => if self.outbound {
                Bridge::stopped()
            } else {
                self
            },
            BridgeEventView::Cancelled => Bridge::stopped(),
        }
    }

    /// What `event` asks of the caller. An event of a direction that has
    /// ended asks for nothing.
    pub open spec fn reaction(self, event: BridgeEventView) -> BridgeActionView {
        match event {
            BridgeEventView::Received(bytes) => if !self.inbound {
                BridgeActionView::Nothing
            } else if bytes.len() == 0 {
                BridgeActionView::CloseInbound
            } else {
                BridgeActionView::Deliver(utf8_lossy(bytes))
            },
            BridgeEventView::Outgoing(bytes) => if self.outbound {
                BridgeActionView::Write(bytes)
            } else {
                BridgeActionView::Nothing
            },
            BridgeEventView::ReadFailed => if self.inbound {
                BridgeActionView::Stop
            } else {
                BridgeActionView::Nothing
            },
            BridgeEventView::WriteFailed => if self.outbound {
                BridgeActionView::Stop
            } else {
                BridgeActionView::Nothing
            },
            BridgeEventView::Cancelled => if self.inbound || self.outbound {
                BridgeActionView::Stop
            } else {
                BridgeActionView::Nothing
            },
        }
    }

    /// The bridge for a session that was just registered.
    pub fn new(handle: &Handle) -> (b: Bridge)
        ensures
            b == Bridge::initial(*handle),
    {
        Bridge { inbound: !handle.cancelled, outbound: !handle.cancelled }
    }

    /// Whether either direction still runs.
    pub fn is_running(&self) -> (b: bool)
        ensures
            b == (self.inbound || self.outbound),
    {
        self.inbound || self.outbound
    }

    /// Takes one event.
    pub fn step(&mut self, event: BridgeEvent) -> (action: BridgeAction)
        ensures
            *final(self) == old(self).next(event@),
            action@ == old(self).reaction(event@),
            action@.moves_data() ==> old(self).inbound || old(self).outbound,
    {
        match event {
            BridgeEvent::Received(bytes) => {
                if !self.inbound {
                    BridgeAction::Nothing
                } else if bytes.len() == 0 {
                    self.inbound = false;
                    BridgeAction::CloseInbound
                } else {
                    BridgeAction::Deliver(decode_lossy(bytes.as_slice()))
                }
            },
            BridgeEvent::Outgoing(bytes) => {
                if self.outbound {
                    BridgeAction::Write(bytes)
                } else {
                    BridgeAction::Nothing
                }
            },
            BridgeEvent::ReadFailed => {
                if self.inbound {
                    self.inbound = false;
                    self.outbound = false;
                    BridgeAction::Stop
                } else {
                    BridgeAction::Nothing
                }
            },
            BridgeEvent::WriteFailed => {
                if self.outbound {
                    self.inbound = false;
                    self.outbound = false;
                    BridgeAction::Stop
                } else {
                    BridgeAction::Nothing
                }
            },
            BridgeEvent::Cancelled => {
                let running = self.is_running();
                self.inbound = false;
                self.outbound = false;
                if running {
                    BridgeAction::Stop
                } else {
                    BridgeAction::Nothing
                }
            },
        }
    }
}

/// The state that a run of events leaves a bridge in.
pub open spec fn bridge_run(start: Bridge, events: Seq<BridgeEventView>) -> Bridge
    decreases events.len(),
{
    if events.len() == 0 {
        start
    } else {
        bridge_run(start, events.drop_last()).next(events.last())
    }
}

/// A bridge that has stopped stays stopped, and asks for nothing, whatever
/// comes.
pub proof fn lemma_stopped_stays(events: Seq<BridgeEventView>, event: BridgeEventView)
    ensures
        bridge_run(Bridge::stopped(), events) == Bridge::stopped(),
        bridge_run(Bridge::stopped(), events).reaction(event) == BridgeActionView::Nothing,
    decreases events.len(),
{
    if events.len() > 0 {
        lemma_stopped_stays(events.drop_last(), event);
    }
}

/// Once the cancellation handle has fired, nothing is read from the socket,
/// written to it or passed on any more: whatever state the bridge was in and
/// whatever comes after.
pub proof fn lemma_cancelled_is_silent(
    bridge: Bridge,
    later: Seq<BridgeEventView>,
    event: BridgeEventView,
)
    ensures
        bridge.next(BridgeEventView::Cancelled) == Bridge::stopped(),
        !bridge_run(bridge.next(BridgeEventView::Cancelled), later).reaction(event).moves_data(),
        bridge_run(bridge.next(BridgeEventView::Cancelled), later).reaction(event)
            == BridgeActionView::Nothing,
{
    lemma_stopped_stays(later, event);
}

/// The bridge of a session whose cancellation handle has fired, as it has
/// for every session that was removed from the registry, never moves data.
pub proof fn lemma_cancelled_session_is_silent(
    handle: Handle,
    events: Seq<BridgeEventView>,
    event: BridgeEventView,
)
    ensures
        handle.cancel().cancelled,
        Bridge::initial(handle.cancel()) == Bridge::stopped(),
        bridge_run(Bridge::initial(handle.cancel()), events).reaction(event)
            == BridgeActionView::Nothing,
        handle.cancelled ==> bridge_run(Bridge::initial(handle), events).reaction(event)
            == BridgeActionView::Nothing,
{
    lemma_stopped_stays(events, event);
}

/// A failure on either side ends both directions.
pub proof fn lemma_failure_stops_both(bridge: Bridge)
    ensures
        bridge.inbound ==> bridge.next(BridgeEventView::ReadFailed) == Bridge::stopped(),
        bridge.outbound ==> bridge.next(BridgeEventView::WriteFailed) == Bridge::stopped(),
{
}

} // verus!
