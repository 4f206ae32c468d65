//! Relaying one TCP segment to its destination.
//!
//! A forwarding unit owns one request and walks through one connection
//! attempt: connect, write the payload once, read once, done. The unit does
//! no I/O itself. It says which operation is due, the caller performs it and
//! reports how it ended, and the unit moves on. Units hold nothing in common,
//! so any number of them may run side by side.

use vstd::prelude::*;
use crate::event::IoEvent;
use crate::ipv4::Ipv4Address;

verus! {

/// The size of the buffer for the one read from the remote peer, in bytes.
pub const RESPONSE_BUFFER_CAPACITY: usize = 4096;

/// Where to connect and what to send there. The payload is an owned copy, so
/// that the request outlives the chunk it was decoded from.
#[derive(Clone, Debug, PartialEq, Eq)]
pub struct ForwardRequest {
    pub destination_address: Ipv4Address,
    pub destination_port: u16,
    pub payload: Vec<u8>,
}

/// A forward request with its payload as a sequence of bytes.
pub struct Request {
    pub destination_address: Ipv4Address,
    pub destination_port: u16,
    pub payload: Seq<u8>,
}

impl View for ForwardRequest {
    type V = Request;

    open spec fn view(&self) -> Request {
        Request {
            destination_address: self.destination_address,
            destination_port: self.destination_port,
            payload: self.payload@,
        }
    }
}

/// How a forwarding unit ended.
#[derive(Clone, Copy, Debug, PartialEq, Eq, Structural)]
pub enum ForwardOutcome {
    /// The connection could not be opened.
    ConnectFailed,
    /// The payload could not be written.
    WriteFailed,
    /// The read failed.
    ReadFailed,
    /// The read returned no bytes: the peer has closed the connection.
    PeerClosed,
    /// The read returned this many bytes, which is more than none.
    Received(usize),
}

/// Where a forwarding unit stands.
#[derive(Clone, Copy, Debug, PartialEq, Eq, Structural)]
pub enum ForwardState {
    /// The connection is to be opened.
    Connecting,
    /// The connection is open and the payload is to be written.
    Writing,
    /// The payload is written and the response is to be read.
    Reading,
    /// The unit is over.
    Finished(ForwardOutcome),
}

/// What the caller of a forwarding unit is to do next.
#[derive(Clone, Copy, Debug, PartialEq, Eq)]
pub enum ForwardAction<'a> {
    /// Open a connection to this address and port.
    Connect { address: Ipv4Address, port: u16 },
    /// Write all of these bytes to the connection.
    Write { payload: &'a [u8] },
    /// Read once from the connection, into a buffer of this many bytes.
    Read { capacity: usize },
    /// Nothing more: report the outcome and drop the connection.
    Finish { outcome: ForwardOutcome },
}

/// An action with the bytes to write as a sequence.
pub enum Action {
    Connect { address: Ipv4Address, port: u16 },
    Write { payload: Seq<u8> },
    Read { capacity: usize },
    Finish { outcome: ForwardOutcome },
}

impl<'a> View for ForwardAction<'a> {
    type V = Action;

    open spec fn view(&self) -> Action {
        match *self {
            ForwardAction::Connect { address, port } => Action::Connect { address, port },
            ForwardAction::Write { payload } => Action::Write { payload: payload@ },
            ForwardAction::Read { capacity } => Action::Read { capacity },
            ForwardAction::Finish { outcome } => Action::Finish { outcome },
        }
    }
}

/// The state that follows `state` when the operation that was due ended as
/// `event` says. A failure ends the unit at once; so does the read, however
/// it ends. A finished unit stays as it is.
pub open spec fn next_state(state: ForwardState, event: IoEvent) -> ForwardState {
    match state {
        ForwardState::Connecting => match event {
            IoEvent::Completed(_) => ForwardState::Writing,
            IoEvent::Failed => ForwardState::Finished(ForwardOutcome::ConnectFailed),
        },
        ForwardState::Writing => match event {
            IoEvent::Completed(_) => ForwardState::Reading,
            IoEvent::Failed => ForwardState::Finished(ForwardOutcome::WriteFailed),
        },
        ForwardState::Reading => match event {
            IoEvent::Completed(count) => if count == 0 {
                ForwardState::Finished(ForwardOutcome::PeerClosed)
            } else {
                ForwardState::Finished(ForwardOutcome::Received(count))
            },
            IoEvent::Failed => ForwardState::Finished(ForwardOutcome::ReadFailed),
        },
        ForwardState::Finished(outcome) => ForwardState::Finished(outcome),
    }
}

/// The operation that is due in `state` for `request`.
pub open spec fn action_in(state: ForwardState, request: Request) -> Action {
    match state {
        ForwardState::Connecting => Action::Connect {
            address: request.destination_address,
            port: request.destination_port,
        },
        ForwardState::Writing => Action::Write { payload: request.payload },
        ForwardState::Reading => Action::Read { capacity: 4096 },
        ForwardState::Finished(outcome) => Action::Finish { outcome },
    }
}

/// The state of a unit that started in `state` and has seen `events`, the
/// first of them first.
pub open spec fn state_after(state: ForwardState, events: Seq<IoEvent>) -> ForwardState
    decreases events.len(),
{
    if events.len() == 0 {
        state
    } else {
        next_state(state_after(state, events.drop_last()), events.last())
    }
}

/// One outbound attempt for one request.
pub struct ForwardingUnit {
    request: ForwardRequest,
    state: ForwardState,
}

impl ForwardingUnit {
    /// The request that the unit serves.
    pub closed spec fn request(&self) -> Request {
        self.request@
    }

    /// Where the unit stands.
    pub closed spec fn state(&self) -> ForwardState {
        self.state
    }

    /// A unit for `request`, with the connection still to be opened.
    pub fn new(request: ForwardRequest) -> (unit: ForwardingUnit)
        ensures
            unit.request() == request@,
            unit.state() == ForwardState::Connecting,
    {
        ForwardingUnit { request, state: ForwardState::Connecting }
    }

    /// Where the unit stands.
    pub fn current_state(&self) -> (state: ForwardState)
        ensures
            state == self.state(),
    {
        self.state
    }

    /// The outcome, once the unit is over.
    pub fn outcome(&self) -> (outcome: Option<ForwardOutcome>)
        ensures
            outcome == match self.state() {
                ForwardState::Finished(reached) => Some(reached),
                _ => None,
            },
    {
        match self.state {
            ForwardState::Finished(reached) => Some(reached),
            _ => None,
        }
    }

    /// The operation that is due: the connect to the request's destination,
    /// the write of its whole payload, the read into a buffer of 4096 bytes,
    /// or nothing more.
    pub fn action(&self) -> (action: ForwardAction<'_>)
        ensures
            action@ == action_in(self.state(), self.request()),
    {
        match self.state {
            ForwardState::Connecting => ForwardAction::Connect {
                address: self.request.destination_address,
                port: self.request.destination_port,
            },
            ForwardState::Writing => ForwardAction::Write {
                payload: self.request.payload.as_slice(),
            },
            ForwardState::Reading => ForwardAction::Read { capacity: RESPONSE_BUFFER_CAPACITY },
            ForwardState::Finished(outcome) => ForwardAction::Finish { outcome },
        }
    }

    /// Takes note of how the operation that was due ended. The request stays
    /// as it is.
    pub fn advance(&mut self, event: IoEvent)
        ensures
            final(self).state() == next_state(old(self).state(), event),
            final(self).request() == old(self).request(),
    {
        let next: ForwardState = match self.state {
            ForwardState::Connecting => match event {
                IoEvent::Completed(_) => ForwardState::Writing,
                IoEvent::Failed => ForwardState::Finished(ForwardOutcome::ConnectFailed),
            },
            ForwardState::Writing => match event {
                IoEvent::Completed(_) => ForwardState::Reading,
                IoEvent::Failed => ForwardState::Finished(ForwardOutcome::WriteFailed),
            },
            ForwardState::Reading => match event {
                IoEvent::Completed(count) => if count == 0 {
                    ForwardState::Finished(ForwardOutcome::PeerClosed)
                } else {
                    ForwardState::Finished(ForwardOutcome::Received(count))
                },
                IoEvent::Failed => ForwardState::Finished(ForwardOutcome::ReadFailed),
            },
            ForwardState::Finished(outcome) => ForwardState::Finished(outcome),
        };
        self.state = next;
    }
}

/// How far a unit has come: the number of operations that it has behind it
/// when all went well, and 3 once it is over.
pub open spec fn stage(state: ForwardState) -> nat {
    match state {
        ForwardState::Connecting => 0,
        ForwardState::Writing => 1,
        ForwardState::Reading => 2,
        ForwardState::Finished(_) => 3,
    }
}

/// Where a unit that started with the connect stands after `events`, read off
/// the events themselves: the first failure ends it, and so does the third
/// operation, the read.
pub open spec fn reached(events: Seq<IoEvent>) -> ForwardState {
    if events.len() == 0 {
        ForwardState::Connecting
    } else if events[0] is Failed {
        ForwardState::Finished(ForwardOutcome::ConnectFailed)
    } else if events.len() == 1 {
        ForwardState::Writing
    } else if events[1] is Failed {
        ForwardState::Finished(ForwardOutcome::WriteFailed)
    } else if events.len() == 2 {
        ForwardState::Reading
    } else {
        match events[2] {
            IoEvent::Failed => ForwardState::Finished(ForwardOutcome::ReadFailed),
            IoEvent::Completed(count) => if count == 0 {
                ForwardState::Finished(ForwardOutcome::PeerClosed)
            } else {
                ForwardState::Finished(ForwardOutcome::Received(count))
            },
        }
    }
}

/// Every event moves a running unit on to a later stage, and leaves a
/// finished one as it is.
pub proof fn lemma_every_event_moves_on(state: ForwardState, event: IoEvent)
    ensures
        state !is Finished ==> stage(next_state(state, event)) > stage(state),
        state is Finished ==> next_state(state, event) == state,
{
}

/// A unit is where its events say: one connect, then one write of the
/// payload, then one read, cut short by the first failure.
pub proof fn lemma_state_follows_events(events: Seq<IoEvent>)
    ensures
        state_after(ForwardState::Connecting, events) == reached(events),
    decreases events.len(),
{
    if events.len() > 0 {
        let before = events.drop_last();
        lemma_state_follows_events(before);
        assert(forall|i: int| 0 <= i < before.len() ==> before[i] == events[i]);
    }
}

/// No unit runs on: after three events, whatever they are, it is over.
pub proof fn lemma_over_after_three_events(events: Seq<IoEvent>)
    requires
        events.len() >= 3,
    ensures
        state_after(ForwardState::Connecting, events) is Finished,
{
    lemma_state_follows_events(events);
}

/// The outcome is settled once: a unit that is over after `events` has the
/// same outcome after any events that follow them.
pub proof fn lemma_outcome_is_final(events: Seq<IoEvent>, more: Seq<IoEvent>)
    requires
        state_after(ForwardState::Connecting, events) is Finished,
    ensures
        state_after(ForwardState::Connecting, events + more) == state_after(
            ForwardState::Connecting,
            events,
        ),
    decreases more.len(),
{
    if more.len() == 0 {
        assert(events + more =~= events);
    } else {
        lemma_outcome_is_final(events, more.drop_last());
        assert((events + more).drop_last() =~= events + more.drop_last());
        assert((events + more).last() == more.last());
    }
}

/// No operation is due twice: a running unit is never again in the state it
/// is in now. So there is at most one connect, one write and one read.
pub proof fn lemma_no_operation_twice(events: Seq<IoEvent>, earlier: int, later: int)
    requires
        0 <= earlier < later <= events.len(),
        state_after(ForwardState::Connecting, events.take(earlier)) !is Finished,
    ensures
        state_after(ForwardState::Connecting, events.take(later)) != state_after(
            ForwardState::Connecting,
            events.take(earlier),
        ),
{
    lemma_state_follows_events(events.take(earlier));
    lemma_state_follows_events(events.take(later));
}

} // verus!
