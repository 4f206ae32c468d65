//! Serving one client connection.
//!
//! The caller reads from the client's stream into one buffer, again and
//! again, and reports how each read ended. Every read that brought bytes is
//! taken as one chunk, which holds one candidate datagram: nothing is kept
//! from one read to the next, and whatever follows the first datagram in a
//! chunk is not looked at. The first read that brings nothing, or fails, ends
//! the service.

use vstd::prelude::*;
use crate::event::IoEvent;
use crate::gateway::{handle_packet, handled, Outcome, PacketOutcome};
use crate::ipv4::DecodeError;

verus! {

/// The size of the buffer for reads from a client, in bytes: the largest
/// IPv4 datagram fits.
pub const CLIENT_BUFFER_CAPACITY: usize = 65535;

/// Why the service of a client ends.
#[derive(Clone, Copy, Debug, PartialEq, Eq, Structural)]
pub enum StopReason {
    /// A read returned no bytes: the client has closed the stream.
    Disconnected,
    /// A read failed.
    ReadFailed,
}

/// What follows a read from the client.
#[derive(Debug, PartialEq, Eq)]
pub enum ReaderStep<'a> {
    /// The bytes read were handled, with this outcome; read again.
    Handled(PacketOutcome<'a>),
    /// Read no more.
    Stopped(StopReason),
}

/// A step with the outcome as a plain value.
pub enum Step {
    Handled(Outcome),
    Stopped(StopReason),
}

impl<'a> View for ReaderStep<'a> {
    type V = Step;

    open spec fn view(&self) -> Step {
        match *self {
            ReaderStep::Handled(outcome) => Step::Handled(outcome@),
            ReaderStep::Stopped(reason) => Step::Stopped(reason),
        }
    }
}

/// What follows a read into a buffer that now holds `buffer` and that ended
/// as `event` says.
pub open spec fn stepped(buffer: Seq<u8>, event: IoEvent) -> Step
    recommends
        event matches IoEvent::Completed(count) ==> count <= buffer.len(),
{
    match event {
        IoEvent::Failed => Step::Stopped(StopReason::ReadFailed),
        IoEvent::Completed(count) => if count == 0 {
            Step::Stopped(StopReason::Disconnected)
        } else {
            Step::Handled(handled(buffer.take(count as int)))
        },
    }
}

/// Decides what follows one read from the client.
///
/// `buffer` is the whole buffer that was read into, and `event` says how the
/// read ended. A read that failed stops the service, and so does one that
/// brought no bytes. After any other read the bytes that it brought, and no
/// more of the buffer, are handled as one chunk.
///
/// A read cannot bring more bytes than the buffer holds, so `event` may not
/// say so.
pub fn reader_step<'a>(buffer: &'a [u8], event: IoEvent) -> (step: ReaderStep<'a>)
    requires
        event matches IoEvent::Completed(count) ==> count <= buffer@.len(),
    ensures
        step@ == stepped(buffer@, event),
{
    match event {
        IoEvent::Failed => ReaderStep::Stopped(StopReason::ReadFailed),
        IoEvent::Completed(count) => {
            if count == 0 {
                ReaderStep::Stopped(StopReason::Disconnected)
            } else {
                let chunk: &'a [u8] = vstd::slice::slice_subrange(buffer, 0, count);
                ReaderStep::Handled(handle_packet(chunk))
            }
        },
    }
}

/// A read that brought bytes never stops the service, whatever the bytes
/// are: a chunk that is no datagram is rejected, and the next read follows.
pub proof fn lemma_bytes_never_stop_the_reader(buffer: Seq<u8>, count: usize)
    requires
        0 < count <= buffer.len(),
    ensures
        stepped(buffer, IoEvent::Completed(count)) is Handled,
{
}

/// A read that brought fewer than 20 bytes is still handled, and its bytes
/// are rejected as too short: the reader waits for no remainder.
pub proof fn lemma_short_read_is_rejected(buffer: Seq<u8>, count: usize)
    requires
        0 < count < 20,
        count <= buffer.len(),
    ensures
        stepped(buffer, IoEvent::Completed(count)) == Step::Handled(
            Outcome::Rejected(DecodeError::TooShort),
        ),
{
}

/// Only the bytes that the read brought count: what the rest of the buffer
/// holds, left there by earlier reads, changes nothing.
pub proof fn lemma_rest_of_buffer_is_ignored(first: Seq<u8>, second: Seq<u8>, count: usize)
    requires
        count <= first.len(),
        count <= second.len(),
        first.take(count as int) == second.take(count as int),
    ensures
        stepped(first, IoEvent::Completed(count)) == stepped(second, IoEvent::Completed(count)),
{
}

} // verus!
