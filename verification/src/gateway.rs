//! What the gateway does with one chunk of bytes.
//!
//! A chunk is decoded as one datagram. A datagram that carries a TCP segment
//! becomes a request to forward the segment to its destination; any other
//! datagram is dropped. No connection is opened here: the request is handed
//! to the caller, which starts a forwarding unit for it.

use vstd::prelude::*;
use crate::forward::{action_in, Action, ForwardRequest, ForwardState, Request};
use crate::ipv4::{
    address_at, datagram_of, decode, payload_of, rejection, Datagram, DecodeError, Ipv4Datagram,
};
use crate::tcp::{carries_tcp, destination_port_of, extract};

verus! {

/// What became of a chunk.
#[derive(Debug, PartialEq, Eq)]
pub enum PacketOutcome<'a> {
    /// The chunk is no datagram, for this reason. Nothing is forwarded.
    Rejected(DecodeError),
    /// The chunk holds this datagram, which carries no TCP segment: its
    /// protocol is not TCP, or its payload is shorter than a TCP header.
    /// Nothing is forwarded.
    Dropped(Ipv4Datagram<'a>),
    /// The chunk holds this datagram, and its payload is to be forwarded as
    /// the request says.
    Forward(Ipv4Datagram<'a>, ForwardRequest),
}

/// An outcome with the datagram and the request as plain values.
pub enum Outcome {
    Rejected(DecodeError),
    Dropped(Datagram),
    Forward(Datagram, Request),
}

impl<'a> View for PacketOutcome<'a> {
    type V = Outcome;

    open spec fn view(&self) -> Outcome {
        match *self {
            PacketOutcome::Rejected(reason) => Outcome::Rejected(reason),
            PacketOutcome::Dropped(datagram) => Outcome::Dropped(datagram@),
            PacketOutcome::Forward(datagram, request) => Outcome::Forward(datagram@, request@),
        }
    }
}

/// The request that forwards the segment of `datagram`: to the destination
/// address of the IP header and the destination port of the TCP header, with
/// the whole payload of the datagram, TCP header included.
pub open spec fn request_for(datagram: Datagram) -> Request
    recommends
        carries_tcp(datagram.protocol, datagram.payload),
{
    Request {
        destination_address: datagram.destination_address,
        destination_port: destination_port_of(datagram.payload),
        payload: datagram.payload,
    }
}

/// What becomes of a chunk that holds `bytes`.
pub open spec fn handled(bytes: Seq<u8>) -> Outcome {
    match rejection(bytes) {
        Some(reason) => Outcome::Rejected(reason),
        None => {
            let datagram = datagram_of(bytes);
            if carries_tcp(datagram.protocol, datagram.payload) {
                Outcome::Forward(datagram, request_for(datagram))
            } else {
                Outcome::Dropped(datagram)
            }
        },
    }
}

/// Decides what to do with one chunk read from a client.
///
/// The chunk is decoded as one IPv4 datagram. If the decoder rejects it, so
/// does the gateway, for the same reason. If the datagram is of protocol 6
/// and has a payload of at least 20 bytes, the outcome is a request to
/// connect to the datagram's destination address, on the port at offset 2 of
/// the payload, and to send a copy of the payload there. Otherwise the
/// datagram is dropped.
pub fn handle_packet<'a>(input: &'a [u8]) -> (outcome: PacketOutcome<'a>)
    ensures
        outcome@ == handled(input@),
{
    match decode(input) {
        Err(reason) => PacketOutcome::Rejected(reason),
        Ok(datagram) => match extract(datagram.protocol, datagram.payload) {
            Err(_) => PacketOutcome::Dropped(datagram),
            Ok(ports) => {
                let request = ForwardRequest {
                    destination_address: datagram.destination_address,
                    destination_port: ports.destination_port,
                    payload: vstd::slice::slice_to_vec(datagram.payload),
                };
                PacketOutcome::Forward(datagram, request)
            },
        },
    }
}

/// A datagram of a protocol other than TCP is never forwarded: no request
/// comes of it, so no connection is opened for it.
pub proof fn lemma_other_protocols_are_not_forwarded(bytes: Seq<u8>)
    requires
        rejection(bytes) is None,
        datagram_of(bytes).protocol != 6,
    ensures
        handled(bytes) == Outcome::Dropped(datagram_of(bytes)),
{
}

/// A request comes of a chunk if and only if the chunk is accepted as a
/// datagram of protocol 6 with a payload of at least 20 bytes.
pub proof fn lemma_forwarded_if_and_only_if_tcp(bytes: Seq<u8>)
    ensures
        handled(bytes) is Forward <==> rejection(bytes) is None && datagram_of(bytes).protocol == 6
            && datagram_of(bytes).payload.len() >= 20,
{
}

/// A request names the destination address at offset 16 of the chunk and the
/// port at offset 2 of the payload, and carries the payload unchanged.
pub proof fn lemma_request_names_the_destination(bytes: Seq<u8>)
    requires
        handled(bytes) is Forward,
    ensures
        handled(bytes)->Forward_1.destination_address == address_at(bytes, 16),
        handled(bytes)->Forward_1.destination_port == payload_of(bytes)[2] * 256
            + payload_of(bytes)[3],
        handled(bytes)->Forward_1.payload == payload_of(bytes),
        handled(bytes)->Forward_1.payload.len() >= 20,
{
}

/// A rejected chunk is rejected for the decoder's reason, and nothing is
/// forwarded.
pub proof fn lemma_rejected_chunks_are_not_forwarded(bytes: Seq<u8>)
    requires
        rejection(bytes) is Some,
    ensures
        handled(bytes) == Outcome::Rejected(rejection(bytes)->Some_0),
{
}

/// The unit that serves a request begins by connecting to the destination
/// that the datagram names: each forwarded datagram gets a connection attempt
/// of its own, to its own destination.
pub proof fn lemma_forwarding_begins_with_its_own_connect(bytes: Seq<u8>)
    requires
        handled(bytes) is Forward,
    ensures
        action_in(ForwardState::Connecting, handled(bytes)->Forward_1) == (Action::Connect {
            address: address_at(bytes, 16),
            port: destination_port_of(payload_of(bytes)),
        }),
{
}

/// Of a chunk that holds more than one datagram only the first is handled:
/// whatever follows an accepted chunk in the same read changes nothing.
pub proof fn lemma_bytes_behind_the_datagram_are_ignored(bytes: Seq<u8>, more: Seq<u8>)
    requires
        rejection(bytes) is None,
    ensures
        handled(bytes + more) == handled(bytes),
{
    let both = bytes + more;
    assert(forall|i: int| 0 <= i < bytes.len() ==> both[i] == bytes[i]);
    assert(rejection(both) is None);
    assert(payload_of(both) =~= payload_of(bytes));
}

} // verus!
