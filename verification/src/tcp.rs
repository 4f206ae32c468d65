//! Recovering the destination port of a TCP segment.
//!
//! The extractor reads one field of the TCP header, the destination port. It
//! does not look at sequence numbers, flags or the checksum.

use vstd::prelude::*;
use crate::wire::{be16_at, read_be16};

verus! {

/// The protocol number by which an IPv4 header announces a TCP segment.
pub const PROTOCOL_TCP: u8 = 6;

/// The length of a TCP header without options, in bytes. A shorter payload
/// is not taken as a segment.
pub const MIN_TCP_HEADER_LENGTH: usize = 20;

/// What the extractor recovers from a segment.
#[derive(Clone, Copy, Debug, PartialEq, Eq, Structural)]
pub struct TcpPortInfo {
    pub destination_port: u16,
}

/// Why the extractor recovers nothing.
#[derive(Clone, Copy, Debug, PartialEq, Eq, Structural)]
pub enum ExtractError {
    /// The protocol is not TCP, or the payload is shorter than a TCP header.
    NotTcpOrTooShort,
}

/// Whether a payload announced by `protocol` is taken as a TCP segment.
pub open spec fn carries_tcp(protocol: u8, payload: Seq<u8>) -> bool {
    protocol == 6 && payload.len() >= 20
}

/// The destination port of a segment: the big-endian number at offset 2,
/// behind the source port.
pub open spec fn destination_port_of(payload: Seq<u8>) -> u16
    recommends
        payload.len() >= 4,
{
    be16_at(payload, 2)
}

/// What the extractor gives for a payload announced by `protocol`.
pub open spec fn extracted(protocol: u8, payload: Seq<u8>) -> Result<TcpPortInfo, ExtractError> {
    if carries_tcp(protocol, payload) {
        Ok(TcpPortInfo { destination_port: destination_port_of(payload) })
    } else {
        Err(ExtractError::NotTcpOrTooShort)
    }
}

/// Recovers the destination port from the payload of a datagram.
///
/// Where `protocol` is 6 and the payload has at least 20 bytes, the port is
/// the big-endian number at offset 2 of the payload. On every other input
/// the extractor answers `NotTcpOrTooShort`.
pub fn extract(protocol: u8, payload: &[u8]) -> (result: Result<TcpPortInfo, ExtractError>)
    ensures
        result == extracted(protocol, payload@),
{
    if protocol == PROTOCOL_TCP && payload.len() >= MIN_TCP_HEADER_LENGTH {
        Ok(TcpPortInfo { destination_port: read_be16(payload, 2) })
    } else {
        Err(ExtractError::NotTcpOrTooShort)
    }
}

/// For a TCP payload of at least 20 bytes the extracted port is the third
/// byte times 256 plus the fourth.
pub proof fn lemma_port_is_big_endian_at_offset_two(payload: Seq<u8>)
    requires
        payload.len() >= 20,
    ensures
        extracted(6, payload) is Ok,
        extracted(6, payload)->Ok_0.destination_port == payload[2] * 256 + payload[3],
{
}

/// The extracted port depends on the third and fourth byte of the payload
/// and on nothing else in it: two TCP payloads of at least 20 bytes that
/// agree on those two bytes give the same port.
pub proof fn lemma_port_ignores_other_bytes(first: Seq<u8>, second: Seq<u8>)
    requires
        first.len() >= 20,
        second.len() >= 20,
        first[2] == second[2],
        first[3] == second[3],
    ensures
        extracted(6, first) == extracted(6, second),
{
}

/// A payload of another protocol gives no port, whatever it holds, and
/// neither does one of fewer than 20 bytes.
pub proof fn lemma_no_port_unless_tcp(protocol: u8, payload: Seq<u8>)
    requires
        protocol != 6 || payload.len() < 20,
    ensures
        extracted(protocol, payload) == Err::<TcpPortInfo, ExtractError>(
            ExtractError::NotTcpOrTooShort,
        ),
{
}

} // verus!
