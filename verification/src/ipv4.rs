//! Decoding of IPv4 datagram headers.
//!
//! The decoder looks at one chunk of bytes and either describes the datagram
//! at its front or says why there is none. It checks the version, the header
//! length and the declared total length, in that order, and nothing else:
//! checksum, options and time-to-live are not interpreted.

use vstd::prelude::*;
use crate::wire::{be16_at, read_be16};

verus! {

/// The length of an IPv4 header without options, in bytes. No shorter chunk
/// is looked at, and no shorter header length is accepted.
pub const MIN_HEADER_LENGTH: usize = 20;

/// The only version of the protocol that the decoder accepts.
pub const IP_VERSION: u8 = 4;

/// An IPv4 address: four octets, in the order in which they are written
/// (`a.b.c.d`).
#[derive(Clone, Copy, Debug, PartialEq, Eq, Structural)]
pub struct Ipv4Address {
    pub a: u8,
    pub b: u8,
    pub c: u8,
    pub d: u8,
}

impl Ipv4Address {
    /// The four octets in order.
    pub fn octets(&self) -> (octets: [u8; 4])
        ensures
            octets@ == seq![self.a, self.b, self.c, self.d],
    {
        let octets: [u8; 4] = [self.a, self.b, self.c, self.d];
        assert(octets@ =~= seq![self.a, self.b, self.c, self.d]);
        octets
    }
}

/// Why a chunk of bytes is not taken as a datagram.
#[derive(Clone, Copy, Debug, PartialEq, Eq, Structural)]
pub enum DecodeError {
    /// The chunk is shorter than the shortest header.
    TooShort,
    /// The version field holds this number, which is not 4.
    UnsupportedVersion(u8),
    /// The header length field announces fewer than 20 bytes.
    InvalidHeaderLength,
    /// The header declares `want` bytes, and the chunk holds only `have`.
    Truncated { have: usize, want: usize },
}

/// A decoded datagram. It borrows its payload from the chunk it was decoded
/// from, so nothing is copied.
#[derive(Clone, Copy, Debug, PartialEq, Eq)]
pub struct Ipv4Datagram<'a> {
    pub version: u8,
    pub header_length_bytes: usize,
    pub total_length: usize,
    pub protocol: u8,
    pub source_address: Ipv4Address,
    pub destination_address: Ipv4Address,
    pub payload: &'a [u8],
}

/// What a decoded datagram says, with the payload as a sequence of bytes.
pub struct Datagram {
    pub version: u8,
    pub header_length_bytes: nat,
    pub total_length: nat,
    pub protocol: u8,
    pub source_address: Ipv4Address,
    pub destination_address: Ipv4Address,
    pub payload: Seq<u8>,
}

impl Datagram {
    /// What holds of every datagram that the decoder accepts: the version
    /// is 4, the header has between 20 and 60 bytes, a whole number of
    /// 32-bit words, the declared length fits in 16 bits, and the payload is
    /// as long as the declared length reaches past the header.
    pub open spec fn well_formed(self) -> bool {
        &&& self.version == 4
        &&& 20 <= self.header_length_bytes <= 60
        &&& self.header_length_bytes % 4 == 0
        &&& self.total_length <= 65535
        &&& self.payload.len() == if self.header_length_bytes <= self.total_length {
            self.total_length - self.header_length_bytes
        } else {
            0
        }
    }
}

impl<'a> View for Ipv4Datagram<'a> {
    type V = Datagram;

    open spec fn view(&self) -> Datagram {
        Datagram {
            version: self.version,
            header_length_bytes: self.header_length_bytes as nat,
            total_length: self.total_length as nat,
            protocol: self.protocol,
            source_address: self.source_address,
            destination_address: self.destination_address,
            payload: self.payload@,
        }
    }
}

/// The version field: the high four bits of the first byte.
pub open spec fn version_of(bytes: Seq<u8>) -> u8
    recommends
        bytes.len() > 0,
{
    bytes[0] / 16
}

/// The header length in bytes: the low four bits of the first byte count
/// 32-bit words.
pub open spec fn header_length_of(bytes: Seq<u8>) -> nat
    recommends
        bytes.len() > 0,
{
    ((bytes[0] % 16) * 4) as nat
}

/// The declared length of the whole datagram: the big-endian number at
/// offset 2.
pub open spec fn total_length_of(bytes: Seq<u8>) -> nat
    recommends
        bytes.len() >= 4,
{
    be16_at(bytes, 2) as nat
}

/// The four octets at `offset`, as an address.
pub open spec fn address_at(bytes: Seq<u8>, offset: int) -> Ipv4Address
    recommends
        0 <= offset,
        offset + 4 <= bytes.len(),
{
    Ipv4Address {
        a: bytes[offset],
        b: bytes[offset + 1],
        c: bytes[offset + 2],
        d: bytes[offset + 3],
    }
}

/// The payload: the bytes at the positions from the end of the header up to,
/// and not including, the declared total length. Where the declared length
/// does not reach past the header there are no such positions, and the
/// payload is empty.
pub open spec fn payload_of(bytes: Seq<u8>) -> Seq<u8>
    recommends
        bytes.len() >= 4,
        total_length_of(bytes) <= bytes.len(),
{
    if header_length_of(bytes) <= total_length_of(bytes) {
        bytes.subrange(header_length_of(bytes) as int, total_length_of(bytes) as int)
    } else {
        Seq::empty()
    }
}

/// The reason for which the decoder rejects `bytes`, if it does. The four
/// checks are made in this order, and the first that fails decides.
pub open spec fn rejection(bytes: Seq<u8>) -> Option<DecodeError> {
    if bytes.len() < 20 {
        Some(DecodeError::TooShort)
    } else if version_of(bytes) != 4 {
        Some(DecodeError::UnsupportedVersion(version_of(bytes)))
    } else if header_length_of(bytes) < 20 {
        Some(DecodeError::InvalidHeaderLength)
    } else if bytes.len() < total_length_of(bytes) {
        Some(
            DecodeError::Truncated {
                have: bytes.len() as usize,
                want: total_length_of(bytes) as usize,
            },
        )
    } else {
        None
    }
}

/// The datagram at the front of `bytes`, field by field.
pub open spec fn datagram_of(bytes: Seq<u8>) -> Datagram
    recommends
        rejection(bytes) is None,
{
    Datagram {
        version: version_of(bytes),
        header_length_bytes: header_length_of(bytes),
        total_length: total_length_of(bytes),
        protocol: bytes[9],
        source_address: address_at(bytes, 12),
        destination_address: address_at(bytes, 16),
        payload: payload_of(bytes),
    }
}

/// What decoding `bytes` gives: the datagram, or the reason for rejecting
/// them.
pub open spec fn decoded(bytes: Seq<u8>) -> Result<Datagram, DecodeError> {
    match rejection(bytes) {
        Some(reason) => Err(reason),
        None => Ok(datagram_of(bytes)),
    }
}

/// A result of the decoder with the datagram replaced by what it says.
pub open spec fn result_view(result: Result<Ipv4Datagram<'_>, DecodeError>) -> Result<
    Datagram,
    DecodeError,
> {
    match result {
        Ok(datagram) => Ok(datagram@),
        Err(reason) => Err(reason),
    }
}

/// Reads the four octets at `offset` as an address.
fn read_address(bytes: &[u8], offset: usize) -> (address: Ipv4Address)
    requires
        offset + 4 <= bytes@.len(),
    ensures
        address == address_at(bytes@, offset as int),
{
    Ipv4Address {
        a: bytes[offset],
        b: bytes[offset + 1],
        c: bytes[offset + 2],
        d: bytes[offset + 3],
    }
}

/// Decodes the IPv4 datagram at the front of `input`.
///
/// The chunk is rejected if it is shorter than 20 bytes; else if its version
/// is not 4; else if its header length is under 20 bytes; else if it declares
/// more bytes than the chunk holds. Otherwise the datagram is returned, its
/// payload the part of `input` from the end of the header to the declared
/// length, which is empty where the declared length does not reach past the
/// header. Bytes after the declared length are not looked at.
pub fn decode<'a>(input: &'a [u8]) -> (result: Result<Ipv4Datagram<'a>, DecodeError>)
    ensures
        result_view(result) == decoded(input@),
        result matches Ok(datagram) ==> datagram@.well_formed(),
{
    if input.len() < MIN_HEADER_LENGTH {
        return Err(DecodeError::TooShort);
    }
    let first: u8 = input[0];
    let version: u8 = first >> 4;
    let words: u8 = first & 0x0F;
    assert(first >> 4 == first / 16) by (bit_vector);
    assert(first & 0x0F == first % 16) by (bit_vector);
    if version != IP_VERSION {
        return Err(DecodeError::UnsupportedVersion(version));
    }
    let header_length_bytes: usize = words as usize * 4;
    if header_length_bytes < MIN_HEADER_LENGTH {
        return Err(DecodeError::InvalidHeaderLength);
    }
    let total_length: usize = read_be16(input, 2) as usize;
    if input.len() < total_length {
        return Err(DecodeError::Truncated { have: input.len(), want: total_length });
    }
    let payload: &'a [u8] = if header_length_bytes <= total_length {
        vstd::slice::slice_subrange(input, header_length_bytes, total_length)
    } else {
        vstd::slice::slice_subrange(input, total_length, total_length)
    };
    assert(payload@ =~= payload_of(input@));
    Ok(
        Ipv4Datagram {
            version,
            header_length_bytes,
            total_length,
            protocol: input[9],
            source_address: read_address(input, 12),
            destination_address: read_address(input, 16),
            payload,
        },
    )
}

/// A chunk of fewer than 20 bytes is rejected as too short, whatever it
/// holds: none of its bytes is interpreted.
pub proof fn lemma_short_chunk_is_too_short(bytes: Seq<u8>)
    requires
        bytes.len() < 20,
    ensures
        decoded(bytes) == Err::<Datagram, DecodeError>(DecodeError::TooShort),
{
}

/// A chunk of at least 20 bytes whose version field is not 4 is rejected
/// with that version, whatever the bytes after the first hold.
pub proof fn lemma_other_version_is_unsupported(bytes: Seq<u8>)
    requires
        bytes.len() >= 20,
        bytes[0] / 16 != 4,
    ensures
        decoded(bytes) == Err::<Datagram, DecodeError>(
            DecodeError::UnsupportedVersion(bytes[0] / 16),
        ),
{
}

/// The version check reads the first byte only: two chunks of at least 20
/// bytes that start with the same byte, of a version other than 4, are
/// rejected alike.
pub proof fn lemma_version_check_ignores_the_rest(first: Seq<u8>, second: Seq<u8>)
    requires
        first.len() >= 20,
        second.len() >= 20,
        first[0] == second[0],
        version_of(first) != 4,
    ensures
        decoded(first) == decoded(second),
{
}

/// A chunk with a header of version 4 and of at least 20 bytes that declares
/// more bytes than the chunk holds is rejected as truncated, with both
/// lengths.
pub proof fn lemma_short_of_declared_length_is_truncated(bytes: Seq<u8>)
    requires
        bytes.len() >= 20,
        version_of(bytes) == 4,
        header_length_of(bytes) >= 20,
        total_length_of(bytes) > bytes.len(),
    ensures
        decoded(bytes) matches Err(DecodeError::Truncated { have, want }) && have == bytes.len()
            && want == total_length_of(bytes),
{
}

/// The payload of an accepted datagram lies inside the chunk: it is the part
/// of the chunk between two positions, neither past its end.
pub proof fn lemma_payload_lies_within_the_chunk(bytes: Seq<u8>)
    requires
        decoded(bytes) is Ok,
    ensures
        exists|from: int, to: int|
            0 <= from <= to <= bytes.len() && #[trigger] bytes.subrange(from, to) == payload_of(
                bytes,
            ),
{
    let total = total_length_of(bytes) as int;
    if header_length_of(bytes) <= total_length_of(bytes) {
        assert(bytes.subrange(header_length_of(bytes) as int, total) == payload_of(bytes));
    } else {
        assert(bytes.subrange(total, total) =~= payload_of(bytes));
    }
}

/// What is accepted has passed every check: the chunk has at least 20 bytes,
/// the datagram is well formed, and it declares no more bytes than the chunk
/// holds.
pub proof fn lemma_accepted_datagram_is_well_formed(bytes: Seq<u8>)
    requires
        decoded(bytes) is Ok,
    ensures
        bytes.len() >= 20,
        datagram_of(bytes).well_formed(),
        datagram_of(bytes).total_length <= bytes.len(),
{
}

/// Decoding is a function of the bytes: whatever two runs of the decoder
/// return for the same bytes says the same, field by field.
pub proof fn lemma_decoding_twice_agrees(
    bytes: Seq<u8>,
    first: Result<Ipv4Datagram<'_>, DecodeError>,
    second: Result<Ipv4Datagram<'_>, DecodeError>,
)
    requires
        result_view(first) == decoded(bytes),
        result_view(second) == decoded(bytes),
    ensures
        result_view(first) == result_view(second),
        first is Ok ==> second is Ok && first->Ok_0@ == second->Ok_0@,
        first is Err ==> second is Err && first->Err_0 == second->Err_0,
{
}

} // verus!
