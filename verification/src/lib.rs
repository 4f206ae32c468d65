//! The decision logic of a user-space packet gateway.
//!
//! A client hands the gateway a byte stream that carries raw IPv4 datagrams.
//! Each chunk read from that stream is decoded as one datagram; a datagram
//! that carries a TCP segment is turned into a request to open a connection to
//! the destination it names and to relay the segment there.
//!
//! Everything here is a function of plain values: the sockets live with the
//! caller, which performs the actions this crate decides on and reports back
//! what happened.

pub mod event;
pub mod forward;
pub mod gateway;
pub mod ipv4;
pub mod reader;
pub mod tcp;
pub mod wire;
