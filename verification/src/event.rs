//! What the caller reports back to the library.
//!
//! The library performs no I/O. It asks for one operation at a time, and the
//! caller answers with how that operation ended.

use vstd::prelude::*;

verus! {

/// How an I/O operation ended.
#[derive(Clone, Copy, Debug, PartialEq, Eq, Structural)]
pub enum IoEvent {
    /// It succeeded and moved this many bytes: the bytes that a read
    /// brought, or that a write sent. A connect moves none.
    Completed(usize),
    /// It failed.
    Failed,
}

} // verus!
