//! Core of a storage-device status query: a bit-exact codec for the fixed
//! request block, a bounds-checked flexible reply buffer, the generic command
//! contract, and the concrete stream-status command built on them.

pub mod command;
pub mod get_stream_status;
pub mod layout;
pub mod reply;

use vstd::prelude::*;

verus! {

/// Every way an invocation can fail. All failures surface to the caller as
/// a typed result: no silent defaults, no partial success reinterpreted as
/// success, and the core never retries.
#[derive(Clone, Copy, Debug, PartialEq, Eq, Structural)]
pub enum Error {
    /// A caller-supplied value exceeds what the protocol can represent.
    /// Raised before any transaction; carries the limit and the rejected
    /// value.
    ArgumentOutOfBounds { limit: u32, value: u32 },
    /// The execution mechanism itself failed: the transaction could not be
    /// submitted or completed. Checked first on every completed outcome.
    TransportError { code: i32 },
    /// The transaction completed, but the device signaled a fault
    /// condition. Checked second.
    ProtocolError { sense_key: u8 },
}

} // verus!
