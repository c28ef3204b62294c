//! Per-operation error taxonomy for the boundary calls.
//!
//! The engine reports only a bare integer per call; each boundary call
//! classifies that integer immediately into one of these sum types. The only
//! structured, non-fatal case is [`OpenVpnReceiveError::NoDataAvailable`]:
//! it means "retry later" and must be distinguishable without string
//! inspection. Every other failure carries an opaque diagnostic string, since
//! the engine exposes no structured cause beyond the integer.

use vstd::prelude::*;

verus! {

/// Error from a receive call. `NoDataAvailable` is expected in normal
/// operation and signals that the call should simply be retried later;
/// `Unknown` is a genuine failure.
pub enum OpenVpnReceiveError {
    NoDataAvailable,
    Unknown(String),
}

/// Error from a send call: the engine either consumes the whole input or
/// fails with an undifferentiated nonzero code.
pub enum OpenVpnSendError {
    Unknown(String),
}

/// Error from a connect call.
pub enum OpenVpnConnectionError {
    Unknown(String),
}

/// Error from a disconnect call.
pub enum OpenVpnDisconnectionError {
    Unknown(String),
}

/// Error raised while marshalling the creation strings, before any native
/// resource is allocated: a string argument holds an embedded NUL byte and
/// so cannot be given a null-terminated representation.
#[derive(Debug)]
pub enum OVPNCreationError {
    CStringError(String),
}

} // verus!
