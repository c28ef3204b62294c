//! Bridging layer between a native tunneling VPN engine and a memory-safe
//! host: the decision logic of the boundary, verified.
//!
//! The native engine speaks in narrow numeric result codes, C strings and
//! caller-supplied buffers. This crate holds everything on that boundary that
//! is pure computation: classifying result codes into a structured error
//! taxonomy, validating the strings marshalled at instance creation, the
//! read-allocate buffer round-trip, constructing and rendering events, the
//! dispatch decisions of the log/event channels, and the lifecycle model that
//! states when the user-context may still be called into and that it is torn
//! down exactly once. The unsafe glue that actually crosses the boundary
//! lives outside this crate and hands plain values in and out.

use vstd::prelude::*;

pub mod codes;
pub mod context;
pub mod creation;
pub mod decimal;
pub mod errors;
pub mod event;
pub mod lifecycle;

verus! {

/// Capacity of the fixed transfer buffer used by receive: a typical
/// transport MTU plus overhead.
pub const MAX_BYTES_TRANSPORT: usize = 1518;

} // verus!
