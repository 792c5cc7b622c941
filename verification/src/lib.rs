//! A personal file-storage protocol: clients sign requests with an Ed25519 key,
//! stream payloads to a server, and later retrieve them with integrity and
//! authenticity guarantees.
//!
//! This crate holds the verified core: the canonical request encoding and its
//! signature discipline, the content-digest accumulator, the storage namespace
//! resolver with its path sandbox, the server's upload state machine, and the
//! client-side transfer checks. The unverifiable edges (HTTP transport, disk
//! and keystore I/O, wall clock) live outside and hand this crate plain values.
use vstd::prelude::*;

pub mod client;
pub mod consts;
pub mod crypto;
pub mod handlers;
pub mod hasher;
pub mod keystore;
pub mod num;
pub mod pipeline;
pub mod request;
pub mod storage;

verus! {

/// Every failure the protocol can report, one variant per kind.
#[derive(Clone, Copy, Debug, PartialEq, Eq, Structural)]
pub enum TransferError {
    /// A field could not be parsed or decoded.
    MalformedInput,
    /// The request signature is invalid or the request is outside the
    /// freshness window.
    AuthenticationFailure,
    /// The payload signature does not match the transferred content.
    IntegrityFailure,
    /// The requested artifact does not exist.
    NotFound,
    /// The resource name would resolve outside the storage root.
    SandboxViolation,
    /// A disk or network operation failed.
    IoFailure,
    /// The peer answered with a non-OK status.
    TransportFailure,
}

} // verus!
