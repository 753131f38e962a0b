//! Edit session scheduling: all document mutation is deferred to a unit of
//! work that the host runs under exclusive, ordered access.  The core only
//! ever builds a request value describing the work, its timing and its
//! access; the host decides when, and whether, the work runs.  A denied
//! request is a non-fatal no-op and is never retried.

use vstd::prelude::*;

verus! {

/// When the requested work may run: synchronously, before the requesting
/// call returns, or asynchronously, later on the same callback thread.
#[derive(Clone, Copy, PartialEq, Eq, Structural, Debug)]
pub enum Timing {
    Sync,
    Async,
}

/// The document access the requested work needs.
#[derive(Clone, Copy, PartialEq, Eq, Structural, Debug)]
pub enum Access {
    ReadOnly,
    ReadWrite,
}

/// The unit of work a request carries.
#[derive(Clone, Copy, PartialEq, Eq, Structural, Debug)]
pub enum EditWork {
    /// Commit one eaten keystroke.
    HandleKey { key: u32 },
    /// Start a composition at the current selection.
    StartComposition,
    /// Terminate the active composition.
    EndComposition,
}

/// A request for one edit session.  Synchronous timing is permitted only
/// for work requested from within the key-dispatch reentrant call chain;
/// every constructor in this crate other than the key handler's requests
/// asynchronous timing.
#[derive(Clone, Copy, PartialEq, Eq, Structural, Debug)]
pub struct EditSessionRequest {
    pub client_id: u32,
    pub timing: Timing,
    pub access: Access,
    pub work: EditWork,
}

/// The request the key dispatcher makes to commit an eaten key: one
/// synchronously scheduled, read-write session.  Key delivery already runs
/// inside a host-reentrant-safe call chain, which is the single documented
/// exception to asynchronous-only scheduling.
pub open spec fn spec_key_session_request(client_id: u32, key: u32) -> EditSessionRequest {
    EditSessionRequest {
        client_id,
        timing: Timing::Sync,
        access: Access::ReadWrite,
        work: EditWork::HandleKey { key },
    }
}

/// The request the edit-completion handler makes to terminate an escaped
/// composition: a fresh, asynchronous read-write session, never inline work
/// inside the notification callback.
pub open spec fn spec_end_composition_request(client_id: u32) -> EditSessionRequest {
    EditSessionRequest {
        client_id,
        timing: Timing::Async,
        access: Access::ReadWrite,
        work: EditWork::EndComposition,
    }
}

/// Builds the key dispatcher's synchronous read-write request.
pub fn request_key_session(client_id: u32, key: u32) -> (r: EditSessionRequest)
    ensures
        r == spec_key_session_request(client_id, key),
{
    EditSessionRequest {
        client_id,
        timing: Timing::Sync,
        access: Access::ReadWrite,
        work: EditWork::HandleKey { key },
    }
}

/// Builds the edit-completion handler's asynchronous termination request.
pub fn request_end_composition(client_id: u32) -> (r: EditSessionRequest)
    ensures
        r == spec_end_composition_request(client_id),
{
    EditSessionRequest {
        client_id,
        timing: Timing::Async,
        access: Access::ReadWrite,
        work: EditWork::EndComposition,
    }
}

} // verus!
