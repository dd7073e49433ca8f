//! Types of the remote synchronization trigger.
//!
//! The remote gateway itself (network, credentials, wire protocol) lives
//! outside this library; the core only dispatches a synchronization
//! request, tracks whether one is in flight, and consumes its typed
//! outcome.

use vstd::prelude::*;

verus! {

/// Summary a completed synchronization hands back; the core treats it as
/// opaque.
#[derive(Clone, Copy, Debug, PartialEq, Eq)]
pub struct SyncInfo {}

/// A remote synchronization failure: recoverable, surfaced to the user,
/// retried only on explicit user action.
#[derive(Debug)]
pub struct SyncError {
    pub message: String,
}

impl Clone for SyncError {
    fn clone(&self) -> (r: Self)
        ensures
            r == *self,
    {
        SyncError { message: self.message.clone() }
    }
}

/// Where and how to reach the remote server.
#[derive(Debug)]
pub enum SyncConfig {
    JoplinServer { host: String, email: String, password: String },
}

/// The transient state of the synchronization trigger; never persisted.
#[derive(Debug)]
pub enum SyncStatus {
    Idle,
    InFlight,
    Succeeded(SyncInfo),
    Failed(SyncError),
}

} // verus!
