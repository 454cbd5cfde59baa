//! Data types of the share-intent surface: text shared into the app from
//! another application. The platform plumbing lives outside the library.

use vstd::prelude::*;

verus! {

/// Text shared into the app, with its source and arrival time.
pub struct ShareIntentContent {
    pub text: String,
    pub source_app: Option<String>,
    /// Unix time in milliseconds.
    pub received_at: i64,
}

/// The answer to "is something waiting to be shared?".
pub struct PendingShareResponse {
    pub content: Option<ShareIntentContent>,
}

/// The payload of a share-received notification.
pub struct ShareReceivedPayload {
    pub text: String,
}

/// Why handling a share intent failed.
#[derive(Debug)]
pub enum ShareIntentError {
    NoPendingContent,
    Internal(String),
}

/// What sharing to the paired peers achieved.
#[derive(Debug, Clone, Copy, PartialEq, Eq, Structural)]
pub struct ShareResult {
    pub total_peers: usize,
    pub peers_reached: usize,
    pub peers_offline: usize,
    pub added_to_history: bool,
}

} // verus!
