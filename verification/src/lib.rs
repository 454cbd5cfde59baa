//! DecentPaste core: clipboard synchronization between paired devices.
//!
//! The library holds the verified logic of the application: crypto contracts,
//! the pairing state machine, clipboard history invariants, echo suppression,
//! offline buffering, connection tracking, and the encrypted vault lifecycle.
//! Wire and file I/O live outside the library and hand in plain values.

pub mod buffers;
pub mod connect;
pub mod crypto;
pub mod engine;
pub mod errors;
pub mod events;
pub mod history;
pub mod identity;
pub mod pairing;
pub mod paths;
pub mod peers;
pub mod protocol;
pub mod secretstore;
pub mod settings;
pub mod shareintent;
pub mod sync;
pub mod text;
pub mod vault;

use vstd::prelude::*;

verus! {

/// Largest clipboard content accepted for sharing, in bytes (1 MiB).
pub const MAX_CLIPBOARD_SIZE: usize = 1048576;

} // verus!
