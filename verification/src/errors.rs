//! Error kinds surfaced by the library.
//!
//! The kinds mirror the surface-stable error codes of the application:
//! recoverable conditions are reported by value and never panic.

use vstd::prelude::*;

verus! {

/// Application-level error kinds. Variants that carry a `String` hold a
/// short human-readable detail; the variant itself is the stable code.
#[derive(Debug, Clone)]
pub enum DecentPasteError {
    Network(String),
    Clipboard(String),
    Pairing(String),
    Encryption(String),
    Storage(String),
    Config(String),
    Serialization(String),
    Io(String),
    ChannelSend,
    ChannelReceive,
    PeerNotFound(String),
    AlreadyPaired(String),
    InvalidPin,
    PairingTimeout,
    NotInitialized,
    VaultLocked,
    NoPeersAvailable,
    InvalidInput(String),
}

impl DecentPasteError {
    /// The stable error code of this kind.
    pub open spec fn spec_code(&self) -> Seq<char> {
        match self {
            DecentPasteError::Network(_) => "NETWORK"@,
            DecentPasteError::Clipboard(_) => "CLIPBOARD"@,
            DecentPasteError::Pairing(_) => "PAIRING"@,
            DecentPasteError::Encryption(_) => "ENCRYPTION"@,
            DecentPasteError::Storage(_) => "STORAGE"@,
            DecentPasteError::Config(_) => "CONFIG"@,
            DecentPasteError::Serialization(_) => "SERIALIZATION"@,
            DecentPasteError::Io(_) => "IO"@,
            DecentPasteError::ChannelSend => "CHANNEL_SEND"@,
            DecentPasteError::ChannelReceive => "CHANNEL_RECEIVE"@,
            DecentPasteError::PeerNotFound(_) => "PEER_NOT_FOUND"@,
            DecentPasteError::AlreadyPaired(_) => "ALREADY_PAIRED"@,
            DecentPasteError::InvalidPin => "INVALID_PIN"@,
            DecentPasteError::PairingTimeout => "PAIRING_TIMEOUT"@,
            DecentPasteError::NotInitialized => "NOT_INITIALIZED"@,
            DecentPasteError::VaultLocked => "VAULT_LOCKED"@,
            DecentPasteError::NoPeersAvailable => "NO_PEERS_AVAILABLE"@,
            DecentPasteError::InvalidInput(_) => "INVALID_INPUT"@,
        }
    }

    /// The stable error code, for display and IPC surfaces.
    pub fn code(&self) -> (r: String)
        ensures
            r@ == self.spec_code(),
    {
        match self {
            DecentPasteError::Network(_) => String::from_str("NETWORK"),
            DecentPasteError::Clipboard(_) => String::from_str("CLIPBOARD"),
            DecentPasteError::Pairing(_) => String::from_str("PAIRING"),
            DecentPasteError::Encryption(_) => String::from_str("ENCRYPTION"),
            DecentPasteError::Storage(_) => String::from_str("STORAGE"),
            DecentPasteError::Config(_) => String::from_str("CONFIG"),
            DecentPasteError::Serialization(_) => String::from_str("SERIALIZATION"),
            DecentPasteError::Io(_) => String::from_str("IO"),
            DecentPasteError::ChannelSend => String::from_str("CHANNEL_SEND"),
            DecentPasteError::ChannelReceive => String::from_str("CHANNEL_RECEIVE"),
            DecentPasteError::PeerNotFound(_) => String::from_str("PEER_NOT_FOUND"),
            DecentPasteError::AlreadyPaired(_) => String::from_str("ALREADY_PAIRED"),
            DecentPasteError::InvalidPin => String::from_str("INVALID_PIN"),
            DecentPasteError::PairingTimeout => String::from_str("PAIRING_TIMEOUT"),
            DecentPasteError::NotInitialized => String::from_str("NOT_INITIALIZED"),
            DecentPasteError::VaultLocked => String::from_str("VAULT_LOCKED"),
            DecentPasteError::NoPeersAvailable => String::from_str("NO_PEERS_AVAILABLE"),
            DecentPasteError::InvalidInput(_) => String::from_str("INVALID_INPUT"),
        }
    }
}

/// Error kinds of the vault subsystem.
#[derive(Debug, Clone)]
pub enum VaultError {
    InvalidPin,
    NotSetup,
    Locked,
    Corrupted(String),
    Encryption(String),
    Io(String),
    Serialization(String),
    Salt(String),
    KeyDerivation(String),
    AlreadyExists,
}

impl VaultError {
    /// The stable error code of this kind.
    pub open spec fn spec_code(&self) -> Seq<char> {
        match self {
            VaultError::InvalidPin => "INVALID_PIN"@,
            VaultError::NotSetup => "NOT_SETUP"@,
            VaultError::Locked => "LOCKED"@,
            VaultError::Corrupted(_) => "CORRUPTED"@,
            VaultError::Encryption(_) => "ENCRYPTION_ERROR"@,
            VaultError::Io(_) => "IO_ERROR"@,
            VaultError::Serialization(_) => "SERIALIZATION_ERROR"@,
            VaultError::Salt(_) => "SALT_ERROR"@,
            VaultError::KeyDerivation(_) => "KEY_DERIVATION_ERROR"@,
            VaultError::AlreadyExists => "ALREADY_EXISTS"@,
        }
    }

    /// The stable error code, for display and IPC surfaces.
    pub fn code(&self) -> (r: String)
        ensures
            r@ == self.spec_code(),
    {
        match self {
            VaultError::InvalidPin => String::from_str("INVALID_PIN"),
            VaultError::NotSetup => String::from_str("NOT_SETUP"),
            VaultError::Locked => String::from_str("LOCKED"),
            VaultError::Corrupted(_) => String::from_str("CORRUPTED"),
            VaultError::Encryption(_) => String::from_str("ENCRYPTION_ERROR"),
            VaultError::Io(_) => String::from_str("IO_ERROR"),
            VaultError::Serialization(_) => String::from_str("SERIALIZATION_ERROR"),
            VaultError::Salt(_) => String::from_str("SALT_ERROR"),
            VaultError::KeyDerivation(_) => String::from_str("KEY_DERIVATION_ERROR"),
            VaultError::AlreadyExists => String::from_str("ALREADY_EXISTS"),
        }
    }
}

impl VaultError {
    /// How this vault error surfaces at the application level.
    /// A wrong PIN stays `InvalidPin`; a locked vault becomes `VaultLocked`;
    /// the remaining kinds become storage, encryption, I/O or
    /// serialization errors carrying the same detail text.
    pub fn into_app_error(self) -> (r: DecentPasteError)
        ensures
            self is InvalidPin ==> r is InvalidPin,
            self is NotSetup ==> r is Storage,
            self is Locked ==> r is VaultLocked,
            self is AlreadyExists ==> r is Storage,
            self matches VaultError::Corrupted(m) ==> r == DecentPasteError::Storage(m),
            self matches VaultError::Encryption(m) ==> r == DecentPasteError::Encryption(m),
            self matches VaultError::Io(m) ==> r == DecentPasteError::Io(m),
            self matches VaultError::Serialization(m) ==> r == DecentPasteError::Serialization(m),
            self matches VaultError::Salt(m) ==> r == DecentPasteError::Storage(m),
            self matches VaultError::KeyDerivation(m) ==> r == DecentPasteError::Encryption(m),
    {
        match self {
            VaultError::InvalidPin => DecentPasteError::InvalidPin,
            VaultError::NotSetup => DecentPasteError::Storage(String::from_str("vault not set up")),
            VaultError::Locked => DecentPasteError::VaultLocked,
            VaultError::Corrupted(m) => DecentPasteError::Storage(m),
            VaultError::Encryption(m) => DecentPasteError::Encryption(m),
            VaultError::Io(m) => DecentPasteError::Io(m),
            VaultError::Serialization(m) => DecentPasteError::Serialization(m),
            VaultError::Salt(m) => DecentPasteError::Storage(m),
            VaultError::KeyDerivation(m) => DecentPasteError::Encryption(m),
            VaultError::AlreadyExists => DecentPasteError::Storage(String::from_str("vault already exists")),
        }
    }
}

impl From<VaultError> for DecentPasteError {
    fn from(e: VaultError) -> (r: DecentPasteError) {
        e.into_app_error()
    }
}

impl vstd::std_specs::convert::FromSpecImpl<VaultError> for DecentPasteError {
    open spec fn obeys_from_spec() -> bool {
        false
    }

    open spec fn from_spec(e: VaultError) -> DecentPasteError {
        DecentPasteError::InvalidPin
    }
}

} // verus!
