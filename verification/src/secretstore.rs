//! Data types of the platform secret store used to hold the vault key
//! behind biometric or OS-keychain authentication. The platform calls
//! themselves live outside the library.

use vstd::prelude::*;

verus! {

/// The platform mechanism that holds the secret.
#[derive(Debug, Clone, Copy, PartialEq, Eq, Structural)]
pub enum SecretStorageMethod {
    AndroidBiometric,
    IOSBiometric,
    MacOSKeychain,
    WindowsCredentialManager,
    LinuxSecretService,
}

/// Whether a secure secret store is usable on this device, and which one.
pub struct SecretStorageStatus {
    pub available: bool,
    pub method: Option<SecretStorageMethod>,
    pub unavailable_reason: Option<String>,
}

impl SecretStorageStatus {
    /// Secure storage is available through `method`.
    pub fn available(method: SecretStorageMethod) -> (r: Self)
        ensures
            r.available == true,
            r.method == Some(method),
            r.unavailable_reason is None,
    {
        SecretStorageStatus { available: true, method: Some(method), unavailable_reason: None }
    }

    /// Secure storage is unavailable, with the reason why.
    pub fn unavailable(reason: String) -> (r: Self)
        ensures
            r.available == false,
            r.method is None,
            r.unavailable_reason == Some(reason),
    {
        SecretStorageStatus { available: false, method: None, unavailable_reason: Some(reason) }
    }
}

/// A request to store a secret (typically the 32-byte vault key).
pub struct StoreSecretRequest {
    pub secret: Vec<u8>,
}

/// The secret handed back by the store.
pub struct RetrieveSecretResponse {
    pub secret: Vec<u8>,
}

/// An empty acknowledgement.
#[derive(Debug, Clone, Copy, PartialEq, Eq, Structural, Default)]
pub struct EmptyResponse {}

/// Why a secret-store operation failed.
#[derive(Debug)]
pub enum SecretStoreError {
    NotAvailable(String),
    AuthenticationFailed(String),
    BiometricEnrollmentChanged,
    NoBiometricsEnrolled,
    SecretNotFound,
    AccessDenied,
    UserCancelled,
    Io(String),
    Internal(String),
}

} // verus!
