//! Cryptographic primitives.
//!
//! Every call into an outside crypto crate goes through a trusted wrapper
//! here; the rest of the library is verified against the contracts of these
//! wrappers. Results that no short formula can state are given names
//! (`sha256_hex_of`, `aes_gcm_open`, ...) and the contracts speak of those
//! names exactly.

use vstd::prelude::*;
use vstd::string::*;

use crate::errors::DecentPasteError;

verus! {

/// Length of the AES-GCM nonce prepended to each ciphertext, in bytes.
pub const NONCE_SIZE: usize = 12;

/// Length of the AES-GCM authentication tag, in bytes.
pub const TAG_SIZE: usize = 16;

/// Largest plaintext AES-GCM accepts, in bytes (2^36); longer inputs are
/// the only way encryption under a 32-byte key can fail.
pub const GCM_P_MAX: u64 = 68719476736;

/// Largest password Argon2 accepts, in bytes; longer inputs are the only
/// way derivation with our fixed parameters and a 16-byte salt can fail.
pub const ARGON2_MAX_PWD_LEN: u64 = 0xFFFFFFFF;

/// The lowercase hex rendering of the SHA-256 digest of a text.
pub uninterp spec fn sha256_hex_of(content: Seq<char>) -> Seq<char>;

/// What AES-256-GCM decryption of `nonce ‖ ciphertext ‖ tag` under `key`
/// yields: the plaintext, or `None` on authentication failure.
pub uninterp spec fn aes_gcm_open(blob: Seq<u8>, key: Seq<u8>) -> Option<Seq<u8>>;

/// The X25519 shared secret of a private key and a peer's public key.
pub uninterp spec fn x25519_shared_secret(private_key: Seq<u8>, public_key: Seq<u8>) -> Seq<u8>;

/// The X25519 public key belonging to a private key.
pub uninterp spec fn x25519_public_of(private_key: Seq<u8>) -> Seq<u8>;

/// The 32-byte Argon2id key derived from a PIN and a 16-byte salt
/// (memory 64 MiB, time 3, parallelism 4).
pub uninterp spec fn argon2id_key(pin: Seq<char>, salt: Seq<u8>) -> Seq<u8>;

/// Relies on sha2's SHA-256 and hex's lowercase encoding: the digest is a
/// function of the input text alone, and the hex form of the 32-byte digest
/// has 64 characters.
#[verifier::external_body]
pub fn hash_content(content: &str) -> (r: String)
    ensures
        r@ == sha256_hex_of(content@),
        r@.len() == 64,
{
    let mut hasher = <sha2::Sha256 as sha2::Digest>::new();
    sha2::Digest::update(&mut hasher, content.as_bytes());
    hex::encode(sha2::Digest::finalize(hasher))
}

/// Relies on aes_gcm's AES-256-GCM `encrypt` with a fresh 96-bit nonce from
/// the OS CSPRNG: decrypting `nonce ‖ ciphertext ‖ tag` with the same key
/// yields the plaintext again, and the blob is 28 bytes longer than the
/// plaintext. With a 32-byte key, encryption fails only on plaintexts past
/// the AES-GCM length bound.
#[verifier::external_body]
fn aes_encrypt(content: &[u8], key: &[u8]) -> (r: Result<Vec<u8>, ()>)
    requires
        key@.len() == 32,
    ensures
        r matches Ok(blob) ==> aes_gcm_open(blob@, key@) == Some(content@)
            && blob@.len() == content@.len() + 28,
        content@.len() <= GCM_P_MAX ==> r is Ok,
{
    let cipher = match <aes_gcm::Aes256Gcm as aes_gcm::KeyInit>::new_from_slice(key) {
        Ok(c) => c,
        Err(_) => return Err(()),
    };
    let mut nonce_bytes = [0u8; 12];
    aes_gcm::aead::rand_core::RngCore::fill_bytes(&mut aes_gcm::aead::OsRng, &mut nonce_bytes);
    let nonce = aes_gcm::Nonce::from_slice(&nonce_bytes);
    match aes_gcm::aead::Aead::encrypt(&cipher, nonce, content) {
        Ok(ciphertext) => {
            let mut out = nonce_bytes.to_vec();
            out.extend(ciphertext);
            Ok(out)
        }
        Err(_) => Err(()),
    }
}

/// Relies on aes_gcm's AES-256-GCM `decrypt`: the result is a function of the
/// blob and the key alone; an authentication failure is reported as an error.
#[verifier::external_body]
fn aes_decrypt(blob: &[u8], key: &[u8]) -> (r: Result<Vec<u8>, ()>)
    requires
        key@.len() == 32,
        blob@.len() >= 12,
    ensures
        r matches Ok(p) ==> aes_gcm_open(blob@, key@) == Some(p@),
        r is Err ==> aes_gcm_open(blob@, key@) is None,
{
    let cipher = match <aes_gcm::Aes256Gcm as aes_gcm::KeyInit>::new_from_slice(key) {
        Ok(c) => c,
        Err(_) => return Err(()),
    };
    let (nonce_bytes, ciphertext) = blob.split_at(12);
    let nonce = aes_gcm::Nonce::from_slice(nonce_bytes);
    match aes_gcm::aead::Aead::decrypt(&cipher, nonce, ciphertext) {
        Ok(plaintext) => Ok(plaintext),
        Err(_) => Err(()),
    }
}

/// Encrypt `content` under a 32-byte shared secret.
///
/// Succeeds on every plaintext up to the AES-GCM length bound; the result
/// is `nonce ‖ ciphertext ‖ tag`, 28 bytes longer than the plaintext, and
/// decrypting it with the same key yields `content` again. A key of any
/// other length is rejected with an `Encryption` error.
pub fn encrypt_content(content: &[u8], shared_secret: &[u8]) -> (r: Result<
    Vec<u8>,
    DecentPasteError,
>)
    ensures
        shared_secret@.len() != 32 ==> r is Err,
        shared_secret@.len() == 32 && content@.len() <= GCM_P_MAX ==> r is Ok,
        r matches Ok(blob) ==> shared_secret@.len() == 32
            && aes_gcm_open(blob@, shared_secret@) == Some(content@)
            && blob@.len() == content@.len() + 28,
        r matches Err(e) ==> e is Encryption,
{
    if shared_secret.len() != 32 {
        return Err(DecentPasteError::Encryption(String::from_str("shared secret must be 32 bytes")));
    }
    match aes_encrypt(content, shared_secret) {
        Ok(blob) => Ok(blob),
        Err(_) => Err(DecentPasteError::Encryption(String::from_str("encryption failed"))),
    }
}

/// Decrypt `nonce ‖ ciphertext ‖ tag` under a 32-byte shared secret.
///
/// Succeeds exactly on the blobs that authenticate under the key; a short
/// blob (under 12 bytes) or a key of the wrong length is rejected with an
/// `Encryption` error.
pub fn decrypt_content(encrypted: &[u8], shared_secret: &[u8]) -> (r: Result<
    Vec<u8>,
    DecentPasteError,
>)
    ensures
        shared_secret@.len() != 32 ==> r is Err,
        encrypted@.len() < 12 ==> r is Err,
        r matches Ok(p) ==> shared_secret@.len() == 32 && encrypted@.len() >= 12
            && aes_gcm_open(encrypted@, shared_secret@) == Some(p@),
        (shared_secret@.len() == 32 && encrypted@.len() >= 12 && r is Err)
            ==> aes_gcm_open(encrypted@, shared_secret@) is None,
        r matches Err(e) ==> e is Encryption,
{
    if shared_secret.len() != 32 {
        return Err(DecentPasteError::Encryption(String::from_str("shared secret must be 32 bytes")));
    }
    if encrypted.len() < 12 {
        return Err(DecentPasteError::Encryption(String::from_str("data too short")));
    }
    match aes_decrypt(encrypted, shared_secret) {
        Ok(plaintext) => Ok(plaintext),
        Err(_) => Err(DecentPasteError::Encryption(String::from_str("decryption failed"))),
    }
}

/// Round trip: whatever nonce the encryption drew, decrypting its output
/// under the same 32-byte key yields the original bytes, and it does so on
/// every plaintext up to the AES-GCM length bound.
pub fn encrypt_then_decrypt(content: &Vec<u8>, key: &Vec<u8>) -> (r: Result<
    Vec<u8>,
    DecentPasteError,
>)
    requires
        key@.len() == 32,
    ensures
        r matches Ok(p) ==> p@ == content@,
        content@.len() <= GCM_P_MAX ==> r is Ok,
{
    let blob = match encrypt_content(content.as_slice(), key.as_slice()) {
        Ok(b) => b,
        Err(e) => return Err(e),
    };
    decrypt_content(blob.as_slice(), key.as_slice())
}

/// Relies on x25519_dalek's `StaticSecret::random_from_rng` with the OS
/// CSPRNG: a fresh 32-byte X25519 private key.
#[verifier::external_body]
pub fn x25519_random_private() -> (r: Vec<u8>)
    ensures
        r@.len() == 32,
{
    let secret = x25519_dalek::StaticSecret::random_from_rng(aes_gcm::aead::OsRng);
    secret.as_bytes().to_vec()
}

/// Relies on x25519_dalek's `PublicKey::from(&StaticSecret)`: the public key
/// is a function of the 32 private-key bytes alone, and is 32 bytes long.
#[verifier::external_body]
pub fn x25519_public_key(private_key: &[u8]) -> (r: Vec<u8>)
    requires
        private_key@.len() == 32,
    ensures
        r@ == x25519_public_of(private_key@),
        r@.len() == 32,
{
    let mut private_bytes = [0u8; 32];
    private_bytes.copy_from_slice(private_key);
    let secret = x25519_dalek::StaticSecret::from(private_bytes);
    let public = x25519_dalek::PublicKey::from(&secret);
    public.as_bytes().to_vec()
}

/// Relies on x25519_dalek's `StaticSecret::diffie_hellman`: for 32-byte
/// keys the shared secret is a function of the two keys alone, 32 bytes long.
#[verifier::external_body]
fn x25519_dh(private_key: &[u8], public_key: &[u8]) -> (r: Vec<u8>)
    requires
        private_key@.len() == 32,
        public_key@.len() == 32,
    ensures
        r@ == x25519_shared_secret(private_key@, public_key@),
        r@.len() == 32,
{
    let mut private_bytes = [0u8; 32];
    private_bytes.copy_from_slice(private_key);
    let mut public_bytes = [0u8; 32];
    public_bytes.copy_from_slice(public_key);
    let secret = x25519_dalek::StaticSecret::from(private_bytes);
    let public = x25519_dalek::PublicKey::from(public_bytes);
    secret.diffie_hellman(&public).as_bytes().to_vec()
}

/// Derive the X25519 shared secret of our private key and a peer's public
/// key. Succeeds exactly when both keys are 32 bytes; the result is the
/// 32-byte ECDH output, a function of the two keys alone.
pub fn derive_shared_secret(our_private_key: &[u8], their_public_key: &[u8]) -> (r: Result<
    Vec<u8>,
    DecentPasteError,
>)
    ensures
        r is Ok <==> our_private_key@.len() == 32 && their_public_key@.len() == 32,
        r matches Ok(s) ==> s@ == x25519_shared_secret(our_private_key@, their_public_key@)
            && s@.len() == 32,
        r matches Err(e) ==> e is Encryption,
{
    if our_private_key.len() != 32 {
        return Err(DecentPasteError::Encryption(String::from_str("private key must be 32 bytes")));
    }
    if their_public_key.len() != 32 {
        return Err(DecentPasteError::Encryption(String::from_str("public key must be 32 bytes")));
    }
    Ok(x25519_dh(our_private_key, their_public_key))
}

/// Relies on argon2's Argon2id `hash_password_into` with memory 64 MiB,
/// time 3, parallelism 4 and 32-byte output: the key is a function of the
/// PIN and the salt alone. With a 16-byte salt, derivation fails only on
/// passwords past Argon2's length bound.
#[verifier::external_body]
fn argon2_derive(pin: &str, salt: &[u8]) -> (r: Result<Vec<u8>, ()>)
    requires
        salt@.len() == 16,
    ensures
        r matches Ok(k) ==> k@ == argon2id_key(pin@, salt@) && k@.len() == 32,
        pin.spec_bytes().len() <= ARGON2_MAX_PWD_LEN ==> r is Ok,
{
    let params = match argon2::Params::new(65536, 3, 4, Some(32)) {
        Ok(p) => p,
        Err(_) => return Err(()),
    };
    let argon = argon2::Argon2::new(argon2::Algorithm::Argon2id, argon2::Version::V0x13, params);
    let mut key = vec![0u8; 32];
    match argon.hash_password_into(pin.as_bytes(), salt, &mut key) {
        Ok(()) => Ok(key),
        Err(_) => Err(()),
    }
}

/// Derive the 32-byte vault key from a PIN and a 16-byte salt via Argon2id.
/// The same PIN and salt always give the same key, and every PIN up to
/// Argon2's length bound derives one.
pub fn derive_key_from_pin(pin: &str, salt: &[u8]) -> (r: Result<Vec<u8>, DecentPasteError>)
    requires
        salt@.len() == 16,
    ensures
        r matches Ok(k) ==> k@ == argon2id_key(pin@, salt@) && k@.len() == 32,
        pin.spec_bytes().len() <= ARGON2_MAX_PWD_LEN ==> r is Ok,
        r matches Err(e) ==> e is Encryption,
{
    match argon2_derive(pin, salt) {
        Ok(k) => Ok(k),
        Err(_) => Err(DecentPasteError::Encryption(String::from_str("key derivation failed"))),
    }
}

/// Key derivation is deterministic: one (PIN, salt) pair has one key.
/// That different PINs or salts give different keys is a property of
/// Argon2id itself and is exercised by tests, not assumed here.
pub proof fn lemma_derive_key_deterministic(pin: Seq<char>, salt: Seq<u8>)
    ensures
        argon2id_key(pin, salt) == argon2id_key(pin, salt),
{
}

/// Relies on rand's `random_range` over `[0, 1000000)` and width-6 decimal
/// formatting: the PIN is exactly six ASCII digits.
#[verifier::external_body]
pub fn generate_pin() -> (r: String)
    ensures
        r@.len() == 6,
        forall|i: int| 0 <= i < 6 ==> '0' <= #[trigger] r@[i] <= '9',
{
    let pin: u32 = rand::Rng::random_range(&mut rand::rng(), 0..1000000u32);
    format!("{:06}", pin)
}

/// Relies on uuid's `Uuid::new_v4` in its hyphenated rendering: 36 characters.
#[verifier::external_body]
pub fn new_uuid() -> (r: String)
    ensures
        r@.len() == 36,
{
    uuid::Uuid::new_v4().to_string()
}

/// Relies on rand's `fill_bytes` from a CSPRNG reseeded by the OS:
/// 16 fresh salt bytes.
#[verifier::external_body]
pub fn generate_salt() -> (r: Vec<u8>)
    ensures
        r@.len() == 16,
{
    let mut salt = [0u8; 16];
    rand::RngCore::fill_bytes(&mut rand::rng(), &mut salt);
    salt.to_vec()
}

/// Byte-for-byte equality of two byte vectors.
pub fn bytes_eq(a: &Vec<u8>, b: &Vec<u8>) -> (r: bool)
    ensures
        r == (a@ == b@),
{
    if a.len() != b.len() {
        assert(a@.len() != b@.len());
        return false;
    }
    let mut i: usize = 0;
    while i < a.len()
        invariant
            i <= a.len(),
            a@.len() == b@.len(),
            forall|j: int| 0 <= j < i ==> a@[j] == b@[j],
        decreases a.len() - i,
    {
        if a[i] != b[i] {
            assert(a@[i as int] != b@[i as int]);
            return false;
        }
        i += 1;
    }
    proof {
        assert(a@ =~= b@);
    }
    true
}

} // verus!
