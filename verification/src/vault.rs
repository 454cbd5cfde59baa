//! The encrypted vault: PIN-keyed storage for long-lived secrets.
//!
//! The vault file is `nonce ‖ ciphertext ‖ tag` of an encoded record; the
//! key is derived from the user's PIN via Argon2id with a per-installation
//! 16-byte salt. A wrong PIN is indistinguishable from corruption: both
//! surface as `InvalidPin`. Locking wipes the in-memory key.

use vstd::prelude::*;
use vstd::string::*;

use crate::crypto::{
    aes_gcm_open, argon2id_key, derive_key_from_pin, encrypt_content, decrypt_content,
    ARGON2_MAX_PWD_LEN, GCM_P_MAX,
};
use crate::errors::VaultError;
use crate::history::ClipboardEntry;
use crate::identity::DeviceIdentity;
use crate::peers::{peer_like, PairedPeer};
use crate::protocol::clone_bytes;

verus! {

/// Size of the Argon2id salt, in bytes.
pub const SALT_SIZE: usize = 16;

/// The lifecycle state of the vault.
#[derive(Debug, Clone, Copy, PartialEq, Eq, Structural)]
pub enum VaultStatus {
    /// No vault has been created yet (first-time user).
    NotSetup,
    /// A vault exists but requires the PIN to open.
    Locked,
    /// The vault is open and data is accessible.
    Unlocked,
}

/// How the vault key is obtained.
#[derive(Debug, Clone, Copy, PartialEq, Eq, Structural)]
pub enum AuthMethod {
    /// A 4-8 digit PIN, run through Argon2id.
    Pin,
}

/// A 256-bit vault key. Wiped explicitly when the vault locks.
pub struct VaultKey {
    key: Vec<u8>,
}

impl VaultKey {
    /// The key bytes.
    pub closed spec fn spec_bytes(&self) -> Seq<u8> {
        self.key@
    }

    /// A well-formed key has 32 bytes.
    pub open spec fn wf(&self) -> bool {
        self.spec_bytes().len() == 32
    }

    /// Wrap a 32-byte slice as a vault key.
    pub fn from_slice(slice: &[u8]) -> (r: Self)
        requires
            slice@.len() == 32,
        ensures
            r.spec_bytes() == slice@,
            r.wf(),
    {
        let mut key: Vec<u8> = Vec::new();
        let mut i: usize = 0;
        while i < slice.len()
            invariant
                i <= slice@.len(),
                key@.len() == i,
                forall|j: int| 0 <= j < i ==> key@[j] == slice@[j],
            decreases slice@.len() - i,
        {
            key.push(slice[i]);
            i += 1;
        }
        proof {
            assert(key@ =~= slice@);
        }
        VaultKey { key }
    }

    /// The key bytes, for the cipher.
    pub fn as_bytes(&self) -> (r: &[u8])
        ensures
            r@ == self.spec_bytes(),
    {
        self.key.as_slice()
    }

    /// Overwrite every key byte with zero.
    pub fn wipe(&mut self)
        ensures
            final(self).spec_bytes().len() == old(self).spec_bytes().len(),
            forall|i: int|
                0 <= i < final(self).spec_bytes().len() ==> final(self).spec_bytes()[i] == 0u8,
    {
        let n = self.key.len();
        let mut i: usize = 0;
        while i < n
            invariant
                i <= n,
                n == self.key@.len(),
                forall|j: int| 0 <= j < i ==> self.key@[j] == 0u8,
            decreases n - i,
        {
            self.key.set(i, 0u8);
            i += 1;
        }
    }
}

/// Everything the vault holds while open.
pub struct VaultData {
    pub clipboard_history: Vec<ClipboardEntry>,
    pub paired_peers: Vec<PairedPeer>,
    pub device_identity: Option<DeviceIdentity>,
    /// The overlay keypair in its portable encoding.
    pub overlay_keypair: Option<Vec<u8>>,
}

impl VaultData {
    /// An empty record: what a fresh vault holds.
    pub fn empty() -> (r: VaultData)
        ensures
            r.clipboard_history@.len() == 0,
            r.paired_peers@.len() == 0,
            r.device_identity is None,
            r.overlay_keypair is None,
    {
        VaultData {
            clipboard_history: Vec::new(),
            paired_peers: Vec::new(),
            device_identity: None,
            overlay_keypair: None,
        }
    }
}

/// Check a salt read from storage: exactly 16 bytes, or a `Salt` error.
pub fn salt_from_bytes(bytes: &[u8]) -> (r: Result<Vec<u8>, VaultError>)
    ensures
        r is Ok <==> bytes@.len() == SALT_SIZE,
        r matches Ok(s) ==> s@ == bytes@,
        r matches Err(e) ==> e is Salt,
{
    if bytes.len() != SALT_SIZE {
        return Err(VaultError::Salt(String::from_str("salt must be 16 bytes")));
    }
    let mut salt: Vec<u8> = Vec::new();
    let mut i: usize = 0;
    while i < bytes.len()
        invariant
            i <= bytes@.len(),
            salt@.len() == i,
            forall|j: int| 0 <= j < i ==> salt@[j] == bytes@[j],
        decreases bytes@.len() - i,
    {
        salt.push(bytes[i]);
        i += 1;
    }
    proof {
        assert(salt@ =~= bytes@);
    }
    Ok(salt)
}

/// Derive the vault key from a PIN and a 16-byte salt. The same PIN and
/// salt always give the same 32-byte key, and every PIN up to Argon2's
/// length bound derives one.
pub fn derive_key(pin: &str, salt: &[u8]) -> (r: Result<VaultKey, VaultError>)
    ensures
        salt@.len() != SALT_SIZE ==> r is Err,
        salt@.len() == SALT_SIZE && pin.spec_bytes().len() <= ARGON2_MAX_PWD_LEN ==> r is Ok,
        r matches Ok(k) ==> salt@.len() == SALT_SIZE && k.spec_bytes() == argon2id_key(
            pin@,
            salt@,
        ) && k.wf(),
        r matches Err(e) ==> e is Salt || e is KeyDerivation,
        salt@.len() == SALT_SIZE ==> (r matches Err(e) ==> e is KeyDerivation),
{
    if salt.len() != SALT_SIZE {
        return Err(VaultError::Salt(String::from_str("salt must be 16 bytes")));
    }
    match derive_key_from_pin(pin, salt) {
        Ok(bytes) => Ok(VaultKey::from_slice(bytes.as_slice())),
        Err(_) => Err(VaultError::KeyDerivation(String::from_str("key derivation failed"))),
    }
}

/// Encrypt an encoded vault record under a vault key: the bytes that go to
/// disk as `nonce ‖ ciphertext ‖ tag`. Succeeds on every record up to the
/// AES-GCM length bound.
pub fn seal_vault(payload: &[u8], key: &VaultKey) -> (r: Result<Vec<u8>, VaultError>)
    requires
        key.wf(),
    ensures
        r matches Ok(blob) ==> aes_gcm_open(blob@, key.spec_bytes()) == Some(payload@)
            && blob@.len() == payload@.len() + 28,
        payload@.len() <= GCM_P_MAX ==> r is Ok,
        r matches Err(e) ==> e is Encryption,
{
    match encrypt_content(payload, key.as_bytes()) {
        Ok(blob) => Ok(blob),
        Err(_) => Err(VaultError::Encryption(String::from_str("vault encryption failed"))),
    }
}

/// Decrypt a vault file under a vault key. A too-short file is corrupt; any
/// authentication failure — wrong PIN or corruption alike — is `InvalidPin`.
pub fn open_vault(blob: &[u8], key: &VaultKey) -> (r: Result<Vec<u8>, VaultError>)
    requires
        key.wf(),
    ensures
        blob@.len() < 12 ==> (r matches Err(e) && e is Corrupted),
        r matches Ok(p) ==> blob@.len() >= 12 && aes_gcm_open(blob@, key.spec_bytes()) == Some(
            p@,
        ),
        blob@.len() >= 12 && aes_gcm_open(blob@, key.spec_bytes()) is None ==> (r matches Err(e)
            && e is InvalidPin),
        blob@.len() >= 12 && aes_gcm_open(blob@, key.spec_bytes()) is Some ==> r is Ok,
{
    if blob.len() < 12 {
        return Err(VaultError::Corrupted(String::from_str("vault file too short")));
    }
    match decrypt_content(blob, key.as_bytes()) {
        Ok(payload) => Ok(payload),
        Err(_) => Err(VaultError::InvalidPin),
    }
}

/// The vault lifecycle and the in-memory copy of its data.
///
/// The manager holds the key only while the vault is open; `lock` wipes the
/// key and drops the data. Accessors fail with `Locked` while no key is
/// held.
pub struct VaultManager {
    key: Option<VaultKey>,
    data: VaultData,
}

impl VaultManager {
    /// Whether the vault is open (a key is held).
    pub closed spec fn spec_is_open(&self) -> bool {
        self.key is Some
    }

    /// The data held while open.
    pub closed spec fn spec_data(&self) -> VaultData {
        self.data
    }

    /// The key bytes held while open.
    pub closed spec fn spec_key_bytes(&self) -> Seq<u8> {
        self.key.unwrap().spec_bytes()
    }

    /// Any key held is a proper 32-byte key. Every constructor and
    /// lifecycle step maintains this.
    pub closed spec fn spec_wf(&self) -> bool {
        self.key matches Some(k) ==> k.wf()
    }

    /// A closed manager: no key, no data.
    pub fn new() -> (r: Self)
        ensures
            !r.spec_is_open(),
            r.spec_wf(),
            r.spec_data().paired_peers@.len() == 0,
            r.spec_data().clipboard_history@.len() == 0,
    {
        VaultManager { key: None, data: VaultData::empty() }
    }

    /// Whether the vault is open.
    pub fn is_open(&self) -> (r: bool)
        ensures
            r == self.spec_is_open(),
    {
        match &self.key {
            Some(_) => true,
            None => false,
        }
    }

    /// The lifecycle state this manager is in, given whether a vault file
    /// exists on disk.
    pub fn status(&self, vault_file_exists: bool) -> (r: VaultStatus)
        ensures
            !vault_file_exists ==> r is NotSetup,
            vault_file_exists && self.spec_is_open() ==> r is Unlocked,
            vault_file_exists && !self.spec_is_open() ==> r is Locked,
    {
        if !vault_file_exists {
            VaultStatus::NotSetup
        } else if self.is_open() {
            VaultStatus::Unlocked
        } else {
            VaultStatus::Locked
        }
    }

    /// Create a fresh vault keyed by `pin`: derive the key and start from an
    /// empty record. Fails with `AlreadyExists` if this manager already
    /// holds an open vault; otherwise a 16-byte salt and any PIN up to
    /// Argon2's length bound make it succeed.
    pub fn create(&mut self, pin: &str, salt: &[u8]) -> (r: Result<(), VaultError>)
        ensures
            old(self).spec_is_open() ==> (r matches Err(e) && e is AlreadyExists && *final(self)
                == *old(self)),
            salt@.len() != SALT_SIZE && !old(self).spec_is_open() ==> r is Err,
            !old(self).spec_is_open() && salt@.len() == SALT_SIZE && pin.spec_bytes().len()
                <= ARGON2_MAX_PWD_LEN ==> r is Ok,
            r is Err ==> *final(self) == *old(self),
            r is Ok ==> final(self).spec_wf(),
            r is Ok ==> {
                &&& final(self).spec_is_open()
                &&& final(self).spec_key_bytes() == argon2id_key(pin@, salt@)
                &&& final(self).spec_data().paired_peers@.len() == 0
                &&& final(self).spec_data().clipboard_history@.len() == 0
                &&& final(self).spec_data().device_identity is None
                &&& final(self).spec_data().overlay_keypair is None
            },
    {
        if self.is_open() {
            return Err(VaultError::AlreadyExists);
        }
        let key = match derive_key(pin, salt) {
            Ok(k) => k,
            Err(e) => {
                return Err(e);
            }
        };
        self.key = Some(key);
        self.data = VaultData::empty();
        Ok(())
    }

    /// Open an existing vault: derive the key from `pin` and decrypt the
    /// stored blob. On success the key is held and the decrypted record
    /// bytes are returned for decoding; a wrong PIN (or corrupt file of
    /// sufficient length) fails with `InvalidPin` and leaves the vault
    /// closed.
    pub fn open(&mut self, pin: &str, salt: &[u8], blob: &[u8]) -> (r: Result<
        Vec<u8>,
        VaultError,
    >)
        requires
            !old(self).spec_is_open(),
        ensures
            r matches Ok(p) ==> {
                &&& salt@.len() == SALT_SIZE
                &&& final(self).spec_is_open()
                &&& final(self).spec_key_bytes() == argon2id_key(pin@, salt@)
                &&& aes_gcm_open(blob@, argon2id_key(pin@, salt@)) == Some(p@)
            },
            r is Ok ==> final(self).spec_wf(),
            r is Err ==> !final(self).spec_is_open() && *final(self) == *old(self),
            salt@.len() != SALT_SIZE ==> r is Err,
            salt@.len() == SALT_SIZE && pin.spec_bytes().len() <= ARGON2_MAX_PWD_LEN
                && blob@.len() >= 12 && aes_gcm_open(blob@, argon2id_key(pin@, salt@)) is Some
                ==> r is Ok,
            salt@.len() == SALT_SIZE && pin.spec_bytes().len() <= ARGON2_MAX_PWD_LEN
                && blob@.len() >= 12 && aes_gcm_open(blob@, argon2id_key(pin@, salt@)) is None
                ==> (r matches Err(e) && e is InvalidPin),
            salt@.len() == SALT_SIZE && blob@.len() >= 12 ==> (r matches Err(e) ==> e is InvalidPin
                || e is KeyDerivation),
            r matches Err(e) && e is InvalidPin && salt@.len() == SALT_SIZE ==> aes_gcm_open(
                blob@,
                argon2id_key(pin@, salt@),
            ) is None,
            salt@.len() == SALT_SIZE && blob@.len() < 12 ==> (r matches Err(e) ==> e is Corrupted
                || e is KeyDerivation),
    {
        let mut key = match derive_key(pin, salt) {
            Ok(k) => k,
            Err(e) => {
                return Err(e);
            }
        };
        match open_vault(blob, &key) {
            Ok(payload) => {
                self.key = Some(key);
                Ok(payload)
            }
            Err(e) => {
                // The derived key is not kept on failure: wipe it before
                // it goes out of scope.
                key.wipe();
                Err(e)
            }
        }
    }

    /// Hand the decoded record to the open vault.
    pub fn load_data(&mut self, data: VaultData) -> (r: Result<(), VaultError>)
        ensures
            old(self).spec_wf() ==> final(self).spec_wf(),
            !old(self).spec_is_open() ==> (r matches Err(e) && e is Locked && *final(self) == *old(self)),
            old(self).spec_is_open() ==> r is Ok && final(self).spec_data() == data && final(self).spec_is_open() && final(self).spec_key_bytes() == old(self).spec_key_bytes(),
    {
        if !self.is_open() {
            return Err(VaultError::Locked);
        }
        self.data = data;
        Ok(())
    }

    /// Encrypt the given encoded record under the held key: the bytes to
    /// write to disk on flush.
    pub fn seal_payload(&self, payload: &[u8]) -> (r: Result<Vec<u8>, VaultError>)
        ensures
            !self.spec_is_open() ==> (r matches Err(e) && e is Locked),
            self.spec_wf() && self.spec_is_open() && payload@.len() <= GCM_P_MAX ==> r is Ok,
            r matches Ok(blob) ==> self.spec_is_open() && aes_gcm_open(
                blob@,
                self.spec_key_bytes(),
            ) == Some(payload@),
    {
        match &self.key {
            Some(key) => {
                if key.key.len() != 32 {
                    return Err(VaultError::Encryption(String::from_str("vault key corrupt")));
                }
                seal_vault(payload, key)
            }
            None => Err(VaultError::Locked),
        }
    }

    /// Lock the vault: wipe the key bytes, drop the key, drop the data.
    /// Afterwards every accessor fails with `Locked`.
    pub fn lock(&mut self)
        ensures
            !final(self).spec_is_open(),
            final(self).spec_wf(),
            final(self).spec_data().paired_peers@.len() == 0,
            final(self).spec_data().clipboard_history@.len() == 0,
            final(self).spec_data().device_identity is None,
            final(self).spec_data().overlay_keypair is None,
    {
        let held = self.key.take();
        match held {
            Some(mut key) => {
                key.wipe();
            }
            None => {}
        }
        self.data = VaultData::empty();
    }

    /// The paired peers stored in the vault.
    pub fn get_paired_peers(&self) -> (r: Result<Vec<PairedPeer>, VaultError>)
        ensures
            !self.spec_is_open() ==> (r matches Err(e) && e is Locked),
            self.spec_is_open() ==> (r matches Ok(peers) && peers@.len()
                == self.spec_data().paired_peers@.len() && (forall|i: int|
                0 <= i < peers@.len() ==> peer_like(
                    self.spec_data().paired_peers@[i],
                    #[trigger] peers@[i],
                ))),
    {
        if !self.is_open() {
            return Err(VaultError::Locked);
        }
        let mut out: Vec<PairedPeer> = Vec::new();
        let mut i: usize = 0;
        while i < self.data.paired_peers.len()
            invariant
                i <= self.data.paired_peers@.len(),
                out@.len() == i,
                forall|j: int|
                    0 <= j < i ==> peer_like(self.data.paired_peers@[j], #[trigger] out@[j]),
            decreases self.data.paired_peers@.len() - i,
        {
            out.push(self.data.paired_peers[i].clone());
            i += 1;
        }
        Ok(out)
    }

    /// Replace the paired peers stored in the vault.
    pub fn set_paired_peers(&mut self, peers: Vec<PairedPeer>) -> (r: Result<(), VaultError>)
        ensures
            old(self).spec_wf() ==> final(self).spec_wf(),
            !old(self).spec_is_open() ==> (r matches Err(e) && e is Locked && *final(self) == *old(self)),
            old(self).spec_is_open() ==> r is Ok && final(self).spec_is_open() && final(self).spec_data().paired_peers == peers && final(self).spec_data().clipboard_history
                == old(self).spec_data().clipboard_history && final(self).spec_data().device_identity == old(self).spec_data().device_identity && final(self).spec_key_bytes() == old(self).spec_key_bytes(),
    {
        if !self.is_open() {
            return Err(VaultError::Locked);
        }
        self.data.paired_peers = peers;
        Ok(())
    }

    /// The clipboard history stored in the vault.
    pub fn get_clipboard_history(&self) -> (r: Result<Vec<ClipboardEntry>, VaultError>)
        ensures
            !self.spec_is_open() ==> (r matches Err(e) && e is Locked),
            self.spec_is_open() ==> (r matches Ok(h) && h@ == self.spec_data().clipboard_history@),
    {
        if !self.is_open() {
            return Err(VaultError::Locked);
        }
        let mut out: Vec<ClipboardEntry> = Vec::new();
        let mut i: usize = 0;
        while i < self.data.clipboard_history.len()
            invariant
                i <= self.data.clipboard_history@.len(),
                out@.len() == i,
                forall|j: int| 0 <= j < i ==> out@[j] == self.data.clipboard_history@[j],
            decreases self.data.clipboard_history@.len() - i,
        {
            out.push(self.data.clipboard_history[i].clone());
            i += 1;
        }
        proof {
            assert(out@ =~= self.data.clipboard_history@);
        }
        Ok(out)
    }

    /// Replace the clipboard history stored in the vault.
    pub fn set_clipboard_history(&mut self, history: Vec<ClipboardEntry>) -> (r: Result<
        (),
        VaultError,
    >)
        ensures
            old(self).spec_wf() ==> final(self).spec_wf(),
            !old(self).spec_is_open() ==> (r matches Err(e) && e is Locked && *final(self) == *old(self)),
            old(self).spec_is_open() ==> r is Ok && final(self).spec_is_open() && final(self).spec_data().clipboard_history == history && final(self).spec_data().paired_peers
                == old(self).spec_data().paired_peers && final(self).spec_key_bytes() == old(self).spec_key_bytes(),
    {
        if !self.is_open() {
            return Err(VaultError::Locked);
        }
        self.data.clipboard_history = history;
        Ok(())
    }

    /// The device identity stored in the vault.
    pub fn get_device_identity(&self) -> (r: Result<Option<DeviceIdentity>, VaultError>)
        ensures
            !self.spec_is_open() ==> (r matches Err(e) && e is Locked),
            self.spec_is_open() ==> r is Ok && (r->Ok_0 is Some <==> self.spec_data().device_identity is Some),
    {
        if !self.is_open() {
            return Err(VaultError::Locked);
        }
        match &self.data.device_identity {
            Some(id) => Ok(Some(id.clone())),
            None => Ok(None),
        }
    }

    /// Replace the device identity stored in the vault.
    pub fn set_device_identity(&mut self, identity: DeviceIdentity) -> (r: Result<
        (),
        VaultError,
    >)
        ensures
            old(self).spec_wf() ==> final(self).spec_wf(),
            !old(self).spec_is_open() ==> (r matches Err(e) && e is Locked && *final(self) == *old(self)),
            old(self).spec_is_open() ==> r is Ok && final(self).spec_data().device_identity
                == Some(identity) && final(self).spec_data().paired_peers == old(self).spec_data().paired_peers && final(self).spec_data().clipboard_history == old(self).spec_data().clipboard_history && final(self).spec_key_bytes() == old(self).spec_key_bytes(),
    {
        if !self.is_open() {
            return Err(VaultError::Locked);
        }
        self.data.device_identity = Some(identity);
        Ok(())
    }

    /// The overlay keypair bytes stored in the vault.
    pub fn get_overlay_keypair(&self) -> (r: Result<Option<Vec<u8>>, VaultError>)
        ensures
            !self.spec_is_open() ==> (r matches Err(e) && e is Locked),
            self.spec_is_open() ==> r is Ok && (r->Ok_0 is Some <==> self.spec_data().overlay_keypair is Some),
            self.spec_is_open() ==> (r->Ok_0 matches Some(k) ==> (
            self.spec_data().overlay_keypair matches Some(s) && k@ == s@)),
    {
        if !self.is_open() {
            return Err(VaultError::Locked);
        }
        match &self.data.overlay_keypair {
            Some(k) => Ok(Some(clone_bytes(k))),
            None => Ok(None),
        }
    }

    /// Replace the overlay keypair bytes stored in the vault.
    pub fn set_overlay_keypair(&mut self, keypair: Vec<u8>) -> (r: Result<(), VaultError>)
        ensures
            old(self).spec_wf() ==> final(self).spec_wf(),
            !old(self).spec_is_open() ==> (r matches Err(e) && e is Locked && *final(self) == *old(self)),
            old(self).spec_is_open() ==> r is Ok && final(self).spec_data().overlay_keypair
                == Some(keypair) && final(self).spec_data().paired_peers == old(self).spec_data().paired_peers && final(self).spec_key_bytes() == old(self).spec_key_bytes(),
    {
        if !self.is_open() {
            return Err(VaultError::Locked);
        }
        self.data.overlay_keypair = Some(keypair);
        Ok(())
    }
}

/// Whether `pin` is an acceptable vault PIN: four to eight characters,
/// all decimal digits.
pub open spec fn spec_pin_ok(pin: Seq<char>) -> bool {
    &&& 4 <= pin.len() <= 8
    &&& forall|i: int| 0 <= i < pin.len() ==> '0' <= #[trigger] pin[i] <= '9'
}

/// Check a user-chosen PIN: four to eight decimal digits.
#[verifier::loop_isolation(false)]
pub fn validate_pin(pin: &str) -> (r: bool)
    ensures
        r == spec_pin_ok(pin@),
{
    let n = pin.unicode_len();
    if n < 4 || n > 8 {
        return false;
    }
    let mut i: usize = 0;
    while i < n
        invariant
            i <= n,
            n == pin@.len(),
            forall|j: int| 0 <= j < i ==> '0' <= #[trigger] pin@[j] <= '9',
        decreases n - i,
    {
        let c = pin.get_char(i);
        if c < '0' || c > '9' {
            return false;
        }
        i += 1;
    }
    true
}

} // verus!
