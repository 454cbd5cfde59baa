//! The wire-level message envelope and its payloads.
//!
//! Everything on the wire is one `ProtocolMessage`. Encoding to and from
//! bytes is the transport's business; the library works on the typed values.

use vstd::prelude::*;

verus! {

/// Step one of pairing: the initiator introduces itself.
pub struct PairingRequest {
    /// The initiator's session id; the responder adopts it.
    pub session_id: String,
    pub device_name: String,
    pub device_id: String,
    /// The initiator's X25519 public key.
    pub public_key: Vec<u8>,
}

/// Step two: the responder answers with a PIN to be confirmed out of band.
pub struct PairingChallenge {
    pub session_id: String,
    /// Six decimal digits, shown to both users.
    pub pin: String,
    /// The responder's device name.
    pub device_name: String,
    /// The responder's X25519 public key.
    pub public_key: Vec<u8>,
}

/// A PIN acknowledgement sent while a session is still open.
pub struct PairingResponse {
    pub session_id: String,
    pub pin_hash: Vec<u8>,
    pub accepted: bool,
}

/// Steps three and four: each side confirms or rejects the pairing.
pub struct PairingConfirm {
    pub session_id: String,
    pub success: bool,
    /// The initiator's ECDH output, sent for the responder to verify.
    pub shared_secret: Option<Vec<u8>>,
    pub error: Option<String>,
    /// The sender's device name.
    pub device_name: Option<String>,
}

/// The pairing sub-protocol.
pub enum PairingMessage {
    Request(PairingRequest),
    Challenge(PairingChallenge),
    Response(PairingResponse),
    Confirm(PairingConfirm),
}

/// One clipboard update, encrypted for a paired peer.
pub struct ClipboardMessage {
    pub id: String,
    /// Lowercase hex SHA-256 of the plaintext content.
    pub content_hash: String,
    /// AES-256-GCM blob: `nonce ‖ ciphertext ‖ tag`.
    pub encrypted_content: Vec<u8>,
    /// Unix time in milliseconds.
    pub timestamp: i64,
    pub origin_device_id: String,
    pub origin_device_name: String,
}

/// A broadcast of this device's current name.
pub struct DeviceAnnounceMessage {
    pub peer_id: String,
    pub device_name: String,
    /// Unix time in milliseconds.
    pub timestamp: i64,
}

/// The pull-based resync sub-protocol between reconnecting peers.
pub enum SyncMessage {
    /// The requester asks what is buffered for it.
    Request { peer_id: String },
    /// The responder lists the non-expired hashes buffered for the requester.
    HashListResponse { hashes: Vec<String> },
    /// The requester asks for one missing item by hash.
    ContentRequest { hash: String },
    /// The responder hands the buffered message over.
    ContentResponse { message: ClipboardMessage },
}

/// A liveness beacon.
pub struct HeartbeatMessage {
    pub device_id: String,
    /// Unix time in milliseconds.
    pub timestamp: i64,
}

/// The envelope: everything that travels between peers.
pub enum ProtocolMessage {
    Pairing(PairingMessage),
    Clipboard(ClipboardMessage),
    DeviceAnnounce(DeviceAnnounceMessage),
    Sync(SyncMessage),
    Heartbeat(HeartbeatMessage),
}

impl Clone for ClipboardMessage {
    /// A copy with the same id, hash, payload bytes, time and origin.
    fn clone(&self) -> (r: Self)
        ensures
            r.id == self.id,
            r.content_hash == self.content_hash,
            r.encrypted_content@ == self.encrypted_content@,
            r.timestamp == self.timestamp,
            r.origin_device_id == self.origin_device_id,
            r.origin_device_name == self.origin_device_name,
    {
        let encrypted_content = clone_bytes(&self.encrypted_content);
        ClipboardMessage {
            id: self.id.clone(),
            content_hash: self.content_hash.clone(),
            encrypted_content,
            timestamp: self.timestamp,
            origin_device_id: self.origin_device_id.clone(),
            origin_device_name: self.origin_device_name.clone(),
        }
    }
}

/// A byte-for-byte copy of a byte vector.
pub fn clone_bytes(v: &Vec<u8>) -> (r: Vec<u8>)
    ensures
        r@ == v@,
{
    let mut out: Vec<u8> = Vec::new();
    let mut i: usize = 0;
    while i < v.len()
        invariant
            i <= v@.len(),
            out@.len() == i,
            forall|j: int| 0 <= j < i ==> out@[j] == v@[j],
        decreases v@.len() - i,
    {
        out.push(v[i]);
        i += 1;
    }
    proof {
        assert(out@ =~= v@);
    }
    out
}

} // verus!
