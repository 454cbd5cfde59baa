//! Pairing sessions: the state machine that turns two unauthenticated peers
//! into peers sharing a symmetric secret.
//!
//! A session is `Initiated`, shows its PIN (`AwaitingPinConfirmation`),
//! waits for the peer (`AwaitingPeerConfirmation`) and ends `Completed` or
//! `Failed`. Any session older than five minutes fails with a timeout on
//! first observation.

use vstd::prelude::*;

use crate::crypto::generate_pin;
use crate::errors::DecentPasteError;
use crate::text::str_eq;

verus! {

/// A pairing session expires this long after creation (five minutes).
pub const SESSION_TIMEOUT_MS: i64 = 300000;

/// The lifecycle state of one pairing attempt.
#[derive(Debug)]
pub enum PairingState {
    Initiated,
    AwaitingPinConfirmation,
    AwaitingPeerConfirmation,
    Completed,
    Failed(String),
}

impl Clone for PairingState {
    /// A copy with the same variant and failure message.
    fn clone(&self) -> (r: Self)
        ensures
            r is Initiated <==> self is Initiated,
            r is AwaitingPinConfirmation <==> self is AwaitingPinConfirmation,
            r is AwaitingPeerConfirmation <==> self is AwaitingPeerConfirmation,
            r is Completed <==> self is Completed,
            r is Failed <==> self is Failed,
            r matches PairingState::Failed(m) ==> self matches PairingState::Failed(n) && m@ == n@,
    {
        match self {
            PairingState::Initiated => PairingState::Initiated,
            PairingState::AwaitingPinConfirmation => PairingState::AwaitingPinConfirmation,
            PairingState::AwaitingPeerConfirmation => PairingState::AwaitingPeerConfirmation,
            PairingState::Completed => PairingState::Completed,
            PairingState::Failed(m) => PairingState::Failed(m.clone()),
        }
    }
}

/// One pairing attempt with one peer.
pub struct PairingSession {
    pub session_id: String,
    pub peer_id: String,
    pub peer_name: Option<String>,
    /// The peer's X25519 public key, once its request or challenge arrived.
    pub peer_public_key: Option<Vec<u8>>,
    /// The peer's addresses, captured at initiation so that reconnection
    /// after pairing does not depend on still-fresh discovery entries.
    pub peer_addresses: Vec<String>,
    pub pin: Option<String>,
    pub state: PairingState,
    pub is_initiator: bool,
    /// Unix time of creation, in milliseconds.
    pub created_at: i64,
}

/// The fields of a session that the state machine never rewrites.
pub open spec fn same_core(a: PairingSession, b: PairingSession) -> bool {
    &&& b.session_id == a.session_id
    &&& b.peer_id == a.peer_id
    &&& b.peer_name == a.peer_name
    &&& b.peer_public_key == a.peer_public_key
    &&& b.peer_addresses == a.peer_addresses
    &&& b.is_initiator == a.is_initiator
    &&& b.created_at == a.created_at
}

/// Whether `pin` is the PIN stored in the session.
pub open spec fn pin_matches(s: PairingSession, pin: Seq<char>) -> bool {
    s.pin matches Some(p) && p@ == pin
}

impl PairingSession {
    /// A fresh session in state `Initiated`.
    pub fn new(session_id: String, peer_id: String, is_initiator: bool, now_ms: i64) -> (r: Self)
        ensures
            r.session_id == session_id,
            r.peer_id == peer_id,
            r.peer_name is None,
            r.peer_public_key is None,
            r.peer_addresses@.len() == 0,
            r.pin is None,
            r.state is Initiated,
            r.is_initiator == is_initiator,
            r.created_at == now_ms,
    {
        PairingSession {
            session_id,
            peer_id,
            peer_name: None,
            peer_public_key: None,
            peer_addresses: Vec::new(),
            pin: None,
            state: PairingState::Initiated,
            is_initiator,
            created_at: now_ms,
        }
    }

    /// The same session with the peer's name filled in.
    pub fn with_peer_name(self, name: String) -> (r: Self)
        ensures
            r == (PairingSession { peer_name: Some(name), ..self }),
    {
        PairingSession { peer_name: Some(name), ..self }
    }

    /// The same session with the peer's public key filled in.
    pub fn with_peer_public_key(self, public_key: Vec<u8>) -> (r: Self)
        ensures
            r == (PairingSession { peer_public_key: Some(public_key), ..self }),
    {
        PairingSession { peer_public_key: Some(public_key), ..self }
    }

    /// The same session with the peer's addresses captured.
    pub fn with_peer_addresses(self, addresses: Vec<String>) -> (r: Self)
        ensures
            r == (PairingSession { peer_addresses: addresses, ..self }),
    {
        PairingSession { peer_addresses: addresses, ..self }
    }

    /// Whether the session is older than the five-minute timeout at `now_ms`.
    pub open spec fn spec_expired(&self, now_ms: i64) -> bool {
        now_ms - self.created_at > SESSION_TIMEOUT_MS
    }

    pub fn is_expired(&self, now_ms: i64) -> (r: bool)
        ensures
            r == self.spec_expired(now_ms),
    {
        let diff: i128 = (now_ms as i128) - (self.created_at as i128);
        diff > SESSION_TIMEOUT_MS as i128
    }

    /// States in which a duplicate answer to the same request is refused.
    pub open spec fn is_terminal(&self) -> bool {
        ||| self.state is AwaitingPeerConfirmation
        ||| self.state is Completed
        ||| self.state is Failed
    }
}

/// Answer an incoming pairing request on this session.
///
/// On acceptance a six-digit PIN is generated and stored, and the session
/// awaits its confirmation. Answering the same request again returns the
/// existing PIN unchanged; a session already past that point is refused.
/// An expired session fails with a timeout instead.
pub fn respond_session(s: &mut PairingSession, accept: bool, now_ms: i64) -> (r: Result<
    Option<String>,
    DecentPasteError,
>)
    ensures
        same_core(*old(s), *final(s)),
        old(s).spec_expired(now_ms) ==> {
            &&& r matches Err(e) && e is PairingTimeout
            &&& final(s).state matches PairingState::Failed(m) && m@ == "Timeout"@
            &&& final(s).pin == old(s).pin
        },
        !old(s).spec_expired(now_ms) && old(s).state is AwaitingPinConfirmation ==> {
            &&& *final(s) == *old(s)
            &&& r matches Ok(p)
            &&& (p is Some <==> old(s).pin is Some)
            &&& (r matches Ok(Some(x)) ==> old(s).pin matches Some(y) && x@ == y@)
        },
        !old(s).spec_expired(now_ms) && old(s).is_terminal() ==> {
            &&& *final(s) == *old(s)
            &&& r matches Err(e) && e is Pairing
        },
        !old(s).spec_expired(now_ms) && old(s).state is Initiated && accept ==> {
            &&& final(s).state is AwaitingPinConfirmation
            &&& final(s).pin matches Some(pn) && pn@.len() == 6
            &&& r matches Ok(Some(rp)) && final(s).pin matches Some(pn2) && rp@ == pn2@
        },
        !old(s).spec_expired(now_ms) && old(s).state is Initiated && !accept ==> {
            &&& final(s).state matches PairingState::Failed(m) && m@ == "User rejected"@
            &&& final(s).pin == old(s).pin
            &&& r matches Ok(p) && p is None
        },
{
    if s.is_expired(now_ms) {
        s.state = PairingState::Failed(String::from_str("Timeout"));
        return Err(DecentPasteError::PairingTimeout);
    }
    let awaiting_pin = match &s.state {
        PairingState::AwaitingPinConfirmation => true,
        _ => false,
    };
    if awaiting_pin {
        let existing = match &s.pin {
            Some(p) => Some(p.clone()),
            None => None,
        };
        return Ok(existing);
    }
    let initiated = match &s.state {
        PairingState::Initiated => true,
        _ => false,
    };
    if initiated {
        if accept {
            let pin = generate_pin();
            s.pin = Some(pin.clone());
            s.state = PairingState::AwaitingPinConfirmation;
            Ok(Some(pin))
        } else {
            s.state = PairingState::Failed(String::from_str("User rejected"));
            Ok(None)
        }
    } else {
        Err(DecentPasteError::Pairing(String::from_str("Session already processed")))
    }
}

/// Check a user-entered PIN against this session.
///
/// A matching PIN moves the session on to await the peer's confirmation and
/// returns `true`; a mismatch fails the session and returns `false` (not an
/// error). An expired session fails with a timeout instead.
pub fn confirm_session(s: &mut PairingSession, pin: &str, now_ms: i64) -> (r: Result<
    bool,
    DecentPasteError,
>)
    ensures
        same_core(*old(s), *final(s)),
        final(s).pin == old(s).pin,
        old(s).spec_expired(now_ms) ==> {
            &&& r matches Err(e) && e is PairingTimeout
            &&& final(s).state matches PairingState::Failed(m) && m@ == "Timeout"@
        },
        !old(s).spec_expired(now_ms) && pin_matches(*old(s), pin@) ==> {
            &&& final(s).state is AwaitingPeerConfirmation
            &&& r matches Ok(b) && b == true
        },
        !old(s).spec_expired(now_ms) && !pin_matches(*old(s), pin@) ==> {
            &&& final(s).state matches PairingState::Failed(m) && m@ == "Invalid PIN"@
            &&& r matches Ok(b) && b == false
        },
{
    if s.is_expired(now_ms) {
        s.state = PairingState::Failed(String::from_str("Timeout"));
        return Err(DecentPasteError::PairingTimeout);
    }
    let matches_pin = match &s.pin {
        Some(p) => str_eq(p.as_str(), pin),
        None => false,
    };
    if matches_pin {
        s.state = PairingState::AwaitingPeerConfirmation;
        Ok(true)
    } else {
        s.state = PairingState::Failed(String::from_str("Invalid PIN"));
        Ok(false)
    }
}

/// The responder's key verification: compare the independently derived
/// ECDH secret with the one the initiator sent. Equal secrets complete the
/// session; different secrets fail it — the MITM check.
pub fn verify_and_complete(s: &mut PairingSession, derived: &Vec<u8>, received: &Vec<u8>) -> (r:
    bool)
    ensures
        same_core(*old(s), *final(s)),
        final(s).pin == old(s).pin,
        r == (derived@ == received@),
        r ==> final(s).state is Completed,
        !r ==> (final(s).state matches PairingState::Failed(m) && m@ == "Key verification failed"@),
{
    if crate::crypto::bytes_eq(derived, received) {
        s.state = PairingState::Completed;
        true
    } else {
        s.state = PairingState::Failed(String::from_str("Key verification failed"));
        false
    }
}

/// Whether some session carries this id.
pub open spec fn has_session(s: Seq<PairingSession>, id: Seq<char>) -> bool {
    exists|i: int| 0 <= i < s.len() && s[i].session_id@ == id
}

/// Find the first session with this id.
pub fn find_session(sessions: &Vec<PairingSession>, session_id: &str) -> (r: Option<usize>)
    ensures
        r matches Some(i) ==> i < sessions@.len() && sessions@[i as int].session_id@
            == session_id@ && (forall|j: int|
            0 <= j < i ==> (#[trigger] sessions@[j]).session_id@ != session_id@),
        r is None ==> !has_session(sessions@, session_id@),
{
    let mut i: usize = 0;
    while i < sessions.len()
        invariant
            i <= sessions@.len(),
            forall|j: int| 0 <= j < i ==> (#[trigger] sessions@[j]).session_id@ != session_id@,
        decreases sessions@.len() - i,
    {
        if str_eq(sessions[i].session_id.as_str(), session_id) {
            return Some(i);
        }
        i += 1;
    }
    None
}

/// Remove every session with this id.
pub fn remove_sessions(sessions: &mut Vec<PairingSession>, session_id: &str)
    ensures
        forall|j: int|
            0 <= j < final(sessions)@.len() ==> (#[trigger] final(sessions)@[j]).session_id@ != session_id@,
        forall|j: int|
            0 <= j < final(sessions)@.len() ==> old(sessions)@.contains(
                #[trigger] final(sessions)@[j],
            ),
        forall|k: int|
            0 <= k < old(sessions)@.len() && (#[trigger] old(sessions)@[k]).session_id@
                != session_id@ ==> final(sessions)@.contains(old(sessions)@[k]),
{
    let mut i: usize = 0;
    while i < sessions.len()
        invariant
            i <= sessions@.len(),
            forall|j: int| 0 <= j < i ==> (#[trigger] sessions@[j]).session_id@ != session_id@,
            forall|j: int|
                0 <= j < sessions@.len() ==> old(sessions)@.contains(#[trigger] sessions@[j]),
            forall|k: int|
                0 <= k < old(sessions)@.len() && (#[trigger] old(sessions)@[k]).session_id@
                    != session_id@ ==> sessions@.contains(old(sessions)@[k]),
        decreases sessions@.len() - i,
    {
        if str_eq(sessions[i].session_id.as_str(), session_id) {
            let ghost pre = sessions@;
            let ghost gone = sessions@[i as int];
            sessions.remove(i);
            proof {
                assert forall|j: int| 0 <= j < sessions@.len() implies old(sessions)@.contains(
                    #[trigger] sessions@[j],
                ) by {
                    assert(sessions@[j] == pre[if j < i { j } else { j + 1 }]);
                }
                assert forall|j: int| 0 <= j < i implies (#[trigger] sessions@[j]).session_id@
                    != session_id@ by {
                    assert(sessions@[j] == pre[j]);
                }
                assert forall|k: int|
                    0 <= k < old(sessions)@.len() && (#[trigger] old(sessions)@[k]).session_id@
                        != session_id@ implies sessions@.contains(old(sessions)@[k]) by {
                    assert(pre.contains(old(sessions)@[k]));
                    let w = choose|w: int| 0 <= w < pre.len() && pre[w] == old(sessions)@[k];
                    assert(gone.session_id@ == session_id@);
                    assert(w != i);
                    assert(sessions@[if w < i { w } else { w - 1 }] == pre[w]);
                }
            }
        } else {
            i += 1;
        }
    }
}

} // verus!
