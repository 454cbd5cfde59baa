//! Events the overlay network hands to the application layer.

use vstd::prelude::*;

use crate::peers::DiscoveredPeer;
use crate::protocol::{ClipboardMessage, PairingRequest};

verus! {

/// The overall network status.
#[derive(Debug)]
pub enum NetworkStatus {
    Disconnected,
    Connecting,
    Connected,
    Error(String),
}

impl Clone for NetworkStatus {
    /// A copy with the same variant and error text.
    fn clone(&self) -> (r: Self)
        ensures
            r is Disconnected <==> self is Disconnected,
            r is Connecting <==> self is Connecting,
            r is Connected <==> self is Connected,
            r is Error <==> self is Error,
            r matches NetworkStatus::Error(m) ==> (self matches NetworkStatus::Error(n) && m@
                == n@),
    {
        match self {
            NetworkStatus::Disconnected => NetworkStatus::Disconnected,
            NetworkStatus::Connecting => NetworkStatus::Connecting,
            NetworkStatus::Connected => NetworkStatus::Connected,
            NetworkStatus::Error(m) => NetworkStatus::Error(m.clone()),
        }
    }
}

/// A peer with an established transport connection.
pub struct ConnectedPeer {
    pub peer_id: String,
    pub device_name: String,
    /// Unix time in milliseconds.
    pub connected_at: i64,
}

/// What the overlay manager reports to the application event loop.
pub enum NetworkEvent {
    PeerDiscovered(DiscoveredPeer),
    PeerLost(String),
    PeerNameUpdated { peer_id: String, device_name: String },
    PeerConnected(ConnectedPeer),
    PeerDisconnected(String),
    /// The peer subscribed to the clipboard topic: ready for broadcasts.
    PeerReady { peer_id: String },
    /// The peer unsubscribed or its connection closed.
    PeerNotReady { peer_id: String },
    PairingRequestReceived { session_id: String, peer_id: String, request: PairingRequest },
    PairingPinReady {
        session_id: String,
        pin: String,
        peer_device_name: String,
        peer_public_key: Vec<u8>,
    },
    PairingComplete {
        session_id: String,
        peer_id: String,
        device_name: String,
        shared_secret: Vec<u8>,
    },
    PairingFailed { session_id: String, error: String },
    ClipboardReceived(ClipboardMessage),
    ClipboardSent { id: String, peer_count: usize },
    StatusChanged(NetworkStatus),
    Error(String),
}

/// Whether an identify agent version announces this application:
/// it starts with the `decentpaste/` scheme.
pub open spec fn spec_has_agent_prefix(s: Seq<char>) -> bool {
    s.len() >= 12 && s.subrange(0, 12) == "decentpaste/"@
}

/// Whether position `j` holds the slash that ends the version field: the
/// first slash after the scheme.
pub open spec fn spec_second_slash_at(s: Seq<char>, j: int) -> bool {
    &&& 12 <= j < s.len()
    &&& s[j] == '/'
    &&& forall|k: int| 12 <= k < j ==> s[k] != '/'
}

/// The device name carried in an identify agent version of the form
/// `decentpaste/<version>/<device_name>`: everything after the second
/// slash. Any other agent version is used as the display name unchanged.
#[verifier::loop_isolation(false)]
pub fn agent_device_name(agent: &str) -> (r: String)
    ensures
        !spec_has_agent_prefix(agent@) ==> r@ == agent@,
        spec_has_agent_prefix(agent@) && (forall|j: int|
            12 <= j < agent@.len() ==> agent@[j] != '/') ==> r@ == agent@,
        spec_has_agent_prefix(agent@) && (exists|j: int| spec_second_slash_at(agent@, j))
            ==> exists|j: int|
            spec_second_slash_at(agent@, j) && r@ == agent@.subrange(
                j + 1,
                agent@.len() as int,
            ),
{
    let scheme = "decentpaste/";
    proof {
        reveal_strlit("decentpaste/");
    }
    let n = agent.unicode_len();
    if n < 12 {
        return String::from_str(agent);
    }
    let mut i: usize = 0;
    while i < 12
        invariant
            i <= 12,
            n == agent@.len(),
            forall|k: int| 0 <= k < i ==> agent@[k] == scheme@[k],
        decreases 12 - i,
    {
        if agent.get_char(i) != scheme.get_char(i) {
            proof {
                assert(agent@.subrange(0, 12)[i as int] != "decentpaste/"@[i as int]);
            }
            return String::from_str(agent);
        }
        i += 1;
    }
    proof {
        assert(agent@.subrange(0, 12) =~= "decentpaste/"@);
    }
    let mut j: usize = 12;
    while j < n
        invariant
            12 <= j <= n,
            n == agent@.len(),
            forall|k: int| 12 <= k < j ==> agent@[k] != '/',
        decreases n - j,
    {
        if agent.get_char(j) == '/' {
            let tail = agent.substring_char(j + 1, n);
            proof {
                assert(spec_second_slash_at(agent@, j as int));
            }
            return String::from_str(tail);
        }
        j += 1;
    }
    String::from_str(agent)
}

} // verus!
