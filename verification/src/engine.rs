//! The application core: the single in-memory state object and the
//! decisions of the event loop that drives it.
//!
//! All I/O stays outside: the shell performs dials, sends and clipboard
//! writes, and hands the outcomes back in as events and plain values.

use vstd::prelude::*;
use vstd::string::*;

use crate::MAX_CLIPBOARD_SIZE;
use crate::buffers::MessageBuffers;
use crate::connect::{
    connection_summary, peers_to_dial, reset_connecting, set_peer_status, ConnectionStatus,
    ConnectionSummary, PeerConnection, spec_peer_connected,
};
use crate::crypto::{aes_gcm_open, sha256_hex_of, x25519_shared_secret};
use crate::errors::DecentPasteError;
use crate::history::{history_wf, ClipboardEntry};
use crate::identity::DeviceIdentity;
use crate::pairing::PairingSession;
use crate::protocol::{ClipboardMessage, PairingRequest};
use crate::peers::{
    spec_is_paired, DiscoveredPeer, PairedPeer, remove_discovered, update_paired_addresses,
    update_paired_name,
};
use crate::settings::AppSettings;
use crate::sync::SyncManager;

verus! {

/// Clipboard content received while the app was in the background, applied
/// on resume.
pub struct PendingClipboard {
    pub content: String,
    pub from_device: String,
}

/// The process-wide state: identity, settings, peers, history, sessions,
/// connection tracking, offline buffers and echo suppression.
pub struct AppCore {
    pub device_identity: Option<DeviceIdentity>,
    pub settings: AppSettings,
    pub paired_peers: Vec<PairedPeer>,
    pub discovered_peers: Vec<DiscoveredPeer>,
    pub clipboard_history: Vec<ClipboardEntry>,
    pub pairing_sessions: Vec<PairingSession>,
    pub pending_clipboard: Option<PendingClipboard>,
    pub is_foreground: bool,
    pub peer_connections: Vec<PeerConnection>,
    pub buffers: MessageBuffers,
    pub sync: SyncManager,
}

impl AppCore {
    /// The state invariant: workable settings, a well-formed history within
    /// its bound, 32-byte secrets and unique ids among paired peers, and
    /// well-formed sub-states.
    pub open spec fn wf(&self) -> bool {
        &&& self.settings.wf()
        &&& history_wf(self.clipboard_history@, self.settings.clipboard_history_limit as int)
        &&& forall|i: int|
            0 <= i < self.paired_peers@.len() ==> (#[trigger] self.paired_peers@[i]).wf()
        &&& forall|i: int, j: int|
            0 <= i < j < self.paired_peers@.len() ==> self.paired_peers@[i].peer_id@
                != self.paired_peers@[j].peer_id@
        &&& forall|i: int, j: int|
            0 <= i < j < self.peer_connections@.len() ==> self.peer_connections@[i].peer_id@
                != self.peer_connections@[j].peer_id@
        &&& self.sync.wf()
        &&& self.buffers.wf()
        &&& self.device_identity matches Some(id) ==> id.wf()
    }

    /// A fresh core: nothing known, foreground assumed.
    pub fn new() -> (r: AppCore)
        ensures
            r.wf(),
            r.device_identity is None,
            r.paired_peers@.len() == 0,
            r.discovered_peers@.len() == 0,
            r.clipboard_history@.len() == 0,
            r.pairing_sessions@.len() == 0,
            r.pending_clipboard is None,
            r.is_foreground == true,
            r.peer_connections@.len() == 0,
    {
        AppCore {
            device_identity: None,
            settings: AppSettings::default(),
            paired_peers: Vec::new(),
            discovered_peers: Vec::new(),
            clipboard_history: Vec::new(),
            pairing_sessions: Vec::new(),
            pending_clipboard: None,
            is_foreground: true,
            peer_connections: Vec::new(),
            buffers: MessageBuffers::new(),
            sync: SyncManager::new(),
        }
    }

    /// Record whether the app is in the foreground.
    pub fn set_visibility(&mut self, visible: bool)
        requires
            old(self).wf(),
        ensures
            final(self).wf(),
            *final(self) == (AppCore { is_foreground: visible, ..*old(self) }),
    {
        self.is_foreground = visible;
    }

    /// Take the clipboard content queued while backgrounded, marking the
    /// app foreground again. The queue is empty afterwards.
    pub fn take_pending_clipboard(&mut self) -> (r: Option<PendingClipboard>)
        requires
            old(self).wf(),
        ensures
            final(self).wf(),
            r == old(self).pending_clipboard,
            *final(self) == (AppCore {
                pending_clipboard: None,
                is_foreground: true,
                ..*old(self)
            }),
    {
        self.is_foreground = true;
        self.pending_clipboard.take()
    }

    /// A peer became ready for broadcasts: record it connected.
    pub fn on_peer_ready(&mut self, peer_id: &str, now_ms: i64)
        requires
            old(self).wf(),
        ensures
            final(self).wf(),
            spec_peer_connected(final(self).peer_connections@, peer_id@),
            forall|j: int|
                0 <= j < final(self).peer_connections@.len() && (#[trigger] final(self).peer_connections@[j]).peer_id@ == peer_id@ ==> final(self).peer_connections@[j].state.status is Connected,
            final(self).paired_peers == old(self).paired_peers,
            final(self).clipboard_history == old(self).clipboard_history,
    {
        set_peer_status(
            &mut self.peer_connections,
            peer_id,
            ConnectionStatus::Connected,
            Some(now_ms),
        );
        proof {
            let fin = self.peer_connections@;
            let i = choose|i: int|
                0 <= i < fin.len() && fin[i].peer_id@ == peer_id@ && fin[i].state.status
                    == ConnectionStatus::Connected;
            assert(fin[i].state.status is Connected);
        }
    }

    /// A peer unsubscribed or its connection closed: record it
    /// disconnected; it no longer counts as connected anywhere.
    pub fn on_peer_not_ready(&mut self, peer_id: &str)
        requires
            old(self).wf(),
        ensures
            final(self).wf(),
            !spec_peer_connected(final(self).peer_connections@, peer_id@),
            final(self).paired_peers == old(self).paired_peers,
            final(self).clipboard_history == old(self).clipboard_history,
    {
        set_peer_status(
            &mut self.peer_connections,
            peer_id,
            ConnectionStatus::Disconnected,
            None,
        );
        proof {
            let fin = self.peer_connections@;
            if spec_peer_connected(fin, peer_id@) {
                let w = choose|w: int|
                    0 <= w < fin.len() && fin[w].peer_id@ == peer_id@ && fin[w].state.status
                        is Connected;
                assert(fin[w].state.status == ConnectionStatus::Disconnected);
                assert(false);
            }
        }
    }

    /// A peer was discovered (or refreshed). For a paired peer this writes
    /// the fresh addresses and last-seen time through, and returns whether
    /// anything changed (true exactly when nonempty addresses differed, so
    /// the paired list must be flushed); an unknown peer is recorded as
    /// discovered instead.
    pub fn on_peer_discovered(&mut self, peer: DiscoveredPeer, now_ms: i64) -> (r: bool)
        requires
            old(self).wf(),
        ensures
            final(self).wf(),
            final(self).clipboard_history == old(self).clipboard_history,
            r ==> spec_is_paired(old(self).paired_peers@, peer.peer_id@),
            r ==> exists|i: int|
                {
                    &&& 0 <= i < final(self).paired_peers@.len()
                    &&& (#[trigger] final(self).paired_peers@[i]).peer_id@ == peer.peer_id@
                    &&& crate::peers::strings_like(
                        final(self).paired_peers@[i].last_known_addresses@,
                        peer.addresses@,
                    )
                    &&& final(self).paired_peers@[i].last_seen == Some(now_ms)
                },
            !r ==> final(self).paired_peers@ == old(self).paired_peers@,
            spec_is_paired(old(self).paired_peers@, peer.peer_id@) ==> final(self).discovered_peers == old(self).discovered_peers,
            spec_is_paired(old(self).paired_peers@, peer.peer_id@) && peer.addresses@.len() > 0
                && (forall|i: int|
                0 <= i < old(self).paired_peers@.len() && (#[trigger] old(self).paired_peers@[i]).peer_id@ == peer.peer_id@
                    ==> !crate::peers::strings_like(
                    old(self).paired_peers@[i].last_known_addresses@,
                    peer.addresses@,
                )) ==> r,
            !spec_is_paired(old(self).paired_peers@, peer.peer_id@) ==> r == false && exists|
                i: int,
            |
                0 <= i < final(self).discovered_peers@.len() && final(self).discovered_peers@[i]
                    == peer && (forall|j: int|
                    0 <= j < final(self).discovered_peers@.len() && j != i ==> old(self).discovered_peers@.contains(#[trigger] final(self).discovered_peers@[j])),
    {
        let paired = crate::peers::is_peer_paired(&self.paired_peers, peer.peer_id.as_str());
        if paired {
            let changed = update_paired_addresses(
                &mut self.paired_peers,
                peer.peer_id.as_str(),
                &peer.addresses,
                now_ms,
            );
            proof {
                if changed {
                    let i = choose|i: int|
                        {
                            &&& 0 <= i < old(self).paired_peers@.len()
                            &&& old(self).paired_peers@[i].peer_id@ == peer.peer_id@
                            &&& self.paired_peers@.len() == old(self).paired_peers@.len()
                            &&& (forall|j: int|
                                0 <= j < old(self).paired_peers@.len() && j != i
                                    ==> self.paired_peers@[j] == old(self).paired_peers@[j])
                            &&& self.paired_peers@[i].peer_id@ == old(self).paired_peers@[i].peer_id@
                            &&& self.paired_peers@[i].shared_secret@ == old(self).paired_peers@[i].shared_secret@
                        };
                    assert forall|a: int|
                        0 <= a < self.paired_peers@.len() implies (#[trigger] self.paired_peers@[a]).wf() by {
                        if a != i {
                            assert(self.paired_peers@[a] == old(self).paired_peers@[a]);
                        }
                    }
                    assert forall|a: int, b: int|
                        0 <= a < b < self.paired_peers@.len() implies self.paired_peers@[a].peer_id@
                        != self.paired_peers@[b].peer_id@ by {
                        if a != i {
                            assert(self.paired_peers@[a] == old(self).paired_peers@[a]);
                        }
                        if b != i {
                            assert(self.paired_peers@[b] == old(self).paired_peers@[b]);
                        }
                    }
                }
            }
            changed
        } else {
            let ghost snapshot = peer;
            crate::peers::upsert_discovered(&mut self.discovered_peers, peer);
            proof {
                let fin = self.discovered_peers@;
                let w = choose|w: int|
                    0 <= w < fin.len() && fin[w] == snapshot && (forall|j: int|
                        0 <= j < fin.len() && j != w ==> old(self).discovered_peers@.contains(
                            #[trigger] fin[j],
                        ));
                assert(fin[w] == snapshot);
            }
            false
        }
    }

    /// A peer's mDNS record expired: forget it.
    pub fn on_peer_lost(&mut self, peer_id: &str)
        requires
            old(self).wf(),
        ensures
            final(self).wf(),
            forall|j: int|
                0 <= j < final(self).discovered_peers@.len() ==> (#[trigger] final(self).discovered_peers@[j]).peer_id@ != peer_id@,
            final(self).paired_peers == old(self).paired_peers,
            final(self).clipboard_history == old(self).clipboard_history,
    {
        remove_discovered(&mut self.discovered_peers, peer_id);
    }

    /// A peer announced a new display name: it is written through to the
    /// discovered record and the paired record. Returns whether a paired
    /// name actually changed (and so must be flushed).
    pub fn on_peer_name_updated(&mut self, peer_id: &str, device_name: &str) -> (r: bool)
        requires
            old(self).wf(),
        ensures
            final(self).wf(),
            final(self).clipboard_history == old(self).clipboard_history,
            r ==> spec_is_paired(old(self).paired_peers@, peer_id@),
            r ==> exists|i: int|
                {
                    &&& 0 <= i < final(self).paired_peers@.len()
                    &&& (#[trigger] final(self).paired_peers@[i]).peer_id@ == peer_id@
                    &&& final(self).paired_peers@[i].device_name@ == device_name@
                },
            !r ==> final(self).paired_peers@ == old(self).paired_peers@,
            spec_is_paired(old(self).paired_peers@, peer_id@) && (forall|i: int|
                0 <= i < old(self).paired_peers@.len() && (#[trigger] old(self).paired_peers@[i]).peer_id@ == peer_id@ ==> old(self).paired_peers@[i].device_name@ != device_name@) ==> r,
            (exists|i: int|
                0 <= i < old(self).discovered_peers@.len() && (#[trigger] old(self).discovered_peers@[i]).peer_id@ == peer_id@) ==> exists|i: int|
                {
                    &&& 0 <= i < final(self).discovered_peers@.len()
                    &&& (#[trigger] final(self).discovered_peers@[i]).peer_id@ == peer_id@
                    &&& final(self).discovered_peers@[i].device_name matches Some(n) && n@
                        == device_name@
                },
    {
        let ghost mut updated_disc: bool = false;
        let ghost mut disc_witness: int = 0;
        match crate::peers::find_discovered(&self.discovered_peers, peer_id) {
            Some(i) => {
                let ghost pre = self.discovered_peers@;
                let mut d = self.discovered_peers.remove(i);
                d.device_name = Some(String::from_str(device_name));
                let ghost dafter = d;
                self.discovered_peers.insert(i, d);
                proof {
                    updated_disc = true;
                    disc_witness = i as int;
                    assert(self.discovered_peers@[i as int] == dafter);
                    assert(dafter.peer_id@ == peer_id@);
                    assert(dafter.device_name matches Some(n) && n@ == device_name@);
                }
            }
            None => {}
        }
        let ghost disc_after = self.discovered_peers@;
        let changed = update_paired_name(&mut self.paired_peers, peer_id, device_name);
        proof {
            assert(self.discovered_peers@ == disc_after);
            if updated_disc {
                assert(self.discovered_peers@[disc_witness].peer_id@ == peer_id@);
                assert(self.discovered_peers@[disc_witness].device_name matches Some(n) && n@
                    == device_name@);
                assert(exists|w: int|
                    {
                        &&& 0 <= w < self.discovered_peers@.len()
                        &&& (#[trigger] self.discovered_peers@[w]).peer_id@ == peer_id@
                        &&& self.discovered_peers@[w].device_name matches Some(n) && n@
                            == device_name@
                    });
            }
        }
        proof {
            if changed {
                let i = choose|i: int|
                    {
                        &&& 0 <= i < old(self).paired_peers@.len()
                        &&& old(self).paired_peers@[i].peer_id@ == peer_id@
                        &&& self.paired_peers@.len() == old(self).paired_peers@.len()
                        &&& (forall|j: int|
                            0 <= j < old(self).paired_peers@.len() && j != i
                                ==> self.paired_peers@[j] == old(self).paired_peers@[j])
                        &&& self.paired_peers@[i].peer_id@ == old(self).paired_peers@[i].peer_id@
                        &&& self.paired_peers@[i].shared_secret@ == old(self).paired_peers@[i].shared_secret@
                    };
                assert forall|a: int|
                    0 <= a < self.paired_peers@.len() implies (#[trigger] self.paired_peers@[a]).wf() by {
                    if a != i {
                        assert(self.paired_peers@[a] == old(self).paired_peers@[a]);
                    }
                }
                assert forall|a: int, b: int|
                    0 <= a < b < self.paired_peers@.len() implies self.paired_peers@[a].peer_id@
                    != self.paired_peers@[b].peer_id@ by {
                    if a != i {
                        assert(self.paired_peers@[a] == old(self).paired_peers@[a]);
                    }
                    if b != i {
                        assert(self.paired_peers@[b] == old(self).paired_peers@[b]);
                    }
                }
            }
        }
        changed
    }

    /// Remove a paired peer and surface it as merely discovered again.
    /// Returns its id and name when it was present (the paired list must
    /// then be flushed).
    pub fn remove_paired(&mut self, peer_id: &str, now_ms: i64) -> (r: Option<(String, String)>)
        requires
            old(self).wf(),
        ensures
            final(self).wf(),
            !spec_is_paired(final(self).paired_peers@, peer_id@),
            r is None ==> final(self).paired_peers@ == old(self).paired_peers@,
            final(self).clipboard_history == old(self).clipboard_history,
    {
        let removed = crate::peers::remove_paired_peer(&mut self.paired_peers, peer_id);
        proof {
            if removed is Some {
                {
                    let i = choose|i: int|
                        {
                            &&& 0 <= i < old(self).paired_peers@.len()
                            &&& old(self).paired_peers@[i].peer_id@ == peer_id@
                            &&& self.paired_peers@ == old(self).paired_peers@.remove(i)
                        };
                    let fin = self.paired_peers@;
                    assert forall|a: int|
                        0 <= a < fin.len() implies (#[trigger] fin[a]).wf() by {
                        assert(fin[a] == old(self).paired_peers@[if a < i { a } else { a + 1 }]);
                    }
                    assert forall|a: int, b: int|
                        0 <= a < b < fin.len() implies fin[a].peer_id@ != fin[b].peer_id@ by {
                        assert(fin[a] == old(self).paired_peers@[if a < i { a } else { a + 1 }]);
                        assert(fin[b] == old(self).paired_peers@[if b < i { b } else { b + 1 }]);
                    }
                    assert forall|a: int|
                        0 <= a < fin.len() implies (#[trigger] fin[a]).peer_id@ != peer_id@ by {
                        let src = if a < i { a } else { a + 1 };
                        assert(fin[a] == old(self).paired_peers@[src]);
                        if src < i {
                            assert(old(self).paired_peers@[src].peer_id@ != old(self).paired_peers@[i].peer_id@);
                        } else {
                            assert(old(self).paired_peers@[i].peer_id@ != old(self).paired_peers@[src].peer_id@);
                        }
                    }
                }
            }
        }
        match &removed {
            Some(info) => {
                let discovered = DiscoveredPeer {
                    peer_id: String::from_str(peer_id),
                    device_name: Some(info.1.clone()),
                    addresses: Vec::new(),
                    discovered_at: now_ms,
                    is_paired: false,
                };
                crate::peers::upsert_discovered(&mut self.discovered_peers, discovered);
            }
            None => {}
        }
        removed
    }

    /// The discovered peers that are not paired, for display.
    pub fn get_discovered_peers(&self) -> (r: Vec<DiscoveredPeer>)
        ensures
            forall|j: int|
                0 <= j < r@.len() ==> !spec_is_paired(
                    self.paired_peers@,
                    (#[trigger] r@[j]).peer_id@,
                ),
    {
        crate::peers::unpaired_discovered(&self.discovered_peers, &self.paired_peers)
    }

    /// The newest `limit` history entries.
    pub fn get_clipboard_history(&self, limit: usize) -> (r: Vec<ClipboardEntry>)
        ensures
            r@.len() <= limit,
            forall|j: int| 0 <= j < r@.len() ==> r@[j] == self.clipboard_history@[j],
    {
        crate::history::history_prefix(&self.clipboard_history, limit)
    }

    /// Empty the clipboard history.
    pub fn clear_clipboard_history(&mut self)
        requires
            old(self).wf(),
        ensures
            final(self).wf(),
            final(self).clipboard_history@.len() == 0,
    {
        crate::history::clear_history(&mut self.clipboard_history);
    }

    /// The first step of the reconnect barrier: every paired peer not yet
    /// connected is marked `Connecting` and listed for dialing.
    pub fn begin_reconnect(&mut self) -> (r: Vec<String>)
        requires
            old(self).wf(),
        ensures
            final(self).wf(),
            forall|j: int|
                0 <= j < r@.len() ==> !spec_peer_connected(
                    old(self).peer_connections@,
                    (#[trigger] r@[j])@,
                ),
            forall|j: int|
                0 <= j < r@.len() ==> spec_is_paired(old(self).paired_peers@, (#[trigger] r@[j])@),
            forall|k: int|
                0 <= k < old(self).paired_peers@.len() && !spec_peer_connected(
                    old(self).peer_connections@,
                    (#[trigger] old(self).paired_peers@[k]).peer_id@,
                ) ==> crate::buffers::hash_listed(r@, old(self).paired_peers@[k].peer_id@),
            final(self).paired_peers == old(self).paired_peers,
            final(self).clipboard_history == old(self).clipboard_history,
    {
        let to_dial = peers_to_dial(&self.paired_peers, &self.peer_connections);
        let mut i: usize = 0;
        while i < to_dial.len()
            invariant
                old(self).wf(),
                self.paired_peers == old(self).paired_peers,
                self.clipboard_history == old(self).clipboard_history,
                self.settings == old(self).settings,
                self.sync == old(self).sync,
                self.buffers == old(self).buffers,
                self.device_identity == old(self).device_identity,
                forall|a: int, b: int|
                    0 <= a < b < self.peer_connections@.len()
                        ==> self.peer_connections@[a].peer_id@
                        != self.peer_connections@[b].peer_id@,
            decreases to_dial@.len() - i,
        {
            set_peer_status(
                &mut self.peer_connections,
                to_dial[i].as_str(),
                ConnectionStatus::Connecting,
                None,
            );
            i += 1;
        }
        to_dial
    }

    /// The last step of the barrier after its timeout: any peer still
    /// `Connecting` is reset to `Disconnected` — none remains `Connecting`
    /// — and the summary is taken.
    pub fn finish_reconnect(&mut self) -> (r: ConnectionSummary)
        requires
            old(self).wf(),
        ensures
            final(self).wf(),
            r.total_peers == final(self).paired_peers@.len(),
            r.connected == crate::connect::spec_connected_count(
                final(self).paired_peers@,
                final(self).peer_connections@,
            ),
            r.failed == r.total_peers - r.connected,
            forall|i: int|
                0 <= i < final(self).peer_connections@.len() ==> !((#[trigger] final(self).peer_connections@[i]).state.status is Connecting),
            final(self).paired_peers == old(self).paired_peers,
            final(self).clipboard_history == old(self).clipboard_history,
    {
        let ghost pre = self.peer_connections@;
        reset_connecting(&mut self.peer_connections);
        proof {
            let fin = self.peer_connections@;
            assert forall|a: int, b: int|
                0 <= a < b < fin.len() implies fin[a].peer_id@ != fin[b].peer_id@ by {
                assert(fin[a].peer_id == pre[a].peer_id);
                assert(fin[b].peer_id == pre[b].peer_id);
            }
        }
        connection_summary(&self.paired_peers, &self.peer_connections)
    }

    /// Share clipboard content with every paired peer: encrypt once per
    /// peer, record the entry in history, and buffer each message for
    /// offline resync. Returns the messages to publish.
    ///
    /// Succeeds on every content up to 1 MiB whenever an identity and at
    /// least one paired peer exist. Content over 1 MiB is rejected with
    /// `InvalidInput` and nothing changes; likewise a missing identity
    /// (`NotInitialized`) and an empty peer list (`NoPeersAvailable`).
    #[verifier::loop_isolation(false)]
    pub fn share_content(&mut self, content: &str, now_ms: i64) -> (r: Result<
        Vec<ClipboardMessage>,
        DecentPasteError,
    >)
        requires
            old(self).wf(),
        ensures
            final(self).wf(),
            content.spec_bytes().len() <= MAX_CLIPBOARD_SIZE && old(self).device_identity
                is Some && old(self).paired_peers@.len() >= 1 ==> r is Ok,
            r is Err ==> *final(self) == *old(self),
            content.spec_bytes().len() > MAX_CLIPBOARD_SIZE ==> (r matches Err(e) && e
                is InvalidInput && *final(self) == *old(self)),
            content.spec_bytes().len() <= MAX_CLIPBOARD_SIZE && old(self).device_identity
                is None ==> (r matches Err(e) && e is NotInitialized && *final(self) == *old(self)),
            content.spec_bytes().len() <= MAX_CLIPBOARD_SIZE && old(self).device_identity
                is Some && old(self).paired_peers@.len() == 0 ==> (r matches Err(e) && e
                is NoPeersAvailable && *final(self) == *old(self)),
            r is Ok ==> content.spec_bytes().len() <= MAX_CLIPBOARD_SIZE,
            r matches Ok(msgs) ==> msgs@.len() == old(self).paired_peers@.len(),
            r matches Ok(msgs) ==> (forall|i: int|
                0 <= i < msgs@.len() ==> {
                    &&& (#[trigger] msgs@[i]).content_hash@ == sha256_hex_of(content@)
                    &&& aes_gcm_open(
                        msgs@[i].encrypted_content@,
                        old(self).paired_peers@[i].shared_secret@,
                    ) == Some(content.spec_bytes())
                    &&& msgs@[i].timestamp == now_ms
                    &&& (old(self).device_identity matches Some(ident)
                        ==> msgs@[i].origin_device_id@ == ident.device_id@
                        && msgs@[i].origin_device_name@ == ident.device_name@)
                }),
            r is Ok ==> (forall|k: int|
                0 <= k < old(self).paired_peers@.len() ==> crate::buffers::has_peer_buffer(
                    final(self).buffers.entries@,
                    (#[trigger] old(self).paired_peers@[k]).peer_id@,
                )),
            r is Ok ==> final(self).clipboard_history@.len() >= 1,
            r is Ok && (forall|i: int|
                0 <= i < old(self).clipboard_history@.len() ==> (#[trigger] old(self).clipboard_history@[i]).timestamp <= now_ms) ==> final(self).clipboard_history@[0].content_hash@ == sha256_hex_of(content@) && final(self).clipboard_history@[0].is_local,
            r matches Err(e) ==> (e is InvalidInput || e is NotInitialized || e
                is NoPeersAvailable || e is Encryption),
            final(self).paired_peers == old(self).paired_peers,
            final(self).pairing_sessions == old(self).pairing_sessions,
    {
        if content.as_bytes().len() > MAX_CLIPBOARD_SIZE {
            return Err(
                DecentPasteError::InvalidInput(
                    String::from_str("Clipboard content too large (max 1MB)"),
                ),
            );
        }
        let identity = match &self.device_identity {
            Some(id) => id.clone(),
            None => {
                return Err(DecentPasteError::NotInitialized);
            }
        };
        if self.paired_peers.len() == 0 {
            return Err(DecentPasteError::NoPeersAvailable);
        }
        let msgs = match build_clipboard_messages(content, &identity, &self.paired_peers, now_ms) {
            Ok(m) => m,
            Err(e) => {
                return Err(e);
            }
        };
        let entry = crate::history::ClipboardEntry::new_local(
            String::from_str(content),
            identity.device_id.as_str(),
            identity.device_name.as_str(),
            now_ms,
        );
        crate::history::insert_entry(
            &mut self.clipboard_history,
            entry,
            self.settings.clipboard_history_limit,
        );
        let ghost pre_loop = *self;
        let mut k: usize = 0;
        while k < msgs.len()
            invariant
                k <= msgs@.len(),
                msgs@.len() == self.paired_peers@.len(),
                self.buffers.wf(),
                *self == (AppCore { buffers: self.buffers, ..pre_loop }),
                forall|j: int|
                    0 <= j < k ==> crate::buffers::has_peer_buffer(
                        self.buffers.entries@,
                        (#[trigger] self.paired_peers@[j]).peer_id@,
                    ),
            decreases msgs@.len() - k,
        {
            let ghost mid = self.buffers.entries@;
            self.buffers.append_for_peer(
                self.paired_peers[k].peer_id.as_str(),
                msgs[k].clone(),
                self.settings.sync_max_buffer_size,
            );
            proof {
                assert forall|j: int|
                    0 <= j < k + 1 implies crate::buffers::has_peer_buffer(
                    self.buffers.entries@,
                    (#[trigger] self.paired_peers@[j]).peer_id@,
                ) by {
                    if j < k {
                        assert(crate::buffers::has_peer_buffer(
                            mid,
                            self.paired_peers@[j].peer_id@,
                        ));
                    }
                }
            }
            k += 1;
        }
        Ok(msgs)
    }

    /// A local clipboard change from the monitor: broadcast it exactly when
    /// auto-sync is on and the echo-suppression rule allows it — then the
    /// messages to publish are returned and the change is recorded in
    /// history and the offline buffers; `Ok(None)` means precisely that
    /// auto-sync was off or the rule suppressed the change.
    #[verifier::loop_isolation(false)]
    pub fn on_local_clipboard_change(&mut self, content: &str, now_ms: i64) -> (r: Result<
        Option<Vec<ClipboardMessage>>,
        DecentPasteError,
    >)
        requires
            old(self).wf(),
        ensures
            final(self).wf(),
            old(self).settings.auto_sync_enabled && crate::sync::spec_should_broadcast(
                old(self).sync,
                sha256_hex_of(content@),
                true,
                now_ms,
            ) && content.spec_bytes().len() <= MAX_CLIPBOARD_SIZE && old(self).device_identity
                is Some && old(self).paired_peers@.len() >= 1 ==> (r matches Ok(m) && m is Some),
            r matches Ok(m) && m is None ==> (!old(self).settings.auto_sync_enabled
                || !crate::sync::spec_should_broadcast(
                old(self).sync,
                sha256_hex_of(content@),
                true,
                now_ms,
            )),
            !old(self).settings.auto_sync_enabled ==> (r matches Ok(m) && m is None && *final(self) == *old(self)),
            r matches Ok(Some(msgs)) ==> crate::sync::spec_should_broadcast(
                old(self).sync,
                sha256_hex_of(content@),
                true,
                now_ms,
            ),
            r matches Ok(Some(msgs)) ==> msgs@.len() == old(self).paired_peers@.len() && (forall|
                i: int,
            |
                0 <= i < msgs@.len() ==> (#[trigger] msgs@[i]).content_hash@ == sha256_hex_of(
                    content@,
                ) && aes_gcm_open(
                    msgs@[i].encrypted_content@,
                    old(self).paired_peers@[i].shared_secret@,
                ) == Some(content.spec_bytes())),
            r matches Ok(Some(msgs)) ==> crate::sync::local_is(
                final(self).sync,
                sha256_hex_of(content@),
            ),
    {
        if !self.settings.auto_sync_enabled {
            return Ok(None);
        }
        let hash = crate::crypto::hash_content(content);
        let broadcast = self.sync.should_broadcast(hash.as_str(), true, now_ms);
        if !broadcast {
            return Ok(None);
        }
        if content.as_bytes().len() > MAX_CLIPBOARD_SIZE {
            return Err(
                DecentPasteError::InvalidInput(
                    String::from_str("Clipboard content too large (max 1MB)"),
                ),
            );
        }
        let identity = match &self.device_identity {
            Some(id) => id.clone(),
            None => {
                return Err(DecentPasteError::NotInitialized);
            }
        };
        if self.paired_peers.len() == 0 {
            return Err(DecentPasteError::NoPeersAvailable);
        }
        let msgs = match build_clipboard_messages(content, &identity, &self.paired_peers, now_ms) {
            Ok(m) => m,
            Err(e) => {
                return Err(e);
            }
        };
        let entry = crate::history::ClipboardEntry::new_local(
            String::from_str(content),
            identity.device_id.as_str(),
            identity.device_name.as_str(),
            now_ms,
        );
        crate::history::insert_entry(
            &mut self.clipboard_history,
            entry,
            self.settings.clipboard_history_limit,
        );
        let ghost pre_loop = *self;
        let mut k: usize = 0;
        while k < msgs.len()
            invariant
                k <= msgs@.len(),
                msgs@.len() == self.paired_peers@.len(),
                self.buffers.wf(),
                *self == (AppCore { buffers: self.buffers, ..pre_loop }),
            decreases msgs@.len() - k,
        {
            self.buffers.append_for_peer(
                self.paired_peers[k].peer_id.as_str(),
                msgs[k].clone(),
                self.settings.sync_max_buffer_size,
            );
            k += 1;
        }
        Ok(Some(msgs))
    }

    /// Handle a clipboard message from the network. The message is ignored
    /// when it is our own echo or when no paired peer's key opens it to
    /// text matching the carried hash; otherwise the content is applied (in
    /// the foreground) or queued (in the background), recorded in history,
    /// and its hash remembered so it is not broadcast back.
    #[verifier::loop_isolation(false)]
    pub fn on_clipboard_received(&mut self, msg: &ClipboardMessage, now_ms: i64) -> (r:
        ReceiveOutcome)
        requires
            old(self).wf(),
            forall|i: int|
                0 <= i < old(self).sync.recent_hashes@.len() ==> (#[trigger] old(self).sync.recent_hashes@[i]).seen_at <= now_ms,
        ensures
            final(self).wf(),
            (old(self).device_identity matches Some(id) && id.device_id@
                == msg.origin_device_id@) ==> (r is Ignored && *final(self) == *old(self)),
            !(old(self).device_identity matches Some(id) && id.device_id@
                == msg.origin_device_id@) ==> (r is Ignored <==> (forall|k: int|
                0 <= k < old(self).paired_peers@.len() ==> !spec_readable(
                    #[trigger] old(self).paired_peers@[k],
                    *msg,
                ))),
            r is Ignored ==> *final(self) == *old(self),
            r matches ReceiveOutcome::Applied { content, from_device } ==> sha256_hex_of(content@)
                == msg.content_hash@,
            r matches ReceiveOutcome::Applied { content, from_device } ==> (exists|k: int|
                0 <= k < old(self).paired_peers@.len() && aes_gcm_open(
                    msg.encrypted_content@,
                    #[trigger] old(self).paired_peers@[k].shared_secret@,
                ) == Some(vstd::utf8::encode_utf8(content@))),
            r matches ReceiveOutcome::Applied { content, from_device } ==> from_device@
                == msg.origin_device_name@ && old(self).is_foreground,
            r is Applied || r is Queued ==> crate::sync::local_is(
                final(self).sync,
                msg.content_hash@,
            ),
            r matches ReceiveOutcome::Queued { from_device } ==> !old(self).is_foreground && (
            final(self).pending_clipboard matches Some(p) && sha256_hex_of(p.content@)
                == msg.content_hash@ && p.from_device@ == msg.origin_device_name@),
            r is Applied || r is Queued ==> final(self).clipboard_history@.len() >= 1,
            (r is Applied || r is Queued) && (forall|i: int|
                0 <= i < old(self).clipboard_history@.len() ==> (#[trigger] old(self).clipboard_history@[i]).timestamp <= msg.timestamp) ==> final(self).clipboard_history@[0].content_hash@ == msg.content_hash@,
            final(self).paired_peers == old(self).paired_peers,
    {
        let self_echo = match &self.device_identity {
            Some(id) => crate::text::str_eq(id.device_id.as_str(), msg.origin_device_id.as_str()),
            None => false,
        };
        if self_echo {
            return ReceiveOutcome::Ignored;
        }
        let mut found: Option<String> = None;
        let ghost mut witness: int = 0;
        let mut k: usize = 0;
        while k < self.paired_peers.len() && found.is_none()
            invariant
                k <= self.paired_peers@.len(),
                *self == *old(self),
                found is None ==> forall|j: int|
                    0 <= j < k ==> !spec_readable(#[trigger] self.paired_peers@[j], *msg),
                found matches Some(content) ==> {
                    &&& 0 <= witness < self.paired_peers@.len()
                    &&& msg.encrypted_content@.len() >= 12
                    &&& aes_gcm_open(
                        msg.encrypted_content@,
                        self.paired_peers@[witness].shared_secret@,
                    ) == Some(vstd::utf8::encode_utf8(content@))
                    &&& sha256_hex_of(content@) == msg.content_hash@
                },
            decreases self.paired_peers@.len() - k,
        {
            match crate::crypto::decrypt_content(
                msg.encrypted_content.as_slice(),
                self.paired_peers[k].shared_secret.as_slice(),
            ) {
                Ok(plain) => {
                    let ghost plain_view = plain@;
                    match crate::text::bytes_to_string(plain) {
                        Some(content) => {
                            let computed = crate::crypto::hash_content(content.as_str());
                            if crate::text::str_eq(computed.as_str(), msg.content_hash.as_str()) {
                                proof {
                                    witness = k as int;
                                }
                                found = Some(content);
                            } else {
                                proof {
                                    assert forall|c: Seq<char>|
                                        aes_gcm_open(
                                            msg.encrypted_content@,
                                            self.paired_peers@[k as int].shared_secret@,
                                        ) != Some(vstd::utf8::encode_utf8(c)) || sha256_hex_of(c)
                                            != msg.content_hash@ by {
                                        if vstd::utf8::encode_utf8(c) == plain_view {
                                            assert(c == content@);
                                        } else {
                                            assert(Some(vstd::utf8::encode_utf8(c)) != Some(
                                                plain_view,
                                            ));
                                        }
                                    }
                                }
                            }
                        }
                        None => {
                            proof {
                                assert forall|c: Seq<char>|
                                    aes_gcm_open(
                                        msg.encrypted_content@,
                                        self.paired_peers@[k as int].shared_secret@,
                                    ) != Some(vstd::utf8::encode_utf8(c)) || sha256_hex_of(c)
                                        != msg.content_hash@ by {
                                    assert(vstd::utf8::encode_utf8(c) != plain_view);
                                }
                            }
                        }
                    }
                }
                Err(_) => {}
            }
            k += 1;
        }
        let content = match found {
            Some(c) => c,
            None => {
                return ReceiveOutcome::Ignored;
            }
        };
        proof {
            assert(spec_readable(self.paired_peers@[witness], *msg));
        }
        // Remember the hash so the next poll and broadcast check skip it.
        self.sync.on_received(msg.content_hash.as_str(), now_ms);
        let from_device = String::from_str(msg.origin_device_name.as_str());
        let entry = crate::history::ClipboardEntry::new_remote(
            content.clone(),
            msg.content_hash.clone(),
            msg.timestamp,
            msg.origin_device_id.as_str(),
            msg.origin_device_name.as_str(),
        );
        crate::history::insert_entry(
            &mut self.clipboard_history,
            entry,
            self.settings.clipboard_history_limit,
        );
        if self.is_foreground {
            ReceiveOutcome::Applied { content, from_device }
        } else {
            self.pending_clipboard = Some(
                PendingClipboard { content, from_device: from_device.clone() },
            );
            ReceiveOutcome::Queued { from_device }
        }
    }

    /// Start pairing with a discovered peer: refuse if already paired or no
    /// identity exists; otherwise create an initiator session that captures
    /// the peer's current addresses, and build the request to send.
    pub fn initiate_pairing(&mut self, peer_id: &str, now_ms: i64) -> (r: Result<
        (String, PairingRequest),
        DecentPasteError,
    >)
        requires
            old(self).wf(),
        ensures
            final(self).wf(),
            spec_is_paired(old(self).paired_peers@, peer_id@) ==> (r matches Err(e) && e
                is AlreadyPaired && *final(self) == *old(self)),
            !spec_is_paired(old(self).paired_peers@, peer_id@) && old(self).device_identity
                is None ==> (r matches Err(e) && e is NotInitialized && *final(self) == *old(self)),
            !spec_is_paired(old(self).paired_peers@, peer_id@) && old(self).device_identity
                is Some ==> r is Ok,
            r matches Ok(out) ==> {
                &&& out.0@.len() == 36
                &&& final(self).pairing_sessions@.len() == old(self).pairing_sessions@.len() + 1
                &&& (forall|j: int|
                    0 <= j < old(self).pairing_sessions@.len() ==> final(self).pairing_sessions@[j] == old(self).pairing_sessions@[j])
                &&& final(self).pairing_sessions@.last().session_id@ == out.0@
                &&& final(self).pairing_sessions@.last().peer_id@ == peer_id@
                &&& final(self).pairing_sessions@.last().is_initiator == true
                &&& final(self).pairing_sessions@.last().state is Initiated
                &&& final(self).pairing_sessions@.last().created_at == now_ms
                &&& out.1.session_id@ == out.0@
                &&& (old(self).device_identity matches Some(ident) ==> out.1.device_name@
                    == ident.device_name@ && out.1.device_id@ == ident.device_id@
                    && out.1.public_key@ == ident.public_key@)
                &&& ((exists|i: int|
                    0 <= i < old(self).discovered_peers@.len() && (#[trigger] old(self).discovered_peers@[i]).peer_id@ == peer_id@) ==> exists|i: int|
                    {
                        &&& 0 <= i < old(self).discovered_peers@.len()
                        &&& (#[trigger] old(self).discovered_peers@[i]).peer_id@ == peer_id@
                        &&& crate::peers::strings_like(
                            old(self).discovered_peers@[i].addresses@,
                            final(self).pairing_sessions@.last().peer_addresses@,
                        )
                    })
                &&& ((forall|i: int|
                    0 <= i < old(self).discovered_peers@.len() ==> (#[trigger] old(self).discovered_peers@[i]).peer_id@ != peer_id@) ==> final(self).pairing_sessions@.last().peer_addresses@.len() == 0)
                &&& final(self).paired_peers == old(self).paired_peers
                &&& final(self).clipboard_history == old(self).clipboard_history
            },
    {
        if crate::peers::is_peer_paired(&self.paired_peers, peer_id) {
            return Err(DecentPasteError::AlreadyPaired(String::from_str(peer_id)));
        }
        let identity = match &self.device_identity {
            Some(id) => id.clone(),
            None => {
                return Err(DecentPasteError::NotInitialized);
            }
        };
        let addresses = crate::peers::addresses_for(&self.discovered_peers, peer_id);
        let session_id = crate::crypto::new_uuid();
        let session = PairingSession::new(
            session_id.clone(),
            String::from_str(peer_id),
            true,
            now_ms,
        ).with_peer_addresses(addresses);
        self.pairing_sessions.push(session);
        let request = PairingRequest {
            session_id: session_id.clone(),
            device_name: identity.device_name,
            device_id: identity.device_id,
            public_key: identity.public_key,
        };
        Ok((session_id, request))
    }

    /// Answer an incoming pairing request: on acceptance, generate (or
    /// return the already generated) PIN; on rejection, fail the session.
    /// The rules are those of `respond_session`, applied to the first
    /// session with this id.
    pub fn respond_to_pairing(&mut self, session_id: &str, accept: bool, now_ms: i64) -> (r:
        Result<Option<String>, DecentPasteError>)
        requires
            old(self).wf(),
        ensures
            final(self).wf(),
            !crate::pairing::has_session(old(self).pairing_sessions@, session_id@) ==> (r matches
                Err(e) && e is Pairing && *final(self) == *old(self)),
            crate::pairing::has_session(old(self).pairing_sessions@, session_id@) ==> exists|
                i: int,
            |
                {
                    &&& 0 <= i < old(self).pairing_sessions@.len()
                    &&& old(self).pairing_sessions@[i].session_id@ == session_id@
                    &&& final(self).pairing_sessions@.len() == old(self).pairing_sessions@.len()
                    &&& (forall|j: int|
                        0 <= j < old(self).pairing_sessions@.len() && j != i ==> final(self).pairing_sessions@[j] == old(self).pairing_sessions@[j])
                    &&& crate::pairing::same_core(
                        old(self).pairing_sessions@[i],
                        final(self).pairing_sessions@[i],
                    )
                    &&& (!old(self).pairing_sessions@[i].spec_expired(now_ms) && old(self).pairing_sessions@[i].state is Initiated && accept ==> (r matches Ok(Some(pin))
                        && pin@.len() == 6 && final(self).pairing_sessions@[i].state
                        is AwaitingPinConfirmation))
                    &&& (!old(self).pairing_sessions@[i].spec_expired(now_ms) && old(self).pairing_sessions@[i].state is AwaitingPinConfirmation ==> (r matches Ok(p)
                        && (p is Some <==> old(self).pairing_sessions@[i].pin is Some)
                        && final(self).pairing_sessions@[i] == old(self).pairing_sessions@[i]))
                    &&& (!old(self).pairing_sessions@[i].spec_expired(now_ms) && old(self).pairing_sessions@[i].state is AwaitingPinConfirmation ==> (r matches Ok(Some(pin))
                        ==> (old(self).pairing_sessions@[i].pin matches Some(stored) && pin@
                        == stored@)))
                    &&& (!old(self).pairing_sessions@[i].spec_expired(now_ms) && old(self).pairing_sessions@[i].is_terminal() ==> (r matches Err(e) && e is Pairing
                        && final(self).pairing_sessions@[i] == old(self).pairing_sessions@[i]))
                    &&& (r matches Ok(Some(pin)) ==> crate::pairing::pin_matches(
                        final(self).pairing_sessions@[i],
                        pin@,
                    ))
                    &&& (old(self).pairing_sessions@[i].spec_expired(now_ms) ==> (r matches Err(e)
                        && e is PairingTimeout))
                },
            final(self).paired_peers == old(self).paired_peers,
            final(self).clipboard_history == old(self).clipboard_history,
    {
        let i = match crate::pairing::find_session(&self.pairing_sessions, session_id) {
            Some(i) => i,
            None => {
                return Err(DecentPasteError::Pairing(String::from_str("Session not found")));
            }
        };
        let ghost pre = self.pairing_sessions@;
        let mut s = self.pairing_sessions.remove(i);
        let res = crate::pairing::respond_session(&mut s, accept, now_ms);
        let ghost safter = s;
        self.pairing_sessions.insert(i, s);
        proof {
            let fin = self.pairing_sessions@;
            assert(fin[i as int] == safter);
            assert forall|j: int| 0 <= j < pre.len() && j != i implies fin[j] == pre[j] by {
                if j < i {
                    assert(fin[j] == pre.remove(i as int)[j]);
                    assert(pre.remove(i as int)[j] == pre[j]);
                } else {
                    assert(fin[j] == pre.remove(i as int)[j - 1]);
                    assert(pre.remove(i as int)[j - 1] == pre[j]);
                }
            }
        }
        res
    }

    /// A pairing request arrived: adopt the initiator's session id and
    /// remember its name, public key and current addresses. Expired
    /// sessions are garbage-collected before the new one is pushed.
    #[verifier::loop_isolation(false)]
    pub fn on_pairing_request(&mut self, request: PairingRequest, peer_id: &str, now_ms: i64)
        requires
            old(self).wf(),
        ensures
            final(self).wf(),
            final(self).pairing_sessions@.len() >= 1,
            final(self).pairing_sessions@.last().session_id@ == request.session_id@,
            final(self).pairing_sessions@.last().peer_id@ == peer_id@,
            final(self).pairing_sessions@.last().is_initiator == false,
            final(self).pairing_sessions@.last().state is Initiated,
            final(self).pairing_sessions@.last().created_at == now_ms,
            final(self).pairing_sessions@.last().peer_public_key matches Some(k) && k@
                == request.public_key@,
            final(self).paired_peers == old(self).paired_peers,
            final(self).clipboard_history == old(self).clipboard_history,
    {
        // Garbage-collect expired sessions before pushing a new one.
        let mut i: usize = 0;
        while i < self.pairing_sessions.len()
            invariant
                i <= self.pairing_sessions@.len(),
                *self == (AppCore { pairing_sessions: self.pairing_sessions, ..*old(self) }),
            decreases self.pairing_sessions@.len() - i,
        {
            if self.pairing_sessions[i].is_expired(now_ms) {
                self.pairing_sessions.remove(i);
            } else {
                i += 1;
            }
        }
        let addresses = crate::peers::addresses_for(&self.discovered_peers, peer_id);
        let session = PairingSession::new(
            request.session_id,
            String::from_str(peer_id),
            false,
            now_ms,
        ).with_peer_name(request.device_name).with_peer_public_key(
            request.public_key,
        ).with_peer_addresses(addresses);
        self.pairing_sessions.push(session);
    }

    /// The responder's challenge arrived at the initiator: store the PIN to
    /// be confirmed, the responder's name and its public key.
    pub fn on_pairing_pin_ready(
        &mut self,
        session_id: &str,
        pin: String,
        peer_device_name: String,
        peer_public_key: Vec<u8>,
    )
        requires
            old(self).wf(),
        ensures
            final(self).wf(),
            crate::pairing::has_session(old(self).pairing_sessions@, session_id@) ==> exists|
                i: int,
            |
                {
                    &&& 0 <= i < final(self).pairing_sessions@.len()
                    &&& final(self).pairing_sessions@[i].session_id@ == session_id@
                    &&& crate::pairing::pin_matches(final(self).pairing_sessions@[i], pin@)
                    &&& final(self).pairing_sessions@[i].state is AwaitingPinConfirmation
                    &&& (final(self).pairing_sessions@[i].peer_public_key matches Some(k) && k
                        == peer_public_key)
                },
            final(self).paired_peers == old(self).paired_peers,
            final(self).clipboard_history == old(self).clipboard_history,
    {
        let i = match crate::pairing::find_session(&self.pairing_sessions, session_id) {
            Some(i) => i,
            None => {
                return ;
            }
        };
        let mut s = self.pairing_sessions.remove(i);
        s.pin = Some(pin);
        s.peer_name = Some(peer_device_name);
        s.peer_public_key = Some(peer_public_key);
        s.state = crate::pairing::PairingState::AwaitingPinConfirmation;
        let ghost safter = s;
        self.pairing_sessions.insert(i, s);
        proof {
            assert(self.pairing_sessions@[i as int] == safter);
        }
    }

    /// The peer reported the pairing failed: record the reason.
    pub fn on_pairing_failed(&mut self, session_id: &str, error: String)
        requires
            old(self).wf(),
        ensures
            final(self).wf(),
            crate::pairing::has_session(old(self).pairing_sessions@, session_id@) ==> exists|
                i: int,
            |
                {
                    &&& 0 <= i < final(self).pairing_sessions@.len()
                    &&& final(self).pairing_sessions@[i].session_id@ == session_id@
                    &&& final(self).pairing_sessions@[i].state matches
                        crate::pairing::PairingState::Failed(m) && m == error
                },
            final(self).paired_peers == old(self).paired_peers,
    {
        let i = match crate::pairing::find_session(&self.pairing_sessions, session_id) {
            Some(i) => i,
            None => {
                return ;
            }
        };
        let mut s = self.pairing_sessions.remove(i);
        s.state = crate::pairing::PairingState::Failed(error);
        let ghost safter = s;
        self.pairing_sessions.insert(i, s);
        proof {
            assert(self.pairing_sessions@[i as int] == safter);
        }
    }

    /// Check a user-entered PIN against a session. A mismatch fails the
    /// session and returns `Rejected` (not an error). On a match the
    /// session awaits the peer; the initiator additionally derives the
    /// shared secret by ECDH and gets the confirmation to send.
    pub fn confirm_pairing(&mut self, session_id: &str, pin: &str, now_ms: i64) -> (r: Result<
        ConfirmOutcome,
        DecentPasteError,
    >)
        requires
            old(self).wf(),
        ensures
            final(self).wf(),
            !crate::pairing::has_session(old(self).pairing_sessions@, session_id@) ==> (r matches
                Err(e) && e is Pairing && *final(self) == *old(self)),
            (exists|i: int|
                {
                    &&& 0 <= i < old(self).pairing_sessions@.len()
                    &&& (#[trigger] old(self).pairing_sessions@[i]).session_id@ == session_id@
                    &&& (forall|j: int|
                        0 <= j < i ==> (#[trigger] old(self).pairing_sessions@[j]).session_id@
                            != session_id@)
                    &&& !old(self).pairing_sessions@[i].spec_expired(now_ms)
                    &&& crate::pairing::pin_matches(old(self).pairing_sessions@[i], pin@)
                    &&& (old(self).pairing_sessions@[i].is_initiator ==> (old(
                        self,
                    ).device_identity matches Some(ident) && (ident.private_key matches Some(
                        priv_key,
                    ) && priv_key@.len() == 32) && (old(
                        self,
                    ).pairing_sessions@[i].peer_public_key matches Some(pk) && pk@.len() == 32)))
                }) ==> r is Ok,
            r matches Ok(out) ==> exists|i: int|
                {
                    &&& 0 <= i < old(self).pairing_sessions@.len()
                    &&& old(self).pairing_sessions@[i].session_id@ == session_id@
                    &&& final(self).pairing_sessions@.len() == old(self).pairing_sessions@.len()
                    &&& (forall|j: int|
                        0 <= j < old(self).pairing_sessions@.len() && j != i ==> final(self).pairing_sessions@[j] == old(self).pairing_sessions@[j])
                    &&& (out is Rejected ==> !crate::pairing::pin_matches(
                        old(self).pairing_sessions@[i],
                        pin@,
                    ) && final(self).pairing_sessions@[i].state is Failed)
                    &&& (out matches ConfirmOutcome::Confirmed { send } ==> {
                        &&& crate::pairing::pin_matches(old(self).pairing_sessions@[i], pin@)
                        &&& final(self).pairing_sessions@[i].state is AwaitingPeerConfirmation
                        &&& (send is Some <==> old(self).pairing_sessions@[i].is_initiator)
                        &&& (send matches Some(action) ==> {
                            &&& old(self).device_identity matches Some(ident)
                            &&& ident.private_key matches Some(priv_key)
                            &&& old(self).pairing_sessions@[i].peer_public_key matches Some(
                                peer_key,
                            )
                            &&& action.shared_secret@ == x25519_shared_secret(
                                priv_key@,
                                peer_key@,
                            )
                            &&& action.shared_secret@.len() == 32
                            &&& action.peer_id@ == old(self).pairing_sessions@[i].peer_id@
                            &&& action.session_id@ == session_id@
                        })
                    })
                },
            final(self).paired_peers == old(self).paired_peers,
            final(self).clipboard_history == old(self).clipboard_history,
    {
        let i = match crate::pairing::find_session(&self.pairing_sessions, session_id) {
            Some(i) => i,
            None => {
                return Err(DecentPasteError::Pairing(String::from_str("Session not found")));
            }
        };
        let ghost pre = self.pairing_sessions@;
        let mut s = self.pairing_sessions.remove(i);
        let res = crate::pairing::confirm_session(&mut s, pin, now_ms);
        let confirmed = match res {
            Ok(b) => b,
            Err(e) => {
                self.pairing_sessions.insert(i, s);
                proof {
                    restore_frame(pre, self.pairing_sessions@, i as int);
                }
                return Err(e);
            }
        };
        if !confirmed {
            self.pairing_sessions.insert(i, s);
            proof {
                restore_frame(pre, self.pairing_sessions@, i as int);
            }
            return Ok(ConfirmOutcome::Rejected);
        }
        if !s.is_initiator {
            self.pairing_sessions.insert(i, s);
            proof {
                restore_frame(pre, self.pairing_sessions@, i as int);
            }
            return Ok(ConfirmOutcome::Confirmed { send: None });
        }
        // Initiator: derive the shared secret from our private key and the
        // responder's public key, and send it for verification.
        let private_key = match &self.device_identity {
            Some(ident) => match &ident.private_key {
                Some(p) => crate::protocol::clone_bytes(p),
                None => {
                    self.pairing_sessions.insert(i, s);
                    proof {
                        restore_frame(pre, self.pairing_sessions@, i as int);
                    }
                    return Err(
                        DecentPasteError::Pairing(String::from_str("Private key not found")),
                    );
                }
            },
            None => {
                self.pairing_sessions.insert(i, s);
                proof {
                    restore_frame(pre, self.pairing_sessions@, i as int);
                }
                return Err(DecentPasteError::NotInitialized);
            }
        };
        let peer_key = match &s.peer_public_key {
            Some(k) => crate::protocol::clone_bytes(k),
            None => {
                self.pairing_sessions.insert(i, s);
                proof {
                    restore_frame(pre, self.pairing_sessions@, i as int);
                }
                return Err(
                    DecentPasteError::Pairing(String::from_str("Peer public key not found")),
                );
            }
        };
        let shared_secret = match crate::crypto::derive_shared_secret(
            private_key.as_slice(),
            peer_key.as_slice(),
        ) {
            Ok(sec) => sec,
            Err(e) => {
                self.pairing_sessions.insert(i, s);
                proof {
                    restore_frame(pre, self.pairing_sessions@, i as int);
                }
                return Err(e);
            }
        };
        let action = PairingConfirmSend {
            peer_id: s.peer_id.clone(),
            session_id: String::from_str(session_id),
            shared_secret,
            device_name: match &self.device_identity {
                Some(ident) => ident.device_name.clone(),
                None => String::new(),
            },
        };
        self.pairing_sessions.insert(i, s);
        proof {
            restore_frame(pre, self.pairing_sessions@, i as int);
        }
        Ok(ConfirmOutcome::Confirmed { send: Some(action) })
    }

    /// Drop every session with this id.
    pub fn cancel_pairing(&mut self, session_id: &str)
        requires
            old(self).wf(),
        ensures
            final(self).wf(),
            !crate::pairing::has_session(final(self).pairing_sessions@, session_id@),
            final(self).paired_peers == old(self).paired_peers,
            final(self).clipboard_history == old(self).clipboard_history,
    {
        crate::pairing::remove_sessions(&mut self.pairing_sessions, session_id);
    }

    /// The peer's confirmation arrived: finish pairing. Each side derives
    /// the shared secret by ECDH from its own private key and the peer's
    /// public key; the responder additionally verifies it against what the
    /// initiator sent and fails the pairing on any mismatch — the MITM
    /// check. Only a verified secret is ever persisted.
    pub fn complete_pairing(
        &mut self,
        session_id: &str,
        peer_id: &str,
        received_secret: &Vec<u8>,
        now_ms: i64,
    ) -> (r: Result<(), DecentPasteError>)
        requires
            old(self).wf(),
        ensures
            final(self).wf(),
            !crate::pairing::has_session(old(self).pairing_sessions@, session_id@) ==> (r matches
                Err(e) && e is Pairing && *final(self) == *old(self)),
            r is Err ==> final(self).paired_peers@ == old(self).paired_peers@,
            (exists|i: int|
                {
                    &&& 0 <= i < old(self).pairing_sessions@.len()
                    &&& (#[trigger] old(self).pairing_sessions@[i]).session_id@ == session_id@
                    &&& (forall|j: int|
                        0 <= j < i ==> (#[trigger] old(self).pairing_sessions@[j]).session_id@
                            != session_id@)
                    &&& old(self).pairing_sessions@[i].peer_public_key matches Some(pk)
                    &&& pk@.len() == 32
                    &&& old(self).device_identity matches Some(ident)
                    &&& ident.private_key matches Some(priv_key)
                    &&& priv_key@.len() == 32
                    &&& (!old(self).pairing_sessions@[i].is_initiator ==> x25519_shared_secret(
                        priv_key@,
                        pk@,
                    ) == received_secret@)
                }) ==> r is Ok,
            (exists|i: int|
                {
                    &&& 0 <= i < old(self).pairing_sessions@.len()
                    &&& (#[trigger] old(self).pairing_sessions@[i]).session_id@ == session_id@
                    &&& (forall|j: int|
                        0 <= j < i ==> (#[trigger] old(self).pairing_sessions@[j]).session_id@
                            != session_id@)
                    &&& old(self).pairing_sessions@[i].peer_public_key matches Some(pk)
                    &&& pk@.len() == 32
                    &&& old(self).device_identity matches Some(ident)
                    &&& ident.private_key matches Some(priv_key)
                    &&& priv_key@.len() == 32
                    &&& !old(self).pairing_sessions@[i].is_initiator
                    &&& x25519_shared_secret(priv_key@, pk@) != received_secret@
                }) ==> ((r matches Err(e) && e is Pairing) && (exists|i: int|
                {
                    &&& 0 <= i < final(self).pairing_sessions@.len()
                    &&& (#[trigger] final(self).pairing_sessions@[i]).session_id@ == session_id@
                    &&& (final(self).pairing_sessions@[i].state matches
                        crate::pairing::PairingState::Failed(m) && m@
                        == "Key verification failed"@)
                })),
            r is Ok ==> spec_is_paired(final(self).paired_peers@, peer_id@),
            r is Ok ==> exists|i: int|
                {
                    &&& 0 <= i < old(self).pairing_sessions@.len()
                    &&& old(self).pairing_sessions@[i].session_id@ == session_id@
                    &&& old(self).device_identity matches Some(ident)
                    &&& ident.private_key matches Some(priv_key)
                    &&& old(self).pairing_sessions@[i].peer_public_key matches Some(peer_key)
                    &&& (!old(self).pairing_sessions@[i].is_initiator ==> x25519_shared_secret(
                        priv_key@,
                        peer_key@,
                    ) == received_secret@)
                    &&& (!spec_is_paired(old(self).paired_peers@, peer_id@) ==> (exists|w: int|
                        0 <= w < final(self).paired_peers@.len() && (#[trigger] final(self).paired_peers@[w]).peer_id@ == peer_id@ && final(self).paired_peers@[w].shared_secret@ == x25519_shared_secret(
                            priv_key@,
                            peer_key@,
                        )))
                },
    {
        let i = match crate::pairing::find_session(&self.pairing_sessions, session_id) {
            Some(i) => i,
            None => {
                return Err(DecentPasteError::Pairing(String::from_str("Session not found")));
            }
        };
        let ghost pre = self.pairing_sessions@;
        let mut s = self.pairing_sessions.remove(i);
        let private_key = match &self.device_identity {
            Some(ident) => match &ident.private_key {
                Some(p) => crate::protocol::clone_bytes(p),
                None => {
                    self.pairing_sessions.insert(i, s);
                    proof {
                        restore_frame(pre, self.pairing_sessions@, i as int);
                    }
                    return Err(
                        DecentPasteError::Pairing(String::from_str("Private key not found")),
                    );
                }
            },
            None => {
                self.pairing_sessions.insert(i, s);
                proof {
                    restore_frame(pre, self.pairing_sessions@, i as int);
                }
                return Err(DecentPasteError::NotInitialized);
            }
        };
        let peer_key = match &s.peer_public_key {
            Some(k) => crate::protocol::clone_bytes(k),
            None => {
                self.pairing_sessions.insert(i, s);
                proof {
                    restore_frame(pre, self.pairing_sessions@, i as int);
                }
                return Err(
                    DecentPasteError::Pairing(String::from_str("Peer public key missing")),
                );
            }
        };
        let derived = match crate::crypto::derive_shared_secret(
            private_key.as_slice(),
            peer_key.as_slice(),
        ) {
            Ok(sec) => sec,
            Err(e) => {
                self.pairing_sessions.insert(i, s);
                proof {
                    restore_frame(pre, self.pairing_sessions@, i as int);
                }
                return Err(e);
            }
        };
        if !s.is_initiator {
            // The MITM check: our independently derived secret must be the
            // one the initiator transmitted.
            let ok = crate::pairing::verify_and_complete(&mut s, &derived, received_secret);
            if !ok {
                let ghost safter = s;
                self.pairing_sessions.insert(i, s);
                proof {
                    restore_frame(pre, self.pairing_sessions@, i as int);
                    assert(self.pairing_sessions@[i as int] == safter);
                }
                return Err(
                    DecentPasteError::Pairing(String::from_str("Key verification failed")),
                );
            }
        } else {
            s.state = crate::pairing::PairingState::Completed;
        }
        let device_name = match &s.peer_name {
            Some(n) => n.clone(),
            None => String::from_str("Unknown Device"),
        };
        let addresses = crate::peers::clone_strings(&s.peer_addresses);
        self.pairing_sessions.insert(i, s);
        proof {
            restore_frame(pre, self.pairing_sessions@, i as int);
        }
        let was_paired = crate::peers::is_peer_paired(&self.paired_peers, peer_id);
        if !was_paired {
            let peer = PairedPeer {
                peer_id: String::from_str(peer_id),
                device_name,
                shared_secret: derived,
                paired_at: now_ms,
                last_seen: Some(now_ms),
                last_known_addresses: addresses,
            };
            self.paired_peers.push(peer);
            proof {
                let fin = self.paired_peers@;
                assert(fin[fin.len() - 1].peer_id@ == peer_id@);
                assert(fin[fin.len() - 1].shared_secret@ == x25519_shared_secret(
                    private_key@,
                    peer_key@,
                ));
                assert forall|a: int, b: int|
                    0 <= a < b < fin.len() implies fin[a].peer_id@ != fin[b].peer_id@ by {
                    if b < fin.len() - 1 {
                        assert(fin[a] == old(self).paired_peers@[a]);
                        assert(fin[b] == old(self).paired_peers@[b]);
                    } else {
                        assert(fin[a] == old(self).paired_peers@[a]);
                    }
                }
                assert forall|a: int|
                    0 <= a < fin.len() implies (#[trigger] fin[a]).wf() by {
                    if a < fin.len() - 1 {
                        assert(fin[a] == old(self).paired_peers@[a]);
                    }
                }
            }
        }
        crate::peers::remove_discovered(&mut self.discovered_peers, peer_id);
        proof {
            assert(spec_is_paired(self.paired_peers@, peer_id@));
        }
        Ok(())
    }

    /// The sessions that have not yet expired, for display.
    pub fn active_session_count(&self, now_ms: i64) -> (r: usize)
        ensures
            r <= self.pairing_sessions@.len(),
    {
        let mut count: usize = 0;
        let mut i: usize = 0;
        while i < self.pairing_sessions.len()
            invariant
                i <= self.pairing_sessions@.len(),
                count <= i,
            decreases self.pairing_sessions@.len() - i,
        {
            if !self.pairing_sessions[i].is_expired(now_ms) {
                count += 1;
            }
            i += 1;
        }
        count
    }

    /// Apply a settings update. A changed device name is written through to
    /// the identity (to be flushed and announced: the returned flag says
    /// so), and a reduced history limit trims the history.
    pub fn update_settings(&mut self, update: AppSettings) -> (r: bool)
        requires
            old(self).wf(),
            update.wf(),
        ensures
            final(self).wf(),
            r == (old(self).settings.device_name@ != update.device_name@),
            final(self).settings == update,
            r && old(self).device_identity is Some ==> (final(self).device_identity matches Some(
                id,
            ) && id.device_name@ == update.device_name@),
            final(self).paired_peers == old(self).paired_peers,
    {
        let name_changed = crate::settings::apply_settings_update(&mut self.settings, update);
        if name_changed {
            let taken = self.device_identity.take();
            match taken {
                Some(mut id) => {
                    id.device_name = self.settings.device_name.clone();
                    self.device_identity = Some(id);
                }
                None => {}
            }
        }
        crate::history::enforce_limit(
            &mut self.clipboard_history,
            self.settings.clipboard_history_limit,
        );
        name_changed
    }

    /// This device's id, for the frontend. Fails with `NotInitialized`
    /// until an identity exists.
    pub fn get_device_info(&self) -> (r: Result<DeviceInfo, DecentPasteError>)
        ensures
            r is Ok <==> self.device_identity is Some,
            r matches Ok(info) ==> (self.device_identity matches Some(id) && info.device_id@
                == id.device_id@ && info.peer_id is None),
            r matches Err(e) ==> e is NotInitialized,
    {
        match &self.device_identity {
            Some(id) => Ok(DeviceInfo { device_id: id.device_id.clone(), peer_id: None }),
            None => Err(DecentPasteError::NotInitialized),
        }
    }

    /// The current connection summary, without touching anything.
    pub fn get_connection_summary(&self) -> (r: ConnectionSummary)
        ensures
            r.total_peers == self.paired_peers@.len(),
            r.connected == crate::connect::spec_connected_count(
                self.paired_peers@,
                self.peer_connections@,
            ),
            r.failed == r.total_peers - r.connected,
    {
        connection_summary(&self.paired_peers, &self.peer_connections)
    }
}

/// Build the per-peer clipboard messages for one broadcast: one fresh id
/// per message, the content hash, and the content encrypted under each
/// peer's own shared secret. Succeeds on every content up to the AES-GCM
/// length bound.
fn build_clipboard_messages(
    content: &str,
    identity: &DeviceIdentity,
    peers: &Vec<PairedPeer>,
    now_ms: i64,
) -> (r: Result<Vec<ClipboardMessage>, DecentPasteError>)
    requires
        forall|i: int| 0 <= i < peers@.len() ==> (#[trigger] peers@[i]).wf(),
    ensures
        content.spec_bytes().len() <= crate::crypto::GCM_P_MAX ==> r is Ok,
        r matches Ok(msgs) ==> msgs@.len() == peers@.len(),
        r matches Ok(msgs) ==> (forall|i: int|
            0 <= i < msgs@.len() ==> {
                &&& (#[trigger] msgs@[i]).content_hash@ == sha256_hex_of(content@)
                &&& aes_gcm_open(msgs@[i].encrypted_content@, peers@[i].shared_secret@) == Some(
                    content.spec_bytes(),
                )
                &&& msgs@[i].timestamp == now_ms
                &&& msgs@[i].origin_device_id@ == identity.device_id@
                &&& msgs@[i].origin_device_name@ == identity.device_name@
            }),
        r matches Err(e) ==> e is Encryption,
{
    let content_hash = crate::crypto::hash_content(content);
    let content_bytes = content.as_bytes();
    let mut msgs: Vec<ClipboardMessage> = Vec::new();
    let mut i: usize = 0;
    while i < peers.len()
        invariant
            i <= peers@.len(),
            msgs@.len() == i,
            content_hash@ == sha256_hex_of(content@),
            content_bytes@ == content.spec_bytes(),
            forall|k: int| 0 <= k < peers@.len() ==> (#[trigger] peers@[k]).wf(),
            forall|j: int|
                0 <= j < i ==> {
                    &&& (#[trigger] msgs@[j]).content_hash@ == sha256_hex_of(content@)
                    &&& aes_gcm_open(msgs@[j].encrypted_content@, peers@[j].shared_secret@)
                        == Some(content.spec_bytes())
                    &&& msgs@[j].timestamp == now_ms
                    &&& msgs@[j].origin_device_id@ == identity.device_id@
                    &&& msgs@[j].origin_device_name@ == identity.device_name@
                },
        decreases peers@.len() - i,
    {
        let encrypted = match crate::crypto::encrypt_content(
            content_bytes,
            peers[i].shared_secret.as_slice(),
        ) {
            Ok(blob) => blob,
            Err(_) => {
                return Err(
                    DecentPasteError::Encryption(String::from_str("encryption failed for a peer")),
                );
            }
        };
        let msg = ClipboardMessage {
            id: crate::crypto::new_uuid(),
            content_hash: content_hash.clone(),
            encrypted_content: encrypted,
            timestamp: now_ms,
            origin_device_id: identity.device_id.clone(),
            origin_device_name: identity.device_name.clone(),
        };
        msgs.push(msg);
        i += 1;
    }
    Ok(msgs)
}

/// What to do with a received clipboard message.
pub enum ReceiveOutcome {
    /// Our own echo, or nothing decrypts to text matching the hash.
    Ignored,
    /// Write `content` to the OS clipboard (the app is in the foreground).
    Applied { content: String, from_device: String },
    /// Stored as pending, to be applied on the next resume.
    Queued { from_device: String },
}

/// Whether the message opens under this peer's secret to a text whose hash
/// is the one carried.
pub open spec fn spec_readable(peer: PairedPeer, msg: ClipboardMessage) -> bool {
    &&& msg.encrypted_content@.len() >= 12
    &&& exists|content: Seq<char>|
        aes_gcm_open(msg.encrypted_content@, peer.shared_secret@) == Some(
            vstd::utf8::encode_utf8(content),
        ) && sha256_hex_of(content) == msg.content_hash@
}

/// What the frontend is told about this device.
pub struct DeviceInfo {
    pub device_id: String,
    /// The overlay peer id, once the network is up.
    pub peer_id: Option<String>,
}

/// What `process_pending_clipboard` hands to the frontend.
pub struct PendingClipboardResponse {
    pub content: String,
    pub from_device: String,
}

/// What `confirm_pairing` decided.
pub enum ConfirmOutcome {
    /// The entered PIN did not match; the session failed.
    Rejected,
    /// The PIN matched. The initiator gets the confirmation to send; the
    /// responder just waits for the initiator's message.
    Confirmed { send: Option<PairingConfirmSend> },
}

/// The confirmation an initiator sends after its user entered the right
/// PIN: the derived shared secret travels to the responder for
/// verification.
pub struct PairingConfirmSend {
    pub peer_id: String,
    pub session_id: String,
    pub shared_secret: Vec<u8>,
    pub device_name: String,
}

/// After removing the element at `i` and inserting one back at `i`, every
/// other position is unchanged.
proof fn restore_frame(pre: Seq<PairingSession>, fin: Seq<PairingSession>, i: int)
    requires
        0 <= i < pre.len(),
        fin.len() == pre.len(),
        fin == pre.remove(i).insert(i, fin[i]),
    ensures
        forall|j: int| 0 <= j < pre.len() && j != i ==> fin[j] == pre[j],
{
    assert forall|j: int| 0 <= j < pre.len() && j != i implies fin[j] == pre[j] by {
        if j < i {
            assert(fin[j] == pre.remove(i)[j]);
            assert(pre.remove(i)[j] == pre[j]);
        } else {
            assert(fin[j] == pre.remove(i)[j - 1]);
            assert(pre.remove(i)[j - 1] == pre[j]);
        }
    }
}

} // verus!
