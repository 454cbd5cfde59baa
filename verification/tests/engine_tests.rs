use decentpaste::buffers::{buffer_append, buffer_expire, buffer_hashes, missing_hashes};
use decentpaste::connect::ConnectionStatus;
use decentpaste::crypto::x25519_public_key;
use decentpaste::engine::{AppCore, ConfirmOutcome, ReceiveOutcome};
use decentpaste::events::agent_device_name;
use decentpaste::peers::DiscoveredPeer;
use decentpaste::settings::AppSettings;
use decentpaste::errors::DecentPasteError;
use decentpaste::history::ClipboardEntry;
use decentpaste::identity::DeviceIdentity;
use decentpaste::pairing::{confirm_session, respond_session, PairingSession, PairingState};
use decentpaste::peers::PairedPeer;
use decentpaste::protocol::ClipboardMessage;

fn identity_with(priv_key: Vec<u8>, device_id: &str, name: &str) -> DeviceIdentity {
    let public_key = x25519_public_key(&priv_key);
    DeviceIdentity {
        device_id: String::from(device_id),
        device_name: String::from(name),
        public_key,
        private_key: Some(priv_key),
        created_at: 0,
    }
}

fn paired(peer_id: &str, name: &str, secret: [u8; 32]) -> PairedPeer {
    PairedPeer {
        peer_id: String::from(peer_id),
        device_name: String::from(name),
        shared_secret: secret.to_vec(),
        paired_at: 0,
        last_seen: None,
        last_known_addresses: vec![String::from("/ip4/192.0.2.7/tcp/4001")],
    }
}

fn core_with_peer(device_id: &str, secret: [u8; 32]) -> AppCore {
    let mut core = AppCore::new();
    core.device_identity = Some(identity_with(vec![0x11u8; 32], device_id, "Device"));
    core.paired_peers.push(paired("peer-b", "Other", secret));
    core
}

#[test]
fn test_oversize_clipboard_rejected_without_changes() {
    let mut core = core_with_peer("dev-a", [9u8; 32]);
    let too_big = "a".repeat(1024 * 1024 + 1);
    let r = core.share_content(&too_big, 100);
    assert!(matches!(r, Err(DecentPasteError::InvalidInput(_))));
    assert!(core.clipboard_history.is_empty());
    assert!(core.buffers.entries.is_empty());

    // Exactly 1 MiB is accepted.
    let max = "a".repeat(1024 * 1024);
    let r = core.share_content(&max, 200);
    assert!(r.is_ok());
    assert_eq!(core.clipboard_history.len(), 1);
}

#[test]
fn test_share_requires_identity_and_peers() {
    let mut empty = AppCore::new();
    assert!(matches!(
        empty.share_content("hi", 1),
        Err(DecentPasteError::NotInitialized)
    ));
    empty.device_identity = Some(identity_with(vec![0x12u8; 32], "dev-x", "X"));
    assert!(matches!(
        empty.share_content("hi", 2),
        Err(DecentPasteError::NoPeersAvailable)
    ));
}

#[test]
fn test_clipboard_send_and_receive_with_echo_suppression() {
    let secret = [9u8; 32];
    let mut a = core_with_peer("dev-a", secret);
    let mut b = AppCore::new();
    b.device_identity = Some(identity_with(vec![0x13u8; 32], "dev-b", "B"));
    b.paired_peers.push(paired("peer-a", "A", secret));

    // A shares "hello": one message per paired peer, carrying the SHA-256.
    let msgs = a.share_content("hello", 1000).unwrap();
    assert_eq!(msgs.len(), 1);
    let expected_hash = hex::encode(<sha2::Sha256 as sha2::Digest>::digest(b"hello"));
    assert_eq!(msgs[0].content_hash, expected_hash);
    assert_eq!(a.clipboard_history.len(), 1);
    assert_eq!(a.clipboard_history[0].content_hash, expected_hash);

    // B receives it: decrypts, verifies the hash, applies, records history.
    let outcome = b.on_clipboard_received(&msgs[0], 1001);
    match outcome {
        ReceiveOutcome::Applied { content, from_device } => {
            assert_eq!(content, "hello");
            assert_eq!(from_device, "Device");
        }
        _ => panic!("expected the content to be applied"),
    }
    assert_eq!(b.clipboard_history.len(), 1);
    assert_eq!(b.clipboard_history[0].content_hash, expected_hash);

    // The next local poll on B sees "hello" again: echo-suppressed.
    let echo = b.on_local_clipboard_change("hello", 1002).unwrap();
    assert!(echo.is_none());

    // B's own self-sent message is ignored outright.
    let own = b.share_content("mine", 2000).unwrap();
    let self_echo = b.on_clipboard_received(&own[0], 2001);
    assert!(matches!(self_echo, ReceiveOutcome::Ignored));
}

#[test]
fn test_receive_queues_in_background() {
    let secret = [4u8; 32];
    let mut a = core_with_peer("dev-a", secret);
    let mut b = AppCore::new();
    b.device_identity = Some(identity_with(vec![0x14u8; 32], "dev-b", "B"));
    b.paired_peers.push(paired("peer-a", "A", secret));
    b.set_visibility(false);

    let msgs = a.share_content("later", 50).unwrap();
    let outcome = b.on_clipboard_received(&msgs[0], 51);
    assert!(matches!(outcome, ReceiveOutcome::Queued { .. }));

    let pending = b.take_pending_clipboard().unwrap();
    assert_eq!(pending.content, "later");
    assert_eq!(pending.from_device, "Device");
    assert!(b.is_foreground);
    assert!(b.take_pending_clipboard().is_none());
}

#[test]
fn test_receive_ignores_undecryptable_message() {
    let mut b = AppCore::new();
    b.device_identity = Some(identity_with(vec![0x15u8; 32], "dev-b", "B"));
    b.paired_peers.push(paired("peer-a", "A", [1u8; 32]));

    let mut a = core_with_peer("dev-a", [2u8; 32]);  // different secret
    let msgs = a.share_content("nope", 10).unwrap();
    let outcome = b.on_clipboard_received(&msgs[0], 11);
    assert!(matches!(outcome, ReceiveOutcome::Ignored));
    assert!(b.clipboard_history.is_empty());
}

#[test]
fn test_pair_and_complete_with_known_keys() {
    let priv_a = vec![0x01u8; 32];
    let priv_b = vec![0x02u8; 32];
    let pub_b = x25519_public_key(&priv_b);
    let expected =
        decentpaste::crypto::derive_shared_secret(&priv_a, &pub_b).unwrap();

    let mut a = AppCore::new();
    a.device_identity = Some(identity_with(priv_a.clone(), "dev-a", "A"));
    let mut b = AppCore::new();
    b.device_identity = Some(identity_with(priv_b.clone(), "dev-b", "B"));

    // Step 1: A initiates and would send the request to B.
    let (sid, request) = a.initiate_pairing("peer-b", 0).unwrap();
    assert_eq!(request.session_id, sid);

    // Step 2: B adopts the session and generates the PIN.
    b.on_pairing_request(request, "peer-a", 0);
    let pin = b.respond_to_pairing(&sid, true, 1000).unwrap().unwrap();
    assert_eq!(pin.len(), 6);

    // Both users see the PIN; A learns B's name and public key.
    a.on_pairing_pin_ready(&sid, pin.clone(), String::from("B"), pub_b.clone());

    // Step 3: both confirm. The initiator derives the secret to transmit.
    let a_out = a.confirm_pairing(&sid, &pin, 2000).unwrap();
    let send = match a_out {
        ConfirmOutcome::Confirmed { send: Some(send) } => send,
        _ => panic!("initiator must produce a confirmation to send"),
    };
    assert_eq!(send.shared_secret, expected);
    let b_out = b.confirm_pairing(&sid, &pin, 2000).unwrap();
    assert!(matches!(b_out, ConfirmOutcome::Confirmed { send: None }));

    // Step 4: B verifies the transmitted secret against its own derivation.
    b.complete_pairing(&sid, "peer-a", &send.shared_secret, 3000).unwrap();
    a.complete_pairing(&sid, "peer-b", &send.shared_secret, 3000).unwrap();

    assert_eq!(a.paired_peers.len(), 1);
    assert_eq!(b.paired_peers.len(), 1);
    assert_eq!(a.paired_peers[0].shared_secret, expected);
    assert_eq!(b.paired_peers[0].shared_secret, expected);
}

#[test]
fn test_mismatched_secret_fails_pairing() {
    let priv_a = vec![0x01u8; 32];
    let priv_b = vec![0x02u8; 32];
    let pub_a = x25519_public_key(&priv_a);

    let mut b = AppCore::new();
    b.device_identity = Some(identity_with(priv_b, "dev-b", "B"));
    b.on_pairing_request(
        decentpaste::protocol::PairingRequest {
            session_id: String::from("sess-1"),
            device_name: String::from("A"),
            device_id: String::from("dev-a"),
            public_key: pub_a,
        },
        "peer-a",
        0,
    );
    let pin = b.respond_to_pairing("sess-1", true, 100).unwrap().unwrap();
    b.confirm_pairing("sess-1", &pin, 200).unwrap();

    // A man in the middle hands B a different secret: the pairing fails
    // and nothing is persisted.
    let forged = vec![0xAAu8; 32];
    let r = b.complete_pairing("sess-1", "peer-a", &forged, 300);
    assert!(matches!(r, Err(DecentPasteError::Pairing(_))));
    assert!(b.paired_peers.is_empty());
}

#[test]
fn test_wrong_pin_rejects_without_error() {
    let mut b = AppCore::new();
    b.device_identity = Some(identity_with(vec![0x16u8; 32], "dev-b", "B"));
    b.on_pairing_request(
        decentpaste::protocol::PairingRequest {
            session_id: String::from("sess-2"),
            device_name: String::from("A"),
            device_id: String::from("dev-a"),
            public_key: vec![7u8; 32],
        },
        "peer-a",
        0,
    );
    let pin = b.respond_to_pairing("sess-2", true, 100).unwrap().unwrap();
    let wrong = if pin == "000000" { "000001" } else { "000000" };
    let out = b.confirm_pairing("sess-2", wrong, 200).unwrap();
    assert!(matches!(out, ConfirmOutcome::Rejected));
}

#[test]
fn test_respond_is_idempotent_and_already_paired_refused() {
    let mut b = AppCore::new();
    b.device_identity = Some(identity_with(vec![0x17u8; 32], "dev-b", "B"));
    b.on_pairing_request(
        decentpaste::protocol::PairingRequest {
            session_id: String::from("sess-3"),
            device_name: String::from("A"),
            device_id: String::from("dev-a"),
            public_key: vec![7u8; 32],
        },
        "peer-a",
        0,
    );
    let pin1 = b.respond_to_pairing("sess-3", true, 100).unwrap().unwrap();
    let pin2 = b.respond_to_pairing("sess-3", true, 150).unwrap().unwrap();
    assert_eq!(pin1, pin2, "a duplicate answer returns the existing PIN");

    b.paired_peers.push(paired("peer-c", "C", [3u8; 32]));
    assert!(matches!(
        b.initiate_pairing("peer-c", 200),
        Err(DecentPasteError::AlreadyPaired(_))
    ));
}

#[test]
fn test_session_timeout_boundary() {
    // At 4:59 the session still answers; at 5:01 it times out.
    let mut fresh = PairingSession::new(String::from("s"), String::from("p"), false, 0);
    let r = respond_session(&mut fresh, true, 299_000);
    assert!(r.unwrap().is_some());

    let mut stale = PairingSession::new(String::from("s"), String::from("p"), false, 0);
    let r = respond_session(&mut stale, true, 301_000);
    assert!(matches!(r, Err(DecentPasteError::PairingTimeout)));
    assert!(matches!(stale.state, PairingState::Failed(_)));

    let mut stale2 = PairingSession::new(String::from("s"), String::from("p"), true, 0);
    stale2.pin = Some(String::from("123456"));
    let r = confirm_session(&mut stale2, "123456", 301_000);
    assert!(matches!(r, Err(DecentPasteError::PairingTimeout)));
}

fn msg_with(hash: &str, ts: i64) -> ClipboardMessage {
    ClipboardMessage {
        id: format!("id-{}", ts),
        content_hash: String::from(hash),
        encrypted_content: vec![0u8; 40],
        timestamp: ts,
        origin_device_id: String::from("dev-a"),
        origin_device_name: String::from("A"),
    }
}

#[test]
fn test_offline_buffer_truncates_to_newest() {
    let mut buf: Vec<ClipboardMessage> = Vec::new();
    for ts in [10, 20, 30, 40, 50] {
        buffer_append(&mut buf, msg_with(&format!("h{}", ts), ts), 3);
    }
    assert_eq!(buf.len(), 3);
    assert_eq!(buf[0].timestamp, 30);
    assert_eq!(buf[1].timestamp, 40);
    assert_eq!(buf[2].timestamp, 50);
}

#[test]
fn test_offline_buffer_drops_expired_on_read() {
    let mut buf: Vec<ClipboardMessage> = Vec::new();
    buffer_append(&mut buf, msg_with("old", 1000), 10);
    buffer_append(&mut buf, msg_with("new", 3000), 10);
    buffer_expire(&mut buf, 1500, 3600);
    let hashes = buffer_hashes(&buf);
    assert_eq!(hashes, vec![String::from("new")]);
}

#[test]
fn test_offline_resync_flow() {
    let secret = [9u8; 32];
    let mut a = core_with_peer("dev-a", secret);
    let mut b = AppCore::new();
    b.device_identity = Some(identity_with(vec![0x18u8; 32], "dev-b", "B"));
    b.paired_peers.push(paired("peer-a", "A", secret));

    // B is offline; A shares "x" then "y". Both are buffered for B.
    a.share_content("x", 1000).unwrap();
    a.share_content("y", 2000).unwrap();

    // B reconnects and asks what it missed.
    let offered = a.buffers.hashes_for("peer-b", 300_000, 2500);
    assert_eq!(offered.len(), 2);
    let missing = missing_hashes(&b.clipboard_history, &offered);
    assert_eq!(missing.len(), 2);

    // B pulls each missing item; A serves and removes it from the buffer.
    for h in &missing {
        let msg = a.buffers.take_for("peer-b", h).unwrap();
        let outcome = b.on_clipboard_received(&msg, 3000);
        assert!(!matches!(outcome, ReceiveOutcome::Ignored));
    }

    // B's history holds both, newest first; A's buffer for B is empty.
    assert_eq!(b.clipboard_history.len(), 2);
    assert_eq!(b.clipboard_history[0].content, "y");
    assert_eq!(b.clipboard_history[1].content, "x");
    assert!(a.buffers.hashes_for("peer-b", 300_000, 3500).is_empty());
}

#[test]
fn test_refresh_connections_reports_offline_peers() {
    let mut core = AppCore::new();
    core.device_identity = Some(identity_with(vec![0x19u8; 32], "dev-a", "A"));
    core.paired_peers.push(paired("peer-1", "One", [1u8; 32]));
    core.paired_peers.push(paired("peer-2", "Two", [2u8; 32]));

    // Both peers offline: the barrier dials both, then reports them failed.
    let to_dial = core.begin_reconnect();
    assert_eq!(to_dial.len(), 2);
    let summary = core.finish_reconnect();
    assert_eq!(summary.total_peers, 2);
    assert_eq!(summary.connected, 0);
    assert_eq!(summary.failed, 2);

    // One peer comes up: the summary follows.
    core.on_peer_ready("peer-1", 5000);
    let summary = core.get_connection_summary();
    assert_eq!(summary.connected, 1);
    assert_eq!(summary.failed, 1);

    // A second barrier only dials the remaining peer.
    let to_dial = core.begin_reconnect();
    assert_eq!(to_dial, vec![String::from("peer-2")]);
    core.finish_reconnect();
    assert!(matches!(
        core.peer_connections.iter().find(|c| c.peer_id == "peer-2").unwrap().state.status,
        ConnectionStatus::Disconnected
    ));
}

#[test]
fn test_remove_paired_peer_resurfaces_discovery() {
    let mut core = core_with_peer("dev-a", [8u8; 32]);
    let removed = core.remove_paired("peer-b", 100).unwrap();
    assert_eq!(removed.0, "peer-b");
    assert_eq!(removed.1, "Other");
    assert!(core.paired_peers.is_empty());
    assert_eq!(core.discovered_peers.len(), 1);
    assert_eq!(core.discovered_peers[0].peer_id, "peer-b");

    let listed = core.get_discovered_peers();
    assert_eq!(listed.len(), 1);
}

#[test]
fn test_history_entry_from_share_carries_metadata() {
    let mut core = core_with_peer("dev-a", [5u8; 32]);
    core.share_content("note", 42).unwrap();
    let top: &ClipboardEntry = &core.clipboard_history[0];
    assert!(top.is_local);
    assert_eq!(top.timestamp, 42);
    assert_eq!(top.origin_device_name, "Device");
    assert_eq!(top.content, "note");
}

#[test]
fn test_agent_device_name_parsing() {
    assert_eq!(agent_device_name("decentpaste/0.3.1/My Laptop"), "My Laptop");
    assert_eq!(agent_device_name("decentpaste/1.0/a/b"), "a/b");
    assert_eq!(agent_device_name("decentpaste/justversion"), "decentpaste/justversion");
    assert_eq!(agent_device_name("rust-libp2p/0.45"), "rust-libp2p/0.45");
    assert_eq!(agent_device_name(""), "");
}

#[test]
fn test_update_settings_renames_and_trims() {
    let mut core = core_with_peer("dev-a", [6u8; 32]);
    core.share_content("one", 10).unwrap();
    core.share_content("two", 20).unwrap();
    core.share_content("three", 30).unwrap();

    let mut update = AppSettings::default();
    update.device_name = String::from("Renamed");
    update.clipboard_history_limit = 2;
    let announce = core.update_settings(update);
    assert!(announce);
    assert_eq!(core.settings.device_name, "Renamed");
    assert_eq!(core.device_identity.as_ref().unwrap().device_name, "Renamed");
    assert_eq!(core.clipboard_history.len(), 2);
    assert_eq!(core.clipboard_history[0].content, "three");

    // The same name again does not announce.
    let mut update2 = AppSettings::default();
    update2.device_name = String::from("Renamed");
    assert!(!core.update_settings(update2));
}

#[test]
fn test_peer_discovery_updates_paired_addresses() {
    let mut core = core_with_peer("dev-a", [7u8; 32]);
    let seen = DiscoveredPeer {
        peer_id: String::from("peer-b"),
        device_name: Some(String::from("Other")),
        addresses: vec![String::from("/ip4/203.0.113.9/tcp/4001")],
        discovered_at: 500,
        is_paired: true,
    };
    let must_flush = core.on_peer_discovered(seen, 500);
    assert!(must_flush);
    assert_eq!(
        core.paired_peers[0].last_known_addresses,
        vec![String::from("/ip4/203.0.113.9/tcp/4001")]
    );
    assert_eq!(core.paired_peers[0].last_seen, Some(500));

    // An unknown peer lands in the discovered list instead.
    let unknown = DiscoveredPeer {
        peer_id: String::from("peer-x"),
        device_name: None,
        addresses: vec![],
        discovered_at: 600,
        is_paired: false,
    };
    assert!(!core.on_peer_discovered(unknown, 600));
    assert_eq!(core.discovered_peers.len(), 1);
    core.on_peer_lost("peer-x");
    assert!(core.discovered_peers.is_empty());
}

#[test]
fn test_peer_name_update_flows_to_paired_list() {
    let mut core = core_with_peer("dev-a", [3u8; 32]);
    let changed = core.on_peer_name_updated("peer-b", "Fresh Name");
    assert!(changed);
    assert_eq!(core.paired_peers[0].device_name, "Fresh Name");
    assert!(!core.on_peer_name_updated("peer-b", "Fresh Name"));
}
