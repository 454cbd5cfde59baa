use decentpaste::connect::{next_retry, retry_due};
use decentpaste::engine::AppCore;
use decentpaste::history::{clear_history, history_prefix, insert_entry, ClipboardEntry};
use decentpaste::pairing::PairingSession;
use decentpaste::secretstore::{SecretStorageMethod, SecretStorageStatus};
use decentpaste::sync::{resolve_conflict, ConflictResolution, SyncManager};

fn entry(content: &str, hash: &str, ts: i64) -> ClipboardEntry {
    ClipboardEntry::new_remote(
        String::from(content),
        String::from(hash),
        ts,
        "dev-remote",
        "Remote",
    )
}

#[test]
fn test_history_sorted_newest_first_with_dedup() {
    let mut history: Vec<ClipboardEntry> = Vec::new();
    insert_entry(&mut history, entry("a", "ha", 100), 10);
    insert_entry(&mut history, entry("c", "hc", 300), 10);
    insert_entry(&mut history, entry("b", "hb", 200), 10);

    assert_eq!(history.len(), 3);
    assert_eq!(history[0].content_hash, "hc");
    assert_eq!(history[1].content_hash, "hb");
    assert_eq!(history[2].content_hash, "ha");
    for w in history.windows(2) {
        assert!(w[0].timestamp > w[1].timestamp);
    }

    // Re-inserting the same hash moves it, never duplicates it.
    insert_entry(&mut history, entry("a", "ha", 400), 10);
    assert_eq!(history.len(), 3);
    assert_eq!(history[0].content_hash, "ha");
    assert_eq!(history[0].timestamp, 400);
    let count = history.iter().filter(|e| e.content_hash == "ha").count();
    assert_eq!(count, 1);
}

#[test]
fn test_history_respects_limit() {
    let mut history: Vec<ClipboardEntry> = Vec::new();
    let mut i: i64 = 0;
    while i < 6 {
        let h = format!("h{}", i);
        insert_entry(&mut history, entry("x", &h, i * 10), 3);
        i += 1;
    }
    assert_eq!(history.len(), 3);
    // The newest three survive.
    assert_eq!(history[0].content_hash, "h5");
    assert_eq!(history[1].content_hash, "h4");
    assert_eq!(history[2].content_hash, "h3");
}

#[test]
fn test_history_prefix_and_clear() {
    let mut history: Vec<ClipboardEntry> = Vec::new();
    insert_entry(&mut history, entry("a", "ha", 100), 10);
    insert_entry(&mut history, entry("b", "hb", 200), 10);

    let top = history_prefix(&history, 1);
    assert_eq!(top.len(), 1);
    assert_eq!(top[0].content_hash, "hb");

    clear_history(&mut history);
    assert!(history.is_empty());
}

#[test]
fn test_preview_truncates_long_content() {
    let e = entry("hello world", "h", 1);
    assert_eq!(e.preview(20), "hello world");
    assert_eq!(e.preview(5), "hello...");
}

#[test]
fn test_should_broadcast_rule() {
    let mut sync = SyncManager::new();

    // A fresh local change is broadcast, and becomes the last local hash.
    assert!(sync.should_broadcast("h1", true, 1000));
    // The same hash again is no change.
    assert!(!sync.should_broadcast("h1", true, 1001));
    // A remote-tagged change is never broadcast.
    assert!(!sync.should_broadcast("h2", false, 1002));

    // A recently received hash is suppressed while its TTL lasts.
    sync.on_received("h3", 2000);
    assert!(!sync.should_broadcast("h3", true, 2001));

    // After the 10-second TTL (and with another local hash), it may go out.
    sync.set_local_hash(String::from("h1"));
    assert!(!sync.should_broadcast("h3", true, 11000));  // 9 s: still live
    assert!(sync.should_broadcast("h3", true, 12001));  // 10 s passed
}

#[test]
fn test_on_received_marks_clipboard() {
    let mut sync = SyncManager::new();
    // New content is applied; identical content is not re-applied.
    assert!(sync.on_received("h7", 100));
    assert!(!sync.on_received("h7", 200));
}

#[test]
fn test_recent_hashes_halved_on_overflow() {
    let mut sync = SyncManager::new();
    let mut i: usize = 0;
    while i < 120 {
        let h = format!("hash{}", i);
        sync.on_received(&h, i as i64);
        i += 1;
    }
    assert!(sync.recent_hashes.len() <= 100);
}

#[test]
fn test_resolve_conflict_prefers_clear_winner() {
    assert_eq!(resolve_conflict(1000, 2000), ConflictResolution::UseRemote);
    assert_eq!(resolve_conflict(2000, 1000), ConflictResolution::KeepLocal);
    // Near-simultaneous changes keep the local side.
    assert_eq!(resolve_conflict(1000, 1050), ConflictResolution::KeepLocal);
    assert_eq!(resolve_conflict(1050, 1000), ConflictResolution::KeepLocal);
}

#[test]
fn test_retry_schedule_is_bounded() {
    let r = next_retry(String::from("p"), String::from("/ip4/192.0.2.1/tcp/1"), 0, 1000).unwrap();
    assert_eq!(r.retry_count, 1);
    assert_eq!(r.next_retry_at, 3000);
    assert!(!retry_due(&r, 2999));
    assert!(retry_due(&r, 3000));

    assert!(next_retry(String::from("p"), String::from("a"), 2, 0).is_some());
    // The fourth failure exhausts the three attempts.
    assert!(next_retry(String::from("p"), String::from("a"), 3, 0).is_none());
}

#[test]
fn test_secret_storage_status_constructors() {
    let ok = SecretStorageStatus::available(SecretStorageMethod::LinuxSecretService);
    assert!(ok.available);
    assert_eq!(ok.method, Some(SecretStorageMethod::LinuxSecretService));
    assert!(ok.unavailable_reason.is_none());

    let no = SecretStorageStatus::unavailable(String::from("no keyring daemon"));
    assert!(!no.available);
    assert!(no.method.is_none());
    assert_eq!(no.unavailable_reason.as_deref(), Some("no keyring daemon"));
}

#[test]
fn test_active_session_count_skips_expired() {
    let mut core = AppCore::new();
    core.pairing_sessions.push(PairingSession::new(String::from("s1"), String::from("p1"), true, 0));
    core.pairing_sessions.push(PairingSession::new(String::from("s2"), String::from("p2"), true, 400_000));
    assert_eq!(core.active_session_count(500_000), 1);
}
