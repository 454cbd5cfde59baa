//! Echo suppression and conflict resolution for clipboard synchronization.
//!
//! The sync manager remembers recently received content hashes for a short
//! time and the hash last seen locally; a change is broadcast only when it
//! is local, differs from the last broadcast, and is not a recent receipt.

use vstd::prelude::*;

use crate::text::{opt_string_is, str_eq};

verus! {

/// How long a received hash suppresses re-broadcast, in milliseconds.
pub const RECENT_HASH_TTL_MS: i64 = 10000;

/// At most this many received hashes are remembered; on overflow the set is
/// halved, oldest first.
pub const MAX_RECENT_HASHES: usize = 100;

/// A received content hash and when it was seen.
pub struct RecentHash {
    pub hash: String,
    /// Unix time in milliseconds.
    pub seen_at: i64,
}

/// Whether a remembered hash is still within its time-to-live at `now_ms`.
pub open spec fn live(e: RecentHash, now_ms: i64) -> bool {
    now_ms - e.seen_at < RECENT_HASH_TTL_MS
}

/// Whether some remembered hash equals `hash` and is still live.
pub open spec fn recent_live(rh: Seq<RecentHash>, hash: Seq<char>, now_ms: i64) -> bool {
    exists|i: int| 0 <= i < rh.len() && rh[i].hash@ == hash && live(rh[i], now_ms)
}

/// Echo-suppression state: recently received hashes and the hash of the
/// clipboard content last seen or broadcast locally.
pub struct SyncManager {
    pub recent_hashes: Vec<RecentHash>,
    pub local_hash: Option<String>,
}

/// Whether the manager's last-seen local hash is `hash`.
pub open spec fn local_is(m: SyncManager, hash: Seq<char>) -> bool {
    m.local_hash matches Some(h) && h@ == hash
}

/// The echo-suppression rule: broadcast exactly the local changes whose hash
/// differs from the last broadcast and is not a live recent receipt.
pub open spec fn spec_should_broadcast(
    m: SyncManager,
    hash: Seq<char>,
    is_local: bool,
    now_ms: i64,
) -> bool {
    &&& is_local
    &&& !local_is(m, hash)
    &&& !recent_live(m.recent_hashes@, hash, now_ms)
}

impl SyncManager {
    /// The remembered hashes are ordered by time, carry distinct hashes, and
    /// stay within the size bound.
    pub open spec fn wf(&self) -> bool {
        &&& forall|a: int, b: int|
            0 <= a < b < self.recent_hashes@.len() ==> self.recent_hashes@[a].seen_at
                <= self.recent_hashes@[b].seen_at
        &&& forall|a: int, b: int|
            0 <= a < b < self.recent_hashes@.len() ==> self.recent_hashes@[a].hash@
                != self.recent_hashes@[b].hash@
        &&& self.recent_hashes@.len() <= MAX_RECENT_HASHES
    }

    /// An empty manager: nothing received, nothing broadcast.
    pub fn new() -> (r: SyncManager)
        ensures
            r.wf(),
            r.recent_hashes@.len() == 0,
            r.local_hash is None,
    {
        SyncManager { recent_hashes: Vec::new(), local_hash: None }
    }

    /// Record the hash of content just written to the local clipboard, so
    /// the next poll does not treat it as a new local change.
    pub fn set_local_hash(&mut self, hash: String)
        requires
            old(self).wf(),
        ensures
            final(self).wf(),
            final(self).local_hash == Some(hash),
            final(self).recent_hashes == old(self).recent_hashes,
    {
        self.local_hash = Some(hash);
    }

    /// Drop every remembered hash whose time-to-live has passed. Live
    /// entries survive, in order; nothing else changes.
    #[verifier::loop_isolation(false)]
    pub fn cleanup_expired(&mut self, now_ms: i64)
        requires
            old(self).wf(),
        ensures
            final(self).wf(),
            final(self).local_hash == old(self).local_hash,
            forall|i: int|
                0 <= i < final(self).recent_hashes@.len() ==> live(
                    #[trigger] final(self).recent_hashes@[i],
                    now_ms,
                ) && old(self).recent_hashes@.contains(final(self).recent_hashes@[i]),
            forall|j: int|
                0 <= j < old(self).recent_hashes@.len() && live(
                    #[trigger] old(self).recent_hashes@[j],
                    now_ms,
                ) ==> final(self).recent_hashes@.contains(old(self).recent_hashes@[j]),
    {
        let mut k: usize = 0;
        while k < self.recent_hashes.len() && !is_live(self.recent_hashes[k].seen_at, now_ms)
            invariant
                k <= self.recent_hashes@.len(),
                *self == *old(self),
                forall|j: int| 0 <= j < k ==> !live(#[trigger] self.recent_hashes@[j], now_ms),
            decreases self.recent_hashes@.len() - k,
        {
            k += 1;
        }
        let keep = self.recent_hashes.split_off(k);
        self.recent_hashes = keep;
        proof {
            let o = old(self).recent_hashes@;
            let f = self.recent_hashes@;
            assert(f == o.subrange(k as int, o.len() as int));
            assert forall|i: int| 0 <= i < f.len() implies live(#[trigger] f[i], now_ms)
                && o.contains(f[i]) by {
                assert(f[i] == o[i + k]);
                if k < o.len() {
                    assert(o[k as int].seen_at <= o[i + k].seen_at);
                }
            }
            assert forall|j: int| 0 <= j < o.len() && live(#[trigger] o[j], now_ms) implies
                f.contains(o[j]) by {
                assert(j >= k);
                assert(f[j - k] == o[j]);
            }
            assert forall|a: int, b: int| 0 <= a < b < f.len() implies f[a].seen_at
                <= f[b].seen_at by {
                assert(f[a] == o[a + k]);
                assert(f[b] == o[b + k]);
            }
            assert forall|a: int, b: int| 0 <= a < b < f.len() implies f[a].hash@
                != f[b].hash@ by {
                assert(f[a] == o[a + k]);
                assert(f[b] == o[b + k]);
            }
        }
    }

    /// Decide whether a clipboard change is broadcast, and remember its hash
    /// as the last local one when it is. Returns true exactly when the
    /// change is local, differs from the last broadcast, and is not a live
    /// recent receipt.
    #[verifier::loop_isolation(false)]
    pub fn should_broadcast(&mut self, content_hash: &str, is_local: bool, now_ms: i64) -> (r:
        bool)
        requires
            old(self).wf(),
        ensures
            final(self).wf(),
            r == spec_should_broadcast(*old(self), content_hash@, is_local, now_ms),
            r ==> local_is(*final(self), content_hash@),
            !r ==> final(self).local_hash == old(self).local_hash,
    {
        self.cleanup_expired(now_ms);
        let ghost mid = *self;
        let mut found = false;
        let mut i: usize = 0;
        while i < self.recent_hashes.len()
            invariant
                i <= self.recent_hashes@.len(),
                *self == mid,
                found == exists|j: int|
                    0 <= j < i && (#[trigger] self.recent_hashes@[j]).hash@ == content_hash@,
            decreases self.recent_hashes@.len() - i,
        {
            if str_eq(self.recent_hashes[i].hash.as_str(), content_hash) {
                found = true;
            }
            i += 1;
        }
        proof {
            let o = old(self).recent_hashes@;
            let f = self.recent_hashes@;
            if found {
                let j = choose|j: int| 0 <= j < f.len() && (#[trigger] f[j]).hash@
                    == content_hash@;
                assert(live(f[j], now_ms) && o.contains(f[j]));
                let w = choose|w: int| 0 <= w < o.len() && o[w] == f[j];
                assert(recent_live(o, content_hash@, now_ms));
            }
            if !found && recent_live(o, content_hash@, now_ms) {
                let w = choose|w: int|
                    0 <= w < o.len() && o[w].hash@ == content_hash@ && live(o[w], now_ms);
                assert(f.contains(o[w]));
                let j = choose|j: int| 0 <= j < f.len() && f[j] == o[w];
                assert(f[j].hash@ == content_hash@);
                assert(false);
            }
        }
        if found {
            return false;
        }
        if opt_string_is(&self.local_hash, content_hash) {
            return false;
        }
        if !is_local {
            return false;
        }
        self.local_hash = Some(String::from_str(content_hash));
        true
    }

    /// Record a received content hash and decide whether to apply it to the
    /// local clipboard: apply exactly when it differs from the hash already
    /// there. Either way the hash becomes the last local one and is
    /// remembered as a live recent receipt.
    #[verifier::loop_isolation(false)]
    pub fn on_received(&mut self, content_hash: &str, now_ms: i64) -> (r: bool)
        requires
            old(self).wf(),
            forall|i: int|
                0 <= i < old(self).recent_hashes@.len() ==> (#[trigger] old(
                    self,
                ).recent_hashes@[i]).seen_at <= now_ms,
        ensures
            final(self).wf(),
            r == !local_is(*old(self), content_hash@),
            local_is(*final(self), content_hash@),
            recent_live(final(self).recent_hashes@, content_hash@, now_ms),
    {
        self.cleanup_expired(now_ms);
        // Drop any older entry with this hash, so hashes stay unique.
        let mut at: usize = 0;
        let mut dup: Option<usize> = None;
        while at < self.recent_hashes.len()
            invariant
                at <= self.recent_hashes@.len(),
                dup matches Some(d) ==> d < self.recent_hashes@.len()
                    && self.recent_hashes@[d as int].hash@ == content_hash@,
                dup is None ==> forall|j: int|
                    0 <= j < at ==> (#[trigger] self.recent_hashes@[j]).hash@ != content_hash@,
            decreases self.recent_hashes@.len() - at,
        {
            if str_eq(self.recent_hashes[at].hash.as_str(), content_hash) {
                dup = Some(at);
            }
            at += 1;
        }
        match dup {
            Some(d) => {
                proof {
                    let h = self.recent_hashes@;
                    assert forall|a: int, b: int|
                        0 <= a < b < h.remove(d as int).len() implies h.remove(
                            d as int,
                        )[a].seen_at <= h.remove(d as int)[b].seen_at && h.remove(
                            d as int,
                        )[a].hash@ != h.remove(d as int)[b].hash@ && h.remove(
                            d as int,
                        )[a].seen_at <= now_ms by {
                        assert(h.remove(d as int)[a] == h[if a < d { a } else { a + 1 }]);
                        assert(h.remove(d as int)[b] == h[if b < d { b } else { b + 1 }]);
                    }
                    assert forall|a: int|
                        0 <= a < h.remove(d as int).len() implies (#[trigger] h.remove(
                            d as int,
                        )[a]).hash@ != content_hash@ && h.remove(d as int)[a].seen_at <= now_ms by {
                        assert(h.remove(d as int)[a] == h[if a < d { a } else { a + 1 }]);
                    }
                }
                self.recent_hashes.remove(d);
            }
            None => {}
        }
        // Halve, oldest first, if the set has reached its bound.
        if self.recent_hashes.len() >= MAX_RECENT_HASHES {
            let cut = self.recent_hashes.len() - MAX_RECENT_HASHES / 2;
            let ghost pre = self.recent_hashes@;
            let keep = self.recent_hashes.split_off(cut);
            self.recent_hashes = keep;
            proof {
                let f = self.recent_hashes@;
                assert(f == pre.subrange(cut as int, pre.len() as int));
                assert forall|a: int, b: int| 0 <= a < b < f.len() implies f[a].seen_at
                    <= f[b].seen_at && f[a].hash@ != f[b].hash@ by {
                    assert(f[a] == pre[a + cut]);
                    assert(f[b] == pre[b + cut]);
                }
                assert forall|a: int| 0 <= a < f.len() implies (#[trigger] f[a]).hash@
                    != content_hash@ && f[a].seen_at <= now_ms by {
                    assert(f[a] == pre[a + cut]);
                }
            }
        }
        // Remember the receipt now; times are monotone, so it goes last.
        let entry = RecentHash { hash: String::from_str(content_hash), seen_at: now_ms };
        self.recent_hashes.push(entry);
        proof {
            let f = self.recent_hashes@;
            assert(f[f.len() - 1].hash@ == content_hash@);
            assert(live(f[f.len() - 1], now_ms));
            assert forall|a: int, b: int| 0 <= a < b < f.len() implies f[a].seen_at
                <= f[b].seen_at && f[a].hash@ != f[b].hash@ by {
                if b < f.len() - 1 {
                } else {
                    assert(f[a].seen_at <= now_ms);
                    assert(f[a].hash@ != content_hash@);
                }
            }
        }
        let apply = !opt_string_is(&self.local_hash, content_hash);
        if apply {
            self.local_hash = Some(String::from_str(content_hash));
        }
        apply
    }
}

/// Once a received hash is the last local one, the same content is not
/// broadcast back: the echo loop is closed.
pub proof fn lemma_no_echo(m: SyncManager, hash: Seq<char>, is_local: bool, now_ms: i64)
    requires
        local_is(m, hash),
    ensures
        !spec_should_broadcast(m, hash, is_local, now_ms),
{
}

/// Whether a remembered hash is still live, computed without overflow.
fn is_live(seen_at: i64, now_ms: i64) -> (r: bool)
    ensures
        r == (now_ms - seen_at < RECENT_HASH_TTL_MS),
{
    ((now_ms as i128) - (seen_at as i128)) < RECENT_HASH_TTL_MS as i128
}

/// Which side wins when both clipboards changed at nearly the same time.
#[derive(Debug, Clone, PartialEq, Eq, Structural)]
pub enum ConflictResolution {
    UseRemote,
    KeepLocal,
}

/// The winner by timestamp: a clear winner (over 100 ms apart) takes effect;
/// near-simultaneous changes keep the local content.
pub open spec fn spec_resolve_conflict(local_timestamp: int, remote_timestamp: int) -> ConflictResolution {
    let diff = if local_timestamp >= remote_timestamp {
        local_timestamp - remote_timestamp
    } else {
        remote_timestamp - local_timestamp
    };
    if diff > 100 {
        if remote_timestamp > local_timestamp {
            ConflictResolution::UseRemote
        } else {
            ConflictResolution::KeepLocal
        }
    } else {
        ConflictResolution::KeepLocal
    }
}

/// Decide a conflict between a local and a remote change by their
/// timestamps, as `spec_resolve_conflict` states.
pub fn resolve_conflict(local_timestamp: i64, remote_timestamp: i64) -> (r: ConflictResolution)
    ensures
        r == spec_resolve_conflict(local_timestamp as int, remote_timestamp as int),
{
    let l = local_timestamp as i128;
    let m = remote_timestamp as i128;
    let diff = if l >= m {
        l - m
    } else {
        m - l
    };
    if diff > 100 {
        if remote_timestamp > local_timestamp {
            ConflictResolution::UseRemote
        } else {
            ConflictResolution::KeepLocal
        }
    } else {
        ConflictResolution::KeepLocal
    }
}

/// What the clipboard monitor hands on when the clipboard changed.
pub struct ClipboardChange {
    pub content: String,
    pub content_hash: String,
    pub is_local: bool,
}

} // verus!
