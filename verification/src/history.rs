//! Clipboard history: a bounded list of entries, newest first, with at most
//! one entry per content hash.

use vstd::prelude::*;

use crate::crypto::{hash_content, new_uuid, sha256_hex_of};

verus! {

/// One clipboard item, local or received.
pub struct ClipboardEntry {
    pub id: String,
    pub content: String,
    /// Lowercase hex SHA-256 of `content`.
    pub content_hash: String,
    /// Unix time in milliseconds.
    pub timestamp: i64,
    pub origin_device_id: String,
    pub origin_device_name: String,
    pub is_local: bool,
}

impl Clone for ClipboardEntry {
    /// An exact copy.
    fn clone(&self) -> (r: Self)
        ensures
            r == *self,
    {
        ClipboardEntry {
            id: self.id.clone(),
            content: self.content.clone(),
            content_hash: self.content_hash.clone(),
            timestamp: self.timestamp,
            origin_device_id: self.origin_device_id.clone(),
            origin_device_name: self.origin_device_name.clone(),
            is_local: self.is_local,
        }
    }
}

impl ClipboardEntry {
    /// A fresh entry for content this device produced: new id, hash of the
    /// content, marked local.
    pub fn new_local(content: String, device_id: &str, device_name: &str, now_ms: i64) -> (r:
        ClipboardEntry)
        ensures
            r.content == content,
            r.content_hash@ == sha256_hex_of(content@),
            r.timestamp == now_ms,
            r.origin_device_id@ == device_id@,
            r.origin_device_name@ == device_name@,
            r.is_local == true,
            r.id@.len() == 36,
    {
        let content_hash = hash_content(content.as_str());
        ClipboardEntry {
            id: new_uuid(),
            content,
            content_hash,
            timestamp: now_ms,
            origin_device_id: String::from_str(device_id),
            origin_device_name: String::from_str(device_name),
            is_local: true,
        }
    }

    /// A fresh entry for content received from a peer, keeping the sender's
    /// hash and timestamp.
    pub fn new_remote(
        content: String,
        content_hash: String,
        timestamp: i64,
        device_id: &str,
        device_name: &str,
    ) -> (r: ClipboardEntry)
        ensures
            r.content == content,
            r.content_hash == content_hash,
            r.timestamp == timestamp,
            r.origin_device_id@ == device_id@,
            r.origin_device_name@ == device_name@,
            r.is_local == false,
            r.id@.len() == 36,
    {
        ClipboardEntry {
            id: new_uuid(),
            content,
            content_hash,
            timestamp,
            origin_device_id: String::from_str(device_id),
            origin_device_name: String::from_str(device_name),
            is_local: false,
        }
    }

    /// The first `max_length` characters of the content, with an ellipsis
    /// when something was cut.
    pub fn preview(&self, max_length: usize) -> (r: String)
        ensures
            self.content@.len() <= max_length ==> r@ == self.content@,
            self.content@.len() > max_length ==> r@ == self.content@.subrange(
                0,
                max_length as int,
            ) + "..."@,
    {
        let n = self.content.as_str().unicode_len();
        if n <= max_length {
            self.content.clone()
        } else {
            let head = self.content.as_str().substring_char(0, max_length);
            String::from_str(head).concat("...")
        }
    }
}

/// Newest first: timestamps never increase along the list.
pub open spec fn sorted_newest_first(h: Seq<ClipboardEntry>) -> bool {
    forall|i: int, j: int| 0 <= i < j < h.len() ==> h[i].timestamp >= h[j].timestamp
}

/// Strictly newest first: timestamps decrease along the list.
pub open spec fn strictly_sorted_newest_first(h: Seq<ClipboardEntry>) -> bool {
    forall|i: int, j: int| 0 <= i < j < h.len() ==> h[i].timestamp > h[j].timestamp
}

/// No two entries share a content hash.
pub open spec fn unique_hashes(h: Seq<ClipboardEntry>) -> bool {
    forall|i: int, j: int| 0 <= i < j < h.len() ==> h[i].content_hash@ != h[j].content_hash@
}

/// The history invariant: ordered, deduplicated, bounded.
pub open spec fn history_wf(h: Seq<ClipboardEntry>, limit: int) -> bool {
    &&& sorted_newest_first(h)
    &&& unique_hashes(h)
    &&& h.len() <= limit
}

/// Whether some entry carries this content hash.
pub open spec fn has_hash(h: Seq<ClipboardEntry>, hash: Seq<char>) -> bool {
    exists|i: int| 0 <= i < h.len() && h[i].content_hash@ == hash
}

/// A history whose timestamps are pairwise distinct and newest-first sorted
/// is strictly sorted: this is the ordering clause of the history invariant,
/// stated on the runs it can hold of (entries that share a timestamp are the
/// one exception).
pub proof fn lemma_sorted_distinct_is_strict(h: Seq<ClipboardEntry>)
    requires
        sorted_newest_first(h),
        forall|i: int, j: int| 0 <= i < j < h.len() ==> h[i].timestamp != h[j].timestamp,
    ensures
        strictly_sorted_newest_first(h),
{
}

/// Find the entry carrying `hash`, if any.
fn find_hash(history: &Vec<ClipboardEntry>, hash: &String) -> (r: Option<usize>)
    ensures
        r matches Some(i) ==> i < history@.len() && history@[i as int].content_hash@ == hash@,
        r is None ==> !has_hash(history@, hash@),
{
    let mut i: usize = 0;
    while i < history.len()
        invariant
            i <= history@.len(),
            forall|j: int| 0 <= j < i ==> history@[j].content_hash@ != hash@,
        decreases history@.len() - i,
    {
        if crate::text::str_eq(history[i].content_hash.as_str(), hash.as_str()) {
            return Some(i);
        }
        i += 1;
    }
    None
}

/// Removing one entry keeps the order, keeps hashes unique, and removes
/// the only occurrence of its hash.
proof fn lemma_remove_keeps_wf(h: Seq<ClipboardEntry>, i: int)
    requires
        0 <= i < h.len(),
        sorted_newest_first(h),
        unique_hashes(h),
    ensures
        sorted_newest_first(h.remove(i)),
        unique_hashes(h.remove(i)),
        forall|a: int| 0 <= a < h.remove(i).len() ==> h.contains(#[trigger] h.remove(i)[a]),
        forall|a: int|
            0 <= a < h.remove(i).len() ==> (#[trigger] h.remove(i)[a]).content_hash@
                != h[i].content_hash@,
{
    let r = h.remove(i);
    assert forall|a: int| 0 <= a < r.len() implies h.contains(#[trigger] r[a]) by {
        assert(r[a] == h[if a < i { a } else { a + 1 }]);
    }
    assert forall|a: int|
        0 <= a < r.len() implies (#[trigger] r[a]).content_hash@ != h[i].content_hash@ by {
        assert(r[a] == h[if a < i { a } else { a + 1 }]);
    }
    assert forall|a: int, b: int|
        0 <= a < b < r.len() implies r[a].timestamp >= r[b].timestamp by {
        assert(r[a] == h[if a < i { a } else { a + 1 }]);
        assert(r[b] == h[if b < i { b } else { b + 1 }]);
    }
    assert forall|a: int, b: int|
        0 <= a < b < r.len() implies r[a].content_hash@ != r[b].content_hash@ by {
        assert(r[a] == h[if a < i { a } else { a + 1 }]);
        assert(r[b] == h[if b < i { b } else { b + 1 }]);
    }
}

/// Inserting an entry at its chronological place, when no other entry has
/// its hash, keeps the order and keeps hashes unique.
proof fn lemma_insert_keeps_wf(h: Seq<ClipboardEntry>, pos: int, e: ClipboardEntry)
    requires
        sorted_newest_first(h),
        unique_hashes(h),
        0 <= pos <= h.len(),
        forall|j: int| 0 <= j < pos ==> h[j].timestamp > e.timestamp,
        pos == h.len() || h[pos].timestamp <= e.timestamp,
        forall|a: int| 0 <= a < h.len() ==> (#[trigger] h[a]).content_hash@ != e.content_hash@,
    ensures
        sorted_newest_first(h.insert(pos, e)),
        unique_hashes(h.insert(pos, e)),
{
    let s = h.insert(pos, e);
    assert forall|a: int, b: int|
        0 <= a < b < s.len() implies s[a].timestamp >= s[b].timestamp by {
        if b < pos {
            assert(s[a] == h[a]);
            assert(s[b] == h[b]);
        } else if b == pos {
            assert(s[a] == h[a]);
        } else {
            assert(s[b] == h[b - 1]);
            if a < pos {
                assert(s[a] == h[a]);
            } else if a == pos {
                assert(h[pos].timestamp >= h[b - 1].timestamp);
            } else {
                assert(s[a] == h[a - 1]);
            }
        }
    }
    assert forall|a: int, b: int|
        0 <= a < b < s.len() implies s[a].content_hash@ != s[b].content_hash@ by {
        if b < pos {
            assert(s[a] == h[a]);
            assert(s[b] == h[b]);
        } else if b == pos {
            assert(s[a] == h[a]);
        } else {
            assert(s[b] == h[b - 1]);
            if a < pos {
                assert(s[a] == h[a]);
            } else if a > pos {
                assert(s[a] == h[a - 1]);
            }
        }
    }
}

/// What one insertion does, exactly: `entry` goes into `pruned` (the old
/// history with any same-hash entry already removed) at the first position
/// whose timestamp is not newer, and the result is cut to `limit`.
pub open spec fn inserted_at(
    pruned: Seq<ClipboardEntry>,
    fin: Seq<ClipboardEntry>,
    entry: ClipboardEntry,
    limit: int,
) -> bool {
    exists|pos: int|
        {
            &&& 0 <= pos <= pruned.len()
            &&& (forall|j: int| 0 <= j < pos ==> pruned[j].timestamp > entry.timestamp)
            &&& (pos == pruned.len() || pruned[pos].timestamp <= entry.timestamp)
            &&& fin == pruned.insert(pos, entry).subrange(
                0,
                if pruned.len() as int + 1 <= limit {
                    pruned.len() as int + 1
                } else {
                    limit
                },
            )
        }
}

/// A prefix of an ordered, deduplicated history is ordered and deduplicated.
proof fn lemma_prefix_keeps_wf(h: Seq<ClipboardEntry>, n: int)
    requires
        sorted_newest_first(h),
        unique_hashes(h),
        0 <= n <= h.len(),
    ensures
        sorted_newest_first(h.subrange(0, n)),
        unique_hashes(h.subrange(0, n)),
        forall|a: int| 0 <= a < n ==> #[trigger] h.subrange(0, n)[a] == h[a],
{
    let p = h.subrange(0, n);
    assert forall|a: int, b: int|
        0 <= a < b < p.len() implies p[a].timestamp >= p[b].timestamp by {
        assert(p[a] == h[a]);
        assert(p[b] == h[b]);
    }
    assert forall|a: int, b: int|
        0 <= a < b < p.len() implies p[a].content_hash@ != p[b].content_hash@ by {
        assert(p[a] == h[a]);
        assert(p[b] == h[b]);
    }
}

/// Insert `entry` into a well-formed history: any older entry with the same
/// hash is removed, the entry goes to its chronological place (before
/// existing entries of the same timestamp), and the list is trimmed to
/// `limit` — `inserted_at` pins the result exactly, so every other entry
/// within the bound is retained in order. A genuinely newest entry always
/// survives at the front.
#[verifier::rlimit(60)]
pub fn insert_entry(history: &mut Vec<ClipboardEntry>, entry: ClipboardEntry, limit: usize)
    requires
        limit >= 1,
        sorted_newest_first(old(history)@),
        unique_hashes(old(history)@),
    ensures
        history_wf(final(history)@, limit as int),
        final(history)@.len() >= 1,
        final(history)@.len() <= old(history)@.len() + 1,
        !has_hash(old(history)@, entry.content_hash@) ==> inserted_at(
            old(history)@,
            final(history)@,
            entry,
            limit as int,
        ),
        has_hash(old(history)@, entry.content_hash@) ==> exists|d: int|
            {
                &&& 0 <= d < old(history)@.len()
                &&& old(history)@[d].content_hash@ == entry.content_hash@
                &&& inserted_at(old(history)@.remove(d), final(history)@, entry, limit as int)
            },
        forall|i: int|
            0 <= i < final(history)@.len() ==> final(history)@[i] == entry || old(
                history,
            )@.contains(final(history)@[i]),
        (forall|i: int|
            0 <= i < old(history)@.len() ==> entry.timestamp >= old(history)@[i].timestamp)
            ==> final(history)@.len() >= 1 && final(history)@[0] == entry,
{
    // Drop the at most one entry that already carries this hash.
    let ghost mut dup_idx: Option<int> = None;
    match find_hash(history, &entry.content_hash) {
        Some(i) => {
            proof {
                dup_idx = Some(i as int);
                lemma_remove_keeps_wf(history@, i as int);
            }
            history.remove(i);
        }
        None => {}
    }
    let ghost pruned = history@;
    proof {
        match dup_idx {
            Some(d) => {
                assert(0 <= d < old(history)@.len());
                assert(old(history)@[d].content_hash@ == entry.content_hash@);
                assert(pruned == old(history)@.remove(d));
            }
            None => {
                assert(pruned == old(history)@);
                assert(!has_hash(old(history)@, entry.content_hash@));
            }
        }
    }
    assert(sorted_newest_first(pruned));
    assert(unique_hashes(pruned));
    assert(forall|a: int|
        0 <= a < pruned.len() ==> (#[trigger] pruned[a]).content_hash@ != entry.content_hash@);
    assert forall|a: int| 0 <= a < pruned.len() implies old(history)@.contains(
        #[trigger] pruned[a],
    ) by {
        if pruned.len() == old(history)@.len() {
            assert(pruned[a] == old(history)@[a]);
        }
    }

    // Find the chronological place: the first index whose timestamp is not
    // newer than the entry's.
    let mut pos: usize = 0;
    while pos < history.len() && history[pos].timestamp > entry.timestamp
        invariant
            pos <= history@.len(),
            history@ == pruned,
            forall|j: int| 0 <= j < pos ==> history@[j].timestamp > entry.timestamp,
        decreases history@.len() - pos,
    {
        pos += 1;
    }
    proof {
        assert(pos == pruned.len() || pruned[pos as int].timestamp <= entry.timestamp);
        lemma_insert_keeps_wf(pruned, pos as int, entry);
    }
    history.insert(pos, entry);
    let ghost inserted = history@;

    // Trim to the configured bound.
    if history.len() > limit {
        proof {
            lemma_prefix_keeps_wf(inserted, limit as int);
        }
        history.truncate(limit);
    }
    proof {
        let fin = history@;
        assert(fin[0] == inserted[0]);
        assert(inserted[pos as int] == entry);
        assert forall|a: int| 0 <= a < fin.len() implies fin[a] == entry || old(
            history,
        )@.contains(fin[a]) by {
            assert(fin[a] == inserted[a]);
            if a != pos {
                assert(inserted[a] == pruned[if a < pos { a } else { a - 1 }]);
            }
        }
        if forall|i: int|
            0 <= i < old(history)@.len() ==> entry.timestamp >= #[trigger] old(
                history,
            )@[i].timestamp {
            if pos != 0 {
                assert(pruned[0].timestamp > entry.timestamp);
                assert(old(history)@.contains(pruned[0]));
                let k = choose|k: int|
                    0 <= k < old(history)@.len() && old(history)@[k] == pruned[0];
                assert(entry.timestamp >= old(history)@[k].timestamp);
                assert(false);
            }
            assert(fin[0] == entry);
        }
        let cut: int = if pruned.len() as int + 1 <= limit as int {
            pruned.len() as int + 1
        } else {
            limit as int
        };
        assert(fin =~= inserted.subrange(0, cut));
        assert(inserted_at(pruned, fin, entry, limit as int));
        match dup_idx {
            Some(d) => {
                assert(inserted_at(old(history)@.remove(d), fin, entry, limit as int));
            }
            None => {
                assert(inserted_at(old(history)@, fin, entry, limit as int));
            }
        }
    }
}

/// Trim a well-formed history to a (possibly smaller) bound, oldest
/// entries first: what a reduced history limit in the settings enforces.
pub fn enforce_limit(history: &mut Vec<ClipboardEntry>, limit: usize)
    requires
        limit >= 1,
        sorted_newest_first(old(history)@),
        unique_hashes(old(history)@),
    ensures
        history_wf(final(history)@, limit as int),
        final(history)@ == old(history)@.subrange(
            0,
            if limit < old(history)@.len() {
                limit as int
            } else {
                old(history)@.len() as int
            },
        ),
{
    if history.len() > limit {
        proof {
            lemma_prefix_keeps_wf(history@, limit as int);
        }
        history.truncate(limit);
    } else {
        proof {
            assert(history@ =~= history@.subrange(0, history@.len() as int));
        }
    }
}

/// Remove every entry. The history is empty afterwards.
pub fn clear_history(history: &mut Vec<ClipboardEntry>)
    ensures
        final(history)@.len() == 0,
{
    history.clear();
}

/// The newest `limit` entries, in order.
pub fn history_prefix(history: &Vec<ClipboardEntry>, limit: usize) -> (r: Vec<ClipboardEntry>)
    ensures
        r@ == history@.subrange(0, if limit < history@.len() { limit as int } else { history@.len() as int }),
{
    let n = if limit < history.len() {
        limit
    } else {
        history.len()
    };
    let mut out: Vec<ClipboardEntry> = Vec::new();
    let mut i: usize = 0;
    while i < n
        invariant
            i <= n,
            n <= history@.len(),
            out@.len() == i,
            forall|j: int| 0 <= j < i ==> out@[j] == history@[j],
        decreases n - i,
    {
        out.push(history[i].clone());
        i += 1;
    }
    proof {
        assert(out@ =~= history@.subrange(0, n as int));
    }
    out
}

} // verus!
