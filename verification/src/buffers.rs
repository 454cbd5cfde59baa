//! Per-recipient offline buffers and pull-based resync.
//!
//! Every broadcast clipboard message is buffered for every paired peer,
//! bounded to the newest entries and limited by a time-to-live, so that a
//! peer that was offline can pull what it missed.

use vstd::prelude::*;

use crate::history::{has_hash, ClipboardEntry};
use crate::protocol::ClipboardMessage;
use crate::text::str_eq;

verus! {

/// Default bound of one peer's offline buffer (latest N messages).
pub const SYNC_MAX_BUFFER_SIZE: usize = 16;

/// Default time-to-live of a buffered message, in milliseconds (5 minutes).
pub const SYNC_TTL_MS: i64 = 300000;

/// Whether a buffered message is still within its time-to-live at `now_ms`.
pub open spec fn msg_live(m: ClipboardMessage, ttl_ms: i64, now_ms: i64) -> bool {
    now_ms - m.timestamp <= ttl_ms
}

/// What appending to a bounded buffer does: the message goes to the back,
/// and the oldest entries are dropped so that at most `max` remain.
pub open spec fn append_rel(
    o: Seq<ClipboardMessage>,
    f: Seq<ClipboardMessage>,
    m: ClipboardMessage,
    max: int,
) -> bool {
    if o.len() < max {
        f == o.push(m)
    } else {
        f == o.subrange(o.len() - (max - 1), o.len() as int).push(m)
    }
}

/// Append `msg` to one buffer, trimming to the newest `max_size` entries.
pub fn buffer_append(buf: &mut Vec<ClipboardMessage>, msg: ClipboardMessage, max_size: usize)
    requires
        max_size >= 1,
    ensures
        append_rel(old(buf)@, final(buf)@, msg, max_size as int),
        final(buf)@.len() <= max_size,
{
    if buf.len() >= max_size {
        let cut = buf.len() - max_size + 1;
        let keep = buf.split_off(cut);
        *buf = keep;
    }
    buf.push(msg);
}

/// Drop every buffered message whose time-to-live has passed. Live messages
/// survive; nothing new appears.
#[verifier::loop_isolation(false)]
pub fn buffer_expire(buf: &mut Vec<ClipboardMessage>, ttl_ms: i64, now_ms: i64)
    ensures
        final(buf)@.len() <= old(buf)@.len(),
        forall|a: int|
            0 <= a < final(buf)@.len() ==> msg_live(#[trigger] final(buf)@[a], ttl_ms, now_ms)
                && old(buf)@.contains(final(buf)@[a]),
        forall|a: int|
            0 <= a < old(buf)@.len() && msg_live(#[trigger] old(buf)@[a], ttl_ms, now_ms)
                ==> final(buf)@.contains(old(buf)@[a]),
{
    let mut i: usize = 0;
    while i < buf.len()
        invariant
            i <= buf@.len(),
            buf@.len() <= old(buf)@.len(),
            forall|a: int| 0 <= a < i ==> msg_live(#[trigger] buf@[a], ttl_ms, now_ms),
            forall|a: int| 0 <= a < buf@.len() ==> old(buf)@.contains(#[trigger] buf@[a]),
            forall|a: int|
                0 <= a < old(buf)@.len() && msg_live(#[trigger] old(buf)@[a], ttl_ms, now_ms)
                    ==> buf@.contains(old(buf)@[a]),
        decreases buf@.len() - i,
    {
        let alive = ((now_ms as i128) - (buf[i].timestamp as i128)) <= ttl_ms as i128;
        if alive {
            i += 1;
        } else {
            let ghost pre = buf@;
            let ghost gone = buf@[i as int];
            buf.remove(i);
            proof {
                assert forall|a: int| 0 <= a < buf@.len() implies old(buf)@.contains(
                    #[trigger] buf@[a],
                ) by {
                    assert(buf@[a] == pre[if a < i { a } else { a + 1 }]);
                }
                assert forall|a: int| 0 <= a < i implies msg_live(
                    #[trigger] buf@[a],
                    ttl_ms,
                    now_ms,
                ) by {
                    assert(buf@[a] == pre[a]);
                }
                assert forall|a: int|
                    0 <= a < old(buf)@.len() && msg_live(
                        #[trigger] old(buf)@[a],
                        ttl_ms,
                        now_ms,
                    ) implies buf@.contains(old(buf)@[a]) by {
                    assert(pre.contains(old(buf)@[a]));
                    let w = choose|w: int| 0 <= w < pre.len() && pre[w] == old(buf)@[a];
                    assert(!msg_live(gone, ttl_ms, now_ms));
                    assert(w != i);
                    assert(buf@[if w < i { w } else { w - 1 }] == pre[w]);
                }
            }
        }
    }
}

/// The content hashes of the messages in one buffer, in order.
pub fn buffer_hashes(buf: &Vec<ClipboardMessage>) -> (r: Vec<String>)
    ensures
        r@.len() == buf@.len(),
        forall|j: int| 0 <= j < r@.len() ==> (#[trigger] r@[j])@ == buf@[j].content_hash@,
{
    let mut out: Vec<String> = Vec::new();
    let mut i: usize = 0;
    while i < buf.len()
        invariant
            i <= buf@.len(),
            out@.len() == i,
            forall|j: int| 0 <= j < i ==> (#[trigger] out@[j])@ == buf@[j].content_hash@,
        decreases buf@.len() - i,
    {
        out.push(buf[i].content_hash.clone());
        i += 1;
    }
    out
}

/// Remove and return the first buffered message carrying `hash`, if any.
pub fn buffer_take(buf: &mut Vec<ClipboardMessage>, hash: &str) -> (r: Option<ClipboardMessage>)
    ensures
        r is None ==> final(buf)@ == old(buf)@ && (forall|a: int|
            0 <= a < old(buf)@.len() ==> (#[trigger] old(buf)@[a]).content_hash@ != hash@),
        r matches Some(m) ==> m.content_hash@ == hash@ && exists|i: int|
            0 <= i < old(buf)@.len() && old(buf)@[i] == m && final(buf)@ == old(buf)@.remove(i),
{
    let mut i: usize = 0;
    while i < buf.len()
        invariant
            i <= buf@.len(),
            buf@ == old(buf)@,
            forall|a: int| 0 <= a < i ==> (#[trigger] buf@[a]).content_hash@ != hash@,
        decreases buf@.len() - i,
    {
        if str_eq(buf[i].content_hash.as_str(), hash) {
            let m = buf.remove(i);
            return Some(m);
        }
        i += 1;
    }
    None
}

/// Whether `h` occurs in a list of hashes.
pub open spec fn hash_listed(s: Seq<String>, h: Seq<char>) -> bool {
    exists|k: int| 0 <= k < s.len() && s[k]@ == h
}

/// The hashes in `offered` that the history does not hold: what a resync
/// requester still needs to ask for.
pub fn missing_hashes(history: &Vec<ClipboardEntry>, offered: &Vec<String>) -> (r: Vec<String>)
    ensures
        forall|j: int| 0 <= j < r@.len() ==> !has_hash(history@, (#[trigger] r@[j])@),
        forall|j: int| 0 <= j < r@.len() ==> hash_listed(offered@, (#[trigger] r@[j])@),
        forall|k: int|
            0 <= k < offered@.len() && !has_hash(history@, (#[trigger] offered@[k])@)
                ==> hash_listed(r@, offered@[k]@),
{
    let mut out: Vec<String> = Vec::new();
    let mut i: usize = 0;
    while i < offered.len()
        invariant
            i <= offered@.len(),
            forall|j: int| 0 <= j < out@.len() ==> !has_hash(history@, (#[trigger] out@[j])@),
            forall|j: int| 0 <= j < out@.len() ==> hash_listed(offered@, (#[trigger] out@[j])@),
            forall|k: int|
                0 <= k < i && !has_hash(history@, (#[trigger] offered@[k])@) ==> hash_listed(
                    out@,
                    offered@[k]@,
                ),
        decreases offered@.len() - i,
    {
        let mut present = false;
        let mut h: usize = 0;
        while h < history.len()
            invariant
                h <= history@.len(),
                i < offered@.len(),
                present == exists|a: int|
                    0 <= a < h && (#[trigger] history@[a]).content_hash@ == offered@[i as int]@,
            decreases history@.len() - h,
        {
            if str_eq(history[h].content_hash.as_str(), offered[i].as_str()) {
                present = true;
            }
            h += 1;
        }
        proof {
            assert(present == has_hash(history@, offered@[i as int]@));
        }
        let ghost before = out@;
        if !present {
            out.push(offered[i].clone());
            proof {
                assert(out@[out@.len() - 1]@ == offered@[i as int]@);
            }
        }
        proof {
            assert forall|k: int|
                0 <= k < i + 1 && !has_hash(history@, (#[trigger] offered@[k])@) implies hash_listed(
                out@,
                offered@[k]@,
            ) by {
                if k < i {
                    let w = choose|w: int| 0 <= w < before.len() && before[w]@ == offered@[k]@;
                    assert(out@[w]@ == offered@[k]@);
                } else {
                    assert(out@[out@.len() - 1]@ == offered@[k]@);
                }
            }
            assert forall|j: int| 0 <= j < out@.len() implies hash_listed(
                offered@,
                (#[trigger] out@[j])@,
            ) by {
                if j < before.len() {
                    assert(out@[j] == before[j]);
                } else {
                    assert(out@[j]@ == offered@[i as int]@);
                }
            }
        }
        i += 1;
    }
    out
}

/// The offline buffer of one paired peer.
pub struct PeerBuffer {
    pub peer_id: String,
    pub messages: Vec<ClipboardMessage>,
}

/// Whether some buffer belongs to `peer`.
pub open spec fn has_peer_buffer(bs: Seq<PeerBuffer>, peer: Seq<char>) -> bool {
    exists|i: int| 0 <= i < bs.len() && bs[i].peer_id@ == peer
}

/// Two buffer lists that hold the same peers and messages.
pub open spec fn buffers_like(a: Seq<PeerBuffer>, b: Seq<PeerBuffer>) -> bool {
    &&& a.len() == b.len()
    &&& forall|j: int|
        0 <= j < a.len() ==> (#[trigger] a[j]).peer_id@ == b[j].peer_id@ && a[j].messages@
            == b[j].messages@
}

/// All per-recipient offline buffers, one per paired peer.
pub struct MessageBuffers {
    pub entries: Vec<PeerBuffer>,
}

impl MessageBuffers {
    /// Each peer has at most one buffer.
    pub open spec fn wf(&self) -> bool {
        forall|a: int, b: int|
            0 <= a < b < self.entries@.len() ==> self.entries@[a].peer_id@
                != self.entries@[b].peer_id@
    }

    /// No buffers yet.
    pub fn new() -> (r: MessageBuffers)
        ensures
            r.wf(),
            r.entries@.len() == 0,
    {
        MessageBuffers { entries: Vec::new() }
    }

    /// The position of `peer_id`'s buffer, if it has one.
    fn index_of(&self, peer_id: &str) -> (r: Option<usize>)
        ensures
            r matches Some(i) ==> i < self.entries@.len() && self.entries@[i as int].peer_id@
                == peer_id@,
            r is None ==> !has_peer_buffer(self.entries@, peer_id@),
    {
        let mut i: usize = 0;
        while i < self.entries.len()
            invariant
                i <= self.entries@.len(),
                forall|j: int| 0 <= j < i ==> (#[trigger] self.entries@[j]).peer_id@ != peer_id@,
            decreases self.entries@.len() - i,
        {
            if str_eq(self.entries[i].peer_id.as_str(), peer_id) {
                return Some(i);
            }
            i += 1;
        }
        None
    }

    /// Buffer `msg` for `peer_id`, creating the buffer on first use and
    /// trimming it to the newest `max_size` messages.
    #[verifier::loop_isolation(false)]
    pub fn append_for_peer(&mut self, peer_id: &str, msg: ClipboardMessage, max_size: usize)
        requires
            old(self).wf(),
            max_size >= 1,
        ensures
            final(self).wf(),
            has_peer_buffer(old(self).entries@, peer_id@) ==> exists|i: int|
                {
                    &&& 0 <= i < old(self).entries@.len()
                    &&& old(self).entries@[i].peer_id@ == peer_id@
                    &&& final(self).entries@.len() == old(self).entries@.len()
                    &&& (forall|j: int|
                        0 <= j < old(self).entries@.len() && j != i ==> final(self).entries@[j]
                            == old(self).entries@[j])
                    &&& final(self).entries@[i].peer_id@ == peer_id@
                    &&& append_rel(
                        old(self).entries@[i].messages@,
                        final(self).entries@[i].messages@,
                        msg,
                        max_size as int,
                    )
                    &&& final(self).entries@[i].messages@.len() <= max_size
                },
            !has_peer_buffer(old(self).entries@, peer_id@) ==> {
                &&& final(self).entries@.len() == old(self).entries@.len() + 1
                &&& (forall|j: int|
                    0 <= j < old(self).entries@.len() ==> final(self).entries@[j] == old(
                        self,
                    ).entries@[j])
                &&& final(self).entries@.last().peer_id@ == peer_id@
                &&& final(self).entries@.last().messages@ =~= seq![msg]
            },
            forall|p: Seq<char>|
                has_peer_buffer(old(self).entries@, p) ==> has_peer_buffer(
                    final(self).entries@,
                    p,
                ),
            has_peer_buffer(final(self).entries@, peer_id@),
    {
        match self.index_of(peer_id) {
            Some(i) => {
                let ghost pre = self.entries@;
                let mut pb = self.entries.remove(i);
                buffer_append(&mut pb.messages, msg, max_size);
                self.entries.insert(i, pb);
                proof {
                    let fin = self.entries@;
                    assert forall|j: int|
                        0 <= j < pre.len() && j != i implies fin[j] == pre[j] by {
                        if j < i {
                            assert(fin[j] == pre.remove(i as int)[j]);
                            assert(pre.remove(i as int)[j] == pre[j]);
                        } else {
                            assert(fin[j] == pre.remove(i as int)[j - 1]);
                            assert(pre.remove(i as int)[j - 1] == pre[j]);
                        }
                    }
                    assert(fin[i as int] == pb);
                    assert(pb.peer_id@ == pre[i as int].peer_id@);
                    assert forall|a: int, b: int|
                        0 <= a < b < fin.len() implies fin[a].peer_id@ != fin[b].peer_id@ by {
                        if a == i {
                            assert(fin[a] == pb);
                        } else {
                            assert(fin[a] == pre[a]);
                        }
                        if b == i {
                            assert(fin[b] == pb);
                        } else {
                            assert(fin[b] == pre[b]);
                        }
                        assert(fin[a].peer_id@ == pre[a].peer_id@);
                        assert(fin[b].peer_id@ == pre[b].peer_id@);
                    }
                    assert forall|p: Seq<char>|
                        has_peer_buffer(pre, p) implies has_peer_buffer(fin, p) by {
                        let w = choose|w: int| 0 <= w < pre.len() && pre[w].peer_id@ == p;
                        if w == i {
                            assert(fin[i as int].peer_id@ == pre[i as int].peer_id@);
                        } else {
                            assert(fin[w] == pre[w]);
                        }
                    }
                    assert(fin[i as int].peer_id@ == peer_id@);
                }
            }
            None => {
                let ghost pre = self.entries@;
                let mut messages: Vec<ClipboardMessage> = Vec::new();
                messages.push(msg);
                let pb = PeerBuffer { peer_id: String::from_str(peer_id), messages };
                self.entries.push(pb);
                proof {
                    let fin = self.entries@;
                    assert forall|p: Seq<char>|
                        has_peer_buffer(pre, p) implies has_peer_buffer(fin, p) by {
                        let w = choose|w: int| 0 <= w < pre.len() && pre[w].peer_id@ == p;
                        assert(fin[w] == pre[w]);
                    }
                    assert(fin[fin.len() - 1].peer_id@ == peer_id@);
                }
            }
        }
    }

    /// The non-expired hashes buffered for `peer_id`, dropping what has
    /// outlived its time-to-live. A peer without a buffer gets an empty list.
    #[verifier::loop_isolation(false)]
    pub fn hashes_for(&mut self, peer_id: &str, ttl_ms: i64, now_ms: i64) -> (r: Vec<String>)
        requires
            old(self).wf(),
        ensures
            final(self).wf(),
            !has_peer_buffer(old(self).entries@, peer_id@) ==> *final(self) == *old(self)
                && r@.len() == 0,
            has_peer_buffer(old(self).entries@, peer_id@) ==> exists|i: int|
                {
                    &&& 0 <= i < old(self).entries@.len()
                    &&& old(self).entries@[i].peer_id@ == peer_id@
                    &&& final(self).entries@.len() == old(self).entries@.len()
                    &&& (forall|j: int|
                        0 <= j < old(self).entries@.len() && j != i ==> final(self).entries@[j]
                            == old(self).entries@[j])
                    &&& final(self).entries@[i].peer_id@ == peer_id@
                    &&& (forall|a: int|
                        0 <= a < final(self).entries@[i].messages@.len() ==> msg_live(
                            #[trigger] final(self).entries@[i].messages@[a],
                            ttl_ms,
                            now_ms,
                        ) && old(self).entries@[i].messages@.contains(
                            final(self).entries@[i].messages@[a],
                        ))
                    &&& (forall|a: int|
                        0 <= a < old(self).entries@[i].messages@.len() && msg_live(
                            #[trigger] old(self).entries@[i].messages@[a],
                            ttl_ms,
                            now_ms,
                        ) ==> final(self).entries@[i].messages@.contains(
                            old(self).entries@[i].messages@[a],
                        ))
                    &&& r@.len() == final(self).entries@[i].messages@.len()
                    &&& (forall|j: int|
                        0 <= j < r@.len() ==> (#[trigger] r@[j])@
                            == final(self).entries@[i].messages@[j].content_hash@)
                },
    {
        match self.index_of(peer_id) {
            Some(i) => {
                let ghost pre = self.entries@;
                let mut pb = self.entries.remove(i);
                buffer_expire(&mut pb.messages, ttl_ms, now_ms);
                let hashes = buffer_hashes(&pb.messages);
                self.entries.insert(i, pb);
                proof {
                    let fin = self.entries@;
                    assert forall|j: int|
                        0 <= j < pre.len() && j != i implies fin[j] == pre[j] by {
                        if j < i {
                            assert(fin[j] == pre.remove(i as int)[j]);
                            assert(pre.remove(i as int)[j] == pre[j]);
                        } else {
                            assert(fin[j] == pre.remove(i as int)[j - 1]);
                            assert(pre.remove(i as int)[j - 1] == pre[j]);
                        }
                    }
                    assert(fin[i as int] == pb);
                    assert(pb.peer_id@ == pre[i as int].peer_id@);
                    assert forall|a: int, b: int|
                        0 <= a < b < fin.len() implies fin[a].peer_id@ != fin[b].peer_id@ by {
                        if a == i {
                            assert(fin[a] == pb);
                        } else {
                            assert(fin[a] == pre[a]);
                        }
                        if b == i {
                            assert(fin[b] == pb);
                        } else {
                            assert(fin[b] == pre[b]);
                        }
                        assert(fin[a].peer_id@ == pre[a].peer_id@);
                        assert(fin[b].peer_id@ == pre[b].peer_id@);
                    }
                }
                hashes
            }
            None => Vec::new(),
        }
    }

    /// Remove and return the buffered message for `peer_id` carrying `hash`,
    /// if both exist.
    #[verifier::loop_isolation(false)]
    pub fn take_for(&mut self, peer_id: &str, hash: &str) -> (r: Option<ClipboardMessage>)
        requires
            old(self).wf(),
        ensures
            final(self).wf(),
            r is None ==> buffers_like(old(self).entries@, final(self).entries@),
            r matches Some(m) ==> m.content_hash@ == hash@ && exists|i: int|
                {
                    &&& 0 <= i < old(self).entries@.len()
                    &&& old(self).entries@[i].peer_id@ == peer_id@
                    &&& final(self).entries@.len() == old(self).entries@.len()
                    &&& (forall|j: int|
                        0 <= j < old(self).entries@.len() && j != i ==> final(self).entries@[j]
                            == old(self).entries@[j])
                    &&& final(self).entries@[i].peer_id@ == peer_id@
                    &&& exists|k: int|
                        0 <= k < old(self).entries@[i].messages@.len() && old(
                            self,
                        ).entries@[i].messages@[k] == m && final(self).entries@[i].messages@ == old(
                            self,
                        ).entries@[i].messages@.remove(k)
                },
    {
        match self.index_of(peer_id) {
            Some(i) => {
                let ghost pre = self.entries@;
                let mut pb = self.entries.remove(i);
                let taken = buffer_take(&mut pb.messages, hash);
                self.entries.insert(i, pb);
                proof {
                    let fin = self.entries@;
                    assert forall|j: int|
                        0 <= j < pre.len() && j != i implies fin[j] == pre[j] by {
                        if j < i {
                            assert(fin[j] == pre.remove(i as int)[j]);
                            assert(pre.remove(i as int)[j] == pre[j]);
                        } else {
                            assert(fin[j] == pre.remove(i as int)[j - 1]);
                            assert(pre.remove(i as int)[j - 1] == pre[j]);
                        }
                    }
                    assert(fin[i as int] == pb);
                    assert(pb.peer_id@ == pre[i as int].peer_id@);
                    assert forall|a: int, b: int|
                        0 <= a < b < fin.len() implies fin[a].peer_id@ != fin[b].peer_id@ by {
                        if a == i {
                            assert(fin[a] == pb);
                        } else {
                            assert(fin[a] == pre[a]);
                        }
                        if b == i {
                            assert(fin[b] == pb);
                        } else {
                            assert(fin[b] == pre[b]);
                        }
                        assert(fin[a].peer_id@ == pre[a].peer_id@);
                        assert(fin[b].peer_id@ == pre[b].peer_id@);
                    }
                    if taken is None {
                        assert forall|j: int|
                            0 <= j < pre.len() implies (#[trigger] pre[j]).peer_id@
                            == fin[j].peer_id@ && pre[j].messages@ == fin[j].messages@ by {
                            if j != i {
                                assert(fin[j] == pre[j]);
                            }
                        }
                    }
                }
                taken
            }
            None => None,
        }
    }
}

} // verus!
