//! Paired and discovered peers, and the list operations on them.

use vstd::prelude::*;

use crate::text::str_eq;

verus! {

/// A device we share a symmetric secret with.
pub struct PairedPeer {
    pub peer_id: String,
    pub device_name: String,
    /// 32-byte ECDH output; the AES key for this peer.
    pub shared_secret: Vec<u8>,
    /// Unix time in milliseconds.
    pub paired_at: i64,
    /// Unix time in milliseconds of the last discovery, if any.
    pub last_seen: Option<i64>,
    /// Transport addresses from the last discovery, for reconnection.
    pub last_known_addresses: Vec<String>,
}

/// Two string lists with the same texts.
pub open spec fn strings_like(a: Seq<String>, b: Seq<String>) -> bool {
    a.len() == b.len() && forall|i: int| 0 <= i < a.len() ==> (#[trigger] a[i])@ == b[i]@
}

/// Two paired-peer records with the same contents.
pub open spec fn peer_like(a: PairedPeer, b: PairedPeer) -> bool {
    &&& a.peer_id@ == b.peer_id@
    &&& a.device_name@ == b.device_name@
    &&& a.shared_secret@ == b.shared_secret@
    &&& a.paired_at == b.paired_at
    &&& a.last_seen == b.last_seen
    &&& strings_like(a.last_known_addresses@, b.last_known_addresses@)
}

impl PairedPeer {
    /// A well-formed record holds a 32-byte secret.
    pub open spec fn wf(&self) -> bool {
        self.shared_secret@.len() == 32
    }
}

impl Clone for PairedPeer {
    /// A copy with the same contents.
    fn clone(&self) -> (r: Self)
        ensures
            peer_like(*self, r),
            self.wf() ==> r.wf(),
    {
        PairedPeer {
            peer_id: self.peer_id.clone(),
            device_name: self.device_name.clone(),
            shared_secret: crate::protocol::clone_bytes(&self.shared_secret),
            paired_at: self.paired_at,
            last_seen: self.last_seen,
            last_known_addresses: clone_strings(&self.last_known_addresses),
        }
    }
}

/// A text-for-text copy of a list of strings.
pub fn clone_strings(v: &Vec<String>) -> (r: Vec<String>)
    ensures
        strings_like(v@, r@),
{
    let mut out: Vec<String> = Vec::new();
    let mut i: usize = 0;
    while i < v.len()
        invariant
            i <= v@.len(),
            out@.len() == i,
            forall|j: int| 0 <= j < i ==> (#[trigger] out@[j])@ == v@[j]@,
        decreases v@.len() - i,
    {
        out.push(v[i].clone());
        i += 1;
    }
    out
}

/// A peer seen on the network but not (yet) paired.
pub struct DiscoveredPeer {
    pub peer_id: String,
    pub device_name: Option<String>,
    pub addresses: Vec<String>,
    /// Unix time in milliseconds.
    pub discovered_at: i64,
    pub is_paired: bool,
}

/// Two discovery records with the same contents.
pub open spec fn discovered_like(a: DiscoveredPeer, b: DiscoveredPeer) -> bool {
    &&& a.peer_id@ == b.peer_id@
    &&& (a.device_name is Some <==> b.device_name is Some)
    &&& (a.device_name matches Some(x) ==> b.device_name matches Some(y) && x@ == y@)
    &&& strings_like(a.addresses@, b.addresses@)
    &&& a.discovered_at == b.discovered_at
    &&& a.is_paired == b.is_paired
}

impl Clone for DiscoveredPeer {
    /// A copy with the same contents.
    fn clone(&self) -> (r: Self)
        ensures
            discovered_like(*self, r),
    {
        DiscoveredPeer {
            peer_id: self.peer_id.clone(),
            device_name: match &self.device_name {
                Some(n) => Some(n.clone()),
                None => None,
            },
            addresses: clone_strings(&self.addresses),
            discovered_at: self.discovered_at,
            is_paired: self.is_paired,
        }
    }
}

/// Whether some paired peer has this id.
pub open spec fn spec_is_paired(peers: Seq<PairedPeer>, peer_id: Seq<char>) -> bool {
    exists|i: int| 0 <= i < peers.len() && peers[i].peer_id@ == peer_id
}

/// Whether `peer_id` is in the paired list.
pub fn is_peer_paired(peers: &Vec<PairedPeer>, peer_id: &str) -> (r: bool)
    ensures
        r == spec_is_paired(peers@, peer_id@),
{
    let mut i: usize = 0;
    while i < peers.len()
        invariant
            i <= peers@.len(),
            forall|j: int| 0 <= j < i ==> (#[trigger] peers@[j]).peer_id@ != peer_id@,
        decreases peers@.len() - i,
    {
        if str_eq(peers[i].peer_id.as_str(), peer_id) {
            return true;
        }
        i += 1;
    }
    false
}

/// The position of `peer_id` in the paired list, if present.
pub fn find_paired(peers: &Vec<PairedPeer>, peer_id: &str) -> (r: Option<usize>)
    ensures
        r matches Some(i) ==> i < peers@.len() && peers@[i as int].peer_id@ == peer_id@,
        r is None ==> !spec_is_paired(peers@, peer_id@),
{
    let mut i: usize = 0;
    while i < peers.len()
        invariant
            i <= peers@.len(),
            forall|j: int| 0 <= j < i ==> (#[trigger] peers@[j]).peer_id@ != peer_id@,
        decreases peers@.len() - i,
    {
        if str_eq(peers[i].peer_id.as_str(), peer_id) {
            return Some(i);
        }
        i += 1;
    }
    None
}

/// Remove `peer_id` from the paired list. Returns the removed peer's id and
/// display name, so it can be re-announced as merely discovered.
pub fn remove_paired_peer(peers: &mut Vec<PairedPeer>, peer_id: &str) -> (r: Option<
    (String, String),
>)
    ensures
        r is None ==> final(peers)@ == old(peers)@ && !spec_is_paired(old(peers)@, peer_id@),
        r matches Some(info) ==> info.0@ == peer_id@ && exists|i: int|
            {
                &&& 0 <= i < old(peers)@.len()
                &&& old(peers)@[i].peer_id@ == peer_id@
                &&& info.1@ == old(peers)@[i].device_name@
                &&& final(peers)@ == old(peers)@.remove(i)
            },
{
    match find_paired(peers, peer_id) {
        Some(i) => {
            let gone = peers.remove(i);
            Some((gone.peer_id, gone.device_name))
        }
        None => None,
    }
}

/// The position of `peer_id` among the discovered peers, if present.
pub fn find_discovered(peers: &Vec<DiscoveredPeer>, peer_id: &str) -> (r: Option<usize>)
    ensures
        r matches Some(i) ==> i < peers@.len() && peers@[i as int].peer_id@ == peer_id@,
        r is None ==> forall|j: int|
            0 <= j < peers@.len() ==> (#[trigger] peers@[j]).peer_id@ != peer_id@,
{
    let mut i: usize = 0;
    while i < peers.len()
        invariant
            i <= peers@.len(),
            forall|j: int| 0 <= j < i ==> (#[trigger] peers@[j]).peer_id@ != peer_id@,
        decreases peers@.len() - i,
    {
        if str_eq(peers[i].peer_id.as_str(), peer_id) {
            return Some(i);
        }
        i += 1;
    }
    None
}

/// The addresses last seen for `peer_id` among the discovered peers, or an
/// empty list: what a pairing session captures at initiation.
pub fn addresses_for(peers: &Vec<DiscoveredPeer>, peer_id: &str) -> (r: Vec<String>)
    ensures
        (exists|i: int| 0 <= i < peers@.len() && (#[trigger] peers@[i]).peer_id@ == peer_id@)
            ==> exists|i: int|
            {
                &&& 0 <= i < peers@.len()
                &&& (#[trigger] peers@[i]).peer_id@ == peer_id@
                &&& strings_like(peers@[i].addresses@, r@)
            },
        (forall|i: int| 0 <= i < peers@.len() ==> (#[trigger] peers@[i]).peer_id@ != peer_id@)
            ==> r@.len() == 0,
{
    match find_discovered(peers, peer_id) {
        Some(i) => clone_strings(&peers[i].addresses),
        None => Vec::new(),
    }
}

/// The discovered peers that are not paired: what a peer list shows as
/// candidates for pairing.
pub fn unpaired_discovered(discovered: &Vec<DiscoveredPeer>, paired: &Vec<PairedPeer>) -> (r: Vec<
    DiscoveredPeer,
>)
    ensures
        forall|j: int|
            0 <= j < r@.len() ==> !spec_is_paired(paired@, (#[trigger] r@[j]).peer_id@) && exists|
                k: int,
            | 0 <= k < discovered@.len() && discovered_like(discovered@[k], r@[j]),
        forall|k: int|
            0 <= k < discovered@.len() && !spec_is_paired(
                paired@,
                (#[trigger] discovered@[k]).peer_id@,
            ) ==> exists|j: int| 0 <= j < r@.len() && discovered_like(discovered@[k], r@[j]),
{
    let mut out: Vec<DiscoveredPeer> = Vec::new();
    let mut i: usize = 0;
    while i < discovered.len()
        invariant
            i <= discovered@.len(),
            forall|j: int|
                0 <= j < out@.len() ==> !spec_is_paired(paired@, (#[trigger] out@[j]).peer_id@)
                    && exists|k: int|
                    0 <= k < discovered@.len() && discovered_like(discovered@[k], out@[j]),
            forall|k: int|
                0 <= k < i && !spec_is_paired(paired@, (#[trigger] discovered@[k]).peer_id@)
                    ==> exists|j: int| 0 <= j < out@.len() && discovered_like(
                    discovered@[k],
                    out@[j],
                ),
        decreases discovered@.len() - i,
    {
        let ghost before = out@;
        if !is_peer_paired(paired, discovered[i].peer_id.as_str()) {
            out.push(discovered[i].clone());
            proof {
                assert(discovered_like(discovered@[i as int], out@[out@.len() - 1]));
            }
        }
        proof {
            assert forall|k: int|
                0 <= k < i + 1 && !spec_is_paired(
                    paired@,
                    (#[trigger] discovered@[k]).peer_id@,
                ) implies exists|j: int| 0 <= j < out@.len() && discovered_like(
                discovered@[k],
                out@[j],
            ) by {
                if k < i {
                    let w = choose|w: int|
                        0 <= w < before.len() && discovered_like(discovered@[k], before[w]);
                    assert(discovered_like(discovered@[k], out@[w]));
                } else {
                    assert(discovered_like(discovered@[k], out@[out@.len() - 1]));
                }
            }
        }
        i += 1;
    }
    out
}

/// Record a fresh discovery of a paired peer: update its last-known
/// addresses and last-seen time. Returns whether the addresses changed (and
/// so must be flushed): false only for an unknown peer, an empty address
/// list, or addresses equal to those already stored.
pub fn update_paired_addresses(
    peers: &mut Vec<PairedPeer>,
    peer_id: &str,
    addresses: &Vec<String>,
    now_ms: i64,
) -> (r: bool)
    ensures
        !spec_is_paired(old(peers)@, peer_id@) ==> final(peers)@ == old(peers)@ && r == false,
        !r ==> (addresses@.len() == 0 || !spec_is_paired(old(peers)@, peer_id@) || exists|i: int|
            0 <= i < old(peers)@.len() && (#[trigger] old(peers)@[i]).peer_id@ == peer_id@
                && strings_like(old(peers)@[i].last_known_addresses@, addresses@)),
        r ==> exists|i: int|
            {
                &&& 0 <= i < old(peers)@.len()
                &&& old(peers)@[i].peer_id@ == peer_id@
                &&& final(peers)@.len() == old(peers)@.len()
                &&& (forall|j: int|
                    0 <= j < old(peers)@.len() && j != i ==> final(peers)@[j] == old(peers)@[j])
                &&& final(peers)@[i].peer_id@ == old(peers)@[i].peer_id@
                &&& final(peers)@[i].device_name@ == old(peers)@[i].device_name@
                &&& final(peers)@[i].shared_secret@ == old(peers)@[i].shared_secret@
                &&& strings_like(final(peers)@[i].last_known_addresses@, addresses@)
                &&& final(peers)@[i].last_seen == Some(now_ms)
            },
        !r ==> final(peers)@ == old(peers)@,
{
    if addresses.len() == 0 {
        return false;
    }
    match find_paired(peers, peer_id) {
        Some(i) => {
            let same = same_strings(&peers[i].last_known_addresses, addresses);
            if same {
                return false;
            }
            let ghost pre = peers@;
            let mut p = peers.remove(i);
            p.last_known_addresses = clone_strings(addresses);
            p.last_seen = Some(now_ms);
            let ghost pafter = p;
            peers.insert(i, p);
            proof {
                let fin = peers@;
                assert forall|j: int| 0 <= j < pre.len() && j != i implies fin[j] == pre[j] by {
                    if j < i {
                        assert(fin[j] == pre.remove(i as int)[j]);
                        assert(pre.remove(i as int)[j] == pre[j]);
                    } else {
                        assert(fin[j] == pre.remove(i as int)[j - 1]);
                        assert(pre.remove(i as int)[j - 1] == pre[j]);
                    }
                }
                assert(fin[i as int] == pafter);
                assert(pafter.peer_id == pre[i as int].peer_id);
                assert(strings_like(fin[i as int].last_known_addresses@, addresses@));
            }
            true
        }
        None => false,
    }
}

/// Record a peer's new display name in the paired list. Returns whether a
/// name actually changed: false only for an unknown peer or a name already
/// stored.
pub fn update_paired_name(peers: &mut Vec<PairedPeer>, peer_id: &str, device_name: &str) -> (r:
    bool)
    ensures
        !spec_is_paired(old(peers)@, peer_id@) ==> final(peers)@ == old(peers)@ && r == false,
        !r ==> (!spec_is_paired(old(peers)@, peer_id@) || exists|i: int|
            0 <= i < old(peers)@.len() && (#[trigger] old(peers)@[i]).peer_id@ == peer_id@
                && old(peers)@[i].device_name@ == device_name@),
        r ==> exists|i: int|
            {
                &&& 0 <= i < old(peers)@.len()
                &&& old(peers)@[i].peer_id@ == peer_id@
                &&& final(peers)@.len() == old(peers)@.len()
                &&& (forall|j: int|
                    0 <= j < old(peers)@.len() && j != i ==> final(peers)@[j] == old(peers)@[j])
                &&& final(peers)@[i].peer_id@ == old(peers)@[i].peer_id@
                &&& final(peers)@[i].device_name@ == device_name@
                &&& final(peers)@[i].shared_secret@ == old(peers)@[i].shared_secret@
                &&& final(peers)@[i].last_seen == old(peers)@[i].last_seen
                &&& final(peers)@[i].last_known_addresses == old(peers)@[i].last_known_addresses
            },
        !r ==> final(peers)@ == old(peers)@,
{
    match find_paired(peers, peer_id) {
        Some(i) => {
            if str_eq(peers[i].device_name.as_str(), device_name) {
                return false;
            }
            let ghost pre = peers@;
            let mut p = peers.remove(i);
            p.device_name = String::from_str(device_name);
            let ghost pafter = p;
            peers.insert(i, p);
            proof {
                let fin = peers@;
                assert forall|j: int| 0 <= j < pre.len() && j != i implies fin[j] == pre[j] by {
                    if j < i {
                        assert(fin[j] == pre.remove(i as int)[j]);
                        assert(pre.remove(i as int)[j] == pre[j]);
                    } else {
                        assert(fin[j] == pre.remove(i as int)[j - 1]);
                        assert(pre.remove(i as int)[j - 1] == pre[j]);
                    }
                }
                assert(fin[i as int] == pafter);
                assert(pafter.peer_id == pre[i as int].peer_id);
            }
            true
        }
        None => false,
    }
}

/// Whether two string lists hold the same texts, position by position.
pub fn same_strings(a: &Vec<String>, b: &Vec<String>) -> (r: bool)
    ensures
        r == strings_like(a@, b@),
{
    if a.len() != b.len() {
        return false;
    }
    let mut i: usize = 0;
    while i < a.len()
        invariant
            i <= a@.len(),
            a@.len() == b@.len(),
            forall|j: int| 0 <= j < i ==> (#[trigger] a@[j])@ == b@[j]@,
        decreases a@.len() - i,
    {
        if !str_eq(a[i].as_str(), b[i].as_str()) {
            return false;
        }
        i += 1;
    }
    true
}

/// Remove `peer_id` from the discovered list (after pairing or expiry).
pub fn remove_discovered(peers: &mut Vec<DiscoveredPeer>, peer_id: &str)
    ensures
        forall|j: int|
            0 <= j < final(peers)@.len() ==> (#[trigger] final(peers)@[j]).peer_id@ != peer_id@,
        forall|j: int|
            0 <= j < final(peers)@.len() ==> old(peers)@.contains(#[trigger] final(peers)@[j]),
        forall|k: int|
            0 <= k < old(peers)@.len() && (#[trigger] old(peers)@[k]).peer_id@ != peer_id@
                ==> final(peers)@.contains(old(peers)@[k]),
{
    let mut i: usize = 0;
    while i < peers.len()
        invariant
            i <= peers@.len(),
            forall|j: int| 0 <= j < i ==> (#[trigger] peers@[j]).peer_id@ != peer_id@,
            forall|j: int| 0 <= j < peers@.len() ==> old(peers)@.contains(#[trigger] peers@[j]),
            forall|k: int|
                0 <= k < old(peers)@.len() && (#[trigger] old(peers)@[k]).peer_id@ != peer_id@
                    ==> peers@.contains(old(peers)@[k]),
        decreases peers@.len() - i,
    {
        if str_eq(peers[i].peer_id.as_str(), peer_id) {
            let ghost pre = peers@;
            let ghost gone = peers@[i as int];
            peers.remove(i);
            proof {
                assert forall|j: int| 0 <= j < peers@.len() implies old(peers)@.contains(
                    #[trigger] peers@[j],
                ) by {
                    assert(peers@[j] == pre[if j < i { j } else { j + 1 }]);
                }
                assert forall|j: int| 0 <= j < i implies (#[trigger] peers@[j]).peer_id@
                    != peer_id@ by {
                    assert(peers@[j] == pre[j]);
                }
                assert forall|k: int|
                    0 <= k < old(peers)@.len() && (#[trigger] old(peers)@[k]).peer_id@
                        != peer_id@ implies peers@.contains(old(peers)@[k]) by {
                    assert(pre.contains(old(peers)@[k]));
                    let w = choose|w: int| 0 <= w < pre.len() && pre[w] == old(peers)@[k];
                    assert(gone.peer_id@ == peer_id@);
                    assert(w != i);
                    assert(peers@[if w < i { w } else { w - 1 }] == pre[w]);
                }
            }
        } else {
            i += 1;
        }
    }
}

/// Add or refresh a discovery record, keyed by peer id.
pub fn upsert_discovered(peers: &mut Vec<DiscoveredPeer>, peer: DiscoveredPeer)
    ensures
        exists|i: int|
            0 <= i < final(peers)@.len() && final(peers)@[i] == peer && (forall|j: int|
                0 <= j < final(peers)@.len() && j != i ==> old(peers)@.contains(
                    #[trigger] final(peers)@[j],
                )),
{
    let ghost peer_snapshot = peer;
    match find_discovered(peers, peer.peer_id.as_str()) {
        Some(i) => {
            let ghost pre = peers@;
            peers.remove(i);
            let ghost mid = peers@;
            proof {
                assert forall|j: int| 0 <= j < mid.len() implies old(peers)@.contains(
                    #[trigger] mid[j],
                ) by {
                    assert(mid[j] == pre[if j < i { j } else { j + 1 }]);
                }
            }
            peers.push(peer);
            proof {
                let fin = peers@;
                let w = fin.len() - 1;
                assert(fin[w] == peer_snapshot);
                assert forall|j: int| 0 <= j < fin.len() && j != w implies old(peers)@.contains(
                    #[trigger] fin[j],
                ) by {
                    assert(fin[j] == mid[j]);
                }
            }
        }
        None => {
            peers.push(peer);
            proof {
                let fin = peers@;
                let w = fin.len() - 1;
                assert(fin[w] == peer_snapshot);
                assert forall|j: int| 0 <= j < fin.len() && j != w implies old(peers)@.contains(
                    #[trigger] fin[j],
                ) by {
                    assert(fin[j] == old(peers)@[j]);
                }
            }
        }
    }
}

} // verus!
