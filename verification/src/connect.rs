//! Connection tracking for paired peers, and the pure steps of the
//! reconnect barrier.
//!
//! "Connected" here means ready to receive broadcasts (subscribed to the
//! clipboard topic), not merely a transport connection.

use vstd::prelude::*;

use crate::peers::{spec_is_paired, PairedPeer};
use crate::text::str_eq;

verus! {

/// At most this many dial retries per peer.
pub const MAX_CONNECTION_RETRIES: u32 = 3;

/// Delay between dial retries, in milliseconds.
pub const RETRY_DELAY_MS: i64 = 2000;

/// One peer's connection status.
#[derive(Debug, Clone, Copy, PartialEq, Eq, Structural)]
pub enum ConnectionStatus {
    Disconnected,
    Connecting,
    Connected,
}

/// Status and last-connected time of one peer.
#[derive(Debug, Clone, Copy, PartialEq, Eq, Structural)]
pub struct PeerConnectionState {
    pub status: ConnectionStatus,
    /// Unix time in milliseconds of the last successful connection.
    pub last_connected: Option<i64>,
}

/// A peer id with its connection state.
pub struct PeerConnection {
    pub peer_id: String,
    pub state: PeerConnectionState,
}

/// What `ensure_connected` reports.
#[derive(Debug, Clone, Copy, PartialEq, Eq, Structural)]
pub struct ConnectionSummary {
    pub total_peers: usize,
    pub connected: usize,
    pub failed: usize,
}

/// Whether `peer` is recorded as connected.
pub open spec fn spec_peer_connected(conns: Seq<PeerConnection>, peer: Seq<char>) -> bool {
    exists|i: int|
        0 <= i < conns.len() && conns[i].peer_id@ == peer && conns[i].state.status is Connected
}

/// How many of the paired peers are connected.
pub open spec fn spec_connected_count(paired: Seq<PairedPeer>, conns: Seq<PeerConnection>) -> int
    decreases paired.len(),
{
    if paired.len() == 0 {
        0
    } else {
        spec_connected_count(paired.drop_last(), conns) + if spec_peer_connected(
            conns,
            paired.last().peer_id@,
        ) {
            1int
        } else {
            0int
        }
    }
}

/// The connected count never exceeds the number of paired peers.
pub proof fn lemma_connected_count_bound(paired: Seq<PairedPeer>, conns: Seq<PeerConnection>)
    ensures
        0 <= spec_connected_count(paired, conns) <= paired.len(),
    decreases paired.len(),
{
    if paired.len() > 0 {
        lemma_connected_count_bound(paired.drop_last(), conns);
    }
}

/// Whether `peer_id` is recorded as connected.
pub fn is_peer_connected(conns: &Vec<PeerConnection>, peer_id: &str) -> (r: bool)
    ensures
        r == spec_peer_connected(conns@, peer_id@),
{
    let mut i: usize = 0;
    while i < conns.len()
        invariant
            i <= conns@.len(),
            forall|j: int|
                0 <= j < i ==> !((#[trigger] conns@[j]).peer_id@ == peer_id@
                    && conns@[j].state.status is Connected),
        decreases conns@.len() - i,
    {
        let is_conn = match conns[i].state.status {
            ConnectionStatus::Connected => true,
            _ => false,
        };
        if is_conn && str_eq(conns[i].peer_id.as_str(), peer_id) {
            return true;
        }
        i += 1;
    }
    false
}

/// The summary `ensure_connected` returns: every paired peer counted, the
/// connected ones exactly those whose status is `Connected`, the rest
/// failed.
#[verifier::loop_isolation(false)]
pub fn connection_summary(paired: &Vec<PairedPeer>, conns: &Vec<PeerConnection>) -> (r:
    ConnectionSummary)
    ensures
        r.total_peers == paired@.len(),
        r.connected == spec_connected_count(paired@, conns@),
        r.failed == paired@.len() - spec_connected_count(paired@, conns@),
{
    proof {
        lemma_connected_count_bound(paired@, conns@);
    }
    let mut connected: usize = 0;
    let mut i: usize = 0;
    while i < paired.len()
        invariant
            i <= paired@.len(),
            connected == spec_connected_count(paired@.subrange(0, i as int), conns@),
            connected <= i,
        decreases paired@.len() - i,
    {
        proof {
            lemma_connected_count_bound(paired@.subrange(0, i as int), conns@);
        }
        if is_peer_connected(conns, paired[i].peer_id.as_str()) {
            connected += 1;
        }
        proof {
            let sub = paired@.subrange(0, i + 1);
            assert(sub.drop_last() =~= paired@.subrange(0, i as int));
            assert(sub.last() == paired@[i as int]);
        }
        i += 1;
    }
    proof {
        assert(paired@.subrange(0, paired@.len() as int) =~= paired@);
        lemma_connected_count_bound(paired@, conns@);
    }
    ConnectionSummary {
        total_peers: paired.len(),
        connected,
        failed: paired.len() - connected,
    }
}

/// The paired peers that are not currently connected: the set the barrier
/// dials.
pub fn peers_to_dial(paired: &Vec<PairedPeer>, conns: &Vec<PeerConnection>) -> (r: Vec<String>)
    ensures
        forall|j: int| 0 <= j < r@.len() ==> !spec_peer_connected(conns@, (#[trigger] r@[j])@),
        forall|j: int| 0 <= j < r@.len() ==> spec_is_paired(paired@, (#[trigger] r@[j])@),
        forall|k: int|
            0 <= k < paired@.len() && !spec_peer_connected(
                conns@,
                (#[trigger] paired@[k]).peer_id@,
            ) ==> crate::buffers::hash_listed(r@, paired@[k].peer_id@),
{
    let mut out: Vec<String> = Vec::new();
    let mut i: usize = 0;
    while i < paired.len()
        invariant
            i <= paired@.len(),
            forall|j: int|
                0 <= j < out@.len() ==> !spec_peer_connected(conns@, (#[trigger] out@[j])@),
            forall|j: int| 0 <= j < out@.len() ==> spec_is_paired(paired@, (#[trigger] out@[j])@),
            forall|k: int|
                0 <= k < i && !spec_peer_connected(conns@, (#[trigger] paired@[k]).peer_id@)
                    ==> crate::buffers::hash_listed(out@, paired@[k].peer_id@),
        decreases paired@.len() - i,
    {
        let ghost before = out@;
        if !is_peer_connected(conns, paired[i].peer_id.as_str()) {
            out.push(paired[i].peer_id.clone());
            proof {
                assert(out@[out@.len() - 1]@ == paired@[i as int].peer_id@);
            }
        }
        proof {
            assert forall|k: int|
                0 <= k < i + 1 && !spec_peer_connected(
                    conns@,
                    (#[trigger] paired@[k]).peer_id@,
                ) implies crate::buffers::hash_listed(out@, paired@[k].peer_id@) by {
                if k < i {
                    let w = choose|w: int|
                        0 <= w < before.len() && before[w]@ == paired@[k].peer_id@;
                    assert(out@[w]@ == paired@[k].peer_id@);
                } else {
                    assert(out@[out@.len() - 1]@ == paired@[k].peer_id@);
                }
            }
        }
        i += 1;
    }
    out
}

/// Record a status for `peer_id`, keeping its last-connected time, adding a
/// record if none exists. Afterwards every record with this id — there is
/// exactly one — carries the new status.
#[verifier::loop_isolation(false)]
pub fn set_peer_status(
    conns: &mut Vec<PeerConnection>,
    peer_id: &str,
    status: ConnectionStatus,
    connected_at: Option<i64>,
)
    requires
        forall|a: int, b: int|
            0 <= a < b < old(conns)@.len() ==> old(conns)@[a].peer_id@
                != old(conns)@[b].peer_id@,
    ensures
        forall|a: int, b: int|
            0 <= a < b < final(conns)@.len() ==> final(conns)@[a].peer_id@
                != final(conns)@[b].peer_id@,
        forall|j: int|
            0 <= j < final(conns)@.len() && (#[trigger] final(conns)@[j]).peer_id@ == peer_id@
                ==> final(conns)@[j].state.status == status,
        exists|i: int|
            {
                &&& 0 <= i < final(conns)@.len()
                &&& final(conns)@[i].peer_id@ == peer_id@
                &&& final(conns)@[i].state.status == status
                &&& (connected_at is Some ==> final(conns)@[i].state.last_connected
                    == connected_at)
                &&& (forall|j: int|
                    0 <= j < final(conns)@.len() && j != i ==> old(conns)@.contains(
                        #[trigger] final(conns)@[j],
                    ))
            },
{
    let mut i: usize = 0;
    while i < conns.len()
        invariant
            i <= conns@.len(),
            conns@ == old(conns)@,
            forall|j: int| 0 <= j < i ==> (#[trigger] conns@[j]).peer_id@ != peer_id@,
        decreases conns@.len() - i,
    {
        if str_eq(conns[i].peer_id.as_str(), peer_id) {
            let ghost pre = conns@;
            let mut c = conns.remove(i);
            c.state = PeerConnectionState {
                status,
                last_connected: match connected_at {
                    Some(t) => Some(t),
                    None => c.state.last_connected,
                },
            };
            let ghost cafter = c;
            conns.insert(i, c);
            proof {
                let fin = conns@;
                assert(fin[i as int] == cafter);
                assert forall|j: int| 0 <= j < fin.len() && j != i implies fin[j] == pre[j] by {
                    if j < i {
                        assert(fin[j] == pre.remove(i as int)[j]);
                        assert(pre.remove(i as int)[j] == pre[j]);
                    } else {
                        assert(fin[j] == pre.remove(i as int)[j - 1]);
                        assert(pre.remove(i as int)[j - 1] == pre[j]);
                    }
                }
                assert forall|j: int|
                    0 <= j < fin.len() && (#[trigger] fin[j]).peer_id@ == peer_id@ implies
                    fin[j].state.status == status by {
                    if j != i {
                        assert(fin[j] == pre[j]);
                        if j < i {
                            assert(pre[j].peer_id@ != pre[i as int].peer_id@);
                        } else {
                            assert(pre[i as int].peer_id@ != pre[j].peer_id@);
                        }
                        assert(false);
                    }
                }
                assert forall|a: int, b: int|
                    0 <= a < b < fin.len() implies fin[a].peer_id@ != fin[b].peer_id@ by {
                    if a != i {
                        assert(fin[a] == pre[a]);
                    }
                    if b != i {
                        assert(fin[b] == pre[b]);
                    }
                    assert(fin[a].peer_id@ == pre[a].peer_id@);
                    assert(fin[b].peer_id@ == pre[b].peer_id@);
                }
            }
            return ;
        }
        i += 1;
    }
    let fresh = PeerConnection {
        peer_id: String::from_str(peer_id),
        state: PeerConnectionState { status, last_connected: connected_at },
    };
    conns.push(fresh);
    proof {
        let fin = conns@;
        assert(fin[fin.len() - 1].peer_id@ == peer_id@);
        assert forall|j: int|
            0 <= j < fin.len() && j != fin.len() - 1 implies old(conns)@.contains(
            #[trigger] fin[j],
        ) by {
            assert(fin[j] == old(conns)@[j]);
        }
        assert forall|j: int|
            0 <= j < fin.len() && (#[trigger] fin[j]).peer_id@ == peer_id@ implies
            fin[j].state.status == status by {
            if j < fin.len() - 1 {
                assert(fin[j] == old(conns)@[j]);
                assert(false);
            }
        }
        assert forall|a: int, b: int|
            0 <= a < b < fin.len() implies fin[a].peer_id@ != fin[b].peer_id@ by {
            if b < fin.len() - 1 {
                assert(fin[a] == old(conns)@[a]);
                assert(fin[b] == old(conns)@[b]);
            } else {
                assert(fin[a] == old(conns)@[a]);
            }
        }
    }
}

/// After the barrier's timeout, every peer still marked `Connecting` is
/// reset to `Disconnected`; nothing else changes.
pub fn reset_connecting(conns: &mut Vec<PeerConnection>)
    ensures
        final(conns)@.len() == old(conns)@.len(),
        forall|i: int|
            0 <= i < old(conns)@.len() ==> {
                &&& (#[trigger] final(conns)@[i]).peer_id == old(conns)@[i].peer_id
                &&& final(conns)@[i].state.last_connected == old(conns)@[i].state.last_connected
                &&& final(conns)@[i].state.status == (if old(conns)@[i].state.status
                    is Connecting {
                    ConnectionStatus::Disconnected
                } else {
                    old(conns)@[i].state.status
                })
            },
{
    let mut i: usize = 0;
    while i < conns.len()
        invariant
            i <= conns@.len(),
            conns@.len() == old(conns)@.len(),
            forall|j: int| i <= j < conns@.len() ==> conns@[j] == old(conns)@[j],
            forall|j: int|
                0 <= j < i ==> {
                    &&& (#[trigger] conns@[j]).peer_id == old(conns)@[j].peer_id
                    &&& conns@[j].state.last_connected == old(conns)@[j].state.last_connected
                    &&& conns@[j].state.status == (if old(conns)@[j].state.status is Connecting {
                        ConnectionStatus::Disconnected
                    } else {
                        old(conns)@[j].state.status
                    })
                },
        decreases conns@.len() - i,
    {
        let is_connecting = match conns[i].state.status {
            ConnectionStatus::Connecting => true,
            _ => false,
        };
        if is_connecting {
            let ghost pre = conns@;
            let mut c = conns.remove(i);
            c.state = PeerConnectionState {
                status: ConnectionStatus::Disconnected,
                last_connected: c.state.last_connected,
            };
            let ghost cafter = c;
            conns.insert(i, c);
            proof {
                let fin = conns@;
                assert(fin[i as int] == cafter);
                assert forall|j: int| 0 <= j < fin.len() && j != i implies fin[j] == pre[j] by {
                    if j < i {
                        assert(fin[j] == pre.remove(i as int)[j]);
                        assert(pre.remove(i as int)[j] == pre[j]);
                    } else {
                        assert(fin[j] == pre.remove(i as int)[j - 1]);
                        assert(pre.remove(i as int)[j - 1] == pre[j]);
                    }
                }
            }
        }
        i += 1;
    }
}

/// A scheduled dial retry for one peer.
pub struct RetryState {
    pub peer_id: String,
    pub address: String,
    pub retry_count: u32,
    /// Unix time in milliseconds of the next attempt.
    pub next_retry_at: i64,
}

/// Schedule the next retry after a failed dial: up to three attempts, two
/// seconds apart. Returns the retry to record, or nothing once the
/// attempts are exhausted.
pub fn next_retry(
    peer_id: String,
    address: String,
    failed_count: u32,
    now_ms: i64,
) -> (r: Option<RetryState>)
    requires
        now_ms + RETRY_DELAY_MS <= i64::MAX,
    ensures
        failed_count < MAX_CONNECTION_RETRIES <==> r is Some,
        r matches Some(s) ==> s.peer_id == peer_id && s.address == address && s.retry_count
            == failed_count + 1 && s.next_retry_at == now_ms + RETRY_DELAY_MS,
{
    if failed_count < MAX_CONNECTION_RETRIES {
        Some(
            RetryState {
                peer_id,
                address,
                retry_count: failed_count + 1,
                next_retry_at: now_ms + RETRY_DELAY_MS,
            },
        )
    } else {
        None
    }
}

/// Whether a scheduled retry is due at `now_ms`.
pub fn retry_due(retry: &RetryState, now_ms: i64) -> (r: bool)
    ensures
        r == (now_ms >= retry.next_retry_at),
{
    now_ms >= retry.next_retry_at
}

} // verus!
