//! The daemon's register of peers and its counters.

use vstd::prelude::*;
use vstd::string::*;
use crate::system::unix_millis;

verus! {

/// What the daemon knows of one peer.
#[derive(Debug, Default)]
pub struct PeerInfo {
    pub node_id: String,
    pub registered_at: u64,
    pub last_seen: u64,
    pub capabilities: Vec<String>,
    pub url: Option<String>,
    pub version: Option<String>,
}

/// A peer as plain values.
pub struct PeerInfoView {
    pub node_id: Seq<char>,
    pub registered_at: u64,
    pub last_seen: u64,
    pub capabilities: Seq<Seq<char>>,
    pub url: Option<Seq<char>>,
    pub version: Option<Seq<char>>,
}

/// The texts of a list of strings.
pub open spec fn texts(strings: Seq<String>) -> Seq<Seq<char>> {
    Seq::new(strings.len(), |i: int| strings[i]@)
}

/// The text of an optional string.
pub open spec fn optional_text(o: Option<String>) -> Option<Seq<char>> {
    match o {
        Some(s) => Some(s@),
        None => None,
    }
}

impl View for PeerInfo {
    type V = PeerInfoView;

    open spec fn view(&self) -> PeerInfoView {
        PeerInfoView {
            node_id: self.node_id@,
            registered_at: self.registered_at,
            last_seen: self.last_seen,
            capabilities: texts(self.capabilities@),
            url: optional_text(self.url),
            version: optional_text(self.version),
        }
    }
}

/// A copy of a list of strings.
fn copy_strings(strings: &Vec<String>) -> (copy: Vec<String>)
    ensures
        texts(copy@) == texts(strings@),
{
    let mut copy: Vec<String> = Vec::new();
    let mut i: usize = 0;
    while i < strings.len()
        invariant
            i <= strings@.len(),
            copy@.len() == i,
            forall|j: int| 0 <= j < i ==> copy@[j]@ == strings@[j]@,
        decreases strings@.len() - i,
    {
        copy.push(strings[i].clone());
        i = i + 1;
    }
    assert(texts(copy@) =~= texts(strings@));
    copy
}

/// A copy of an optional string.
fn copy_optional(o: &Option<String>) -> (copy: Option<String>)
    ensures
        optional_text(copy) == optional_text(*o),
{
    match o {
        Some(s) => Some(s.clone()),
        None => None,
    }
}

impl Clone for PeerInfo {
    fn clone(&self) -> (copy: Self)
        ensures
            copy@ == self@,
    {
        PeerInfo {
            node_id: self.node_id.clone(),
            registered_at: self.registered_at,
            last_seen: self.last_seen,
            capabilities: copy_strings(&self.capabilities),
            url: copy_optional(&self.url),
            version: copy_optional(&self.version),
        }
    }
}

/// The daemon's counters.
#[derive(Debug, Clone, Copy, Default, PartialEq, Eq, Structural)]
pub struct DaemonStats {
    pub blocks_validated: u64,
    pub transactions_validated: u64,
    pub peers_registered: u64,
    /// When the daemon was made, in seconds since the Unix epoch.
    pub start_time: u64,
}

/// The daemon: whether it runs, the peers registered with it in the order of
/// their registration, and its counters.
#[derive(Debug)]
pub struct Daemon {
    pub is_running: bool,
    pub peers: Vec<PeerInfo>,
    pub stats: DaemonStats,
}

/// Whether one of `peers` has the identifier `node_id`.
pub open spec fn has_peer(peers: Seq<PeerInfo>, node_id: Seq<char>) -> bool {
    exists|i: int| 0 <= i < peers.len() && #[trigger] peers[i].node_id@ == node_id
}

/// No two of `peers` have the same identifier.
pub open spec fn distinct_ids(peers: Seq<PeerInfo>) -> bool {
    forall|i: int, j: int|
        0 <= i < j < peers.len() ==> #[trigger] peers[i].node_id@ != #[trigger] peers[j].node_id@
}

/// `peers` without those that have the identifier `node_id`, the others in
/// their order.
pub open spec fn without_peer(peers: Seq<PeerInfo>, node_id: Seq<char>) -> Seq<PeerInfo>
    decreases peers.len(),
{
    if peers.len() == 0 {
        Seq::empty()
    } else if peers.last().node_id@ == node_id {
        without_peer(peers.drop_last(), node_id)
    } else {
        without_peer(peers.drop_last(), node_id).push(peers.last())
    }
}

/// Whoever is left after a peer is taken out was there before, and is not the
/// one taken out.
pub proof fn without_peer_keeps_others(peers: Seq<PeerInfo>, node_id: Seq<char>, other: Seq<char>)
    ensures
        has_peer(without_peer(peers, node_id), other) <==> (other != node_id && has_peer(
            peers,
            other,
        )),
    decreases peers.len(),
{
    let rest = without_peer(peers, node_id);
    if peers.len() > 0 {
        let init = peers.drop_last();
        let rest_init = without_peer(init, node_id);
        without_peer_keeps_others(init, node_id, other);
        if has_peer(rest, other) {
            let i = choose|i: int| 0 <= i < rest.len() && #[trigger] rest[i].node_id@ == other;
            if i < rest_init.len() {
                assert(rest_init[i].node_id@ == other);
                let j = choose|j: int| 0 <= j < init.len() && #[trigger] init[j].node_id@ == other;
                assert(peers[j].node_id@ == other);
            } else {
                assert(peers[peers.len() - 1].node_id@ == other);
            }
        }
        if other != node_id && has_peer(peers, other) {
            let j = choose|j: int| 0 <= j < peers.len() && #[trigger] peers[j].node_id@ == other;
            if j < init.len() {
                assert(init[j].node_id@ == other);
                let i = choose|i: int|
                    0 <= i < rest_init.len() && #[trigger] rest_init[i].node_id@ == other;
                assert(rest[i].node_id@ == other);
            } else {
                assert(rest[rest.len() - 1].node_id@ == other);
            }
        }
    }
}

/// Taking a peer out leaves distinct identifiers distinct.
pub proof fn without_peer_keeps_distinct(peers: Seq<PeerInfo>, node_id: Seq<char>)
    requires
        distinct_ids(peers),
    ensures
        distinct_ids(without_peer(peers, node_id)),
    decreases peers.len(),
{
    let rest = without_peer(peers, node_id);
    if peers.len() > 0 {
        let init = peers.drop_last();
        let last = peers.last();
        let rest_init = without_peer(init, node_id);
        assert forall|i: int, j: int| 0 <= i < j < init.len() implies #[trigger] init[i].node_id@
            != #[trigger] init[j].node_id@ by {
            assert(peers[i].node_id@ != peers[j].node_id@);
        }
        without_peer_keeps_distinct(init, node_id);
        if last.node_id@ != node_id {
            without_peer_keeps_others(init, node_id, last.node_id@);
            if has_peer(init, last.node_id@) {
                let k = choose|k: int| 0 <= k < init.len() && #[trigger] init[k].node_id@ == last.node_id@;
                assert(peers[k].node_id@ != peers[peers.len() - 1].node_id@);
            }
            assert forall|i: int, j: int| 0 <= i < j < rest.len() implies #[trigger] rest[i].node_id@
                != #[trigger] rest[j].node_id@ by {
                if j == rest.len() - 1 {
                    if rest[i].node_id@ == last.node_id@ {
                        assert(rest_init[i].node_id@ == last.node_id@);
                        assert(has_peer(rest_init, last.node_id@));
                    }
                } else {
                    assert(rest_init[i].node_id@ != rest_init[j].node_id@);
                }
            }
        }
    }
}

impl Daemon {
    /// A daemon at rest, with no peers and all counters at zero.
    pub fn new() -> (daemon: Self)
        ensures
            !daemon.is_running,
            daemon.peers@.len() == 0,
            daemon.stats.blocks_validated == 0,
            daemon.stats.transactions_validated == 0,
            daemon.stats.peers_registered == 0,
    {
        Self::started_at(unix_millis() / 1000)
    }

    /// A daemon at rest that was made at `start_time` (seconds since the
    /// Unix epoch), with no peers and all counters at zero.
    pub fn started_at(start_time: u64) -> (daemon: Self)
        ensures
            !daemon.is_running,
            daemon.peers@.len() == 0,
            daemon.stats == (DaemonStats {
                blocks_validated: 0,
                transactions_validated: 0,
                peers_registered: 0,
                start_time,
            }),
    {
        Daemon {
            is_running: false,
            peers: Vec::new(),
            stats: DaemonStats {
                blocks_validated: 0,
                transactions_validated: 0,
                peers_registered: 0,
                start_time,
            },
        }
    }

    /// Sets the daemon running. One that runs already stays as it is.
    pub fn start(&mut self)
        ensures
            final(self).is_running,
            final(self).peers == old(self).peers,
            final(self).stats == old(self).stats,
    {
        if self.is_running {
            return ;
        }
        self.is_running = true;
    }

    /// Brings the daemon to rest.
    pub fn stop(&mut self)
        ensures
            !final(self).is_running,
            final(self).peers == old(self).peers,
            final(self).stats == old(self).stats,
    {
        self.is_running = false;
    }

    /// Whether a peer of this identifier is registered.
    pub fn is_registered(&self, node_id: &str) -> (found: bool)
        ensures
            found == has_peer(self.peers@, node_id@),
    {
        let mut i: usize = 0;
        while i < self.peers.len()
            invariant
                i <= self.peers@.len(),
                forall|j: int| 0 <= j < i ==> self.peers@[j].node_id@ != node_id@,
            decreases self.peers@.len() - i,
        {
            if crate::text::same_text(self.peers[i].node_id.as_str(), node_id) {
                return true;
            }
            i = i + 1;
        }
        false
    }

    /// Registers a peer, unless one of its identifier is registered already.
    /// A new peer goes to the end of the list and is counted; the counter
    /// stays at the top of its range once it is there.
    pub fn register_peer(&mut self, peer: PeerInfo) -> (registered: bool)
        ensures
            registered == !has_peer(old(self).peers@, peer.node_id@),
            registered ==> final(self).peers@ == old(self).peers@.push(peer),
            registered ==> final(self).stats.peers_registered == if old(self).stats.peers_registered
                < u64::MAX {
                (old(self).stats.peers_registered + 1) as u64
            } else {
                u64::MAX
            },
            !registered ==> final(self).peers == old(self).peers && final(self).stats == old(self).stats,
            final(self).stats.blocks_validated == old(self).stats.blocks_validated,
            final(self).stats.transactions_validated == old(self).stats.transactions_validated,
            final(self).stats.start_time == old(self).stats.start_time,
            final(self).is_running == old(self).is_running,
            distinct_ids(old(self).peers@) ==> distinct_ids(final(self).peers@),
    {
        if self.is_registered(peer.node_id.as_str()) {
            return false;
        }
        self.peers.push(peer);
        self.stats.peers_registered = self.stats.peers_registered.saturating_add(1);
        true
    }

    /// Takes the peer of this identifier off the register, and says whether
    /// there was one.
    pub fn unregister_peer(&mut self, node_id: &str) -> (removed: bool)
        ensures
            removed == has_peer(old(self).peers@, node_id@),
            final(self).peers@ == without_peer(old(self).peers@, node_id@),
            !has_peer(final(self).peers@, node_id@),
            distinct_ids(old(self).peers@) ==> distinct_ids(final(self).peers@),
            final(self).stats == old(self).stats,
            final(self).is_running == old(self).is_running,
    {
        let mut source: Vec<PeerInfo> = Vec::new();
        std::mem::swap(&mut self.peers, &mut source);
        let ghost before = source@;
        let mut kept: Vec<PeerInfo> = Vec::new();
        let mut removed = false;
        let ghost mut seen: int = 0;
        for peer in it: source
            invariant
                seen == it.index(),
                it.seq() == before,
                kept@ == without_peer(before.subrange(0, seen), node_id@),
                removed <==> exists|j: int| 0 <= j < seen && #[trigger] before[j].node_id@ == node_id@,
        {
            proof {
                assert(before.subrange(0, seen + 1).drop_last() =~= before.subrange(0, seen));
                assert(before.subrange(0, seen + 1).last() == before[seen]);
            }
            if crate::text::same_text(peer.node_id.as_str(), node_id) {
                removed = true;
                assert(before[seen].node_id@ == node_id@);
            } else {
                kept.push(peer);
            }
            proof {
                seen = seen + 1;
            }
        }
        self.peers = kept;
        proof {
            assert(before.subrange(0, before.len() as int) =~= before);
            without_peer_keeps_others(before, node_id@, node_id@);
            if distinct_ids(before) {
                without_peer_keeps_distinct(before, node_id@);
            }
        }
        removed
    }

    /// Copies of the registered peers, in the order of their registration.
    pub fn get_peer_list(&self) -> (list: Vec<PeerInfo>)
        ensures
            list@.len() == self.peers@.len(),
            forall|i: int| 0 <= i < list@.len() ==> #[trigger] list@[i]@ == self.peers@[i]@,
    {
        let mut list: Vec<PeerInfo> = Vec::new();
        let mut i: usize = 0;
        while i < self.peers.len()
            invariant
                i <= self.peers@.len(),
                list@.len() == i,
                forall|j: int| 0 <= j < i ==> #[trigger] list@[j]@ == self.peers@[j]@,
            decreases self.peers@.len() - i,
        {
            list.push(self.peers[i].clone());
            i = i + 1;
        }
        list
    }

    /// The counters as they stand.
    pub fn get_stats(&self) -> (stats: DaemonStats)
        ensures
            stats == self.stats,
    {
        self.stats
    }
}

} // verus!
