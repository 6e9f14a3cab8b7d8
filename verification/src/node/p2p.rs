//! The list of peers that a node keeps for itself.

use vstd::prelude::*;
use vstd::string::*;
use crate::text::same_text;

verus! {

/// A peer: its identifier and where it can be reached.
#[derive(Default, Debug, PartialEq)]
pub struct PeerInfo {
    pub node_id: String,
    pub url: String,
}

impl View for PeerInfo {
    type V = (Seq<char>, Seq<char>);

    open spec fn view(&self) -> (Seq<char>, Seq<char>) {
        (self.node_id@, self.url@)
    }
}

impl Clone for PeerInfo {
    fn clone(&self) -> (copy: Self)
        ensures
            copy@ == self@,
    {
        PeerInfo { node_id: self.node_id.clone(), url: self.url.clone() }
    }
}

/// A node among its peers.
#[derive(Debug)]
pub struct P2P {
    pub primary_node: String,
    pub node_id: String,
    pub peer_url: String,
    pub peers: Vec<PeerInfo>,
    pub is_running: bool,
}

/// Whether one of `peers` has the identifier `node_id`.
pub open spec fn lists_peer(peers: Seq<PeerInfo>, node_id: Seq<char>) -> bool {
    exists|i: int| 0 <= i < peers.len() && #[trigger] peers[i].node_id@ == node_id
}

/// `peers` without those that have the identifier `node_id`, the others in
/// their order.
pub open spec fn others(peers: Seq<PeerInfo>, node_id: Seq<char>) -> Seq<PeerInfo>
    decreases peers.len(),
{
    if peers.len() == 0 {
        Seq::empty()
    } else if peers.last().node_id@ == node_id {
        others(peers.drop_last(), node_id)
    } else {
        others(peers.drop_last(), node_id).push(peers.last())
    }
}

/// Among the others the one left out does not occur, and everybody else who
/// was listed still is.
pub proof fn others_leaves_out(peers: Seq<PeerInfo>, node_id: Seq<char>, other: Seq<char>)
    ensures
        lists_peer(others(peers, node_id), other) <==> (other != node_id && lists_peer(peers, other)),
        others(peers, node_id).len() <= peers.len(),
        !lists_peer(peers, node_id) ==> others(peers, node_id) == peers,
    decreases peers.len(),
{
    let rest = others(peers, node_id);
    if peers.len() > 0 {
        let init = peers.drop_last();
        let rest_init = others(init, node_id);
        others_leaves_out(init, node_id, other);
        if lists_peer(rest, other) {
            let i = choose|i: int| 0 <= i < rest.len() && #[trigger] rest[i].node_id@ == other;
            if i < rest_init.len() {
                assert(rest_init[i].node_id@ == other);
                let j = choose|j: int| 0 <= j < init.len() && #[trigger] init[j].node_id@ == other;
                assert(peers[j].node_id@ == other);
            } else {
                assert(peers[peers.len() - 1].node_id@ == other);
            }
        }
        if other != node_id && lists_peer(peers, other) {
            let j = choose|j: int| 0 <= j < peers.len() && #[trigger] peers[j].node_id@ == other;
            if j < init.len() {
                assert(init[j].node_id@ == other);
                let i = choose|i: int|
                    0 <= i < rest_init.len() && #[trigger] rest_init[i].node_id@ == other;
                assert(rest[i].node_id@ == other);
            } else {
                assert(rest[rest.len() - 1].node_id@ == other);
            }
        }
        if !lists_peer(peers, node_id) {
            if lists_peer(init, node_id) {
                let j = choose|j: int| 0 <= j < init.len() && #[trigger] init[j].node_id@ == node_id;
                assert(peers[j].node_id@ == node_id);
            }
            assert(peers[peers.len() - 1].node_id@ != node_id);
            assert(rest =~= peers);
        }
    } else {
        assert(rest =~= peers);
    }
}

impl P2P {
    /// A node at rest that knows no peers yet.
    pub fn new(primary_node: &str, node_id: &str, peer_url: &str) -> (node: Self)
        ensures
            node.primary_node@ == primary_node@,
            node.node_id@ == node_id@,
            node.peer_url@ == peer_url@,
            node.peers@.len() == 0,
            !node.is_running,
    {
        P2P {
            primary_node: String::from_str(primary_node),
            node_id: String::from_str(node_id),
            peer_url: String::from_str(peer_url),
            peers: Vec::new(),
            is_running: false,
        }
    }

    /// Sets the node running and enters it in its own list. A node that runs
    /// already stays as it is.
    pub fn start(&mut self)
        ensures
            final(self).is_running,
            final(self).node_id == old(self).node_id,
            final(self).peer_url == old(self).peer_url,
            final(self).primary_node == old(self).primary_node,
            old(self).is_running ==> final(self).peers == old(self).peers,
            !old(self).is_running ==> lists_peer(final(self).peers@, old(self).node_id@),
            lists_peer(old(self).peers@, old(self).node_id@) ==> final(self).peers == old(self).peers,
            !old(self).is_running && !lists_peer(old(self).peers@, old(self).node_id@) ==> {
                &&& final(self).peers@.len() == old(self).peers@.len() + 1
                &&& final(self).peers@.drop_last() == old(self).peers@
                &&& final(self).peers@.last()@ == (old(self).node_id@, old(self).peer_url@)
            },
    {
        if self.is_running {
            return ;
        }
        self.is_running = true;
        self.register_with_primary();
    }

    /// Brings the node to rest. Its list stays.
    pub fn stop(&mut self)
        ensures
            !final(self).is_running,
            final(self).peers == old(self).peers,
            final(self).node_id == old(self).node_id,
            final(self).peer_url == old(self).peer_url,
            final(self).primary_node == old(self).primary_node,
    {
        self.is_running = false;
    }

    /// Whether the list holds a peer of this identifier.
    pub fn knows(&self, node_id: &str) -> (found: bool)
        ensures
            found == lists_peer(self.peers@, node_id@),
    {
        let mut i: usize = 0;
        while i < self.peers.len()
            invariant
                i <= self.peers@.len(),
                forall|j: int| 0 <= j < i ==> self.peers@[j].node_id@ != node_id@,
            decreases self.peers@.len() - i,
        {
            if same_text(self.peers[i].node_id.as_str(), node_id) {
                return true;
            }
            i = i + 1;
        }
        false
    }

    /// Enters the node in its own list, at the end, unless it is there
    /// already. This always succeeds.
    pub fn register_with_primary(&mut self) -> (registered: bool)
        ensures
            registered,
            lists_peer(final(self).peers@, old(self).node_id@),
            lists_peer(old(self).peers@, old(self).node_id@) ==> final(self).peers == old(self).peers,
            !lists_peer(old(self).peers@, old(self).node_id@) ==> {
                &&& final(self).peers@.len() == old(self).peers@.len() + 1
                &&& final(self).peers@.drop_last() == old(self).peers@
                &&& final(self).peers@.last()@ == (old(self).node_id@, old(self).peer_url@)
            },
            final(self).is_running == old(self).is_running,
            final(self).node_id == old(self).node_id,
            final(self).peer_url == old(self).peer_url,
            final(self).primary_node == old(self).primary_node,
    {
        if !self.knows(self.node_id.as_str()) {
            let own = PeerInfo { node_id: self.node_id.clone(), url: self.peer_url.clone() };
            self.peers.push(own);
            assert(self.peers@.drop_last() =~= old(self).peers@);
            assert(self.peers@[self.peers@.len() - 1].node_id@ == old(self).node_id@);
        }
        true
    }

    /// Replaces the list by `new_peers`, leaving out the node itself.
    pub fn update_peer_list(&mut self, new_peers: Vec<PeerInfo>)
        ensures
            final(self).peers@ == others(new_peers@, old(self).node_id@),
            !lists_peer(final(self).peers@, old(self).node_id@),
            final(self).is_running == old(self).is_running,
            final(self).node_id == old(self).node_id,
            final(self).peer_url == old(self).peer_url,
            final(self).primary_node == old(self).primary_node,
    {
        let ghost given = new_peers@;
        let mut kept: Vec<PeerInfo> = Vec::new();
        let ghost mut seen: int = 0;
        for peer in it: new_peers
            invariant
                seen == it.index(),
                it.seq() == given,
                kept@ == others(given.subrange(0, seen), self.node_id@),
        {
            proof {
                assert(given.subrange(0, seen + 1).drop_last() =~= given.subrange(0, seen));
                assert(given.subrange(0, seen + 1).last() == given[seen]);
            }
            if !same_text(peer.node_id.as_str(), self.node_id.as_str()) {
                kept.push(peer);
            }
            proof {
                seen = seen + 1;
            }
        }
        proof {
            assert(given.subrange(0, given.len() as int) =~= given);
            others_leaves_out(given, self.node_id@, self.node_id@);
        }
        self.peers = kept;
    }

    /// Sends a block to every peer on the list. Sending is the business of
    /// the transport, which is not part of this node: nothing is changed
    /// here.
    pub fn broadcast_block(&self, _block: &str) {
    }

    /// Sends a transaction to every peer on the list. As with blocks,
    /// nothing is changed here.
    pub fn broadcast_transaction(&self, _tx: &str) {
    }

    /// Copies of the peers on the list, in their order.
    pub fn get_peers(&self) -> (list: Vec<PeerInfo>)
        ensures
            list@.len() == self.peers@.len(),
            forall|i: int| 0 <= i < list@.len() ==> #[trigger] list@[i]@ == self.peers@[i]@,
    {
        let mut list: Vec<PeerInfo> = Vec::new();
        let mut i: usize = 0;
        while i < self.peers.len()
            invariant
                i <= self.peers@.len(),
                list@.len() == i,
                forall|j: int| 0 <= j < i ==> #[trigger] list@[j]@ == self.peers@[j]@,
            decreases self.peers@.len() - i,
        {
            list.push(self.peers[i].clone());
            i = i + 1;
        }
        list
    }
}

} // verus!
