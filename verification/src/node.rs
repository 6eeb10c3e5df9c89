//! One record of the node table: what is known of a single peer.

use vstd::prelude::*;
use crate::address::{Address, HostId};
use crate::message::AppearanceMessage;

verus! {

/// The anomalies that the election engine reports instead of changing state.
#[derive(Clone, Copy, Debug, PartialEq, Eq, Structural)]
pub enum ElectionError {
    /// The endpoint `addr` is on record with host identity `known` and now
    /// claims `claimed`.
    IdentityMismatch { addr: Address, known: HostId, claimed: HostId },
    /// A ballot names a peer that is not in the table.
    UnknownCandidate { addr: Address, hid: HostId },
}

/// What is known of one peer.
///
/// `last_seen` is in milliseconds since the Unix epoch. `votes` lists the
/// endpoints that have cast a ballot for this peer, each at most once.
#[derive(Clone, Debug)]
pub struct Node {
    pub addr: Address,
    pub hid: HostId,
    pub is_master: bool,
    pub priority: i32,
    pub last_seen: u64,
    pub votes: Vec<Address>,
}

/// The mathematical value of a [`Node`]: the ballots form a set of voters.
pub struct NodeView {
    pub addr: Address,
    pub hid: HostId,
    pub is_master: bool,
    pub priority: i32,
    pub last_seen: u64,
    pub votes: Set<Address>,
}

/// A way to pick a record out of the table.
#[derive(Clone, Copy, Debug, PartialEq, Eq, Structural)]
pub enum Query {
    /// A peer that claims to lead a running cluster.
    Master,
    /// The peer at an endpoint.
    Endpoint(Address),
    /// The peer with a host identity.
    Host(HostId),
    /// The peer at an endpoint that also has the given host identity.
    Candidate(Address, HostId),
}

impl NodeView {
    /// The record of a peer first heard of at `now` through `msg`.
    pub open spec fn fresh(addr: Address, msg: AppearanceMessage, now: u64) -> NodeView {
        NodeView {
            addr,
            hid: msg.hid,
            is_master: msg.is_master,
            priority: msg.priority,
            last_seen: now,
            votes: Set::empty(),
        }
    }

    /// The record after a further appearance of the same host at `now`.
    pub open spec fn refreshed(self, msg: AppearanceMessage, now: u64) -> NodeView {
        NodeView { is_master: msg.is_master, priority: msg.priority, last_seen: now, ..self }
    }

    /// The record after `voter` has cast a ballot for it.
    pub open spec fn with_vote(self, voter: Address) -> NodeView {
        NodeView { votes: self.votes.insert(voter), ..self }
    }

    /// The record once the peer is known to lead a cluster.
    pub open spec fn as_master(self) -> NodeView {
        NodeView { is_master: true, ..self }
    }

    /// Whether the record is one that `query` asks for.
    pub open spec fn answers(self, query: Query) -> bool {
        match query {
            Query::Master => self.is_master,
            Query::Endpoint(addr) => self.addr == addr,
            Query::Host(hid) => self.hid == hid,
            Query::Candidate(addr, hid) => self.addr == addr && self.hid == hid,
        }
    }

    /// The number of distinct voters.
    pub open spec fn vote_count(self) -> nat {
        self.votes.len()
    }

    /// A record is valid when its voters can be counted.
    pub open spec fn wf(self) -> bool {
        self.votes.finite()
    }
}

impl View for Node {
    type V = NodeView;

    open spec fn view(&self) -> NodeView {
        NodeView {
            addr: self.addr,
            hid: self.hid,
            is_master: self.is_master,
            priority: self.priority,
            last_seen: self.last_seen,
            votes: self.votes@.to_set(),
        }
    }
}

impl Node {
    /// A record is well formed when no voter is listed twice.
    pub open spec fn wf(&self) -> bool {
        self.votes@.no_duplicates()
    }

    /// The value of a record has countably many voters.
    pub proof fn lemma_view_wf(&self)
        ensures
            self@.wf(),
    {
        broadcast use vstd::seq_lib::seq_to_set_is_finite;

    }

    /// The record of a peer at `addr` first heard of at `now`, with no ballots.
    pub fn from_appearance(addr: Address, msg: &AppearanceMessage, now: u64) -> (node: Node)
        ensures
            node.wf(),
            node@ == NodeView::fresh(addr, *msg, now),
    {
        let node = Node {
            addr,
            hid: msg.hid,
            is_master: msg.is_master,
            priority: msg.priority,
            last_seen: now,
            votes: Vec::new(),
        };
        assert(node.votes@.to_set() =~= Set::<Address>::empty());
        node
    }

    /// Takes over priority and leadership claim from a further appearance of
    /// the same host, and is rejected unchanged if the host identity differs.
    pub fn process_appearance(&mut self, msg: &AppearanceMessage, now: u64) -> (res: Result<
        (),
        ElectionError,
    >)
        ensures
            old(self).hid == msg.hid ==> res is Ok && final(self)@ == old(self)@.refreshed(
                *msg,
                now,
            ) && final(self).votes == old(self).votes,
            old(self).hid != msg.hid ==> *final(self) == *old(self) && res == Err::<
                (),
                ElectionError,
            >(
                ElectionError::IdentityMismatch {
                    addr: old(self).addr,
                    known: old(self).hid,
                    claimed: msg.hid,
                },
            ),
    {
        if self.hid != msg.hid {
            return Err(
                ElectionError::IdentityMismatch {
                    addr: self.addr,
                    known: self.hid,
                    claimed: msg.hid,
                },
            );
        }
        self.priority = msg.priority;
        self.is_master = msg.is_master;
        self.last_seen = now;
        Ok(())
    }

    /// Whether `voter` has already cast a ballot for this peer.
    pub fn has_vote_of(&self, voter: Address) -> (found: bool)
        ensures
            found == self@.votes.contains(voter),
    {
        let mut i: usize = 0;
        while i < self.votes.len()
            invariant
                i <= self.votes.len(),
                forall|j: int| 0 <= j < i ==> self.votes@[j] != voter,
            decreases self.votes.len() - i,
        {
            if self.votes[i] == voter {
                assert(self.votes@.contains(voter));
                return true;
            }
            i += 1;
        }
        false
    }

    /// Records a ballot of `voter`; a repeated ballot changes nothing.
    pub fn cast_vote(&mut self, voter: Address)
        requires
            old(self).wf(),
        ensures
            final(self).wf(),
            final(self)@ == old(self)@.with_vote(voter),
    {
        if !self.has_vote_of(voter) {
            proof {
                self.votes@.lemma_push_to_set_commute(voter);
            }
            self.votes.push(voter);
        } else {
            assert(self@.votes.insert(voter) =~= self@.votes);
        }
    }

    /// The number of distinct voters for this peer.
    pub fn vote_count(&self) -> (n: usize)
        requires
            self.wf(),
        ensures
            n == self@.vote_count(),
    {
        proof {
            self.votes@.unique_seq_to_set();
        }
        self.votes.len()
    }

    /// Whether the record is well formed, for callers that have filled in
    /// its fields themselves.
    pub fn is_well_formed(&self) -> (ok: bool)
        ensures
            ok == self.wf(),
    {
        let mut i: usize = 0;
        while i < self.votes.len()
            invariant
                i <= self.votes.len(),
                forall|a: int, b: int| 0 <= a < b < i ==> self.votes@[a] != self.votes@[b],
            decreases self.votes.len() - i,
        {
            let mut j: usize = 0;
            while j < i
                invariant
                    j <= i < self.votes.len(),
                    forall|a: int| 0 <= a < j ==> self.votes@[a] != self.votes@[i as int],
                decreases i - j,
            {
                if self.votes[j] == self.votes[i] {
                    return false;
                }
                j += 1;
            }
            i += 1;
        }
        true
    }

    /// Whether this record is one that `query` asks for.
    pub fn answers(&self, query: &Query) -> (b: bool)
        ensures
            b == self@.answers(*query),
    {
        match query {
            Query::Master => self.is_master,
            Query::Endpoint(addr) => self.addr == *addr,
            Query::Host(hid) => self.hid == *hid,
            Query::Candidate(addr, hid) => self.addr == *addr && self.hid == *hid,
        }
    }
}

} // verus!
