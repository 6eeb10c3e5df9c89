//! What the election engine decides: whom to vote for, and who has won.

use vstd::prelude::*;
use crate::address::{Address, HostId};
use crate::election::Election;
use crate::node::Query;
use crate::quorum::quorum_of;
use crate::system::{current_time, gen_priority};
use crate::table::{
    has_quorum, is_leading, is_split, is_top_priority, leader, lemma_leader_is_unique,
    lemma_top_priority_is_unique, qualifies, top_priority,
};

verus! {

impl Election {
    /// The position of the peer of highest priority, the last such if several
    /// share it.
    pub fn top_priority_index(&self) -> (best: usize)
        requires
            self.nodes@.len() > 0,
        ensures
            is_top_priority(self@.nodes, best as int),
            best == top_priority(self@.nodes),
    {
        let mut best: usize = 0;
        let mut i: usize = 1;
        while i < self.nodes.len()
            invariant
                0 <= best < i <= self.nodes.len(),
                forall|j: int|
                    0 <= j < i ==> (#[trigger] self@.nodes[j]).priority
                        <= self@.nodes[best as int].priority,
                forall|j: int|
                    best < j < i ==> (#[trigger] self@.nodes[j]).priority
                        < self@.nodes[best as int].priority,
            decreases self.nodes.len() - i,
        {
            if self.nodes[i].priority >= self.nodes[best].priority {
                best = i;
            }
            i += 1;
        }
        proof {
            lemma_top_priority_is_unique(self@.nodes, best as int);
        }
        best
    }

    /// Decides at `now` whether this node casts its ballot, and for whom.
    ///
    /// A node votes once per election: for a known leader at once, otherwise
    /// after the grace period for the peer of highest priority.
    pub fn check_vote_at(&mut self, now: u64) -> (ballot: Option<(Address, HostId)>)
        ensures
            ballot == old(self)@.ballot(now),
            final(self)@ == old(self)@.after_ballot(now),
            final(self).nodes == old(self).nodes,
    {
        if self.voted {
            return None;
        }
        match self.find(&Query::Master) {
            Some(i) => {
                self.voted = true;
                Some((self.nodes[i].addr, self.nodes[i].hid))
            },
            None => {
                if self.nodes.len() == 0 || self.too_early_at(now) {
                    None
                } else {
                    let i: usize = self.top_priority_index();
                    self.voted = true;
                    Some((self.nodes[i].addr, self.nodes[i].hid))
                }
            },
        }
    }

    /// Decides whether this node casts its ballot, by the system clock.
    pub fn check_vote(&mut self) -> (ballot: Option<(Address, HostId)>)
        ensures
            final(self).nodes == old(self).nodes,
            exists|now: u64|
                ballot == #[trigger] old(self)@.ballot(now) && final(self)@ == old(
                    self,
                )@.after_ballot(now),
    {
        let now: u64 = current_time();
        self.check_vote_at(now)
    }

    /// Finds the first record that leads among those that have reached the
    /// quorum, and whether another record ties with it.
    pub fn tally(&self) -> (found: Option<(usize, bool)>)
        requires
            self.wf(),
        ensures
            found is Some <==> has_quorum(self@.nodes),
            found matches Some((best, tied)) ==> {
                &&& is_leading(self@.nodes, best as int)
                &&& forall|j: int| 0 <= j < best ==> !#[trigger] is_leading(self@.nodes, j)
                &&& tied == is_split(self@.nodes)
                &&& !tied ==> best == leader(self@.nodes)
            },
    {
        let quorum: usize = self.quorum();
        let mut found: Option<(usize, bool)> = None;
        let mut top: usize = 0;
        let mut i: usize = 0;
        while i < self.nodes.len()
            invariant
                self.wf(),
                i <= self.nodes.len(),
                quorum == quorum_of(self@.nodes.len()),
                found is None ==> forall|j: int| 0 <= j < i ==> !#[trigger] qualifies(
                    self@.nodes,
                    j,
                ),
                found matches Some((best, tied)) ==> {
                    &&& best < i
                    &&& qualifies(self@.nodes, best as int)
                    &&& top == self@.nodes[best as int].vote_count()
                    &&& forall|j: int|
                        0 <= j < i && #[trigger] qualifies(self@.nodes, j) ==> self@.nodes[j].vote_count()
                            <= top
                    &&& forall|j: int|
                        0 <= j < best && #[trigger] qualifies(self@.nodes, j) ==> self@.nodes[j].vote_count()
                            < top
                    &&& tied <==> exists|j: int|
                        0 <= j < i && j != best && #[trigger] qualifies(self@.nodes, j)
                            && self@.nodes[j].vote_count() == top
                },
            decreases self.nodes.len() - i,
        {
            assert(self.nodes@[i as int].wf());
            let count: usize = self.nodes[i].vote_count();
            assert(count == self@.nodes[i as int].vote_count());
            if count >= quorum {
                assert(qualifies(self@.nodes, i as int));
                match found {
                    None => {
                        found = Some((i, false));
                        top = count;
                    },
                    Some((best, tied)) => {
                        if count > top {
                            found = Some((i, false));
                            top = count;
                        } else if count == top {
                            found = Some((best, true));
                        }
                    },
                }
            }
            i += 1;
        }
        proof {
            match found {
                None => {
                    assert forall|j: int| !#[trigger] qualifies(self@.nodes, j) by {}
                },
                Some((best, tied)) => {
                    let nodes = self@.nodes;
                    assert(is_leading(nodes, best as int));
                    assert forall|j: int| 0 <= j < best implies !#[trigger] is_leading(
                        nodes,
                        j,
                    ) by {
                        if qualifies(nodes, j) {
                            assert(nodes[j].vote_count() < top);
                        }
                    }
                    if tied {
                        let j = choose|j: int|
                            0 <= j < i && j != best && #[trigger] qualifies(nodes, j)
                                && nodes[j].vote_count() == top;
                        assert(is_leading(nodes, j));
                    } else {
                        assert forall|a: int, b: int|
                            a != b && #[trigger] is_leading(nodes, a) && #[trigger] is_leading(
                                nodes,
                                b,
                            ) implies false by {
                            assert(qualifies(nodes, a) && qualifies(nodes, b));
                            assert(nodes[a].vote_count() == top);
                            assert(nodes[b].vote_count() == top);
                        }
                        lemma_leader_is_unique(nodes, best as int);
                    }
                },
            }
        }
        found
    }

    /// Evaluates the election at `now`. Returns the winner, if there is one,
    /// and whether a split vote was found; a split vote resets the election,
    /// which then goes on with `priority` as own priority.
    ///
    /// A known leader wins at once. Otherwise nothing is decided during the
    /// grace period, nor within a grace period of the last ballot, nor before
    /// some peer has reached the quorum.
    pub fn check_result_at(&mut self, now: u64, priority: i32) -> (result: (
        Option<(Address, HostId)>,
        bool,
    ))
        requires
            old(self).wf(),
        ensures
            final(self).wf(),
            result.0 == old(self)@.winner(now),
            result.1 == old(self)@.split(now),
            final(self)@ == old(self)@.after_result(now, priority),
    {
        match self.find(&Query::Master) {
            Some(i) => {
                return (Some((self.nodes[i].addr, self.nodes[i].hid)), false);
            },
            None => {},
        }
        if self.too_early_at(now) || now < self.last_vote || now - self.last_vote < self.delay {
            return (None, false);
        }
        match self.tally() {
            None => (None, false),
            Some((best, tied)) => {
                if tied {
                    self.reset_to(now, priority);
                    (None, true)
                } else {
                    (Some((self.nodes[best].addr, self.nodes[best].hid)), false)
                }
            },
        }
    }

    /// Evaluates the election by the system clock; a split vote resets the
    /// election with a random own priority.
    pub fn check_result(&mut self) -> (result: (Option<(Address, HostId)>, bool))
        requires
            old(self).wf(),
        ensures
            final(self).wf(),
            exists|now: u64, priority: i32|
                {
                    &&& 0 <= priority <= u16::MAX
                    &&& result.0 == old(self)@.winner(now)
                    &&& result.1 == old(self)@.split(now)
                    &&& final(self)@ == #[trigger] old(self)@.after_result(now, priority)
                },
    {
        let now: u64 = current_time();
        let priority: i32 = gen_priority();
        self.check_result_at(now, priority)
    }
}

} // verus!
