//! The election engine: the node table, the ballots and the result.

use vstd::prelude::*;
use crate::model::ElectionView;
use crate::node::{Node, Query};
use crate::quorum::{quorum_for, quorum_of};
use crate::system::{current_time, gen_priority};
use crate::table::{any_answers, first, is_first, lemma_first_is_unique, unique_endpoints, Table};

verus! {

/// The grace period of a new election, in milliseconds.
pub const GRACE_PERIOD_MILLIS: u64 = 10_000;

/// The state of the election on one node.
///
/// Times are in milliseconds since the Unix epoch.
pub struct Election {
    pub nodes: Vec<Node>,
    pub start_time: u64,
    pub last_vote: u64,
    pub voted: bool,
    pub delay: u64,
    pub priority: i32,
}

/// The values of the records of a table.
pub open spec fn views(nodes: Seq<Node>) -> Table {
    Seq::new(nodes.len(), |i: int| nodes[i]@)
}

impl View for Election {
    type V = ElectionView;

    open spec fn view(&self) -> ElectionView {
        ElectionView {
            nodes: views(self.nodes@),
            start_time: self.start_time,
            last_vote: self.last_vote,
            voted: self.voted,
            delay: self.delay,
            priority: self.priority,
        }
    }
}

impl Election {
    /// An election is well formed when every record is and no two records
    /// share an endpoint.
    pub open spec fn wf(&self) -> bool {
        &&& forall|i: int| 0 <= i < self.nodes@.len() ==> (#[trigger] self.nodes@[i]).wf()
        &&& unique_endpoints(self@.nodes)
    }

    /// The value of a well-formed election is a valid state.
    pub proof fn lemma_view_wf(&self)
        requires
            self.wf(),
        ensures
            self@.wf(),
    {
        assert forall|i: int| 0 <= i < self@.nodes.len() implies (#[trigger] self@.nodes[i]).wf() by {
            self.nodes@[i].lemma_view_wf();
        }
    }

    /// Whether the election is well formed, for callers that have filled in
    /// its fields themselves.
    pub fn is_well_formed(&self) -> (ok: bool)
        ensures
            ok == self.wf(),
    {
        let mut i: usize = 0;
        while i < self.nodes.len()
            invariant
                i <= self.nodes.len(),
                forall|a: int| 0 <= a < i ==> (#[trigger] self.nodes@[a]).wf(),
                forall|a: int, b: int|
                    0 <= a < b < i ==> (#[trigger] self@.nodes[a]).addr != (
                    #[trigger] self@.nodes[b]).addr,
            decreases self.nodes.len() - i,
        {
            if !self.nodes[i].is_well_formed() {
                return false;
            }
            let mut j: usize = 0;
            while j < i
                invariant
                    j <= i < self.nodes.len(),
                    forall|a: int|
                        0 <= a < j ==> (#[trigger] self@.nodes[a]).addr != self@.nodes[i as int].addr,
                decreases i - j,
            {
                if self.nodes[j].addr == self.nodes[i].addr {
                    assert(self@.nodes[j as int].addr == self@.nodes[i as int].addr);
                    return false;
                }
                j += 1;
            }
            i += 1;
        }
        assert forall|a: int, b: int|
            0 <= a < self@.nodes.len() && 0 <= b < self@.nodes.len() && a != b implies (
        #[trigger] self@.nodes[a]).addr != (#[trigger] self@.nodes[b]).addr by {
            if a < b {
                assert(self@.nodes[a].addr != self@.nodes[b].addr);
            } else {
                assert(self@.nodes[b].addr != self@.nodes[a].addr);
            }
        }
        true
    }

    /// An election begun at `now` with the given own priority, an empty
    /// table and the standard grace period.
    pub fn new_at(now: u64, priority: i32) -> (election: Election)
        ensures
            election.wf(),
            election@ == ElectionView::initial(now, GRACE_PERIOD_MILLIS, priority),
    {
        let election = Election {
            nodes: Vec::new(),
            start_time: now,
            last_vote: now,
            voted: false,
            delay: GRACE_PERIOD_MILLIS,
            priority,
        };
        assert(election@.nodes =~= Seq::empty());
        election
    }

    /// An election begun now with a random own priority.
    pub fn new() -> (election: Election)
        ensures
            election.wf(),
            exists|now: u64, priority: i32|
                0 <= priority <= u16::MAX && election@ == #[trigger] ElectionView::initial(
                    now,
                    GRACE_PERIOD_MILLIS,
                    priority,
                ),
    {
        let now: u64 = current_time();
        let priority: i32 = gen_priority();
        Election::new_at(now, priority)
    }

    /// The position of the first record that answers `query`.
    pub fn find(&self, query: &Query) -> (found: Option<usize>)
        ensures
            found is Some <==> any_answers(self@.nodes, *query),
            found matches Some(i) ==> i == first(self@.nodes, *query) && is_first(
                self@.nodes,
                *query,
                i as int,
            ),
    {
        let mut i: usize = 0;
        while i < self.nodes.len()
            invariant
                i <= self.nodes.len(),
                forall|j: int| 0 <= j < i ==> !#[trigger] self@.nodes[j].answers(*query),
            decreases self.nodes.len() - i,
        {
            if self.nodes[i].answers(query) {
                proof {
                    lemma_first_is_unique(self@.nodes, *query, i as int);
                }
                return Some(i);
            }
            i += 1;
        }
        None
    }

    /// The number of voters that a peer needs: two thirds of the table,
    /// rounded up.
    pub fn quorum(&self) -> (q: usize)
        ensures
            q == quorum_of(self@.nodes.len()),
    {
        quorum_for(self.nodes.len())
    }

    /// Whether the grace period since the start of the election is still
    /// running at `now`. A clock that has gone back behind the start counts
    /// as still within it.
    pub fn too_early_at(&self, now: u64) -> (early: bool)
        ensures
            early == self@.too_early(now),
    {
        now < self.start_time || now - self.start_time < self.delay
    }

    /// Whether the grace period is still running by the system clock.
    pub fn too_early(&self) -> (early: bool)
        ensures
            exists|now: u64| early == #[trigger] self@.too_early(now),
    {
        let now: u64 = current_time();
        self.too_early_at(now)
    }

    /// Rewinds the election at `now`: the table is emptied, the grace period
    /// starts anew, no ballot is cast and the own priority is `priority`.
    pub fn reset_to(&mut self, now: u64, priority: i32)
        ensures
            final(self).wf(),
            final(self)@ == old(self)@.after_reset(now, priority),
    {
        self.nodes.clear();
        self.start_time = now;
        self.voted = false;
        self.priority = priority;
        assert(self@.nodes =~= Seq::empty());
    }

    /// Rewinds the election now, with a random own priority.
    pub fn reset(&mut self)
        ensures
            final(self).wf(),
            exists|now: u64, priority: i32|
                0 <= priority <= u16::MAX && final(self)@ == #[trigger] old(self)@.after_reset(
                    now,
                    priority,
                ),
    {
        let now: u64 = current_time();
        let priority: i32 = gen_priority();
        self.reset_to(now, priority);
    }
}

} // verus!
