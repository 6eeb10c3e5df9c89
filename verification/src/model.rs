//! The election as a mathematical state and its transitions.
//!
//! Times are milliseconds since the Unix epoch. Every transition is a total
//! function of the state and of what arrived; the engine's contracts are
//! written against these functions.

use vstd::prelude::*;
use crate::address::{Address, HostId};
use crate::message::{AppearanceMessage, Message};
use crate::node::{ElectionError, NodeView, Query};
use crate::table::{
    first, any_answers, has_quorum, identity_at, is_split, leader, top_priority, unique_endpoints, Table,
};

verus! {

/// The state of one election.
pub struct ElectionView {
    /// The known peers, in the order in which they were first heard of.
    pub nodes: Table,
    /// When this election began.
    pub start_time: u64,
    /// When a ballot was last recorded.
    pub last_vote: u64,
    /// Whether this node has cast its own ballot in this election.
    pub voted: bool,
    /// The grace period.
    pub delay: u64,
    /// This node's own tie-break priority.
    pub priority: i32,
}

/// The priority given to a leader that is known only from its connection
/// details.
pub const UNANNOUNCED_PRIORITY: i32 = -1;

/// Whether a step that began in `prev` ended as `outcome` asks: on success in
/// the new state, on an anomaly with that error and in the state unchanged.
pub open spec fn settles(
    prev: ElectionView,
    outcome: Result<ElectionView, ElectionError>,
    next: ElectionView,
    res: Result<(), ElectionError>,
) -> bool {
    match outcome {
        Ok(state) => res is Ok && next == state,
        Err(error) => res == Err::<(), ElectionError>(error) && next == prev,
    }
}

impl ElectionView {
    /// The state at the start of an election begun at `now`.
    pub open spec fn initial(now: u64, delay: u64, priority: i32) -> ElectionView {
        ElectionView {
            nodes: Seq::empty(),
            start_time: now,
            last_vote: now,
            voted: false,
            delay,
            priority,
        }
    }

    /// Whether the grace period since the start of the election is still
    /// running at `now`.
    pub open spec fn too_early(self, now: u64) -> bool {
        now - self.start_time < self.delay
    }

    /// Whether a ballot was recorded less than a grace period before `now`.
    pub open spec fn votes_settling(self, now: u64) -> bool {
        now - self.last_vote < self.delay
    }

    /// The state after a reset at `now`: an empty table, a new start, no
    /// ballot cast and a new priority.
    pub open spec fn after_reset(self, now: u64, priority: i32) -> ElectionView {
        ElectionView { nodes: Seq::empty(), start_time: now, voted: false, priority, ..self }
    }

    /// The state after the peer at `source` has announced itself at `now`.
    ///
    /// A peer not yet on record gets a fresh record at the end of the table.
    /// A peer on record under the same host identity has its priority,
    /// leadership claim and time of appearance brought up to date. A peer on
    /// record under another host identity is an anomaly.
    pub open spec fn on_appearance(self, source: Address, msg: AppearanceMessage, now: u64)
        -> Result<ElectionView, ElectionError> {
        if any_answers(self.nodes, Query::Endpoint(source)) {
            let i = first(self.nodes, Query::Endpoint(source));
            if self.nodes[i].hid == msg.hid {
                Ok(ElectionView { nodes: self.nodes.update(i, self.nodes[i].refreshed(msg, now)), ..self })
            } else {
                Err(
                    ElectionError::IdentityMismatch {
                        addr: source,
                        known: self.nodes[i].hid,
                        claimed: msg.hid,
                    },
                )
            }
        } else {
            Ok(ElectionView { nodes: self.nodes.push(NodeView::fresh(source, msg, now)), ..self })
        }
    }

    /// The state after `voter` has cast a ballot at `now` for the peer at
    /// `addr` with host identity `hid`.
    pub open spec fn on_vote(self, addr: Address, hid: HostId, voter: Address, now: u64) -> Result<
        ElectionView,
        ElectionError,
    > {
        if any_answers(self.nodes, Query::Candidate(addr, hid)) {
            let i = first(self.nodes, Query::Candidate(addr, hid));
            Ok(
                ElectionView {
                    nodes: self.nodes.update(i, self.nodes[i].with_vote(voter)),
                    last_vote: now,
                    ..self
                },
            )
        } else {
            Err(ElectionError::UnknownCandidate { addr, hid })
        }
    }

    /// The state after the peer at `source` has broadcast connection details
    /// for host identity `hid` at `now`.
    ///
    /// The first record with that host identity is marked as leader. Where
    /// there is none, a record for `source` is added as leader, unless
    /// `source` is on record under another host identity, which is an anomaly.
    pub open spec fn on_connection_details(self, source: Address, hid: HostId, now: u64) -> Result<
        ElectionView,
        ElectionError,
    > {
        if any_answers(self.nodes, Query::Host(hid)) {
            let i = first(self.nodes, Query::Host(hid));
            Ok(ElectionView { nodes: self.nodes.update(i, self.nodes[i].as_master()), ..self })
        } else if any_answers(self.nodes, Query::Endpoint(source)) {
            let i = first(self.nodes, Query::Endpoint(source));
            Err(
                ElectionError::IdentityMismatch {
                    addr: source,
                    known: self.nodes[i].hid,
                    claimed: hid,
                },
            )
        } else {
            let announced = AppearanceMessage {
                priority: UNANNOUNCED_PRIORITY,
                is_master: true,
                hid,
            };
            Ok(ElectionView { nodes: self.nodes.push(NodeView::fresh(source, announced, now)), ..self })
        }
    }

    /// The state after `msg` has arrived from `source` at `now`; `priority`
    /// is the priority to go on with if the message resets the election.
    pub open spec fn on_message(self, source: Address, msg: Message, now: u64, priority: i32)
        -> Result<ElectionView, ElectionError> {
        match msg {
            Message::Appearance(appearance) => self.on_appearance(source, appearance, now),
            Message::CastVote(vote) => self.on_vote(vote.addr, vote.hid, source, now),
            Message::Reset => Ok(self.after_reset(now, priority)),
            Message::ElectionResult(_) => Ok(self),
            Message::ConnectionDetails(details) => self.on_connection_details(
                source,
                details.hid,
                now,
            ),
        }
    }

    /// The peer that this node votes for at `now`, if it votes.
    ///
    /// A node votes once per election. It votes for a known leader at once;
    /// otherwise it waits out the grace period and then votes for the peer of
    /// highest priority, the last such in the table if several share it.
    pub open spec fn ballot(self, now: u64) -> Option<(Address, HostId)> {
        if self.voted {
            None
        } else if any_answers(self.nodes, Query::Master) {
            Some(identity_at(self.nodes, first(self.nodes, Query::Master)))
        } else if self.nodes.len() == 0 || self.too_early(now) {
            None
        } else {
            Some(identity_at(self.nodes, top_priority(self.nodes)))
        }
    }

    /// The state after this node has considered voting at `now`.
    pub open spec fn after_ballot(self, now: u64) -> ElectionView {
        ElectionView { voted: self.voted || self.ballot(now) is Some, ..self }
    }

    /// Whether the election is split at `now`: no leader is known, the grace
    /// period is over, ballots have stopped arriving, and two peers lead with
    /// the same number of voters.
    pub open spec fn split(self, now: u64) -> bool {
        &&& !any_answers(self.nodes, Query::Master)
        &&& !self.too_early(now)
        &&& !self.votes_settling(now)
        &&& has_quorum(self.nodes)
        &&& is_split(self.nodes)
    }

    /// The winner of the election as far as it is decided at `now`.
    ///
    /// A known leader wins at once. Otherwise, once the grace period is over
    /// and ballots have stopped arriving, the one peer that leads among those
    /// that have reached the quorum wins.
    pub open spec fn winner(self, now: u64) -> Option<(Address, HostId)> {
        if any_answers(self.nodes, Query::Master) {
            Some(identity_at(self.nodes, first(self.nodes, Query::Master)))
        } else if self.too_early(now) || self.votes_settling(now) {
            None
        } else if !has_quorum(self.nodes) || is_split(self.nodes) {
            None
        } else {
            Some(identity_at(self.nodes, leader(self.nodes)))
        }
    }

    /// The state after the result has been evaluated at `now`: a split vote
    /// resets the election with `priority`, anything else changes nothing.
    pub open spec fn after_result(self, now: u64, priority: i32) -> ElectionView {
        if self.split(now) {
            self.after_reset(now, priority)
        } else {
            self
        }
    }

    /// A state is valid when the table holds at most one record per endpoint
    /// and every record is valid.
    pub open spec fn wf(self) -> bool {
        &&& unique_endpoints(self.nodes)
        &&& forall|i: int| 0 <= i < self.nodes.len() ==> (#[trigger] self.nodes[i]).wf()
    }
}

} // verus!
