//! What holds of every election, whatever its table and whatever the time.

use vstd::prelude::*;
use crate::address::{Address, HostId};
use crate::message::Message;
use crate::model::ElectionView;
use crate::node::Query;
use crate::quorum::quorum_of;
use crate::node::NodeView;
use crate::table::{
    any_answers, first, identity_at, is_first, is_leading, is_split, leader, lemma_first_exists,
    lemma_first_is_unique, lemma_leader_exists, lemma_push_keeps_endpoints,
    lemma_update_keeps_endpoints, qualifies,
};

verus! {

/// Every message leaves a valid state valid: one record per endpoint, and
/// voters that can be counted.
pub proof fn lemma_message_keeps_state_valid(
    state: ElectionView,
    source: Address,
    msg: Message,
    now: u64,
    priority: i32,
)
    requires
        state.wf(),
    ensures
        state.on_message(source, msg, now, priority) matches Ok(next) ==> next.wf(),
{
    let nodes = state.nodes;
    match msg {
        Message::Appearance(appearance) => {
            let query = Query::Endpoint(source);
            if any_answers(nodes, query) {
                lemma_first_exists(nodes, query);
                let i = first(nodes, query);
                lemma_update_keeps_endpoints(nodes, i, nodes[i].refreshed(appearance, now));
            } else {
                lemma_push_keeps_endpoints(nodes, NodeView::fresh(source, appearance, now));
            }
        },
        Message::CastVote(vote) => {
            let query = Query::Candidate(vote.addr, vote.hid);
            if any_answers(nodes, query) {
                lemma_first_exists(nodes, query);
                let i = first(nodes, query);
                lemma_update_keeps_endpoints(nodes, i, nodes[i].with_vote(source));
            }
        },
        Message::Reset => {},
        Message::ElectionResult(_) => {},
        Message::ConnectionDetails(details) => {
            let query = Query::Host(details.hid);
            if any_answers(nodes, query) {
                lemma_first_exists(nodes, query);
                let i = first(nodes, query);
                lemma_update_keeps_endpoints(nodes, i, nodes[i].as_master());
            } else if !any_answers(nodes, Query::Endpoint(source)) {
                let next = state.on_connection_details(source, details.hid, now)->Ok_0;
                lemma_push_keeps_endpoints(nodes, next.nodes.last());
            }
        },
    }
}

/// A ballot counts once per voter. The first ballot of a voter for a
/// candidate adds one to its count; a repeated ballot of the same voter
/// changes no record, so a candidate with no other voters stays at one.
pub proof fn lemma_repeated_vote_counts_once(
    state: ElectionView,
    addr: Address,
    hid: HostId,
    voter: Address,
    first_time: u64,
    second_time: u64,
)
    requires
        state.wf(),
        any_answers(state.nodes, Query::Candidate(addr, hid)),
    ensures
        ({
            let i = first(state.nodes, Query::Candidate(addr, hid));
            &&& state.on_vote(addr, hid, voter, first_time) matches Ok(once)
            &&& once.on_vote(addr, hid, voter, second_time) matches Ok(twice)
            &&& twice.nodes == once.nodes
            &&& first(once.nodes, Query::Candidate(addr, hid)) == i
            &&& once.nodes[i].vote_count() == if state.nodes[i].votes.contains(voter) {
                state.nodes[i].vote_count()
            } else {
                state.nodes[i].vote_count() + 1
            }
            &&& twice.nodes[i].vote_count() == once.nodes[i].vote_count()
            &&& state.nodes[i].vote_count() == 0 ==> twice.nodes[i].vote_count() == 1
        }),
{
    let query = Query::Candidate(addr, hid);
    lemma_first_exists(state.nodes, query);
    let i = first(state.nodes, query);
    let once = state.on_vote(addr, hid, voter, first_time)->Ok_0;
    assert(is_first(once.nodes, query, i)) by {
        assert forall|j: int| 0 <= j < i implies !#[trigger] once.nodes[j].answers(query) by {
            assert(!state.nodes[j].answers(query));
        }
    }
    lemma_first_is_unique(once.nodes, query, i);
    let twice = once.on_vote(addr, hid, voter, second_time)->Ok_0;
    let votes = state.nodes[i].votes;
    assert(state.nodes[i].wf());
    assert(votes.insert(voter).insert(voter) =~= votes.insert(voter));
    assert(twice.nodes =~= once.nodes);
}

/// Without a known leader, nobody wins before some peer has reached the
/// quorum; whoever wins has reached it, after the grace period and after the
/// ballots have settled, with more voters than any other peer; and a winner
/// and a split exclude each other.
pub proof fn lemma_winner_has_quorum(state: ElectionView, now: u64)
    requires
        !any_answers(state.nodes, Query::Master),
    ensures
        (forall|i: int|
            0 <= i < state.nodes.len() ==> (#[trigger] state.nodes[i]).vote_count() < quorum_of(
                state.nodes.len(),
            )) ==> state.winner(now) is None,
        state.winner(now) is Some ==> {
            let i = leader(state.nodes);
            &&& 0 <= i < state.nodes.len()
            &&& state.winner(now) == Some(identity_at(state.nodes, i))
            &&& state.nodes[i].vote_count() >= quorum_of(state.nodes.len())
            &&& forall|j: int|
                0 <= j < state.nodes.len() && j != i ==> (#[trigger] state.nodes[j]).vote_count()
                    < state.nodes[i].vote_count()
            &&& !state.too_early(now)
            &&& !state.votes_settling(now)
            &&& !state.split(now)
        },
{
    let nodes = state.nodes;
    if forall|i: int|
        0 <= i < nodes.len() ==> (#[trigger] nodes[i]).vote_count() < quorum_of(nodes.len()) {
        assert forall|i: int| !#[trigger] qualifies(nodes, i) by {
            if 0 <= i < nodes.len() {
                assert(nodes[i].vote_count() < quorum_of(nodes.len()));
            }
        }
    }
    if state.winner(now) is Some {
        lemma_leader_exists(nodes);
        let i = leader(nodes);
        assert forall|j: int| 0 <= j < nodes.len() && j != i implies (
        #[trigger] nodes[j]).vote_count() < nodes[i].vote_count() by {
            if nodes[j].vote_count() >= nodes[i].vote_count() {
                assert(qualifies(nodes, j));
                assert(is_leading(nodes, j));
                assert(is_split(nodes));
            }
        }
    }
}

/// Two peers that have reached the quorum with the same number of voters,
/// which no peer exceeds, split the vote: once the grace period is over and
/// ballots have stopped arriving, and unless a leader is known, nobody wins,
/// the split is reported, and the table is empty afterwards.
pub proof fn lemma_tie_at_the_top_resets(
    state: ElectionView,
    now: u64,
    priority: i32,
    a: int,
    b: int,
)
    requires
        !any_answers(state.nodes, Query::Master),
        !state.too_early(now),
        !state.votes_settling(now),
        0 <= a < state.nodes.len(),
        0 <= b < state.nodes.len(),
        a != b,
        state.nodes[a].vote_count() == state.nodes[b].vote_count(),
        state.nodes[a].vote_count() >= quorum_of(state.nodes.len()),
        forall|j: int|
            0 <= j < state.nodes.len() ==> (#[trigger] state.nodes[j]).vote_count()
                <= state.nodes[a].vote_count(),
    ensures
        state.winner(now) is None,
        state.split(now),
        state.after_result(now, priority).nodes.len() == 0,
        state.after_result(now, priority) == state.after_reset(now, priority),
{
    let nodes = state.nodes;
    assert(qualifies(nodes, a));
    assert(qualifies(nodes, b));
    assert(is_leading(nodes, a));
    assert(is_leading(nodes, b));
}

/// A known leader settles everything: whatever else the table holds and
/// whatever the time, the first record that claims leadership is the winner,
/// no split is reported, the state stays as it is, and a node that has not
/// voted yet votes for that record.
pub proof fn lemma_known_leader_wins(state: ElectionView, now: u64, priority: i32, i: int)
    requires
        is_first(state.nodes, Query::Master, i),
    ensures
        state.winner(now) == Some(identity_at(state.nodes, i)),
        !state.split(now),
        state.after_result(now, priority) == state,
        !state.voted ==> state.ballot(now) == Some(identity_at(state.nodes, i)),
        state.voted ==> state.ballot(now) is None,
{
    lemma_first_is_unique(state.nodes, Query::Master, i);
}

/// As soon as any record claims leadership, some record is the first to do
/// so, and that one is what both the ballot and the result name.
pub proof fn lemma_any_leader_is_enough(state: ElectionView, now: u64, k: int)
    requires
        0 <= k < state.nodes.len(),
        state.nodes[k].is_master,
    ensures
        ({
            let i = first(state.nodes, Query::Master);
            &&& is_first(state.nodes, Query::Master, i)
            &&& i <= k
            &&& state.winner(now) == Some(identity_at(state.nodes, i))
            &&& !state.voted ==> state.ballot(now) == Some(identity_at(state.nodes, i))
        }),
{
    assert(state.nodes[k].answers(Query::Master));
    lemma_first_exists(state.nodes, Query::Master);
    let i = first(state.nodes, Query::Master);
    if k < i {
        assert(!state.nodes[k].answers(Query::Master));
    }
}

} // verus!
