//! The node table as a sequence of records: lookups, the peer to vote for,
//! and which peers a quorum has settled on.

use vstd::prelude::*;
use crate::address::{Address, HostId};
use crate::node::{NodeView, Query};
use crate::quorum::quorum_of;

verus! {

pub type Table = Seq<NodeView>;

/// Whether some record answers `query`.
pub open spec fn any_answers(nodes: Table, query: Query) -> bool {
    exists|i: int| 0 <= i < nodes.len() && #[trigger] nodes[i].answers(query)
}

/// Whether `i` is the position of the first record that answers `query`.
pub open spec fn is_first(nodes: Table, query: Query, i: int) -> bool {
    &&& 0 <= i < nodes.len()
    &&& nodes[i].answers(query)
    &&& forall|j: int| 0 <= j < i ==> !#[trigger] nodes[j].answers(query)
}

/// The position of the first record that answers `query`, where there is one.
pub open spec fn first(nodes: Table, query: Query) -> int {
    choose|i: int| is_first(nodes, query, i)
}

/// No two records share an endpoint.
pub open spec fn unique_endpoints(nodes: Table) -> bool {
    forall|i: int, j: int|
        0 <= i < nodes.len() && 0 <= j < nodes.len() && i != j ==> (#[trigger] nodes[i]).addr != (
        #[trigger] nodes[j]).addr
}

/// The endpoint and host identity of the record at `i`.
pub open spec fn identity_at(nodes: Table, i: int) -> (Address, HostId) {
    (nodes[i].addr, nodes[i].hid)
}

/// Whether `i` is the peer to vote for: no record has a higher priority, and
/// every record after it has a lower one.
pub open spec fn is_top_priority(nodes: Table, i: int) -> bool {
    &&& 0 <= i < nodes.len()
    &&& forall|j: int| 0 <= j < nodes.len() ==> (#[trigger] nodes[j]).priority <= nodes[i].priority
    &&& forall|j: int| i < j < nodes.len() ==> (#[trigger] nodes[j]).priority < nodes[i].priority
}

/// The position of the peer to vote for in a table that is not empty.
pub open spec fn top_priority(nodes: Table) -> int {
    choose|i: int| is_top_priority(nodes, i)
}

/// Whether the record at `i` has as many voters as the quorum asks for.
pub open spec fn qualifies(nodes: Table, i: int) -> bool {
    0 <= i < nodes.len() && nodes[i].vote_count() >= quorum_of(nodes.len())
}

/// Whether some record has reached the quorum.
pub open spec fn has_quorum(nodes: Table) -> bool {
    exists|i: int| #[trigger] qualifies(nodes, i)
}

/// Whether the record at `i` has reached the quorum with as many voters as
/// any record that has.
pub open spec fn is_leading(nodes: Table, i: int) -> bool {
    &&& qualifies(nodes, i)
    &&& forall|j: int| #[trigger]
        qualifies(nodes, j) ==> nodes[j].vote_count() <= nodes[i].vote_count()
}

/// A split vote: two different records lead with the same number of voters.
pub open spec fn is_split(nodes: Table) -> bool {
    exists|i: int, j: int| i != j && #[trigger] is_leading(nodes, i) && #[trigger] is_leading(nodes, j)
}

/// The position of the leading record, where there is exactly one.
pub open spec fn leader(nodes: Table) -> int {
    choose|i: int| is_leading(nodes, i)
}

/// The first record that answers a query is the only position that
/// `is_first` accepts.
pub proof fn lemma_first_is_unique(nodes: Table, query: Query, i: int)
    requires
        is_first(nodes, query, i),
    ensures
        any_answers(nodes, query),
        first(nodes, query) == i,
{
    let k = first(nodes, query);
    assert(is_first(nodes, query, k));
    if k < i {
        assert(!nodes[k].answers(query));
    }
    if i < k {
        assert(!nodes[i].answers(query));
    }
}

/// Whenever some record answers a query, `first` gives the first that does.
pub proof fn lemma_first_exists(nodes: Table, query: Query)
    requires
        any_answers(nodes, query),
    ensures
        is_first(nodes, query, first(nodes, query)),
{
    let w = choose|i: int| 0 <= i < nodes.len() && #[trigger] nodes[i].answers(query);
    lemma_first_below(nodes, query, w);
}

/// A record that answers a query at `w` bounds the search for the first one.
proof fn lemma_first_below(nodes: Table, query: Query, w: int)
    requires
        0 <= w < nodes.len(),
        nodes[w].answers(query),
    ensures
        is_first(nodes, query, first(nodes, query)),
        first(nodes, query) <= w,
    decreases w,
{
    if exists|j: int| 0 <= j < w && #[trigger] nodes[j].answers(query) {
        let j = choose|j: int| 0 <= j < w && #[trigger] nodes[j].answers(query);
        lemma_first_below(nodes, query, j);
    } else {
        assert(is_first(nodes, query, w));
        lemma_first_is_unique(nodes, query, w);
    }
}

/// Replacing a record by one at the same endpoint keeps one record per
/// endpoint.
pub proof fn lemma_update_keeps_endpoints(nodes: Table, i: int, record: NodeView)
    requires
        unique_endpoints(nodes),
        0 <= i < nodes.len(),
        record.addr == nodes[i].addr,
    ensures
        unique_endpoints(nodes.update(i, record)),
{
    let after = nodes.update(i, record);
    assert forall|j: int, k: int|
        0 <= j < after.len() && 0 <= k < after.len() && j != k implies (#[trigger] after[j]).addr
        != (#[trigger] after[k]).addr by {
        assert(nodes[j].addr != nodes[k].addr);
    }
}

/// Adding a record at an endpoint that is not on record keeps one record per
/// endpoint.
pub proof fn lemma_push_keeps_endpoints(nodes: Table, record: NodeView)
    requires
        unique_endpoints(nodes),
        !any_answers(nodes, Query::Endpoint(record.addr)),
    ensures
        unique_endpoints(nodes.push(record)),
{
    let after = nodes.push(record);
    assert forall|j: int, k: int|
        0 <= j < after.len() && 0 <= k < after.len() && j != k implies (#[trigger] after[j]).addr
        != (#[trigger] after[k]).addr by {
        if j < nodes.len() && k < nodes.len() {
            assert(nodes[j].addr != nodes[k].addr);
        } else if j < nodes.len() {
            assert(!nodes[j].answers(Query::Endpoint(record.addr)));
        } else {
            assert(!nodes[k].answers(Query::Endpoint(record.addr)));
        }
    }
}

/// The peer to vote for is the only position that `is_top_priority` accepts.
pub proof fn lemma_top_priority_is_unique(nodes: Table, i: int)
    requires
        is_top_priority(nodes, i),
    ensures
        top_priority(nodes) == i,
{
    let k = top_priority(nodes);
    assert(is_top_priority(nodes, k));
    if k < i {
        assert(nodes[i].priority < nodes[k].priority);
        assert(nodes[k].priority <= nodes[i].priority);
    }
    if i < k {
        assert(nodes[k].priority < nodes[i].priority);
        assert(nodes[i].priority <= nodes[k].priority);
    }
}

/// Whether the record at `k` has reached the quorum with as many voters as
/// any of the first `n` records that has.
pub open spec fn leads_among(nodes: Table, n: int, k: int) -> bool {
    &&& 0 <= k < n
    &&& qualifies(nodes, k)
    &&& forall|j: int|
        0 <= j < n && #[trigger] qualifies(nodes, j) ==> nodes[j].vote_count()
            <= nodes[k].vote_count()
}

/// Among the first `n` records, of which one has reached the quorum, some
/// record leads.
proof fn lemma_leading_among(nodes: Table, n: int) -> (k: int)
    requires
        0 <= n <= nodes.len(),
        exists|j: int| 0 <= j < n && #[trigger] qualifies(nodes, j),
    ensures
        leads_among(nodes, n, k),
    decreases n,
{
    let last = n - 1;
    if exists|j: int| 0 <= j < last && #[trigger] qualifies(nodes, j) {
        let below = lemma_leading_among(nodes, last);
        if qualifies(nodes, last) && nodes[last].vote_count() > nodes[below].vote_count() {
            last
        } else {
            below
        }
    } else {
        assert(qualifies(nodes, last));
        last
    }
}

/// As soon as one record has reached the quorum, some record leads.
pub proof fn lemma_leader_exists(nodes: Table)
    requires
        has_quorum(nodes),
    ensures
        is_leading(nodes, leader(nodes)),
{
    let w = choose|i: int| #[trigger] qualifies(nodes, i);
    let k = lemma_leading_among(nodes, nodes.len() as int);
    assert(is_leading(nodes, k));
}

/// Where the vote is not split, the leading record is the only one.
pub proof fn lemma_leader_is_unique(nodes: Table, i: int)
    requires
        is_leading(nodes, i),
        !is_split(nodes),
    ensures
        leader(nodes) == i,
{
    let k = leader(nodes);
    assert(is_leading(nodes, k));
}

} // verus!
