//! The quorum: how many votes a candidate needs among `n` known peers.

use vstd::prelude::*;

verus! {

/// The least number of votes that is at least two thirds of `n`.
pub open spec fn quorum_of(n: nat) -> nat {
    ((2 * n + 2) / 3) as nat
}

/// The quorum is the ceiling of `2n/3`: a number `q` is the quorum of `n`
/// exactly when `2n <= 3q < 2n + 3`.
pub proof fn lemma_quorum_is_ceiling(n: nat, q: nat)
    ensures
        q == quorum_of(n) <==> 2 * n <= 3 * q < 2 * n + 3,
{
}

/// The quorum never exceeds the table size, is zero only for an empty table,
/// and does not shrink when the table grows.
pub proof fn lemma_quorum_bounds(n: nat, m: nat)
    ensures
        quorum_of(n) <= n,
        quorum_of(n) == 0 <==> n == 0,
        n <= m ==> quorum_of(n) <= quorum_of(m),
{
}

/// Computes the quorum for a table of `n` peers.
pub fn quorum_for(n: usize) -> (q: usize)
    ensures
        q == quorum_of(n as nat),
{
    n - n / 3
}

} // verus!
