//! Action-selection strategies over one state's row of action values.
//!
//! Values are compared through their order keys (see `order_key`); the random
//! draws a strategy needs are made by the caller and passed in.
use vstd::prelude::*;

verus! {

/// How an action is picked from a state's row of action values.
#[derive(Clone, Copy, Debug, PartialEq, Eq, Structural)]
pub enum Strategy {
    /// Uniformly at random, ignoring the values: warm-up exploration.
    Random,
    /// At random with probability epsilon, otherwise the best action.
    EpsilonGreedy,
    /// Always the best action: evaluation and deployment.
    MostQValue,
}

/// `i` is the first column holding the row's maximum.
pub open spec fn is_first_max(row: Seq<i64>, i: int) -> bool {
    &&& 0 <= i < row.len()
    &&& forall|j: int| 0 <= j < row.len() ==> row[j] <= row[i]
    &&& forall|j: int| 0 <= j < i ==> row[j] < row[i]
}

/// The column of the row's maximum, ties going to the first occurrence.
pub fn best_action(row: &[i64]) -> (r: usize)
    requires
        0 < row@.len(),
    ensures
        is_first_max(row@, r as int),
{
    let n = row.len();
    let mut best: usize = 0;
    let mut k: usize = 1;
    while k < n
        invariant
            1 <= k <= n,
            n == row@.len(),
            best < k,
            forall|j: int| 0 <= j < k ==> row@[j] <= row@[best as int],
            forall|j: int| 0 <= j < best ==> row@[j] < row@[best as int],
        decreases n - k,
    {
        if row[k] > row[best] {
            best = k;
        }
        k += 1;
    }
    best
}

/// The column picked by `strategy` from `row`. `explore` is the outcome of the
/// epsilon draw (whether a uniform draw in `[0, 1)` fell below epsilon) and
/// `random_index` a uniform draw over the columns; a strategy that has no use
/// for a draw ignores it.
pub fn select_action(strategy: Strategy, row: &[i64], explore: bool, random_index: usize) -> (r:
    usize)
    requires
        0 < row@.len(),
        random_index < row@.len(),
    ensures
        match strategy {
            Strategy::Random => r == random_index,
            Strategy::EpsilonGreedy => if explore {
                r == random_index
            } else {
                is_first_max(row@, r as int)
            },
            Strategy::MostQValue => is_first_max(row@, r as int),
        },
{
    match strategy {
        Strategy::Random => random_index,
        Strategy::EpsilonGreedy => if explore {
            random_index
        } else {
            best_action(row)
        },
        Strategy::MostQValue => best_action(row),
    }
}

/// Where one column holds a value strictly above all others, it is the only
/// first maximum: the greedy choice is that column, whatever the draws.
pub proof fn lemma_unique_max_selected(row: Seq<i64>, c: int, i: int)
    requires
        0 <= c < row.len(),
        forall|j: int| 0 <= j < row.len() && j != c ==> row[j] < row[c],
        is_first_max(row, i),
    ensures
        i == c,
{
    if i != c {
        assert(row[i] < row[c]);
        assert(row[c] <= row[i]);
    }
}

} // verus!
