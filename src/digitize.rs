//! Bucketing of ordered values by fixed bin edges.
//!
//! Values are compared through integer keys: `order_key` maps the bit pattern of
//! an IEEE-754 double to an integer that orders as the double does, so that the
//! bucketing below works on plain integers.
use vstd::prelude::*;

verus! {

/// The sign bit of an IEEE-754 binary64 bit pattern.
pub const SIGN_BIT: u64 = 0x8000_0000_0000_0000;

/// The ordering key of a binary64 bit pattern: the magnitude bits, negated when
/// the sign bit is set. The encoding stores sign and magnitude with magnitudes
/// that grow with their bit patterns, so for two non-NaN doubles `x < y` exactly
/// when the key of `x` is below the key of `y`; the two zeros share the key 0.
pub open spec fn spec_order_key(bits: u64) -> int {
    if bits < SIGN_BIT {
        bits as int
    } else {
        -((bits - SIGN_BIT) as int)
    }
}

/// The key of a double's bit pattern (`f64::to_bits`) under which integer order
/// is the order of the doubles.
pub fn order_key(bits: u64) -> (r: i64)
    ensures
        r == spec_order_key(bits),
{
    if bits < SIGN_BIT {
        bits as i64
    } else {
        -((bits - SIGN_BIT) as i64)
    }
}

/// Edges in non-decreasing order.
pub open spec fn sorted(bins: Seq<i64>) -> bool {
    forall|i: int, j: int| 0 <= i <= j < bins.len() ==> bins[i] <= bins[j]
}

/// Edges in strictly increasing order.
pub open spec fn strictly_sorted(bins: Seq<i64>) -> bool {
    forall|i: int, j: int| 0 <= i < j < bins.len() ==> bins[i] < bins[j]
}

/// The bucket of `value` when scanning the edges from `k` on: the index of the
/// first edge that lies strictly above `value`, or the number of edges when there
/// is none.
pub open spec fn bucket_from(value: i64, bins: Seq<i64>, k: nat) -> nat
    decreases bins.len() - k,
{
    if k >= bins.len() {
        bins.len()
    } else if value < bins[k as int] {
        k
    } else {
        bucket_from(value, bins, k + 1)
    }
}

/// The bucket of `value` among `bins.len() + 1` buckets: bucket `i` holds the
/// values below edge `i` and at or above edge `i - 1`; the last holds the values
/// at or above the last edge.
pub open spec fn spec_bucket(value: i64, bins: Seq<i64>) -> nat {
    bucket_from(value, bins, 0)
}

/// The bucket of `value` (see `spec_bucket`). A value exactly at an edge falls
/// into the bucket above it.
pub fn digitize(value: i64, bins: &[i64]) -> (r: usize)
    requires
        sorted(bins@),
    ensures
        r == spec_bucket(value, bins@),
        r <= bins@.len(),
{
    let n = bins.len();
    let mut k: usize = 0;
    while k < n
        invariant
            k <= n,
            n == bins@.len(),
            bucket_from(value, bins@, k as nat) == spec_bucket(value, bins@),
        decreases n - k,
    {
        if value < bins[k] {
            return k;
        }
        k += 1;
    }
    proof {
        lemma_bucket_bounds(value, bins@, 0);
    }
    n
}

/// A scan from `k` ends in `[k, bins.len()]`.
pub proof fn lemma_bucket_bounds(value: i64, bins: Seq<i64>, k: nat)
    requires
        k <= bins.len(),
    ensures
        k <= bucket_from(value, bins, k) <= bins.len(),
    decreases bins.len() - k,
{
    if k < bins.len() && !(value < bins[k as int]) {
        lemma_bucket_bounds(value, bins, k + 1);
    }
}

proof fn lemma_bucket_at_edge_from(bins: Seq<i64>, i: nat, k: nat)
    requires
        strictly_sorted(bins),
        i < bins.len(),
        k <= i + 1,
    ensures
        bucket_from(bins[i as int], bins, k) == i + 1,
    decreases i + 1 - k,
{
    if k <= i {
        assert(bins[k as int] <= bins[i as int]);
        lemma_bucket_at_edge_from(bins, i, k + 1);
    }
}

proof fn lemma_bucket_top_from(value: i64, bins: Seq<i64>, k: nat)
    requires
        sorted(bins),
        0 < bins.len(),
        bins[bins.len() - 1] <= value,
        k <= bins.len(),
    ensures
        bucket_from(value, bins, k) == bins.len(),
    decreases bins.len() - k,
{
    if k < bins.len() {
        assert(bins[k as int] <= bins[bins.len() - 1]);
        lemma_bucket_top_from(value, bins, k + 1);
    }
}

/// With strictly increasing edges: a value exactly at edge `i` falls into bucket
/// `i + 1`, the one above the edge; a value below the first edge falls into
/// bucket 0; a value at or above the last edge falls into the last bucket.
pub proof fn lemma_bucket_edges(bins: Seq<i64>, value: i64)
    requires
        strictly_sorted(bins),
    ensures
        forall|i: int| 0 <= i < bins.len() ==> spec_bucket(#[trigger] bins[i], bins) == i + 1,
        0 < bins.len() && value < bins[0] ==> spec_bucket(value, bins) == 0,
        0 < bins.len() && bins[bins.len() - 1] <= value ==> spec_bucket(value, bins)
            == bins.len(),
        bins.len() == 0 ==> spec_bucket(value, bins) == 0,
{
    assert forall|i: int| 0 <= i < bins.len() implies spec_bucket(#[trigger] bins[i], bins) == i
        + 1 by {
        lemma_bucket_at_edge_from(bins, i as nat, 0);
    }
    if 0 < bins.len() && bins[bins.len() - 1] <= value {
        lemma_bucket_top_from(value, bins, 0);
    }
}

proof fn lemma_bucket_monotonic_from(a: i64, b: i64, bins: Seq<i64>, k: nat)
    requires
        a <= b,
        k <= bins.len(),
    ensures
        bucket_from(a, bins, k) <= bucket_from(b, bins, k),
    decreases bins.len() - k,
{
    if k < bins.len() {
        if a < bins[k as int] {
            lemma_bucket_bounds(b, bins, k);
        } else {
            lemma_bucket_monotonic_from(a, b, bins, k + 1);
        }
    }
}

/// Bucketing is monotonic: for fixed edges, a smaller value never falls into a
/// higher bucket.
pub proof fn lemma_bucket_monotonic(a: i64, b: i64, bins: Seq<i64>)
    requires
        a < b,
    ensures
        spec_bucket(a, bins) <= spec_bucket(b, bins),
{
    lemma_bucket_monotonic_from(a, b, bins, 0);
}

/// Keys order as the sign-magnitude values they encode: of two non-negative
/// patterns the larger magnitude is higher, of two negative ones it is lower,
/// and every negative pattern other than negative zero lies below every
/// non-negative one.
pub proof fn lemma_order_key_monotonic(x: u64, y: u64)
    ensures
        x < SIGN_BIT && y < SIGN_BIT ==> (spec_order_key(x) < spec_order_key(y) <==> x < y),
        x >= SIGN_BIT && y >= SIGN_BIT ==> (spec_order_key(x) < spec_order_key(y) <==> y < x),
        x > SIGN_BIT && y < SIGN_BIT ==> spec_order_key(x) < spec_order_key(y),
        spec_order_key(SIGN_BIT) == spec_order_key(0),
{
}

} // verus!
