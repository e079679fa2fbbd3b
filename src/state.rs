//! The digitized state of the two-link pendulum: one bucket per observation axis,
//! combined into a single flat index by mixed-radix encoding.
use vstd::prelude::*;
use vstd::arithmetic::div_mod::{
    lemma_fundamental_div_mod,
    lemma_fundamental_div_mod_converse,
    lemma_mod_pos_bound,
};
use crate::digitize::{digitize, sorted, spec_bucket};

verus! {

/// The flat index of four per-axis buckets: the pendulum-angle bucket varies
/// fastest, then the pendulum-velocity bucket, then the arm-angle bucket, then
/// the arm-velocity bucket. The pendulum axes have `dp` buckets, the arm axes `da`.
pub open spec fn spec_encode(pr: int, pv: int, ar: int, av: int, dp: int, da: int) -> int {
    pr + dp * (pv + dp * (ar + da * av))
}

/// Number of flat indices: the product of the four axes' bucket counts.
pub open spec fn spec_state_size(dp: int, da: int) -> int {
    dp * (dp * (da * da))
}

/// The four buckets (pendulum angle, pendulum velocity, arm angle, arm velocity)
/// of flat index `i`.
pub open spec fn spec_decode(i: int, dp: int, da: int) -> (int, int, int, int) {
    (i % dp, (i / dp) % dp, (i / dp / dp) % da, i / dp / dp / da)
}

proof fn lemma_radix_step(r: int, d: int, q: int, qmax: int)
    requires
        0 <= r < d,
        0 <= q < qmax,
    ensures
        0 <= d * q <= r + d * q < d * qmax,
{
    assert(0 <= d * q && d * q + d <= d * qmax) by (nonlinear_arith)
        requires
            0 <= q < qmax,
            0 < d,
    ;
}

proof fn lemma_div_below(x: int, d: int, qmax: int)
    requires
        0 <= x < d * qmax,
        0 < d,
    ensures
        0 <= x / d < qmax,
        0 <= x % d < d,
        x == d * (x / d) + x % d,
{
    lemma_fundamental_div_mod(x, d);
    lemma_mod_pos_bound(x, d);
    let q = x / d;
    let r = x % d;
    assert(0 <= q < qmax) by (nonlinear_arith)
        requires
            x == d * q + r,
            0 <= r < d,
            0 <= x < d * qmax,
            0 < d,
    ;
}

/// The flat state index is a bijection between the in-range bucket tuples and
/// `[0, state_size)`: encoding an in-range tuple gives an index in range that
/// decodes to the same tuple, and every index in range decodes to an in-range
/// tuple that encodes back to it.
pub proof fn lemma_state_index_bijective(
    pr: int,
    pv: int,
    ar: int,
    av: int,
    dp: int,
    da: int,
    i: int,
)
    requires
        0 < dp,
        0 < da,
    ensures
        0 <= pr < dp && 0 <= pv < dp && 0 <= ar < da && 0 <= av < da ==> {
            &&& 0 <= spec_encode(pr, pv, ar, av, dp, da) < spec_state_size(dp, da)
            &&& spec_decode(spec_encode(pr, pv, ar, av, dp, da), dp, da) == (pr, pv, ar, av)
        },
        0 <= i < spec_state_size(dp, da) ==> {
            let (a, b, c, e) = spec_decode(i, dp, da);
            &&& 0 <= a < dp && 0 <= b < dp && 0 <= c < da && 0 <= e < da
            &&& spec_encode(a, b, c, e, dp, da) == i
        },
{
    if 0 <= pr < dp && 0 <= pv < dp && 0 <= ar < da && 0 <= av < da {
        let y = ar + da * av;
        let x1 = pv + dp * y;
        let x = pr + dp * x1;
        lemma_radix_step(ar, da, av, da);
        lemma_radix_step(pv, dp, y, da * da);
        lemma_radix_step(pr, dp, x1, dp * (da * da));
        assert(x == x1 * dp + pr && x1 == y * dp + pv && y == av * da + ar) by (nonlinear_arith)
            requires
                x == pr + dp * x1,
                x1 == pv + dp * y,
                y == ar + da * av,
        ;
        lemma_fundamental_div_mod_converse(x, dp, x1, pr);
        lemma_fundamental_div_mod_converse(x1, dp, y, pv);
        lemma_fundamental_div_mod_converse(y, da, av, ar);
    }
    if 0 <= i < spec_state_size(dp, da) {
        lemma_div_below(i, dp, dp * (da * da));
        lemma_div_below(i / dp, dp, da * da);
        lemma_div_below(i / dp / dp, da, da);
    }
}

/// Bucket indices of one observation, and their flat index.
#[derive(Clone, Copy, Debug, PartialEq, Eq, Structural)]
pub struct AcrobotState {
    pub n_arm_rad: usize,
    pub n_pendulum_rad: usize,
    pub n_arm_vel: usize,
    pub n_pendulum_vel: usize,
    pub digitized_state: usize,
}

/// The digitization of the balance task: bucket counts per axis, the interior bin
/// edges of each axis as order keys, and the number of discrete actions.
pub struct AcrobotBalanceTask {
    n_arm_digitization: usize,
    n_pendulum_digitization: usize,
    action_size: usize,
    arm_rad_edges: Vec<i64>,
    arm_vel_edges: Vec<i64>,
    pendulum_rad_edges: Vec<i64>,
    pendulum_vel_edges: Vec<i64>,
}

/// Whether `d` axis buckets are described by `edges`: `d - 1` edges in order.
pub open spec fn axis_ok(d: nat, edges: Seq<i64>) -> bool {
    0 < d && edges.len() + 1 == d && sorted(edges)
}

/// Whether a non-decreasing order holds of `bins`.
fn is_sorted(bins: &[i64]) -> (r: bool)
    ensures
        r == sorted(bins@),
{
    let n = bins.len();
    if n == 0 {
        return true;
    }
    let mut k: usize = 1;
    while k < n
        invariant
            1 <= k <= n,
            n == bins@.len(),
            forall|i: int, j: int| 0 <= i <= j < k ==> bins@[i] <= bins@[j],
        decreases n - k,
    {
        if bins[k - 1] > bins[k] {
            assert(!sorted(bins@)) by {
                assert(bins@[k - 1] > bins@[k as int]);
            }
            return false;
        }
        k += 1;
    }
    true
}

impl AcrobotBalanceTask {
    pub closed spec fn n_arm(&self) -> nat {
        self.n_arm_digitization as nat
    }

    pub closed spec fn n_pendulum(&self) -> nat {
        self.n_pendulum_digitization as nat
    }

    pub closed spec fn actions(&self) -> nat {
        self.action_size as nat
    }

    pub closed spec fn arm_rad_bins(&self) -> Seq<i64> {
        self.arm_rad_edges@
    }

    pub closed spec fn arm_vel_bins(&self) -> Seq<i64> {
        self.arm_vel_edges@
    }

    pub closed spec fn pendulum_rad_bins(&self) -> Seq<i64> {
        self.pendulum_rad_edges@
    }

    pub closed spec fn pendulum_vel_bins(&self) -> Seq<i64> {
        self.pendulum_vel_edges@
    }

    /// Each axis has its edges in order and one fewer than its buckets, and the
    /// number of flat indices fits in a `usize`.
    pub open spec fn wf(&self) -> bool {
        &&& axis_ok(self.n_arm(), self.arm_rad_bins())
        &&& axis_ok(self.n_arm(), self.arm_vel_bins())
        &&& axis_ok(self.n_pendulum(), self.pendulum_rad_bins())
        &&& axis_ok(self.n_pendulum(), self.pendulum_vel_bins())
        &&& spec_state_size(self.n_pendulum() as int, self.n_arm() as int) <= usize::MAX
    }

    /// Whether `s` holds the buckets of the four values, each under its axis's
    /// edges, and their flat index.
    pub open spec fn digitizes(
        &self,
        s: AcrobotState,
        arm_rad: i64,
        arm_vel: i64,
        pendulum_rad: i64,
        pendulum_vel: i64,
    ) -> bool {
        &&& s.n_arm_rad == spec_bucket(arm_rad, self.arm_rad_bins())
        &&& s.n_arm_vel == spec_bucket(arm_vel, self.arm_vel_bins())
        &&& s.n_pendulum_rad == spec_bucket(pendulum_rad, self.pendulum_rad_bins())
        &&& s.n_pendulum_vel == spec_bucket(pendulum_vel, self.pendulum_vel_bins())
        &&& s.digitized_state == spec_encode(
            s.n_pendulum_rad as int,
            s.n_pendulum_vel as int,
            s.n_arm_rad as int,
            s.n_arm_vel as int,
            self.n_pendulum() as int,
            self.n_arm() as int,
        )
    }

    /// A task with the given bucket counts, action count and interior edges
    /// (order keys, see `order_key`). `None` unless each axis has its edges in
    /// non-decreasing order and exactly one fewer edge than buckets, and the
    /// number of flat states fits in a `usize`.
    pub fn new(
        n_arm_digitization: usize,
        n_pendulum_digitization: usize,
        action_size: usize,
        arm_rad_edges: Vec<i64>,
        arm_vel_edges: Vec<i64>,
        pendulum_rad_edges: Vec<i64>,
        pendulum_vel_edges: Vec<i64>,
    ) -> (r: Option<Self>)
        ensures
            r.is_some() <==> {
                &&& axis_ok(n_arm_digitization as nat, arm_rad_edges@)
                &&& axis_ok(n_arm_digitization as nat, arm_vel_edges@)
                &&& axis_ok(n_pendulum_digitization as nat, pendulum_rad_edges@)
                &&& axis_ok(n_pendulum_digitization as nat, pendulum_vel_edges@)
                &&& spec_state_size(n_pendulum_digitization as int, n_arm_digitization as int)
                    <= usize::MAX
            },
            r matches Some(t) ==> {
                &&& t.wf()
                &&& t.n_arm() == n_arm_digitization
                &&& t.n_pendulum() == n_pendulum_digitization
                &&& t.actions() == action_size
                &&& t.arm_rad_bins() == arm_rad_edges@
                &&& t.arm_vel_bins() == arm_vel_edges@
                &&& t.pendulum_rad_bins() == pendulum_rad_edges@
                &&& t.pendulum_vel_bins() == pendulum_vel_edges@
            },
    {
        let da = n_arm_digitization;
        let dp = n_pendulum_digitization;
        if da == 0 || dp == 0 {
            return None;
        }
        if arm_rad_edges.len() != da - 1 || arm_vel_edges.len() != da - 1 {
            return None;
        }
        if pendulum_rad_edges.len() != dp - 1 || pendulum_vel_edges.len() != dp - 1 {
            return None;
        }
        if !is_sorted(arm_rad_edges.as_slice()) || !is_sorted(arm_vel_edges.as_slice()) {
            return None;
        }
        if !is_sorted(pendulum_rad_edges.as_slice()) || !is_sorted(
            pendulum_vel_edges.as_slice(),
        ) {
            return None;
        }
        let size = match da.checked_mul(da) {
            Some(a2) => match dp.checked_mul(a2) {
                Some(pa2) => dp.checked_mul(pa2),
                None => None,
            },
            None => None,
        };
        if size.is_none() {
            proof {
                let (p, a) = (dp as int, da as int);
                assert(a * a <= p * (a * a) <= p * (p * (a * a))) by (nonlinear_arith)
                    requires
                        0 < p,
                        0 < a,
                ;
            }
            return None;
        }
        Some(
            AcrobotBalanceTask {
                n_arm_digitization,
                n_pendulum_digitization,
                action_size,
                arm_rad_edges,
                arm_vel_edges,
                pendulum_rad_edges,
                pendulum_vel_edges,
            },
        )
    }
}


impl AcrobotBalanceTask {
    /// Number of flat states: the product of the four axes' bucket counts.
    pub fn state_size(&self) -> (r: usize)
        requires
            self.wf(),
        ensures
            r == spec_state_size(self.n_pendulum() as int, self.n_arm() as int),
    {
        let dp = self.n_pendulum_digitization;
        let da = self.n_arm_digitization;
        proof {
            let (p, a) = (dp as int, da as int);
            assert(a * a <= p * (a * a) <= p * (p * (a * a))) by (nonlinear_arith)
                requires
                    0 < p,
                    0 < a,
            ;
        }
        dp * (dp * (da * da))
    }

    /// The digitized state of an observation given as order keys (see
    /// `order_key`) of the arm angle, arm velocity, pendulum angle and pendulum
    /// velocity. Clamping a velocity to the outer edges first changes no bucket.
    pub fn state(&self, arm_rad: i64, arm_vel: i64, pendulum_rad: i64, pendulum_vel: i64) -> (r:
        AcrobotState)
        requires
            self.wf(),
        ensures
            self.digitizes(r, arm_rad, arm_vel, pendulum_rad, pendulum_vel),
            r.n_arm_rad < self.n_arm(),
            r.n_arm_vel < self.n_arm(),
            r.n_pendulum_rad < self.n_pendulum(),
            r.n_pendulum_vel < self.n_pendulum(),
            r.digitized_state < spec_state_size(self.n_pendulum() as int, self.n_arm() as int),
    {
        let n_arm_rad = digitize(arm_rad, self.arm_rad_edges.as_slice());
        let n_arm_vel = digitize(arm_vel, self.arm_vel_edges.as_slice());
        let n_pendulum_rad = digitize(pendulum_rad, self.pendulum_rad_edges.as_slice());
        let n_pendulum_vel = digitize(pendulum_vel, self.pendulum_vel_edges.as_slice());
        let dp = self.n_pendulum_digitization;
        let da = self.n_arm_digitization;
        proof {
            let (p, a) = (dp as int, da as int);
            assert(a * a <= p * (a * a) <= p * (p * (a * a))) by (nonlinear_arith)
                requires
                    0 < p,
                    0 < a,
            ;
            lemma_radix_step(n_arm_rad as int, da as int, n_arm_vel as int, da as int);
            lemma_radix_step(
                n_pendulum_vel as int,
                dp as int,
                n_arm_rad + da * n_arm_vel,
                da * da,
            );
            lemma_radix_step(
                n_pendulum_rad as int,
                dp as int,
                n_pendulum_vel + dp * (n_arm_rad + da * n_arm_vel),
                dp * (da * da),
            );
        }
        let arm = n_arm_rad + da * n_arm_vel;
        let pendulum_vel_and_arm = n_pendulum_vel + dp * arm;
        let digitized_state = n_pendulum_rad + dp * pendulum_vel_and_arm;
        AcrobotState { n_arm_rad, n_pendulum_rad, n_arm_vel, n_pendulum_vel, digitized_state }
    }

    /// The buckets of a flat state index; the inverse of the encoding in `state`.
    pub fn decode_state(&self, digitized_state: usize) -> (r: AcrobotState)
        requires
            self.wf(),
            digitized_state < spec_state_size(self.n_pendulum() as int, self.n_arm() as int),
        ensures
            r.digitized_state == digitized_state,
            (r.n_pendulum_rad as int, r.n_pendulum_vel as int, r.n_arm_rad as int, r.n_arm_vel as int)
                == spec_decode(digitized_state as int, self.n_pendulum() as int, self.n_arm() as int),
            r.n_arm_rad < self.n_arm(),
            r.n_arm_vel < self.n_arm(),
            r.n_pendulum_rad < self.n_pendulum(),
            r.n_pendulum_vel < self.n_pendulum(),
            r.digitized_state == spec_encode(
                r.n_pendulum_rad as int,
                r.n_pendulum_vel as int,
                r.n_arm_rad as int,
                r.n_arm_vel as int,
                self.n_pendulum() as int,
                self.n_arm() as int,
            ),
    {
        let dp = self.n_pendulum_digitization;
        let da = self.n_arm_digitization;
        proof {
            lemma_state_index_bijective(0, 0, 0, 0, dp as int, da as int, digitized_state as int);
        }
        let i1 = digitized_state / dp;
        let i2 = i1 / dp;
        AcrobotState {
            n_pendulum_rad: digitized_state % dp,
            n_pendulum_vel: i1 % dp,
            n_arm_rad: i2 % da,
            n_arm_vel: i2 / da,
            digitized_state,
        }
    }

    /// Whether an episode ends in `state`: the arm or the pendulum angle has
    /// reached its lowest or its highest bucket.
    pub fn should_finish_episode(&self, state: &AcrobotState) -> (r: bool)
        requires
            self.wf(),
        ensures
            r == (state.n_arm_rad == 0 || state.n_arm_rad + 1 >= self.n_arm()
                || state.n_pendulum_rad == 0 || state.n_pendulum_rad + 1 >= self.n_pendulum()),
    {
        if state.n_arm_rad == 0 || state.n_arm_rad >= self.n_arm_digitization - 1 {
            return true;
        }
        if state.n_pendulum_rad == 0 || state.n_pendulum_rad >= self.n_pendulum_digitization - 1 {
            return true;
        }
        false
    }

    pub fn n_arm_digitization(&self) -> (r: usize)
        ensures
            r == self.n_arm(),
    {
        self.n_arm_digitization
    }

    pub fn n_pendulum_digitization(&self) -> (r: usize)
        ensures
            r == self.n_pendulum(),
    {
        self.n_pendulum_digitization
    }

    pub fn action_size(&self) -> (r: usize)
        ensures
            r == self.actions(),
    {
        self.action_size
    }
}

} // verus!
