//! Price-impact curve engine: walks the piecewise-linear premium curve to
//! price a trade against the pool imbalance, absorbing forced-liquidation
//! overflow into per-vertex buffer buckets.
//!
//! The pool's curve position is its net size; the stored
//! `current_vertex_index` is the upper vertex of the segment that position
//! sits on, and the stored premium rate is the linear interpolation of the
//! vertex table at that position.  Both are therefore functions of the net
//! size, which is what makes forward and backward walks round-trip.

use vstd::arithmetic::div_mod::{
    lemma_div_is_ordered, lemma_div_multiples_vanish, lemma_div_pos_is_pos,
};
use vstd::arithmetic::mul::lemma_mul_inequality;
use vstd::prelude::*;

use crate::constants::Q96;
use crate::errors::ErrorCode;
use crate::math::{div_up, min_spec, mul_div, mul_div2, mul_div2_result, mul_div_result};
use crate::types::{
    GlobalLiquidityPosition, PriceState, PriceVertex, SimulateMoveStep, UpdatePriceStateParameter,
};

verus! {

/// A well-formed vertex table: ten vertices, the first pinned to the
/// origin, strictly increasing in both size and premium rate.
pub open spec fn vertices_wf(vs: Seq<PriceVertex>) -> bool {
    &&& vs.len() == 10
    &&& vs[0].size == 0
    &&& vs[0].premium_rate_x96 == 0
    &&& forall|i: int|
        0 <= i < 9 ==> (#[trigger] vs[i].size < vs[i + 1].size && vs[i].premium_rate_x96 < vs[i
            + 1].premium_rate_x96)
}

/// Vertex sizes and premium rates grow across any index gap, not just
/// adjacent ones.
pub proof fn lemma_vertices_increasing(vs: Seq<PriceVertex>, i: int, j: int)
    requires
        vertices_wf(vs),
        0 <= i <= j < 10,
    ensures
        vs[i].size <= vs[j].size,
        vs[i].premium_rate_x96 <= vs[j].premium_rate_x96,
        i < j ==> vs[i].size < vs[j].size && vs[i].premium_rate_x96 < vs[j].premium_rate_x96,
    decreases j - i,
{
    if i < j {
        lemma_vertices_increasing(vs, i, j - 1);
    }
}

/// Checks, executably, that a vertex table is well formed: exactly ten
/// vertices, the first at the origin, strictly increasing in both fields.
/// An unverified caller can use this to establish the shape the curve
/// contracts require before constructing a market.
pub fn validate_vertices(vertices: &Vec<PriceVertex>) -> (r: bool)
    ensures
        r == vertices_wf(vertices@),
{
    if vertices.len() != 10 {
        return false;
    }
    if vertices[0].size != 0 || vertices[0].premium_rate_x96 != 0 {
        return false;
    }
    let mut i: usize = 0;
    while i < 9
        invariant
            i <= 9,
            vertices@.len() == 10,
            forall|k: int|
                0 <= k < i ==> (#[trigger] vertices@[k].size < vertices@[k + 1].size
                    && vertices@[k].premium_rate_x96 < vertices@[k + 1].premium_rate_x96),
        decreases 9 - i,
    {
        if vertices[i].size >= vertices[i + 1].size || vertices[i].premium_rate_x96
            >= vertices[i + 1].premium_rate_x96 {
            return false;
        }
        i = i + 1;
    }
    true
}

/// The index of the upper vertex of the segment containing curve position
/// `p`, scanning upward from index `i`.
pub open spec fn upper_index_from(vs: Seq<PriceVertex>, p: int, i: int) -> int
    decreases 9 - i,
{
    if i >= 9 {
        9
    } else if p <= vs[i].size {
        i
    } else {
        upper_index_from(vs, p, i + 1)
    }
}

/// The index of the upper vertex of the segment containing curve position
/// `p`: the smallest index whose vertex size is at least `p`.
pub open spec fn upper_index(vs: Seq<PriceVertex>, p: int) -> int {
    upper_index_from(vs, p, 0)
}

proof fn lemma_upper_index_from_bound(vs: Seq<PriceVertex>, p: int, i: int)
    requires
        vertices_wf(vs),
        0 <= i <= 9,
        0 <= p <= vs[9].size,
        i > 0 ==> vs[i - 1].size < p,
    ensures
        i <= upper_index_from(vs, p, i) <= 9,
        p <= vs[upper_index_from(vs, p, i)].size,
        upper_index_from(vs, p, i) > 0 ==> vs[upper_index_from(vs, p, i) - 1].size < p,
    decreases 9 - i,
{
    if i < 9 && p > vs[i].size {
        lemma_upper_index_from_bound(vs, p, i + 1);
    }
}

/// Position bounds of the canonical segment: `p` lies above the vertex
/// below the upper index and at or below the upper vertex.
pub proof fn lemma_upper_index_bound(vs: Seq<PriceVertex>, p: int)
    requires
        vertices_wf(vs),
        0 <= p <= vs[9].size,
    ensures
        0 <= upper_index(vs, p) <= 9,
        p <= vs[upper_index(vs, p)].size,
        upper_index(vs, p) > 0 ==> vs[upper_index(vs, p) - 1].size < p,
        p == 0 ==> upper_index(vs, p) == 0,
        p > 0 ==> upper_index(vs, p) > 0,
{
    lemma_upper_index_from_bound(vs, p, 0);
    if p > 0 && upper_index(vs, p) == 0 {
        assert(p <= vs[0].size);
    }
}

proof fn lemma_upper_index_from_unique(vs: Seq<PriceVertex>, p: int, i: int, k: int)
    requires
        vertices_wf(vs),
        0 <= i <= k <= 9,
        p <= vs[k].size,
        k > 0 ==> vs[k - 1].size < p,
        i > 0 ==> vs[i - 1].size < p,
    ensures
        upper_index_from(vs, p, i) == k,
    decreases 9 - i,
{
    if i < k {
        lemma_vertices_increasing(vs, i, k - 1);
        lemma_upper_index_from_unique(vs, p, i + 1, k);
    } else {
        if k < 9 {
            assert(p <= vs[k].size);
        }
    }
}

/// The upper index is the unique `k` with `vs[k-1].size < p <= vs[k].size`
/// (or zero when `p` is zero).
pub proof fn lemma_upper_index_unique(vs: Seq<PriceVertex>, p: int, k: int)
    requires
        vertices_wf(vs),
        0 <= k <= 9,
        p <= vs[k].size,
        k > 0 ==> vs[k - 1].size < p,
    ensures
        upper_index(vs, p) == k,
{
    lemma_upper_index_from_unique(vs, p, 0, k);
}

/// The upper index never moves down as the position moves up.
pub proof fn lemma_upper_index_monotone(vs: Seq<PriceVertex>, p1: int, p2: int)
    requires
        vertices_wf(vs),
        0 <= p1 <= p2 <= vs[9].size,
    ensures
        upper_index(vs, p1) <= upper_index(vs, p2),
{
    let u1 = upper_index(vs, p1);
    let u2 = upper_index(vs, p2);
    lemma_upper_index_bound(vs, p1);
    lemma_upper_index_bound(vs, p2);
    if u2 < u1 {
        lemma_vertices_increasing(vs, u2, u1 - 1);
        assert(false);
    }
}

/// Linear interpolation of the premium rate between two vertices, floored.
pub open spec fn interp_at(lo: PriceVertex, hi: PriceVertex, pos: int) -> int {
    lo.premium_rate_x96 + (pos - lo.size) * (hi.premium_rate_x96 - lo.premium_rate_x96) / (hi.size
        - lo.size)
}

/// Interpolation stays between the endpoint premium rates and is exact at
/// the endpoints.
pub proof fn lemma_interp_bounds(lo: PriceVertex, hi: PriceVertex, pos: int)
    requires
        lo.size < hi.size,
        lo.premium_rate_x96 <= hi.premium_rate_x96,
        lo.size <= pos <= hi.size,
    ensures
        lo.premium_rate_x96 <= interp_at(lo, hi, pos) <= hi.premium_rate_x96,
        pos == lo.size ==> interp_at(lo, hi, pos) == lo.premium_rate_x96,
        pos == hi.size ==> interp_at(lo, hi, pos) == hi.premium_rate_x96,
{
    let t = pos - lo.size;
    let ds = hi.size - lo.size;
    let dp = hi.premium_rate_x96 - lo.premium_rate_x96;
    lemma_mul_inequality(t, ds, dp);
    lemma_div_is_ordered(t * dp, ds * dp, ds);
    lemma_div_multiples_vanish(dp, ds);
    assert(ds * dp == dp * ds) by (nonlinear_arith);
    lemma_div_pos_is_pos(t * dp, ds);
    assert(t * dp >= 0) by (nonlinear_arith)
        requires
            t >= 0,
            dp >= 0,
    ;
    if pos == lo.size {
        assert(t * dp == 0) by (nonlinear_arith)
            requires
                t == 0,
        ;
        assert((0int) / ds == 0);
    }
    if pos == hi.size {
        assert(t * dp == dp * ds) by (nonlinear_arith)
            requires
                t == ds,
        ;
    }
}

/// The premium rate at curve position `p`: zero at the origin, otherwise
/// the interpolation of the canonical segment containing `p`.
pub open spec fn rate_at(vs: Seq<PriceVertex>, p: int) -> int {
    let u = upper_index(vs, p);
    if u == 0 {
        0
    } else {
        interp_at(vs[u - 1], vs[u], p)
    }
}

/// The premium rate at a vertex position is that vertex's premium rate.
pub proof fn lemma_rate_at_vertex(vs: Seq<PriceVertex>, k: int)
    requires
        vertices_wf(vs),
        0 <= k <= 9,
    ensures
        rate_at(vs, vs[k].size as int) == vs[k].premium_rate_x96,
{
    if k == 0 {
        lemma_upper_index_unique(vs, 0, 0);
    } else {
        lemma_vertices_increasing(vs, k - 1, k);
        lemma_upper_index_unique(vs, vs[k].size as int, k);
        lemma_interp_bounds(vs[k - 1], vs[k], vs[k].size as int);
    }
}

/// The sum of the per-vertex liquidation buffer buckets.
pub open spec fn seq_sum(s: Seq<u128>) -> int
    decreases s.len(),
{
    if s.len() == 0 {
        0
    } else {
        s[0] + seq_sum(s.drop_first())
    }
}

/// A sum of unsigned buckets is never negative.
pub proof fn lemma_seq_sum_nonneg(s: Seq<u128>)
    ensures
        seq_sum(s) >= 0,
    decreases s.len(),
{
    if s.len() > 0 {
        lemma_seq_sum_nonneg(s.drop_first());
    }
}

/// Updating one bucket shifts the sum by exactly the bucket's change.
pub proof fn lemma_seq_sum_update(s: Seq<u128>, i: int, v: u128)
    requires
        0 <= i < s.len(),
    ensures
        seq_sum(s.update(i, v)) == seq_sum(s) - s[i] + v,
    decreases s.len(),
{
    if i == 0 {
        assert(s.update(0, v).drop_first() =~= s.drop_first());
    } else {
        assert(s.update(i, v).drop_first() =~= s.drop_first().update(i - 1, v));
        lemma_seq_sum_update(s.drop_first(), i - 1, v);
    }
}

/// If every bucket from `i` on is zero, the tail contributes nothing; in
/// particular an all-zero table sums to zero.
pub proof fn lemma_seq_sum_zero(s: Seq<u128>)
    requires
        forall|j: int| 0 <= j < s.len() ==> s[j] == 0,
    ensures
        seq_sum(s) == 0,
    decreases s.len(),
{
    if s.len() > 0 {
        lemma_seq_sum_nonneg(s.drop_first());
        lemma_seq_sum_zero(s.drop_first());
    }
}

/// Every bucket is at most the whole sum.
pub proof fn lemma_seq_sum_element(s: Seq<u128>, i: int)
    requires
        0 <= i < s.len(),
    ensures
        s[i] <= seq_sum(s),
    decreases s.len(),
{
    lemma_seq_sum_nonneg(s.drop_first());
    if i > 0 {
        lemma_seq_sum_element(s.drop_first(), i - 1);
    }
}

/// A consistent walk step: the current position lies on the segment
/// between `from` and `to`, which runs downward in both fields when the
/// balance improves and upward when it worsens.
pub open spec fn step_wf(step: SimulateMoveStep) -> bool {
    if step.improve_balance {
        &&& step.to.size <= step.current.size <= step.from.size
        &&& step.to.premium_rate_x96 <= step.from.premium_rate_x96
    } else {
        &&& step.from.size <= step.current.size <= step.to.size
        &&& step.from.premium_rate_x96 <= step.to.premium_rate_x96
    }
}

/// The size it costs to reach the step's target vertex from the current
/// position.
pub open spec fn step_size_cost(step: SimulateMoveStep) -> int {
    if step.improve_balance {
        step.current.size - step.to.size
    } else {
        step.to.size - step.current.size
    }
}

/// Whether the remaining size reaches the target vertex, and how much of
/// it this step consumes.
pub open spec fn reached_and_size_used(step: SimulateMoveStep) -> (bool, u128) {
    let reached = step.size_left >= step_size_cost(step);
    (
        reached,
        if reached {
            step_size_cost(step) as u128
        } else {
            step.size_left
        },
    )
}

/// Determines how much of the remaining size can be consumed before the
/// step's target vertex is reached.
pub fn calculate_reached_and_size_used(step: &SimulateMoveStep) -> (r: (bool, u128))
    requires
        step_wf(*step),
    ensures
        r == reached_and_size_used(*step),
{
    let size_cost: u128 = if step.improve_balance {
        step.current.size - step.to.size
    } else {
        step.to.size - step.current.size
    };
    let reached = step.size_left >= size_cost;
    let size_used = if reached {
        size_cost
    } else {
        step.size_left
    };
    (reached, size_used)
}

/// The premium rate at the point a step reaches: the target vertex's rate
/// when it is reached, otherwise the interpolation of the segment at the
/// point where the remaining size runs out.
pub open spec fn premium_after_result(step: SimulateMoveStep) -> Result<u128, ErrorCode> {
    let pair = reached_and_size_used(step);
    if pair.0 {
        Ok(step.to.premium_rate_x96)
    } else {
        let lo = if step.improve_balance {
            step.to
        } else {
            step.from
        };
        let hi = if step.improve_balance {
            step.from
        } else {
            step.to
        };
        let pos = if step.improve_balance {
            step.current.size - pair.1
        } else {
            step.current.size + pair.1
        };
        match mul_div_result(
            (pos - lo.size) as u128,
            (hi.premium_rate_x96 - lo.premium_rate_x96) as u128,
            (hi.size - lo.size) as u128,
        ) {
            Err(e) => Err(e),
            Ok(v) => Ok((lo.premium_rate_x96 + v) as u128),
        }
    }
}

/// Computes the premium rate at the point a step reaches.
pub fn calculate_premium_price_after(step: &SimulateMoveStep, reached: bool, size_used: u128)
    -> (r: Result<u128, ErrorCode>)
    requires
        step_wf(*step),
        (reached, size_used) == reached_and_size_used(*step),
    ensures
        r == premium_after_result(*step),
{
    if reached {
        return Ok(step.to.premium_rate_x96);
    }
    let (lo, hi) = if step.improve_balance {
        (step.to, step.from)
    } else {
        (step.from, step.to)
    };
    let pos: u128 = if step.improve_balance {
        step.current.size - size_used
    } else {
        step.current.size + size_used
    };
    let v = match mul_div(
        pos - lo.size,
        hi.premium_rate_x96 - lo.premium_rate_x96,
        hi.size - lo.size,
    ) {
        Ok(v) => v,
        Err(e) => {
            return Err(e);
        },
    };
    proof {
        lemma_interp_bounds(lo, hi, pos as int);
    }
    Ok(lo.premium_rate_x96 + v)
}

/// The interpolation helpers agree: a successful premium computation is
/// the canonical interpolation of the segment at the point reached.
pub proof fn lemma_premium_after_is_interp(step: SimulateMoveStep, qa: u128)
    requires
        step_wf(step),
        premium_after_result(step) == Ok::<u128, ErrorCode>(qa),
        !reached_and_size_used(step).0,
    ensures
        ({
            let lo = if step.improve_balance {
                step.to
            } else {
                step.from
            };
            let hi = if step.improve_balance {
                step.from
            } else {
                step.to
            };
            let pos = if step.improve_balance {
                step.current.size - reached_and_size_used(step).1
            } else {
                step.current.size + reached_and_size_used(step).1
            };
            qa == interp_at(lo, hi, pos) && lo.premium_rate_x96 <= qa <= hi.premium_rate_x96
        }),
{
    let lo = if step.improve_balance {
        step.to
    } else {
        step.from
    };
    let hi = if step.improve_balance {
        step.from
    } else {
        step.to
    };
    let pos = if step.improve_balance {
        step.current.size - reached_and_size_used(step).1
    } else {
        step.current.size + reached_and_size_used(step).1
    };
    lemma_interp_bounds(lo, hi, pos as int);
}

/// What one walk step yields: the execution price of the sub-segment, the
/// size consumed, whether the target vertex was reached, and the premium
/// rate at the point reached.
///
/// The sub-segment's price is the index price moved by the average of the
/// entry and exit premium rates applied to the basis price: worsening
/// moves price against the trader (rounded up), improving moves it toward
/// the trader (rounded down), each clamped at zero.
pub open spec fn simulate_move_result(step: SimulateMoveStep) -> Result<
    (u128, u128, bool, u128),
    ErrorCode,
> {
    let pair = reached_and_size_used(step);
    match premium_after_result(step) {
        Err(e) => Err(e),
        Ok(qa) => if step.current.premium_rate_x96 + qa > u128::MAX {
            Err(ErrorCode::Overflow)
        } else {
            let premium_sum = (step.current.premium_rate_x96 + qa) as u128;
            match mul_div2_result(step.basis_index_price_x96, premium_sum, (2 * Q96) as u128) {
                Err(e) => Err(e),
                Ok(deltas) => {
                    let rounded = if step.improve_balance {
                        deltas.0
                    } else {
                        deltas.1
                    };
                    if step.side == step.improve_balance {
                        // long improving or short worsening: price moves down
                        let price = if step.index_price_x96 >= rounded {
                            (step.index_price_x96 - rounded) as u128
                        } else {
                            0u128
                        };
                        Ok((price, pair.1, pair.0, qa))
                    } else {
                        // long worsening or short improving: price moves up
                        if step.index_price_x96 + rounded > u128::MAX {
                            Err(ErrorCode::Overflow)
                        } else {
                            Ok(((step.index_price_x96 + rounded) as u128, pair.1, pair.0, qa))
                        }
                    }
                },
            }
        },
    }
}

/// Executes one step of the curve walk, pricing the sub-segment it
/// consumes.
pub fn simulate_move(step: &SimulateMoveStep) -> (r: Result<(u128, u128, bool, u128), ErrorCode>)
    requires
        step_wf(*step),
    ensures
        r == simulate_move_result(*step),
{
    let (reached, size_used) = calculate_reached_and_size_used(step);
    let premium_rate_after = match calculate_premium_price_after(step, reached, size_used) {
        Ok(v) => v,
        Err(e) => {
            return Err(e);
        },
    };
    let premium_sum = match step.current.premium_rate_x96.checked_add(premium_rate_after) {
        Some(v) => v,
        None => {
            return Err(ErrorCode::Overflow);
        },
    };
    let (delta_down, delta_up) = match mul_div2(step.basis_index_price_x96, premium_sum, 2 * Q96) {
        Ok(pair) => pair,
        Err(e) => {
            return Err(e);
        },
    };
    let rounded = if step.improve_balance {
        delta_down
    } else {
        delta_up
    };
    if step.side == step.improve_balance {
        let price = if step.index_price_x96 >= rounded {
            step.index_price_x96 - rounded
        } else {
            0
        };
        Ok((price, size_used, reached, premium_rate_after))
    } else {
        match step.index_price_x96.checked_add(rounded) {
            Some(price) => Ok((price, size_used, reached, premium_rate_after)),
            None => Err(ErrorCode::Overflow),
        }
    }
}

/// The walk step taken at curve position `p` with `n` size left when the
/// balance worsens: the canonical segment above `p`, entered at the
/// canonical premium rate.
pub open spec fn worsen_step_at(
    vs: Seq<PriceVertex>,
    basis_index_price_x96: u128,
    index_price_x96: u128,
    side: bool,
    p: int,
    n: int,
) -> SimulateMoveStep {
    let k = upper_index(vs, p);
    let seg_upper = if p == vs[k].size {
        k + 1
    } else {
        k
    };
    SimulateMoveStep {
        side,
        size_left: n as u128,
        index_price_x96,
        basis_index_price_x96,
        improve_balance: false,
        from: vs[seg_upper - 1],
        current: PriceVertex { size: p as u128, premium_rate_x96: rate_at(vs, p) as u128 },
        to: vs[seg_upper],
    }
}

/// The summed execution price times size of a worsening walk from curve
/// position `p` consuming up to `n`, segment by segment, stopping at the
/// last vertex.
#[verifier::opaque]
pub open spec fn worsen_price_total(
    vs: Seq<PriceVertex>,
    basis_index_price_x96: u128,
    index_price_x96: u128,
    side: bool,
    p: int,
    n: int,
) -> Result<int, ErrorCode>
    decreases n,
{
    if n <= 0 || p >= vs[9].size {
        Ok(0)
    } else {
        match simulate_move_result(
            worsen_step_at(vs, basis_index_price_x96, index_price_x96, side, p, n),
        ) {
            Err(e) => Err(e),
            Ok(out) => if out.1 <= 0 || out.1 > n {
                Ok(0)
            } else {
                match worsen_price_total(
                    vs,
                    basis_index_price_x96,
                    index_price_x96,
                    side,
                    p + out.1,
                    n - out.1,
                ) {
                    Err(e) => Err(e),
                    Ok(rest) => if out.0 * out.1 + rest > u128::MAX {
                        Err(ErrorCode::Overflow)
                    } else {
                        Ok(out.0 * out.1 + rest)
                    },
                }
            },
        }
    }
}

/// An already-accumulated total composed with the rest of a walk.
pub open spec fn compose_total(total: int, rest: Result<int, ErrorCode>) -> Result<
    int,
    ErrorCode,
> {
    match rest {
        Err(e) => Err(e),
        Ok(t) => if total + t > u128::MAX {
            Err(ErrorCode::Overflow)
        } else {
            Ok(total + t)
        },
    }
}

/// On a well-formed curve the worsening total only ever fails with
/// `Overflow`, and its value fits the output width.
proof fn lemma_worsen_total_kinds(
    vs: Seq<PriceVertex>,
    basis_index_price_x96: u128,
    index_price_x96: u128,
    side: bool,
    p: int,
    n: int,
)
    requires
        vertices_wf(vs),
        0 <= p <= vs[9].size,
    ensures
        worsen_price_total(vs, basis_index_price_x96, index_price_x96, side, p, n) matches Err(e)
            ==> e == ErrorCode::Overflow,
        worsen_price_total(vs, basis_index_price_x96, index_price_x96, side, p, n) matches Ok(t)
            ==> 0 <= t <= u128::MAX,
    decreases n,
{
    reveal_with_fuel(worsen_price_total, 1);
    if n <= 0 || p >= vs[9].size {
    } else {
        let k = upper_index(vs, p);
        lemma_upper_index_bound(vs, p);
        let step = worsen_step_at(vs, basis_index_price_x96, index_price_x96, side, p, n);
        let seg_upper = if p == vs[k].size {
            k + 1
        } else {
            k
        };
        if p == vs[k].size && k == 9 {
            assert(false);
        }
        lemma_vertices_increasing(vs, seg_upper - 1, seg_upper);
        lemma_vertices_increasing(vs, seg_upper, 9);
        match simulate_move_result(step) {
            Err(e) => {
                assert(e == ErrorCode::Overflow);
            },
            Ok(out) => {
                if 0 < out.1 <= n {
                    lemma_worsen_total_kinds(
                        vs,
                        basis_index_price_x96,
                        index_price_x96,
                        side,
                        p + out.1,
                        n - out.1,
                    );
                    assert(out.0 * out.1 >= 0) by (nonlinear_arith)
                        requires
                            out.0 >= 0,
                            out.1 >= 0,
                    ;
                }
            },
        }
    }
}

/// Dividing an accumulated price-times-size total by the total size keeps
/// it on the same side of the index price, for both rounding directions.
proof fn lemma_avg_price_bounds(total: int, index: int, size: int)
    requires
        size > 0,
        index >= 0,
        total >= 0,
    ensures
        total >= index * size ==> total / size >= index && div_up(total, size) >= index,
        total <= index * size ==> total / size <= index && div_up(total, size) <= index,
        0 <= div_up(total, size) <= total,
{
    lemma_div_multiples_vanish(index, size);
    assert(size * index == index * size) by (nonlinear_arith);
    lemma_div_pos_is_pos(total + size - 1, size);
    assert(total <= total * size) by (nonlinear_arith)
        requires
            total >= 0,
            size >= 1,
    ;
    lemma_div_is_ordered(total + size - 1, total * size + size - 1, size);
    vstd::arithmetic::div_mod::lemma_fundamental_div_mod_converse(
        total * size + size - 1,
        size,
        total,
        size - 1,
    );
    if total >= index * size {
        lemma_div_is_ordered(index * size, total, size);
        lemma_div_is_ordered(total, total + size - 1, size);
    }
    if total <= index * size {
        lemma_div_is_ordered(total, index * size, size);
        lemma_div_is_ordered(total + size - 1, index * size + size - 1, size);
        vstd::arithmetic::div_mod::lemma_fundamental_div_mod_converse(
            index * size + size - 1,
            size,
            index,
            size - 1,
        );
    }
}

/// Consistency of a market's curve state with its pool ledger: the stored
/// vertex index and premium rate are the canonical ones for the pool's net
/// size, buffers above the current vertex are empty, and the pool's buffer
/// aggregate equals the bucket sum.
pub open spec fn price_state_wf(gp: GlobalLiquidityPosition, ps: PriceState) -> bool {
    &&& vertices_wf(ps.price_vertices@)
    &&& ps.liquidation_buffer_net_sizes@.len() == 10
    &&& gp.net_size <= ps.price_vertices@[9].size
    &&& ps.current_vertex_index < 10
    &&& ps.current_vertex_index == upper_index(ps.price_vertices@, gp.net_size as int)
    &&& ps.premium_rate_x96 == rate_at(ps.price_vertices@, gp.net_size as int)
    &&& forall|j: int|
        ps.current_vertex_index < j < 10 ==> #[trigger] ps.liquidation_buffer_net_sizes@[j] == 0
    &&& gp.liquidation_buffer_net_size == seq_sum(ps.liquidation_buffer_net_sizes@)
}

/// The outcome of one directional walk over the curve, before it is
/// committed to the market state.
pub struct CurveWalk {
    /// Sum of sub-segment execution price times size consumed there.
    pub total_price_times_size: u128,
    /// Size that could not be consumed (only an improving walk that
    /// crosses the balance point leaves any).
    pub size_left: u128,
    /// Size added to (worsening) or drained from (improving) the
    /// liquidation buffer buckets.
    pub buffer_used: u128,
    /// The pool's curve position afterwards.
    pub net_after: u128,
    /// The canonical vertex index for `net_after`.
    pub cvi_after: u8,
    /// The canonical premium rate for `net_after`.
    pub premium_after: u128,
    /// The buffer buckets afterwards.
    pub buffers_after: Vec<u128>,
}

pub(crate) fn copy_buffers(src: &Vec<u128>) -> (r: Vec<u128>)
    ensures
        r@ == src@,
{
    let mut out: Vec<u128> = Vec::new();
    let mut i: usize = 0;
    while i < src.len()
        invariant
            i <= src.len(),
            out@ =~= src@.subrange(0, i as int),
        decreases src.len() - i,
    {
        out.push(src[i]);
        i += 1;
    }
    proof {
        assert(out@ =~= src@);
    }
    out
}

/// The full price-times-size total of a worsening trade: the curve walk
/// up to the last vertex, plus any remainder priced at the liquidation
/// vertex's own premium rate and absorbed by its buffer bucket.
pub open spec fn worsen_total_result(
    vs: Seq<PriceVertex>,
    basis_index_price_x96: u128,
    index_price_x96: u128,
    side: bool,
    p: int,
    n: int,
    liquidation_vertex_index: int,
) -> Result<int, ErrorCode> {
    match worsen_price_total(vs, basis_index_price_x96, index_price_x96, side, p, n) {
        Err(e) => Err(e),
        Ok(curve_total) => if p + n <= vs[9].size {
            Ok(curve_total)
        } else {
            let remainder = p + n - vs[9].size;
            match mul_div2_result(
                basis_index_price_x96,
                vs[liquidation_vertex_index].premium_rate_x96,
                Q96,
            ) {
                Err(e) => Err(e),
                Ok(deltas) => if side && index_price_x96 + deltas.1 > u128::MAX {
                    Err(ErrorCode::Overflow)
                } else {
                    let buffer_price: int = if side {
                        index_price_x96 + deltas.1
                    } else if index_price_x96 >= deltas.1 {
                        index_price_x96 - deltas.1
                    } else {
                        0
                    };
                    if curve_total + buffer_price * remainder > u128::MAX {
                        Err(ErrorCode::Overflow)
                    } else {
                        Ok(curve_total + buffer_price * remainder)
                    }
                },
            }
        },
    }
}

/// Walks the curve away from balance: consumes `size_delta` upward from
/// the current position, vertex by vertex, overflowing into the
/// liquidation buffer bucket of the liquidation vertex when the table is
/// exhausted during a forced liquidation, and rejecting the trade with
/// `MaxPremiumRateExceeded` otherwise.
#[verifier::rlimit(100)]
fn worsen_walk(
    vertices: &Vec<PriceVertex>,
    buffers: &Vec<u128>,
    net: u128,
    cvi: u8,
    premium: u128,
    side: bool,
    size_delta: u128,
    index_price_x96: u128,
    basis_index_price_x96: u128,
    liquidation: bool,
    liquidation_vertex_index: u8,
) -> (r: Result<CurveWalk, ErrorCode>)
    requires
        vertices_wf(vertices@),
        buffers@.len() == 10,
        net <= vertices@[9].size,
        cvi == upper_index(vertices@, net as int),
        premium == rate_at(vertices@, net as int),
        forall|j: int| cvi < j < 10 ==> #[trigger] buffers@[j] == 0,
        liquidation_vertex_index < 10,
    ensures
        !liquidation && net + size_delta > vertices@[9].size ==> r == Err::<CurveWalk, ErrorCode>(
            ErrorCode::MaxPremiumRateExceeded,
        ),
        r matches Err(e) && e == ErrorCode::MaxPremiumRateExceeded ==> !liquidation && net
            + size_delta > vertices@[9].size,
        r matches Err(e) ==> (e == ErrorCode::Overflow || e == ErrorCode::DivideByZero || e
            == ErrorCode::MaxPremiumRateExceeded),
        r matches Err(e) ==> (e == ErrorCode::MaxPremiumRateExceeded || (e == ErrorCode::Overflow
            && net + size_delta > vertices@[9].size && buffers@[liquidation_vertex_index as int]
            + (net + size_delta - vertices@[9].size) > u128::MAX) || worsen_total_result(
            vertices@,
            basis_index_price_x96,
            index_price_x96,
            side,
            net as int,
            size_delta as int,
            liquidation_vertex_index as int,
        ) == Err::<int, ErrorCode>(e)),
        r matches Ok(w) ==> {
            &&& w.net_after == if net + size_delta <= vertices@[9].size {
                (net + size_delta) as int
            } else {
                vertices@[9].size as int
            }
            &&& w.size_left == 0
            &&& net + size_delta <= vertices@[9].size ==> w.buffer_used == 0 && w.buffers_after@
                == buffers@
            &&& net + size_delta > vertices@[9].size ==> {
                &&& w.buffer_used == net + size_delta - vertices@[9].size
                &&& buffers@[liquidation_vertex_index as int] + w.buffer_used <= u128::MAX
                &&& w.buffers_after@ == buffers@.update(
                    liquidation_vertex_index as int,
                    (buffers@[liquidation_vertex_index as int] + w.buffer_used) as u128,
                )
            }
            &&& w.cvi_after < 10
            &&& w.cvi_after == upper_index(vertices@, w.net_after as int)
            &&& w.premium_after == rate_at(vertices@, w.net_after as int)
            &&& w.buffers_after@.len() == 10
            &&& forall|j: int| w.cvi_after < j < 10 ==> #[trigger] w.buffers_after@[j] == 0
            &&& seq_sum(w.buffers_after@) == seq_sum(buffers@) + w.buffer_used
            &&& worsen_total_result(
                vertices@,
                basis_index_price_x96,
                index_price_x96,
                side,
                net as int,
                size_delta as int,
                liquidation_vertex_index as int,
            ) == Ok::<int, ErrorCode>(w.total_price_times_size as int)
        },
{
    let ghost vss = vertices@;
    if !liquidation {
        // capacity check up front so a forced rejection is never masked by
        // an arithmetic failure discovered mid-walk
        if size_delta > vertices[9].size - net {
            return Err(ErrorCode::MaxPremiumRateExceeded);
        }
    }
    let mut p: u128 = net;
    let mut q: u128 = premium;
    let mut u: usize = cvi as usize;
    let mut size_left: u128 = size_delta;
    let mut total: u128 = 0;
    proof {
        lemma_upper_index_bound(vss, net as int);
        lemma_worsen_total_kinds(
            vss,
            basis_index_price_x96,
            index_price_x96,
            side,
            net as int,
            size_delta as int,
        );
    }
    while size_left > 0 && p < vertices[9].size
        invariant
            vertices_wf(vss),
            vss == vertices@,
            p <= vss[9].size,
            u <= 9,
            u == upper_index(vss, p as int),
            q == rate_at(vss, p as int),
            p + size_left == net + size_delta,
            !liquidation ==> net + size_delta <= vss[9].size,
            worsen_price_total(
                vss,
                basis_index_price_x96,
                index_price_x96,
                side,
                net as int,
                size_delta as int,
            ) == compose_total(
                total as int,
                worsen_price_total(
                    vss,
                    basis_index_price_x96,
                    index_price_x96,
                    side,
                    p as int,
                    size_left as int,
                ),
            ),
        decreases size_left,
    {
        proof {
            lemma_upper_index_bound(vss, p as int);
        }
        let seg_u: usize = if p == vertices[u].size {
            proof {
                if u == 9 {
                    assert(false);
                }
            }
            u + 1
        } else {
            proof {
                if u == 0 {
                    assert(p <= vss[0].size);
                    assert(false);
                }
            }
            u
        };
        proof {
            lemma_vertices_increasing(vss, seg_u - 1, seg_u as int);
        }
        let from = vertices[seg_u - 1];
        let to = vertices[seg_u];
        let ghost old_size_left = size_left as int;
        let step = SimulateMoveStep {
            side,
            size_left,
            index_price_x96,
            basis_index_price_x96,
            improve_balance: false,
            from,
            current: PriceVertex { size: p, premium_rate_x96: q },
            to,
        };
        proof {
            assert(step == worsen_step_at(
                vss,
                basis_index_price_x96,
                index_price_x96,
                side,
                p as int,
                size_left as int,
            ));
        }
        let (price, used, reached, q_new) = match simulate_move(&step) {
            Ok(t) => t,
            Err(e) => {
                proof {
                    lemma_worsen_total_kinds(
                        vss,
                        basis_index_price_x96,
                        index_price_x96,
                        side,
                        p as int,
                        size_left as int,
                    );
                    assert(worsen_price_total(
                        vss,
                        basis_index_price_x96,
                        index_price_x96,
                        side,
                        p as int,
                        size_left as int,
                    ) == Err::<int, ErrorCode>(e)) by {
                        reveal_with_fuel(worsen_price_total, 1);
                    };
                }
                return Err(e);
            },
        };
        proof {
            lemma_vertices_increasing(vss, seg_u as int, 9);
            lemma_worsen_total_kinds(
                vss,
                basis_index_price_x96,
                index_price_x96,
                side,
                (p + used) as int,
                (size_left - used) as int,
            );
        }
        let chunk = match price.checked_mul(used) {
            Some(v) => v,
            None => {
                proof {
                    assert(worsen_price_total(
                        vss,
                        basis_index_price_x96,
                        index_price_x96,
                        side,
                        p as int,
                        size_left as int,
                    ) == Err::<int, ErrorCode>(ErrorCode::Overflow)) by {
                        reveal_with_fuel(worsen_price_total, 1);
                    };
                }
                return Err(ErrorCode::Overflow);
            },
        };
        total = match total.checked_add(chunk) {
            Some(v) => v,
            None => {
                proof {
                    assert(worsen_price_total(
                        vss,
                        basis_index_price_x96,
                        index_price_x96,
                        side,
                        net as int,
                        size_delta as int,
                    ) == Err::<int, ErrorCode>(ErrorCode::Overflow)) by {
                        reveal_with_fuel(worsen_price_total, 1);
                    };
                }
                return Err(ErrorCode::Overflow);
            },
        };
        proof {
            if !reached {
                lemma_premium_after_is_interp(step, q_new);
            }
            lemma_upper_index_unique(vss, (p + used) as int, seg_u as int);
            if reached {
                lemma_rate_at_vertex(vss, seg_u as int);
            }
            lemma_worsen_total_kinds(
                vss,
                basis_index_price_x96,
                index_price_x96,
                side,
                (p + used) as int,
                (size_left - used) as int,
            );
            assert(worsen_price_total(
                vss,
                basis_index_price_x96,
                index_price_x96,
                side,
                p as int,
                size_left as int,
            ) == compose_total(
                chunk as int,
                worsen_price_total(
                    vss,
                    basis_index_price_x96,
                    index_price_x96,
                    side,
                    (p + used) as int,
                    (size_left - used) as int,
                ),
            )) by {
                reveal_with_fuel(worsen_price_total, 1);
            };
        }
        p = p + used;
        q = q_new;
        size_left = size_left - used;
        u = seg_u;
    }
    proof {
        assert(worsen_price_total(
            vss,
            basis_index_price_x96,
            index_price_x96,
            side,
            p as int,
            size_left as int,
        ) == Ok::<int, ErrorCode>(0)) by {
            reveal_with_fuel(worsen_price_total, 1);
        };
        assert(worsen_price_total(
            vss,
            basis_index_price_x96,
            index_price_x96,
            side,
            net as int,
            size_delta as int,
        ) == Ok::<int, ErrorCode>(total as int));
    }
    let mut buffers_after = copy_buffers(buffers);
    let mut buffer_used: u128 = 0;
    if size_left > 0 {
        let lv = vertices[liquidation_vertex_index as usize];
        let (delta_down, delta_up) = match mul_div2(basis_index_price_x96, lv.premium_rate_x96, Q96)
            {
            Ok(pair) => pair,
            Err(e) => {
                return Err(e);
            },
        };
        let price: u128 = if side {
            match index_price_x96.checked_add(delta_up) {
                Some(v) => v,
                None => {
                    return Err(ErrorCode::Overflow);
                },
            }
        } else {
            if index_price_x96 >= delta_up {
                index_price_x96 - delta_up
            } else {
                0
            }
        };
        let chunk = match price.checked_mul(size_left) {
            Some(v) => v,
            None => {
                proof {
                    assert(worsen_total_result(
                        vss,
                        basis_index_price_x96,
                        index_price_x96,
                        side,
                        net as int,
                        size_delta as int,
                        liquidation_vertex_index as int,
                    ) == Err::<int, ErrorCode>(ErrorCode::Overflow));
                }
                return Err(ErrorCode::Overflow);
            },
        };
        total = match total.checked_add(chunk) {
            Some(v) => v,
            None => {
                proof {
                    assert(worsen_total_result(
                        vss,
                        basis_index_price_x96,
                        index_price_x96,
                        side,
                        net as int,
                        size_delta as int,
                        liquidation_vertex_index as int,
                    ) == Err::<int, ErrorCode>(ErrorCode::Overflow));
                }
                return Err(ErrorCode::Overflow);
            },
        };
        let idx = liquidation_vertex_index as usize;
        let bucket_after = match buffers_after[idx].checked_add(size_left) {
            Some(v) => v,
            None => {
                return Err(ErrorCode::Overflow);
            },
        };
        proof {
            lemma_seq_sum_update(buffers_after@, idx as int, bucket_after);
        }
        buffers_after.set(idx, bucket_after);
        buffer_used = size_left;
        size_left = 0;
    }
    proof {
        lemma_upper_index_monotone(vss, net as int, p as int);
        if buffer_used != 0 {
            lemma_vertices_increasing(vss, 8, 9);
            lemma_upper_index_unique(vss, vss[9].size as int, 9);
        }
        assert forall|j: int| (u as int) < j < 10 implies buffers_after@[j] == 0 by {
            if buffer_used == 0 {
                assert(buffers@[j] == 0);
            }
        }
    }
    Ok(
        CurveWalk {
            total_price_times_size: total,
            size_left: 0,
            buffer_used,
            net_after: p,
            cvi_after: u as u8,
            premium_after: q,
            buffers_after,
        },
    )
}

/// The walk step taken at curve position `p` with `n` size left when the
/// balance improves: the canonical segment below `p`, entered at the
/// canonical premium rate.
pub open spec fn improve_step_at(
    vs: Seq<PriceVertex>,
    basis_index_price_x96: u128,
    index_price_x96: u128,
    side: bool,
    p: int,
    n: int,
) -> SimulateMoveStep {
    let u = upper_index(vs, p);
    SimulateMoveStep {
        side,
        size_left: n as u128,
        index_price_x96,
        basis_index_price_x96,
        improve_balance: true,
        from: vs[u],
        current: PriceVertex { size: p as u128, premium_rate_x96: rate_at(vs, p) as u128 },
        to: vs[u - 1],
    }
}

/// Repaying one buffer bucket: the size drained and its cost, priced at
/// the bucket's vertex premium rate, rounded toward the trader's favor's
/// opposite.
#[verifier::opaque]
pub open spec fn improve_drain_result(
    vs: Seq<PriceVertex>,
    basis_index_price_x96: u128,
    index_price_x96: u128,
    side: bool,
    u: int,
    bucket: u128,
    n: int,
) -> Result<(int, int), ErrorCode> {
    if bucket == 0 {
        Ok((0, 0))
    } else {
        match mul_div2_result(basis_index_price_x96, vs[u].premium_rate_x96, Q96) {
            Err(e) => Err(e),
            Ok(deltas) => if !side && index_price_x96 + deltas.0 > u128::MAX {
                Err(ErrorCode::Overflow)
            } else {
                let drain_price: int = if side {
                    if index_price_x96 >= deltas.0 {
                        index_price_x96 - deltas.0
                    } else {
                        0
                    }
                } else {
                    index_price_x96 + deltas.0
                };
                let used_b: int = if bucket <= n {
                    bucket as int
                } else {
                    n
                };
                if drain_price * used_b > u128::MAX {
                    Err(ErrorCode::Overflow)
                } else {
                    Ok((drain_price * used_b, used_b))
                }
            },
        }
    }
}

/// Draining never fails except by `Overflow`, never drains more than the
/// bucket or the remaining size, and never costs a negative amount.
proof fn lemma_improve_drain_kinds(
    vs: Seq<PriceVertex>,
    basis_index_price_x96: u128,
    index_price_x96: u128,
    side: bool,
    u: int,
    bucket: u128,
    n: int,
)
    requires
        n >= 0,
    ensures
        improve_drain_result(vs, basis_index_price_x96, index_price_x96, side, u, bucket, n)
            matches Err(e) ==> e == ErrorCode::Overflow,
        improve_drain_result(vs, basis_index_price_x96, index_price_x96, side, u, bucket, n)
            matches Ok(d) ==> 0 <= d.0 <= u128::MAX && 0 <= d.1 <= bucket && d.1 <= n,
{
    reveal_with_fuel(improve_drain_result, 1);
}

/// One improving level repays the buffer bucket at the current vertex (at
/// that vertex's own premium rate), then recedes one segment of the curve;
/// levels repeat until the size or the curve runs out.  Returns the summed
/// price times size, the final position, the buckets afterwards, and any
/// size left after full balance.
#[verifier::opaque]
pub open spec fn improve_walk_result(
    vs: Seq<PriceVertex>,
    basis_index_price_x96: u128,
    index_price_x96: u128,
    side: bool,
    p: int,
    bufs: Seq<u128>,
    n: int,
) -> Result<(int, int, Seq<u128>, int), ErrorCode>
    decreases n,
    via improve_walk_result_decreases
{
    if n <= 0 {
        Ok((0, p, bufs, 0))
    } else {
        let u = upper_index(vs, p);
        let bucket = bufs[u];
        match improve_drain_result(vs, basis_index_price_x96, index_price_x96, side, u, bucket, n) {
            Err(e) => Err(e),
            Ok(drain) => {
                let n1 = n - drain.1;
                let bufs1 = if bucket == 0 {
                    bufs
                } else {
                    bufs.update(u, (bucket - drain.1) as u128)
                };
                if n1 <= 0 {
                    Ok((drain.0, p, bufs1, 0))
                } else if p <= 0 {
                    Ok((drain.0, p, bufs1, n1))
                } else {
                    match simulate_move_result(
                        improve_step_at(vs, basis_index_price_x96, index_price_x96, side, p, n1),
                    ) {
                        Err(e) => Err(e),
                        Ok(out) => if out.1 <= 0 || out.1 > n1 || out.1 > p {
                            Ok((drain.0, p, bufs1, n1))
                        } else {
                            match improve_walk_result(
                                vs,
                                basis_index_price_x96,
                                index_price_x96,
                                side,
                                p - out.1,
                                bufs1,
                                n1 - out.1,
                            ) {
                                Err(e) => Err(e),
                                Ok(rest) => if drain.0 + out.0 * out.1 + rest.0 > u128::MAX {
                                    Err(ErrorCode::Overflow)
                                } else {
                                    Ok((drain.0 + out.0 * out.1 + rest.0, rest.1, rest.2, rest.3))
                                },
                            }
                        },
                    }
                }
            },
        }
    }
}

#[via_fn]
proof fn improve_walk_result_decreases(
    vs: Seq<PriceVertex>,
    basis_index_price_x96: u128,
    index_price_x96: u128,
    side: bool,
    p: int,
    bufs: Seq<u128>,
    n: int,
) {
    if n > 0 {
        let u = upper_index(vs, p);
        lemma_improve_drain_kinds(
            vs,
            basis_index_price_x96,
            index_price_x96,
            side,
            u,
            bufs[u],
            n,
        );
    }
}

/// An already-accumulated total composed with the rest of an improving
/// walk.
pub open spec fn compose_improve(total: int, rest: Result<(int, int, Seq<u128>, int), ErrorCode>)
    -> Result<(int, int, Seq<u128>, int), ErrorCode> {
    match rest {
        Err(e) => Err(e),
        Ok(out) => if total + out.0 > u128::MAX {
            Err(ErrorCode::Overflow)
        } else {
            Ok((total + out.0, out.1, out.2, out.3))
        },
    }
}

/// On a well-formed curve the improving walk only ever fails with
/// `Overflow`, and its components stay in range.
proof fn lemma_improve_walk_kinds(
    vs: Seq<PriceVertex>,
    basis_index_price_x96: u128,
    index_price_x96: u128,
    side: bool,
    p: int,
    bufs: Seq<u128>,
    n: int,
)
    requires
        vertices_wf(vs),
        0 <= p <= vs[9].size,
        bufs.len() == 10,
    ensures
        improve_walk_result(vs, basis_index_price_x96, index_price_x96, side, p, bufs, n)
            matches Err(e) ==> e == ErrorCode::Overflow,
        improve_walk_result(vs, basis_index_price_x96, index_price_x96, side, p, bufs, n)
            matches Ok(out) ==> 0 <= out.0 <= u128::MAX && 0 <= out.1 <= p && out.2.len() == 10
            && 0 <= out.3,
    decreases n,
{
    reveal_with_fuel(improve_walk_result, 1);
    if n > 0 {
        let u = upper_index(vs, p);
        lemma_upper_index_bound(vs, p);
        if p > 0 {
            lemma_vertices_increasing(vs, u - 1, u);
        }
        let bucket = bufs[u];
        lemma_improve_drain_kinds(vs, basis_index_price_x96, index_price_x96, side, u, bucket, n);
        match improve_drain_result(vs, basis_index_price_x96, index_price_x96, side, u, bucket, n) {
            Err(e) => {
            },
            Ok(drain) => {
                let n1 = n - drain.1;
                let bufs1 = if bucket == 0 {
                    bufs
                } else {
                    bufs.update(u, (bucket - drain.1) as u128)
                };
                if n1 > 0 && p > 0 {
                    match simulate_move_result(
                        improve_step_at(vs, basis_index_price_x96, index_price_x96, side, p, n1),
                    ) {
                        Err(e2) => {
                        },
                        Ok(out) => {
                            if 0 < out.1 && out.1 <= n1 && out.1 <= p {
                                lemma_improve_walk_kinds(
                                    vs,
                                    basis_index_price_x96,
                                    index_price_x96,
                                    side,
                                    p - out.1,
                                    bufs1,
                                    n1 - out.1,
                                );
                                assert(out.0 * out.1 >= 0) by (nonlinear_arith)
                                    requires
                                        out.0 >= 0,
                                        out.1 >= 0,
                                ;
                            }
                        },
                    }
                }
            },
        }
    }
}

/// A bucket of zero drains nothing at no cost.
proof fn lemma_drain_zero(
    vs: Seq<PriceVertex>,
    basis_index_price_x96: u128,
    index_price_x96: u128,
    side: bool,
    u: int,
    n: int,
)
    ensures
        improve_drain_result(vs, basis_index_price_x96, index_price_x96, side, u, 0, n)
            == Ok::<(int, int), ErrorCode>((0, 0)),
{
    reveal_with_fuel(improve_drain_result, 1);
}

/// One improving level, unfolded: after the drain whose outcome is given,
/// the level either stops (size or curve exhausted), fails exactly as the
/// segment step fails, or composes the segment chunk with the rest of the
/// walk.
proof fn lemma_improve_level_cases(
    vs: Seq<PriceVertex>,
    basis_index_price_x96: u128,
    index_price_x96: u128,
    side: bool,
    level_p: int,
    level_bufs: Seq<u128>,
    level_n: int,
    bufs_now: Seq<u128>,
    n_now: int,
    drain_chunk: int,
)
    requires
        level_n >= 1,
        n_now >= 1,
        level_p >= 1,
        improve_drain_result(
            vs,
            basis_index_price_x96,
            index_price_x96,
            side,
            upper_index(vs, level_p),
            level_bufs[upper_index(vs, level_p)],
            level_n,
        ) == Ok::<(int, int), ErrorCode>((drain_chunk, level_n - n_now)),
        bufs_now == (if level_bufs[upper_index(vs, level_p)] == 0 {
            level_bufs
        } else {
            level_bufs.update(
                upper_index(vs, level_p),
                (level_bufs[upper_index(vs, level_p)] - (level_n - n_now)) as u128,
            )
        }),
    ensures
        ({
            let level = improve_walk_result(
                vs,
                basis_index_price_x96,
                index_price_x96,
                side,
                level_p,
                level_bufs,
                level_n,
            );
            match simulate_move_result(
                improve_step_at(vs, basis_index_price_x96, index_price_x96, side, level_p, n_now),
            ) {
                Err(e) => level == Err::<(int, int, Seq<u128>, int), ErrorCode>(e),
                Ok(sout) => if 0 < sout.1 && sout.1 <= n_now && sout.1 <= level_p {
                    level == compose_improve(
                        drain_chunk + sout.0 * sout.1,
                        improve_walk_result(
                            vs,
                            basis_index_price_x96,
                            index_price_x96,
                            side,
                            level_p - sout.1,
                            bufs_now,
                            n_now - sout.1,
                        ),
                    )
                } else {
                    level == Ok::<(int, int, Seq<u128>, int), ErrorCode>(
                        (drain_chunk, level_p, bufs_now, n_now),
                    )
                },
            }
        }),
{
    reveal_with_fuel(improve_walk_result, 1);
}

/// Repays part of one liquidation-buffer bucket at its vertex's premium
/// rate, returning the price-times-size cost and the size drained.
fn drain_bucket(
    vertices: &Vec<PriceVertex>,
    basis_index_price_x96: u128,
    index_price_x96: u128,
    side: bool,
    u: usize,
    bucket: u128,
    size_left: u128,
) -> (r: Result<(u128, u128), ErrorCode>)
    requires
        vertices@.len() == 10,
        u < 10,
        bucket > 0,
        size_left > 0,
    ensures
        r matches Err(e) ==> improve_drain_result(
            vertices@,
            basis_index_price_x96,
            index_price_x96,
            side,
            u as int,
            bucket,
            size_left as int,
        ) == Err::<(int, int), ErrorCode>(e) && e == ErrorCode::Overflow,
        r matches Ok(pair) ==> {
            &&& improve_drain_result(
                vertices@,
                basis_index_price_x96,
                index_price_x96,
                side,
                u as int,
                bucket,
                size_left as int,
            ) == Ok::<(int, int), ErrorCode>((pair.0 as int, pair.1 as int))
            &&& pair.1 == min_spec(bucket, size_left)
        },
{
    let used = if bucket <= size_left {
        bucket
    } else {
        size_left
    };
    let (delta_down, delta_up) = match mul_div2(
        basis_index_price_x96,
        vertices[u].premium_rate_x96,
        Q96,
    ) {
        Ok(pair) => pair,
        Err(e) => {
            proof {
                reveal_with_fuel(improve_drain_result, 1);
            }
            return Err(e);
        },
    };
    let price: u128 = if side {
        if index_price_x96 >= delta_down {
            index_price_x96 - delta_down
        } else {
            0
        }
    } else {
        match index_price_x96.checked_add(delta_down) {
            Some(v) => v,
            None => {
                proof {
                    reveal_with_fuel(improve_drain_result, 1);
                }
                return Err(ErrorCode::Overflow);
            },
        }
    };
    let chunk = match price.checked_mul(used) {
        Some(v) => v,
        None => {
            proof {
                reveal_with_fuel(improve_drain_result, 1);
            }
            return Err(ErrorCode::Overflow);
        },
    };
    proof {
        reveal_with_fuel(improve_drain_result, 1);
    }
    Ok((chunk, used))
}

/// Walks the curve back toward balance: at each vertex level it first
/// repays that vertex's liquidation-buffer bucket, then recedes along the
/// ordinary curve, stepping the vertex index down only when a boundary is
/// fully reached.  Size left over after full balance is returned for the
/// caller to continue on the other side.
#[verifier::rlimit(100)]
fn improve_walk(
    vertices: &Vec<PriceVertex>,
    buffers: &Vec<u128>,
    net: u128,
    cvi: u8,
    premium: u128,
    side: bool,
    size_delta: u128,
    index_price_x96: u128,
    basis_index_price_x96: u128,
) -> (r: Result<CurveWalk, ErrorCode>)
    requires
        vertices_wf(vertices@),
        buffers@.len() == 10,
        net <= vertices@[9].size,
        cvi == upper_index(vertices@, net as int),
        premium == rate_at(vertices@, net as int),
        forall|j: int| cvi < j < 10 ==> #[trigger] buffers@[j] == 0,
        seq_sum(buffers@) <= u128::MAX,
    ensures
        r matches Err(e) ==> (e == ErrorCode::Overflow || e == ErrorCode::DivideByZero),
        r matches Err(e) ==> improve_walk_result(
            vertices@,
            basis_index_price_x96,
            index_price_x96,
            side,
            net as int,
            buffers@,
            size_delta as int,
        ) == Err::<(int, int, Seq<u128>, int), ErrorCode>(e),
        r matches Ok(w) ==> {
            &&& w.net_after <= net
            &&& w.buffer_used <= seq_sum(buffers@)
            &&& (net - w.net_after) + w.buffer_used + w.size_left == size_delta
            &&& w.cvi_after < 10
            &&& w.cvi_after == upper_index(vertices@, w.net_after as int)
            &&& w.premium_after == rate_at(vertices@, w.net_after as int)
            &&& w.buffers_after@.len() == 10
            &&& forall|j: int| w.cvi_after < j < 10 ==> #[trigger] w.buffers_after@[j] == 0
            &&& seq_sum(w.buffers_after@) == seq_sum(buffers@) - w.buffer_used
            &&& w.size_left > 0 ==> w.net_after == 0 && seq_sum(w.buffers_after@) == 0
            &&& seq_sum(buffers@) == 0 ==> w.buffer_used == 0 && w.buffers_after@ == buffers@
            &&& (forall|j: int| 0 <= j < 10 ==> #[trigger] w.buffers_after@[j] <= buffers@[j])
            &&& improve_walk_result(
                vertices@,
                basis_index_price_x96,
                index_price_x96,
                side,
                net as int,
                buffers@,
                size_delta as int,
            ) == Ok::<(int, int, Seq<u128>, int), ErrorCode>(
                (
                    w.total_price_times_size as int,
                    w.net_after as int,
                    w.buffers_after@,
                    w.size_left as int,
                ),
            )
        },
{
    let ghost vss = vertices@;
    let ghost bs0 = buffers@;
    let mut p: u128 = net;
    let mut q: u128 = premium;
    let mut u: usize = cvi as usize;
    let mut size_left: u128 = size_delta;
    let mut total: u128 = 0;
    let mut drained: u128 = 0;
    let mut buffers_after = copy_buffers(buffers);
    proof {
        lemma_upper_index_bound(vss, net as int);
        lemma_seq_sum_nonneg(bs0);
        lemma_improve_walk_kinds(
            vss,
            basis_index_price_x96,
            index_price_x96,
            side,
            net as int,
            bs0,
            size_delta as int,
        );
    }
    loop
        invariant
            vertices_wf(vss),
            vss == vertices@,
            bs0 == buffers@,
            p <= net,
            p <= vss[9].size,
            u <= 9,
            u == upper_index(vss, p as int),
            q == rate_at(vss, p as int),
            buffers_after@.len() == 10,
            forall|j: int| 0 <= j < 10 ==> #[trigger] buffers_after@[j] <= bs0[j],
            forall|j: int| (u as int) < j < 10 ==> #[trigger] buffers_after@[j] == 0,
            seq_sum(buffers_after@) == seq_sum(bs0) - drained,
            seq_sum(bs0) <= u128::MAX,
            (net - p) + drained + size_left == size_delta,
            seq_sum(bs0) == 0 ==> drained == 0 && buffers_after@ == bs0,
            improve_walk_result(
                vss,
                basis_index_price_x96,
                index_price_x96,
                side,
                net as int,
                bs0,
                size_delta as int,
            ) == compose_improve(
                total as int,
                improve_walk_result(
                    vss,
                    basis_index_price_x96,
                    index_price_x96,
                    side,
                    p as int,
                    buffers_after@,
                    size_left as int,
                ),
            ),
        ensures
            size_left == 0 || (p == 0 && forall|j: int|
                0 <= j < 10 ==> #[trigger] buffers_after@[j] == 0),
        decreases size_left,
    {
        if size_left == 0 {
            break ;
        }
        let ghost it_total = total as int;
        let ghost it_p = p as int;
        let ghost it_bufs = buffers_after@;
        let ghost it_n = size_left as int;
        let bucket = buffers_after[u];
        if bucket > 0 {
            let (chunk, used) = match drain_bucket(
                vertices,
                basis_index_price_x96,
                index_price_x96,
                side,
                u,
                bucket,
                size_left,
            ) {
                Ok(pair) => pair,
                Err(e) => {
                    proof {
                        assert(improve_walk_result(
                            vss,
                            basis_index_price_x96,
                            index_price_x96,
                            side,
                            it_p,
                            it_bufs,
                            it_n,
                        ) == Err::<(int, int, Seq<u128>, int), ErrorCode>(e)) by {
                            reveal_with_fuel(improve_walk_result, 1);
                        };
                    }
                    return Err(e);
                },
            };
            total = match total.checked_add(chunk) {
                Some(v) => v,
                None => {
                    proof {
                        lemma_improve_walk_kinds(
                            vss,
                            basis_index_price_x96,
                            index_price_x96,
                            side,
                            it_p,
                            it_bufs,
                            it_n,
                        );
                        assert(improve_walk_result(
                            vss,
                            basis_index_price_x96,
                            index_price_x96,
                            side,
                            it_p,
                            it_bufs,
                            it_n,
                        ) == Err::<(int, int, Seq<u128>, int), ErrorCode>(ErrorCode::Overflow) || (
                        improve_walk_result(
                            vss,
                            basis_index_price_x96,
                            index_price_x96,
                            side,
                            it_p,
                            it_bufs,
                            it_n,
                        ) matches Ok(level) && level.0 >= chunk)) by {
                            reveal_with_fuel(improve_walk_result, 1);
                            let bufs1 = it_bufs.update(u as int, (bucket - used) as u128);
                            let n1 = it_n - used;
                            if n1 > 0 && it_p > 0 {
                                match simulate_move_result(
                                    improve_step_at(
                                        vss,
                                        basis_index_price_x96,
                                        index_price_x96,
                                        side,
                                        it_p,
                                        n1,
                                    ),
                                ) {
                                    Err(e2) => {},
                                    Ok(sout) => {
                                        if 0 < sout.1 && sout.1 <= n1 && sout.1 <= it_p {
                                            lemma_improve_walk_kinds(
                                                vss,
                                                basis_index_price_x96,
                                                index_price_x96,
                                                side,
                                                it_p - sout.1,
                                                bufs1,
                                                n1 - sout.1,
                                            );
                                            assert(sout.0 * sout.1 >= 0) by (nonlinear_arith)
                                                requires
                                                    sout.0 >= 0,
                                                    sout.1 >= 0,
                                            ;
                                        }
                                    },
                                }
                            }
                        };
                    }
                    return Err(ErrorCode::Overflow);
                },
            };
            proof {
                lemma_seq_sum_update(buffers_after@, u as int, (bucket - used) as u128);
                lemma_seq_sum_element(buffers_after@, u as int);
            }
            buffers_after.set(u, bucket - used);
            size_left = size_left - used;
            drained = drained + used;
        }
        if size_left == 0 {
            proof {
                assert(improve_walk_result(
                    vss,
                    basis_index_price_x96,
                    index_price_x96,
                    side,
                    it_p,
                    it_bufs,
                    it_n,
                ) matches Ok(level) && level.0 == total - it_total && level.1 == p as int
                    && level.2 == buffers_after@ && level.3 == 0) by {
                    reveal_with_fuel(improve_walk_result, 1);
                    reveal_with_fuel(improve_drain_result, 1);
                };
                assert(improve_walk_result(
                    vss,
                    basis_index_price_x96,
                    index_price_x96,
                    side,
                    p as int,
                    buffers_after@,
                    0,
                ) == Ok::<(int, int, Seq<u128>, int), ErrorCode>(
                    (0, p as int, buffers_after@, 0),
                )) by {
                    reveal_with_fuel(improve_walk_result, 1);
                };
            }
            break ;
        }
        if p == 0 {
            proof {
                assert(buffers_after@[0] == 0);
                assert(improve_walk_result(
                    vss,
                    basis_index_price_x96,
                    index_price_x96,
                    side,
                    it_p,
                    it_bufs,
                    it_n,
                ) matches Ok(level) && level.0 == total - it_total && level.1 == 0 && level.2
                    == buffers_after@ && level.3 == size_left as int) by {
                    reveal_with_fuel(improve_walk_result, 1);
                    reveal_with_fuel(improve_drain_result, 1);
                };
                assert(improve_walk_result(
                    vss,
                    basis_index_price_x96,
                    index_price_x96,
                    side,
                    0,
                    buffers_after@,
                    size_left as int,
                ) == Ok::<(int, int, Seq<u128>, int), ErrorCode>(
                    (0, 0, buffers_after@, size_left as int),
                )) by {
                    reveal_with_fuel(improve_walk_result, 1);
                    reveal_with_fuel(improve_drain_result, 1);
                };
            }
            break ;
        }
        proof {
            lemma_upper_index_bound(vss, p as int);
            lemma_vertices_increasing(vss, u as int - 1, u as int);
        }
        let from = vertices[u];
        let to = vertices[u - 1];
        let ghost old_size_left = size_left as int;
        let step = SimulateMoveStep {
            side,
            size_left,
            index_price_x96,
            basis_index_price_x96,
            improve_balance: true,
            from,
            current: PriceVertex { size: p, premium_rate_x96: q },
            to,
        };
        proof {
            assert(step == improve_step_at(
                vss,
                basis_index_price_x96,
                index_price_x96,
                side,
                it_p,
                size_left as int,
            ));
            if it_bufs[u as int] == 0 {
                lemma_drain_zero(
                    vss,
                    basis_index_price_x96,
                    index_price_x96,
                    side,
                    u as int,
                    it_n,
                );
            }
            lemma_improve_level_cases(
                vss,
                basis_index_price_x96,
                index_price_x96,
                side,
                it_p,
                it_bufs,
                it_n,
                buffers_after@,
                size_left as int,
                total - it_total,
            );
            lemma_improve_walk_kinds(
                vss,
                basis_index_price_x96,
                index_price_x96,
                side,
                it_p,
                it_bufs,
                it_n,
            );
        }
        let (price, used, reached, q_new) = match simulate_move(&step) {
            Ok(t) => t,
            Err(e) => {
                return Err(e);
            },
        };
        proof {
            lemma_improve_walk_kinds(
                vss,
                basis_index_price_x96,
                index_price_x96,
                side,
                (p - used) as int,
                buffers_after@,
                (size_left - used) as int,
            );
        }
        let chunk = match price.checked_mul(used) {
            Some(v) => v,
            None => {
                return Err(ErrorCode::Overflow);
            },
        };
        total = match total.checked_add(chunk) {
            Some(v) => v,
            None => {
                return Err(ErrorCode::Overflow);
            },
        };
        proof {
            if !reached {
                lemma_premium_after_is_interp(step, q_new);
                lemma_upper_index_unique(vss, (p - used) as int, u as int);
            } else {
                lemma_rate_at_vertex(vss, u as int - 1);
                if u >= 2 {
                    lemma_vertices_increasing(vss, u as int - 2, u as int - 1);
                }
                lemma_upper_index_unique(vss, (p - used) as int, u as int - 1);
            }
        }
        p = p - used;
        q = q_new;
        size_left = size_left - used;
        if reached {
            u = u - 1;
        }
    }
    proof {
        lemma_seq_sum_nonneg(buffers_after@);
        if size_left > 0 {
            lemma_seq_sum_zero(buffers_after@);
        }
        assert(improve_walk_result(
            vss,
            basis_index_price_x96,
            index_price_x96,
            side,
            p as int,
            buffers_after@,
            size_left as int,
        ) == Ok::<(int, int, Seq<u128>, int), ErrorCode>(
            (0, p as int, buffers_after@, size_left as int),
        )) by {
            reveal_with_fuel(improve_walk_result, 1);
            reveal_with_fuel(improve_drain_result, 1);
        };
    }
    Ok(
        CurveWalk {
            total_price_times_size: total,
            size_left,
            buffer_used: drained,
            net_after: p,
            cvi_after: u as u8,
            premium_after: q,
            buffers_after,
        },
    )
}

/// Runs one directional walk over the curve without committing anything:
/// backward (repaying buffers, receding along the curve) when the balance
/// improves, forward (consuming vertices, overflowing into the liquidation
/// buffer) when it worsens.
pub fn _update_price_state(
    global_position_cache: &GlobalLiquidityPosition,
    price_state: &PriceState,
    parameter: &UpdatePriceStateParameter,
    basis_index_price_x96: u128,
    improve_balance: bool,
) -> (r: Result<CurveWalk, ErrorCode>)
    requires
        price_state_wf(*global_position_cache, *price_state),
        parameter.liquidation_vertex_index < 10,
    ensures
        !improve_balance && !parameter.liquidation && global_position_cache.net_size
            + parameter.size_delta > price_state.price_vertices@[9].size ==> r == Err::<
            CurveWalk,
            ErrorCode,
        >(ErrorCode::MaxPremiumRateExceeded),
        r matches Err(e) && e == ErrorCode::MaxPremiumRateExceeded ==> !improve_balance
            && !parameter.liquidation && global_position_cache.net_size + parameter.size_delta
            > price_state.price_vertices@[9].size,
        r matches Err(e) ==> (e == ErrorCode::Overflow || e == ErrorCode::DivideByZero || e
            == ErrorCode::MaxPremiumRateExceeded),
        !improve_balance ==> (r matches Err(e) ==> (e == ErrorCode::MaxPremiumRateExceeded || (e
            == ErrorCode::Overflow && global_position_cache.net_size + parameter.size_delta
            > price_state.price_vertices@[9].size
            && price_state.liquidation_buffer_net_sizes@[parameter.liquidation_vertex_index as int]
            + (global_position_cache.net_size + parameter.size_delta
            - price_state.price_vertices@[9].size) > u128::MAX) || worsen_total_result(
            price_state.price_vertices@,
            basis_index_price_x96,
            parameter.index_price_x96,
            parameter.side,
            global_position_cache.net_size as int,
            parameter.size_delta as int,
            parameter.liquidation_vertex_index as int,
        ) == Err::<int, ErrorCode>(e))),
        improve_balance ==> (r matches Err(e) ==> improve_walk_result(
            price_state.price_vertices@,
            basis_index_price_x96,
            parameter.index_price_x96,
            parameter.side,
            global_position_cache.net_size as int,
            price_state.liquidation_buffer_net_sizes@,
            parameter.size_delta as int,
        ) == Err::<(int, int, Seq<u128>, int), ErrorCode>(e)),
        !improve_balance ==> (r matches Ok(w) ==> {
            &&& w.net_after == if global_position_cache.net_size + parameter.size_delta
                <= price_state.price_vertices@[9].size {
                (global_position_cache.net_size + parameter.size_delta) as int
            } else {
                price_state.price_vertices@[9].size as int
            }
            &&& w.size_left == 0
            &&& w.buffer_used == global_position_cache.net_size + parameter.size_delta
                - w.net_after
            &&& seq_sum(w.buffers_after@) == seq_sum(price_state.liquidation_buffer_net_sizes@)
                + w.buffer_used
            &&& w.buffer_used == 0 ==> w.buffers_after@
                == price_state.liquidation_buffer_net_sizes@
            &&& worsen_total_result(
                price_state.price_vertices@,
                basis_index_price_x96,
                parameter.index_price_x96,
                parameter.side,
                global_position_cache.net_size as int,
                parameter.size_delta as int,
                parameter.liquidation_vertex_index as int,
            ) == Ok::<int, ErrorCode>(w.total_price_times_size as int)
            &&& (global_position_cache.net_size + parameter.size_delta
                > price_state.price_vertices@[9].size ==> {
                &&& price_state.liquidation_buffer_net_sizes@[parameter.liquidation_vertex_index as int]
                    + w.buffer_used <= u128::MAX
                &&& w.buffers_after@ == price_state.liquidation_buffer_net_sizes@.update(
                    parameter.liquidation_vertex_index as int,
                    (price_state.liquidation_buffer_net_sizes@[parameter.liquidation_vertex_index as int]
                        + w.buffer_used) as u128,
                )
            })
        }),
        improve_balance ==> (r matches Ok(w) ==> {
            &&& w.net_after <= global_position_cache.net_size
            &&& w.buffer_used <= seq_sum(price_state.liquidation_buffer_net_sizes@)
            &&& (global_position_cache.net_size - w.net_after) + w.buffer_used + w.size_left
                == parameter.size_delta
            &&& seq_sum(w.buffers_after@) == seq_sum(price_state.liquidation_buffer_net_sizes@)
                - w.buffer_used
            &&& w.size_left > 0 ==> w.net_after == 0 && seq_sum(w.buffers_after@) == 0
            &&& seq_sum(price_state.liquidation_buffer_net_sizes@) == 0 ==> w.buffer_used == 0
                && w.buffers_after@ == price_state.liquidation_buffer_net_sizes@
            &&& (forall|j: int|
                0 <= j < 10 ==> #[trigger] w.buffers_after@[j]
                    <= price_state.liquidation_buffer_net_sizes@[j])
            &&& improve_walk_result(
                price_state.price_vertices@,
                basis_index_price_x96,
                parameter.index_price_x96,
                parameter.side,
                global_position_cache.net_size as int,
                price_state.liquidation_buffer_net_sizes@,
                parameter.size_delta as int,
            ) == Ok::<(int, int, Seq<u128>, int), ErrorCode>(
                (
                    w.total_price_times_size as int,
                    w.net_after as int,
                    w.buffers_after@,
                    w.size_left as int,
                ),
            )
        }),
        r matches Ok(w) ==> {
            &&& w.net_after <= price_state.price_vertices@[9].size
            &&& w.cvi_after < 10
            &&& w.cvi_after == upper_index(price_state.price_vertices@, w.net_after as int)
            &&& w.premium_after == rate_at(price_state.price_vertices@, w.net_after as int)
            &&& w.buffers_after@.len() == 10
            &&& forall|j: int| w.cvi_after < j < 10 ==> #[trigger] w.buffers_after@[j] == 0
        },
{
    if improve_balance {
        improve_walk(
            &price_state.price_vertices,
            &price_state.liquidation_buffer_net_sizes,
            global_position_cache.net_size,
            price_state.current_vertex_index,
            price_state.premium_rate_x96,
            parameter.side,
            parameter.size_delta,
            parameter.index_price_x96,
            basis_index_price_x96,
        )
    } else {
        worsen_walk(
            &price_state.price_vertices,
            &price_state.liquidation_buffer_net_sizes,
            global_position_cache.net_size,
            price_state.current_vertex_index,
            price_state.premium_rate_x96,
            parameter.side,
            parameter.size_delta,
            parameter.index_price_x96,
            basis_index_price_x96,
            parameter.liquidation,
            parameter.liquidation_vertex_index,
        )
    }
}

/// The trade price `update_price_state` returns, and the exact error it
/// fails with, as one function of the inputs: zero size is rejected, a
/// worsening trade walks forward (rejecting over-capacity without
/// liquidation before any arithmetic), an improving trade walks backward
/// and, on crossing the balance point, re-bases at the index price and
/// continues forward on the other side.
#[verifier::opaque]
pub open spec fn update_price_trade_price(
    gp: GlobalLiquidityPosition,
    ps: PriceState,
    parameter: UpdatePriceStateParameter,
) -> Result<u128, ErrorCode> {
    let balanced = gp.net_size == 0 && gp.liquidation_buffer_net_size == 0;
    let improve = parameter.side == gp.side && !balanced;
    let basis0 = if balanced {
        parameter.index_price_x96
    } else {
        ps.basis_index_price_x96
    };
    let vs = ps.price_vertices@;
    let bufs0 = ps.liquidation_buffer_net_sizes@;
    let net0 = gp.net_size as int;
    let agg0 = gp.liquidation_buffer_net_size as int;
    let delta = parameter.size_delta as int;
    let lvi = parameter.liquidation_vertex_index as int;
    if delta == 0 {
        Err(ErrorCode::InvalidOperation)
    } else if !improve {
        if !parameter.liquidation && net0 + delta > vs[9].size {
            Err(ErrorCode::MaxPremiumRateExceeded)
        } else {
            match worsen_total_result(
                vs,
                basis0,
                parameter.index_price_x96,
                parameter.side,
                net0,
                delta,
                lvi,
            ) {
                Err(e) => Err(e),
                Ok(t) => if net0 + delta > vs[9].size && (bufs0[lvi] + (net0 + delta
                    - vs[9].size) > u128::MAX || agg0 + (net0 + delta - vs[9].size)
                    > u128::MAX) {
                    Err(ErrorCode::Overflow)
                } else if parameter.side {
                    Ok(div_up(t, delta) as u128)
                } else {
                    Ok((t / delta) as u128)
                },
            }
        }
    } else {
        match improve_walk_result(
            vs,
            basis0,
            parameter.index_price_x96,
            parameter.side,
            net0,
            bufs0,
            delta,
        ) {
            Err(e) => Err(e),
            Ok(iw) => if iw.3 == 0 {
                if parameter.side {
                    Ok(div_up(iw.0, delta) as u128)
                } else {
                    Ok((iw.0 / delta) as u128)
                }
            } else if !parameter.liquidation && iw.3 > vs[9].size {
                Err(ErrorCode::MaxPremiumRateExceeded)
            } else {
                match worsen_total_result(
                    vs,
                    parameter.index_price_x96,
                    parameter.index_price_x96,
                    parameter.side,
                    0,
                    iw.3,
                    lvi,
                ) {
                    Err(e) => Err(e),
                    Ok(t2) => if iw.0 + t2 > u128::MAX {
                        Err(ErrorCode::Overflow)
                    } else if parameter.side {
                        Ok(div_up(iw.0 + t2, delta) as u128)
                    } else {
                        Ok(((iw.0 + t2) / delta) as u128)
                    },
                }
            },
        }
    }
}

/// How one priced trade moves the pool's curve position: the committed
/// net size, exposure side, buffer aggregate, basis price and buffer
/// buckets, as functions of the state the walk started from.
#[verifier::opaque]
pub open spec fn curve_commit(
    gp0: GlobalLiquidityPosition,
    ps0: PriceState,
    parameter: UpdatePriceStateParameter,
    net1: int,
    side1: bool,
    buffer1: int,
    basis1: u128,
    bufs1: Seq<u128>,
) -> bool {
    let balanced = gp0.net_size == 0 && gp0.liquidation_buffer_net_size == 0;
    let improve = parameter.side == gp0.side && !balanced;
    let basis0 = if balanced {
        parameter.index_price_x96
    } else {
        ps0.basis_index_price_x96
    };
    let vs = ps0.price_vertices@;
    let bufs0 = ps0.liquidation_buffer_net_sizes@;
    let net0 = gp0.net_size as int;
    let buffer0 = gp0.liquidation_buffer_net_size as int;
    let delta = parameter.size_delta as int;
    let lvi = parameter.liquidation_vertex_index as int;
    &&& (!improve ==> {
        &&& side1 == !parameter.side
        &&& net1 == if net0 + delta <= vs[9].size {
            net0 + delta
        } else {
            vs[9].size as int
        }
        &&& buffer1 == buffer0 + (net0 + delta - net1)
        &&& basis1 == basis0
        &&& bufs1 == (if net0 + delta <= vs[9].size {
            bufs0
        } else {
            bufs0.update(lvi, (bufs0[lvi] + (net0 + delta - vs[9].size)) as u128)
        })
    })
    &&& (improve && delta <= net0 + buffer0 ==> {
        &&& side1 == gp0.side
        &&& net1 + buffer1 == net0 + buffer0 - delta
        &&& net1 <= net0
        &&& basis1 == ps0.basis_index_price_x96
        &&& (improve_walk_result(
            vs,
            basis0,
            parameter.index_price_x96,
            parameter.side,
            net0,
            bufs0,
            delta,
        ) matches Ok(iw) && bufs1 == iw.2)
        &&& (forall|j: int| 0 <= j < 10 ==> #[trigger] bufs1[j] <= bufs0[j])
    })
    &&& (improve && delta > net0 + buffer0 ==> {
        let remainder = delta - net0 - buffer0;
        &&& side1 == !parameter.side
        &&& net1 == if remainder <= vs[9].size {
            remainder
        } else {
            vs[9].size as int
        }
        &&& buffer1 == remainder - net1
        &&& basis1 == parameter.index_price_x96
    })
}

/// Prices a trade of `size_delta` against the pool and commits the new
/// curve position.
///
/// A zero-size request is rejected with `InvalidOperation`.  A trade on
/// the pool's own side walks the curve back toward balance, repaying
/// liquidation buffers first; crossing the balance point re-bases the
/// curve at the current index price and continues on the other side.  Any
/// other trade walks the curve away from balance, and may overflow into
/// the liquidation vertex's buffer only during a forced liquidation.
/// Returns the volume-weighted average trade price, rounded against the
/// trader.  On failure the market state is exactly what it was.
#[verifier::rlimit(100)]
pub fn update_price_state(
    global_position: &mut GlobalLiquidityPosition,
    price_state: &mut PriceState,
    parameter: &UpdatePriceStateParameter,
) -> (r: Result<u128, ErrorCode>)
    requires
        price_state_wf(*old(global_position), *old(price_state)),
        parameter.liquidation_vertex_index < 10,
    ensures
        r == update_price_trade_price(*old(global_position), *old(price_state), *parameter),
        r matches Ok(v) ==> curve_commit(
            *old(global_position),
            *old(price_state),
            *parameter,
            final(global_position).net_size as int,
            final(global_position).side,
            final(global_position).liquidation_buffer_net_size as int,
            final(price_state).basis_index_price_x96,
            final(price_state).liquidation_buffer_net_sizes@,
        ),
        parameter.size_delta == 0 <==> r == Err::<u128, ErrorCode>(ErrorCode::InvalidOperation),
        r matches Err(e) ==> (e == ErrorCode::InvalidOperation || e == ErrorCode::Overflow || e
            == ErrorCode::DivideByZero || e == ErrorCode::MaxPremiumRateExceeded),
        r matches Err(e) ==> (e == ErrorCode::InvalidOperation || ({
            let balanced = old(global_position).net_size == 0 && old(
                global_position,
            ).liquidation_buffer_net_size == 0;
            let improve = parameter.side == old(global_position).side && !balanced;
            let basis0 = if balanced {
                parameter.index_price_x96
            } else {
                old(price_state).basis_index_price_x96
            };
            let vs = old(price_state).price_vertices@;
            let bufs0 = old(price_state).liquidation_buffer_net_sizes@;
            let net0 = old(global_position).net_size as int;
            let agg0 = old(global_position).liquidation_buffer_net_size as int;
            let delta = parameter.size_delta as int;
            let lvi = parameter.liquidation_vertex_index as int;
            &&& (!improve ==> ((e == ErrorCode::MaxPremiumRateExceeded && !parameter.liquidation
                && net0 + delta > vs[9].size) || (e == ErrorCode::Overflow && net0 + delta
                > vs[9].size && (bufs0[lvi] + (net0 + delta - vs[9].size) > u128::MAX || agg0 + (
            net0 + delta - vs[9].size) > u128::MAX)) || worsen_total_result(
                vs,
                basis0,
                parameter.index_price_x96,
                parameter.side,
                net0,
                delta,
                lvi,
            ) == Err::<int, ErrorCode>(e)))
            &&& (improve ==> (improve_walk_result(
                vs,
                basis0,
                parameter.index_price_x96,
                parameter.side,
                net0,
                bufs0,
                delta,
            ) == Err::<(int, int, Seq<u128>, int), ErrorCode>(e) || (improve_walk_result(
                vs,
                basis0,
                parameter.index_price_x96,
                parameter.side,
                net0,
                bufs0,
                delta,
            ) matches Ok(iw) && iw.3 > 0 && ((e == ErrorCode::MaxPremiumRateExceeded
                && !parameter.liquidation && iw.3 > vs[9].size) || worsen_total_result(
                vs,
                parameter.index_price_x96,
                parameter.index_price_x96,
                parameter.side,
                0,
                iw.3,
                lvi,
            ) == Err::<int, ErrorCode>(e) || (e == ErrorCode::Overflow && (worsen_total_result(
                vs,
                parameter.index_price_x96,
                parameter.index_price_x96,
                parameter.side,
                0,
                iw.3,
                lvi,
            ) matches Ok(t2) && iw.0 + t2 > u128::MAX))))))
        })),
        r matches Err(e) ==> *final(global_position) == *old(global_position)
            && *final(price_state) == *old(price_state),
        r matches Ok(v) ==> price_state_wf(*final(global_position), *final(price_state)),
        r matches Ok(v) ==> {
            let balanced = old(global_position).net_size == 0 && old(
                global_position,
            ).liquidation_buffer_net_size == 0;
            let improve = parameter.side == old(global_position).side && !balanced;
            let vs = old(price_state).price_vertices@;
            let net0 = old(global_position).net_size as int;
            let buffer0 = old(global_position).liquidation_buffer_net_size as int;
            let delta = parameter.size_delta as int;
            &&& final(price_state).price_vertices@ == vs
            &&& final(price_state).pending_vertex_index == old(price_state).pending_vertex_index
            &&& final(global_position).liquidity == old(global_position).liquidity
            &&& final(global_position).unrealized_pnl_growth_x64 == old(
                global_position,
            ).unrealized_pnl_growth_x64
            &&& final(global_position).previous_sp_price_x96 == old(
                global_position,
            ).previous_sp_price_x96
            &&& (!improve ==> {
                &&& final(global_position).side == !parameter.side
                &&& final(global_position).net_size == if net0 + delta <= vs[9].size {
                    net0 + delta
                } else {
                    vs[9].size as int
                }
                &&& final(global_position).liquidation_buffer_net_size == buffer0 + (net0 + delta
                    - final(global_position).net_size)
                &&& final(price_state).basis_index_price_x96 == if balanced {
                    parameter.index_price_x96
                } else {
                    old(price_state).basis_index_price_x96
                }
            })
            &&& (improve && delta <= net0 + buffer0 ==> {
                &&& final(global_position).side == old(global_position).side
                &&& final(global_position).net_size + final(global_position).liquidation_buffer_net_size == net0 + buffer0 - delta
                &&& final(global_position).net_size <= net0
                &&& final(price_state).basis_index_price_x96 == old(
                    price_state,
                ).basis_index_price_x96
            })
            &&& (improve && buffer0 == 0 && delta <= net0 ==> {
                &&& final(global_position).net_size == net0 - delta
                &&& final(global_position).liquidation_buffer_net_size == 0
                &&& final(price_state).liquidation_buffer_net_sizes@ == old(
                    price_state,
                ).liquidation_buffer_net_sizes@
            })
            &&& (improve && delta > net0 + buffer0 ==> {
                let remainder = delta - net0 - buffer0;
                &&& final(global_position).side == !parameter.side
                &&& final(global_position).net_size == if remainder <= vs[9].size {
                    remainder
                } else {
                    vs[9].size as int
                }
                &&& final(global_position).liquidation_buffer_net_size == remainder - final(global_position).net_size
                &&& final(price_state).basis_index_price_x96 == parameter.index_price_x96
            })
            &&& (!improve ==> final(price_state).liquidation_buffer_net_sizes@ == (if net0 + delta
                <= vs[9].size {
                old(price_state).liquidation_buffer_net_sizes@
            } else {
                old(price_state).liquidation_buffer_net_sizes@.update(
                    parameter.liquidation_vertex_index as int,
                    (old(price_state).liquidation_buffer_net_sizes@[parameter.liquidation_vertex_index as int]
                        + (net0 + delta - vs[9].size)) as u128,
                )
            }))
            &&& (improve ==> (improve_walk_result(
                vs,
                old(price_state).basis_index_price_x96,
                parameter.index_price_x96,
                parameter.side,
                net0,
                old(price_state).liquidation_buffer_net_sizes@,
                delta,
            ) matches Ok(iw) && (iw.3 == 0 ==> final(price_state).liquidation_buffer_net_sizes@
                == iw.2 && (forall|j: int|
                0 <= j < 10 ==> #[trigger] final(price_state).liquidation_buffer_net_sizes@[j]
                    <= old(price_state).liquidation_buffer_net_sizes@[j])) && (iw.3 > 0 ==> final(price_state).liquidation_buffer_net_sizes@ == (
            if iw.3 <= vs[9].size {
                iw.2
            } else {
                iw.2.update(parameter.liquidation_vertex_index as int, (iw.3 - vs[9].size) as u128)
            }))))
        },
{
    if parameter.size_delta == 0 {
        proof {
            reveal_with_fuel(update_price_trade_price, 1);
        }
        return Err(ErrorCode::InvalidOperation);
    }
    let balanced = global_position.net_size == 0 && global_position.liquidation_buffer_net_size
        == 0;
    let basis = if balanced {
        parameter.index_price_x96
    } else {
        price_state.basis_index_price_x96
    };
    let improve = parameter.side == global_position.side && !balanced;
    let walk = match _update_price_state(
        global_position,
        price_state,
        parameter,
        basis,
        improve,
    ) {
        Ok(w) => w,
        Err(e) => {
            proof {
                reveal_with_fuel(update_price_trade_price, 1);
                if !improve {
                    lemma_worsen_total_kinds(
                        price_state.price_vertices@,
                        basis,
                        parameter.index_price_x96,
                        parameter.side,
                        global_position.net_size as int,
                        parameter.size_delta as int,
                    );
                }
            }
            return Err(e);
        },
    };
    if improve && walk.size_left > 0 {
        // the trade crossed the balance point: re-base at the index price
        // and continue away from balance on the other side
        proof {
            assert forall|j: int| 0 <= j < 10 implies walk.buffers_after@[j] == 0 by {
                lemma_seq_sum_element(walk.buffers_after@, j);
            }
            lemma_upper_index_unique(old(price_state).price_vertices@, 0, 0);
        }
        let second = match worsen_walk(
            &price_state.price_vertices,
            &walk.buffers_after,
            0,
            0,
            0,
            parameter.side,
            walk.size_left,
            parameter.index_price_x96,
            parameter.index_price_x96,
            parameter.liquidation,
            parameter.liquidation_vertex_index,
        ) {
            Ok(w) => w,
            Err(e) => {
                proof {
                    reveal_with_fuel(update_price_trade_price, 1);
                    lemma_worsen_total_kinds(
                        price_state.price_vertices@,
                        parameter.index_price_x96,
                        parameter.index_price_x96,
                        parameter.side,
                        0,
                        walk.size_left as int,
                    );
                }
                return Err(e);
            },
        };
        let total = match walk.total_price_times_size.checked_add(
            second.total_price_times_size,
        ) {
            Some(v) => v,
            None => {
                proof {
                    reveal_with_fuel(update_price_trade_price, 1);
                }
                return Err(ErrorCode::Overflow);
            },
        };
        proof {
            lemma_avg_price_bounds(
                total as int,
                parameter.index_price_x96 as int,
                parameter.size_delta as int,
            );
        }
        let trade_price = if parameter.side {
            match crate::math::ceil_div(total, parameter.size_delta) {
                Ok(v) => v,
                Err(e) => {
                    return Err(e);
                },
            }
        } else {
            total / parameter.size_delta
        };
        proof {
            lemma_seq_sum_nonneg(second.buffers_after@);
        }
        global_position.net_size = second.net_after;
        global_position.side = !parameter.side;
        global_position.liquidation_buffer_net_size = second.buffer_used;
        price_state.premium_rate_x96 = second.premium_after;
        price_state.current_vertex_index = second.cvi_after;
        price_state.liquidation_buffer_net_sizes = second.buffers_after;
        price_state.basis_index_price_x96 = parameter.index_price_x96;
        proof {
            reveal_with_fuel(update_price_trade_price, 1);
            reveal_with_fuel(curve_commit, 1);
        }
        return Ok(trade_price);
    }
    proof {
        lemma_avg_price_bounds(
            walk.total_price_times_size as int,
            parameter.index_price_x96 as int,
            parameter.size_delta as int,
        );
    }
    let trade_price = if parameter.side {
        match crate::math::ceil_div(walk.total_price_times_size, parameter.size_delta) {
            Ok(v) => v,
            Err(e) => {
                return Err(e);
            },
        }
    } else {
        walk.total_price_times_size / parameter.size_delta
    };
    proof {
        reveal_with_fuel(update_price_trade_price, 1);
        reveal_with_fuel(curve_commit, 1);
    }
    if improve {
        let aggregate_after = global_position.liquidation_buffer_net_size - walk.buffer_used;
        proof {
            assert(update_price_trade_price(*old(global_position), *old(price_state), *parameter)
                == Ok::<u128, ErrorCode>(trade_price));
        }
        global_position.net_size = walk.net_after;
        global_position.liquidation_buffer_net_size = aggregate_after;
        price_state.premium_rate_x96 = walk.premium_after;
        price_state.current_vertex_index = walk.cvi_after;
        price_state.liquidation_buffer_net_sizes = walk.buffers_after;
        Ok(trade_price)
    } else {
        let aggregate_after = match global_position.liquidation_buffer_net_size.checked_add(
            walk.buffer_used,
        ) {
            Some(v) => v,
            None => {
                proof {
                    assert(update_price_trade_price(
                        *old(global_position),
                        *old(price_state),
                        *parameter,
                    ) == Err::<u128, ErrorCode>(ErrorCode::Overflow));
                }
                return Err(ErrorCode::Overflow);
            },
        };
        proof {
            assert(update_price_trade_price(*old(global_position), *old(price_state), *parameter)
                == Ok::<u128, ErrorCode>(trade_price));
        }
        global_position.net_size = walk.net_after;
        global_position.side = !parameter.side;
        global_position.liquidation_buffer_net_size = aggregate_after;
        price_state.premium_rate_x96 = walk.premium_after;
        price_state.current_vertex_index = walk.cvi_after;
        price_state.liquidation_buffer_net_sizes = walk.buffers_after;
        price_state.basis_index_price_x96 = basis;
        Ok(trade_price)
    }
}

/// The current market price: the index price discounted by the premium
/// applied to the basis price when the pool is net long, and marked up
/// when it is net short, with the rounding direction always against the
/// trader.
pub open spec fn market_price_result(
    global_side: bool,
    side: bool,
    index_price_x96: u128,
    basis_index_price_x96: u128,
    premium_rate_x96: u128,
) -> Result<u128, ErrorCode> {
    match mul_div2_result(basis_index_price_x96, premium_rate_x96, Q96) {
        Err(e) => Err(e),
        Ok(deltas) => if global_side {
            let rounded = if side {
                deltas.0
            } else {
                deltas.1
            };
            Ok(
                if index_price_x96 >= rounded {
                    (index_price_x96 - rounded) as u128
                } else {
                    0u128
                },
            )
        } else {
            let rounded = if side {
                deltas.1
            } else {
                deltas.0
            };
            if index_price_x96 + rounded > u128::MAX {
                Err(ErrorCode::Overflow)
            } else {
                Ok((index_price_x96 + rounded) as u128)
            }
        },
    }
}

/// Computes the market price implied by the current premium rate.
pub fn calculate_market_price_x96(
    global_side: bool,
    side: bool,
    index_price_x96: u128,
    basis_index_price_x96: u128,
    premium_rate_x96: u128,
) -> (r: Result<u128, ErrorCode>)
    ensures
        r == market_price_result(
            global_side,
            side,
            index_price_x96,
            basis_index_price_x96,
            premium_rate_x96,
        ),
{
    let (delta_down, delta_up) = match mul_div2(basis_index_price_x96, premium_rate_x96, Q96) {
        Ok(pair) => pair,
        Err(e) => {
            return Err(e);
        },
    };
    if global_side {
        let rounded = if side {
            delta_down
        } else {
            delta_up
        };
        if index_price_x96 >= rounded {
            Ok(index_price_x96 - rounded)
        } else {
            Ok(0)
        }
    } else {
        let rounded = if side {
            delta_up
        } else {
            delta_down
        };
        match index_price_x96.checked_add(rounded) {
            Some(v) => Ok(v),
            None => Err(ErrorCode::Overflow),
        }
    }
}

/// Curve continuity: a consistent curve state's vertex index and premium
/// rate are canonical functions of the pool's net size, so walking forward
/// through the vertices and then backward by the same cumulative size —
/// with no liquidation-buffer interaction, so the net size returns to its
/// starting value — returns `current_vertex_index` and `premium_rate_x96`
/// exactly to their original values.
pub proof fn lemma_curve_round_trip(
    gp_before: GlobalLiquidityPosition,
    ps_before: PriceState,
    gp_after: GlobalLiquidityPosition,
    ps_after: PriceState,
)
    requires
        price_state_wf(gp_before, ps_before),
        price_state_wf(gp_after, ps_after),
        ps_after.price_vertices@ == ps_before.price_vertices@,
        gp_after.net_size == gp_before.net_size,
    ensures
        ps_after.current_vertex_index == ps_before.current_vertex_index,
        ps_after.premium_rate_x96 == ps_before.premium_rate_x96,
{
}

} // verus!
