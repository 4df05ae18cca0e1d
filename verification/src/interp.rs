//! Linear interpolation over a breakpoint table: a shared time axis and a
//! per-mode value axis. Inputs at or below the first breakpoint give the
//! first value, inputs at or beyond the last give the last, and inputs in
//! between are interpolated linearly, rounding the interpolated offset
//! toward zero.

use vstd::arithmetic::div_mod::{
    lemma_div_is_ordered,
    lemma_div_multiples_vanish,
    lemma_div_pos_is_pos,
};
use vstd::arithmetic::mul::{lemma_mul_inequality, lemma_mul_nonnegative};
use vstd::prelude::*;

verus! {

/// Breakpoint times stay below this bound, so the interpolation products
/// fit comfortably in `i64`.
pub const MAX_BREAKPOINT_TIME_MS: u64 = 1_000_000_000;

/// Breakpoint values stay within this magnitude.
pub const MAX_BREAKPOINT_VALUE: i64 = 1_000_000;

/// The interpolated value on the single segment from `(x0, y0)` to
/// `(x1, y1)` at `x0 <= t < x1`, the offset rounded toward zero.
pub open spec fn segment_spec(x0: int, x1: int, y0: int, y1: int, t: int) -> int {
    if y1 >= y0 {
        y0 + (y1 - y0) * (t - x0) / (x1 - x0)
    } else {
        y0 - (y0 - y1) * (t - x0) / (x1 - x0)
    }
}

/// The interpolated value over the whole breakpoint table.
pub open spec fn interpolate_spec(xs: Seq<u64>, ys: Seq<i64>, t: u64) -> int
    decreases xs.len(),
{
    if xs.len() == 0 {
        0
    } else if xs.len() == 1 || t <= xs[0] {
        ys[0] as int
    } else if t >= xs[1] {
        interpolate_spec(xs.skip(1), ys.skip(1), t)
    } else {
        segment_spec(xs[0] as int, xs[1] as int, ys[0] as int, ys[1] as int, t as int)
    }
}

/// A well-formed breakpoint table: as many values as times, a strictly
/// increasing time axis, and both axes within the interpolation bounds.
pub open spec fn table_wf(xs: Seq<u64>, ys: Seq<i64>) -> bool {
    &&& xs.len() == ys.len()
    &&& xs.len() >= 1
    &&& forall|i: int, j: int| 0 <= i < j < xs.len() ==> #[trigger] xs[i] < #[trigger] xs[j]
    &&& forall|i: int| 0 <= i < xs.len() ==> #[trigger] xs[i] <= MAX_BREAKPOINT_TIME_MS
    &&& forall|i: int|
        0 <= i < ys.len() ==> -MAX_BREAKPOINT_VALUE <= #[trigger] ys[i] <= MAX_BREAKPOINT_VALUE
}

proof fn lemma_segment_bounded(x0: int, x1: int, y0: int, y1: int, t: int)
    requires
        x0 <= t < x1,
    ensures
        y0 <= y1 ==> y0 <= segment_spec(x0, x1, y0, y1, t) <= y1,
        y1 <= y0 ==> y1 <= segment_spec(x0, x1, y0, y1, t) <= y0,
{
    let dx = x1 - x0;
    let dt = t - x0;
    if y1 >= y0 {
        let diff = y1 - y0;
        lemma_mul_nonnegative(diff, dt);
        lemma_div_pos_is_pos(diff * dt, dx);
        lemma_mul_inequality(dt, dx, diff);
        assert(dt * diff == diff * dt) by (nonlinear_arith);
        assert(dx * diff == diff * dx) by (nonlinear_arith);
        lemma_div_is_ordered(diff * dt, diff * dx, dx);
        lemma_div_multiples_vanish(diff, dx);
    } else {
        let diff = y0 - y1;
        lemma_mul_nonnegative(diff, dt);
        lemma_div_pos_is_pos(diff * dt, dx);
        lemma_mul_inequality(dt, dx, diff);
        assert(dt * diff == diff * dt) by (nonlinear_arith);
        assert(dx * diff == diff * dx) by (nonlinear_arith);
        lemma_div_is_ordered(diff * dt, diff * dx, dx);
        lemma_div_multiples_vanish(diff, dx);
    }
}

/// Looks `t` up in the breakpoint table `(xs, ys)` by linear interpolation.
pub fn interpolate(xs: &[u64], ys: &[i64], t: u64) -> (r: i64)
    requires
        table_wf(xs@, ys@),
    ensures
        r == interpolate_spec(xs@, ys@, t),
        -MAX_BREAKPOINT_VALUE <= r <= MAX_BREAKPOINT_VALUE,
{
    let n = xs.len();
    proof {
        assert(xs@.skip(0) =~= xs@);
        assert(ys@.skip(0) =~= ys@);
    }
    let mut i: usize = 0;
    while i + 1 < n && t >= xs[i + 1]
        invariant
            table_wf(xs@, ys@),
            n == xs.len(),
            i < n,
            interpolate_spec(xs@.skip(i as int), ys@.skip(i as int), t) == interpolate_spec(
                xs@,
                ys@,
                t,
            ),
            i > 0 ==> t >= xs@[i as int],
        decreases n - i,
    {
        proof {
            assert(xs@.skip(i as int).skip(1) =~= xs@.skip(i as int + 1));
            assert(ys@.skip(i as int).skip(1) =~= ys@.skip(i as int + 1));
        }
        i = i + 1;
    }
    if i + 1 == n || t <= xs[i] {
        ys[i]
    } else {
        let x0 = xs[i];
        let x1 = xs[i + 1];
        let y0 = ys[i];
        let y1 = ys[i + 1];
        let dx = (x1 - x0) as i64;
        let dt = (t - x0) as i64;
        proof {
            lemma_segment_bounded(x0 as int, x1 as int, y0 as int, y1 as int, t as int);
        }
        if y1 >= y0 {
            proof {
                assert(0 <= (y1 - y0) as int * (dt as int) <= 2_000_000_000_000_000)
                    by (nonlinear_arith)
                    requires
                        0 <= (y1 - y0) as int <= 2_000_000,
                        0 <= dt as int <= 1_000_000_000,
                ;
                lemma_mul_nonnegative((y1 - y0) as int, dt as int);
                lemma_mul_inequality(dt as int, dx as int, (y1 - y0) as int);
                assert(dt as int * ((y1 - y0) as int) == (y1 - y0) as int * (dt as int))
                    by (nonlinear_arith);
                assert(dx as int * ((y1 - y0) as int) == (y1 - y0) as int * (dx as int))
                    by (nonlinear_arith);
            }
            y0 + (y1 - y0) * dt / dx
        } else {
            proof {
                assert(0 <= (y0 - y1) as int * (dt as int) <= 2_000_000_000_000_000)
                    by (nonlinear_arith)
                    requires
                        0 <= (y0 - y1) as int <= 2_000_000,
                        0 <= dt as int <= 1_000_000_000,
                ;
                lemma_mul_nonnegative((y0 - y1) as int, dt as int);
                lemma_mul_inequality(dt as int, dx as int, (y0 - y1) as int);
                assert(dt as int * ((y0 - y1) as int) == (y0 - y1) as int * (dt as int))
                    by (nonlinear_arith);
                assert(dx as int * ((y0 - y1) as int) == (y0 - y1) as int * (dx as int))
                    by (nonlinear_arith);
            }
            y0 - (y0 - y1) * dt / dx
        }
    }
}

} // verus!
