//! Small arithmetic helpers shared by the controller and the scheduler:
//! clamping and an integer square root used by the adaptive safety margin.

use vstd::prelude::*;

verus! {

/// Clamps `x` into the closed interval `[lo, hi]`.
pub fn clamp_i64(x: i64, lo: i64, hi: i64) -> (r: i64)
    requires
        lo <= hi,
    ensures
        r == clamp_spec(x as int, lo as int, hi as int),
{
    if x < lo {
        lo
    } else if x > hi {
        hi
    } else {
        x
    }
}

pub open spec fn clamp_spec(x: int, lo: int, hi: int) -> int {
    if x < lo {
        lo
    } else if x > hi {
        hi
    } else {
        x
    }
}

pub open spec fn is_isqrt(x: nat, r: nat) -> bool {
    r * r <= x < (r + 1) * (r + 1)
}

/// The integer square root of `x`: the unique `r` with
/// `r * r <= x < (r + 1) * (r + 1)`.
pub closed spec fn isqrt_spec(x: nat) -> nat {
    choose|r: nat| is_isqrt(x, r)
}

pub proof fn lemma_isqrt_unique(x: nat, r1: nat, r2: nat)
    requires
        is_isqrt(x, r1),
        is_isqrt(x, r2),
    ensures
        r1 == r2,
{
    if r1 < r2 {
        assert((r1 + 1) * (r1 + 1) <= r2 * r2) by (nonlinear_arith)
            requires
                r1 + 1 <= r2,
        ;
    }
    if r2 < r1 {
        assert((r2 + 1) * (r2 + 1) <= r1 * r1) by (nonlinear_arith)
            requires
                r2 + 1 <= r1,
        ;
    }
}

pub proof fn lemma_isqrt_is(x: nat, r: nat)
    requires
        is_isqrt(x, r),
    ensures
        isqrt_spec(x) == r,
{
    assert(is_isqrt(x, isqrt_spec(x))) by {
        assert(exists|q: nat| is_isqrt(x, q)) by {
            assert(is_isqrt(x, r));
        }
    }
    lemma_isqrt_unique(x, r, isqrt_spec(x));
}

/// The integer square root: the largest `r` with `r * r <= x`.
pub fn isqrt_u64(x: u64) -> (r: u64)
    ensures
        r * r <= x < (r + 1) * (r + 1),
        r == isqrt_spec(x as nat),
{
    let mut lo: u64 = 0;
    let mut hi: u64 = 0xffff_ffff;
    if x < 0xffff_fffe_0000_0001 {
        while lo < hi
            invariant
                lo <= hi <= 0xffff_ffff,
                lo * lo <= x,
                x < (hi + 1) * (hi + 1),
            decreases hi - lo,
        {
            let mid: u64 = lo + (hi - lo + 1) / 2;
            assert(lo < mid <= hi);
            proof {
                vstd::arithmetic::div_mod::lemma_fundamental_div_mod(x as int, mid as int);
            }
            if mid <= x / mid {
                assert(mid * mid <= x) by (nonlinear_arith)
                    requires
                        mid > 0,
                        mid <= x / mid,
                        x / mid * mid + x % mid == x,
                        0 <= x % mid < mid,
                ;
                lo = mid;
            } else {
                assert(x < mid * mid) by (nonlinear_arith)
                    requires
                        mid > 0,
                        mid > x / mid,
                        x / mid * mid + x % mid == x,
                        0 <= x % mid < mid,
                ;
                hi = mid - 1;
            }
        }
        proof {
            lemma_isqrt_is(x as nat, lo as nat);
        }
        lo
    } else {
        assert(0xffff_ffffu64 * 0xffff_ffffu64 == 0xffff_fffe_0000_0001) by (nonlinear_arith);
        proof {
            lemma_isqrt_is(x as nat, 0xffff_ffff as nat);
        }
        0xffff_ffff
    }
}

} // verus!
