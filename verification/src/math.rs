//! Checked fixed-point arithmetic helpers: the floor-exact integer square
//! root used by the risk curves, and the time-decayed rolling sum used by
//! the 24h volume counters.

use vstd::prelude::*;

use crate::error::{DriftResult, ErrorCode};

verus! {

/// The larger of two ratios.
pub open spec fn spec_max_u32(a: u32, b: u32) -> u32 {
    if a >= b {
        a
    } else {
        b
    }
}

/// The smaller of two amounts.
pub open spec fn spec_min_u128(a: u128, b: u128) -> u128 {
    if a <= b {
        a
    } else {
        b
    }
}

/// The magnitude of `x` as an unsigned value.
pub open spec fn abs_i128(x: i128) -> u128 {
    if x >= 0 {
        x as u128
    } else {
        (-(x as int)) as u128
    }
}

/// `r` is the floor of the square root of `n`.
pub open spec fn is_floor_sqrt(n: nat, r: nat) -> bool {
    r * r <= n && (r + 1) * (r + 1) > n
}

/// The floor of the square root of `n`.
pub open spec fn spec_isqrt(n: nat) -> nat {
    choose|r: nat| is_floor_sqrt(n, r)
}

/// Every natural number has a floor square root.
pub proof fn lemma_floor_sqrt_exists(n: nat)
    ensures
        exists|r: nat| is_floor_sqrt(n, r),
    decreases n,
{
    if n == 0 {
        assert((0 as nat) * (0 as nat) <= 0 && ((0 + 1) as nat) * ((0 + 1) as nat) > 0)
            by (nonlinear_arith);
        assert(is_floor_sqrt(0, 0));
    } else {
        let m = (n - 1) as nat;
        lemma_floor_sqrt_exists(m);
        let r = choose|r: nat| #[trigger] is_floor_sqrt(m, r);
        assert(is_floor_sqrt(m, r));
        if (r + 1) * (r + 1) <= n {
            assert((r + 2) * (r + 2) > n) by (nonlinear_arith)
                requires
                    n <= (r + 1) * (r + 1),
            ;
            assert(is_floor_sqrt(n, r + 1));
        } else {
            assert(is_floor_sqrt(n, r));
        }
    }
}

/// The floor square root of `n` satisfies its defining property.
pub proof fn lemma_isqrt_is_floor_sqrt(n: nat)
    ensures
        is_floor_sqrt(n, spec_isqrt(n)),
{
    lemma_floor_sqrt_exists(n);
    let r = choose|r: nat| #[trigger] is_floor_sqrt(n, r);
    assert(is_floor_sqrt(n, r));
}

/// Any two floors of the square root of `n` coincide.
proof fn lemma_floor_sqrt_unique(n: nat, r1: nat, r2: nat)
    requires
        is_floor_sqrt(n, r1),
        is_floor_sqrt(n, r2),
    ensures
        r1 == r2,
{
    assert(r1 * r1 <= n && n < (r2 + 1) * (r2 + 1));
    assert(r2 * r2 <= n && n < (r1 + 1) * (r1 + 1));
    assert(r1 < r2 + 1 && r2 < r1 + 1) by (nonlinear_arith)
        requires
            r1 * r1 < (r2 + 1) * (r2 + 1),
            r2 * r2 < (r1 + 1) * (r1 + 1),
    ;
}

/// The square root never exceeds its argument.
pub proof fn lemma_isqrt_le(n: nat)
    ensures
        spec_isqrt(n) <= n,
{
    lemma_isqrt_is_floor_sqrt(n);
    let r = spec_isqrt(n);
    if r >= 1 {
        assert(r <= r * r) by (nonlinear_arith)
            requires
                r >= 1,
        ;
    }
}

/// The square root is non-decreasing.
pub proof fn lemma_isqrt_monotonic(n1: nat, n2: nat)
    requires
        n1 <= n2,
    ensures
        spec_isqrt(n1) <= spec_isqrt(n2),
{
    lemma_isqrt_is_floor_sqrt(n1);
    lemma_isqrt_is_floor_sqrt(n2);
    let r1 = spec_isqrt(n1);
    let r2 = spec_isqrt(n2);
    assert(r1 < r2 + 1) by (nonlinear_arith)
        requires
            r1 * r1 < (r2 + 1) * (r2 + 1),
    ;
}

/// Floor-exact integer square root (no floating point), so that risk
/// curves are bit-reproducible across independent evaluators.
pub fn isqrt_u128(n: u128) -> (r: u128)
    ensures
        r * r <= n < (r + 1) * (r + 1),
        r == spec_isqrt(n as nat),
{
    let mut lo: u128 = 0;
    let mut hi: u128 = 0x1_0000_0000_0000_0000;
    assert(hi * hi > n);
    while lo + 1 < hi
        invariant
            lo < hi <= 0x1_0000_0000_0000_0000,
            lo * lo <= n,
            hi * hi > n,
        decreases hi - lo,
    {
        let mid: u128 = lo + (hi - lo) / 2;
        assert(lo < mid < hi);
        assert(mid * mid <= u128::MAX) by (nonlinear_arith)
            requires
                mid < 0x1_0000_0000_0000_0000,
        ;
        if mid * mid <= n {
            lo = mid;
        } else {
            hi = mid;
        }
    }
    proof {
        assert(is_floor_sqrt(n as nat, lo as nat));
        lemma_floor_sqrt_unique(n as nat, lo as nat, spec_isqrt(n as nat));
    }
    lo
}

/// What `calculate_rolling_sum` returns: `old * max(0, denom - numer) /
/// denom + delta`, or nothing where a checked step fails.
pub open spec fn spec_rolling_sum(data1: u64, data2: u64, numer: i128, denom: i128) -> Option<
    u64,
> {
    if denom - numer > i128::MAX {
        None
    } else {
        let w: int = if denom - numer > 0 {
            denom - numer
        } else {
            0
        };
        if data1 * w > i128::MAX {
            None
        } else {
            let prev: int = (data1 * w) / (denom as int);
            if prev + data2 > u64::MAX {
                None
            } else {
                Some((prev + data2) as u64)
            }
        }
    }
}

/// Time-decayed rolling sum over a window: `new = old * max(0, 1 -
/// elapsed/window) + delta`, all in checked integer arithmetic.
pub fn calculate_rolling_sum(
    data1: u64,
    data2: u64,
    weight1_numer: i128,
    weight1_denom: i128,
) -> (r: DriftResult<u64>)
    requires
        weight1_denom > 0,
    ensures
        r is Ok <==> spec_rolling_sum(data1, data2, weight1_numer, weight1_denom) is Some,
        r is Ok ==> r->Ok_0 == spec_rolling_sum(data1, data2, weight1_numer, weight1_denom)->Some_0,
        r is Err ==> r->Err_0 == ErrorCode::MathError,
        // full decay: at or past the window's edge only the new delta remains
        weight1_numer >= weight1_denom && r is Ok ==> r->Ok_0 == data2,
{
    let diff = match weight1_denom.checked_sub(weight1_numer) {
        Some(d) => d,
        None => {
            return Err(ErrorCode::MathError);
        },
    };
    let w: i128 = if diff > 0 {
        diff
    } else {
        0
    };
    let prod = match (data1 as i128).checked_mul(w) {
        Some(p) => p,
        None => {
            return Err(ErrorCode::MathError);
        },
    };
    let prev = match prod.checked_div(weight1_denom) {
        Some(q) => q,
        None => {
            return Err(ErrorCode::MathError);
        },
    };
    proof {
        assert(prod >= 0);
        assert(prev == prod as int / weight1_denom as int);
        assert(prev >= 0) by (nonlinear_arith)
            requires
                prev == prod as int / weight1_denom as int,
                prod >= 0,
                weight1_denom > 0,
        ;
    }
    let sum = match prev.checked_add(data2 as i128) {
        Some(s) => s,
        None => {
            return Err(ErrorCode::MathError);
        },
    };
    if sum > u64::MAX as i128 {
        return Err(ErrorCode::MathError);
    }
    Ok(sum as u64)
}

} // verus!
