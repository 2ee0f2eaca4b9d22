//! Size-dependent margin and asset-weight curves of the perp-market risk
//! engine: a `sqrt(size)`-proportional premium on liability weights and a
//! matching discount on asset weights.

use vstd::arithmetic::div_mod::lemma_div_is_ordered;
use vstd::prelude::*;

use crate::constants::{SPOT_IMF_PRECISION, SPOT_WEIGHT_PRECISION};
use crate::error::{DriftResult, ErrorCode};
use crate::math::{
    isqrt_u128, lemma_isqrt_is_floor_sqrt, lemma_isqrt_le, lemma_isqrt_monotonic, spec_isqrt,
    spec_max_u32, spec_min_u128,
};

verus! {

/// Which margin requirement is being computed: `Initial` gates opening a
/// position, `Maintenance` gates liquidation.
#[derive(Clone, Copy, Debug, PartialEq, Eq, Structural)]
pub enum MarginRequirementType {
    Initial,
    Maintenance,
}

/// The size-premium liability weight, where it is defined: the given
/// weight reduced to a floor of `weight - weight/5`, raised by a
/// `sqrt(size)`-proportional surplus, and never below the given weight.
pub open spec fn spec_size_premium_liability_weight(
    size: u128,
    imf_factor: u32,
    liability_weight: u32,
    precision: u128,
) -> Option<u32> {
    if imf_factor == 0 {
        Some(liability_weight)
    } else {
        match 100_000u128.checked_mul(SPOT_IMF_PRECISION) {
            None => None,
            Some(denom_scale) => match denom_scale.checked_div(precision) {
                None => None,
                Some(denom) => {
                    if denom == 0 {
                        None
                    } else {
                        let lw: u128 = liability_weight as u128;
                        let numer: u128 = (lw - lw / 5) as u128;
                        let size_sqrt: u128 = spec_isqrt((size / 1000 + 1) as nat) as u128;
                        match size_sqrt.checked_mul(imf_factor as u128) {
                            None => None,
                            Some(prod) => match numer.checked_add(prod / denom) {
                                None => None,
                                Some(premium) => {
                                    if premium > u32::MAX {
                                        None
                                    } else {
                                        Some(spec_max_u32(liability_weight, premium as u32))
                                    }
                                },
                            },
                        }
                    }
                },
            },
        }
    }
}

/// A liability weight that grows with position size: for a positive imf
/// factor the weight is `weight - weight/5 + sqrt(size/1000) * imf`,
/// rescaled by `precision`, and never below the configured weight.
pub fn calculate_size_premium_liability_weight(
    size: u128,
    imf_factor: u32,
    liability_weight: u32,
    precision: u128,
) -> (r: DriftResult<u32>)
    ensures
        r is Ok <==> spec_size_premium_liability_weight(size, imf_factor, liability_weight, precision)
            is Some,
        r is Ok ==> r->Ok_0 == spec_size_premium_liability_weight(
            size,
            imf_factor,
            liability_weight,
            precision,
        )->Some_0,
        r is Ok ==> r->Ok_0 >= liability_weight,
        r is Err ==> r->Err_0 == ErrorCode::MathError,
        imf_factor == 0 ==> r is Ok && r->Ok_0 == liability_weight,
{
    if imf_factor == 0 {
        return Ok(liability_weight);
    }

    let denom_scale = match 100_000u128.checked_mul(SPOT_IMF_PRECISION) {
        Some(d) => d,
        None => {
            return Err(ErrorCode::MathError);
        },
    };
    let denom = match denom_scale.checked_div(precision) {
        Some(d) => d,
        None => {
            return Err(ErrorCode::MathError);
        },
    };
    if denom == 0 {
        return Err(ErrorCode::MathError);
    }

    let size_sqrt = isqrt_u128(size / 1000 + 1);
    let lw: u128 = liability_weight as u128;
    proof {
        lemma_div_is_ordered(0, lw as int, 5);
        lemma_div_is_ordered(lw as int, u32::MAX as int, 5);
    }
    let numer: u128 = lw - lw / 5;

    let prod = match size_sqrt.checked_mul(imf_factor as u128) {
        Some(p) => p,
        None => {
            return Err(ErrorCode::MathError);
        },
    };
    let premium: u128 = match numer.checked_add(prod / denom) {
        Some(p) => p,
        None => {
            return Err(ErrorCode::MathError);
        },
    };
    if premium > u32::MAX as u128 {
        return Err(ErrorCode::MathError);
    }
    let premium_u32 = premium as u32;
    Ok(
        if liability_weight >= premium_u32 {
            liability_weight
        } else {
            premium_u32
        },
    )
}

/// The size-discounted asset weight, where it is defined: the given
/// weight capped by `1.1 / (1 + sqrt(size) * imf)` in weight-precision
/// units.
pub open spec fn spec_size_discount_asset_weight(
    size: u128,
    imf_factor: u32,
    asset_weight: u32,
) -> Option<u32> {
    if imf_factor == 0 {
        Some(asset_weight)
    } else {
        let size_sqrt: u128 = spec_isqrt((size / 1000 + 1) as nat) as u128;
        match size_sqrt.checked_mul(imf_factor as u128) {
            None => None,
            Some(prod) => {
                let denom: u128 = (SPOT_IMF_PRECISION + prod / 100_000) as u128;
                let imf_numerator: u128 = (SPOT_IMF_PRECISION + SPOT_IMF_PRECISION / 10) as u128;
                let discount: u128 = (imf_numerator * (SPOT_WEIGHT_PRECISION as u128)) as u128
                    / denom;
                Some(spec_min_u128(asset_weight as u128, discount) as u32)
            },
        }
    }
}

/// An asset weight that shrinks with size: for a positive imf factor the
/// configured weight is capped at `1.1 / (1 + sqrt(size/1000) * imf)` in
/// weight-precision units.
pub fn calculate_size_discount_asset_weight(
    size: u128,
    imf_factor: u32,
    asset_weight: u32,
) -> (r: DriftResult<u32>)
    ensures
        r is Ok <==> spec_size_discount_asset_weight(size, imf_factor, asset_weight) is Some,
        r is Ok ==> r->Ok_0 == spec_size_discount_asset_weight(size, imf_factor, asset_weight)->Some_0,
        r is Ok ==> r->Ok_0 <= asset_weight,
        r is Err ==> r->Err_0 == ErrorCode::MathError,
        imf_factor == 0 ==> r is Ok && r->Ok_0 == asset_weight,
{
    if imf_factor == 0 {
        return Ok(asset_weight);
    }

    let size_sqrt = isqrt_u128(size / 1000 + 1);
    let prod = match size_sqrt.checked_mul(imf_factor as u128) {
        Some(p) => p,
        None => {
            return Err(ErrorCode::MathError);
        },
    };
    proof {
        lemma_div_is_ordered(prod as int, u128::MAX as int, 100_000);
    }
    let denom: u128 = SPOT_IMF_PRECISION + prod / 100_000;
    let imf_numerator: u128 = SPOT_IMF_PRECISION + SPOT_IMF_PRECISION / 10;
    let discount: u128 = imf_numerator * (SPOT_WEIGHT_PRECISION as u128) / denom;
    let weight: u128 = if (asset_weight as u128) <= discount {
        asset_weight as u128
    } else {
        discount
    };
    assert(weight <= u32::MAX);
    Ok(weight as u32)
}

/// The size premium grows (weakly) with position size: for the same
/// configuration, a larger position is never charged a smaller
/// liability weight.
pub proof fn lemma_size_premium_monotonic_in_size(
    size1: u128,
    size2: u128,
    imf_factor: u32,
    liability_weight: u32,
    precision: u128,
)
    requires
        size1 <= size2,
        spec_size_premium_liability_weight(size1, imf_factor, liability_weight, precision) is Some,
        spec_size_premium_liability_weight(size2, imf_factor, liability_weight, precision) is Some,
    ensures
        spec_size_premium_liability_weight(size1, imf_factor, liability_weight, precision)->Some_0
            <= spec_size_premium_liability_weight(
            size2,
            imf_factor,
            liability_weight,
            precision,
        )->Some_0,
{
    if imf_factor == 0 {
    } else {
        let n1 = (size1 / 1000 + 1) as nat;
        let n2 = (size2 / 1000 + 1) as nat;
        lemma_div_is_ordered(size1 as int, size2 as int, 1000);
        lemma_isqrt_monotonic(n1, n2);
        lemma_isqrt_le(n1);
        lemma_isqrt_le(n2);
        let s1 = spec_isqrt(n1) as u128;
        let s2 = spec_isqrt(n2) as u128;
        lemma_isqrt_is_floor_sqrt(n1);
        lemma_isqrt_is_floor_sqrt(n2);
        assert(s1 * (imf_factor as u128) <= s2 * (imf_factor as u128)) by (nonlinear_arith)
            requires
                s1 <= s2,
                imf_factor >= 0,
        ;
        let denom = (100_000u128 * SPOT_IMF_PRECISION) as u128 / precision;
        let p1 = (s1 * (imf_factor as u128)) as u128;
        let p2 = (s2 * (imf_factor as u128)) as u128;
        lemma_div_is_ordered(p1 as int, p2 as int, denom as int);
    }
}

} // verus!
