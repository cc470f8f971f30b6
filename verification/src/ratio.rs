//! Exact arithmetic on fractions, done by `num_rational`.

use num_rational::Ratio;
use vstd::prelude::*;

verus! {

/// Whether the fraction `a_numer / a_denom` is at least `b_numer / b_denom`,
/// stated by cross-multiplication over the integers.
pub open spec fn fraction_ge(a_numer: nat, a_denom: nat, b_numer: nat, b_denom: nat) -> bool {
    a_numer * b_denom >= b_numer * a_denom
}

/// Whether the fraction `a_numer / a_denom` is greater than `b_numer / b_denom`.
pub open spec fn fraction_gt(a_numer: nat, a_denom: nat, b_numer: nat, b_denom: nat) -> bool {
    a_numer * b_denom > b_numer * a_denom
}

/// `value` times the fraction `numer / denom`, rounded towards zero.
pub open spec fn scaled(value: nat, numer: nat, denom: nat) -> nat
    recommends
        denom != 0,
{
    value * numer / denom
}

/// Trusted: the body compares two `num_rational::Ratio<u64>` values with `>=`.
///
/// `Ratio` orders fractions by their exact rational value, also when they are
/// not in lowest terms, and never multiplies the operands, so no input
/// overflows. A zero denominator makes it divide by zero, hence the `requires`.
/// The contract claims that the answer is the one cross-multiplication gives
/// over unbounded integers.
#[verifier::external_body]
pub(crate) fn ratio_ge(a_numer: u64, a_denom: u64, b_numer: u64, b_denom: u64) -> (ge: bool)
    requires
        a_denom != 0,
        b_denom != 0,
    ensures
        ge == fraction_ge(a_numer as nat, a_denom as nat, b_numer as nat, b_denom as nat),
{
    Ratio::new_raw(a_numer, a_denom) >= Ratio::new_raw(b_numer, b_denom)
}

/// Trusted: the body multiplies a `num_rational::Ratio<u64>` by an integer and
/// takes the product's integer part with `Ratio::to_integer`.
///
/// The multiplication divides `value` and `denom` by their greatest common
/// divisor, multiplies `numer` by what is left of `value`, and reduces;
/// `to_integer` then divides, rounding towards zero. The `requires` keeps the
/// one multiplication within `u64` and the denominator away from zero. The
/// contract claims the result is the integer part of `value * numer / denom`.
#[verifier::external_body]
pub(crate) fn ratio_scale(value: u64, numer: u64, denom: u64) -> (product: u64)
    requires
        denom != 0,
        value * numer <= u64::MAX,
    ensures
        product as nat == scaled(value as nat, numer as nat, denom as nat),
{
    (Ratio::new_raw(numer, denom) * value).to_integer()
}

/// Whether `a_numer / a_denom > b_numer / b_denom`, exactly.
pub(crate) fn ratio_gt(a_numer: u64, a_denom: u64, b_numer: u64, b_denom: u64) -> (gt: bool)
    requires
        a_denom != 0,
        b_denom != 0,
    ensures
        gt == fraction_gt(a_numer as nat, a_denom as nat, b_numer as nat, b_denom as nat),
{
    !ratio_ge(b_numer, b_denom, a_numer, a_denom)
}

} // verus!
