//! Amount arithmetic.

use cosmwasm_std::Uint128;
use vstd::prelude::*;

verus! {

/// `floor(amount * numerator / denominator)`, over the integers.
pub open spec fn ratio_of(amount: nat, numerator: nat, denominator: nat) -> nat
    recommends
        denominator > 0,
{
    (amount * numerator) / denominator
}

/// Calls `cosmwasm_std::Uint128::multiply_ratio`, which multiplies into a
/// 256-bit product before it divides. Not proved here: that the quotient it
/// returns is the floor of `amount * numerator / denominator`. The outside
/// function panics on a zero denominator and on a quotient above `u128::MAX`;
/// both are excluded.
#[verifier::external_body]
pub(crate) fn multiply_ratio(amount: u128, numerator: u64, denominator: u64) -> (r: u128)
    requires
        denominator > 0,
        ratio_of(amount as nat, numerator as nat, denominator as nat) <= u128::MAX,
    ensures
        r == ratio_of(amount as nat, numerator as nat, denominator as nat),
{
    Uint128::new(amount).multiply_ratio(numerator, denominator).u128()
}

} // verus!
