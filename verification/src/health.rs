//! The solvency indicator of the pool: its asset reserve per unit borrowed.

use vstd::prelude::*;
use crate::fixed_point::{mul_div, mul_div_floor};
use crate::interest::RATE_SCALE;

verus! {

/// Reserve over total borrowed, scaled by `RATE_SCALE` and rounded down,
/// capped at the largest 128-bit value. With nothing borrowed it is that
/// largest value.
pub open spec fn health_factor_of(reserves: nat, borrowed: nat) -> nat {
    if borrowed == 0 {
        u128::MAX as nat
    } else {
        let ratio = mul_div_floor(reserves, RATE_SCALE as nat, borrowed);
        if ratio > u128::MAX {
            u128::MAX as nat
        } else {
            ratio
        }
    }
}

pub fn compute_health_factor(reserves: u128, borrowed: u128) -> (factor: u128)
    ensures
        factor == health_factor_of(reserves as nat, borrowed as nat),
{
    if borrowed == 0 {
        return u128::MAX;
    }
    match mul_div(reserves, RATE_SCALE as u128, borrowed) {
        Some(ratio) => ratio,
        None => u128::MAX,
    }
}

} // verus!
