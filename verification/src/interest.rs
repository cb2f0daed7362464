//! Simple interest at a fixed yearly rate, in integers throughout.
//!
//! A rate is a number of billionths per year: a rate of `RATE_SCALE` doubles
//! the principal in `SECONDS_PER_YEAR` seconds. Interest is rounded down once,
//! at the end.

use vstd::prelude::*;
use vstd::arithmetic::div_mod::lemma_div_is_ordered;
use crate::error::PoolError;
use crate::fixed_point::{mul_div, mul_div_floor};

verus! {

/// The value that stands for a rate or ratio of one.
pub const RATE_SCALE: u64 = 1_000_000_000;

pub const SECONDS_PER_YEAR: u64 = 31_556_926;

/// What a debt costs per year: a tenth of the principal.
pub const BORROW_RATE: u64 = 100_000_000;

/// What a deposit earns per year: a twentieth of the principal.
pub const DEPOSIT_RATE: u64 = 50_000_000;

/// `principal * rate * elapsed / (RATE_SCALE * SECONDS_PER_YEAR)`, rounded
/// down.
pub open spec fn accrued(principal: nat, elapsed: nat, rate: nat) -> nat {
    mul_div_floor(principal, rate * elapsed, RATE_SCALE as nat * SECONDS_PER_YEAR as nat)
}

/// Interest owed on a debt of `principal` after `elapsed` seconds.
pub open spec fn debt_interest(principal: nat, elapsed: nat) -> nat {
    accrued(principal, elapsed, BORROW_RATE as nat)
}

/// What a deposit of `principal` is worth after `elapsed` seconds.
pub open spec fn withdrawal_amount(principal: nat, elapsed: nat) -> nat {
    principal + accrued(principal, elapsed, DEPOSIT_RATE as nat)
}

/// The seconds from `reference` to `now`; a reference in the future is an
/// error.
pub fn get_timestamp_diff(reference: u64, now: u64) -> (diff: Result<u64, PoolError>)
    ensures
        match diff {
            Ok(elapsed) => reference <= now && elapsed == now - reference,
            Err(e) => reference > now && e == PoolError::InvalidTimeRange,
        },
{
    if reference > now {
        Err(PoolError::InvalidTimeRange)
    } else {
        Ok(now - reference)
    }
}

/// Interest on `principal` over `elapsed` seconds at `rate`: the exact value
/// where it fits in 128 bits, `None` where it does not.
pub fn accrued_interest(principal: u128, elapsed: u64, rate: u64) -> (interest: Option<u128>)
    ensures
        match interest {
            Some(v) => v == accrued(principal as nat, elapsed as nat, rate as nat),
            None => accrued(principal as nat, elapsed as nat, rate as nat) > u128::MAX,
        },
{
    assert(rate * elapsed <= 0xffff_ffff_ffff_ffff * 0xffff_ffff_ffff_ffff) by (nonlinear_arith)
        requires
            0 <= rate <= 0xffff_ffff_ffff_ffff,
            0 <= elapsed <= 0xffff_ffff_ffff_ffff,
    ;
    let weight: u128 = (rate as u128) * (elapsed as u128);
    assert(RATE_SCALE * SECONDS_PER_YEAR == 31_556_926_000_000_000) by (nonlinear_arith)
        requires
            RATE_SCALE == 1_000_000_000,
            SECONDS_PER_YEAR == 31_556_926,
    ;
    let year: u128 = (RATE_SCALE as u128) * (SECONDS_PER_YEAR as u128);
    mul_div(principal, weight, year)
}

/// Interest owed on a debt: `accrued_interest` at the borrow rate.
pub fn compute_debt(principal: u128, elapsed: u64) -> (interest: Option<u128>)
    ensures
        match interest {
            Some(v) => v == debt_interest(principal as nat, elapsed as nat),
            None => debt_interest(principal as nat, elapsed as nat) > u128::MAX,
        },
{
    accrued_interest(principal, elapsed, BORROW_RATE)
}

/// The worth of a deposit: principal plus `accrued_interest` at the deposit
/// rate, or `None` where that exceeds 128 bits.
pub fn compute_withdrawal_amount(principal: u128, elapsed: u64) -> (amount: Option<u128>)
    ensures
        match amount {
            Some(v) => v == withdrawal_amount(principal as nat, elapsed as nat),
            None => withdrawal_amount(principal as nat, elapsed as nat) > u128::MAX,
        },
{
    match accrued_interest(principal, elapsed, DEPOSIT_RATE) {
        None => None,
        Some(interest) => principal.checked_add(interest),
    }
}

/// Interest never shrinks as time passes.
pub proof fn lemma_accrued_monotonic(principal: nat, earlier: nat, later: nat, rate: nat)
    requires
        earlier <= later,
    ensures
        accrued(principal, earlier, rate) <= accrued(principal, later, rate),
{
    assert(principal * (rate * earlier) <= principal * (rate * later)) by (nonlinear_arith)
        requires
            earlier <= later,
    ;
    lemma_div_is_ordered(
        (principal * (rate * earlier)) as int,
        (principal * (rate * later)) as int,
        (RATE_SCALE as nat * SECONDS_PER_YEAR as nat) as int,
    );
}

/// No time, no interest; and nothing accrues on nothing.
pub proof fn lemma_accrued_zero(principal: nat, elapsed: nat, rate: nat)
    ensures
        accrued(principal, 0, rate) == 0,
        accrued(0, elapsed, rate) == 0,
{
    assert(principal * (rate * 0) == 0) by (nonlinear_arith);
    assert(0 * (rate * elapsed) == 0) by (nonlinear_arith);
}

/// A deposit is worth at least its principal, and more the longer it stays.
pub proof fn lemma_withdrawal_monotonic(principal: nat, earlier: nat, later: nat)
    requires
        earlier <= later,
    ensures
        principal <= withdrawal_amount(principal, earlier) <= withdrawal_amount(principal, later),
{
    lemma_accrued_monotonic(principal, earlier, later, DEPOSIT_RATE as nat);
}

} // verus!
