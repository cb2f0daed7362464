//! The pool as a mathematical value, and what each operation does to it.
//!
//! For every operation there are three functions: `*_refusal` names the first
//! check that fails, if any; `*_applied` is the state after an accepted call;
//! `*_next` is the state after any call, which is the unchanged state where
//! the call is refused.

use vstd::prelude::*;
use crate::bytes::{be_digits, be_fixed};
use crate::error::PoolError;
use crate::health::health_factor_of;
use crate::interest::{debt_interest, withdrawal_amount};
use crate::registry::liquidated;
use crate::types::{
    all_zero, DebtMetadataView, DebtPositionView, InterestMetadata, RepayPositionView,
};

verus! {

#[verifier::ext_equal]
pub struct PoolState {
    /// The one token that the pool lends and takes deposits in.
    pub pool_asset: Seq<u8>,
    /// The token of the deposit receipts.
    pub lend_token: Seq<u8>,
    /// The token of the debt obligations.
    pub borrow_token: Seq<u8>,
    /// Positions with a health factor below this may be liquidated.
    pub health_factor_threshold: nat,
    /// The sum of everything ever borrowed.
    pub total_borrow: nat,
    /// The pool's own balance of every token.
    pub reserves: Map<Seq<u8>, nat>,
    pub debt_positions: Map<Seq<u8>, DebtPositionView>,
    pub repay_positions: Map<Seq<u8>, RepayPositionView>,
}

impl PoolState {
    pub open spec fn reserve(self, token: Seq<u8>) -> nat {
        self.reserves[token]
    }

    /// A pool that holds nothing and has lent nothing.
    pub open spec fn initial(
        pool_asset: Seq<u8>,
        lend_token: Seq<u8>,
        borrow_token: Seq<u8>,
        health_factor_threshold: nat,
    ) -> PoolState {
        PoolState {
            pool_asset,
            lend_token,
            borrow_token,
            health_factor_threshold,
            total_borrow: 0,
            reserves: Map::total(|token: Seq<u8>| 0nat),
            debt_positions: Map::empty(),
            repay_positions: Map::empty(),
        }
    }
}

// Deposit

pub open spec fn deposit_refusal(s: PoolState, asset: Seq<u8>, amount: nat) -> Option<PoolError> {
    if asset != s.pool_asset {
        Some(PoolError::UnsupportedAsset)
    } else if s.reserve(s.pool_asset) + amount > u128::MAX {
        Some(PoolError::AmountOverflow)
    } else {
        None
    }
}

pub open spec fn deposit_applied(s: PoolState, amount: nat) -> PoolState {
    PoolState { reserves: s.reserves.insert(s.pool_asset, s.reserve(s.pool_asset) + amount), ..s }
}

pub open spec fn deposit_next(s: PoolState, asset: Seq<u8>, amount: nat) -> PoolState {
    if deposit_refusal(s, asset, amount) is Some {
        s
    } else {
        deposit_applied(s, amount)
    }
}

// Borrow

pub open spec fn borrow_refusal(s: PoolState, caller: Seq<u8>, collateral_amount: nat) -> Option<
    PoolError,
> {
    if collateral_amount == 0 {
        Some(PoolError::InvalidAmount)
    } else if all_zero(caller) {
        Some(PoolError::InvalidAddress)
    } else if s.reserve(s.pool_asset) == 0 {
        Some(PoolError::EmptyReserve)
    } else if collateral_amount > s.reserve(s.pool_asset) {
        Some(PoolError::InsufficientFunds)
    } else if s.reserve(s.borrow_token) + collateral_amount > u128::MAX || s.total_borrow
        + collateral_amount > u128::MAX {
        Some(PoolError::AmountOverflow)
    } else {
        None
    }
}

/// The position that a borrow of `collateral_amount` at `now` files.
pub open spec fn borrowed_position(
    s: PoolState,
    collateral_id: Seq<u8>,
    collateral_amount: nat,
    now: nat,
) -> DebtPositionView {
    DebtPositionView {
        size: collateral_amount,
        health_factor: health_factor_of(
            (s.reserve(s.pool_asset) - collateral_amount) as nat,
            s.total_borrow + collateral_amount,
        ),
        is_liquidated: false,
        timestamp: now,
        collateral_amount,
        collateral_identifier: collateral_id,
    }
}

/// The debt token's reserve is written first and the asset's last, so where
/// one token serves as both, the asset's new balance stands.
pub open spec fn borrow_applied(
    s: PoolState,
    collateral_id: Seq<u8>,
    collateral_amount: nat,
    now: nat,
    position_id: Seq<u8>,
) -> PoolState {
    PoolState {
        total_borrow: s.total_borrow + collateral_amount,
        reserves: s.reserves.insert(
            s.borrow_token,
            s.reserve(s.borrow_token) + collateral_amount,
        ).insert(s.pool_asset, (s.reserve(s.pool_asset) - collateral_amount) as nat),
        debt_positions: s.debt_positions.insert(
            position_id,
            borrowed_position(s, collateral_id, collateral_amount, now),
        ),
        ..s
    }
}

pub open spec fn borrow_next(
    s: PoolState,
    caller: Seq<u8>,
    collateral_id: Seq<u8>,
    collateral_amount: nat,
    now: nat,
    position_id: Seq<u8>,
) -> PoolState {
    if borrow_refusal(s, caller, collateral_amount) is Some {
        s
    } else {
        borrow_applied(s, collateral_id, collateral_amount, now, position_id)
    }
}

// Lock

pub open spec fn lock_refusal(
    s: PoolState,
    caller: Seq<u8>,
    borrow_token: Seq<u8>,
    amount: nat,
    position_id: Seq<u8>,
    metadata: Option<DebtMetadataView>,
) -> Option<PoolError> {
    if amount == 0 {
        Some(PoolError::InvalidAmount)
    } else if all_zero(caller) {
        Some(PoolError::InvalidAddress)
    } else if borrow_token != s.borrow_token {
        Some(PoolError::UnsupportedToken)
    } else if !s.debt_positions.dom().contains(position_id) {
        Some(PoolError::InvalidPosition)
    } else if s.debt_positions[position_id].is_liquidated {
        Some(PoolError::AlreadyLiquidated)
    } else if metadata is None {
        Some(PoolError::InvalidMetadata)
    } else {
        None
    }
}

/// The entry that a lock of `amount` of instance `nonce` stages.
pub open spec fn locked_entry(
    borrow_token: Seq<u8>,
    nonce: nat,
    amount: nat,
    metadata: DebtMetadataView,
) -> RepayPositionView {
    RepayPositionView {
        identifier: borrow_token,
        amount,
        nonce,
        borrow_timestamp: metadata.timestamp,
        collateral_identifier: metadata.collateral_identifier,
        collateral_amount: metadata.collateral_amount,
        collateral_timestamp: metadata.collateral_timestamp,
    }
}

pub open spec fn lock_applied(
    s: PoolState,
    borrow_token: Seq<u8>,
    nonce: nat,
    amount: nat,
    metadata: DebtMetadataView,
    repay_id: Seq<u8>,
) -> PoolState {
    PoolState {
        repay_positions: s.repay_positions.insert(
            repay_id,
            locked_entry(borrow_token, nonce, amount, metadata),
        ),
        ..s
    }
}

pub open spec fn lock_next(
    s: PoolState,
    caller: Seq<u8>,
    borrow_token: Seq<u8>,
    nonce: nat,
    amount: nat,
    position_id: Seq<u8>,
    metadata: Option<DebtMetadataView>,
    repay_id: Seq<u8>,
) -> PoolState {
    if lock_refusal(s, caller, borrow_token, amount, position_id, metadata) is Some {
        s
    } else {
        lock_applied(s, borrow_token, nonce, amount, metadata->0, repay_id)
    }
}

/// What is hashed into a repay id: the debt token's name, the locked amount
/// in its shortest big-endian form, and the instance's nonce in eight bytes.
pub open spec fn repay_id_input(borrow_token: Seq<u8>, amount: nat, nonce: nat) -> Seq<u8> {
    borrow_token + be_digits(amount) + be_fixed(nonce, 8)
}

// Repay

pub open spec fn repay_refusal(
    s: PoolState,
    repay_id: Seq<u8>,
    asset: Seq<u8>,
    amount: nat,
    position_id: Seq<u8>,
    now: nat,
) -> Option<PoolError> {
    if amount == 0 {
        Some(PoolError::InvalidAmount)
    } else if asset != s.pool_asset {
        Some(PoolError::UnsupportedAsset)
    } else if !s.repay_positions.dom().contains(repay_id) {
        Some(PoolError::UnknownRepayId)
    } else if s.repay_positions[repay_id].amount < amount {
        Some(PoolError::InsufficientLock)
    } else if !s.debt_positions.dom().contains(position_id) {
        Some(PoolError::InvalidPosition)
    } else if s.debt_positions[position_id].is_liquidated {
        Some(PoolError::AlreadyLiquidated)
    } else if s.repay_positions[repay_id].borrow_timestamp > now {
        Some(PoolError::InvalidTimeRange)
    } else {
        None
    }
}

/// What is owed on a staged entry at `now`: the locked amount and the
/// interest on it since the loan was taken.
pub open spec fn repay_due(entry: RepayPositionView, now: nat) -> nat {
    entry.amount + debt_interest(entry.amount, (now - entry.borrow_timestamp) as nat)
}

/// A payment of exactly what is due closes the entry. A smaller payment that
/// is also below the locked amount is taken off the locked amount. Any other
/// payment changes nothing.
pub open spec fn repay_applied(s: PoolState, repay_id: Seq<u8>, amount: nat, now: nat) -> PoolState {
    let entry = s.repay_positions[repay_id];
    if repay_due(entry, now) == amount {
        PoolState { repay_positions: s.repay_positions.remove(repay_id), ..s }
    } else if entry.amount > amount {
        PoolState {
            repay_positions: s.repay_positions.insert(
                repay_id,
                RepayPositionView { amount: (entry.amount - amount) as nat, ..entry },
            ),
            ..s
        }
    } else {
        s
    }
}

pub open spec fn repay_next(
    s: PoolState,
    repay_id: Seq<u8>,
    asset: Seq<u8>,
    amount: nat,
    position_id: Seq<u8>,
    now: nat,
) -> PoolState {
    if repay_refusal(s, repay_id, asset, amount, position_id, now) is Some {
        s
    } else {
        repay_applied(s, repay_id, amount, now)
    }
}

/// What an accepted repayment hands back: the entry as it was staged, with
/// the payment in place of the locked amount.
pub open spec fn repay_receipt(s: PoolState, repay_id: Seq<u8>, amount: nat) -> RepayPositionView {
    RepayPositionView { amount, ..s.repay_positions[repay_id] }
}

// Withdraw

pub open spec fn withdraw_refusal(
    s: PoolState,
    lend_token: Seq<u8>,
    amount: nat,
    metadata: Option<InterestMetadata>,
    now: nat,
) -> Option<PoolError> {
    if lend_token != s.lend_token {
        Some(PoolError::UnsupportedToken)
    } else if metadata is None {
        Some(PoolError::InvalidMetadata)
    } else if metadata->0.timestamp > now {
        Some(PoolError::InvalidTimeRange)
    } else if withdrawal_amount(amount, (now - metadata->0.timestamp) as nat) > s.reserve(
        s.pool_asset,
    ) {
        Some(PoolError::InsufficientFunds)
    } else {
        None
    }
}

pub open spec fn withdraw_applied(s: PoolState, amount: nat, deposited: nat, now: nat) -> PoolState {
    PoolState {
        reserves: s.reserves.insert(
            s.pool_asset,
            (s.reserve(s.pool_asset) - withdrawal_amount(amount, (now - deposited) as nat)) as nat,
        ),
        ..s
    }
}

pub open spec fn withdraw_next(
    s: PoolState,
    lend_token: Seq<u8>,
    amount: nat,
    metadata: Option<InterestMetadata>,
    now: nat,
) -> PoolState {
    if withdraw_refusal(s, lend_token, amount, metadata, now) is Some {
        s
    } else {
        withdraw_applied(s, amount, metadata->0.timestamp as nat, now)
    }
}

// Liquidate

/// What settles a position at `now`: its size and the interest on it since
/// the loan was taken.
pub open spec fn settlement_due(position: DebtPositionView, now: nat) -> nat {
    position.size + debt_interest(position.size, (now - position.timestamp) as nat)
}

pub open spec fn liquidate_refusal(
    s: PoolState,
    position_id: Seq<u8>,
    token: Seq<u8>,
    amount: nat,
    now: nat,
) -> Option<PoolError> {
    if amount == 0 {
        Some(PoolError::InvalidAmount)
    } else if token != s.pool_asset {
        Some(PoolError::UnsupportedAsset)
    } else if !s.debt_positions.dom().contains(position_id) {
        Some(PoolError::InvalidPosition)
    } else if s.debt_positions[position_id].is_liquidated {
        Some(PoolError::AlreadyLiquidated)
    } else if s.debt_positions[position_id].health_factor >= s.health_factor_threshold {
        Some(PoolError::HealthFactorTooHigh)
    } else if s.debt_positions[position_id].timestamp > now {
        Some(PoolError::InvalidTimeRange)
    } else if settlement_due(s.debt_positions[position_id], now) != amount {
        Some(PoolError::BadSettlementAmount)
    } else {
        None
    }
}

pub open spec fn liquidate_applied(s: PoolState, position_id: Seq<u8>) -> PoolState {
    PoolState {
        debt_positions: s.debt_positions.insert(
            position_id,
            liquidated(s.debt_positions[position_id]),
        ),
        ..s
    }
}

/// What the liquidator may claim: the collateral's token and the position's
/// size.
pub open spec fn liquidate_claim(s: PoolState, position_id: Seq<u8>) -> (Seq<u8>, nat) {
    (s.debt_positions[position_id].collateral_identifier, s.debt_positions[position_id].size)
}

pub open spec fn liquidate_next(
    s: PoolState,
    position_id: Seq<u8>,
    token: Seq<u8>,
    amount: nat,
    now: nat,
) -> PoolState {
    if liquidate_refusal(s, position_id, token, amount, now) is Some {
        s
    } else {
        liquidate_applied(s, position_id)
    }
}

} // verus!
