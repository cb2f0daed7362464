//! What holds of the pool's operations, whatever the state and the inputs.

use vstd::prelude::*;
use crate::error::PoolError;
use crate::interest::{lemma_accrued_zero, withdrawal_amount, DEPOSIT_RATE};
use crate::state::{
    borrow_next, borrow_refusal, deposit_next, deposit_refusal, liquidate_next,
    liquidate_refusal, lock_next, repay_due, repay_next, repay_refusal, settlement_due,
    withdraw_next, withdraw_refusal, PoolState,
};
use crate::types::{all_zero, DebtMetadataView, InterestMetadata, RepayPositionView};

verus! {

/// An accepted deposit raises the pool's reserve of the deposited asset by
/// exactly the amount deposited.
pub proof fn law_deposit_adds_to_reserve(s: PoolState, asset: Seq<u8>, amount: nat)
    requires
        deposit_refusal(s, asset, amount) is None,
    ensures
        deposit_next(s, asset, amount).reserve(asset) == s.reserve(asset) + amount,
{
}

/// A borrow of nothing, by the zero address, or against an empty reserve is
/// refused; and a refused borrow, whatever the reason, leaves the pool as it
/// was.
pub proof fn law_borrow_refused_without_change(
    s: PoolState,
    caller: Seq<u8>,
    collateral_id: Seq<u8>,
    collateral_amount: nat,
    now: nat,
    position_id: Seq<u8>,
)
    ensures
        collateral_amount == 0 || all_zero(caller) || s.reserve(s.pool_asset) == 0
            ==> borrow_refusal(s, caller, collateral_amount) is Some,
        borrow_refusal(s, caller, collateral_amount) is Some ==> borrow_next(
            s,
            caller,
            collateral_id,
            collateral_amount,
            now,
            position_id,
        ) == s,
{
}

/// An accepted borrow of `c` lowers the asset's reserve by `c`, raises the
/// total borrowed by `c`, and files a position of size `c` that is not
/// liquidated.
pub proof fn law_borrow_moves_funds(
    s: PoolState,
    caller: Seq<u8>,
    collateral_id: Seq<u8>,
    collateral_amount: nat,
    now: nat,
    position_id: Seq<u8>,
)
    requires
        borrow_refusal(s, caller, collateral_amount) is None,
    ensures
        ({
            let t = borrow_next(s, caller, collateral_id, collateral_amount, now, position_id);
            &&& t.reserve(s.pool_asset) == s.reserve(s.pool_asset) - collateral_amount
            &&& t.total_borrow == s.total_borrow + collateral_amount
            &&& t.debt_positions.dom().contains(position_id)
            &&& t.debt_positions[position_id].size == collateral_amount
            &&& !t.debt_positions[position_id].is_liquidated
        }),
{
}

/// An accepted borrow of `c` raises the debt token's reserve by `c`, in a
/// pool whose debt token is not its asset.
pub proof fn law_borrow_credits_debt_token(
    s: PoolState,
    caller: Seq<u8>,
    collateral_id: Seq<u8>,
    collateral_amount: nat,
    now: nat,
    position_id: Seq<u8>,
)
    requires
        borrow_refusal(s, caller, collateral_amount) is None,
        s.borrow_token != s.pool_asset,
    ensures
        borrow_next(s, caller, collateral_id, collateral_amount, now, position_id).reserve(
            s.borrow_token,
        ) == s.reserve(s.borrow_token) + collateral_amount,
{
}

/// An accepted repayment of exactly the locked amount plus interest deletes
/// the staged entry.
pub proof fn law_repay_in_full_closes(
    s: PoolState,
    repay_id: Seq<u8>,
    asset: Seq<u8>,
    amount: nat,
    position_id: Seq<u8>,
    now: nat,
)
    requires
        repay_refusal(s, repay_id, asset, amount, position_id, now) is None,
        amount == repay_due(s.repay_positions[repay_id], now),
    ensures
        !repay_next(s, repay_id, asset, amount, position_id, now).repay_positions.dom().contains(
            repay_id,
        ),
{
}

/// An accepted repayment of less than the locked amount keeps the staged
/// entry and takes the payment off its amount, and off nothing else.
pub proof fn law_repay_in_part_reduces(
    s: PoolState,
    repay_id: Seq<u8>,
    asset: Seq<u8>,
    amount: nat,
    position_id: Seq<u8>,
    now: nat,
)
    requires
        repay_refusal(s, repay_id, asset, amount, position_id, now) is None,
        amount < s.repay_positions[repay_id].amount,
    ensures
        ({
            let t = repay_next(s, repay_id, asset, amount, position_id, now);
            &&& t.repay_positions.dom().contains(repay_id)
            &&& t.repay_positions[repay_id] == RepayPositionView {
                amount: (s.repay_positions[repay_id].amount - amount) as nat,
                ..s.repay_positions[repay_id]
            }
        }),
{
}

/// No repayment, accepted or refused, raises the locked amount of an entry;
/// and none touches another entry.
pub proof fn law_repay_never_raises_lock(
    s: PoolState,
    repay_id: Seq<u8>,
    asset: Seq<u8>,
    amount: nat,
    position_id: Seq<u8>,
    now: nat,
    other: Seq<u8>,
)
    ensures
        ({
            let t = repay_next(s, repay_id, asset, amount, position_id, now);
            &&& t.repay_positions.dom().contains(repay_id) ==> s.repay_positions.dom().contains(
                repay_id,
            ) && t.repay_positions[repay_id].amount <= s.repay_positions[repay_id].amount
            &&& other != repay_id ==> (t.repay_positions.dom().contains(other)
                <==> s.repay_positions.dom().contains(other)) && t.repay_positions[other]
                == s.repay_positions[other]
        }),
{
}

/// A position whose health factor is not below the threshold cannot be
/// liquidated: the call is refused, and where the payment is not zero and in
/// the pool's asset and the position is not liquidated yet, the reason given
/// is the health factor.
pub proof fn law_liquidate_needs_low_health(
    s: PoolState,
    position_id: Seq<u8>,
    token: Seq<u8>,
    amount: nat,
    now: nat,
)
    requires
        s.debt_positions.dom().contains(position_id),
        s.debt_positions[position_id].health_factor >= s.health_factor_threshold,
    ensures
        liquidate_refusal(s, position_id, token, amount, now) is Some,
        amount > 0 && token == s.pool_asset && !s.debt_positions[position_id].is_liquidated
            ==> liquidate_refusal(s, position_id, token, amount, now) == Some(
            PoolError::HealthFactorTooHigh,
        ),
{
}

/// After an accepted liquidation every further liquidation of the same
/// position is refused: as already liquidated where the payment is not zero
/// and in the pool's asset.
pub proof fn law_liquidate_only_once(
    s: PoolState,
    position_id: Seq<u8>,
    token: Seq<u8>,
    amount: nat,
    now: nat,
    again_token: Seq<u8>,
    again_amount: nat,
    again_now: nat,
)
    requires
        liquidate_refusal(s, position_id, token, amount, now) is None,
    ensures
        ({
            let t = liquidate_next(s, position_id, token, amount, now);
            &&& liquidate_refusal(t, position_id, again_token, again_amount, again_now) is Some
            &&& again_amount > 0 && again_token == s.pool_asset ==> liquidate_refusal(
                t,
                position_id,
                again_token,
                again_amount,
                again_now,
            ) == Some(PoolError::AlreadyLiquidated)
        }),
{
}

/// A liquidation is accepted only for a payment of exactly the position's
/// size plus interest; any other payment on a position that could otherwise
/// be liquidated is refused as a bad settlement.
pub proof fn law_liquidate_exact_settlement(
    s: PoolState,
    position_id: Seq<u8>,
    token: Seq<u8>,
    amount: nat,
    now: nat,
)
    ensures
        liquidate_refusal(s, position_id, token, amount, now) is None ==> amount == settlement_due(
            s.debt_positions[position_id],
            now,
        ),
        ({
            &&& amount > 0
            &&& token == s.pool_asset
            &&& s.debt_positions.dom().contains(position_id)
            &&& !s.debt_positions[position_id].is_liquidated
            &&& s.debt_positions[position_id].health_factor < s.health_factor_threshold
            &&& s.debt_positions[position_id].timestamp <= now
            &&& amount != settlement_due(s.debt_positions[position_id], now)
        }) ==> liquidate_refusal(s, position_id, token, amount, now) == Some(
            PoolError::BadSettlementAmount,
        ),
{
}

/// A withdrawal worth more than the asset's reserve is refused for want of
/// funds; an accepted one takes exactly its worth out of the reserve, which
/// therefore covers it.
pub proof fn law_withdraw_within_reserve(
    s: PoolState,
    lend_token: Seq<u8>,
    amount: nat,
    metadata: InterestMetadata,
    now: nat,
)
    requires
        lend_token == s.lend_token,
        metadata.timestamp <= now,
    ensures
        ({
            let worth = withdrawal_amount(amount, (now - metadata.timestamp) as nat);
            let t = withdraw_next(s, lend_token, amount, Some(metadata), now);
            &&& worth > s.reserve(s.pool_asset) ==> withdraw_refusal(
                s,
                lend_token,
                amount,
                Some(metadata),
                now,
            ) == Some(PoolError::InsufficientFunds) && t == s
            &&& worth <= s.reserve(s.pool_asset) ==> withdraw_refusal(
                s,
                lend_token,
                amount,
                Some(metadata),
                now,
            ) is None && t.reserve(s.pool_asset) + worth == s.reserve(s.pool_asset)
        }),
{
}

/// A deposit that is withdrawn in the same second leaves the reserve where it
/// was: no time, no interest.
pub proof fn law_withdraw_at_once_undoes_deposit(s: PoolState, amount: nat, now: u64)
    requires
        deposit_refusal(s, s.pool_asset, amount) is None,
    ensures
        ({
            let t = deposit_next(s, s.pool_asset, amount);
            let stamp = Some(InterestMetadata { timestamp: now });
            &&& withdraw_refusal(t, s.lend_token, amount, stamp, now as nat) is None
            &&& withdraw_next(t, s.lend_token, amount, stamp, now as nat).reserve(s.pool_asset)
                == s.reserve(s.pool_asset)
        }),
{
    lemma_accrued_zero(amount, 0, DEPOSIT_RATE as nat);
}

/// No position is of size zero and no staged repayment is of amount zero.
pub open spec fn no_empty_records(s: PoolState) -> bool {
    &&& forall|id: Seq<u8>| #[trigger]
        s.debt_positions.dom().contains(id) ==> s.debt_positions[id].size > 0
    &&& forall|id: Seq<u8>| #[trigger]
        s.repay_positions.dom().contains(id) ==> s.repay_positions[id].amount > 0
}

/// A new pool has no empty records, and no operation files one.
pub proof fn law_no_empty_records(
    s: PoolState,
    caller: Seq<u8>,
    token: Seq<u8>,
    amount: nat,
    nonce: nat,
    now: nat,
    position_id: Seq<u8>,
    repay_id: Seq<u8>,
    debt_metadata: Option<DebtMetadataView>,
    receipt_metadata: Option<InterestMetadata>,
)
    requires
        no_empty_records(s),
    ensures
        no_empty_records(PoolState::initial(s.pool_asset, s.lend_token, s.borrow_token, amount)),
        no_empty_records(deposit_next(s, token, amount)),
        no_empty_records(borrow_next(s, caller, token, amount, now, position_id)),
        no_empty_records(
            lock_next(s, caller, token, nonce, amount, position_id, debt_metadata, repay_id),
        ),
        no_empty_records(repay_next(s, repay_id, token, amount, position_id, now)),
        no_empty_records(withdraw_next(s, token, amount, receipt_metadata, now)),
        no_empty_records(liquidate_next(s, position_id, token, amount, now)),
{
}

/// Every position of `s` is still filed in `t`, and those that were
/// liquidated still are.
pub open spec fn keeps_positions(s: PoolState, t: PoolState) -> bool {
    forall|id: Seq<u8>| #[trigger]
        s.debt_positions.dom().contains(id) ==> t.debt_positions.dom().contains(id) && (
        s.debt_positions[id].is_liquidated ==> t.debt_positions[id].is_liquidated)
}

/// No operation deletes a debt position or clears a liquidation flag. For a
/// borrow this takes a position id that is not in use.
pub proof fn law_positions_are_kept(
    s: PoolState,
    caller: Seq<u8>,
    token: Seq<u8>,
    amount: nat,
    nonce: nat,
    now: nat,
    position_id: Seq<u8>,
    repay_id: Seq<u8>,
    debt_metadata: Option<DebtMetadataView>,
    receipt_metadata: Option<InterestMetadata>,
)
    ensures
        keeps_positions(s, deposit_next(s, token, amount)),
        !s.debt_positions.dom().contains(position_id) ==> keeps_positions(
            s,
            borrow_next(s, caller, token, amount, now, position_id),
        ),
        keeps_positions(
            s,
            lock_next(s, caller, token, nonce, amount, position_id, debt_metadata, repay_id),
        ),
        keeps_positions(s, repay_next(s, repay_id, token, amount, position_id, now)),
        keeps_positions(s, withdraw_next(s, token, amount, receipt_metadata, now)),
        keeps_positions(s, liquidate_next(s, position_id, token, amount, now)),
{
}

/// Only a borrow changes the total borrowed, and it never lowers it; only a
/// deposit, a borrow and a withdrawal change a reserve.
pub proof fn law_counters_change_by_their_operations(
    s: PoolState,
    caller: Seq<u8>,
    token: Seq<u8>,
    amount: nat,
    nonce: nat,
    now: nat,
    position_id: Seq<u8>,
    repay_id: Seq<u8>,
    debt_metadata: Option<DebtMetadataView>,
    receipt_metadata: Option<InterestMetadata>,
)
    ensures
        deposit_next(s, token, amount).total_borrow == s.total_borrow,
        borrow_next(s, caller, token, amount, now, position_id).total_borrow >= s.total_borrow,
        lock_next(
            s,
            caller,
            token,
            nonce,
            amount,
            position_id,
            debt_metadata,
            repay_id,
        ).total_borrow == s.total_borrow,
        repay_next(s, repay_id, token, amount, position_id, now).total_borrow == s.total_borrow,
        withdraw_next(s, token, amount, receipt_metadata, now).total_borrow == s.total_borrow,
        liquidate_next(s, position_id, token, amount, now).total_borrow == s.total_borrow,
        lock_next(
            s,
            caller,
            token,
            nonce,
            amount,
            position_id,
            debt_metadata,
            repay_id,
        ).reserves == s.reserves,
        repay_next(s, repay_id, token, amount, position_id, now).reserves == s.reserves,
        liquidate_next(s, position_id, token, amount, now).reserves == s.reserves,
{
}

} // verus!
