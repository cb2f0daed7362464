//! The pool and its six operations.
//!
//! An operation takes what its collaborators supplied (the clock's reading,
//! the hash that names a position, the attributes read off a token instance)
//! and either commits a complete new state or refuses and changes nothing.
//! Minting, burning and paying out are left to the caller, who is told what
//! to do by the value that comes back.

use vstd::prelude::*;
use crate::bytes::{amount_to_be_bytes, copy_bytes, nonce_to_be_bytes};
use crate::error::PoolError;
use crate::health::compute_health_factor;
use crate::interest::{compute_debt, compute_withdrawal_amount, get_timestamp_diff};
use crate::ledger::ReserveLedger;
use crate::registry::{DebtPositionRegistry, RepaymentStaging};
use crate::state::{
    borrow_next, borrow_refusal, deposit_next, deposit_refusal, liquidate_claim, liquidate_next,
    liquidate_refusal, lock_next, lock_refusal, repay_id_input, repay_next, repay_receipt,
    repay_refusal, withdraw_next, withdraw_refusal, PoolState,
};
use crate::interest::withdrawal_amount;
use crate::types::{
    Address, DebtMetadata, DebtOrder, DebtPosition, DebtTokenInstance, InterestMetadata,
    LiquidateData, Payout, ReceiptOrder, RepayPosition, TokenIdentifier,
};

verus! {

pub struct LiquidityPool {
    pool_asset: TokenIdentifier,
    lend_token: TokenIdentifier,
    borrow_token: TokenIdentifier,
    health_factor_threshold: u128,
    total_borrow: u128,
    reserves: ReserveLedger,
    debt_positions: DebtPositionRegistry,
    repay_positions: RepaymentStaging,
}

impl View for LiquidityPool {
    type V = PoolState;

    closed spec fn view(&self) -> PoolState {
        PoolState {
            pool_asset: self.pool_asset@,
            lend_token: self.lend_token@,
            borrow_token: self.borrow_token@,
            health_factor_threshold: self.health_factor_threshold as nat,
            total_borrow: self.total_borrow as nat,
            reserves: self.reserves@,
            debt_positions: self.debt_positions@,
            repay_positions: self.repay_positions@,
        }
    }
}

impl LiquidityPool {
    /// The three stores are in order.
    pub closed spec fn well_formed(&self) -> bool {
        &&& self.reserves.wf()
        &&& self.debt_positions.wf()
        &&& self.repay_positions.wf()
    }

    /// An empty pool for `pool_asset`, which issues `lend_token` for deposits
    /// and `borrow_token` for debts.
    pub fn new(
        pool_asset: TokenIdentifier,
        lend_token: TokenIdentifier,
        borrow_token: TokenIdentifier,
        health_factor_threshold: u128,
    ) -> (pool: LiquidityPool)
        ensures
            pool.well_formed(),
            pool@ == PoolState::initial(
                pool_asset@,
                lend_token@,
                borrow_token@,
                health_factor_threshold as nat,
            ),
    {
        LiquidityPool {
            pool_asset,
            lend_token,
            borrow_token,
            health_factor_threshold,
            total_borrow: 0,
            reserves: ReserveLedger::new(),
            debt_positions: DebtPositionRegistry::new(),
            repay_positions: RepaymentStaging::new(),
        }
    }

    /// Puts back a balance that was kept in durable storage.
    pub fn restore_reserve(&mut self, token: &TokenIdentifier, amount: u128)
        requires
            old(self).well_formed(),
        ensures
            final(self).well_formed(),
            final(self)@ == (PoolState {
                reserves: old(self)@.reserves.insert(token@, amount as nat),
                ..old(self)@
            }),
    {
        self.reserves.set_balance(token.as_bytes(), amount);
        assert(self@ =~= (PoolState {
            reserves: old(self)@.reserves.insert(token@, amount as nat),
            ..old(self)@
        }));
    }

    /// Puts back the total borrowed that was kept in durable storage.
    pub fn restore_total_borrow(&mut self, total: u128)
        requires
            old(self).well_formed(),
        ensures
            final(self).well_formed(),
            final(self)@ == (PoolState { total_borrow: total as nat, ..old(self)@ }),
    {
        self.total_borrow = total;
        assert(self@ =~= (PoolState { total_borrow: total as nat, ..old(self)@ }));
    }

    /// Puts back a debt position that was kept in durable storage.
    pub fn restore_debt_position(&mut self, position_id: &[u8], position: DebtPosition)
        requires
            old(self).well_formed(),
        ensures
            final(self).well_formed(),
            final(self)@ == (PoolState {
                debt_positions: old(self)@.debt_positions.insert(position_id@, position@),
                ..old(self)@
            }),
    {
        self.debt_positions.record(position_id, position);
        assert(self@ =~= (PoolState {
            debt_positions: old(self)@.debt_positions.insert(position_id@, position@),
            ..old(self)@
        }));
    }

    /// Puts back a staged repayment that was kept in durable storage.
    pub fn restore_repay_position(&mut self, repay_id: &[u8], entry: RepayPosition)
        requires
            old(self).well_formed(),
        ensures
            final(self).well_formed(),
            final(self)@ == (PoolState {
                repay_positions: old(self)@.repay_positions.insert(repay_id@, entry@),
                ..old(self)@
            }),
    {
        self.repay_positions.stage(repay_id, entry);
        assert(self@ =~= (PoolState {
            repay_positions: old(self)@.repay_positions.insert(repay_id@, entry@),
            ..old(self)@
        }));
    }

    pub fn pool_asset(&self) -> (token: &TokenIdentifier)
        ensures
            token@ == self@.pool_asset,
    {
        &self.pool_asset
    }

    pub fn lend_token(&self) -> (token: &TokenIdentifier)
        ensures
            token@ == self@.lend_token,
    {
        &self.lend_token
    }

    pub fn borrow_token(&self) -> (token: &TokenIdentifier)
        ensures
            token@ == self@.borrow_token,
    {
        &self.borrow_token
    }

    pub fn health_factor_threshold(&self) -> (threshold: u128)
        ensures
            threshold == self@.health_factor_threshold,
    {
        self.health_factor_threshold
    }

    pub fn total_borrow(&self) -> (total: u128)
        ensures
            total == self@.total_borrow,
    {
        self.total_borrow
    }

    /// The pool's own balance of `token`; zero for a token it never held.
    pub fn reserve(&self, token: &TokenIdentifier) -> (amount: u128)
        requires
            self.well_formed(),
        ensures
            amount == self@.reserve(token@),
    {
        self.reserves.balance(token.as_bytes())
    }

    pub fn debt_position(&self, position_id: &[u8]) -> (position: Option<&DebtPosition>)
        requires
            self.well_formed(),
        ensures
            match position {
                Some(p) => self@.debt_positions.dom().contains(position_id@) && p@
                    == self@.debt_positions[position_id@],
                None => !self@.debt_positions.dom().contains(position_id@),
            },
    {
        self.debt_positions.get(position_id)
    }

    pub fn repay_position(&self, repay_id: &[u8]) -> (entry: Option<&RepayPosition>)
        requires
            self.well_formed(),
        ensures
            match entry {
                Some(e) => self@.repay_positions.dom().contains(repay_id@) && e@
                    == self@.repay_positions[repay_id@],
                None => !self@.repay_positions.dom().contains(repay_id@),
            },
    {
        self.repay_positions.get(repay_id)
    }
}

/// The operations of a lending pool over one asset.
pub trait LiquidityModule: Sized {
    /// The pool as a mathematical value.
    spec fn state(&self) -> PoolState;

    /// What every operation needs of the pool and leaves behind.
    spec fn wf(&self) -> bool;

    /// Takes `amount` of the pool's asset into the reserve and orders a
    /// receipt for it, stamped with the time of the deposit.
    fn deposit_asset(
        &mut self,
        initial_caller: &Address,
        asset: &TokenIdentifier,
        amount: u128,
        block_timestamp: u64,
    ) -> (outcome: Result<ReceiptOrder, PoolError>)
        requires
            old(self).wf(),
        ensures
            final(self).wf(),
            final(self).state() == deposit_next(old(self).state(), asset@, amount as nat),
            match outcome {
                Ok(order) => {
                    &&& deposit_refusal(old(self).state(), asset@, amount as nat) is None
                    &&& order.recipient@ == initial_caller@
                    &&& order.token@ == old(self).state().lend_token
                    &&& order.amount == amount
                    &&& order.metadata.timestamp == block_timestamp
                },
                Err(e) => deposit_refusal(old(self).state(), asset@, amount as nat) == Some(e),
            },
    ;

    /// Draws `collateral_amount` of the pool's asset against collateral of
    /// the same amount, files the debt under `position_id` and orders a debt
    /// token for it.
    fn borrow(
        &mut self,
        initial_caller: &Address,
        collateral_id: &TokenIdentifier,
        collateral_amount: u128,
        deposit_timestamp: u64,
        block_timestamp: u64,
        position_id: &[u8],
    ) -> (outcome: Result<DebtOrder, PoolError>)
        requires
            old(self).wf(),
        ensures
            final(self).wf(),
            final(self).state() == borrow_next(
                old(self).state(),
                initial_caller@,
                collateral_id@,
                collateral_amount as nat,
                block_timestamp as nat,
                position_id@,
            ),
            match outcome {
                Ok(order) => {
                    &&& borrow_refusal(old(self).state(), initial_caller@, collateral_amount as nat)
                        is None
                    &&& order.recipient@ == initial_caller@
                    &&& order.token@ == old(self).state().borrow_token
                    &&& order.amount == collateral_amount
                    &&& order.position_id@ == position_id@
                    &&& order.metadata.timestamp == block_timestamp
                    &&& order.metadata.collateral_amount == collateral_amount
                    &&& order.metadata.collateral_identifier@ == collateral_id@
                    &&& order.metadata.collateral_timestamp == deposit_timestamp
                },
                Err(e) => borrow_refusal(old(self).state(), initial_caller@, collateral_amount as nat)
                    == Some(e),
            },
    ;

    /// Stages `amount` of the debt token instance `token_nonce` for repayment
    /// under `unique_repay_id`, which the caller needs for `repay`, and hands
    /// that id back.
    fn lock_b_tokens(
        &mut self,
        initial_caller: &Address,
        borrow_token: &TokenIdentifier,
        token_nonce: u64,
        amount: u128,
        instance: &DebtTokenInstance,
        unique_repay_id: &[u8],
    ) -> (outcome: Result<Vec<u8>, PoolError>)
        requires
            old(self).wf(),
        ensures
            final(self).wf(),
            final(self).state() == lock_next(
                old(self).state(),
                initial_caller@,
                borrow_token@,
                token_nonce as nat,
                amount as nat,
                instance.hash@,
                instance.metadata_view(),
                unique_repay_id@,
            ),
            match outcome {
                Ok(id) => {
                    &&& lock_refusal(
                        old(self).state(),
                        initial_caller@,
                        borrow_token@,
                        amount as nat,
                        instance.hash@,
                        instance.metadata_view(),
                    ) is None
                    &&& id@ == unique_repay_id@
                },
                Err(e) => lock_refusal(
                    old(self).state(),
                    initial_caller@,
                    borrow_token@,
                    amount as nat,
                    instance.hash@,
                    instance.metadata_view(),
                ) == Some(e),
            },
    ;

    /// Takes a payment of `amount` on the entry staged under `unique_id`,
    /// whose debt position is filed under `debt_position_id`. Hands back the
    /// entry as it was staged, with the payment as its amount.
    fn repay(
        &mut self,
        unique_id: &[u8],
        asset: &TokenIdentifier,
        amount: u128,
        debt_position_id: &[u8],
        block_timestamp: u64,
    ) -> (outcome: Result<RepayPosition, PoolError>)
        requires
            old(self).wf(),
        ensures
            final(self).wf(),
            final(self).state() == repay_next(
                old(self).state(),
                unique_id@,
                asset@,
                amount as nat,
                debt_position_id@,
                block_timestamp as nat,
            ),
            match outcome {
                Ok(receipt) => {
                    &&& repay_refusal(
                        old(self).state(),
                        unique_id@,
                        asset@,
                        amount as nat,
                        debt_position_id@,
                        block_timestamp as nat,
                    ) is None
                    &&& receipt@ == repay_receipt(old(self).state(), unique_id@, amount as nat)
                },
                Err(e) => repay_refusal(
                    old(self).state(),
                    unique_id@,
                    asset@,
                    amount as nat,
                    debt_position_id@,
                    block_timestamp as nat,
                ) == Some(e),
            },
    ;

    /// Redeems `amount` of the receipt instance `token_nonce`, whose
    /// attributes are `metadata`: takes its worth out of the reserve and
    /// orders the receipt burnt and the worth paid out.
    fn withdraw(
        &mut self,
        initial_caller: &Address,
        lend_token: &TokenIdentifier,
        token_nonce: u64,
        amount: u128,
        metadata: Option<InterestMetadata>,
        block_timestamp: u64,
    ) -> (outcome: Result<Payout, PoolError>)
        requires
            old(self).wf(),
        ensures
            final(self).wf(),
            final(self).state() == withdraw_next(
                old(self).state(),
                lend_token@,
                amount as nat,
                metadata,
                block_timestamp as nat,
            ),
            match outcome {
                Ok(payout) => {
                    &&& withdraw_refusal(
                        old(self).state(),
                        lend_token@,
                        amount as nat,
                        metadata,
                        block_timestamp as nat,
                    ) is None
                    &&& payout.recipient@ == initial_caller@
                    &&& payout.burn_token@ == lend_token@
                    &&& payout.burn_nonce == token_nonce
                    &&& payout.burn_amount == amount
                    &&& payout.asset@ == old(self).state().pool_asset
                    &&& payout.amount == withdrawal_amount(
                        amount as nat,
                        (block_timestamp - metadata->0.timestamp) as nat,
                    )
                },
                Err(e) => withdraw_refusal(
                    old(self).state(),
                    lend_token@,
                    amount as nat,
                    metadata,
                    block_timestamp as nat,
                ) == Some(e),
            },
    ;

    /// Settles the position under `position_id` with a payment of exactly its
    /// size and interest, flags it as liquidated and says what collateral the
    /// payer may claim.
    fn liquidate(
        &mut self,
        position_id: &[u8],
        token: &TokenIdentifier,
        amount: u128,
        block_timestamp: u64,
    ) -> (outcome: Result<LiquidateData, PoolError>)
        requires
            old(self).wf(),
        ensures
            final(self).wf(),
            final(self).state() == liquidate_next(
                old(self).state(),
                position_id@,
                token@,
                amount as nat,
                block_timestamp as nat,
            ),
            match outcome {
                Ok(claim) => {
                    &&& liquidate_refusal(
                        old(self).state(),
                        position_id@,
                        token@,
                        amount as nat,
                        block_timestamp as nat,
                    ) is None
                    &&& claim@ == liquidate_claim(old(self).state(), position_id@)
                },
                Err(e) => liquidate_refusal(
                    old(self).state(),
                    position_id@,
                    token@,
                    amount as nat,
                    block_timestamp as nat,
                ) == Some(e),
            },
    ;
}

impl LiquidityModule for LiquidityPool {
    open spec fn state(&self) -> PoolState {
        self@
    }

    open spec fn wf(&self) -> bool {
        self.well_formed()
    }

    fn deposit_asset(
        &mut self,
        initial_caller: &Address,
        asset: &TokenIdentifier,
        amount: u128,
        block_timestamp: u64,
    ) -> (outcome: Result<ReceiptOrder, PoolError>) {
        if !asset.same_as(&self.pool_asset) {
            return Err(PoolError::UnsupportedAsset);
        }
        let held: u128 = self.reserves.balance(self.pool_asset.as_bytes());
        let raised: u128 = match held.checked_add(amount) {
            Some(sum) => sum,
            None => {
                return Err(PoolError::AmountOverflow);
            },
        };
        self.reserves.set_balance(self.pool_asset.as_bytes(), raised);
        assert(self@ =~= deposit_next(old(self)@, asset@, amount as nat));
        Ok(
            ReceiptOrder {
                recipient: *initial_caller,
                token: self.lend_token.clone(),
                amount,
                metadata: InterestMetadata::new(block_timestamp),
            },
        )
    }

    fn borrow(
        &mut self,
        initial_caller: &Address,
        collateral_id: &TokenIdentifier,
        collateral_amount: u128,
        deposit_timestamp: u64,
        block_timestamp: u64,
        position_id: &[u8],
    ) -> (outcome: Result<DebtOrder, PoolError>) {
        if collateral_amount == 0 {
            return Err(PoolError::InvalidAmount);
        }
        if initial_caller.is_zero() {
            return Err(PoolError::InvalidAddress);
        }
        let borrows_reserve: u128 = self.reserves.balance(self.borrow_token.as_bytes());
        let asset_reserve: u128 = self.reserves.balance(self.pool_asset.as_bytes());
        if asset_reserve == 0 {
            return Err(PoolError::EmptyReserve);
        }
        if collateral_amount > asset_reserve {
            return Err(PoolError::InsufficientFunds);
        }
        let borrows_raised: u128 = match borrows_reserve.checked_add(collateral_amount) {
            Some(sum) => sum,
            None => {
                return Err(PoolError::AmountOverflow);
            },
        };
        let total_raised: u128 = match self.total_borrow.checked_add(collateral_amount) {
            Some(sum) => sum,
            None => {
                return Err(PoolError::AmountOverflow);
            },
        };
        let asset_left: u128 = asset_reserve - collateral_amount;

        let debt_metadata = DebtMetadata {
            timestamp: block_timestamp,
            collateral_amount,
            collateral_identifier: collateral_id.clone(),
            collateral_timestamp: deposit_timestamp,
        };

        self.total_borrow = total_raised;
        self.reserves.set_balance(self.borrow_token.as_bytes(), borrows_raised);
        self.reserves.set_balance(self.pool_asset.as_bytes(), asset_left);

        let current_health: u128 = compute_health_factor(asset_left, total_raised);
        let debt_position = DebtPosition {
            size: collateral_amount,
            health_factor: current_health,
            is_liquidated: false,
            timestamp: block_timestamp,
            collateral_amount,
            collateral_identifier: collateral_id.clone(),
        };
        self.debt_positions.record(position_id, debt_position);
        assert(self@ =~= borrow_next(
            old(self)@,
            initial_caller@,
            collateral_id@,
            collateral_amount as nat,
            block_timestamp as nat,
            position_id@,
        ));
        Ok(
            DebtOrder {
                recipient: *initial_caller,
                token: self.borrow_token.clone(),
                amount: collateral_amount,
                position_id: copy_bytes(position_id),
                metadata: debt_metadata,
            },
        )
    }
    fn lock_b_tokens(
        &mut self,
        initial_caller: &Address,
        borrow_token: &TokenIdentifier,
        token_nonce: u64,
        amount: u128,
        instance: &DebtTokenInstance,
        unique_repay_id: &[u8],
    ) -> (outcome: Result<Vec<u8>, PoolError>) {
        if amount == 0 {
            return Err(PoolError::InvalidAmount);
        }
        if initial_caller.is_zero() {
            return Err(PoolError::InvalidAddress);
        }
        if !borrow_token.same_as(&self.borrow_token) {
            return Err(PoolError::UnsupportedToken);
        }
        match self.debt_positions.get(instance.hash.as_slice()) {
            None => {
                return Err(PoolError::InvalidPosition);
            },
            Some(position) => {
                if position.is_liquidated {
                    return Err(PoolError::AlreadyLiquidated);
                }
            },
        }
        let repay_position: RepayPosition = match &instance.metadata {
            None => {
                return Err(PoolError::InvalidMetadata);
            },
            Some(metadata) => RepayPosition {
                identifier: borrow_token.clone(),
                amount,
                nonce: token_nonce,
                borrow_timestamp: metadata.timestamp,
                collateral_identifier: metadata.collateral_identifier.clone(),
                collateral_amount: metadata.collateral_amount,
                collateral_timestamp: metadata.collateral_timestamp,
            },
        };
        self.repay_positions.stage(unique_repay_id, repay_position);
        assert(self@ =~= lock_next(
            old(self)@,
            initial_caller@,
            borrow_token@,
            token_nonce as nat,
            amount as nat,
            instance.hash@,
            instance.metadata_view(),
            unique_repay_id@,
        ));
        Ok(copy_bytes(unique_repay_id))
    }

    fn repay(
        &mut self,
        unique_id: &[u8],
        asset: &TokenIdentifier,
        amount: u128,
        debt_position_id: &[u8],
        block_timestamp: u64,
    ) -> (outcome: Result<RepayPosition, PoolError>) {
        if amount == 0 {
            return Err(PoolError::InvalidAmount);
        }
        if !asset.same_as(&self.pool_asset) {
            return Err(PoolError::UnsupportedAsset);
        }
        let staged: RepayPosition = match self.repay_positions.get(unique_id) {
            None => {
                return Err(PoolError::UnknownRepayId);
            },
            Some(entry) => entry.clone(),
        };
        if staged.amount < amount {
            return Err(PoolError::InsufficientLock);
        }
        match self.debt_positions.get(debt_position_id) {
            None => {
                return Err(PoolError::InvalidPosition);
            },
            Some(position) => {
                if position.is_liquidated {
                    return Err(PoolError::AlreadyLiquidated);
                }
            },
        }
        let elapsed: u64 = match get_timestamp_diff(staged.borrow_timestamp, block_timestamp) {
            Err(e) => {
                return Err(e);
            },
            Ok(diff) => diff,
        };
        // A sum beyond 128 bits equals no payment.
        let due: Option<u128> = match compute_debt(staged.amount, elapsed) {
            None => None,
            Some(interest) => staged.amount.checked_add(interest),
        };
        let settles: bool = match due {
            Some(sum) => sum == amount,
            None => false,
        };
        if settles {
            self.repay_positions.discard(unique_id);
        } else if staged.amount > amount {
            let mut reduced: RepayPosition = staged.clone();
            reduced.amount = staged.amount - amount;
            self.repay_positions.stage(unique_id, reduced);
        }
        assert(self@ =~= repay_next(
            old(self)@,
            unique_id@,
            asset@,
            amount as nat,
            debt_position_id@,
            block_timestamp as nat,
        ));
        let mut receipt: RepayPosition = staged;
        receipt.amount = amount;
        Ok(receipt)
    }

    fn withdraw(
        &mut self,
        initial_caller: &Address,
        lend_token: &TokenIdentifier,
        token_nonce: u64,
        amount: u128,
        metadata: Option<InterestMetadata>,
        block_timestamp: u64,
    ) -> (outcome: Result<Payout, PoolError>) {
        if !lend_token.same_as(&self.lend_token) {
            return Err(PoolError::UnsupportedToken);
        }
        let asset_reserve: u128 = self.reserves.balance(self.pool_asset.as_bytes());
        let deposited: u64 = match metadata {
            None => {
                return Err(PoolError::InvalidMetadata);
            },
            Some(stamp) => stamp.timestamp,
        };
        let time_diff: u64 = match get_timestamp_diff(deposited, block_timestamp) {
            Err(e) => {
                return Err(e);
            },
            Ok(diff) => diff,
        };
        // A worth beyond 128 bits is more than any reserve.
        let worth: u128 = match compute_withdrawal_amount(amount, time_diff) {
            None => {
                return Err(PoolError::InsufficientFunds);
            },
            Some(value) => value,
        };
        if asset_reserve < worth {
            return Err(PoolError::InsufficientFunds);
        }
        self.reserves.set_balance(self.pool_asset.as_bytes(), asset_reserve - worth);
        assert(self@ =~= withdraw_next(
            old(self)@,
            lend_token@,
            amount as nat,
            metadata,
            block_timestamp as nat,
        ));
        Ok(
            Payout {
                recipient: *initial_caller,
                burn_token: lend_token.clone(),
                burn_nonce: token_nonce,
                burn_amount: amount,
                asset: self.pool_asset.clone(),
                amount: worth,
            },
        )
    }

    fn liquidate(
        &mut self,
        position_id: &[u8],
        token: &TokenIdentifier,
        amount: u128,
        block_timestamp: u64,
    ) -> (outcome: Result<LiquidateData, PoolError>) {
        if amount == 0 {
            return Err(PoolError::InvalidAmount);
        }
        if !token.same_as(&self.pool_asset) {
            return Err(PoolError::UnsupportedAsset);
        }
        let (size, borrowed_at, collateral): (u128, u64, TokenIdentifier) =
            match self.debt_positions.get(position_id) {
            None => {
                return Err(PoolError::InvalidPosition);
            },
            Some(position) => {
                if position.is_liquidated {
                    return Err(PoolError::AlreadyLiquidated);
                }
                if position.health_factor >= self.health_factor_threshold {
                    return Err(PoolError::HealthFactorTooHigh);
                }
                (position.size, position.timestamp, position.collateral_identifier.clone())
            },
        };
        let elapsed: u64 = match get_timestamp_diff(borrowed_at, block_timestamp) {
            Err(e) => {
                return Err(e);
            },
            Ok(diff) => diff,
        };
        // A sum beyond 128 bits equals no payment.
        let due: Option<u128> = match compute_debt(size, elapsed) {
            None => None,
            Some(interest) => size.checked_add(interest),
        };
        let settles: bool = match due {
            Some(sum) => sum == amount,
            None => false,
        };
        if !settles {
            return Err(PoolError::BadSettlementAmount);
        }
        self.debt_positions.mark_liquidated(position_id);
        assert(self@ =~= liquidate_next(
            old(self)@,
            position_id@,
            token@,
            amount as nat,
            block_timestamp as nat,
        ));
        Ok(LiquidateData { collateral_token: collateral, amount: size })
    }
}

/// The bytes whose hash names a staged repayment.
pub fn repay_id_preimage(borrow_token: &TokenIdentifier, amount: u128, token_nonce: u64) -> (data:
    Vec<u8>)
    ensures
        data@ == repay_id_input(borrow_token@, amount as nat, token_nonce as nat),
{
    let mut data: Vec<u8> = copy_bytes(borrow_token.as_bytes());
    let mut digits: Vec<u8> = amount_to_be_bytes(amount);
    let mut nonce: Vec<u8> = nonce_to_be_bytes(token_nonce);
    data.append(&mut digits);
    data.append(&mut nonce);
    data
}

} // verus!
