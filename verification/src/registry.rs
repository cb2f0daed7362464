//! The two durable stores of the pool: debt positions, which are never
//! deleted, and staged repayments, which are.

use vstd::prelude::*;
use crate::byte_map::ByteMap;
use crate::bytes::copy_bytes;
use crate::types::{DebtPosition, DebtPositionView, RepayPosition, RepayPositionView};

verus! {

/// Debt positions by position id. The registry offers no way to delete one.
pub struct DebtPositionRegistry {
    positions: ByteMap<DebtPosition>,
}

impl View for DebtPositionRegistry {
    type V = Map<Seq<u8>, DebtPositionView>;

    closed spec fn view(&self) -> Map<Seq<u8>, DebtPositionView> {
        self.positions@
    }
}

/// A position with its liquidation flag set.
pub open spec fn liquidated(position: DebtPositionView) -> DebtPositionView {
    DebtPositionView { is_liquidated: true, ..position }
}

impl DebtPositionRegistry {
    pub closed spec fn wf(&self) -> bool {
        self.positions.wf()
    }

    pub fn new() -> (registry: DebtPositionRegistry)
        ensures
            registry.wf(),
            registry@ == Map::<Seq<u8>, DebtPositionView>::empty(),
    {
        DebtPositionRegistry { positions: ByteMap::new() }
    }

    pub fn get(&self, id: &[u8]) -> (position: Option<&DebtPosition>)
        requires
            self.wf(),
        ensures
            match position {
                Some(p) => self@.dom().contains(id@) && p@ == self@[id@],
                None => !self@.dom().contains(id@),
            },
    {
        self.positions.get(id)
    }

    /// Files `position` under `id`, in place of what was filed there.
    pub fn record(&mut self, id: &[u8], position: DebtPosition)
        requires
            old(self).wf(),
        ensures
            final(self).wf(),
            final(self)@ == old(self)@.insert(id@, position@),
    {
        self.positions.insert(copy_bytes(id), position);
    }

    /// Sets the liquidation flag of the position under `id` and says whether
    /// there is such a position.
    pub fn mark_liquidated(&mut self, id: &[u8]) -> (found: bool)
        requires
            old(self).wf(),
        ensures
            final(self).wf(),
            found == old(self)@.dom().contains(id@),
            found ==> final(self)@ == old(self)@.insert(id@, liquidated(old(self)@[id@])),
            !found ==> final(self)@ == old(self)@,
    {
        let flagged: DebtPosition = match self.positions.get(id) {
            None => {
                return false;
            },
            Some(p) => DebtPosition {
                size: p.size,
                health_factor: p.health_factor,
                is_liquidated: true,
                timestamp: p.timestamp,
                collateral_amount: p.collateral_amount,
                collateral_identifier: p.collateral_identifier.clone(),
            },
        };
        self.positions.insert(copy_bytes(id), flagged);
        true
    }
}

/// Locked debt tokens by repay id, from the lock until the repayment that
/// settles it.
pub struct RepaymentStaging {
    entries: ByteMap<RepayPosition>,
}

impl View for RepaymentStaging {
    type V = Map<Seq<u8>, RepayPositionView>;

    closed spec fn view(&self) -> Map<Seq<u8>, RepayPositionView> {
        self.entries@
    }
}

impl RepaymentStaging {
    pub closed spec fn wf(&self) -> bool {
        self.entries.wf()
    }

    pub fn new() -> (staging: RepaymentStaging)
        ensures
            staging.wf(),
            staging@ == Map::<Seq<u8>, RepayPositionView>::empty(),
    {
        RepaymentStaging { entries: ByteMap::new() }
    }

    pub fn get(&self, id: &[u8]) -> (entry: Option<&RepayPosition>)
        requires
            self.wf(),
        ensures
            match entry {
                Some(e) => self@.dom().contains(id@) && e@ == self@[id@],
                None => !self@.dom().contains(id@),
            },
    {
        self.entries.get(id)
    }

    /// Stages `entry` under `id`, in place of what was staged there.
    pub fn stage(&mut self, id: &[u8], entry: RepayPosition)
        requires
            old(self).wf(),
        ensures
            final(self).wf(),
            final(self)@ == old(self)@.insert(id@, entry@),
    {
        self.entries.insert(copy_bytes(id), entry);
    }

    /// Drops the entry under `id`, if there is one.
    pub fn discard(&mut self, id: &[u8])
        requires
            old(self).wf(),
        ensures
            final(self).wf(),
            final(self)@ == old(self)@.remove(id@),
    {
        self.entries.remove(id);
    }
}

} // verus!
