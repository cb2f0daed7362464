//! The balances that the pool itself holds, one per token.

use vstd::prelude::*;
use crate::byte_map::ByteMap;
use crate::bytes::copy_bytes;

verus! {

/// A token that was never credited has a balance of zero.
pub struct ReserveLedger {
    balances: ByteMap<u128>,
}

impl View for ReserveLedger {
    type V = Map<Seq<u8>, nat>;

    /// The balance of every token: a total map.
    closed spec fn view(&self) -> Map<Seq<u8>, nat> {
        Map::total(
            |token: Seq<u8>|
                if self.balances@.dom().contains(token) {
                    self.balances@[token] as nat
                } else {
                    0nat
                },
        )
    }
}

impl ReserveLedger {
    pub closed spec fn wf(&self) -> bool {
        self.balances.wf()
    }

    pub fn new() -> (ledger: ReserveLedger)
        ensures
            ledger.wf(),
            ledger@ == Map::<Seq<u8>, nat>::total(|token: Seq<u8>| 0nat),
    {
        let ledger = ReserveLedger { balances: ByteMap::new() };
        assert(ledger@ =~= Map::<Seq<u8>, nat>::total(|token: Seq<u8>| 0nat));
        ledger
    }

    pub fn balance(&self, token: &[u8]) -> (amount: u128)
        requires
            self.wf(),
        ensures
            amount == self@[token@],
    {
        match self.balances.get(token) {
            Some(amount) => *amount,
            None => 0,
        }
    }

    pub fn set_balance(&mut self, token: &[u8], amount: u128)
        requires
            old(self).wf(),
        ensures
            final(self).wf(),
            final(self)@ == old(self)@.insert(token@, amount as nat),
    {
        self.balances.insert(copy_bytes(token), amount);
        assert(self@ =~= old(self)@.insert(token@, amount as nat));
    }
}

} // verus!
