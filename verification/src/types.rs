//! The values that pass between the pool and its callers.

use vstd::prelude::*;
use crate::bytes::{bytes_eq, copy_bytes};

verus! {

/// A 32-byte account address.
#[derive(Clone, Copy, Debug, PartialEq, Eq)]
pub struct Address {
    pub bytes: [u8; 32],
}

impl View for Address {
    type V = Seq<u8>;

    open spec fn view(&self) -> Seq<u8> {
        self.bytes@
    }
}

/// Whether every byte of an address is zero.
pub open spec fn all_zero(bytes: Seq<u8>) -> bool {
    forall|i: int| 0 <= i < bytes.len() ==> bytes[i] == 0
}

impl Address {
    pub fn new(bytes: [u8; 32]) -> (address: Address)
        ensures
            address@ == bytes@,
    {
        Address { bytes }
    }

    /// True for the address of 32 zero bytes, which no caller has.
    pub fn is_zero(&self) -> (zero: bool)
        ensures
            zero == all_zero(self@),
    {
        let mut i: usize = 0;
        while i < 32
            invariant
                i <= 32,
                self.bytes@.len() == 32,
                forall|k: int| 0 <= k < i ==> self.bytes@[k] == 0,
            decreases 32 - i,
        {
            if self.bytes[i] != 0 {
                return false;
            }
            i = i + 1;
        }
        true
    }
}

/// The name of a token, as a byte string.
#[derive(Debug, PartialEq, Eq)]
pub struct TokenIdentifier {
    pub bytes: Vec<u8>,
}

impl View for TokenIdentifier {
    type V = Seq<u8>;

    open spec fn view(&self) -> Seq<u8> {
        self.bytes@
    }
}

impl Clone for TokenIdentifier {
    fn clone(&self) -> (copy: TokenIdentifier)
        ensures
            copy@ == self@,
    {
        TokenIdentifier { bytes: copy_bytes(self.bytes.as_slice()) }
    }
}

impl TokenIdentifier {
    pub fn new(bytes: Vec<u8>) -> (token: TokenIdentifier)
        ensures
            token@ == bytes@,
    {
        TokenIdentifier { bytes }
    }

    pub fn from_slice(bytes: &[u8]) -> (token: TokenIdentifier)
        ensures
            token@ == bytes@,
    {
        TokenIdentifier { bytes: copy_bytes(bytes) }
    }

    /// Whether two identifiers name the same token.
    pub fn same_as(&self, other: &TokenIdentifier) -> (same: bool)
        ensures
            same == (self@ == other@),
    {
        bytes_eq(self.bytes.as_slice(), other.bytes.as_slice())
    }

    pub fn as_bytes(&self) -> (bytes: &[u8])
        ensures
            bytes@ == self@,
    {
        self.bytes.as_slice()
    }
}

/// What a deposit receipt carries: when the deposit was made.
#[derive(Clone, Copy, Debug, PartialEq, Eq)]
pub struct InterestMetadata {
    pub timestamp: u64,
}

impl InterestMetadata {
    pub fn new(timestamp: u64) -> (metadata: InterestMetadata)
        ensures
            metadata.timestamp == timestamp,
    {
        InterestMetadata { timestamp }
    }
}

/// What a debt token carries: when the loan was taken, and the collateral
/// behind it.
#[derive(Debug, PartialEq, Eq)]
pub struct DebtMetadata {
    pub timestamp: u64,
    pub collateral_amount: u128,
    pub collateral_identifier: TokenIdentifier,
    pub collateral_timestamp: u64,
}

pub struct DebtMetadataView {
    pub timestamp: nat,
    pub collateral_amount: nat,
    pub collateral_identifier: Seq<u8>,
    pub collateral_timestamp: nat,
}

impl View for DebtMetadata {
    type V = DebtMetadataView;

    open spec fn view(&self) -> DebtMetadataView {
        DebtMetadataView {
            timestamp: self.timestamp as nat,
            collateral_amount: self.collateral_amount as nat,
            collateral_identifier: self.collateral_identifier@,
            collateral_timestamp: self.collateral_timestamp as nat,
        }
    }
}

impl Clone for DebtMetadata {
    fn clone(&self) -> (copy: DebtMetadata)
        ensures
            copy@ == self@,
    {
        DebtMetadata {
            timestamp: self.timestamp,
            collateral_amount: self.collateral_amount,
            collateral_identifier: self.collateral_identifier.clone(),
            collateral_timestamp: self.collateral_timestamp,
        }
    }
}

/// An outstanding loan. It is never deleted; liquidation only sets its flag.
#[derive(Debug, PartialEq, Eq)]
pub struct DebtPosition {
    pub size: u128,
    pub health_factor: u128,
    pub is_liquidated: bool,
    pub timestamp: u64,
    pub collateral_amount: u128,
    pub collateral_identifier: TokenIdentifier,
}

pub struct DebtPositionView {
    pub size: nat,
    pub health_factor: nat,
    pub is_liquidated: bool,
    pub timestamp: nat,
    pub collateral_amount: nat,
    pub collateral_identifier: Seq<u8>,
}

impl View for DebtPosition {
    type V = DebtPositionView;

    open spec fn view(&self) -> DebtPositionView {
        DebtPositionView {
            size: self.size as nat,
            health_factor: self.health_factor as nat,
            is_liquidated: self.is_liquidated,
            timestamp: self.timestamp as nat,
            collateral_amount: self.collateral_amount as nat,
            collateral_identifier: self.collateral_identifier@,
        }
    }
}

impl Clone for DebtPosition {
    fn clone(&self) -> (copy: DebtPosition)
        ensures
            copy@ == self@,
    {
        DebtPosition {
            size: self.size,
            health_factor: self.health_factor,
            is_liquidated: self.is_liquidated,
            timestamp: self.timestamp,
            collateral_amount: self.collateral_amount,
            collateral_identifier: self.collateral_identifier.clone(),
        }
    }
}

/// Debt tokens locked for a later repayment in the pool's asset.
#[derive(Debug, PartialEq, Eq)]
pub struct RepayPosition {
    pub identifier: TokenIdentifier,
    pub amount: u128,
    pub nonce: u64,
    pub borrow_timestamp: u64,
    pub collateral_identifier: TokenIdentifier,
    pub collateral_amount: u128,
    pub collateral_timestamp: u64,
}

pub struct RepayPositionView {
    pub identifier: Seq<u8>,
    pub amount: nat,
    pub nonce: nat,
    pub borrow_timestamp: nat,
    pub collateral_identifier: Seq<u8>,
    pub collateral_amount: nat,
    pub collateral_timestamp: nat,
}

impl View for RepayPosition {
    type V = RepayPositionView;

    open spec fn view(&self) -> RepayPositionView {
        RepayPositionView {
            identifier: self.identifier@,
            amount: self.amount as nat,
            nonce: self.nonce as nat,
            borrow_timestamp: self.borrow_timestamp as nat,
            collateral_identifier: self.collateral_identifier@,
            collateral_amount: self.collateral_amount as nat,
            collateral_timestamp: self.collateral_timestamp as nat,
        }
    }
}

impl Clone for RepayPosition {
    fn clone(&self) -> (copy: RepayPosition)
        ensures
            copy@ == self@,
    {
        RepayPosition {
            identifier: self.identifier.clone(),
            amount: self.amount,
            nonce: self.nonce,
            borrow_timestamp: self.borrow_timestamp,
            collateral_identifier: self.collateral_identifier.clone(),
            collateral_amount: self.collateral_amount,
            collateral_timestamp: self.collateral_timestamp,
        }
    }
}

/// What a liquidator may claim after settling a position.
#[derive(Debug, PartialEq, Eq)]
pub struct LiquidateData {
    pub collateral_token: TokenIdentifier,
    pub amount: u128,
}

/// What the custodian of the debt token reports about one instance of it: the
/// hash under which the position is filed, and the attributes, if they could
/// be decoded.
#[derive(Debug, PartialEq, Eq)]
pub struct DebtTokenInstance {
    pub hash: Vec<u8>,
    pub metadata: Option<DebtMetadata>,
}

impl DebtTokenInstance {
    /// The attributes as a mathematical value, where there are any.
    pub open spec fn metadata_view(&self) -> Option<DebtMetadataView> {
        match self.metadata {
            Some(metadata) => Some(metadata@),
            None => None,
        }
    }
}

impl View for LiquidateData {
    type V = (Seq<u8>, nat);

    /// The collateral's token and the amount of it.
    open spec fn view(&self) -> (Seq<u8>, nat) {
        (self.collateral_token@, self.amount as nat)
    }
}

/// A deposit receipt to mint and deliver.
#[derive(Debug, PartialEq, Eq)]
pub struct ReceiptOrder {
    pub recipient: Address,
    pub token: TokenIdentifier,
    pub amount: u128,
    pub metadata: InterestMetadata,
}

/// A debt token to mint under the position's id and deliver.
#[derive(Debug, PartialEq, Eq)]
pub struct DebtOrder {
    pub recipient: Address,
    pub token: TokenIdentifier,
    pub amount: u128,
    pub position_id: Vec<u8>,
    pub metadata: DebtMetadata,
}

/// A redeemed receipt to burn and the payment that answers it.
#[derive(Debug, PartialEq, Eq)]
pub struct Payout {
    pub recipient: Address,
    pub burn_token: TokenIdentifier,
    pub burn_nonce: u64,
    pub burn_amount: u128,
    pub asset: TokenIdentifier,
    pub amount: u128,
}

} // verus!
