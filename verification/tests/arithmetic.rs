use liquidity_pool::byte_map::ByteMap;
use liquidity_pool::bytes::{
    amount_from_be_bytes, amount_to_be_bytes, bytes_eq, copy_bytes, nonce_to_be_bytes,
};
use liquidity_pool::error::PoolError;
use liquidity_pool::fixed_point::mul_div;
use liquidity_pool::health::compute_health_factor;
use liquidity_pool::interest::{
    accrued_interest, compute_debt, compute_withdrawal_amount, get_timestamp_diff, BORROW_RATE,
    DEPOSIT_RATE, RATE_SCALE, SECONDS_PER_YEAR,
};
use liquidity_pool::ledger::ReserveLedger;
use liquidity_pool::registry::{DebtPositionRegistry, RepaymentStaging};
use liquidity_pool::types::{Address, DebtPosition, RepayPosition, TokenIdentifier};

// Exact multiplication and division

#[test]
fn mul_div_small_values() {
    assert_eq!(mul_div(10, 10, 3), Some(33));
    assert_eq!(mul_div(0, 10, 3), Some(0));
    assert_eq!(mul_div(10, 0, 3), Some(0));
    assert_eq!(mul_div(7, 1, 8), Some(0));
    assert_eq!(mul_div(7, 8, 8), Some(7));
    assert_eq!(mul_div(1, 1, 1), Some(1));
}

#[test]
fn mul_div_survives_a_product_beyond_128_bits() {
    assert_eq!(mul_div(u128::MAX, 3, 3), Some(u128::MAX));
    assert_eq!(mul_div(u128::MAX, u128::MAX, u128::MAX), Some(u128::MAX));
    assert_eq!(mul_div(u128::MAX, u128::MAX - 1, u128::MAX), Some(u128::MAX - 1));
    assert_eq!(mul_div(u128::MAX - 1, u128::MAX - 1, u128::MAX), Some(u128::MAX - 2));
    assert_eq!(mul_div(1 << 127, 6, 4), Some(3 << 126));
    assert_eq!(mul_div(1 << 100, 1 << 100, 1 << 73), Some(1 << 127));
    // (2^64 + 1)^2 / 2^64 = 2^64 + 2, rounded down
    assert_eq!(mul_div((1 << 64) + 1, (1 << 64) + 1, 1 << 64), Some((1 << 64) + 2));
}

#[test]
fn mul_div_reports_a_quotient_beyond_128_bits() {
    assert_eq!(mul_div(u128::MAX, 2, 1), None);
    assert_eq!(mul_div(u128::MAX, 4, 3), None);
    assert_eq!(mul_div(1 << 100, 1 << 100, 1 << 72), None);
    assert_eq!(mul_div(u128::MAX, u128::MAX, u128::MAX - 1), None);
}

// Interest

#[test]
fn interest_for_one_year_is_rate_times_principal() {
    assert_eq!(accrued_interest(1_000_000, SECONDS_PER_YEAR, BORROW_RATE), Some(100_000));
    assert_eq!(accrued_interest(1_000_000, SECONDS_PER_YEAR, DEPOSIT_RATE), Some(50_000));
    assert_eq!(accrued_interest(1_000_000, SECONDS_PER_YEAR, RATE_SCALE), Some(1_000_000));
    assert_eq!(compute_debt(1_000_000, SECONDS_PER_YEAR), Some(100_000));
    assert_eq!(compute_debt(1_000_000, 2 * SECONDS_PER_YEAR), Some(200_000));
}

#[test]
fn interest_is_rounded_down_once() {
    // 1000 * 100_000_000 * 1_000_000 / (1_000_000_000 * 31_556_926) = 3.168...
    assert_eq!(compute_debt(1000, 1_000_000), Some(3));
    // 9 * 0.1 = 0.9
    assert_eq!(compute_debt(9, SECONDS_PER_YEAR), Some(0));
    assert_eq!(compute_debt(10, SECONDS_PER_YEAR), Some(1));
    // half a year on 19: 0.95
    assert_eq!(compute_debt(19, SECONDS_PER_YEAR / 2), Some(0));
    assert_eq!(compute_debt(21, SECONDS_PER_YEAR / 2), Some(1));
}

#[test]
fn interest_is_zero_without_time_or_principal() {
    assert_eq!(compute_debt(u128::MAX, 0), Some(0));
    assert_eq!(compute_debt(0, u64::MAX), Some(0));
    assert_eq!(accrued_interest(5, 5, 0), Some(0));
}

#[test]
fn interest_never_shrinks_with_time() {
    let mut last = 0u128;
    for elapsed in [0u64, 1, 2, 1000, SECONDS_PER_YEAR - 1, SECONDS_PER_YEAR, u64::MAX] {
        let interest = compute_debt(123_456_789_012, elapsed).unwrap();
        assert!(interest >= last);
        last = interest;
    }
}

#[test]
fn interest_on_largest_principal() {
    // A year at a tenth: floor(MAX / 10).
    assert_eq!(compute_debt(u128::MAX, SECONDS_PER_YEAR), Some(u128::MAX / 10));
    assert_eq!(compute_debt(u128::MAX, 10 * SECONDS_PER_YEAR), Some(u128::MAX));
    assert_eq!(compute_debt(u128::MAX, 10 * SECONDS_PER_YEAR + 1), None);
    assert_eq!(compute_debt(u128::MAX, u64::MAX), None);
}

#[test]
fn withdrawal_amount_adds_interest_to_principal() {
    assert_eq!(compute_withdrawal_amount(1_000_000, SECONDS_PER_YEAR), Some(1_050_000));
    assert_eq!(compute_withdrawal_amount(1_000_000, 0), Some(1_000_000));
    assert_eq!(compute_withdrawal_amount(0, SECONDS_PER_YEAR), Some(0));
    assert_eq!(compute_withdrawal_amount(u128::MAX, 0), Some(u128::MAX));
    assert_eq!(compute_withdrawal_amount(u128::MAX, SECONDS_PER_YEAR), None);
    assert_eq!(compute_withdrawal_amount(u128::MAX - 1, 1_000), None);
}

#[test]
fn timestamp_diff_rejects_future_reference() {
    assert_eq!(get_timestamp_diff(10, 25), Ok(15));
    assert_eq!(get_timestamp_diff(10, 10), Ok(0));
    assert_eq!(get_timestamp_diff(0, u64::MAX), Ok(u64::MAX));
    assert_eq!(get_timestamp_diff(11, 10), Err(PoolError::InvalidTimeRange));
}

// Health factor

#[test]
fn health_factor_is_reserve_per_unit_borrowed() {
    assert_eq!(compute_health_factor(800, 200), 4_000_000_000);
    assert_eq!(compute_health_factor(200, 800), 250_000_000);
    assert_eq!(compute_health_factor(1, 3), 333_333_333);
    assert_eq!(compute_health_factor(0, 5), 0);
    assert_eq!(compute_health_factor(u128::MAX, u128::MAX), 1_000_000_000);
}

#[test]
fn health_factor_is_capped() {
    assert_eq!(compute_health_factor(5, 0), u128::MAX);
    assert_eq!(compute_health_factor(0, 0), u128::MAX);
    assert_eq!(compute_health_factor(u128::MAX, 1), u128::MAX);
    assert_eq!(compute_health_factor(u128::MAX, 999_999_999), u128::MAX);
    assert_eq!(compute_health_factor(u128::MAX, 1_000_000_000), u128::MAX);
    assert_eq!(compute_health_factor(u128::MAX - 1, 1_000_000_000), u128::MAX - 1);
}

// Bytes

#[test]
fn amounts_encode_without_leading_zeros() {
    assert_eq!(amount_to_be_bytes(0), Vec::<u8>::new());
    assert_eq!(amount_to_be_bytes(1), vec![1]);
    assert_eq!(amount_to_be_bytes(255), vec![255]);
    assert_eq!(amount_to_be_bytes(256), vec![1, 0]);
    assert_eq!(amount_to_be_bytes(0x01_02_03), vec![1, 2, 3]);
    assert_eq!(amount_to_be_bytes(u128::MAX), vec![255u8; 16]);
    assert_eq!(amount_to_be_bytes(1 << 120), u128::to_be_bytes(1 << 120).to_vec());
}

#[test]
fn amounts_decode_with_or_without_leading_zeros() {
    assert_eq!(amount_from_be_bytes(&[]), Some(0));
    assert_eq!(amount_from_be_bytes(&[0]), Some(0));
    assert_eq!(amount_from_be_bytes(&[1, 0]), Some(256));
    assert_eq!(amount_from_be_bytes(&[0, 0, 1, 2, 3]), Some(0x01_02_03));
    assert_eq!(amount_from_be_bytes(&[255u8; 16]), Some(u128::MAX));
    let mut padded = vec![0u8; 4];
    padded.extend_from_slice(&[255u8; 16]);
    assert_eq!(amount_from_be_bytes(&padded), Some(u128::MAX));
}

#[test]
fn amounts_beyond_128_bits_do_not_decode() {
    let mut digits = vec![1u8];
    digits.extend_from_slice(&[0u8; 16]);
    assert_eq!(amount_from_be_bytes(&digits), None);
    assert_eq!(amount_from_be_bytes(&[255u8; 17]), None);
    assert_eq!(amount_from_be_bytes(&[1u8; 40]), None);
}

#[test]
fn amounts_survive_encoding_and_decoding() {
    for amount in [0u128, 1, 255, 256, 65_535, 65_536, 1 << 64, u128::MAX - 1, u128::MAX] {
        assert_eq!(amount_from_be_bytes(&amount_to_be_bytes(amount)), Some(amount));
    }
}

#[test]
fn nonces_encode_in_eight_bytes() {
    assert_eq!(nonce_to_be_bytes(0), vec![0u8; 8]);
    assert_eq!(nonce_to_be_bytes(1), vec![0, 0, 0, 0, 0, 0, 0, 1]);
    assert_eq!(nonce_to_be_bytes(0x0102), vec![0, 0, 0, 0, 0, 0, 1, 2]);
    assert_eq!(nonce_to_be_bytes(u64::MAX), vec![255u8; 8]);
    assert_eq!(nonce_to_be_bytes(0x0102030405060708), 0x0102030405060708u64.to_be_bytes().to_vec());
}

#[test]
fn byte_strings_compare_by_content() {
    assert!(bytes_eq(b"", b""));
    assert!(bytes_eq(b"abc", b"abc"));
    assert!(!bytes_eq(b"abc", b"abd"));
    assert!(!bytes_eq(b"abc", b"ab"));
    assert!(!bytes_eq(b"", b"a"));
    assert_eq!(copy_bytes(b"abc"), b"abc".to_vec());
    assert_eq!(copy_bytes(b""), Vec::<u8>::new());
}

// Addresses and tokens

#[test]
fn only_the_address_of_zeros_is_zero() {
    assert!(Address::new([0u8; 32]).is_zero());
    assert!(!Address::new([1u8; 32]).is_zero());
    let mut bytes = [0u8; 32];
    bytes[31] = 1;
    assert!(!Address::new(bytes).is_zero());
    let mut bytes = [0u8; 32];
    bytes[0] = 128;
    assert!(!Address::new(bytes).is_zero());
}

#[test]
fn tokens_compare_by_name() {
    let a = TokenIdentifier::from_slice(b"AAA-111111");
    let b = TokenIdentifier::new(b"AAA-111111".to_vec());
    let c = TokenIdentifier::from_slice(b"AAA-111112");
    assert!(a.same_as(&b));
    assert!(!a.same_as(&c));
    assert!(a.clone().same_as(&a));
    assert_eq!(a.as_bytes(), b"AAA-111111");
    assert!(!TokenIdentifier::from_slice(b"").same_as(&a));
}

// Stores

#[test]
fn byte_map_inserts_replaces_and_removes() {
    let mut map: ByteMap<u128> = ByteMap::new();
    assert_eq!(map.get(b"a"), None);
    assert!(!map.contains_key(b"a"));
    map.insert(b"a".to_vec(), 1);
    map.insert(b"b".to_vec(), 2);
    map.insert(b"".to_vec(), 3);
    assert_eq!(map.get(b"a"), Some(&1));
    assert_eq!(map.get(b"b"), Some(&2));
    assert_eq!(map.get(b""), Some(&3));
    map.insert(b"a".to_vec(), 10);
    assert_eq!(map.get(b"a"), Some(&10));
    assert_eq!(map.get(b"b"), Some(&2));
    assert!(map.remove(b"a"));
    assert!(!map.remove(b"a"));
    assert_eq!(map.get(b"a"), None);
    assert_eq!(map.get(b"b"), Some(&2));
    assert!(map.contains_key(b""));
    assert!(map.remove(b""));
    assert_eq!(map.get(b"b"), Some(&2));
}

#[test]
fn ledger_balances_default_to_zero() {
    let mut ledger = ReserveLedger::new();
    assert_eq!(ledger.balance(b"X"), 0);
    ledger.set_balance(b"X", 5);
    ledger.set_balance(b"Y", 7);
    assert_eq!(ledger.balance(b"X"), 5);
    assert_eq!(ledger.balance(b"Y"), 7);
    ledger.set_balance(b"X", 0);
    assert_eq!(ledger.balance(b"X"), 0);
    assert_eq!(ledger.balance(b"Y"), 7);
    assert_eq!(ledger.balance(b"Z"), 0);
}

fn position(size: u128) -> DebtPosition {
    DebtPosition {
        size,
        health_factor: 17,
        is_liquidated: false,
        timestamp: 4,
        collateral_amount: size,
        collateral_identifier: TokenIdentifier::from_slice(b"COLL-123456"),
    }
}

#[test]
fn registry_flags_a_position_and_keeps_the_rest() {
    let mut registry = DebtPositionRegistry::new();
    assert!(!registry.mark_liquidated(b"first"));
    registry.record(b"first", position(10));
    registry.record(b"second", position(20));
    assert!(registry.mark_liquidated(b"first"));
    let mut flagged = position(10);
    flagged.is_liquidated = true;
    assert_eq!(registry.get(b"first"), Some(&flagged));
    assert_eq!(registry.get(b"second"), Some(&position(20)));
    assert!(registry.mark_liquidated(b"first"));
    assert_eq!(registry.get(b"first"), Some(&flagged));
    assert!(!registry.mark_liquidated(b"third"));
    assert_eq!(registry.get(b"third"), None);
}

fn entry(amount: u128) -> RepayPosition {
    RepayPosition {
        identifier: TokenIdentifier::from_slice(b"DEBT-123456"),
        amount,
        nonce: 2,
        borrow_timestamp: 4,
        collateral_identifier: TokenIdentifier::from_slice(b"COLL-123456"),
        collateral_amount: 9,
        collateral_timestamp: 1,
    }
}

#[test]
fn staging_stages_and_discards() {
    let mut staging = RepaymentStaging::new();
    assert_eq!(staging.get(b"one"), None);
    staging.stage(b"one", entry(5));
    staging.stage(b"two", entry(6));
    assert_eq!(staging.get(b"one"), Some(&entry(5)));
    staging.stage(b"one", entry(3));
    assert_eq!(staging.get(b"one"), Some(&entry(3)));
    staging.discard(b"one");
    assert_eq!(staging.get(b"one"), None);
    assert_eq!(staging.get(b"two"), Some(&entry(6)));
    staging.discard(b"one");
    assert_eq!(staging.get(b"two"), Some(&entry(6)));
}

// Messages

#[test]
fn every_error_has_its_message() {
    assert_eq!(PoolError::InvalidAmount.message(), "amount must be greater then 0");
    assert_eq!(PoolError::InvalidAddress.message(), "invalid address provided");
    assert_eq!(
        PoolError::UnsupportedAsset.message(),
        "asset not supported for this liquidity pool"
    );
    assert_eq!(PoolError::UnsupportedToken.message(), "token not supported by this pool");
    assert_eq!(PoolError::EmptyReserve.message(), "asset reserve is empty");
    assert_eq!(PoolError::InsufficientFunds.message(), "insufficient funds");
    assert_eq!(PoolError::AmountOverflow.message(), "amount out of range");
    assert_eq!(PoolError::InvalidPosition.message(), "invalid debt position");
    assert_eq!(PoolError::AlreadyLiquidated.message(), "position is liquidated");
    assert_eq!(PoolError::InvalidMetadata.message(), "token attributes cannot be read");
    assert_eq!(
        PoolError::UnknownRepayId.message(),
        "there are no locked borrowed token for this id, lock b tokens first"
    );
    assert_eq!(
        PoolError::InsufficientLock.message(),
        "b tokens amount locked must be equal with the amount of asset token send"
    );
    assert_eq!(PoolError::InvalidTimeRange.message(), "invalid timestamp");
    assert_eq!(PoolError::HealthFactorTooHigh.message(), "the health factor is not low enough");
    assert_eq!(
        PoolError::BadSettlementAmount.message(),
        "position can't be liquidated, not enough or to much tokens send"
    );
}
