//! Byte strings: comparison, copies, and the big-endian encoding of numbers.

use vstd::prelude::*;

verus! {

/// Whether two byte strings hold the same bytes.
pub fn bytes_eq(a: &[u8], b: &[u8]) -> (same: bool)
    ensures
        same == (a@ == b@),
{
    if a.len() != b.len() {
        return false;
    }
    let mut i: usize = 0;
    while i < a.len()
        invariant
            i <= a.len(),
            a.len() == b.len(),
            forall|k: int| 0 <= k < i ==> a@[k] == b@[k],
        decreases a.len() - i,
    {
        if a[i] != b[i] {
            return false;
        }
        i = i + 1;
    }
    assert(a@ =~= b@);
    true
}

/// A fresh vector with the bytes of `a`.
pub fn copy_bytes(a: &[u8]) -> (out: Vec<u8>)
    ensures
        out@ == a@,
{
    let mut out: Vec<u8> = Vec::new();
    let mut i: usize = 0;
    while i < a.len()
        invariant
            i <= a.len(),
            out@ == a@.subrange(0, i as int),
        decreases a.len() - i,
    {
        out.push(a[i]);
        assert(out@ =~= a@.subrange(0, i + 1));
        i = i + 1;
    }
    assert(out@ =~= a@);
    out
}

/// The digits of `n` in base 256, most significant first, without leading
/// zeros. Zero has no digits.
pub open spec fn be_digits(n: nat) -> Seq<u8>
    decreases n,
{
    if n == 0 {
        Seq::empty()
    } else {
        be_digits(n / 256).push((n % 256) as u8)
    }
}

/// The `width` least significant digits of `n` in base 256, most significant
/// first, padded with zeros on the left.
pub open spec fn be_fixed(n: nat, width: nat) -> Seq<u8>
    decreases width,
{
    if width == 0 {
        Seq::empty()
    } else {
        be_fixed(n / 256, (width - 1) as nat).push((n % 256) as u8)
    }
}

/// The number that a big-endian digit string stands for.
pub open spec fn be_value(digits: Seq<u8>) -> nat
    decreases digits.len(),
{
    if digits.len() == 0 {
        0
    } else {
        be_value(digits.drop_last()) * 256 + digits.last() as nat
    }
}

/// The shortest big-endian encoding of an amount.
pub fn amount_to_be_bytes(n: u128) -> (out: Vec<u8>)
    ensures
        out@ == be_digits(n as nat),
{
    let mut out: Vec<u8> = Vec::new();
    let mut rest: u128 = n;
    while rest != 0
        invariant
            be_digits(n as nat) == be_digits(rest as nat) + out@,
        decreases rest,
    {
        let digit: u8 = (rest % 256) as u8;
        let ghost before = out@;
        out.insert(0, digit);
        proof {
            assert(be_digits(rest as nat) == be_digits((rest / 256) as nat).push(digit));
            assert(be_digits((rest / 256) as nat).push(digit) + before =~= be_digits(
                (rest / 256) as nat,
            ) + out@);
        }
        rest = rest / 256;
    }
    assert(be_digits(0) + out@ =~= out@);
    out
}

/// The eight-byte big-endian encoding of a nonce.
pub fn nonce_to_be_bytes(n: u64) -> (out: Vec<u8>)
    ensures
        out@ == be_fixed(n as nat, 8),
{
    let mut out: Vec<u8> = Vec::new();
    let mut rest: u64 = n;
    let mut count: usize = 0;
    while count < 8
        invariant
            count <= 8,
            out@.len() == count,
            be_fixed(n as nat, 8) == be_fixed(rest as nat, (8 - count) as nat) + out@,
        decreases 8 - count,
    {
        let digit: u8 = (rest % 256) as u8;
        let ghost before = out@;
        out.insert(0, digit);
        proof {
            let w = (8 - count) as nat;
            assert(be_fixed(rest as nat, w) == be_fixed((rest / 256) as nat, (w - 1) as nat).push(
                digit,
            ));
            assert(be_fixed((rest / 256) as nat, (w - 1) as nat).push(digit) + before
                =~= be_fixed((rest / 256) as nat, (w - 1) as nat) + out@);
        }
        rest = rest / 256;
        count = count + 1;
    }
    assert(be_fixed(rest as nat, 0) + out@ =~= out@);
    out
}

proof fn lemma_be_value_grows(digits: Seq<u8>, cut: int)
    requires
        0 <= cut <= digits.len(),
    ensures
        be_value(digits.subrange(0, cut)) <= be_value(digits),
    decreases digits.len() - cut,
{
    if cut < digits.len() {
        lemma_be_value_grows(digits.drop_last(), cut);
        assert(digits.drop_last().subrange(0, cut) =~= digits.subrange(0, cut));
    } else {
        assert(digits.subrange(0, cut) =~= digits);
    }
}

/// The amount that big-endian `digits` stand for, leading zeros allowed:
/// `None` where it does not fit in 128 bits.
pub fn amount_from_be_bytes(digits: &[u8]) -> (amount: Option<u128>)
    ensures
        match amount {
            Some(v) => v == be_value(digits@),
            None => be_value(digits@) > u128::MAX,
        },
{
    let mut value: u128 = 0;
    let mut i: usize = 0;
    while i < digits.len()
        invariant
            i <= digits.len(),
            value == be_value(digits@.subrange(0, i as int)),
        decreases digits.len() - i,
    {
        let ghost next = digits@.subrange(0, i + 1);
        proof {
            assert(next.drop_last() =~= digits@.subrange(0, i as int));
            assert(next.last() == digits@[i as int]);
            lemma_be_value_grows(digits@, i + 1);
        }
        let shifted: u128 = match value.checked_mul(256) {
            Some(product) => product,
            None => {
                return None;
            },
        };
        value = match shifted.checked_add(digits[i] as u128) {
            Some(sum) => sum,
            None => {
                return None;
            },
        };
        i = i + 1;
    }
    assert(digits@.subrange(0, i as int) =~= digits@);
    Some(value)
}

/// Decoding undoes the shortest encoding: distinct amounts have distinct
/// encodings.
pub proof fn lemma_be_digits_value(n: nat)
    ensures
        be_value(be_digits(n)) == n,
    decreases n,
{
    if n != 0 {
        lemma_be_digits_value(n / 256);
        let d = be_digits(n / 256).push((n % 256) as u8);
        assert(d.drop_last() =~= be_digits(n / 256));
        assert(d.last() == (n % 256) as u8);
    }
}

} // verus!
