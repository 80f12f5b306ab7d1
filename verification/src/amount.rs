//! Exact arithmetic on unsigned big-endian byte strings of any length.
//!
//! Balances and token quantities arrive as big-endian bytes. Their meaning is
//! a natural number, `be_value`; what is reported of a difference is its
//! magnitude in the shortest big-endian form, `magnitude_bytes`. The
//! arithmetic itself is done by `substreams::scalar::BigInt`.

use crate::encoding::decimal_chars;
use substreams::scalar::BigInt;
use vstd::prelude::*;

verus! {

/// The number that a big-endian byte string denotes. The empty string
/// denotes zero, and leading zero bytes do not count.
pub open spec fn be_value(bytes: Seq<u8>) -> nat
    decreases bytes.len(),
{
    if bytes.len() == 0 {
        0
    } else {
        be_value(bytes.drop_last()) * 256 + bytes.last() as nat
    }
}

/// The big-endian bytes of `n` without a leading zero byte; empty for zero.
pub open spec fn minimal_be(n: nat) -> Seq<u8>
    decreases n,
{
    if n == 0 {
        Seq::empty()
    } else {
        minimal_be(n / 256).push((n % 256) as u8)
    }
}

/// The reported form of a magnitude: the shortest big-endian bytes of `n`,
/// and the single byte zero for zero.
pub open spec fn magnitude_bytes(n: nat) -> Seq<u8> {
    if n == 0 {
        seq![0u8]
    } else {
        minimal_be(n)
    }
}

/// The distance of `i` from zero.
pub open spec fn magnitude(i: int) -> nat {
    if i < 0 {
        (-i) as nat
    } else {
        i as nat
    }
}

/// The number held in an optional amount; an absent amount counts as zero.
pub open spec fn amount_value(amount: Option<Vec<u8>>) -> nat {
    match amount {
        Some(bytes) => be_value(bytes@),
        None => 0,
    }
}

/// `minimal_be` denotes the number it was made from.
pub proof fn lemma_minimal_be_value(n: nat)
    ensures
        be_value(minimal_be(n)) == n,
    decreases n,
{
    if n != 0 {
        lemma_minimal_be_value(n / 256);
        let s = minimal_be(n / 256).push((n % 256) as u8);
        assert(s.drop_last() =~= minimal_be(n / 256));
    }
}

/// The reported form denotes the magnitude it was made from, and has no
/// leading zero byte unless the magnitude is zero.
pub proof fn lemma_magnitude_bytes(n: nat)
    ensures
        be_value(magnitude_bytes(n)) == n,
        magnitude_bytes(n).len() >= 1,
        n > 0 ==> magnitude_bytes(n)[0] != 0,
    decreases n,
{
    lemma_minimal_be_value(n);
    if n == 0 {
        assert(seq![0u8].drop_last() =~= Seq::<u8>::empty());
    } else if n < 256 {
        assert(n / 256 == 0);
        assert(minimal_be(0) =~= Seq::<u8>::empty());
        assert(minimal_be(n) =~= seq![(n % 256) as u8]);
    } else {
        lemma_magnitude_bytes(n / 256);
    }
}

/// Reads the bytes with `BigInt::from_unsigned_bytes_be` and writes the
/// number back with `BigInt::to_bytes_be`, whose second part is the
/// magnitude without leading zero bytes, one zero byte for zero.
#[verifier::external_body]
pub(crate) fn be_normalize(bytes: &[u8]) -> (out: Vec<u8>)
    ensures
        out@ == magnitude_bytes(be_value(bytes@)),
{
    BigInt::from_unsigned_bytes_be(bytes).to_bytes_be().1
}

/// Adds the two numbers with `BigInt`'s `+` and writes the sum with
/// `BigInt::to_bytes_be`.
#[verifier::external_body]
pub(crate) fn be_sum(a: &[u8], b: &[u8]) -> (out: Vec<u8>)
    ensures
        out@ == magnitude_bytes(be_value(a@) + be_value(b@)),
{
    (BigInt::from_unsigned_bytes_be(a) + BigInt::from_unsigned_bytes_be(b)).to_bytes_be().1
}

/// Subtracts the second number from the first with `BigInt`'s `-` and keeps
/// the magnitude that `BigInt::to_bytes_be` gives beside the sign.
#[verifier::external_body]
pub(crate) fn be_distance(a: &[u8], b: &[u8]) -> (out: Vec<u8>)
    ensures
        out@ == magnitude_bytes(magnitude(be_value(a@) - be_value(b@))),
{
    (BigInt::from_unsigned_bytes_be(a) - BigInt::from_unsigned_bytes_be(b)).to_bytes_be().1
}

/// Compares the two numbers with `BigInt`'s `<`.
#[verifier::external_body]
pub(crate) fn be_less(a: &[u8], b: &[u8]) -> (less: bool)
    ensures
        less == (be_value(a@) < be_value(b@)),
{
    BigInt::from_unsigned_bytes_be(a) < BigInt::from_unsigned_bytes_be(b)
}

/// Writes the number with `BigInt`'s `to_string`, which gives the decimal
/// digits without a sign for a number that is not negative.
#[verifier::external_body]
pub(crate) fn be_decimal(bytes: &[u8]) -> (text: String)
    ensures
        text@ == decimal_chars(be_value(bytes@)),
{
    BigInt::from_unsigned_bytes_be(bytes).to_string()
}

/// The shortest big-endian bytes of the number that `bytes` denotes.
pub fn normalize_amount(bytes: &Vec<u8>) -> (out: Vec<u8>)
    ensures
        out@ == magnitude_bytes(be_value(bytes@)),
{
    be_normalize(bytes.as_slice())
}

/// Decimal text of the number that `bytes` denotes.
pub fn amount_to_decimal(bytes: &Vec<u8>) -> (text: String)
    ensures
        text@ == decimal_chars(be_value(bytes@)),
{
    be_decimal(bytes.as_slice())
}

/// A signed running total of balance movements, held as the sum of what came
/// in and the sum of what went out.
#[derive(Debug, Clone)]
pub struct SignedTotal {
    pub credit: Vec<u8>,
    pub debit: Vec<u8>,
}

impl SignedTotal {
    /// The total: credits less debits.
    pub open spec fn value(&self) -> int {
        be_value(self.credit@) - be_value(self.debit@)
    }

    /// The total zero.
    pub fn zero() -> (total: SignedTotal)
        ensures
            total.value() == 0,
    {
        SignedTotal { credit: Vec::new(), debit: Vec::new() }
    }

    /// Adds the movement from `old_value` to `new_value`.
    pub fn add_change(&mut self, new_value: &Option<Vec<u8>>, old_value: &Option<Vec<u8>>)
        ensures
            final(self).value() == old(self).value() + amount_value(*new_value) - amount_value(
                *old_value,
            ),
    {
        proof {
            lemma_magnitude_bytes(be_value(self.credit@) + amount_value(*new_value));
            lemma_magnitude_bytes(be_value(self.debit@) + amount_value(*old_value));
            assert(be_value(Seq::<u8>::empty()) == 0);
        }
        let no_bytes: Vec<u8> = Vec::new();
        let credit = match new_value {
            Some(bytes) => be_sum(self.credit.as_slice(), bytes.as_slice()),
            None => be_sum(self.credit.as_slice(), no_bytes.as_slice()),
        };
        let debit = match old_value {
            Some(bytes) => be_sum(self.debit.as_slice(), bytes.as_slice()),
            None => be_sum(self.debit.as_slice(), no_bytes.as_slice()),
        };
        self.credit = credit;
        self.debit = debit;
    }

    /// Whether the total is above zero.
    pub fn is_positive(&self) -> (positive: bool)
        ensures
            positive == (self.value() > 0),
    {
        be_less(self.debit.as_slice(), self.credit.as_slice())
    }

    /// Whether the total is below zero.
    pub fn is_negative(&self) -> (negative: bool)
        ensures
            negative == (self.value() < 0),
    {
        be_less(self.credit.as_slice(), self.debit.as_slice())
    }

    /// The magnitude of the total in its reported form.
    pub fn magnitude_bytes(&self) -> (out: Vec<u8>)
        ensures
            out@ == magnitude_bytes(magnitude(self.value())),
    {
        be_distance(self.credit.as_slice(), self.debit.as_slice())
    }
}

} // verus!
