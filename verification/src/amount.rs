//! A sixty-four bit amount travels as two parts, so that each ciphertext
//! has a small plaintext range: the low sixteen bits and the high
//! forty-eight.

use vstd::prelude::*;

verus! {

/// One more than the largest low part.
pub const PENDING_LO_RANGE: u64 = 0x1_0000;

/// One more than the largest high part.
pub const PENDING_HI_RANGE: u64 = 0x1_0000_0000_0000;

/// The low part of `amount`.
pub open spec fn spec_amount_lo(amount: u64) -> u64 {
    (amount % 0x1_0000) as u64
}

/// The high part of `amount`.
pub open spec fn spec_amount_hi(amount: u64) -> u64 {
    (amount / 0x1_0000) as u64
}

/// The amount that has the given parts.
pub open spec fn spec_combine(lo: int, hi: int) -> int {
    lo + hi * 0x1_0000
}

/// Splits `amount` into its low sixteen and its high forty-eight bits.
pub fn split_amount(amount: u64) -> (parts: (u64, u64))
    ensures
        parts.0 == spec_amount_lo(amount),
        parts.1 == spec_amount_hi(amount),
        parts.0 < PENDING_LO_RANGE,
        parts.1 < PENDING_HI_RANGE,
        spec_combine(parts.0 as int, parts.1 as int) == amount,
{
    let lo: u64 = amount & 0xffff;
    let hi: u64 = amount >> 16;
    assert(amount & 0xffff == amount % 0x1_0000) by (bit_vector);
    assert(amount >> 16 == amount / 0x1_0000) by (bit_vector);
    assert((amount >> 16) < 0x1_0000_0000_0000) by (bit_vector);
    (lo, hi)
}

/// Puts the two parts of an amount together again; `None` where the result
/// would not fit.
pub fn combine_amount(lo: u64, hi: u64) -> (amount: Option<u64>)
    ensures
        amount is Some <==> spec_combine(lo as int, hi as int) <= u64::MAX,
        amount matches Some(a) ==> a == spec_combine(lo as int, hi as int),
{
    if hi >= PENDING_HI_RANGE {
        return None;
    }
    let shifted: u64 = hi * PENDING_LO_RANGE;
    shifted.checked_add(lo)
}

/// Splitting loses nothing: the parts of an amount combine to it, and the
/// parts of a combination are the parts that went in.
pub proof fn lemma_split_combine(amount: u64, lo: u64, hi: u64)
    ensures
        spec_combine(spec_amount_lo(amount) as int, spec_amount_hi(amount) as int) == amount,
        lo < PENDING_LO_RANGE && hi < PENDING_HI_RANGE ==> {
            &&& spec_combine(lo as int, hi as int) <= u64::MAX
            &&& spec_amount_lo(spec_combine(lo as int, hi as int) as u64) == lo
            &&& spec_amount_hi(spec_combine(lo as int, hi as int) as u64) == hi
        },
{
}

} // verus!
