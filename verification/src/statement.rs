//! The statement that a proof is verified against: a byte string derived
//! from the keys, the ciphertexts as they stand before the transition, and
//! the public inputs. No two sets of inputs give the same statement.

use vstd::prelude::*;
use vstd::bytes::{
    lemma_auto_spec_u64_to_from_le_bytes, spec_u64_from_le_bytes, spec_u64_to_le_bytes,
    spec_u64_to_le_bytes_open, spec_u64_to_le_bytes_to_open,
};
use crate::account::ConfidentialTransferAccount;
use crate::interfaces::{ProofKind, TransferProof};
use crate::mint::ConfidentialTransferMint;
use crate::pubkey::Pubkey;

verus! {

/// The first byte of every statement.
pub const STATEMENT_VERSION: u8 = 1;

/// The second byte of a statement: its kind.
pub open spec fn spec_kind_tag(kind: ProofKind) -> u8 {
    match kind {
        ProofKind::Transfer => 0,
        ProofKind::Withdraw => 1,
        ProofKind::CloseCheck => 2,
    }
}

/// A byte string of any length as it stands in a statement: its length in
/// eight bytes, low byte first, then the bytes.
pub open spec fn spec_field(bytes: Seq<u8>) -> Seq<u8> {
    spec_u64_to_le_bytes(bytes.len() as u64) + bytes
}

/// The statement of a transfer.
pub open spec fn spec_transfer_statement(
    source_key: Seq<u8>,
    dest_key: Seq<u8>,
    auditor_key: Seq<u8>,
    source_available: Seq<u8>,
    debit: Seq<u8>,
    credit_lo: Seq<u8>,
    credit_hi: Seq<u8>,
    auditor_ciphertext: Seq<u8>,
) -> Seq<u8> {
    seq![STATEMENT_VERSION, spec_kind_tag(ProofKind::Transfer)] + (source_key + (dest_key + (
    auditor_key + (spec_field(source_available) + (spec_field(debit) + (spec_field(credit_lo) + (
    spec_field(credit_hi) + spec_field(auditor_ciphertext))))))))
}

/// The statement of a withdrawal.
pub open spec fn spec_withdraw_statement(key: Seq<u8>, available: Seq<u8>, amount: u64) -> Seq<
    u8,
> {
    seq![STATEMENT_VERSION, spec_kind_tag(ProofKind::Withdraw)] + (key + (spec_u64_to_le_bytes(
        amount,
    ) + spec_field(available)))
}

/// The tag of `kind`.
pub fn kind_tag(kind: ProofKind) -> (tag: u8)
    ensures
        tag == spec_kind_tag(kind),
{
    match kind {
        ProofKind::Transfer => 0,
        ProofKind::Withdraw => 1,
        ProofKind::CloseCheck => 2,
    }
}

/// Appends the eight bytes of `x`, low byte first.
pub(crate) fn push_u64(out: &mut Vec<u8>, x: u64)
    ensures
        final(out)@ == old(out)@ + spec_u64_to_le_bytes(x),
{
    proof {
        spec_u64_to_le_bytes_to_open(x);
    }
    out.push((x & 0xff) as u8);
    out.push(((x >> 8) & 0xff) as u8);
    out.push(((x >> 16) & 0xff) as u8);
    out.push(((x >> 24) & 0xff) as u8);
    out.push(((x >> 32) & 0xff) as u8);
    out.push(((x >> 40) & 0xff) as u8);
    out.push(((x >> 48) & 0xff) as u8);
    out.push(((x >> 56) & 0xff) as u8);
    assert(out@ =~= old(out)@ + spec_u64_to_le_bytes_open(x));
}

/// Appends the thirty-two bytes of `key`.
pub(crate) fn push_key(out: &mut Vec<u8>, key: &Pubkey)
    ensures
        final(out)@ == old(out)@ + key@,
{
    let mut i: usize = 0;
    while i < 32
        invariant
            i <= 32,
            out@ == old(out)@ + key@.subrange(0, i as int),
        decreases 32 - i,
    {
        out.push(key.bytes[i]);
        i = i + 1;
        assert(out@ =~= old(out)@ + key@.subrange(0, i as int));
    }
    assert(key@.subrange(0, 32) =~= key@);
}

/// Appends `bytes` behind their length.
pub(crate) fn push_field(out: &mut Vec<u8>, bytes: &Vec<u8>)
    ensures
        final(out)@ == old(out)@ + spec_field(bytes@),
{
    push_u64(out, bytes.len() as u64);
    let mut i: usize = 0;
    while i < bytes.len()
        invariant
            i <= bytes.len(),
            out@ == old(out)@ + spec_u64_to_le_bytes(bytes@.len() as u64) + bytes@.subrange(
                0,
                i as int,
            ),
        decreases bytes.len() - i,
    {
        out.push(bytes[i]);
        i = i + 1;
        assert(out@ =~= old(out)@ + spec_u64_to_le_bytes(bytes@.len() as u64) + bytes@.subrange(
            0,
            i as int,
        ));
    }
    assert(bytes@.subrange(0, bytes@.len() as int) =~= bytes@);
    assert(out@ =~= old(out)@ + spec_field(bytes@));
}

/// The statement against which the proof of `transfer` is verified: the
/// three keys, the source's available balance as it stands, and the
/// ciphertexts that the sender submitted.
pub fn transfer_statement(
    source: &ConfidentialTransferAccount,
    dest: &ConfidentialTransferAccount,
    mint: &ConfidentialTransferMint,
    transfer: &TransferProof,
) -> (statement: Vec<u8>)
    ensures
        statement@ == spec_transfer_statement(
            source@.encryption_public_key,
            dest@.encryption_public_key,
            mint@.auditor_public_key,
            source@.available_balance,
            transfer.debit@,
            transfer.credit_lo@,
            transfer.credit_hi@,
            transfer.auditor_ciphertext@,
        ),
{
    let mut out: Vec<u8> = Vec::new();
    out.push(STATEMENT_VERSION);
    out.push(kind_tag(ProofKind::Transfer));
    push_key(&mut out, &source.encryption_public_key);
    push_key(&mut out, &dest.encryption_public_key);
    push_key(&mut out, &mint.auditor_public_key);
    push_field(&mut out, &source.available_balance);
    push_field(&mut out, &transfer.debit);
    push_field(&mut out, &transfer.credit_lo);
    push_field(&mut out, &transfer.credit_hi);
    push_field(&mut out, &transfer.auditor_ciphertext);
    assert(out@ =~= spec_transfer_statement(
        source@.encryption_public_key,
        dest@.encryption_public_key,
        mint@.auditor_public_key,
        source@.available_balance,
        transfer.debit@,
        transfer.credit_lo@,
        transfer.credit_hi@,
        transfer.auditor_ciphertext@,
    ));
    out
}

/// The statement against which the proof of a withdrawal of `amount` is
/// verified: the account's key, the amount, and the available balance as it
/// stands.
pub fn withdraw_statement(account: &ConfidentialTransferAccount, amount: u64) -> (statement: Vec<
    u8,
>)
    ensures
        statement@ == spec_withdraw_statement(
            account@.encryption_public_key,
            account@.available_balance,
            amount,
        ),
{
    let mut out: Vec<u8> = Vec::new();
    out.push(STATEMENT_VERSION);
    out.push(kind_tag(ProofKind::Withdraw));
    push_key(&mut out, &account.encryption_public_key);
    push_u64(&mut out, amount);
    push_field(&mut out, &account.available_balance);
    assert(out@ =~= spec_withdraw_statement(
        account@.encryption_public_key,
        account@.available_balance,
        amount,
    ));
    out
}

/// Two strings that begin with parts of one length and are equal have equal
/// parts and equal rests.
pub(crate) proof fn lemma_same_prefix(a1: Seq<u8>, rest1: Seq<u8>, a2: Seq<u8>, rest2: Seq<u8>)
    requires
        a1.len() == a2.len(),
        a1 + rest1 == a2 + rest2,
    ensures
        a1 == a2,
        rest1 == rest2,
{
    let whole = a1 + rest1;
    let n = a1.len() as int;
    assert(a1 =~= whole.subrange(0, n));
    assert(a2 =~= (a2 + rest2).subrange(0, n));
    assert(rest1 =~= whole.subrange(n, whole.len() as int));
    assert(rest2 =~= (a2 + rest2).subrange(n, (a2 + rest2).len() as int));
}

/// Two strings that begin with fields and are equal have equal fields and
/// equal rests.
pub(crate) proof fn lemma_same_field(b1: Seq<u8>, rest1: Seq<u8>, b2: Seq<u8>, rest2: Seq<u8>)
    requires
        b1.len() <= u64::MAX,
        b2.len() <= u64::MAX,
        spec_field(b1) + rest1 == spec_field(b2) + rest2,
    ensures
        b1 == b2,
        rest1 == rest2,
{
    lemma_auto_spec_u64_to_from_le_bytes();
    let l1 = spec_u64_to_le_bytes(b1.len() as u64);
    let l2 = spec_u64_to_le_bytes(b2.len() as u64);
    assert(spec_field(b1) + rest1 =~= l1 + (b1 + rest1));
    assert(spec_field(b2) + rest2 =~= l2 + (b2 + rest2));
    lemma_same_prefix(l1, b1 + rest1, l2, b2 + rest2);
    assert(spec_u64_from_le_bytes(l1) == b1.len() as u64);
    assert(spec_u64_from_le_bytes(l2) == b2.len() as u64);
    lemma_same_prefix(b1, rest1, b2, rest2);
}

/// A transfer statement binds everything it was derived from: two
/// statements are equal only where the three keys, the source's available
/// balance and the four submitted ciphertexts are. So a verdict on the
/// statement of one balance is no verdict on the statement of another: once
/// a first debit has changed the source's available balance, a proof made
/// against the old balance is verified against a statement that it was not
/// made for.
pub proof fn lemma_transfer_statement_binds_its_inputs(
    source_key: Seq<u8>,
    dest_key: Seq<u8>,
    auditor_key: Seq<u8>,
    source_available: Seq<u8>,
    debit: Seq<u8>,
    credit_lo: Seq<u8>,
    credit_hi: Seq<u8>,
    auditor_ciphertext: Seq<u8>,
    source_key2: Seq<u8>,
    dest_key2: Seq<u8>,
    auditor_key2: Seq<u8>,
    source_available2: Seq<u8>,
    debit2: Seq<u8>,
    credit_lo2: Seq<u8>,
    credit_hi2: Seq<u8>,
    auditor_ciphertext2: Seq<u8>,
)
    requires
        source_key.len() == 32 && dest_key.len() == 32 && auditor_key.len() == 32,
        source_key2.len() == 32 && dest_key2.len() == 32 && auditor_key2.len() == 32,
        source_available.len() <= u64::MAX && source_available2.len() <= u64::MAX,
        debit.len() <= u64::MAX && debit2.len() <= u64::MAX,
        credit_lo.len() <= u64::MAX && credit_lo2.len() <= u64::MAX,
        credit_hi.len() <= u64::MAX && credit_hi2.len() <= u64::MAX,
        auditor_ciphertext.len() <= u64::MAX && auditor_ciphertext2.len() <= u64::MAX,
        spec_transfer_statement(
            source_key,
            dest_key,
            auditor_key,
            source_available,
            debit,
            credit_lo,
            credit_hi,
            auditor_ciphertext,
        ) == spec_transfer_statement(
            source_key2,
            dest_key2,
            auditor_key2,
            source_available2,
            debit2,
            credit_lo2,
            credit_hi2,
            auditor_ciphertext2,
        ),
    ensures
        source_key == source_key2,
        dest_key == dest_key2,
        auditor_key == auditor_key2,
        source_available == source_available2,
        debit == debit2,
        credit_lo == credit_lo2,
        credit_hi == credit_hi2,
        auditor_ciphertext == auditor_ciphertext2,
{
    let head = seq![STATEMENT_VERSION, spec_kind_tag(ProofKind::Transfer)];
    let r7 = spec_field(auditor_ciphertext);
    let r6 = spec_field(credit_hi) + r7;
    let r5 = spec_field(credit_lo) + r6;
    let r4 = spec_field(debit) + r5;
    let r3 = spec_field(source_available) + r4;
    let r2 = auditor_key + r3;
    let r1 = dest_key + r2;
    let r0 = source_key + r1;
    let s7 = spec_field(auditor_ciphertext2);
    let s6 = spec_field(credit_hi2) + s7;
    let s5 = spec_field(credit_lo2) + s6;
    let s4 = spec_field(debit2) + s5;
    let s3 = spec_field(source_available2) + s4;
    let s2 = auditor_key2 + s3;
    let s1 = dest_key2 + s2;
    let s0 = source_key2 + s1;
    lemma_same_prefix(head, r0, head, s0);
    lemma_same_prefix(source_key, r1, source_key2, s1);
    lemma_same_prefix(dest_key, r2, dest_key2, s2);
    lemma_same_prefix(auditor_key, r3, auditor_key2, s3);
    lemma_same_field(source_available, r4, source_available2, s4);
    lemma_same_field(debit, r5, debit2, s5);
    lemma_same_field(credit_lo, r6, credit_lo2, s6);
    lemma_same_field(credit_hi, r7, credit_hi2, s7);
    assert(r7 =~= spec_field(auditor_ciphertext) + Seq::<u8>::empty());
    assert(s7 =~= spec_field(auditor_ciphertext2) + Seq::<u8>::empty());
    lemma_same_field(
        auditor_ciphertext,
        Seq::<u8>::empty(),
        auditor_ciphertext2,
        Seq::<u8>::empty(),
    );
}

/// A withdrawal statement binds everything it was derived from: two
/// statements are equal only where the key, the available balance and the
/// amount are.
pub proof fn lemma_withdraw_statement_binds_its_inputs(
    key: Seq<u8>,
    available: Seq<u8>,
    amount: u64,
    key2: Seq<u8>,
    available2: Seq<u8>,
    amount2: u64,
)
    requires
        key.len() == 32 && key2.len() == 32,
        available.len() <= u64::MAX && available2.len() <= u64::MAX,
        spec_withdraw_statement(key, available, amount) == spec_withdraw_statement(
            key2,
            available2,
            amount2,
        ),
    ensures
        key == key2,
        available == available2,
        amount == amount2,
{
    lemma_auto_spec_u64_to_from_le_bytes();
    let head = seq![STATEMENT_VERSION, spec_kind_tag(ProofKind::Withdraw)];
    let r2 = spec_field(available);
    let r1 = spec_u64_to_le_bytes(amount) + r2;
    let r0 = key + r1;
    let s2 = spec_field(available2);
    let s1 = spec_u64_to_le_bytes(amount2) + s2;
    let s0 = key2 + s1;
    lemma_same_prefix(head, r0, head, s0);
    lemma_same_prefix(key, r1, key2, s1);
    lemma_same_prefix(spec_u64_to_le_bytes(amount), r2, spec_u64_to_le_bytes(amount2), s2);
    assert(spec_u64_from_le_bytes(spec_u64_to_le_bytes(amount)) == amount);
    assert(spec_u64_from_le_bytes(spec_u64_to_le_bytes(amount2)) == amount2);
    assert(r2 =~= spec_field(available) + Seq::<u8>::empty());
    assert(s2 =~= spec_field(available2) + Seq::<u8>::empty());
    lemma_same_field(available, Seq::<u8>::empty(), available2, Seq::<u8>::empty());
}

} // verus!
