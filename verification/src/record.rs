//! The byte layout of the records: a version, then the fields in a fixed
//! order, so that a digest of a record is the same wherever it is computed.

use vstd::prelude::*;
use vstd::bytes::{
    lemma_auto_spec_u64_to_from_le_bytes, spec_u64_from_le_bytes, spec_u64_to_le_bytes,
};
use crate::account::{AccountView, ConfidentialTransferAccount};
use crate::mint::{ConfidentialTransferMint, MintView};
use crate::statement::{
    lemma_same_field, lemma_same_prefix, push_field, push_key, push_u64, spec_field,
};

verus! {

/// The first byte of every record.
pub const RECORD_VERSION: u8 = 1;

/// A flag as it stands in a record: one byte, one for `true`.
pub open spec fn spec_flag(flag: bool) -> Seq<u8> {
    seq![if flag { 1u8 } else { 0u8 }]
}

/// The fixed head of an account's record: the version, the approval and
/// the two keys.
pub open spec fn spec_account_head(a: AccountView) -> Seq<u8> {
    seq![RECORD_VERSION] + (spec_flag(a.approved) + (a.owner + a.encryption_public_key))
}

/// The middle of an account's record: the four ciphertexts, each behind its
/// length.
pub open spec fn spec_account_balances(a: AccountView) -> Seq<u8> {
    spec_field(a.pending_balance_lo) + (spec_field(a.pending_balance_hi) + (spec_field(
        a.available_balance,
    ) + spec_field(a.decryptable_available_balance)))
}

/// The fixed tail of an account's record: the two credit flags and the four
/// counters, each low byte first.
pub open spec fn spec_account_tail(a: AccountView) -> Seq<u8> {
    spec_flag(a.allow_confidential_credits) + (spec_flag(a.allow_non_confidential_credits) + (
    spec_u64_to_le_bytes(a.pending_balance_credit_counter) + (spec_u64_to_le_bytes(
        a.maximum_pending_balance_credit_counter,
    ) + (spec_u64_to_le_bytes(a.expected_pending_balance_credit_counter) + spec_u64_to_le_bytes(
        a.actual_pending_balance_credit_counter,
    )))))
}

/// The record of an account: head, balances, tail.
pub open spec fn spec_account_record(a: AccountView) -> Seq<u8> {
    spec_account_head(a) + (spec_account_balances(a) + spec_account_tail(a))
}

/// The record of a mint's policy: the version, the authority, the approval
/// flag and the auditor's key.
pub open spec fn spec_mint_record(m: MintView) -> Seq<u8> {
    seq![RECORD_VERSION] + (m.authority + (spec_flag(m.auto_approve_new_accounts)
        + m.auditor_public_key))
}

impl AccountView {
    /// The keys have thirty-two bytes and every ciphertext has a length
    /// that eight bytes can hold, as in every account that exists.
    pub open spec fn well_sized(self) -> bool {
        &&& self.owner.len() == 32
        &&& self.encryption_public_key.len() == 32
        &&& self.pending_balance_lo.len() <= u64::MAX
        &&& self.pending_balance_hi.len() <= u64::MAX
        &&& self.available_balance.len() <= u64::MAX
        &&& self.decryptable_available_balance.len() <= u64::MAX
    }
}

/// Appends a flag.
fn push_flag(out: &mut Vec<u8>, flag: bool)
    ensures
        final(out)@ == old(out)@ + spec_flag(flag),
{
    out.push(if flag { 1u8 } else { 0u8 });
    assert(out@ =~= old(out)@ + spec_flag(flag));
}

/// Appends the head of the record of `account`.
fn push_account_head(out: &mut Vec<u8>, account: &ConfidentialTransferAccount)
    ensures
        final(out)@ == old(out)@ + spec_account_head(account@),
{
    out.push(RECORD_VERSION);
    push_flag(out, account.approved);
    push_key(out, &account.owner);
    push_key(out, &account.encryption_public_key);
    assert(out@ =~= old(out)@ + spec_account_head(account@));
}

/// Appends the balances of the record of `account`.
fn push_account_balances(out: &mut Vec<u8>, account: &ConfidentialTransferAccount)
    ensures
        final(out)@ == old(out)@ + spec_account_balances(account@),
{
    push_field(out, &account.pending_balance_lo);
    push_field(out, &account.pending_balance_hi);
    push_field(out, &account.available_balance);
    push_field(out, &account.decryptable_available_balance);
    assert(out@ =~= old(out)@ + spec_account_balances(account@));
}

/// Appends the tail of the record of `account`.
fn push_account_tail(out: &mut Vec<u8>, account: &ConfidentialTransferAccount)
    ensures
        final(out)@ == old(out)@ + spec_account_tail(account@),
{
    push_flag(out, account.allow_confidential_credits);
    push_flag(out, account.allow_non_confidential_credits);
    push_u64(out, account.pending_balance_credit_counter);
    push_u64(out, account.maximum_pending_balance_credit_counter);
    push_u64(out, account.expected_pending_balance_credit_counter);
    push_u64(out, account.actual_pending_balance_credit_counter);
    assert(out@ =~= old(out)@ + spec_account_tail(account@));
}

/// The record of `account`.
pub fn encode_account(account: &ConfidentialTransferAccount) -> (record: Vec<u8>)
    ensures
        record@ == spec_account_record(account@),
        account@.well_sized(),
{
    let mut out: Vec<u8> = Vec::new();
    push_account_head(&mut out, account);
    push_account_balances(&mut out, account);
    push_account_tail(&mut out, account);
    assert(out@ =~= spec_account_record(account@));
    assert(account.pending_balance_lo@.len() == account.pending_balance_lo.len());
    assert(account.pending_balance_hi@.len() == account.pending_balance_hi.len());
    assert(account.available_balance@.len() == account.available_balance.len());
    assert(account.decryptable_available_balance@.len()
        == account.decryptable_available_balance.len());
    out
}

/// The record of `mint`.
pub fn encode_mint(mint: &ConfidentialTransferMint) -> (record: Vec<u8>)
    ensures
        record@ == spec_mint_record(mint@),
{
    let mut out: Vec<u8> = Vec::new();
    out.push(RECORD_VERSION);
    push_key(&mut out, &mint.authority);
    push_flag(&mut out, mint.auto_approve_new_accounts);
    push_key(&mut out, &mint.auditor_public_key);
    assert(out@ =~= spec_mint_record(mint@));
    out
}

/// Two strings that begin with eight-byte numbers and are equal have equal
/// numbers and equal rests.
proof fn lemma_same_u64(x1: u64, rest1: Seq<u8>, x2: u64, rest2: Seq<u8>)
    requires
        spec_u64_to_le_bytes(x1) + rest1 == spec_u64_to_le_bytes(x2) + rest2,
    ensures
        x1 == x2,
        rest1 == rest2,
{
    lemma_auto_spec_u64_to_from_le_bytes();
    lemma_same_prefix(spec_u64_to_le_bytes(x1), rest1, spec_u64_to_le_bytes(x2), rest2);
    assert(spec_u64_from_le_bytes(spec_u64_to_le_bytes(x1)) == x1);
    assert(spec_u64_from_le_bytes(spec_u64_to_le_bytes(x2)) == x2);
}

/// Two strings that begin with flags and are equal have equal flags and
/// equal rests.
proof fn lemma_same_flag(f1: bool, rest1: Seq<u8>, f2: bool, rest2: Seq<u8>)
    requires
        spec_flag(f1) + rest1 == spec_flag(f2) + rest2,
    ensures
        f1 == f2,
        rest1 == rest2,
{
    lemma_same_prefix(spec_flag(f1), rest1, spec_flag(f2), rest2);
    assert(spec_flag(f1)[0] == spec_flag(f2)[0]);
}

/// A record holds the whole account and nothing else: two accounts with
/// the same record are the same account.
pub proof fn lemma_account_record_binds_the_account(a: AccountView, b: AccountView)
    requires
        a.well_sized(),
        b.well_sized(),
        spec_account_record(a) == spec_account_record(b),
    ensures
        a == b,
{
    let a_rest = spec_account_balances(a) + spec_account_tail(a);
    let b_rest = spec_account_balances(b) + spec_account_tail(b);
    lemma_auto_spec_u64_to_from_le_bytes();
    assert(spec_account_head(a).len() == 66);
    assert(spec_account_head(b).len() == 66);
    lemma_same_prefix(spec_account_head(a), a_rest, spec_account_head(b), b_rest);
    // The head.
    let a_keys = a.owner + a.encryption_public_key;
    let b_keys = b.owner + b.encryption_public_key;
    lemma_same_prefix(
        seq![RECORD_VERSION],
        spec_flag(a.approved) + a_keys,
        seq![RECORD_VERSION],
        spec_flag(b.approved) + b_keys,
    );
    lemma_same_flag(a.approved, a_keys, b.approved, b_keys);
    lemma_same_prefix(a.owner, a.encryption_public_key, b.owner, b.encryption_public_key);
    // The balances, each with all that follows it.
    let a3 = spec_field(a.decryptable_available_balance) + spec_account_tail(a);
    let a2 = spec_field(a.available_balance) + a3;
    let a1 = spec_field(a.pending_balance_hi) + a2;
    let b3 = spec_field(b.decryptable_available_balance) + spec_account_tail(b);
    let b2 = spec_field(b.available_balance) + b3;
    let b1 = spec_field(b.pending_balance_hi) + b2;
    assert(a_rest =~= spec_field(a.pending_balance_lo) + a1);
    assert(b_rest =~= spec_field(b.pending_balance_lo) + b1);
    lemma_same_field(a.pending_balance_lo, a1, b.pending_balance_lo, b1);
    lemma_same_field(a.pending_balance_hi, a2, b.pending_balance_hi, b2);
    lemma_same_field(a.available_balance, a3, b.available_balance, b3);
    lemma_same_field(
        a.decryptable_available_balance,
        spec_account_tail(a),
        b.decryptable_available_balance,
        spec_account_tail(b),
    );
    // The tail.
    let a9 = spec_u64_to_le_bytes(a.actual_pending_balance_credit_counter);
    let a8 = spec_u64_to_le_bytes(a.expected_pending_balance_credit_counter) + a9;
    let a7 = spec_u64_to_le_bytes(a.maximum_pending_balance_credit_counter) + a8;
    let a6 = spec_u64_to_le_bytes(a.pending_balance_credit_counter) + a7;
    let a5 = spec_flag(a.allow_non_confidential_credits) + a6;
    let b9 = spec_u64_to_le_bytes(b.actual_pending_balance_credit_counter);
    let b8 = spec_u64_to_le_bytes(b.expected_pending_balance_credit_counter) + b9;
    let b7 = spec_u64_to_le_bytes(b.maximum_pending_balance_credit_counter) + b8;
    let b6 = spec_u64_to_le_bytes(b.pending_balance_credit_counter) + b7;
    let b5 = spec_flag(b.allow_non_confidential_credits) + b6;
    lemma_same_flag(a.allow_confidential_credits, a5, b.allow_confidential_credits, b5);
    lemma_same_flag(a.allow_non_confidential_credits, a6, b.allow_non_confidential_credits, b6);
    lemma_same_u64(a.pending_balance_credit_counter, a7, b.pending_balance_credit_counter, b7);
    lemma_same_u64(
        a.maximum_pending_balance_credit_counter,
        a8,
        b.maximum_pending_balance_credit_counter,
        b8,
    );
    lemma_same_u64(
        a.expected_pending_balance_credit_counter,
        a9,
        b.expected_pending_balance_credit_counter,
        b9,
    );
    assert(a9 =~= a9 + Seq::<u8>::empty());
    assert(b9 =~= b9 + Seq::<u8>::empty());
    lemma_same_u64(
        a.actual_pending_balance_credit_counter,
        Seq::<u8>::empty(),
        b.actual_pending_balance_credit_counter,
        Seq::<u8>::empty(),
    );
}

/// A record holds the whole policy and nothing else: two policies with the
/// same record are the same policy.
pub proof fn lemma_mint_record_binds_the_mint(a: MintView, b: MintView)
    requires
        a.authority.len() == 32 && a.auditor_public_key.len() == 32,
        b.authority.len() == 32 && b.auditor_public_key.len() == 32,
        spec_mint_record(a) == spec_mint_record(b),
    ensures
        a == b,
{
    let a2 = spec_flag(a.auto_approve_new_accounts) + a.auditor_public_key;
    let b2 = spec_flag(b.auto_approve_new_accounts) + b.auditor_public_key;
    lemma_same_prefix(seq![RECORD_VERSION], a.authority + a2, seq![RECORD_VERSION], b.authority + b2);
    lemma_same_prefix(a.authority, a2, b.authority, b2);
    lemma_same_flag(
        a.auto_approve_new_accounts,
        a.auditor_public_key,
        b.auto_approve_new_accounts,
        b.auditor_public_key,
    );
}

} // verus!
