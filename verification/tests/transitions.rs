use confidential_transfer::statement::{transfer_statement, withdraw_statement};
use confidential_transfer::{
    AccountSlot, CiphertextAlgebra, ConfidentialTransferAccount, ConfidentialTransferMint,
    ErrorCode, Lifecycle, ProofKind, ProofVerifier, Pubkey, TransferProof, TransitionCoordinator,
};

/// A stand-in for the encryption scheme: a ciphertext is its plaintext in
/// eight bytes, low byte first, and the empty string is zero.
struct ClearAlgebra;

fn decrypt(ciphertext: &Vec<u8>) -> u64 {
    if ciphertext.is_empty() {
        return 0;
    }
    let mut bytes = [0u8; 8];
    bytes.copy_from_slice(&ciphertext[..8]);
    u64::from_le_bytes(bytes)
}

fn encrypt(plaintext: u64) -> Vec<u8> {
    plaintext.to_le_bytes().to_vec()
}

impl CiphertextAlgebra for ClearAlgebra {
    fn encrypt(&self, plaintext: u64, _public_key: &Pubkey) -> Vec<u8> {
        encrypt(plaintext)
    }

    fn add(&self, a: &Vec<u8>, b: &Vec<u8>) -> Vec<u8> {
        encrypt(decrypt(a).wrapping_add(decrypt(b)))
    }

    fn sub(&self, a: &Vec<u8>, b: &Vec<u8>) -> Vec<u8> {
        encrypt(decrypt(a).wrapping_sub(decrypt(b)))
    }
}

/// A stand-in for the proof system: a proof shows a statement where it is
/// the statement's digest.
struct DigestVerifier;

fn digest(statement: &Vec<u8>) -> Vec<u8> {
    let mut h: u64 = 0xcbf2_9ce4_8422_2325;
    for b in statement {
        h ^= *b as u64;
        h = h.wrapping_mul(0x0000_0100_0000_01b3);
    }
    h.to_le_bytes().to_vec()
}

impl ProofVerifier for DigestVerifier {
    fn verify(&self, _kind: ProofKind, proof: &Vec<u8>, statement: &Vec<u8>) -> bool {
        *proof == digest(statement)
    }
}

fn coordinator() -> TransitionCoordinator<ClearAlgebra, DigestVerifier> {
    TransitionCoordinator { algebra: ClearAlgebra, verifier: DigestVerifier }
}

fn key(tag: u8) -> Pubkey {
    Pubkey::new_from_array([tag; 32])
}

fn mint(auto_approve: bool) -> ConfidentialTransferMint {
    ConfidentialTransferMint {
        authority: key(1),
        auto_approve_new_accounts: auto_approve,
        auditor_public_key: key(2),
    }
}

/// An approved account with empty balances, owner `key(owner)`.
fn approved_slot(owner: u8, cap: u64) -> AccountSlot {
    let mut slot = AccountSlot::Unconfigured;
    assert_eq!(
        coordinator().configure(&mut slot, &mint(true), key(owner), key(owner + 100), cap),
        Ok(())
    );
    slot
}

fn account(slot: &AccountSlot) -> &ConfidentialTransferAccount {
    match slot {
        AccountSlot::Configured(account) => account,
        _ => panic!("no record"),
    }
}

fn account_mut(slot: &mut AccountSlot) -> &mut ConfidentialTransferAccount {
    match slot {
        AccountSlot::Configured(account) => account,
        _ => panic!("no record"),
    }
}

/// What a sender submits to move `amount` out of `source` into `dest`.
fn transfer_of(amount: u64, source: &AccountSlot, dest: &AccountSlot) -> TransferProof {
    let mut transfer = TransferProof {
        debit: encrypt(amount),
        credit_lo: encrypt(amount % 65536),
        credit_hi: encrypt(amount / 65536),
        auditor_ciphertext: encrypt(amount),
        proof: Vec::new(),
    };
    let statement = transfer_statement(account(source), account(dest), &mint(true), &transfer);
    transfer.proof = digest(&statement);
    transfer
}

#[test]
fn three_deposits_then_apply() {
    let c = coordinator();
    let mut a = approved_slot(7, 5);
    for _ in 0..3 {
        assert_eq!(c.deposit(&mut a, 10), Ok(()));
    }
    assert_eq!(account(&a).pending_balance_credit_counter, 3);
    assert_eq!(
        decrypt(&account(&a).pending_balance_lo) + 65536 * decrypt(&account(&a).pending_balance_hi),
        30
    );
    assert_eq!(decrypt(&account(&a).pending_balance_lo), 30);
    assert_eq!(decrypt(&account(&a).pending_balance_hi), 0);

    assert_eq!(c.apply_pending_balance(&mut a, &key(7), 3, encrypt(30)), Ok(()));
    let after = account(&a);
    assert_eq!(decrypt(&after.available_balance), 30);
    assert_eq!(after.pending_balance_credit_counter, 0);
    assert_eq!(after.actual_pending_balance_credit_counter, 3);
    assert_eq!(after.expected_pending_balance_credit_counter, 3);
    assert!(after.pending_balance_lo.is_empty());
    assert!(after.pending_balance_hi.is_empty());
    assert_eq!(after.decryptable_available_balance, encrypt(30));
}

#[test]
fn deposit_into_unapproved_account_fails() {
    let c = coordinator();
    let mut b = AccountSlot::Unconfigured;
    assert_eq!(c.configure(&mut b, &mint(false), key(8), key(9), 5), Ok(()));
    assert_eq!(b.lifecycle(), Lifecycle::PendingApproval);
    let before = b.clone();
    assert_eq!(c.deposit(&mut b, 10), Err(ErrorCode::AccountNotApproved));
    assert_eq!(b, before);
}

#[test]
fn credit_beyond_cap_is_rejected() {
    let c = coordinator();
    let mut a = approved_slot(7, 2);
    assert_eq!(c.deposit(&mut a, 1), Ok(()));
    assert_eq!(c.deposit(&mut a, 1), Ok(()));
    let before = a.clone();
    assert_eq!(c.deposit(&mut a, 1), Err(ErrorCode::CreditsExceeded));
    assert_eq!(a, before);
    assert_eq!(account(&a).pending_balance_credit_counter, 2);
    assert_eq!(account(&a).maximum_pending_balance_credit_counter, 2);
}

#[test]
fn transfer_credit_beyond_cap_is_rejected() {
    let c = coordinator();
    let mut source = approved_slot(3, 5);
    let mut dest = approved_slot(4, 1);
    assert_eq!(c.deposit(&mut source, 100), Ok(()));
    assert_eq!(c.apply_pending_balance(&mut source, &key(3), 1, Vec::new()), Ok(()));
    assert_eq!(c.deposit(&mut dest, 5), Ok(()));
    let transfer = transfer_of(40, &source, &dest);
    let (source_before, dest_before) = (source.clone(), dest.clone());
    assert_eq!(
        c.confidential_transfer(&mut source, &mut dest, &mint(true), &transfer),
        Err(ErrorCode::CreditsExceeded)
    );
    assert_eq!(source, source_before);
    assert_eq!(dest, dest_before);
}

#[test]
fn counter_mismatch_fails_and_keeps_balances() {
    let c = coordinator();
    let mut a = approved_slot(7, 5);
    assert_eq!(c.deposit(&mut a, 10), Ok(()));
    assert_eq!(c.deposit(&mut a, 10), Ok(()));
    let before = a.clone();
    for expected in [0u64, 1, 3, u64::MAX] {
        assert_eq!(
            c.apply_pending_balance(&mut a, &key(7), expected, encrypt(20)),
            Err(ErrorCode::CounterMismatch)
        );
        assert_eq!(a, before);
    }
    assert_eq!(c.apply_pending_balance(&mut a, &key(7), 2, encrypt(20)), Ok(()));
}

#[test]
fn deposit_apply_round_trip() {
    let c = coordinator();
    for amount in [0u64, 1, 65535, 65536, 65537, 1_000_000, 0x1234_5678_9abc_def0, u64::MAX] {
        let mut a = approved_slot(7, 5);
        assert_eq!(c.deposit(&mut a, amount), Ok(()));
        assert_eq!(decrypt(&account(&a).pending_balance_lo), amount % 65536);
        assert_eq!(decrypt(&account(&a).pending_balance_hi), amount / 65536);
        assert_eq!(c.apply_pending_balance(&mut a, &key(7), 1, Vec::new()), Ok(()));
        assert_eq!(decrypt(&account(&a).available_balance), amount);
    }
}

#[test]
fn consolidation_adds_to_what_was_available() {
    let c = coordinator();
    let mut a = approved_slot(7, 5);
    assert_eq!(c.deposit(&mut a, 70_000), Ok(()));
    assert_eq!(c.apply_pending_balance(&mut a, &key(7), 1, Vec::new()), Ok(()));
    assert_eq!(c.deposit(&mut a, 200_000), Ok(()));
    assert_eq!(c.deposit(&mut a, 5), Ok(()));
    assert_eq!(c.apply_pending_balance(&mut a, &key(7), 2, Vec::new()), Ok(()));
    assert_eq!(decrypt(&account(&a).available_balance), 270_005);
    assert_eq!(account(&a).actual_pending_balance_credit_counter, 2);
}

#[test]
fn close_succeeds_only_with_zero_balances() {
    let c = coordinator();
    let mut a = approved_slot(7, 5);
    assert_eq!(c.deposit(&mut a, 10), Ok(()));
    let before = a.clone();
    assert_eq!(c.close(&mut a, &key(7)), Err(ErrorCode::AccountHasBalance));
    assert_eq!(a, before);

    assert_eq!(c.apply_pending_balance(&mut a, &key(7), 1, Vec::new()), Ok(()));
    let before = a.clone();
    assert_eq!(c.close(&mut a, &key(7)), Err(ErrorCode::AccountHasBalance));
    assert_eq!(a, before);

    let mut fresh = approved_slot(7, 5);
    assert_eq!(c.close(&mut fresh, &key(7)), Ok(()));
    assert_eq!(fresh, AccountSlot::Closed);
    assert_eq!(fresh.lifecycle(), Lifecycle::Closed);
}

#[test]
fn close_by_another_than_the_owner_fails() {
    let c = coordinator();
    let mut a = approved_slot(7, 5);
    let before = a.clone();
    assert_eq!(c.close(&mut a, &key(8)), Err(ErrorCode::Unauthorized));
    assert_eq!(a, before);
}

#[test]
fn transfer_moves_the_amount() {
    let c = coordinator();
    let mut source = approved_slot(3, 5);
    let mut dest = approved_slot(4, 5);
    assert_eq!(c.deposit(&mut source, 100_000), Ok(()));
    assert_eq!(c.apply_pending_balance(&mut source, &key(3), 1, Vec::new()), Ok(()));
    let transfer = transfer_of(70_000, &source, &dest);
    assert_eq!(c.confidential_transfer(&mut source, &mut dest, &mint(true), &transfer), Ok(()));
    assert_eq!(decrypt(&account(&source).available_balance), 30_000);
    assert_eq!(decrypt(&account(&dest).pending_balance_lo), 70_000 % 65536);
    assert_eq!(decrypt(&account(&dest).pending_balance_hi), 1);
    assert_eq!(account(&dest).pending_balance_credit_counter, 1);
    assert_eq!(account(&source).pending_balance_credit_counter, 0);
    assert_eq!(c.apply_pending_balance(&mut dest, &key(4), 1, Vec::new()), Ok(()));
    assert_eq!(decrypt(&account(&dest).available_balance), 70_000);
}

#[test]
fn tampered_proof_is_rejected_and_changes_nothing() {
    let c = coordinator();
    let mut source = approved_slot(3, 5);
    let mut dest = approved_slot(4, 5);
    assert_eq!(c.deposit(&mut source, 100), Ok(()));
    assert_eq!(c.apply_pending_balance(&mut source, &key(3), 1, Vec::new()), Ok(()));
    let good = transfer_of(40, &source, &dest);
    for byte in 0..good.proof.len() {
        for bit in 0..8 {
            let mut tampered = good.clone();
            tampered.proof[byte] ^= 1 << bit;
            let (source_before, dest_before) = (source.clone(), dest.clone());
            assert_eq!(
                c.confidential_transfer(&mut source, &mut dest, &mint(true), &tampered),
                Err(ErrorCode::ProofVerificationFailed)
            );
            assert_eq!(source, source_before);
            assert_eq!(dest, dest_before);
        }
    }
    assert_eq!(c.confidential_transfer(&mut source, &mut dest, &mint(true), &good), Ok(()));
}

#[test]
fn proof_for_another_statement_is_rejected() {
    let c = coordinator();
    let mut source = approved_slot(3, 5);
    let mut dest = approved_slot(4, 5);
    assert_eq!(c.deposit(&mut source, 100), Ok(()));
    assert_eq!(c.apply_pending_balance(&mut source, &key(3), 1, Vec::new()), Ok(()));
    let good = transfer_of(40, &source, &dest);
    let mut other_amount = good.clone();
    other_amount.debit = encrypt(41);
    assert_eq!(
        c.confidential_transfer(&mut source, &mut dest, &mint(true), &other_amount),
        Err(ErrorCode::ProofVerificationFailed)
    );
    let mut other_auditor = ConfidentialTransferMint { ..mint(true) };
    other_auditor.auditor_public_key = key(99);
    assert_eq!(
        c.confidential_transfer(&mut source, &mut dest, &other_auditor, &good),
        Err(ErrorCode::ProofVerificationFailed)
    );
}

#[test]
fn second_transfer_against_the_old_balance_is_rejected() {
    let c = coordinator();
    let mut source = approved_slot(3, 5);
    let mut dest = approved_slot(4, 5);
    assert_eq!(c.deposit(&mut source, 100), Ok(()));
    assert_eq!(c.apply_pending_balance(&mut source, &key(3), 1, Vec::new()), Ok(()));
    // Both proofs are made against the balance of 100.
    let first = transfer_of(80, &source, &dest);
    let second = transfer_of(70, &source, &dest);
    assert_eq!(c.confidential_transfer(&mut source, &mut dest, &mint(true), &first), Ok(()));
    let (source_before, dest_before) = (source.clone(), dest.clone());
    assert_eq!(
        c.confidential_transfer(&mut source, &mut dest, &mint(true), &second),
        Err(ErrorCode::ProofVerificationFailed)
    );
    assert_eq!(source, source_before);
    assert_eq!(dest, dest_before);
    assert_eq!(decrypt(&account(&source).available_balance), 20);
}

#[test]
fn transfer_needs_both_accounts_approved() {
    let c = coordinator();
    let mut approved = approved_slot(3, 5);
    let mut pending = AccountSlot::Unconfigured;
    assert_eq!(c.configure(&mut pending, &mint(false), key(4), key(5), 5), Ok(()));
    let transfer = transfer_of(0, &approved, &pending);
    assert_eq!(
        c.confidential_transfer(&mut approved, &mut pending, &mint(true), &transfer),
        Err(ErrorCode::AccountNotApproved)
    );
    let transfer = transfer_of(0, &pending, &approved);
    assert_eq!(
        c.confidential_transfer(&mut pending, &mut approved, &mint(true), &transfer),
        Err(ErrorCode::AccountNotApproved)
    );
}

#[test]
fn credits_disabled_on_either_path() {
    let c = coordinator();
    let mut source = approved_slot(3, 5);
    let mut dest = approved_slot(4, 5);
    account_mut(&mut dest).allow_confidential_credits = false;
    let transfer = transfer_of(0, &source, &dest);
    let before = dest.clone();
    assert_eq!(
        c.confidential_transfer(&mut source, &mut dest, &mint(true), &transfer),
        Err(ErrorCode::CreditsDisabled)
    );
    assert_eq!(dest, before);
    assert_eq!(c.deposit(&mut dest, 1), Ok(()));

    account_mut(&mut source).allow_non_confidential_credits = false;
    let before = source.clone();
    assert_eq!(c.deposit(&mut source, 1), Err(ErrorCode::CreditsDisabled));
    assert_eq!(source, before);
}

#[test]
fn withdraw_takes_the_amount_out() {
    let c = coordinator();
    let mut a = approved_slot(7, 5);
    assert_eq!(c.deposit(&mut a, 100), Ok(()));
    assert_eq!(c.apply_pending_balance(&mut a, &key(7), 1, encrypt(100)), Ok(()));
    let proof = digest(&withdraw_statement(account(&a), 30));
    assert_eq!(c.withdraw(&mut a, &key(7), 30, &proof), Ok(()));
    assert_eq!(decrypt(&account(&a).available_balance), 70);
    assert_eq!(account(&a).decryptable_available_balance, encrypt(100));
    assert_eq!(account(&a).pending_balance_credit_counter, 0);
}

#[test]
fn withdraw_with_a_bad_proof_or_by_a_stranger_fails() {
    let c = coordinator();
    let mut a = approved_slot(7, 5);
    assert_eq!(c.deposit(&mut a, 100), Ok(()));
    assert_eq!(c.apply_pending_balance(&mut a, &key(7), 1, Vec::new()), Ok(()));
    let proof = digest(&withdraw_statement(account(&a), 30));
    let before = a.clone();
    // A proof for 30 shows nothing about 31.
    assert_eq!(c.withdraw(&mut a, &key(7), 31, &proof), Err(ErrorCode::ProofVerificationFailed));
    assert_eq!(a, before);
    let mut flipped = proof.clone();
    flipped[0] ^= 1;
    assert_eq!(c.withdraw(&mut a, &key(7), 30, &flipped), Err(ErrorCode::ProofVerificationFailed));
    assert_eq!(a, before);
    assert_eq!(c.withdraw(&mut a, &key(8), 30, &proof), Err(ErrorCode::Unauthorized));
    assert_eq!(a, before);
}

#[test]
fn configure_twice_fails() {
    let c = coordinator();
    let mut a = approved_slot(7, 5);
    let before = a.clone();
    assert_eq!(
        c.configure(&mut a, &mint(true), key(1), key(2), 9),
        Err(ErrorCode::AlreadyConfigured)
    );
    assert_eq!(a, before);
}

#[test]
fn configure_follows_the_mint_policy() {
    let c = coordinator();
    let mut auto = AccountSlot::Unconfigured;
    assert_eq!(auto.lifecycle(), Lifecycle::Unconfigured);
    assert_eq!(c.configure(&mut auto, &mint(true), key(7), key(8), 5), Ok(()));
    assert_eq!(auto.lifecycle(), Lifecycle::Approved);
    assert_eq!(
        auto,
        AccountSlot::Configured(ConfidentialTransferAccount {
            approved: true,
            owner: key(7),
            encryption_public_key: key(8),
            pending_balance_lo: vec![],
            pending_balance_hi: vec![],
            available_balance: vec![],
            decryptable_available_balance: vec![],
            allow_confidential_credits: true,
            allow_non_confidential_credits: true,
            pending_balance_credit_counter: 0,
            maximum_pending_balance_credit_counter: 5,
            expected_pending_balance_credit_counter: 0,
            actual_pending_balance_credit_counter: 0,
        })
    );
    let mut manual = AccountSlot::Unconfigured;
    assert_eq!(c.configure(&mut manual, &mint(false), key(7), key(8), 5), Ok(()));
    assert_eq!(manual.lifecycle(), Lifecycle::PendingApproval);
}

#[test]
fn configure_after_close_is_an_invalid_state() {
    let c = coordinator();
    let mut a = approved_slot(7, 5);
    assert_eq!(c.close(&mut a, &key(7)), Ok(()));
    assert_eq!(c.configure(&mut a, &mint(true), key(7), key(8), 5), Err(ErrorCode::InvalidState));
    assert_eq!(a, AccountSlot::Closed);
}

#[test]
fn approve_by_the_authority_only_and_only_once() {
    let c = coordinator();
    let mut a = AccountSlot::Unconfigured;
    assert_eq!(c.configure(&mut a, &mint(false), key(7), key(8), 5), Ok(()));
    let before = a.clone();
    assert_eq!(c.approve(&mut a, &mint(false), &key(7)), Err(ErrorCode::Unauthorized));
    assert_eq!(a, before);
    assert_eq!(c.approve(&mut a, &mint(false), &key(1)), Ok(()));
    assert_eq!(a.lifecycle(), Lifecycle::Approved);
    assert_eq!(c.deposit(&mut a, 10), Ok(()));
    let before = a.clone();
    assert_eq!(c.approve(&mut a, &mint(false), &key(1)), Err(ErrorCode::InvalidState));
    assert_eq!(a, before);
}

#[test]
fn nothing_is_found_where_no_record_is() {
    let c = coordinator();
    for start in [AccountSlot::Unconfigured, AccountSlot::Closed] {
        let mut slot = start.clone();
        let mut other = approved_slot(3, 5);
        assert_eq!(c.deposit(&mut slot, 1), Err(ErrorCode::NotFound));
        assert_eq!(c.approve(&mut slot, &mint(true), &key(1)), Err(ErrorCode::NotFound));
        assert_eq!(
            c.apply_pending_balance(&mut slot, &key(7), 0, Vec::new()),
            Err(ErrorCode::NotFound)
        );
        assert_eq!(c.withdraw(&mut slot, &key(7), 1, &Vec::new()), Err(ErrorCode::NotFound));
        assert_eq!(c.close(&mut slot, &key(7)), Err(ErrorCode::NotFound));
        let transfer = TransferProof {
            debit: vec![],
            credit_lo: vec![],
            credit_hi: vec![],
            auditor_ciphertext: vec![],
            proof: vec![],
        };
        assert_eq!(
            c.confidential_transfer(&mut slot, &mut other, &mint(true), &transfer),
            Err(ErrorCode::NotFound)
        );
        assert_eq!(
            c.confidential_transfer(&mut other, &mut slot, &mint(true), &transfer),
            Err(ErrorCode::NotFound)
        );
        assert_eq!(slot, start);
    }
}

#[test]
fn apply_by_another_than_the_owner_fails() {
    let c = coordinator();
    let mut a = approved_slot(7, 5);
    assert_eq!(c.deposit(&mut a, 10), Ok(()));
    let before = a.clone();
    assert_eq!(
        c.apply_pending_balance(&mut a, &key(8), 1, Vec::new()),
        Err(ErrorCode::Unauthorized)
    );
    // The owner is asked for before the counter.
    assert_eq!(
        c.apply_pending_balance(&mut a, &key(8), 2, Vec::new()),
        Err(ErrorCode::Unauthorized)
    );
    assert_eq!(a, before);
}
