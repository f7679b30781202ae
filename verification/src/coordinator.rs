//! The transitions of an account, each one checked, handed to the proof
//! verifier and to the ciphertext algebra where it needs them, and then
//! committed whole or not at all.

use vstd::prelude::*;
use crate::account::{
    check_transfer, outcome, settle_transfer, transfer_refusal, AccountView,
    ConfidentialTransferAccount,
};
use crate::amount::{spec_amount_hi, spec_amount_lo, split_amount};
use crate::error::ErrorCode;
use crate::interfaces::{CiphertextAlgebra, ProofKind, ProofVerifier, TransferProof};
use crate::mint::ConfidentialTransferMint;
use crate::pubkey::Pubkey;
use crate::slot::{AccountSlot, SlotView};
use crate::statement::{
    spec_transfer_statement, spec_withdraw_statement, transfer_statement, withdraw_statement,
};

verus! {

/// The two outside parties that transitions are run with.
pub struct TransitionCoordinator<A: CiphertextAlgebra, V: ProofVerifier> {
    pub algebra: A,
    pub verifier: V,
}

impl<A: CiphertextAlgebra, V: ProofVerifier> TransitionCoordinator<A, V> {
    /// `out` is what the algebra answered when asked to encrypt `plaintext`
    /// under `key`.
    pub open spec fn encrypted(&self, plaintext: u64, key: Seq<u8>, out: Seq<u8>) -> bool {
        exists|k: Pubkey, c: Vec<u8>|
            k@ == key && c@ == out && #[trigger] call_ensures(
                A::encrypt,
                (&self.algebra, plaintext, &k),
                c,
            )
    }

    /// `out` is what the algebra answered when asked for the sum of `a` and
    /// `b`.
    pub open spec fn summed(&self, a: Seq<u8>, b: Seq<u8>, out: Seq<u8>) -> bool {
        exists|x: Vec<u8>, y: Vec<u8>, z: Vec<u8>|
            x@ == a && y@ == b && z@ == out && #[trigger] call_ensures(
                A::add,
                (&self.algebra, &x, &y),
                z,
            )
    }

    /// Makes the record of an account that has none: every balance zero,
    /// and approved at once where the mint approves new accounts by itself.
    /// Where a record is there, or the account was closed, nothing changes.
    pub fn configure(
        &self,
        slot: &mut AccountSlot,
        mint: &ConfidentialTransferMint,
        owner: Pubkey,
        encryption_public_key: Pubkey,
        maximum_pending_balance_credit_counter: u64,
    ) -> (res: Result<(), ErrorCode>)
        ensures
            res == outcome(old(slot)@.configure_refusal()),
            res is Err ==> *final(slot) == *old(slot),
            res is Ok ==> final(slot)@ == SlotView::Configured(
                AccountView::configured(
                    owner@,
                    encryption_public_key@,
                    mint.auto_approve_new_accounts,
                    maximum_pending_balance_credit_counter,
                ),
            ),
            old(slot).wf() ==> final(slot).wf(),
    {
        match slot {
            AccountSlot::Unconfigured => {
                *slot = AccountSlot::Configured(
                    ConfidentialTransferAccount::new(
                        owner,
                        encryption_public_key,
                        mint.auto_approve_new_accounts,
                        maximum_pending_balance_credit_counter,
                    ),
                );
                Ok(())
            },
            AccountSlot::Configured(_) => Err(ErrorCode::AlreadyConfigured),
            AccountSlot::Closed => Err(ErrorCode::InvalidState),
        }
    }

    /// Approves an account that waits for approval, on the word of the
    /// mint's authority. The authority is asked for first, then the state.
    pub fn approve(
        &self,
        slot: &mut AccountSlot,
        mint: &ConfidentialTransferMint,
        authority: &Pubkey,
    ) -> (res: Result<(), ErrorCode>)
        ensures
            res == outcome(
                old(slot)@.refusal(
                    |account: AccountView|
                        if authority@ != mint@.authority {
                            Some(ErrorCode::Unauthorized)
                        } else {
                            account.approval_refusal()
                        },
                ),
            ),
            res is Err ==> *final(slot) == *old(slot),
            res is Ok ==> final(slot)@ == SlotView::Configured(
                old(slot)@->Configured_0.approved_now(),
            ),
            old(slot).wf() ==> final(slot).wf(),
    {
        match slot {
            AccountSlot::Configured(account) => {
                match mint.check_authority(authority) {
                    Err(e) => Err(e),
                    Ok(()) => account.approve(),
                }
            },
            _ => Err(ErrorCode::NotFound),
        }
    }

    /// Closes an account whose three balances are the encoding of zero, on
    /// its owner's word, and releases the record. The owner is asked for
    /// first, then the balances.
    pub fn close(&self, slot: &mut AccountSlot, owner: &Pubkey) -> (res: Result<(), ErrorCode>)
        ensures
            res == outcome(
                old(slot)@.refusal(|account: AccountView| account.close_refusal(owner@)),
            ),
            res is Err ==> *final(slot) == *old(slot),
            res is Ok ==> *final(slot) == AccountSlot::Closed,
            old(slot).wf() ==> final(slot).wf(),
    {
        match slot {
            AccountSlot::Configured(account) => {
                match account.check_close(owner) {
                    Err(e) => Err(e),
                    Ok(()) => {
                        *slot = AccountSlot::Closed;
                        Ok(())
                    },
                }
            },
            _ => Err(ErrorCode::NotFound),
        }
    }

    /// `out` is what the algebra answered when asked for `a` less `b`.
    pub open spec fn subtracted(&self, a: Seq<u8>, b: Seq<u8>, out: Seq<u8>) -> bool {
        exists|x: Vec<u8>, y: Vec<u8>, z: Vec<u8>|
            x@ == a && y@ == b && z@ == out && #[trigger] call_ensures(
                A::sub,
                (&self.algebra, &x, &y),
                z,
            )
    }

    /// `verdict` is what the verifier answered when asked whether `proof`
    /// shows `statement`.
    pub open spec fn verified(
        &self,
        kind: ProofKind,
        proof: Seq<u8>,
        statement: Seq<u8>,
        verdict: bool,
    ) -> bool {
        exists|p: Vec<u8>, s: Vec<u8>|
            p@ == proof && s@ == statement && #[trigger] call_ensures(
                V::verify,
                (&self.verifier, kind, &p, &s),
                verdict,
            )
    }

    /// `chain` records doublings by the algebra: each entry after the first
    /// is what the algebra answered when asked for the sum of the entry
    /// before it with itself.
    pub open spec fn doubling_chain(&self, chain: Seq<Seq<u8>>) -> bool {
        forall|i: int|
            1 <= i < chain.len() ==> self.summed(chain[i - 1], chain[i - 1], #[trigger] chain[i])
    }

    /// `out` is what the algebra made of `c` by adding it to itself, and
    /// the sum to itself, `times` times over: a ciphertext of two to the
    /// power `times` times what `c` encrypts.
    pub open spec fn doubled(&self, c: Seq<u8>, times: nat, out: Seq<u8>) -> bool {
        exists|chain: Seq<Seq<u8>>|
            {
                &&& #[trigger] self.doubling_chain(chain)
                &&& chain.len() == times + 1
                &&& chain[0] == c
                &&& chain[times as int] == out
            }
    }

    /// `out` is what the algebra made of the balances of `account` when the
    /// pending balance was folded into the available one: the low part
    /// added as it is, the high part after sixteen doublings.
    pub open spec fn folded(&self, account: AccountView, out: Seq<u8>) -> bool {
        exists|with_lo: Seq<u8>, shifted: Seq<u8>|
            {
                &&& #[trigger] self.summed(
                    account.available_balance,
                    account.pending_balance_lo,
                    with_lo,
                )
                &&& #[trigger] self.doubled(account.pending_balance_hi, 16, shifted)
                &&& self.summed(with_lo, shifted, out)
            }
    }

    /// `out` is what the algebra made of the available balance of `account`
    /// when `amount` was encrypted under the account's key and taken out.
    pub open spec fn withdrawn(&self, account: AccountView, amount: u64, out: Seq<u8>) -> bool {
        exists|enc: Seq<u8>|
            {
                &&& #[trigger] self.encrypted(amount, account.encryption_public_key, enc)
                &&& self.subtracted(account.available_balance, enc, out)
            }
    }

    /// `available`, `lo` and `hi` are what the algebra made of the balances
    /// of the two accounts when the submitted ciphertexts were taken out of
    /// the source's available balance and added to the destination's
    /// pending balance.
    pub open spec fn transferred(
        &self,
        source: AccountView,
        dest: AccountView,
        debit: Seq<u8>,
        credit_lo: Seq<u8>,
        credit_hi: Seq<u8>,
        available: Seq<u8>,
        lo: Seq<u8>,
        hi: Seq<u8>,
    ) -> bool {
        &&& self.subtracted(source.available_balance, debit, available)
        &&& self.summed(dest.pending_balance_lo, credit_lo, lo)
        &&& self.summed(dest.pending_balance_hi, credit_hi, hi)
    }

    /// `lo` and `hi` are what the algebra made of the two pending
    /// ciphertexts of `account` when the two parts of `amount` were
    /// encrypted under the account's key and added to them.
    pub open spec fn deposited(
        &self,
        account: AccountView,
        amount: u64,
        lo: Seq<u8>,
        hi: Seq<u8>,
    ) -> bool {
        exists|enc_lo: Seq<u8>, enc_hi: Seq<u8>|
            {
                &&& #[trigger] self.encrypted(
                    spec_amount_lo(amount),
                    account.encryption_public_key,
                    enc_lo,
                )
                &&& #[trigger] self.encrypted(
                    spec_amount_hi(amount),
                    account.encryption_public_key,
                    enc_hi,
                )
                &&& self.summed(account.pending_balance_lo, enc_lo, lo)
                &&& self.summed(account.pending_balance_hi, enc_hi, hi)
            }
    }

    /// Deposits a disclosed amount: its two parts are encrypted under the
    /// account's key and added to the pending balance, which counts one
    /// more credit. A refused deposit calls nothing and changes nothing.
    pub fn deposit(&self, slot: &mut AccountSlot, amount: u64) -> (res: Result<(), ErrorCode>)
        ensures
            res == outcome(
                old(slot)@.refusal(|account: AccountView| account.credit_refusal(false)),
            ),
            res is Err ==> *final(slot) == *old(slot),
            res is Ok ==> exists|lo: Seq<u8>, hi: Seq<u8>|
                {
                    &&& #[trigger] self.deposited(old(slot)@->Configured_0, amount, lo, hi)
                    &&& final(slot)@ == SlotView::Configured(
                        old(slot)@->Configured_0.credited(lo, hi),
                    )
                },
            old(slot).wf() ==> final(slot).wf(),
    {
        match slot {
            AccountSlot::Configured(account) => {
                match account.check_credit(false) {
                    Err(e) => Err(e),
                    Ok(()) => {
                        let (amount_lo, amount_hi) = split_amount(amount);
                        let enc_lo = self.algebra.encrypt(amount_lo, &account.encryption_public_key);
                        let enc_hi = self.algebra.encrypt(amount_hi, &account.encryption_public_key);
                        let lo = self.algebra.add(&account.pending_balance_lo, &enc_lo);
                        let hi = self.algebra.add(&account.pending_balance_hi, &enc_hi);
                        proof {
                            let before = account@;
                            assert(self.encrypted(
                                spec_amount_lo(amount),
                                before.encryption_public_key,
                                enc_lo@,
                            ));
                            assert(self.encrypted(
                                spec_amount_hi(amount),
                                before.encryption_public_key,
                                enc_hi@,
                            ));
                            assert(self.summed(before.pending_balance_lo, enc_lo@, lo@));
                            assert(self.summed(before.pending_balance_hi, enc_hi@, hi@));
                            assert(self.deposited(before, amount, lo@, hi@));
                        }
                        account.credit_pending(false, lo, hi)
                    },
                }
            },
            _ => Err(ErrorCode::NotFound),
        }
    }

    /// A ciphertext of sixty-five thousand five hundred and thirty-six
    /// times what `hi` encrypts, by sixteen doublings.
    fn shift_hi(&self, hi: &Vec<u8>) -> (out: Vec<u8>)
        ensures
            self.doubled(hi@, 16, out@),
    {
        let mut acc = self.algebra.add(hi, hi);
        let ghost mut chain: Seq<Seq<u8>> = seq![hi@, acc@];
        assert(self.summed(chain[0], chain[0], chain[1]));
        let mut i: u64 = 1;
        while i < 16
            invariant
                1 <= i <= 16,
                chain.len() == i + 1,
                chain[0] == hi@,
                chain[i as int] == acc@,
                self.doubling_chain(chain),
            decreases 16 - i,
        {
            let next = self.algebra.add(&acc, &acc);
            proof {
                assert(self.summed(acc@, acc@, next@));
                let longer = chain.push(next@);
                assert forall|j: int| 1 <= j < longer.len() implies self.summed(
                    longer[j - 1],
                    longer[j - 1],
                    #[trigger] longer[j],
                ) by {
                    if j < chain.len() {
                        assert(longer[j] == chain[j]);
                        assert(longer[j - 1] == chain[j - 1]);
                    }
                }
                chain = longer;
            }
            acc = next;
            i = i + 1;
        }
        acc
    }

    /// Consolidates, on the owner's word: the pending balance is folded
    /// into the available one and is zero again, its counter starts over,
    /// and the old counter and the expected one go on record. The owner is
    /// asked for first, then the counter. A refused consolidation calls
    /// nothing and changes nothing.
    pub fn apply_pending_balance(
        &self,
        slot: &mut AccountSlot,
        owner: &Pubkey,
        expected_counter: u64,
        new_decryptable_available_balance: Vec<u8>,
    ) -> (res: Result<(), ErrorCode>)
        ensures
            res == outcome(
                old(slot)@.refusal(
                    |account: AccountView| account.consolidation_refusal(owner@, expected_counter),
                ),
            ),
            res is Err ==> *final(slot) == *old(slot),
            res is Ok ==> exists|available: Seq<u8>|
                {
                    &&& #[trigger] self.folded(old(slot)@->Configured_0, available)
                    &&& final(slot)@ == SlotView::Configured(
                        old(slot)@->Configured_0.consolidated(
                            expected_counter,
                            available,
                            new_decryptable_available_balance@,
                        ),
                    )
                },
            old(slot).wf() ==> final(slot).wf(),
    {
        match slot {
            AccountSlot::Configured(account) => {
                match account.check_consolidation(owner, expected_counter) {
                    Err(e) => Err(e),
                    Ok(()) => {
                        let with_lo = self.algebra.add(
                            &account.available_balance,
                            &account.pending_balance_lo,
                        );
                        let shifted = self.shift_hi(&account.pending_balance_hi);
                        let available = self.algebra.add(&with_lo, &shifted);
                        proof {
                            let before = account@;
                            assert(self.summed(
                                before.available_balance,
                                before.pending_balance_lo,
                                with_lo@,
                            ));
                            assert(self.doubled(before.pending_balance_hi, 16, shifted@));
                            assert(self.summed(with_lo@, shifted@, available@));
                            assert(self.folded(before, available@));
                        }
                        account.consolidate_pending(
                            owner,
                            expected_counter,
                            available,
                            new_decryptable_available_balance,
                        )
                    },
                }
            },
            _ => Err(ErrorCode::NotFound),
        }
    }

    /// Withdraws a disclosed amount, on the owner's word and behind a proof
    /// that the available balance covers it. The verifier is asked about
    /// the statement of the balance as it stands; where it accepts, the
    /// amount is encrypted under the account's key and taken out. The owner
    /// is asked for first, and for anyone else nothing is called. A refused
    /// withdrawal changes nothing.
    pub fn withdraw(
        &self,
        slot: &mut AccountSlot,
        owner: &Pubkey,
        amount: u64,
        withdraw_proof: &Vec<u8>,
    ) -> (res: Result<(), ErrorCode>)
        ensures
            old(slot)@.refusal(|account: AccountView| account.owner_refusal(owner@)) is Some
                ==> res == outcome(
                old(slot)@.refusal(|account: AccountView| account.owner_refusal(owner@)),
            ),
            old(slot)@.refusal(|account: AccountView| account.owner_refusal(owner@)) is None
                ==> exists|accepted: bool|
                {
                    &&& #[trigger] self.verified(
                        ProofKind::Withdraw,
                        withdraw_proof@,
                        spec_withdraw_statement(
                            old(slot)@->Configured_0.encryption_public_key,
                            old(slot)@->Configured_0.available_balance,
                            amount,
                        ),
                        accepted,
                    )
                    &&& res == outcome(
                        old(slot)@->Configured_0.debit_refusal(owner@, accepted),
                    )
                },
            res is Err ==> *final(slot) == *old(slot),
            res is Ok ==> exists|available: Seq<u8>|
                {
                    &&& #[trigger] self.withdrawn(old(slot)@->Configured_0, amount, available)
                    &&& final(slot)@ == SlotView::Configured(
                        old(slot)@->Configured_0.debited(available),
                    )
                },
            old(slot).wf() ==> final(slot).wf(),
    {
        match slot {
            AccountSlot::Configured(account) => {
                match account.check_owner(owner) {
                    Err(e) => Err(e),
                    Ok(()) => {
                        let ghost before = account@;
                        let statement = withdraw_statement(account, amount);
                        let accepted = self.verifier.verify(
                            ProofKind::Withdraw,
                            withdraw_proof,
                            &statement,
                        );
                        assert(self.verified(
                            ProofKind::Withdraw,
                            withdraw_proof@,
                            spec_withdraw_statement(
                                before.encryption_public_key,
                                before.available_balance,
                                amount,
                            ),
                            accepted,
                        ));
                        if !accepted {
                            return Err(ErrorCode::ProofVerificationFailed);
                        }
                        let enc = self.algebra.encrypt(amount, &account.encryption_public_key);
                        let available = self.algebra.sub(&account.available_balance, &enc);
                        proof {
                            assert(self.encrypted(amount, before.encryption_public_key, enc@));
                            assert(self.subtracted(before.available_balance, enc@, available@));
                            assert(self.withdrawn(before, amount, available@));
                        }
                        account.debit_available(owner, true, available)
                    },
                }
            },
            _ => Err(ErrorCode::NotFound),
        }
    }

    /// Transfers an amount that stays hidden: behind the sender's proof,
    /// the submitted ciphertexts leave the source's available balance and
    /// enter the destination's pending balance, which counts one more
    /// credit. Both records must be there and both accounts admitted
    /// before the verifier is asked; it is asked about the statement of the
    /// source's balance as it stands; only where it accepts is the algebra
    /// called. Both accounts change together or neither does.
    pub fn confidential_transfer(
        &self,
        source: &mut AccountSlot,
        dest: &mut AccountSlot,
        mint: &ConfidentialTransferMint,
        transfer: &TransferProof,
    ) -> (res: Result<(), ErrorCode>)
        ensures
            !(old(source)@ is Configured && old(dest)@ is Configured) ==> res == Err::<
                (),
                ErrorCode,
            >(ErrorCode::NotFound),
            old(source)@ is Configured && old(dest)@ is Configured && transfer_refusal(
                old(source)@->Configured_0,
                old(dest)@->Configured_0,
                true,
            ) is Some ==> res == outcome(
                transfer_refusal(old(source)@->Configured_0, old(dest)@->Configured_0, true),
            ),
            old(source)@ is Configured && old(dest)@ is Configured && transfer_refusal(
                old(source)@->Configured_0,
                old(dest)@->Configured_0,
                true,
            ) is None ==> exists|accepted: bool|
                {
                    &&& #[trigger] self.verified(
                        ProofKind::Transfer,
                        transfer.proof@,
                        spec_transfer_statement(
                            old(source)@->Configured_0.encryption_public_key,
                            old(dest)@->Configured_0.encryption_public_key,
                            mint@.auditor_public_key,
                            old(source)@->Configured_0.available_balance,
                            transfer.debit@,
                            transfer.credit_lo@,
                            transfer.credit_hi@,
                            transfer.auditor_ciphertext@,
                        ),
                        accepted,
                    )
                    &&& res == outcome(
                        transfer_refusal(
                            old(source)@->Configured_0,
                            old(dest)@->Configured_0,
                            accepted,
                        ),
                    )
                },
            res is Err ==> *final(source) == *old(source) && *final(dest) == *old(dest),
            res is Ok ==> exists|available: Seq<u8>, lo: Seq<u8>, hi: Seq<u8>|
                {
                    &&& #[trigger] self.transferred(
                        old(source)@->Configured_0,
                        old(dest)@->Configured_0,
                        transfer.debit@,
                        transfer.credit_lo@,
                        transfer.credit_hi@,
                        available,
                        lo,
                        hi,
                    )
                    &&& final(source)@ == SlotView::Configured(
                        old(source)@->Configured_0.debited(available),
                    )
                    &&& final(dest)@ == SlotView::Configured(
                        old(dest)@->Configured_0.credited(lo, hi),
                    )
                },
            old(source).wf() ==> final(source).wf(),
            old(dest).wf() ==> final(dest).wf(),
    {
        match source {
            AccountSlot::Configured(from) => {
                match dest {
                    AccountSlot::Configured(to) => {
                        let ghost from_before = from@;
                        let ghost to_before = to@;
                        match check_transfer(from, to, true) {
                            Err(e) => Err(e),
                            Ok(()) => {
                                let statement = transfer_statement(from, to, mint, transfer);
                                let accepted = self.verifier.verify(
                                    ProofKind::Transfer,
                                    &transfer.proof,
                                    &statement,
                                );
                                assert(self.verified(
                                    ProofKind::Transfer,
                                    transfer.proof@,
                                    statement@,
                                    accepted,
                                ));
                                if !accepted {
                                    return Err(ErrorCode::ProofVerificationFailed);
                                }
                                let available = self.algebra.sub(
                                    &from.available_balance,
                                    &transfer.debit,
                                );
                                let lo = self.algebra.add(
                                    &to.pending_balance_lo,
                                    &transfer.credit_lo,
                                );
                                let hi = self.algebra.add(
                                    &to.pending_balance_hi,
                                    &transfer.credit_hi,
                                );
                                proof {
                                    assert(self.subtracted(
                                        from_before.available_balance,
                                        transfer.debit@,
                                        available@,
                                    ));
                                    assert(self.summed(
                                        to_before.pending_balance_lo,
                                        transfer.credit_lo@,
                                        lo@,
                                    ));
                                    assert(self.summed(
                                        to_before.pending_balance_hi,
                                        transfer.credit_hi@,
                                        hi@,
                                    ));
                                    assert(self.transferred(
                                        from_before,
                                        to_before,
                                        transfer.debit@,
                                        transfer.credit_lo@,
                                        transfer.credit_hi@,
                                        available@,
                                        lo@,
                                        hi@,
                                    ));
                                }
                                settle_transfer(from, to, true, available, lo, hi)
                            },
                        }
                    },
                    _ => Err(ErrorCode::NotFound),
                }
            },
            _ => Err(ErrorCode::NotFound),
        }
    }
}

} // verus!
