//! The record of one confidential account and its state machine.

use vstd::prelude::*;
use crate::error::ErrorCode;
use crate::interfaces::{is_zero_ciphertext, zero_ciphertext};
use crate::pubkey::Pubkey;

verus! {

/// The state of one account.
#[derive(Clone, Debug, PartialEq, Eq)]
pub struct ConfidentialTransferAccount {
    /// `true` once the account may take part in transfers.
    pub approved: bool,
    /// The identity that may consolidate, withdraw and close.
    pub owner: Pubkey,
    /// The key under which balances addressed to the account are encrypted.
    pub encryption_public_key: Pubkey,
    /// Ciphertext of the low sixteen bits of the pending balance.
    pub pending_balance_lo: Vec<u8>,
    /// Ciphertext of the high forty-eight bits of the pending balance.
    pub pending_balance_hi: Vec<u8>,
    /// Ciphertext of the balance that can be spent.
    pub available_balance: Vec<u8>,
    /// The available balance once more, encrypted for the owner's own
    /// reading. Nothing is decided by it.
    pub decryptable_available_balance: Vec<u8>,
    /// If `false`, confidential transfers into the account are refused.
    pub allow_confidential_credits: bool,
    /// If `false`, deposits into the account are refused.
    pub allow_non_confidential_credits: bool,
    /// Credits that the pending balance has taken since it was last
    /// consolidated.
    pub pending_balance_credit_counter: u64,
    /// The most credits that the pending balance may take before it must be
    /// consolidated.
    pub maximum_pending_balance_credit_counter: u64,
    /// The counter that the owner expected at the last consolidation.
    pub expected_pending_balance_credit_counter: u64,
    /// The counter as it was at the last consolidation.
    pub actual_pending_balance_credit_counter: u64,
}

/// An account as contracts see it: keys and ciphertexts as byte sequences.
pub struct AccountView {
    pub approved: bool,
    pub owner: Seq<u8>,
    pub encryption_public_key: Seq<u8>,
    pub pending_balance_lo: Seq<u8>,
    pub pending_balance_hi: Seq<u8>,
    pub available_balance: Seq<u8>,
    pub decryptable_available_balance: Seq<u8>,
    pub allow_confidential_credits: bool,
    pub allow_non_confidential_credits: bool,
    pub pending_balance_credit_counter: u64,
    pub maximum_pending_balance_credit_counter: u64,
    pub expected_pending_balance_credit_counter: u64,
    pub actual_pending_balance_credit_counter: u64,
}

impl View for ConfidentialTransferAccount {
    type V = AccountView;

    open spec fn view(&self) -> AccountView {
        AccountView {
            approved: self.approved,
            owner: self.owner@,
            encryption_public_key: self.encryption_public_key@,
            pending_balance_lo: self.pending_balance_lo@,
            pending_balance_hi: self.pending_balance_hi@,
            available_balance: self.available_balance@,
            decryptable_available_balance: self.decryptable_available_balance@,
            allow_confidential_credits: self.allow_confidential_credits,
            allow_non_confidential_credits: self.allow_non_confidential_credits,
            pending_balance_credit_counter: self.pending_balance_credit_counter,
            maximum_pending_balance_credit_counter: self.maximum_pending_balance_credit_counter,
            expected_pending_balance_credit_counter: self.expected_pending_balance_credit_counter,
            actual_pending_balance_credit_counter: self.actual_pending_balance_credit_counter,
        }
    }
}

impl AccountView {
    /// The pending balance has taken no more credits than its cap allows.
    pub open spec fn wf(self) -> bool {
        self.pending_balance_credit_counter <= self.maximum_pending_balance_credit_counter
    }

    /// All three balances are the encoding of zero.
    pub open spec fn balances_are_zero(self) -> bool {
        &&& self.pending_balance_lo.len() == 0
        &&& self.pending_balance_hi.len() == 0
        &&& self.available_balance.len() == 0
    }

    /// A freshly configured account: every balance zero, no credit taken,
    /// both credit paths open.
    pub open spec fn configured(
        owner: Seq<u8>,
        encryption_public_key: Seq<u8>,
        approved: bool,
        maximum_pending_balance_credit_counter: u64,
    ) -> AccountView {
        AccountView {
            approved,
            owner,
            encryption_public_key,
            pending_balance_lo: Seq::empty(),
            pending_balance_hi: Seq::empty(),
            available_balance: Seq::empty(),
            decryptable_available_balance: Seq::empty(),
            allow_confidential_credits: true,
            allow_non_confidential_credits: true,
            pending_balance_credit_counter: 0,
            maximum_pending_balance_credit_counter,
            expected_pending_balance_credit_counter: 0,
            actual_pending_balance_credit_counter: 0,
        }
    }

    /// Why `caller` may not act as the owner, if it may not.
    pub open spec fn owner_refusal(self, caller: Seq<u8>) -> Option<ErrorCode> {
        if caller != self.owner {
            Some(ErrorCode::Unauthorized)
        } else {
            None
        }
    }

    /// Why the pending balance takes no credit now, if it takes none:
    /// approval is asked first, then whether the path is open, then the cap.
    pub open spec fn credit_refusal(self, confidential: bool) -> Option<ErrorCode> {
        if !self.approved {
            Some(ErrorCode::AccountNotApproved)
        } else if confidential && !self.allow_confidential_credits {
            Some(ErrorCode::CreditsDisabled)
        } else if !confidential && !self.allow_non_confidential_credits {
            Some(ErrorCode::CreditsDisabled)
        } else if self.pending_balance_credit_counter
            >= self.maximum_pending_balance_credit_counter {
            Some(ErrorCode::CreditsExceeded)
        } else {
            None
        }
    }

    /// The account after one credit that left the two pending ciphertexts
    /// as given.
    pub open spec fn credited(self, pending_lo: Seq<u8>, pending_hi: Seq<u8>) -> AccountView {
        AccountView {
            pending_balance_lo: pending_lo,
            pending_balance_hi: pending_hi,
            pending_balance_credit_counter: (self.pending_balance_credit_counter + 1) as u64,
            ..self
        }
    }

    /// Why `caller` may not consolidate with the counter it expects, if it
    /// may not: the owner is asked first, then the counter.
    pub open spec fn consolidation_refusal(self, caller: Seq<u8>, expected_counter: u64) -> Option<
        ErrorCode,
    > {
        if caller != self.owner {
            Some(ErrorCode::Unauthorized)
        } else if expected_counter != self.pending_balance_credit_counter {
            Some(ErrorCode::CounterMismatch)
        } else {
            None
        }
    }

    /// The account after a consolidation that left the available balance as
    /// given: the pending balance is zero again and its counter starts
    /// over, and what the counter was is on record.
    pub open spec fn consolidated(
        self,
        expected_counter: u64,
        available: Seq<u8>,
        decryptable: Seq<u8>,
    ) -> AccountView {
        AccountView {
            pending_balance_lo: Seq::empty(),
            pending_balance_hi: Seq::empty(),
            available_balance: available,
            decryptable_available_balance: decryptable,
            pending_balance_credit_counter: 0,
            expected_pending_balance_credit_counter: expected_counter,
            actual_pending_balance_credit_counter: self.pending_balance_credit_counter,
            ..self
        }
    }

    /// The account with another available balance and nothing else changed.
    pub open spec fn debited(self, available: Seq<u8>) -> AccountView {
        AccountView { available_balance: available, ..self }
    }

    /// Why the owner's debit is not admitted, if it is not: the owner is
    /// asked first, then the verifier's verdict.
    pub open spec fn debit_refusal(self, caller: Seq<u8>, accepted: bool) -> Option<ErrorCode> {
        if caller != self.owner {
            Some(ErrorCode::Unauthorized)
        } else if !accepted {
            Some(ErrorCode::ProofVerificationFailed)
        } else {
            None
        }
    }

    /// Why the account cannot be approved, if it cannot.
    pub open spec fn approval_refusal(self) -> Option<ErrorCode> {
        if self.approved {
            Some(ErrorCode::InvalidState)
        } else {
            None
        }
    }

    /// The account once approved.
    pub open spec fn approved_now(self) -> AccountView {
        AccountView { approved: true, ..self }
    }

    /// The account after an attempt to credit it: credited where nothing
    /// stands in the way, else as it was.
    pub open spec fn after_credit(
        self,
        confidential: bool,
        pending_lo: Seq<u8>,
        pending_hi: Seq<u8>,
    ) -> AccountView {
        if self.credit_refusal(confidential) is None {
            self.credited(pending_lo, pending_hi)
        } else {
            self
        }
    }

    /// The account after an attempt to consolidate it: consolidated where
    /// nothing stands in the way, else as it was.
    pub open spec fn after_consolidation(
        self,
        caller: Seq<u8>,
        expected_counter: u64,
        available: Seq<u8>,
        decryptable: Seq<u8>,
    ) -> AccountView {
        if self.consolidation_refusal(caller, expected_counter) is None {
            self.consolidated(expected_counter, available, decryptable)
        } else {
            self
        }
    }

    /// The account after an attempt of its owner to debit it: debited where
    /// nothing stands in the way, else as it was.
    pub open spec fn after_debit(self, caller: Seq<u8>, accepted: bool, available: Seq<u8>) -> AccountView {
        if self.debit_refusal(caller, accepted) is None {
            self.debited(available)
        } else {
            self
        }
    }

    /// Why `caller` may not close the account, if it may not: the owner is
    /// asked first, then the balances.
    pub open spec fn close_refusal(self, caller: Seq<u8>) -> Option<ErrorCode> {
        if caller != self.owner {
            Some(ErrorCode::Unauthorized)
        } else if !self.balances_are_zero() {
            Some(ErrorCode::AccountHasBalance)
        } else {
            None
        }
    }
}

/// Why a transfer from `source` to `dest` is not admitted, if it is not.
/// The source's approval is asked first, then whether the destination takes
/// a confidential credit, then the verifier's verdict.
pub open spec fn transfer_refusal(source: AccountView, dest: AccountView, accepted: bool) -> Option<
    ErrorCode,
> {
    if !source.approved {
        Some(ErrorCode::AccountNotApproved)
    } else if dest.credit_refusal(true) is Some {
        dest.credit_refusal(true)
    } else if !accepted {
        Some(ErrorCode::ProofVerificationFailed)
    } else {
        None
    }
}

/// The two accounts after an attempt to transfer: the source debited and
/// the destination credited where nothing stands in the way, else both as
/// they were.
pub open spec fn after_transfer(
    source: AccountView,
    dest: AccountView,
    accepted: bool,
    source_available: Seq<u8>,
    dest_pending_lo: Seq<u8>,
    dest_pending_hi: Seq<u8>,
) -> (AccountView, AccountView) {
    if transfer_refusal(source, dest, accepted) is None {
        (source.debited(source_available), dest.credited(dest_pending_lo, dest_pending_hi))
    } else {
        (source, dest)
    }
}

/// `Ok` where there is no refusal, else the refusal as the error.
pub open spec fn outcome(refusal: Option<ErrorCode>) -> Result<(), ErrorCode> {
    match refusal {
        Some(e) => Err(e),
        None => Ok(()),
    }
}

impl ConfidentialTransferAccount {
    /// The pending balance has taken no more credits than its cap allows.
    pub open spec fn wf(&self) -> bool {
        self@.wf()
    }

    /// A freshly configured account: every balance zero, no credit taken,
    /// both credit paths open.
    pub fn new(
        owner: Pubkey,
        encryption_public_key: Pubkey,
        approved: bool,
        maximum_pending_balance_credit_counter: u64,
    ) -> (account: ConfidentialTransferAccount)
        ensures
            account@ == AccountView::configured(
                owner@,
                encryption_public_key@,
                approved,
                maximum_pending_balance_credit_counter,
            ),
            account.wf(),
    {
        ConfidentialTransferAccount {
            approved,
            owner,
            encryption_public_key,
            pending_balance_lo: zero_ciphertext(),
            pending_balance_hi: zero_ciphertext(),
            available_balance: zero_ciphertext(),
            decryptable_available_balance: zero_ciphertext(),
            allow_confidential_credits: true,
            allow_non_confidential_credits: true,
            pending_balance_credit_counter: 0,
            maximum_pending_balance_credit_counter,
            expected_pending_balance_credit_counter: 0,
            actual_pending_balance_credit_counter: 0,
        }
    }

    /// `Ok` for an account that has been approved for use.
    pub fn approved(&self) -> (res: Result<(), ErrorCode>)
        ensures
            self.approved ==> res == Ok::<(), ErrorCode>(()),
            !self.approved ==> res == Err::<(), ErrorCode>(ErrorCode::AccountNotApproved),
    {
        if self.approved {
            Ok(())
        } else {
            Err(ErrorCode::AccountNotApproved)
        }
    }

    /// `Ok` for an account that can be closed: each of its three balances is
    /// the encoding of zero. Only the encoding is looked at.
    pub fn closable(&self) -> (res: Result<(), ErrorCode>)
        ensures
            self@.balances_are_zero() ==> res == Ok::<(), ErrorCode>(()),
            !self@.balances_are_zero() ==> res == Err::<(), ErrorCode>(
                ErrorCode::AccountHasBalance,
            ),
    {
        if is_zero_ciphertext(&self.pending_balance_lo) && is_zero_ciphertext(
            &self.pending_balance_hi,
        ) && is_zero_ciphertext(&self.available_balance) {
            Ok(())
        } else {
            Err(ErrorCode::AccountHasBalance)
        }
    }

    /// `Ok` where `caller` is the owner.
    pub fn check_owner(&self, caller: &Pubkey) -> (res: Result<(), ErrorCode>)
        ensures
            res == outcome(self@.owner_refusal(caller@)),
    {
        if self.owner.equals(caller) {
            Ok(())
        } else {
            Err(ErrorCode::Unauthorized)
        }
    }

    /// `Ok` where the pending balance takes one more credit on the given
    /// path.
    pub fn check_credit(&self, confidential: bool) -> (res: Result<(), ErrorCode>)
        ensures
            res == outcome(self@.credit_refusal(confidential)),
    {
        if !self.approved {
            return Err(ErrorCode::AccountNotApproved);
        }
        let open = if confidential {
            self.allow_confidential_credits
        } else {
            self.allow_non_confidential_credits
        };
        if !open {
            return Err(ErrorCode::CreditsDisabled);
        }
        if self.pending_balance_credit_counter >= self.maximum_pending_balance_credit_counter {
            return Err(ErrorCode::CreditsExceeded);
        }
        Ok(())
    }

    /// Takes one credit: the two pending ciphertexts become the ones given,
    /// which the ciphertext algebra produced from the old ones and the
    /// amount, and the counter goes up by one. A refused credit changes
    /// nothing.
    pub fn credit_pending(
        &mut self,
        confidential: bool,
        pending_lo: Vec<u8>,
        pending_hi: Vec<u8>,
    ) -> (res: Result<(), ErrorCode>)
        ensures
            res == outcome(old(self)@.credit_refusal(confidential)),
            res is Err ==> *final(self) == *old(self),
            res is Ok ==> final(self)@ == old(self)@.credited(pending_lo@, pending_hi@),
            final(self)@ == old(self)@.after_credit(confidential, pending_lo@, pending_hi@),
            old(self).wf() ==> final(self).wf(),
    {
        match self.check_credit(confidential) {
            Err(e) => Err(e),
            Ok(()) => {
                self.pending_balance_lo = pending_lo;
                self.pending_balance_hi = pending_hi;
                self.pending_balance_credit_counter = self.pending_balance_credit_counter + 1;
                Ok(())
            },
        }
    }

    /// `Ok` where `caller` is the owner and expects the live counter.
    pub fn check_consolidation(&self, caller: &Pubkey, expected_counter: u64) -> (res: Result<
        (),
        ErrorCode,
    >)
        ensures
            res == outcome(self@.consolidation_refusal(caller@, expected_counter)),
    {
        if !self.owner.equals(caller) {
            return Err(ErrorCode::Unauthorized);
        }
        if expected_counter != self.pending_balance_credit_counter {
            return Err(ErrorCode::CounterMismatch);
        }
        Ok(())
    }

    /// Consolidates: the available balance becomes the one given, which the
    /// ciphertext algebra produced from the old one and the pending balance;
    /// the pending balance is zero again, its counter starts over, and the
    /// old counter and the expected one go on record. A refused
    /// consolidation changes nothing.
    pub fn consolidate_pending(
        &mut self,
        caller: &Pubkey,
        expected_counter: u64,
        available: Vec<u8>,
        decryptable: Vec<u8>,
    ) -> (res: Result<(), ErrorCode>)
        ensures
            res == outcome(old(self)@.consolidation_refusal(caller@, expected_counter)),
            res is Err ==> *final(self) == *old(self),
            res is Ok ==> final(self)@ == old(self)@.consolidated(
                expected_counter,
                available@,
                decryptable@,
            ),
            final(self)@ == old(self)@.after_consolidation(
                caller@,
                expected_counter,
                available@,
                decryptable@,
            ),
            old(self).wf() ==> final(self).wf(),
    {
        match self.check_consolidation(caller, expected_counter) {
            Err(e) => Err(e),
            Ok(()) => {
                self.actual_pending_balance_credit_counter = self.pending_balance_credit_counter;
                self.expected_pending_balance_credit_counter = expected_counter;
                self.pending_balance_credit_counter = 0;
                self.pending_balance_lo = zero_ciphertext();
                self.pending_balance_hi = zero_ciphertext();
                self.available_balance = available;
                self.decryptable_available_balance = decryptable;
                Ok(())
            },
        }
    }

    /// Takes an amount out of the available balance, which becomes the
    /// ciphertext given. `accepted` is the verifier's verdict on the
    /// owner's proof. A refused debit changes nothing.
    pub fn debit_available(&mut self, caller: &Pubkey, accepted: bool, available: Vec<u8>) -> (res:
        Result<(), ErrorCode>)
        ensures
            res == outcome(old(self)@.debit_refusal(caller@, accepted)),
            res is Err ==> *final(self) == *old(self),
            res is Ok ==> final(self)@ == old(self)@.debited(available@),
            final(self)@ == old(self)@.after_debit(caller@, accepted, available@),
            old(self).wf() ==> final(self).wf(),
    {
        if !self.owner.equals(caller) {
            return Err(ErrorCode::Unauthorized);
        }
        if !accepted {
            return Err(ErrorCode::ProofVerificationFailed);
        }
        self.available_balance = available;
        Ok(())
    }

    /// Approves an account that waits for approval.
    pub fn approve(&mut self) -> (res: Result<(), ErrorCode>)
        ensures
            res == outcome(old(self)@.approval_refusal()),
            res is Err ==> *final(self) == *old(self),
            res is Ok ==> final(self)@ == old(self)@.approved_now(),
            old(self).wf() ==> final(self).wf(),
    {
        if self.approved {
            return Err(ErrorCode::InvalidState);
        }
        self.approved = true;
        Ok(())
    }

    /// `Ok` where `caller` is the owner and the account can be closed.
    pub fn check_close(&self, caller: &Pubkey) -> (res: Result<(), ErrorCode>)
        ensures
            res == outcome(self@.close_refusal(caller@)),
    {
        if !self.owner.equals(caller) {
            return Err(ErrorCode::Unauthorized);
        }
        self.closable()
    }
}

/// `Ok` where a transfer from `source` to `dest` is admitted, given the
/// verifier's verdict.
pub fn check_transfer(
    source: &ConfidentialTransferAccount,
    dest: &ConfidentialTransferAccount,
    accepted: bool,
) -> (res: Result<(), ErrorCode>)
    ensures
        res == outcome(transfer_refusal(source@, dest@, accepted)),
{
    if !source.approved {
        return Err(ErrorCode::AccountNotApproved);
    }
    match dest.check_credit(true) {
        Err(e) => Err(e),
        Ok(()) => {
            if accepted {
                Ok(())
            } else {
                Err(ErrorCode::ProofVerificationFailed)
            }
        },
    }
}

/// Settles a transfer on both accounts at once: the source's available
/// balance and the destination's two pending ciphertexts become the ones
/// given, which the ciphertext algebra produced, and the destination counts
/// one more credit. `accepted` is the verifier's verdict on the transfer's
/// proof. A refused transfer changes neither account.
pub fn settle_transfer(
    source: &mut ConfidentialTransferAccount,
    dest: &mut ConfidentialTransferAccount,
    accepted: bool,
    source_available: Vec<u8>,
    dest_pending_lo: Vec<u8>,
    dest_pending_hi: Vec<u8>,
) -> (res: Result<(), ErrorCode>)
    ensures
        res == outcome(transfer_refusal(old(source)@, old(dest)@, accepted)),
        res is Err ==> *final(source) == *old(source) && *final(dest) == *old(dest),
        res is Ok ==> final(source)@ == old(source)@.debited(source_available@),
        res is Ok ==> final(dest)@ == old(dest)@.credited(dest_pending_lo@, dest_pending_hi@),
        (final(source)@, final(dest)@) == after_transfer(
            old(source)@,
            old(dest)@,
            accepted,
            source_available@,
            dest_pending_lo@,
            dest_pending_hi@,
        ),
        old(source).wf() ==> final(source).wf(),
        old(dest).wf() ==> final(dest).wf(),
{
    match check_transfer(source, dest, accepted) {
        Err(e) => Err(e),
        Ok(()) => {
            source.available_balance = source_available;
            dest.pending_balance_lo = dest_pending_lo;
            dest.pending_balance_hi = dest_pending_hi;
            dest.pending_balance_credit_counter = dest.pending_balance_credit_counter + 1;
            Ok(())
        },
    }
}

} // verus!
