//! What holds of the state machine whatever is done with it.

use vstd::prelude::*;
use vstd::arithmetic::power2::{lemma2_to64, lemma_pow2_unfold, pow2};
use crate::account::{after_transfer, transfer_refusal, AccountView};
use crate::amount::spec_combine;
use crate::coordinator::TransitionCoordinator;
use crate::error::ErrorCode;
use crate::interfaces::{CiphertextAlgebra, ProofVerifier};

verus! {

/// One attempt to credit an account: the path, and the two pending
/// ciphertexts that the credit would leave.
pub struct CreditAttempt {
    pub confidential: bool,
    pub pending_lo: Seq<u8>,
    pub pending_hi: Seq<u8>,
}

/// The account after the given attempts to credit it, one after the other.
pub open spec fn after_credits(account: AccountView, attempts: Seq<CreditAttempt>) -> AccountView
    decreases attempts.len(),
{
    if attempts.len() == 0 {
        account
    } else {
        after_credits(account, attempts.drop_last()).after_credit(
            attempts.last().confidential,
            attempts.last().pending_lo,
            attempts.last().pending_hi,
        )
    }
}

/// Whatever credits are attempted on a well-formed account, by deposit or by
/// transfer and in any order, its counter never passes its cap, and neither
/// the cap nor the approval moves.
pub proof fn lemma_credits_never_exceed_cap(account: AccountView, attempts: Seq<CreditAttempt>)
    requires
        account.wf(),
    ensures
        after_credits(account, attempts).wf(),
        after_credits(account, attempts).pending_balance_credit_counter
            <= account.maximum_pending_balance_credit_counter,
        after_credits(account, attempts).maximum_pending_balance_credit_counter
            == account.maximum_pending_balance_credit_counter,
        after_credits(account, attempts).approved == account.approved,
    decreases attempts.len(),
{
    if attempts.len() > 0 {
        lemma_credits_never_exceed_cap(account, attempts.drop_last());
    }
}

/// An approved account whose counter has reached its cap refuses the next
/// credit on an open path with `CreditsExceeded`, and stays as it is.
pub proof fn lemma_credit_beyond_cap_is_refused(
    account: AccountView,
    confidential: bool,
    pending_lo: Seq<u8>,
    pending_hi: Seq<u8>,
)
    requires
        account.approved,
        confidential ==> account.allow_confidential_credits,
        !confidential ==> account.allow_non_confidential_credits,
        account.pending_balance_credit_counter >= account.maximum_pending_balance_credit_counter,
    ensures
        account.credit_refusal(confidential) == Some(ErrorCode::CreditsExceeded),
        account.after_credit(confidential, pending_lo, pending_hi) == account,
{
}

/// On an approved account with its paths open, the credits are admitted one
/// by one until the cap is reached: after `attempts` the counter stands at
/// the cap or at the number of credits more than before, whichever is less.
pub proof fn lemma_credits_are_counted(account: AccountView, attempts: Seq<CreditAttempt>)
    requires
        account.wf(),
        account.approved,
        account.allow_confidential_credits,
        account.allow_non_confidential_credits,
    ensures
        after_credits(account, attempts).pending_balance_credit_counter == if account.pending_balance_credit_counter
            + attempts.len() <= account.maximum_pending_balance_credit_counter {
            account.pending_balance_credit_counter + attempts.len()
        } else {
            account.maximum_pending_balance_credit_counter as int
        },
        after_credits(account, attempts).approved,
        after_credits(account, attempts).allow_confidential_credits,
        after_credits(account, attempts).allow_non_confidential_credits,
        after_credits(account, attempts).maximum_pending_balance_credit_counter
            == account.maximum_pending_balance_credit_counter,
    decreases attempts.len(),
{
    if attempts.len() > 0 {
        lemma_credits_are_counted(account, attempts.drop_last());
    }
}

/// A consolidation by the owner with an expected counter that is not the
/// live one is refused with `CounterMismatch`, whatever else is handed in,
/// and the account stays as it is.
pub proof fn lemma_counter_mismatch_is_refused(
    account: AccountView,
    expected_counter: u64,
    available: Seq<u8>,
    decryptable: Seq<u8>,
)
    requires
        expected_counter != account.pending_balance_credit_counter,
    ensures
        account.consolidation_refusal(account.owner, expected_counter) == Some(
            ErrorCode::CounterMismatch,
        ),
        account.after_consolidation(account.owner, expected_counter, available, decryptable)
            == account,
{
}

/// The owner can close an account if and only if its three balances are the
/// encoding of zero; if one is not, the refusal is `AccountHasBalance`.
pub proof fn lemma_close_iff_balances_are_zero(account: AccountView)
    ensures
        account.close_refusal(account.owner) is None <==> account.balances_are_zero(),
        !account.balances_are_zero() ==> account.close_refusal(account.owner) == Some(
            ErrorCode::AccountHasBalance,
        ),
{
}

/// A transfer whose proof the verifier does not accept is refused and
/// changes neither account; between two admitted accounts the refusal is
/// `ProofVerificationFailed`.
pub proof fn lemma_rejected_proof_changes_nothing(
    source: AccountView,
    dest: AccountView,
    source_available: Seq<u8>,
    dest_pending_lo: Seq<u8>,
    dest_pending_hi: Seq<u8>,
)
    ensures
        transfer_refusal(source, dest, false) is Some,
        transfer_refusal(source, dest, true) is None ==> transfer_refusal(source, dest, false)
            == Some(ErrorCode::ProofVerificationFailed),
        after_transfer(source, dest, false, source_available, dest_pending_lo, dest_pending_hi)
            == (source, dest),
{
}

/// `plain` reads every answer of the coordinator's algebra as the plaintext
/// that a homomorphic scheme gives it: an encryption as what was encrypted,
/// a sum as the sum, a difference as the difference.
pub open spec fn reads_homomorphically<A: CiphertextAlgebra, V: ProofVerifier>(
    coordinator: &TransitionCoordinator<A, V>,
    plain: spec_fn(Seq<u8>) -> int,
) -> bool {
    &&& forall|plaintext: u64, key: Seq<u8>, out: Seq<u8>| #[trigger]
        coordinator.encrypted(plaintext, key, out) ==> plain(out) == plaintext
    &&& forall|a: Seq<u8>, b: Seq<u8>, out: Seq<u8>| #[trigger]
        coordinator.summed(a, b, out) ==> plain(out) == plain(a) + plain(b)
    &&& forall|a: Seq<u8>, b: Seq<u8>, out: Seq<u8>| #[trigger]
        coordinator.subtracted(a, b, out) ==> plain(out) == plain(a) - plain(b)
}

/// Along a chain of doublings every entry reads as the first one times a
/// power of two.
proof fn lemma_chain_reads_as_powers<A: CiphertextAlgebra, V: ProofVerifier>(
    coordinator: &TransitionCoordinator<A, V>,
    plain: spec_fn(Seq<u8>) -> int,
    chain: Seq<Seq<u8>>,
    i: nat,
)
    requires
        reads_homomorphically(coordinator, plain),
        coordinator.doubling_chain(chain),
        i < chain.len(),
    ensures
        plain(chain[i as int]) == pow2(i) * plain(chain[0]),
    decreases i,
{
    if i == 0 {
        lemma2_to64();
        let first = plain(chain[0]);
        let one = pow2(0) as int;
        assert(one * first == first) by (nonlinear_arith)
            requires
                one == 1,
        ;
    } else {
        lemma_chain_reads_as_powers(coordinator, plain, chain, (i - 1) as nat);
        lemma_pow2_unfold(i);
        assert(coordinator.summed(chain[i - 1], chain[i - 1], chain[i as int]));
        let before = plain(chain[i - 1]);
        let first = plain(chain[0]);
        let half = pow2((i - 1) as nat) as int;
        assert(plain(chain[i as int]) == before + before);
        assert(pow2(i) == 2 * half);
        let whole = pow2(i) as int;
        assert(before + before == whole * first) by (nonlinear_arith)
            requires
                before == half * first,
                whole == 2 * half,
        ;
    }
}

/// What the algebra made of a ciphertext by doubling it `times` times reads
/// as two to the power `times` times what the ciphertext reads as.
pub proof fn lemma_doubling_reads_as_power<A: CiphertextAlgebra, V: ProofVerifier>(
    coordinator: &TransitionCoordinator<A, V>,
    plain: spec_fn(Seq<u8>) -> int,
    c: Seq<u8>,
    times: nat,
    out: Seq<u8>,
)
    requires
        reads_homomorphically(coordinator, plain),
        coordinator.doubled(c, times, out),
    ensures
        plain(out) == pow2(times) * plain(c),
{
    let chain = choose|chain: Seq<Seq<u8>>|
        {
            &&& #[trigger] coordinator.doubling_chain(chain)
            &&& chain.len() == times + 1
            &&& chain[0] == c
            &&& chain[times as int] == out
        };
    lemma_chain_reads_as_powers(coordinator, plain, chain, times);
}

/// Consolidation loses nothing: under a homomorphic reading, the available
/// balance that it leaves reads as the available balance before plus the
/// pending balance, its high part counted sixty-five thousand five hundred
/// and thirty-six times.
pub proof fn lemma_consolidation_reads_as_sum<A: CiphertextAlgebra, V: ProofVerifier>(
    coordinator: &TransitionCoordinator<A, V>,
    plain: spec_fn(Seq<u8>) -> int,
    account: AccountView,
    available: Seq<u8>,
)
    requires
        reads_homomorphically(coordinator, plain),
        coordinator.folded(account, available),
    ensures
        plain(available) == plain(account.available_balance) + spec_combine(
            plain(account.pending_balance_lo),
            plain(account.pending_balance_hi),
        ),
{
    let (with_lo, shifted) = choose|with_lo: Seq<u8>, shifted: Seq<u8>|
        {
            &&& #[trigger] coordinator.summed(
                account.available_balance,
                account.pending_balance_lo,
                with_lo,
            )
            &&& #[trigger] coordinator.doubled(account.pending_balance_hi, 16, shifted)
            &&& coordinator.summed(with_lo, shifted, available)
        };
    lemma_doubling_reads_as_power(coordinator, plain, account.pending_balance_hi, 16, shifted);
    lemma2_to64();
}

/// Deposit, then consolidate, then read the available balance: under a
/// homomorphic reading the deposited amount has arrived in full, on top of
/// what the balances read as before. On an account whose balances read as
/// zero the available balance then reads as the amount.
pub proof fn lemma_deposit_then_apply_reads_as_amount<A: CiphertextAlgebra, V: ProofVerifier>(
    coordinator: &TransitionCoordinator<A, V>,
    plain: spec_fn(Seq<u8>) -> int,
    account: AccountView,
    amount: u64,
    pending_lo: Seq<u8>,
    pending_hi: Seq<u8>,
    available: Seq<u8>,
)
    requires
        reads_homomorphically(coordinator, plain),
        coordinator.deposited(account, amount, pending_lo, pending_hi),
        coordinator.folded(account.credited(pending_lo, pending_hi), available),
    ensures
        plain(available) == plain(account.available_balance) + spec_combine(
            plain(account.pending_balance_lo),
            plain(account.pending_balance_hi),
        ) + amount,
        plain(account.available_balance) == 0 && plain(account.pending_balance_lo) == 0 && plain(
            account.pending_balance_hi,
        ) == 0 ==> plain(available) == amount,
{
    let (enc_lo, enc_hi) = choose|enc_lo: Seq<u8>, enc_hi: Seq<u8>|
        {
            &&& #[trigger] coordinator.encrypted(
                crate::amount::spec_amount_lo(amount),
                account.encryption_public_key,
                enc_lo,
            )
            &&& #[trigger] coordinator.encrypted(
                crate::amount::spec_amount_hi(amount),
                account.encryption_public_key,
                enc_hi,
            )
            &&& coordinator.summed(account.pending_balance_lo, enc_lo, pending_lo)
            &&& coordinator.summed(account.pending_balance_hi, enc_hi, pending_hi)
        };
    lemma_consolidation_reads_as_sum(
        coordinator,
        plain,
        account.credited(pending_lo, pending_hi),
        available,
    );
    crate::amount::lemma_split_combine(amount, 0, 0);
}

} // verus!
