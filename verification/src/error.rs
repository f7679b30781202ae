//! The kinds of failure that a transition reports.

use vstd::prelude::*;

verus! {

/// Why a transition was refused. Every refusal is final for the attempt and
/// leaves the state as it was.
#[derive(Clone, Copy, Debug, PartialEq, Eq, Structural)]
pub enum ErrorCode {
    /// The caller is not the authority or the owner that the record names.
    Unauthorized,
    /// The account is in the wrong lifecycle state for the transition.
    InvalidState,
    /// The account has not been approved for use.
    AccountNotApproved,
    /// The account does not accept credits on the path that was used.
    CreditsDisabled,
    /// The pending balance has taken as many credits as its cap allows.
    CreditsExceeded,
    /// The caller's expected credit counter is not the live one.
    CounterMismatch,
    /// A balance ciphertext is not the encoding of zero.
    AccountHasBalance,
    /// The proof verifier did not accept the proof for the statement.
    ProofVerificationFailed,
    /// The record exists already.
    AlreadyConfigured,
    /// No record exists.
    NotFound,
}

impl ErrorCode {
    /// The text of each kind.
    pub open spec fn message_text(self) -> Seq<char> {
        match self {
            ErrorCode::Unauthorized => "Caller is not authorized."@,
            ErrorCode::InvalidState => "Account is in the wrong state."@,
            ErrorCode::AccountNotApproved => "Confidential transfer account not approved."@,
            ErrorCode::CreditsDisabled => "Confidential transfer account does not accept credits."@,
            ErrorCode::CreditsExceeded => "Pending balance credit counter exceeded."@,
            ErrorCode::CounterMismatch => "Pending balance credit counter mismatch."@,
            ErrorCode::AccountHasBalance => "Confidential transfer account has balance."@,
            ErrorCode::ProofVerificationFailed => "Proof verification failed."@,
            ErrorCode::AlreadyConfigured => "Already configured."@,
            ErrorCode::NotFound => "Not found."@,
        }
    }

    /// A sentence for the user.
    pub fn message(self) -> (text: &'static str)
        ensures
            text@ == self.message_text(),
    {
        match self {
            ErrorCode::Unauthorized => "Caller is not authorized.",
            ErrorCode::InvalidState => "Account is in the wrong state.",
            ErrorCode::AccountNotApproved => "Confidential transfer account not approved.",
            ErrorCode::CreditsDisabled => "Confidential transfer account does not accept credits.",
            ErrorCode::CreditsExceeded => "Pending balance credit counter exceeded.",
            ErrorCode::CounterMismatch => "Pending balance credit counter mismatch.",
            ErrorCode::AccountHasBalance => "Confidential transfer account has balance.",
            ErrorCode::ProofVerificationFailed => "Proof verification failed.",
            ErrorCode::AlreadyConfigured => "Already configured.",
            ErrorCode::NotFound => "Not found.",
        }
    }
}

} // verus!
