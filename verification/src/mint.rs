//! The policy of one mint: who approves accounts, whether new accounts need
//! approval at all, and who audits transfers.

use vstd::prelude::*;
use crate::error::ErrorCode;
use crate::pubkey::Pubkey;

verus! {

/// The confidentiality policy of a mint. It is made once and changed only
/// by its authority.
#[derive(Clone, Copy, Debug, PartialEq, Eq)]
pub struct ConfidentialTransferMint {
    /// The identity that approves accounts and changes this policy.
    pub authority: Pubkey,
    /// If `true`, a new account is approved as it is configured.
    pub auto_approve_new_accounts: bool,
    /// The key under which transfer amounts are encrypted for the auditor.
    pub auditor_public_key: Pubkey,
}

/// A mint's policy as contracts see it.
pub struct MintView {
    pub authority: Seq<u8>,
    pub auto_approve_new_accounts: bool,
    pub auditor_public_key: Seq<u8>,
}

impl View for ConfidentialTransferMint {
    type V = MintView;

    open spec fn view(&self) -> MintView {
        MintView {
            authority: self.authority@,
            auto_approve_new_accounts: self.auto_approve_new_accounts,
            auditor_public_key: self.auditor_public_key@,
        }
    }
}

/// What the one who initializes a mint's policy submits.
#[derive(Clone, Copy, Debug, PartialEq, Eq)]
pub struct Initialize {
    pub authority: Pubkey,
    pub auto_approve_new_accounts: bool,
    pub auditor_public_key: Pubkey,
}

/// What the authority may change in a mint's policy.
#[derive(Clone, Copy, Debug, PartialEq, Eq)]
pub struct MintUpdate {
    pub auto_approve_new_accounts: bool,
    pub auditor_public_key: Pubkey,
}

/// Initializes the policy of a mint that has none yet. A mint that has one
/// keeps it, and the attempt fails.
pub fn initialize(mint: &mut Option<ConfidentialTransferMint>, args: Initialize) -> (res: Result<
    (),
    ErrorCode,
>)
    ensures
        *old(mint) is Some ==> res == Err::<(), ErrorCode>(ErrorCode::AlreadyConfigured)
            && *final(mint) == *old(mint),
        *old(mint) is None ==> res == Ok::<(), ErrorCode>(()) && *final(mint) == Some(
            ConfidentialTransferMint {
                authority: args.authority,
                auto_approve_new_accounts: args.auto_approve_new_accounts,
                auditor_public_key: args.auditor_public_key,
            },
        ),
{
    if mint.is_some() {
        return Err(ErrorCode::AlreadyConfigured);
    }
    *mint = Some(
        ConfidentialTransferMint {
            authority: args.authority,
            auto_approve_new_accounts: args.auto_approve_new_accounts,
            auditor_public_key: args.auditor_public_key,
        },
    );
    Ok(())
}

impl ConfidentialTransferMint {
    /// `Ok` where `caller` is the mint's authority.
    pub fn check_authority(&self, caller: &Pubkey) -> (res: Result<(), ErrorCode>)
        ensures
            caller@ == self@.authority ==> res == Ok::<(), ErrorCode>(()),
            caller@ != self@.authority ==> res == Err::<(), ErrorCode>(ErrorCode::Unauthorized),
    {
        if self.authority.equals(caller) {
            Ok(())
        } else {
            Err(ErrorCode::Unauthorized)
        }
    }

    /// Changes the policy on the authority's word. Anyone else changes
    /// nothing.
    pub fn update(&mut self, caller: &Pubkey, new_fields: MintUpdate) -> (res: Result<
        (),
        ErrorCode,
    >)
        ensures
            caller@ != old(self)@.authority ==> res == Err::<(), ErrorCode>(
                ErrorCode::Unauthorized,
            ) && *final(self) == *old(self),
            caller@ == old(self)@.authority ==> res == Ok::<(), ErrorCode>(()) && *final(self)
                == (ConfidentialTransferMint {
                authority: old(self).authority,
                auto_approve_new_accounts: new_fields.auto_approve_new_accounts,
                auditor_public_key: new_fields.auditor_public_key,
            }),
    {
        match self.check_authority(caller) {
            Err(e) => Err(e),
            Ok(()) => {
                self.auto_approve_new_accounts = new_fields.auto_approve_new_accounts;
                self.auditor_public_key = new_fields.auditor_public_key;
                Ok(())
            },
        }
    }
}

} // verus!
