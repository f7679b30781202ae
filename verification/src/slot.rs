//! Where an account's record is kept, and the lifecycle that the record
//! goes through.

use vstd::prelude::*;
use crate::account::{AccountView, ConfidentialTransferAccount};
use crate::error::ErrorCode;

verus! {

/// The place of one account's record, as storage hands it over and takes
/// it back.
#[derive(Clone, Debug, PartialEq, Eq)]
pub enum AccountSlot {
    /// No record has been made.
    Unconfigured,
    /// The record.
    Configured(ConfidentialTransferAccount),
    /// The account was closed and its record released.
    Closed,
}

/// A slot as contracts see it.
pub enum SlotView {
    Unconfigured,
    Configured(AccountView),
    Closed,
}

/// The states of an account.
#[derive(Clone, Copy, Debug, PartialEq, Eq, Structural)]
pub enum Lifecycle {
    Unconfigured,
    PendingApproval,
    Approved,
    Closed,
}

impl View for AccountSlot {
    type V = SlotView;

    open spec fn view(&self) -> SlotView {
        match self {
            AccountSlot::Unconfigured => SlotView::Unconfigured,
            AccountSlot::Configured(account) => SlotView::Configured(account@),
            AccountSlot::Closed => SlotView::Closed,
        }
    }
}

impl SlotView {
    /// The state that the account is in.
    pub open spec fn lifecycle(self) -> Lifecycle {
        match self {
            SlotView::Unconfigured => Lifecycle::Unconfigured,
            SlotView::Configured(account) => if account.approved {
                Lifecycle::Approved
            } else {
                Lifecycle::PendingApproval
            },
            SlotView::Closed => Lifecycle::Closed,
        }
    }

    /// Every record that is there is well formed.
    pub open spec fn wf(self) -> bool {
        self matches SlotView::Configured(account) ==> account.wf()
    }

    /// Why no record can be made here, if none can: one is there already,
    /// or the account was closed.
    pub open spec fn configure_refusal(self) -> Option<ErrorCode> {
        match self {
            SlotView::Unconfigured => None,
            SlotView::Configured(_) => Some(ErrorCode::AlreadyConfigured),
            SlotView::Closed => Some(ErrorCode::InvalidState),
        }
    }

    /// What stands in the way of a transition of the record, given what
    /// would stand in its way if the record is there.
    pub open spec fn refusal(self, of_record: spec_fn(AccountView) -> Option<ErrorCode>) -> Option<
        ErrorCode,
    > {
        match self {
            SlotView::Configured(account) => of_record(account),
            _ => Some(ErrorCode::NotFound),
        }
    }
}

impl AccountSlot {
    /// Every record that is there is well formed.
    pub open spec fn wf(&self) -> bool {
        self@.wf()
    }

    /// The state that the account is in.
    pub fn lifecycle(&self) -> (state: Lifecycle)
        ensures
            state == self@.lifecycle(),
    {
        match self {
            AccountSlot::Unconfigured => Lifecycle::Unconfigured,
            AccountSlot::Configured(account) => {
                if account.approved {
                    Lifecycle::Approved
                } else {
                    Lifecycle::PendingApproval
                }
            },
            AccountSlot::Closed => Lifecycle::Closed,
        }
    }
}

} // verus!
