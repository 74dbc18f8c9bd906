use vstd::prelude::*;

verus! {

/// Why the contract refuses a call.
#[derive(Clone, Copy, Debug, PartialEq, Eq, Structural)]
pub enum ContractError {
    /// `initialize` was called before.
    AlreadyInitialized,
    /// Two of the three administrators are the same address.
    AdminsMustBeDistinct,
    /// The entry that the call reads is set by `initialize`, which was not
    /// called yet.
    NotInitialized,
    /// The amount is zero.
    AmountMustBePositive,
    /// The proposal asks for more than the fund holds.
    InsufficientFunds,
    /// The caller is none of the administrators.
    NotAdmin,
    /// No proposal has that identifier.
    ProposalNotFound,
    /// The proposal is executed or cancelled.
    ProposalNotPending,
    /// The administrator has approved the proposal before.
    AlreadyApproved,
    /// Someone other than the proposer tries to cancel the proposal.
    OnlyProposerCanCancel,
    /// The approvals suffice, but the fund no longer holds the amount.
    InsufficientFundsAtExecution,
    /// The fund would hold more than fits.
    TotalFundsOverflow,
    /// What the donor has given in all would be more than fits.
    DonorBalanceOverflow,
    /// The identifiers are used up.
    ProposalIdOverflow,
}

impl ContractError {
    /// The text that a refused call fails with.
    pub open spec fn text(self) -> Seq<char> {
        match self {
            ContractError::AlreadyInitialized => "already_initialized"@,
            ContractError::AdminsMustBeDistinct => "admins_must_be_distinct"@,
            ContractError::NotInitialized => "not_initialized"@,
            ContractError::AmountMustBePositive => "amount_must_be_positive"@,
            ContractError::InsufficientFunds => "insufficient_funds"@,
            ContractError::NotAdmin => "not_admin"@,
            ContractError::ProposalNotFound => "proposal_not_found"@,
            ContractError::ProposalNotPending => "proposal_not_pending"@,
            ContractError::AlreadyApproved => "already_approved"@,
            ContractError::OnlyProposerCanCancel => "only_proposer_can_cancel"@,
            ContractError::InsufficientFundsAtExecution => "insufficient_funds_at_execution"@,
            ContractError::TotalFundsOverflow => "total_funds_overflow"@,
            ContractError::DonorBalanceOverflow => "attempt to add with overflow"@,
            ContractError::ProposalIdOverflow => "attempt to add with overflow"@,
        }
    }

    /// The text that a refused call fails with.
    pub fn message(self) -> (message: &'static str)
        ensures
            message@ == self.text(),
    {
        match self {
            ContractError::AlreadyInitialized => "already_initialized",
            ContractError::AdminsMustBeDistinct => "admins_must_be_distinct",
            ContractError::NotInitialized => "not_initialized",
            ContractError::AmountMustBePositive => "amount_must_be_positive",
            ContractError::InsufficientFunds => "insufficient_funds",
            ContractError::NotAdmin => "not_admin",
            ContractError::ProposalNotFound => "proposal_not_found",
            ContractError::ProposalNotPending => "proposal_not_pending",
            ContractError::AlreadyApproved => "already_approved",
            ContractError::OnlyProposerCanCancel => "only_proposer_can_cancel",
            ContractError::InsufficientFundsAtExecution => "insufficient_funds_at_execution",
            ContractError::TotalFundsOverflow => "total_funds_overflow",
            ContractError::DonorBalanceOverflow => "attempt to add with overflow",
            ContractError::ProposalIdOverflow => "attempt to add with overflow",
        }
    }
}

} // verus!
