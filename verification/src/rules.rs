//! What each call does, as mathematical functions: when it is refused and
//! why, what the storage holds after it, and what it asks of the host.
use vstd::prelude::*;

use crate::address::Address;
use crate::error::ContractError;
use crate::host::{EnvView, EventView, RequestView};
use crate::proposal::{ProposalStatus, ProposalView, APPROVAL_THRESHOLD};
use crate::storage::{EntryView, State};

verus! {

/// The amount that the token's contract is asked to move. Token amounts are
/// signed: what does not fit becomes negative.
pub open spec fn token_amount(amount: u128) -> i128 {
    #[verifier::truncate]
    (amount as i128)
}

/// The number of approvals in the list, as it is counted and announced.
pub open spec fn approval_count(approvals: Seq<Address>) -> u32 {
    #[verifier::truncate]
    (approvals.len() as u32)
}

/// That many approvals suffice for a proposal to be executed.
pub open spec fn suffices(count: u32) -> bool {
    count >= APPROVAL_THRESHOLD
}

/// Why `caller` may not act as an administrator.
pub open spec fn admin_refusal(s: State, caller: Address) -> Option<ContractError> {
    match s.admins {
        None => Some(ContractError::NotInitialized),
        Some(admins) => if admins.contains(caller) {
            None
        } else {
            Some(ContractError::NotAdmin)
        },
    }
}

/// Why the contract cannot be initialized.
pub open spec fn initialize_refusal(s: State, a: Address, b: Address, c: Address) -> Option<
    ContractError,
> {
    if s.admins is Some {
        Some(ContractError::AlreadyInitialized)
    } else if a == b || b == c || a == c {
        Some(ContractError::AdminsMustBeDistinct)
    } else {
        None
    }
}

/// The storage after the contract was initialized.
pub open spec fn initialized(
    s: State,
    a: Address,
    b: Address,
    c: Address,
    token: Address,
) -> State {
    State {
        admins: Some(seq![a, b, c]),
        token: Some(token),
        total_funds: Some(0),
        next_proposal_id: Some(0),
        ..s
    }
}

/// The host is asked to store the four entries.
pub open spec fn initialize_requests(
    s: State,
    a: Address,
    b: Address,
    c: Address,
    token: Address,
) -> Seq<RequestView> {
    if initialize_refusal(s, a, b, c) is Some {
        seq![]
    } else {
        seq![
            RequestView::Store(EntryView::Admins(seq![a, b, c])),
            RequestView::Store(EntryView::Token(token)),
            RequestView::Store(EntryView::TotalFunds(0)),
            RequestView::Store(EntryView::NextProposalId(0)),
        ]
    }
}

/// Why a donation is refused.
pub open spec fn donate_refusal(s: State, donor: Address, amount: u128) -> Option<ContractError> {
    if amount == 0 {
        Some(ContractError::AmountMustBePositive)
    } else if s.token is None {
        Some(ContractError::NotInitialized)
    } else if s.total() + amount > u128::MAX {
        Some(ContractError::TotalFundsOverflow)
    } else if s.balance_of(donor) + amount > u128::MAX {
        Some(ContractError::DonorBalanceOverflow)
    } else {
        None
    }
}

/// The storage after a donation.
pub open spec fn donated(s: State, donor: Address, amount: u128) -> State {
    State {
        total_funds: Some((s.total() + amount) as u128),
        donor_balances: s.donor_balances.insert(donor, (s.balance_of(donor) + amount) as u128),
        ..s
    }
}

/// The host is asked to authorize the donor, to move the tokens, to store the
/// two new sums and to publish the event; of that, as much as comes before
/// the call is refused.
pub open spec fn donate_requests(
    contract: Address,
    s: State,
    donor: Address,
    amount: u128,
) -> Seq<RequestView> {
    let new_total = (s.total() + amount) as u128;
    let new_balance = (s.balance_of(donor) + amount) as u128;
    let all = seq![
        RequestView::Authorize(donor),
        RequestView::Transfer {
            token: s.token->0,
            from: donor,
            to: contract,
            amount: token_amount(amount),
        },
        RequestView::Store(EntryView::TotalFunds(new_total)),
        RequestView::Store(EntryView::DonorBalance(donor, new_balance)),
        RequestView::Publish(EventView::Donate { donor, amount, new_total }),
    ];
    match donate_refusal(s, donor, amount) {
        None => all,
        Some(ContractError::DonorBalanceOverflow) => all.take(3),
        Some(ContractError::TotalFundsOverflow) => all.take(2),
        Some(_) => all.take(1),
    }
}

/// Why the proposal cannot be executed.
pub open spec fn execution_refusal(s: State, id: u32) -> Option<ContractError> {
    if !s.proposals.contains_key(id) {
        Some(ContractError::ProposalNotFound)
    } else if s.proposals[id].amount > s.total() {
        Some(ContractError::InsufficientFundsAtExecution)
    } else if s.token is None {
        Some(ContractError::NotInitialized)
    } else {
        None
    }
}

/// The storage after the proposal was executed.
pub open spec fn executed(s: State, id: u32) -> State {
    State {
        proposals: s.proposals.insert(
            id,
            ProposalView { status: ProposalStatus::Executed, ..s.proposals[id] },
        ),
        total_funds: Some((s.total() - s.proposals[id].amount) as u128),
        ..s
    }
}

/// What an attempt to execute the proposal leaves in the storage, before the
/// call that makes it is undone if it is refused. Only the lack of a token
/// shows after the proposal is marked and the fund reduced.
pub open spec fn execution_leaves(s: State, id: u32) -> State {
    match execution_refusal(s, id) {
        None => executed(s, id),
        Some(ContractError::NotInitialized) => executed(s, id),
        Some(_) => s,
    }
}

/// The proposal is marked and the fund reduced in the storage before the
/// token's contract is asked to pay.
pub open spec fn execution_requests(contract: Address, s: State, id: u32) -> Seq<RequestView> {
    let proposal = s.proposals[id];
    let remaining = (s.total() - proposal.amount) as u128;
    let all = seq![
        RequestView::Store(
            EntryView::Proposal(
                id,
                ProposalView { status: ProposalStatus::Executed, ..proposal },
            ),
        ),
        RequestView::Store(EntryView::TotalFunds(remaining)),
        RequestView::Transfer {
            token: s.token->0,
            from: contract,
            to: proposal.recipient,
            amount: token_amount(proposal.amount),
        },
        RequestView::Publish(
            EventView::ProposalExecuted {
                recipient: proposal.recipient,
                proposal_id: id,
                amount: proposal.amount,
                remaining,
            },
        ),
    ];
    match execution_refusal(s, id) {
        None => all,
        Some(ContractError::NotInitialized) => all.take(2),
        Some(_) => all.take(0),
    }
}

/// The proposal that is made.
pub open spec fn new_proposal(
    s: State,
    proposer: Address,
    recipient: Address,
    amount: u128,
    description: Seq<u8>,
) -> ProposalView {
    ProposalView {
        id: s.next_id(),
        proposer,
        recipient,
        amount,
        description,
        approvals: seq![proposer],
        status: ProposalStatus::Pending,
    }
}

/// Why a proposal cannot be filed.
pub open spec fn file_refusal(s: State, proposer: Address, amount: u128) -> Option<ContractError> {
    if admin_refusal(s, proposer) is Some {
        admin_refusal(s, proposer)
    } else if amount == 0 {
        Some(ContractError::AmountMustBePositive)
    } else if amount > s.total() {
        Some(ContractError::InsufficientFunds)
    } else if s.next_id() == u32::MAX {
        Some(ContractError::ProposalIdOverflow)
    } else {
        None
    }
}

/// The storage after a proposal was filed.
pub open spec fn filed(s: State, proposal: ProposalView) -> State {
    State {
        next_proposal_id: Some((s.next_id() + 1) as u32),
        proposals: s.proposals.insert(s.next_id(), proposal),
        ..s
    }
}

/// Why the creation of a proposal is refused. A proposal is executed at once
/// if the proposer's approval suffices.
pub open spec fn create_refusal(
    s: State,
    proposer: Address,
    recipient: Address,
    amount: u128,
    description: Seq<u8>,
) -> Option<ContractError> {
    let proposal = new_proposal(s, proposer, recipient, amount, description);
    if file_refusal(s, proposer, amount) is Some {
        file_refusal(s, proposer, amount)
    } else if suffices(1) {
        execution_refusal(filed(s, proposal), proposal.id)
    } else {
        None
    }
}

/// The storage after a proposal was created.
pub open spec fn created(
    s: State,
    proposer: Address,
    recipient: Address,
    amount: u128,
    description: Seq<u8>,
) -> State {
    let proposal = new_proposal(s, proposer, recipient, amount, description);
    if suffices(1) {
        executed(filed(s, proposal), proposal.id)
    } else {
        filed(s, proposal)
    }
}

/// The host is asked to authorize the proposer, to store the next identifier
/// and the proposal, and to publish the event.
pub open spec fn create_requests(
    contract: Address,
    s: State,
    proposer: Address,
    recipient: Address,
    amount: u128,
    description: Seq<u8>,
) -> Seq<RequestView> {
    let proposal = new_proposal(s, proposer, recipient, amount, description);
    if file_refusal(s, proposer, amount) is Some {
        seq![RequestView::Authorize(proposer)]
    } else {
        seq![
            RequestView::Authorize(proposer),
            RequestView::Store(EntryView::NextProposalId((s.next_id() + 1) as u32)),
            RequestView::Store(EntryView::Proposal(proposal.id, proposal)),
            RequestView::Publish(
                EventView::ProposalCreated {
                    proposer,
                    proposal_id: proposal.id,
                    recipient,
                    amount,
                    description,
                },
            ),
        ] + if suffices(1) {
            execution_requests(contract, filed(s, proposal), proposal.id)
        } else {
            seq![]
        }
    }
}

/// Why an administrator's approval does not count.
pub open spec fn vote_refusal(s: State, approver: Address, id: u32) -> Option<ContractError> {
    if admin_refusal(s, approver) is Some {
        admin_refusal(s, approver)
    } else if !s.proposals.contains_key(id) {
        Some(ContractError::ProposalNotFound)
    } else if s.proposals[id].status != ProposalStatus::Pending {
        Some(ContractError::ProposalNotPending)
    } else if s.proposals[id].approvals.contains(approver) {
        Some(ContractError::AlreadyApproved)
    } else {
        None
    }
}

/// The proposal with one more approval.
pub open spec fn with_vote(s: State, approver: Address, id: u32) -> ProposalView {
    ProposalView { approvals: s.proposals[id].approvals.push(approver), ..s.proposals[id] }
}

/// The storage after the approval was counted.
pub open spec fn voted(s: State, approver: Address, id: u32) -> State {
    State { proposals: s.proposals.insert(id, with_vote(s, approver, id)), ..s }
}

/// This approval is the one that suffices.
pub open spec fn decides(s: State, approver: Address, id: u32) -> bool {
    suffices(approval_count(with_vote(s, approver, id).approvals))
}

/// Why an approval is refused: it does not count, or it decides and the
/// proposal cannot be executed.
pub open spec fn approve_refusal(s: State, approver: Address, id: u32) -> Option<ContractError> {
    if vote_refusal(s, approver, id) is Some {
        vote_refusal(s, approver, id)
    } else if decides(s, approver, id) {
        execution_refusal(voted(s, approver, id), id)
    } else {
        None
    }
}

/// The storage after an approval, with the proposal executed if it decides.
pub open spec fn approved(s: State, approver: Address, id: u32) -> State {
    if decides(s, approver, id) {
        executed(voted(s, approver, id), id)
    } else {
        voted(s, approver, id)
    }
}

/// The host is asked to authorize the approver, to store the proposal and to
/// publish the event; then, if the approval decides, what the execution asks.
pub open spec fn approve_requests(
    contract: Address,
    s: State,
    approver: Address,
    id: u32,
) -> Seq<RequestView> {
    let proposal = with_vote(s, approver, id);
    if vote_refusal(s, approver, id) is Some {
        seq![RequestView::Authorize(approver)]
    } else {
        seq![
            RequestView::Authorize(approver),
            RequestView::Store(EntryView::Proposal(id, proposal)),
            RequestView::Publish(
                EventView::ProposalApproved {
                    approver,
                    proposal_id: id,
                    approval_count: approval_count(proposal.approvals),
                },
            ),
        ] + if decides(s, approver, id) {
            execution_requests(contract, voted(s, approver, id), id)
        } else {
            seq![]
        }
    }
}

/// Why a cancellation is refused.
pub open spec fn cancel_refusal(s: State, caller: Address, id: u32) -> Option<ContractError> {
    if admin_refusal(s, caller) is Some {
        admin_refusal(s, caller)
    } else if !s.proposals.contains_key(id) {
        Some(ContractError::ProposalNotFound)
    } else if s.proposals[id].status != ProposalStatus::Pending {
        Some(ContractError::ProposalNotPending)
    } else if s.proposals[id].proposer != caller {
        Some(ContractError::OnlyProposerCanCancel)
    } else {
        None
    }
}

/// The proposal with the status `Cancelled`.
pub open spec fn cancelled_proposal(s: State, id: u32) -> ProposalView {
    ProposalView { status: ProposalStatus::Cancelled, ..s.proposals[id] }
}

/// The storage after a cancellation.
pub open spec fn cancelled(s: State, id: u32) -> State {
    State { proposals: s.proposals.insert(id, cancelled_proposal(s, id)), ..s }
}

/// The host is asked to authorize the caller, to store the proposal and to
/// publish the event.
pub open spec fn cancel_requests(s: State, caller: Address, id: u32) -> Seq<RequestView> {
    if cancel_refusal(s, caller, id) is Some {
        seq![RequestView::Authorize(caller)]
    } else {
        seq![
            RequestView::Authorize(caller),
            RequestView::Store(EntryView::Proposal(id, cancelled_proposal(s, id))),
            RequestView::Publish(EventView::ProposalCancelled { caller, proposal_id: id }),
        ]
    }
}

/// A call that can change the storage.
pub enum Call {
    Initialize { a: Address, b: Address, c: Address, token: Address },
    Donate { donor: Address, amount: u128 },
    CreateProposal {
        proposer: Address,
        recipient: Address,
        amount: u128,
        description: Seq<u8>,
    },
    ApproveProposal { approver: Address, id: u32 },
    CancelProposal { caller: Address, id: u32 },
}

impl Call {
    /// Why the call is refused, if it is.
    pub open spec fn refusal(self, s: State) -> Option<ContractError> {
        match self {
            Call::Initialize { a, b, c, .. } => initialize_refusal(s, a, b, c),
            Call::Donate { donor, amount } => donate_refusal(s, donor, amount),
            Call::CreateProposal { proposer, recipient, amount, description } => create_refusal(
                s,
                proposer,
                recipient,
                amount,
                description,
            ),
            Call::ApproveProposal { approver, id } => approve_refusal(s, approver, id),
            Call::CancelProposal { caller, id } => cancel_refusal(s, caller, id),
        }
    }

    /// The contract carries the call out.
    pub open spec fn accepted(self, s: State) -> bool {
        self.refusal(s) is None
    }

    /// What the storage holds after the call. A refused call changes nothing.
    pub open spec fn after(self, s: State) -> State {
        if self.refusal(s) is Some {
            s
        } else {
            match self {
                Call::Initialize { a, b, c, token } => initialized(s, a, b, c, token),
                Call::Donate { donor, amount } => donated(s, donor, amount),
                Call::CreateProposal { proposer, recipient, amount, description } => created(
                    s,
                    proposer,
                    recipient,
                    amount,
                    description,
                ),
                Call::ApproveProposal { approver, id } => approved(s, approver, id),
                Call::CancelProposal { id, .. } => cancelled(s, id),
            }
        }
    }

    /// What the call asks of the host, in order. Of a refused call, what it
    /// asked before it was refused.
    pub open spec fn requests(self, contract: Address, s: State) -> Seq<RequestView> {
        match self {
            Call::Initialize { a, b, c, token } => initialize_requests(s, a, b, c, token),
            Call::Donate { donor, amount } => donate_requests(contract, s, donor, amount),
            Call::CreateProposal { proposer, recipient, amount, description } => create_requests(
                contract,
                s,
                proposer,
                recipient,
                amount,
                description,
            ),
            Call::ApproveProposal { approver, id } => approve_requests(contract, s, approver, id),
            Call::CancelProposal { caller, id } => cancel_requests(s, caller, id),
        }
    }
}

impl EnvView {
    /// After `call`.
    pub open spec fn after(self, call: Call) -> EnvView {
        EnvView {
            state: call.after(self.state),
            requests: self.requests + call.requests(self.contract, self.state),
            ..self
        }
    }
}

} // verus!
