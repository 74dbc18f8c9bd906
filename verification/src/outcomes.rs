//! What each call comes to, said of the entries and the requests themselves:
//! on which inputs it is refused, and with which error; what every entry of
//! the storage is afterwards; and which requests the host gets, one by one.
use vstd::prelude::*;

use crate::address::Address;
use crate::error::ContractError;
use crate::history::{gifts, law_balance_is_all_gifts, run};
use crate::host::{EnvView, EventView, RequestView};
use crate::laws::law_token_amount;
use crate::proposal::{ProposalStatus, ProposalView};
use crate::rules::{
    approval_count, approve_refusal, cancel_refusal, create_refusal, donate_refusal,
    initialize_refusal, token_amount, Call,
};
use crate::storage::{EntryView, State};

verus! {

/// What is recorded is what is read; without a record, the fund holds
/// nothing, a donor has given nothing, and the first identifier is 0.
pub proof fn law_records_are_read(s: State, donor: Address)
    ensures
        s.total_funds is Some ==> s.total() == s.total_funds->0,
        s.total_funds is None ==> s.total() == 0,
        s.next_proposal_id is Some ==> s.next_id() == s.next_proposal_id->0,
        s.next_proposal_id is None ==> s.next_id() == 0,
        s.donor_balances.contains_key(donor) ==> s.balance_of(donor) == s.donor_balances[donor],
        !s.donor_balances.contains_key(donor) ==> s.balance_of(donor) == 0,
{
}

/// A list of approvals is counted by its length, in 32 bits.
pub proof fn law_approvals_are_counted(approvals: Seq<Address>)
    requires
        approvals.len() <= u64::MAX,
    ensures
        approval_count(approvals) == approvals.len() % 0x1_0000_0000,
        approvals.len() <= u32::MAX ==> approval_count(approvals) == approvals.len(),
{
    let n = approvals.len() as u64;
    assert((n as u32) == n % 0x1_0000_0000) by (bit_vector);
}

/// A call changes the environment by its effect on the storage and by its
/// requests, which come after the earlier ones. The contract's address stays.
pub proof fn law_environment_after(e: EnvView, call: Call)
    ensures
        e.after(call).contract == e.contract,
        e.after(call).state == call.after(e.state),
        e.after(call).requests == e.requests + call.requests(e.contract, e.state),
        call.refusal(e.state) is Some ==> e.after(call).state == e.state,
        call.accepted(e.state) <==> call.refusal(e.state) is None,
{
}

/// The environment after the calls, one after the other.
pub open spec fn after_all(e: EnvView, calls: Seq<Call>) -> EnvView
    decreases calls.len(),
{
    if calls.len() == 0 {
        e
    } else {
        after_all(e, calls.drop_last()).after(calls.last())
    }
}

/// After any calls, the environment holds the storage that the calls lead to,
/// under the same address, and the requests of before come first.
pub proof fn law_environment_after_all(e: EnvView, calls: Seq<Call>)
    ensures
        after_all(e, calls).contract == e.contract,
        after_all(e, calls).state == run(e.state, calls),
        e.requests.is_prefix_of(after_all(e, calls).requests),
        calls.len() > 0 ==> after_all(e, calls).requests == after_all(
            e,
            calls.drop_last(),
        ).requests + calls.last().requests(e.contract, run(e.state, calls.drop_last())),
    decreases calls.len(),
{
    if calls.len() > 0 {
        law_environment_after_all(e, calls.drop_last());
        law_environment_after(after_all(e, calls.drop_last()), calls.last());
    }
}

/// After any calls on an empty storage, a donor's balance is the sum of the
/// donor's accepted donations. Who has given nothing has no record.
pub proof fn law_balance_from_nothing(calls: Seq<Call>, donor: Address)
    ensures
        ({
            let s = run(State::empty(), calls);
            let sum = gifts(State::empty(), calls, donor);
            &&& s.balance_of(donor) == sum
            &&& s.donor_balances.contains_key(donor) ==> s.donor_balances[donor] == sum
            &&& s.donor_balances.contains_key(donor) <==> sum > 0
        }),
    decreases calls.len(),
{
    law_balance_is_all_gifts(State::empty(), calls, donor);
    law_records_are_read(State::empty(), donor);
    if calls.len() > 0 {
        let s = run(State::empty(), calls.drop_last());
        law_balance_from_nothing(calls.drop_last(), donor);
        match calls.last() {
            Call::Donate { donor: d, amount } => {
                law_donate_refused_when(s, d, amount);
            },
            _ => {},
        }
    }
}

/// On which inputs `initialize` is refused, and with which error.
pub proof fn law_initialize_refused_when(
    s: State,
    a: Address,
    b: Address,
    c: Address,
    token: Address,
)
    ensures
        ({
            let refusal = initialize_refusal(s, a, b, c);
            let distinct = a != b && b != c && a != c;
            &&& (Call::Initialize { a, b, c, token }).refusal(s) == refusal
            &&& refusal == Some(ContractError::AlreadyInitialized) <==> s.admins is Some
            &&& refusal == Some(ContractError::AdminsMustBeDistinct) <==> s.admins is None
                && !distinct
            &&& refusal is None <==> s.admins is None && distinct
        }),
{
}

/// What an accepted `initialize` comes to: the three administrators in order,
/// the token, an empty fund and the first identifier, each of which the host
/// is asked to store. A refused one asks for nothing.
pub proof fn law_initialize_does(
    e: EnvView,
    a: Address,
    b: Address,
    c: Address,
    token: Address,
)
    ensures
        ({
            let f = e.after(Call::Initialize { a, b, c, token });
            if e.state.admins is None && a != b && b != c && a != c {
                &&& f.state.admins == Some(seq![a, b, c])
                &&& f.state.token == Some(token)
                &&& f.state.total_funds == Some(0u128)
                &&& f.state.next_proposal_id == Some(0u32)
                &&& f.state.proposals == e.state.proposals
                &&& f.state.donor_balances == e.state.donor_balances
                &&& f.requests == e.requests + seq![
                    RequestView::Store(EntryView::Admins(seq![a, b, c])),
                    RequestView::Store(EntryView::Token(token)),
                    RequestView::Store(EntryView::TotalFunds(0)),
                    RequestView::Store(EntryView::NextProposalId(0)),
                ]
            } else {
                &&& f.state == e.state
                &&& f.requests == e.requests
            }
        }),
{
    let f = e.after(Call::Initialize { a, b, c, token });
    if !(e.state.admins is None && a != b && b != c && a != c) {
        assert(f.requests =~= e.requests);
    }
}

/// On which inputs a donation is refused, and with which error. In particular
/// a positive donation is accepted whenever there is a token and both sums
/// fit, whatever was given before.
pub proof fn law_donate_refused_when(s: State, donor: Address, amount: u128)
    ensures
        ({
            let refusal = donate_refusal(s, donor, amount);
            let held: int = if s.total_funds is Some {
                s.total_funds->0 as int
            } else {
                0
            };
            let had: int = if s.donor_balances.contains_key(donor) {
                s.donor_balances[donor] as int
            } else {
                0
            };
            let ready = amount > 0 && s.token is Some;
            &&& (Call::Donate { donor, amount }).refusal(s) == refusal
            &&& refusal == Some(ContractError::AmountMustBePositive) <==> amount == 0
            &&& refusal == Some(ContractError::NotInitialized) <==> amount > 0 && s.token is None
            &&& refusal == Some(ContractError::TotalFundsOverflow) <==> ready && held + amount
                > u128::MAX
            &&& refusal == Some(ContractError::DonorBalanceOverflow) <==> ready && held + amount
                <= u128::MAX && had + amount > u128::MAX
            &&& refusal is None <==> ready && held + amount <= u128::MAX && had + amount
                <= u128::MAX
        }),
{
}

/// What an accepted donation comes to: the fund and the donor's balance rise
/// by the amount, no other entry changes, and the host is asked to authorize
/// the donor, to move the amount from the donor to the contract, to store the
/// two sums and to publish them.
pub proof fn law_donate_does(e: EnvView, donor: Address, amount: u128)
    requires
        donate_refusal(e.state, donor, amount) is None,
    ensures
        ({
            let s = e.state;
            let f = e.after(Call::Donate { donor, amount });
            let t = f.state;
            &&& t.total_funds is Some
            &&& t.total_funds->0 == amount + if s.total_funds is Some {
                s.total_funds->0 as int
            } else {
                0
            }
            &&& t.donor_balances.contains_key(donor)
            &&& t.donor_balances[donor] == amount + if s.donor_balances.contains_key(donor) {
                s.donor_balances[donor] as int
            } else {
                0
            }
            &&& t.donor_balances.remove(donor) == s.donor_balances.remove(donor)
            &&& t.admins == s.admins
            &&& t.token == s.token
            &&& t.next_proposal_id == s.next_proposal_id
            &&& t.proposals == s.proposals
            &&& f.requests == e.requests + seq![
                RequestView::Authorize(donor),
                RequestView::Transfer {
                    token: s.token->0,
                    from: donor,
                    to: e.contract,
                    amount: token_amount(amount),
                },
                RequestView::Store(EntryView::TotalFunds(t.total_funds->0)),
                RequestView::Store(EntryView::DonorBalance(donor, t.donor_balances[donor])),
                RequestView::Publish(
                    EventView::Donate { donor, amount, new_total: t.total_funds->0 },
                ),
            ]
        }),
{
    let s = e.state;
    let t = e.after(Call::Donate { donor, amount }).state;
    assert(t.donor_balances.remove(donor) =~= s.donor_balances.remove(donor));
}

/// What a refused donation has asked for: the donor's authorization, and, if
/// only a sum does not fit, the transfer; if that is the donor's, the new
/// total has been stored by then.
pub proof fn law_donate_refused_asks(e: EnvView, donor: Address, amount: u128)
    requires
        donate_refusal(e.state, donor, amount) is Some,
    ensures
        ({
            let s = e.state;
            let error = donate_refusal(s, donor, amount)->0;
            let f = e.after(Call::Donate { donor, amount });
            let transfer = RequestView::Transfer {
                token: s.token->0,
                from: donor,
                to: e.contract,
                amount: token_amount(amount),
            };
            let held: int = if s.total_funds is Some {
                s.total_funds->0 as int
            } else {
                0
            };
            &&& f.state == s
            &&& f.requests == e.requests + if error == ContractError::TotalFundsOverflow {
                seq![RequestView::Authorize(donor), transfer]
            } else if error == ContractError::DonorBalanceOverflow {
                seq![
                    RequestView::Authorize(donor),
                    transfer,
                    RequestView::Store(EntryView::TotalFunds((held + amount) as u128)),
                ]
            } else {
                seq![RequestView::Authorize(donor)]
            }
        }),
{
    let s = e.state;
    let f = e.after(Call::Donate { donor, amount });
    let n = e.requests.len() as int;
    let added = f.requests.skip(n);
    assert(f.requests =~= e.requests + added);
    match donate_refusal(s, donor, amount)->0 {
        ContractError::TotalFundsOverflow => {
            assert(added =~= seq![added[0], added[1]]);
        },
        ContractError::DonorBalanceOverflow => {
            assert(added =~= seq![added[0], added[1], added[2]]);
        },
        _ => {
            assert(added =~= seq![added[0]]);
        },
    }
}

/// On which inputs the creation of a proposal is refused, and with which
/// error. In particular an amount above what the fund holds always is, and a
/// positive one within it never, as long as identifiers are left.
pub proof fn law_create_refused_when(
    s: State,
    proposer: Address,
    recipient: Address,
    amount: u128,
    description: Seq<u8>,
)
    ensures
        ({
            let refusal = create_refusal(s, proposer, recipient, amount, description);
            let call = Call::CreateProposal { proposer, recipient, amount, description };
            let held: int = if s.total_funds is Some {
                s.total_funds->0 as int
            } else {
                0
            };
            let next: int = if s.next_proposal_id is Some {
                s.next_proposal_id->0 as int
            } else {
                0
            };
            let admin = s.admins is Some && s.admins->0.contains(proposer);
            &&& call.refusal(s) == refusal
            &&& refusal == Some(ContractError::NotInitialized) <==> s.admins is None
            &&& refusal == Some(ContractError::NotAdmin) <==> s.admins is Some && !admin
            &&& refusal == Some(ContractError::AmountMustBePositive) <==> admin && amount == 0
            &&& refusal == Some(ContractError::InsufficientFunds) <==> admin && amount > held
            &&& refusal == Some(ContractError::ProposalIdOverflow) <==> admin && 0 < amount <= held
                && next == u32::MAX
            &&& refusal is None <==> admin && 0 < amount <= held && next < u32::MAX
        }),
{
}

/// What an accepted creation comes to: the identifier counts up by one, the
/// proposal stands under the one that it took, with the proposer's approval
/// alone, no other entry changes, and the host is asked to authorize the
/// proposer, to store the two entries and to publish the proposal. A refused
/// one only asks for the authorization.
pub proof fn law_create_does(
    e: EnvView,
    proposer: Address,
    recipient: Address,
    amount: u128,
    description: Seq<u8>,
)
    ensures
        ({
            let s = e.state;
            let f = e.after(Call::CreateProposal { proposer, recipient, amount, description });
            let t = f.state;
            let id: u32 = if s.next_proposal_id is Some {
                s.next_proposal_id->0
            } else {
                0
            };
            let p = ProposalView {
                id,
                proposer,
                recipient,
                amount,
                description,
                approvals: seq![proposer],
                status: ProposalStatus::Pending,
            };
            if create_refusal(s, proposer, recipient, amount, description) is None {
                &&& t.next_proposal_id is Some
                &&& t.next_proposal_id->0 == id + 1
                &&& t.proposals == s.proposals.insert(id, p)
                &&& t.admins == s.admins
                &&& t.token == s.token
                &&& t.total_funds == s.total_funds
                &&& t.donor_balances == s.donor_balances
                &&& f.requests == e.requests + seq![
                    RequestView::Authorize(proposer),
                    RequestView::Store(EntryView::NextProposalId(t.next_proposal_id->0)),
                    RequestView::Store(EntryView::Proposal(id, p)),
                    RequestView::Publish(
                        EventView::ProposalCreated {
                            proposer,
                            proposal_id: id,
                            recipient,
                            amount,
                            description,
                        },
                    ),
                ]
            } else {
                &&& t == s
                &&& f.requests == e.requests + seq![RequestView::Authorize(proposer)]
            }
        }),
{
    let f = e.after(Call::CreateProposal { proposer, recipient, amount, description });
    if create_refusal(e.state, proposer, recipient, amount, description) is None {
        let added = f.requests.skip(e.requests.len() as int);
        assert(f.requests =~= e.requests + added);
        assert(added =~= seq![added[0], added[1], added[2], added[3]]);
    }
}

/// On which inputs an approval is refused, and with which error. The second
/// approval decides; it is refused if the fund does not hold the amount.
pub proof fn law_approve_refused_when(s: State, approver: Address, id: u32)
    requires
        s.proposals.contains_key(id) ==> s.proposals[id].approvals.len() < u64::MAX,
    ensures
        ({
            let refusal = approve_refusal(s, approver, id);
            let p = s.proposals[id];
            let held: int = if s.total_funds is Some {
                s.total_funds->0 as int
            } else {
                0
            };
            let admin = s.admins is Some && s.admins->0.contains(approver);
            let found = admin && s.proposals.contains_key(id);
            let waits = found && p.status == ProposalStatus::Pending;
            let counts = waits && !p.approvals.contains(approver);
            let executes = counts && (p.approvals.len() + 1) % 0x1_0000_0000 >= 2;
            &&& (Call::ApproveProposal { approver, id }).refusal(s) == refusal
            &&& refusal == Some(ContractError::NotInitialized) <==> s.admins is None || (executes
                && p.amount <= held && s.token is None)
            &&& refusal == Some(ContractError::NotAdmin) <==> s.admins is Some && !admin
            &&& refusal == Some(ContractError::ProposalNotFound) <==> admin && !found
            &&& refusal == Some(ContractError::ProposalNotPending) <==> found && !waits
            &&& refusal == Some(ContractError::AlreadyApproved) <==> waits && !counts
            &&& refusal == Some(ContractError::InsufficientFundsAtExecution) <==> executes
                && p.amount > held
            &&& refusal is None <==> counts && (executes ==> p.amount <= held && s.token is Some)
        }),
{
    if s.proposals.contains_key(id) {
        law_approvals_are_counted(s.proposals[id].approvals.push(approver));
    }
}

/// What an accepted approval comes to. It is counted, and the host is asked to
/// authorize the approver, to store the proposal and to publish the count. If
/// it is the second, the proposal is executed and the fund falls by its
/// amount; after both are stored, the host is asked for one transfer of the
/// amount, from the contract to the recipient, and to publish that. No other
/// entry changes.
pub proof fn law_approve_does(e: EnvView, approver: Address, id: u32)
    requires
        approve_refusal(e.state, approver, id) is None,
        e.state.proposals[id].approvals.len() < u64::MAX,
    ensures
        ({
            let s = e.state;
            let f = e.after(Call::ApproveProposal { approver, id });
            let t = f.state;
            let p = s.proposals[id];
            let voted = ProposalView { approvals: p.approvals.push(approver), ..p };
            let count: int = (p.approvals.len() + 1) as int % 0x1_0000_0000;
            let first = seq![
                RequestView::Authorize(approver),
                RequestView::Store(EntryView::Proposal(id, voted)),
                RequestView::Publish(
                    EventView::ProposalApproved {
                        approver,
                        proposal_id: id,
                        approval_count: count as u32,
                    },
                ),
            ];
            &&& t.admins == s.admins
            &&& t.token == s.token
            &&& t.next_proposal_id == s.next_proposal_id
            &&& t.donor_balances == s.donor_balances
            &&& if count >= 2 {
                let paid = ProposalView { status: ProposalStatus::Executed, ..voted };
                &&& t.proposals == s.proposals.insert(id, paid)
                &&& t.total_funds is Some
                &&& t.total_funds->0 + p.amount == if s.total_funds is Some {
                    s.total_funds->0 as int
                } else {
                    0
                }
                &&& f.requests == e.requests + first + seq![
                    RequestView::Store(EntryView::Proposal(id, paid)),
                    RequestView::Store(EntryView::TotalFunds(t.total_funds->0)),
                    RequestView::Transfer {
                        token: s.token->0,
                        from: e.contract,
                        to: p.recipient,
                        amount: token_amount(p.amount),
                    },
                    RequestView::Publish(
                        EventView::ProposalExecuted {
                            recipient: p.recipient,
                            proposal_id: id,
                            amount: p.amount,
                            remaining: t.total_funds->0,
                        },
                    ),
                ]
            } else {
                &&& t.proposals == s.proposals.insert(id, voted)
                &&& t.total_funds == s.total_funds
                &&& f.requests == e.requests + first
            }
        }),
{
    let s = e.state;
    let f = e.after(Call::ApproveProposal { approver, id });
    let p = s.proposals[id];
    law_approvals_are_counted(p.approvals.push(approver));
    let added = f.requests.skip(e.requests.len() as int);
    assert(f.requests =~= e.requests + added);
    let first = seq![added[0], added[1], added[2]];
    if (p.approvals.len() + 1) % 0x1_0000_0000 >= 2 {
        let voted = ProposalView { approvals: p.approvals.push(approver), ..p };
        let paid = ProposalView { status: ProposalStatus::Executed, ..voted };
        assert(s.proposals.insert(id, voted).insert(id, paid) =~= s.proposals.insert(id, paid));
        let second = seq![added[3], added[4], added[5], added[6]];
        assert(added =~= first + second);
        assert(f.requests =~= e.requests + first + second);
    } else {
        assert(added =~= first);
    }
}

/// What a refused approval has asked for: the authorization, and, if it would
/// have decided, the counted proposal and its announcement; if only the token
/// is missing, the executed proposal and the reduced total have been stored by
/// then. No transfer is among that, and the storage is as before.
pub proof fn law_approve_refused_asks(e: EnvView, approver: Address, id: u32)
    requires
        approve_refusal(e.state, approver, id) is Some,
        e.state.proposals.contains_key(id) ==> e.state.proposals[id].approvals.len() < u64::MAX,
    ensures
        ({
            let s = e.state;
            let f = e.after(Call::ApproveProposal { approver, id });
            let error = approve_refusal(s, approver, id)->0;
            let p = s.proposals[id];
            let voted = ProposalView { approvals: p.approvals.push(approver), ..p };
            let paid = ProposalView { status: ProposalStatus::Executed, ..voted };
            let count: int = (p.approvals.len() + 1) as int % 0x1_0000_0000;
            let held: int = if s.total_funds is Some {
                s.total_funds->0 as int
            } else {
                0
            };
            let first = seq![
                RequestView::Authorize(approver),
                RequestView::Store(EntryView::Proposal(id, voted)),
                RequestView::Publish(
                    EventView::ProposalApproved {
                        approver,
                        proposal_id: id,
                        approval_count: count as u32,
                    },
                ),
            ];
            &&& f.state == s
            &&& f.requests == e.requests + if error
                == ContractError::InsufficientFundsAtExecution {
                first
            } else if error == ContractError::NotInitialized && s.admins is Some {
                first + seq![
                    RequestView::Store(EntryView::Proposal(id, paid)),
                    RequestView::Store(EntryView::TotalFunds((held - p.amount) as u128)),
                ]
            } else {
                seq![RequestView::Authorize(approver)]
            }
        }),
{
    let s = e.state;
    let f = e.after(Call::ApproveProposal { approver, id });
    let p = s.proposals[id];
    law_approve_refused_when(s, approver, id);
    let added = f.requests.skip(e.requests.len() as int);
    assert(f.requests =~= e.requests + added);
    match approve_refusal(s, approver, id)->0 {
        ContractError::InsufficientFundsAtExecution => {
            law_approvals_are_counted(p.approvals.push(approver));
            assert(added =~= seq![added[0], added[1], added[2]]);
        },
        ContractError::NotInitialized => {
            if s.admins is Some {
                law_approvals_are_counted(p.approvals.push(approver));
                assert(added =~= seq![added[0], added[1], added[2]] + seq![added[3], added[4]]);
            } else {
                assert(added =~= seq![added[0]]);
            }
        },
        _ => {
            assert(added =~= seq![added[0]]);
        },
    }
}

/// On which inputs a cancellation is refused, and with which error.
pub proof fn law_cancel_refused_when(s: State, caller: Address, id: u32)
    ensures
        ({
            let refusal = cancel_refusal(s, caller, id);
            let p = s.proposals[id];
            let admin = s.admins is Some && s.admins->0.contains(caller);
            let found = admin && s.proposals.contains_key(id);
            let waits = found && p.status == ProposalStatus::Pending;
            &&& (Call::CancelProposal { caller, id }).refusal(s) == refusal
            &&& refusal == Some(ContractError::NotInitialized) <==> s.admins is None
            &&& refusal == Some(ContractError::NotAdmin) <==> s.admins is Some && !admin
            &&& refusal == Some(ContractError::ProposalNotFound) <==> admin && !found
            &&& refusal == Some(ContractError::ProposalNotPending) <==> found && !waits
            &&& refusal == Some(ContractError::OnlyProposerCanCancel) <==> waits && p.proposer
                != caller
            &&& refusal is None <==> waits && p.proposer == caller
        }),
{
}

/// What an accepted cancellation comes to: the proposal has the status
/// `Cancelled` and is otherwise as it was, no other entry changes, and the
/// host is asked to authorize the caller, to store just that proposal and to
/// publish the cancellation. A refused one only asks for the authorization.
pub proof fn law_cancel_does(e: EnvView, caller: Address, id: u32)
    ensures
        ({
            let s = e.state;
            let f = e.after(Call::CancelProposal { caller, id });
            let t = f.state;
            let p = ProposalView { status: ProposalStatus::Cancelled, ..s.proposals[id] };
            if cancel_refusal(s, caller, id) is None {
                &&& t.proposals == s.proposals.insert(id, p)
                &&& t.admins == s.admins
                &&& t.token == s.token
                &&& t.total_funds == s.total_funds
                &&& t.next_proposal_id == s.next_proposal_id
                &&& t.donor_balances == s.donor_balances
                &&& f.requests == e.requests + seq![
                    RequestView::Authorize(caller),
                    RequestView::Store(EntryView::Proposal(id, p)),
                    RequestView::Publish(EventView::ProposalCancelled { caller, proposal_id: id }),
                ]
            } else {
                &&& t == s
                &&& f.requests == e.requests + seq![RequestView::Authorize(caller)]
            }
        }),
{
}

/// Two donations of one donor come to the same as one of their sum.
pub proof fn law_donations_add_up(e: EnvView, donor: Address, first: u128, second: u128)
    requires
        first > 0,
        second > 0,
        first + second <= u128::MAX,
        donate_refusal(e.state, donor, (first + second) as u128) is None,
    ensures
        ({
            let one = e.after(Call::Donate { donor, amount: first });
            let two = one.after(Call::Donate { donor, amount: second });
            let sum = e.after(Call::Donate { donor, amount: (first + second) as u128 });
            &&& donate_refusal(e.state, donor, first) is None
            &&& donate_refusal(one.state, donor, second) is None
            &&& two.state == sum.state
        }),
{
    let one = e.after(Call::Donate { donor, amount: first });
    let two = one.after(Call::Donate { donor, amount: second });
    let sum = e.after(Call::Donate { donor, amount: (first + second) as u128 });
    assert(two.state =~= sum.state);
}

/// Donations of two donors come to the same in either order.
pub proof fn law_donations_commute(e: EnvView, a: Address, x: u128, b: Address, y: u128)
    requires
        a != b,
        donate_refusal(e.state, a, x) is None,
        donate_refusal(e.after(Call::Donate { donor: a, amount: x }).state, b, y) is None,
    ensures
        ({
            let first = e.after(Call::Donate { donor: a, amount: x });
            let second = e.after(Call::Donate { donor: b, amount: y });
            &&& donate_refusal(e.state, b, y) is None
            &&& donate_refusal(second.state, a, x) is None
            &&& first.after(Call::Donate { donor: b, amount: y }).state == second.after(
                Call::Donate { donor: a, amount: x },
            ).state
        }),
{
    let one = e.after(Call::Donate { donor: a, amount: x }).after(
        Call::Donate { donor: b, amount: y },
    ).state;
    let other = e.after(Call::Donate { donor: b, amount: y }).after(
        Call::Donate { donor: a, amount: x },
    ).state;
    assert(one.donor_balances =~= other.donor_balances);
}

/// A proposal that one administrator makes and another approves at once is
/// accepted and paid by exactly one transfer, of its amount, from the contract
/// to its recipient; the fund falls by just that, and the donors' balances
/// stay.
pub proof fn law_made_and_approved_is_paid(
    e: EnvView,
    proposer: Address,
    approver: Address,
    recipient: Address,
    amount: u128,
    description: Seq<u8>,
)
    requires
        e.state.admins is Some,
        e.state.token is Some,
        e.state.total_funds is Some,
        e.state.next_proposal_id is Some,
        e.state.next_proposal_id->0 < u32::MAX,
        e.state.admins->0.contains(proposer),
        e.state.admins->0.contains(approver),
        proposer != approver,
        0 < amount <= e.state.total_funds->0,
        amount <= i128::MAX,
    ensures
        ({
            let id = e.state.next_proposal_id->0;
            let made = e.after(
                Call::CreateProposal { proposer, recipient, amount, description },
            );
            let done = made.after(Call::ApproveProposal { approver, id });
            let added = done.requests.skip(e.requests.len() as int);
            &&& create_refusal(e.state, proposer, recipient, amount, description) is None
            &&& approve_refusal(made.state, approver, id) is None
            &&& done.state.proposals[id].status == ProposalStatus::Executed
            &&& done.state.total_funds is Some
            &&& done.state.total_funds->0 == e.state.total_funds->0 - amount
            &&& done.state.donor_balances == e.state.donor_balances
            &&& e.requests.is_prefix_of(done.requests)
            &&& exists|m: int|
                #![trigger added[m]]
                {
                    &&& 0 <= m < added.len()
                    &&& added[m] is Transfer
                    &&& added[m]->token == e.state.token->0
                    &&& added[m]->from == e.contract
                    &&& added[m]->to == recipient
                    &&& added[m]->Transfer_amount == amount
                    &&& forall|k: int|
                        0 <= k < added.len() && k != m ==> #[trigger] added[k] !is Transfer
                }
        }),
{
    let id = e.state.next_proposal_id->0;
    let made = e.after(Call::CreateProposal { proposer, recipient, amount, description });
    let done = made.after(Call::ApproveProposal { approver, id });
    let added = done.requests.skip(e.requests.len() as int);
    law_create_refused_when(e.state, proposer, recipient, amount, description);
    law_create_does(e, proposer, recipient, amount, description);
    law_approve_refused_when(made.state, approver, id);
    law_approve_does(made, approver, id);
    law_token_amount(amount);
    assert(added.len() == 11);
    assert(added[9] is Transfer);
    assert(forall|k: int| 0 <= k < added.len() && k != 9 ==> #[trigger] added[k] !is Transfer);
}

/// A cancelled proposal cannot be approved any more, by whichever
/// administrator, and no approval of it asks for a transfer.
pub proof fn law_cancelled_is_not_paid(e: EnvView, caller: Address, approver: Address, id: u32)
    requires
        cancel_refusal(e.state, caller, id) is None,
        e.state.admins->0.contains(approver),
    ensures
        ({
            let gone = e.after(Call::CancelProposal { caller, id });
            let late = gone.after(Call::ApproveProposal { approver, id });
            &&& approve_refusal(gone.state, approver, id) == Some(
                ContractError::ProposalNotPending,
            )
            &&& late.state == gone.state
            &&& late.requests == gone.requests.push(RequestView::Authorize(approver))
        }),
{
    let gone = e.after(Call::CancelProposal { caller, id });
    let late = gone.after(Call::ApproveProposal { approver, id });
    assert(late.requests =~= gone.requests.push(RequestView::Authorize(approver)));
}

} // verus!
