//! What holds of every single call.
use vstd::prelude::*;

use crate::address::Address;
use crate::error::ContractError;
use crate::history::{lemma_vote_decides, sound, sound_proposal};
use crate::host::{EventView, RequestView};
use crate::proposal::{ProposalStatus, ProposalView};
use crate::rules::{
    approve_refusal, cancel_refusal, create_refusal, decides, donate_refusal, executed,
    execution_refusal, execution_requests, token_amount, voted, Call,
};
use crate::storage::{State, StorageKey};

verus! {

/// The storage after the host carried out the request.
pub open spec fn carry_out(s: State, request: RequestView) -> State {
    match request {
        RequestView::Store(entry) => s.put(entry),
        _ => s,
    }
}

/// The storage after the host carried out the requests, in order.
pub open spec fn replay(s: State, requests: Seq<RequestView>) -> State
    decreases requests.len(),
{
    if requests.len() == 0 {
        s
    } else {
        carry_out(replay(s, requests.drop_last()), requests.last())
    }
}

proof fn lemma_replay_push(s: State, requests: Seq<RequestView>, request: RequestView)
    ensures
        replay(s, requests.push(request)) == carry_out(replay(s, requests), request),
{
    assert(requests.push(request).drop_last() =~= requests);
}

proof fn lemma_replay_three(s: State, a: RequestView, b: RequestView, c: RequestView)
    ensures
        replay(s, seq![a, b, c]) == carry_out(carry_out(carry_out(s, a), b), c),
{
    lemma_replay_push(s, seq![], a);
    lemma_replay_push(s, seq![a], b);
    lemma_replay_push(s, seq![a, b], c);
    assert(seq![a] =~= seq![].push(a));
    assert(seq![a, b] =~= seq![a].push(b));
    assert(seq![a, b, c] =~= seq![a, b].push(c));
}

proof fn lemma_replay_four(
    s: State,
    a: RequestView,
    b: RequestView,
    c: RequestView,
    d: RequestView,
)
    ensures
        replay(s, seq![a, b, c, d]) == carry_out(
            carry_out(carry_out(carry_out(s, a), b), c),
            d,
        ),
{
    lemma_replay_three(s, a, b, c);
    lemma_replay_push(s, seq![a, b, c], d);
    assert(seq![a, b, c, d] =~= seq![a, b, c].push(d));
}

proof fn lemma_replay_concat(s: State, first: Seq<RequestView>, second: Seq<RequestView>)
    ensures
        replay(s, first + second) == replay(replay(s, first), second),
    decreases second.len(),
{
    if second.len() == 0 {
        assert(first + second =~= first);
    } else {
        lemma_replay_concat(s, first, second.drop_last());
        assert((first + second).drop_last() =~= first + second.drop_last());
    }
}

proof fn lemma_replay_execution(contract: Address, s: State, id: u32)
    requires
        execution_refusal(s, id) is None,
    ensures
        replay(s, execution_requests(contract, s, id)) == executed(s, id),
        replay(s, execution_requests(contract, s, id).take(2)) == executed(s, id),
{
    let r = execution_requests(contract, s, id);
    lemma_replay_four(s, r[0], r[1], r[2], r[3]);
    assert(r =~= seq![r[0], r[1], r[2], r[3]]);
    lemma_replay_push(s, seq![], r[0]);
    lemma_replay_push(s, seq![r[0]], r[1]);
    assert(seq![r[0]] =~= seq![].push(r[0]));
    assert(r.take(2) =~= seq![r[0]].push(r[1]));
    assert(carry_out(carry_out(s, r[0]), r[1]) =~= executed(s, id));
}

/// The storage of an accepted call is what the host has after it carried out
/// the requests: nothing changes that the host is not asked to store.
pub proof fn law_storage_is_what_is_asked(contract: Address, s: State, call: Call)
    requires
        call.accepted(s),
    ensures
        replay(s, call.requests(contract, s)) == call.after(s),
{
    let r = call.requests(contract, s);
    match call {
        Call::Initialize { .. } => {
            lemma_replay_four(s, r[0], r[1], r[2], r[3]);
            assert(r =~= seq![r[0], r[1], r[2], r[3]]);
        },
        Call::Donate { .. } => {
            lemma_replay_four(s, r[0], r[1], r[2], r[3]);
            lemma_replay_push(s, seq![r[0], r[1], r[2], r[3]], r[4]);
            assert(r =~= seq![r[0], r[1], r[2], r[3]].push(r[4]));
        },
        Call::CreateProposal { .. } => {
            lemma_replay_four(s, r[0], r[1], r[2], r[3]);
            assert(r =~= seq![r[0], r[1], r[2], r[3]]);
            assert(replay(s, r) =~= call.after(s));
        },
        Call::ApproveProposal { approver, id } => {
            let v = voted(s, approver, id);
            let first = seq![r[0], r[1], r[2]];
            lemma_replay_three(s, r[0], r[1], r[2]);
            if decides(s, approver, id) {
                lemma_replay_execution(contract, v, id);
                lemma_replay_concat(s, first, execution_requests(contract, v, id));
                assert(r =~= first + execution_requests(contract, v, id));
            } else {
                assert(r =~= first);
            }
        },
        Call::CancelProposal { .. } => {
            lemma_replay_three(s, r[0], r[1], r[2]);
            assert(r =~= seq![r[0], r[1], r[2]]);
        },
    }
}

/// A refused call changes nothing.
pub proof fn law_refused_changes_nothing(s: State, call: Call)
    requires
        call.refusal(s) is Some,
    ensures
        call.after(s) == s,
{
}

impl Call {
    /// The call reads the entry under `key`.
    pub open spec fn reads(self, key: StorageKey) -> bool {
        match self {
            Call::Initialize { .. } => key is Admins,
            Call::Donate { donor, .. } => key is Token || key is TotalFunds || key
                == StorageKey::DonorBalance(donor),
            Call::CreateProposal { .. } => key is Admins || key is Token || key is TotalFunds
                || key is NextProposalId,
            Call::ApproveProposal { id, .. } => key is Admins || key is Token || key is TotalFunds
                || key == StorageKey::Proposal(id),
            Call::CancelProposal { id, .. } => key is Admins || key == StorageKey::Proposal(id),
        }
    }

    /// The call, made when the storage holds `s`, can change the entry under
    /// `key`.
    pub open spec fn writes(self, s: State, key: StorageKey) -> bool {
        match self {
            Call::Initialize { .. } => key is Admins || key is Token || key is TotalFunds || key
                is NextProposalId,
            Call::Donate { donor, .. } => key is TotalFunds || key == StorageKey::DonorBalance(
                donor,
            ),
            Call::CreateProposal { .. } => key is NextProposalId || key == StorageKey::Proposal(
                s.next_id(),
            ),
            Call::ApproveProposal { id, .. } => key is TotalFunds || key == StorageKey::Proposal(
                id,
            ),
            Call::CancelProposal { id, .. } => key == StorageKey::Proposal(id),
        }
    }

    /// On whose behalf the call is made.
    pub open spec fn caller(self) -> Option<Address> {
        match self {
            Call::Initialize { .. } => None,
            Call::Donate { donor, .. } => Some(donor),
            Call::CreateProposal { proposer, .. } => Some(proposer),
            Call::ApproveProposal { approver, .. } => Some(approver),
            Call::CancelProposal { caller, .. } => Some(caller),
        }
    }
}

/// Whether a call is refused and what it asks of the host depends on the
/// entries that it reads, and on no others. A host may load just those.
pub proof fn law_reads_suffice(contract: Address, s: State, t: State, call: Call)
    requires
        forall|key: StorageKey| #[trigger]
            call.reads(key) ==> s.lookup(key) == t.lookup(key),
    ensures
        call.refusal(s) == call.refusal(t),
        call.requests(contract, s) == call.requests(contract, t),
{
    match call {
        Call::Initialize { .. } => {
            assert(call.reads(StorageKey::Admins));
        },
        Call::Donate { donor, .. } => {
            assert(call.reads(StorageKey::Token));
            assert(call.reads(StorageKey::TotalFunds));
            assert(call.reads(StorageKey::DonorBalance(donor)));
        },
        Call::CreateProposal { .. } => {
            assert(call.reads(StorageKey::Admins));
            assert(call.reads(StorageKey::TotalFunds));
            assert(call.reads(StorageKey::NextProposalId));
        },
        Call::ApproveProposal { approver, id } => {
            assert(call.reads(StorageKey::Admins));
            assert(call.reads(StorageKey::Token));
            assert(call.reads(StorageKey::TotalFunds));
            assert(call.reads(StorageKey::Proposal(id)));
            assert(s.proposals.contains_key(id) == t.proposals.contains_key(id));
            if s.proposals.contains_key(id) {
                assert(s.proposals[id] == t.proposals[id]);
            }
        },
        Call::CancelProposal { id, .. } => {
            assert(call.reads(StorageKey::Admins));
            assert(call.reads(StorageKey::Proposal(id)));
            assert(s.proposals.contains_key(id) == t.proposals.contains_key(id));
        },
    }
}

/// A call leaves every entry as it is that it does not write. In particular
/// proposals do not touch each other, nor do donors.
pub proof fn law_rest_is_kept(s: State, call: Call, key: StorageKey)
    requires
        !call.writes(s, key),
    ensures
        call.after(s).lookup(key) == s.lookup(key),
{
}

/// Before anything else, the host is asked whether the address on whose
/// behalf the call is made authorized it. Only `initialize` is open to all.
pub proof fn law_authorized_first(contract: Address, s: State, call: Call)
    requires
        call.caller() is Some,
    ensures
        call.requests(contract, s).len() > 0,
        call.requests(contract, s)[0] == RequestView::Authorize(call.caller()->0),
{
}

/// Only an approval pays out of the fund, and when the host is asked to pay,
/// it has been asked to store all that the call changes: the proposal is
/// marked as executed and the amount is taken off. So a contract that is
/// called to make the payment finds the storage as it will be afterwards.
pub proof fn law_marked_before_paid(contract: Address, s: State, call: Call, k: int)
    requires
        call !is Donate,
        0 <= k < call.requests(contract, s).len(),
        call.requests(contract, s)[k] is Transfer,
    ensures
        call is ApproveProposal,
        call.accepted(s),
        replay(s, call.requests(contract, s).take(k)) == call.after(s),
        call.after(s).proposals[call->ApproveProposal_id].status == ProposalStatus::Executed,
        call.after(s).total() == s.total() - s.proposals[call->ApproveProposal_id].amount,
{
    let r = call.requests(contract, s);
    match call {
        Call::ApproveProposal { approver, id } => {
            let v = voted(s, approver, id);
            let e = execution_requests(contract, v, id);
            let first = seq![r[0], r[1], r[2]];
            assert(k == 5);
            assert(execution_refusal(v, id) is None);
            lemma_replay_three(s, r[0], r[1], r[2]);
            lemma_replay_execution(contract, v, id);
            lemma_replay_concat(s, first, e.take(2));
            assert(r.take(5) =~= first + e.take(2));
        },
        _ => {
            assert(false);
        },
    }
}

/// An accepted donation asks for one transfer: of its amount, from the donor
/// to the contract.
pub proof fn law_donation_is_collected(contract: Address, s: State, donor: Address, amount: u128)
    requires
        donate_refusal(s, donor, amount) is None,
    ensures
        ({
            let r = (Call::Donate { donor, amount }).requests(contract, s);
            &&& r[1] == RequestView::Transfer {
                token: s.token->0,
                from: donor,
                to: contract,
                amount: token_amount(amount),
            }
            &&& forall|k: int| 0 <= k < r.len() && k != 1 ==> !(#[trigger] r[k] is Transfer)
        }),
{
}

/// An approval that executes a proposal asks for one transfer: of the
/// proposal's amount, from the contract to the recipient.
pub proof fn law_payment_is_made(contract: Address, s: State, approver: Address, id: u32)
    requires
        approve_refusal(s, approver, id) is None,
        decides(s, approver, id),
    ensures
        ({
            let r = (Call::ApproveProposal { approver, id }).requests(contract, s);
            &&& r[5] == RequestView::Transfer {
                token: s.token->0,
                from: contract,
                to: s.proposals[id].recipient,
                amount: token_amount(s.proposals[id].amount),
            }
            &&& forall|k: int| 0 <= k < r.len() && k != 5 ==> !(#[trigger] r[k] is Transfer)
        }),
{
}

/// The amount that is asked for is the one that is meant, as long as it fits
/// the token's signed amounts. A larger one comes out negative.
pub proof fn law_token_amount(amount: u128)
    ensures
        amount <= i128::MAX ==> token_amount(amount) == amount,
        amount > i128::MAX ==> token_amount(amount) == amount - u128::MAX - 1,
        amount > i128::MAX ==> token_amount(amount) < 0,
{
    assert(amount <= 0x7fff_ffff_ffff_ffff_ffff_ffff_ffff_ffff ==> (amount as i128) == amount)
        by (bit_vector);
    assert(amount > 0x7fff_ffff_ffff_ffff_ffff_ffff_ffff_ffff ==> (amount as i128) == amount
        - 0x1_0000_0000_0000_0000_0000_0000_0000_0000) by (bit_vector);
}

/// A donation raises the fund and the donor's balance by its amount, and no
/// other donor's.
pub proof fn law_donation_counts(s: State, donor: Address, amount: u128, other: Address)
    requires
        donate_refusal(s, donor, amount) is None,
    ensures
        ({
            let t = (Call::Donate { donor, amount }).after(s);
            &&& t.total() == s.total() + amount
            &&& t.balance_of(donor) == s.balance_of(donor) + amount
            &&& other != donor ==> t.balance_of(other) == s.balance_of(other)
        }),
{
}

/// A new proposal is found under its identifier as it was made, waiting, with
/// the proposer's approval alone. The fund is not touched.
pub proof fn law_created_waits(
    s: State,
    proposer: Address,
    recipient: Address,
    amount: u128,
    description: Seq<u8>,
)
    requires
        create_refusal(s, proposer, recipient, amount, description) is None,
    ensures
        ({
            let t = (Call::CreateProposal { proposer, recipient, amount, description }).after(s);
            &&& t.proposals.contains_key(s.next_id())
            &&& t.proposals[s.next_id()] == ProposalView {
                id: s.next_id(),
                proposer,
                recipient,
                amount,
                description,
                approvals: seq![proposer],
                status: ProposalStatus::Pending,
            }
            &&& t.total() == s.total()
        }),
{
}

/// The approval of a second administrator executes a proposal that the fund
/// can pay: the amount leaves the fund.
pub proof fn law_second_approval_executes(s: State, approver: Address, id: u32)
    requires
        sound(s),
        s.proposals.contains_key(id),
        s.proposals[id].status == ProposalStatus::Pending,
        s.proposals[id].amount <= s.total(),
        s.admins->0.contains(approver),
        approver != s.proposals[id].proposer,
    ensures
        approve_refusal(s, approver, id) is None,
        ({
            let t = (Call::ApproveProposal { approver, id }).after(s);
            &&& t.proposals[id] == ProposalView {
                status: ProposalStatus::Executed,
                approvals: seq![s.proposals[id].proposer, approver],
                ..s.proposals[id]
            }
            &&& t.total() == s.total() - s.proposals[id].amount
        }),
{
    assert(sound_proposal(s, id));
    lemma_vote_decides(s, approver, id);
}

/// If the fund cannot pay the amount any more, that approval is refused, and
/// the proposal waits on with the approvals that it had.
pub proof fn law_unpayable_waits_on(s: State, approver: Address, id: u32)
    requires
        sound(s),
        s.proposals.contains_key(id),
        s.proposals[id].status == ProposalStatus::Pending,
        s.proposals[id].amount > s.total(),
        s.admins->0.contains(approver),
        approver != s.proposals[id].proposer,
    ensures
        approve_refusal(s, approver, id) == Some(ContractError::InsufficientFundsAtExecution),
        (Call::ApproveProposal { approver, id }).after(s) == s,
{
    assert(sound_proposal(s, id));
    lemma_vote_decides(s, approver, id);
}

/// A proposer can cancel the own proposal as long as it waits. The fund is
/// not touched.
pub proof fn law_proposer_can_cancel(s: State, id: u32)
    requires
        sound(s),
        s.proposals.contains_key(id),
        s.proposals[id].status == ProposalStatus::Pending,
    ensures
        ({
            let caller = s.proposals[id].proposer;
            let t = (Call::CancelProposal { caller, id }).after(s);
            &&& cancel_refusal(s, caller, id) is None
            &&& t.proposals[id] == ProposalView {
                status: ProposalStatus::Cancelled,
                ..s.proposals[id]
            }
            &&& t.total() == s.total()
        }),
{
    assert(sound_proposal(s, id));
    assert(s.admins->0.contains(s.proposals[id].approvals[0]));
}

/// No one but the proposer can cancel a proposal.
pub proof fn law_only_proposer_cancels(s: State, caller: Address, id: u32)
    requires
        cancel_refusal(s, caller, id) is None,
    ensures
        s.proposals.contains_key(id),
        caller == s.proposals[id].proposer,
{
}

/// Approving or cancelling an executed or cancelled proposal is refused as
/// such, whichever administrator tries.
pub proof fn law_settled_is_refused(s: State, admin: Address, id: u32)
    requires
        s.admins is Some,
        s.admins->0.contains(admin),
        s.proposals.contains_key(id),
        s.proposals[id].status != ProposalStatus::Pending,
    ensures
        approve_refusal(s, admin, id) == Some(ContractError::ProposalNotPending),
        cancel_refusal(s, admin, id) == Some(ContractError::ProposalNotPending),
{
}

/// Who is no administrator can neither create nor approve nor cancel a
/// proposal.
pub proof fn law_only_admins_act(s: State, call: Call)
    requires
        s.admins is Some,
        call is CreateProposal || call is ApproveProposal || call is CancelProposal,
        !s.admins->0.contains(call.caller()->0),
    ensures
        call.refusal(s) == Some(ContractError::NotAdmin),
{
}

/// Until the contract is initialized, every other call is refused.
pub proof fn law_initialize_comes_first(s: State, call: Call)
    requires
        sound(s),
        s.admins is None,
        call !is Initialize,
    ensures
        call.refusal(s) == Some(
            if call matches Call::Donate { amount, .. } && amount == 0 {
                ContractError::AmountMustBePositive
            } else {
                ContractError::NotInitialized
            },
        ),
{
}

/// On an empty storage, three different addresses become the administrators,
/// in that order, of a fund that holds nothing and has no proposals.
pub proof fn law_initialize_sets_up(a: Address, b: Address, c: Address, token: Address)
    requires
        a != b,
        b != c,
        a != c,
    ensures
        ({
            let call = Call::Initialize { a, b, c, token };
            let t = call.after(State::empty());
            &&& call.accepted(State::empty())
            &&& t.admins == Some(seq![a, b, c])
            &&& t.token == Some(token)
            &&& t.total() == 0
            &&& t.next_id() == 0
        }),
{
}

/// What a symbol may consist of: at most 32 letters, digits and underscores.
pub open spec fn is_symbol(text: Seq<char>) -> bool {
    &&& text.len() <= 32
    &&& forall|i: int| 0 <= i < text.len() ==> is_symbol_char(#[trigger] text[i])
}

/// A letter, a digit or an underscore.
pub open spec fn is_symbol_char(c: char) -> bool {
    ('a' <= c && c <= 'z') || ('A' <= c && c <= 'Z') || ('0' <= c && c <= '9') || c == '_'
}

/// Every event's name can be published as a symbol.
pub proof fn law_event_names_are_symbols(event: EventView)
    ensures
        is_symbol(event.name()),
{
    reveal_strlit("donate");
    reveal_strlit("proposal_created");
    reveal_strlit("proposal_approved");
    reveal_strlit("proposal_executed");
    reveal_strlit("proposal_cancelled");
}

} // verus!
