//! What holds of the storage after any calls at all.
use vstd::prelude::*;

use crate::address::Address;
use crate::error::ContractError;
use crate::proposal::{ProposalStatus, ProposalView, ADMIN_COUNT, APPROVAL_THRESHOLD};
use crate::rules::{
    approval_count, approve_refusal, approve_requests, approved, cancelled, decides, donated,
    executed, filed, initialize_refusal, initialized, new_proposal, voted, with_vote, Call,
};
use crate::storage::State;

verus! {

/// The sum of what `f` makes of the values of a finite map.
pub open spec fn sum_by<K, V>(m: Map<K, V>, f: spec_fn(V) -> nat) -> nat
    decreases m.dom().len(),
    when m.dom().finite()
{
    if m.dom().len() == 0 {
        0
    } else {
        let k = m.dom().choose();
        f(m[k]) + sum_by(m.remove(k), f)
    }
}

proof fn lemma_sum_remove<K, V>(m: Map<K, V>, f: spec_fn(V) -> nat, k: K)
    requires
        m.dom().finite(),
        m.contains_key(k),
    ensures
        sum_by(m, f) == f(m[k]) + sum_by(m.remove(k), f),
    decreases m.dom().len(),
{
    let c = m.dom().choose();
    if m.dom().len() == 0 {
        assert(m.dom() =~= Set::empty());
    } else if c != k {
        lemma_sum_remove(m.remove(c), f, k);
        lemma_sum_remove(m.remove(k), f, c);
        assert(m.remove(c).remove(k) =~= m.remove(k).remove(c));
    }
}

/// How one new value changes the sum.
proof fn lemma_sum_insert<K, V>(m: Map<K, V>, f: spec_fn(V) -> nat, k: K, v: V)
    requires
        m.dom().finite(),
    ensures
        m.insert(k, v).dom().finite(),
        sum_by(m.insert(k, v), f) == sum_by(m, f) + f(v) - (if m.contains_key(k) {
            f(m[k])
        } else {
            0
        }),
{
    let n = m.insert(k, v);
    assert(n.dom() =~= m.dom().insert(k));
    lemma_sum_remove(n, f, k);
    assert(n.remove(k) =~= m.remove(k));
    if m.contains_key(k) {
        lemma_sum_remove(m, f, k);
    } else {
        assert(m.remove(k) =~= m);
    }
}

/// A balance as a number.
pub open spec fn balance_value() -> spec_fn(u128) -> nat {
    |balance: u128| balance as nat
}

/// What was paid for a proposal: its amount once it is executed.
pub open spec fn payment() -> spec_fn(ProposalView) -> nat {
    |p: ProposalView|
        if p.status == ProposalStatus::Executed {
            p.amount as nat
        } else {
            0
        }
}

/// What all donors have given together.
pub open spec fn given(s: State) -> nat {
    sum_by(s.donor_balances, balance_value())
}

/// What all executed proposals have paid out together.
pub open spec fn paid(s: State) -> nat {
    sum_by(s.proposals, payment())
}

/// What holds of every proposal. It is executed if and only if enough
/// administrators have approved it, of whom the proposer is the first.
pub open spec fn sound_proposal(s: State, id: u32) -> bool {
    let p = s.proposals[id];
    &&& p.id == id
    &&& p.amount > 0
    &&& p.approvals.len() > 0
    &&& p.approvals[0] == p.proposer
    &&& p.approvals.no_duplicates()
    &&& forall|i: int|
        0 <= i < p.approvals.len() ==> s.admins->0.contains(#[trigger] p.approvals[i])
    &&& p.approvals.len() <= APPROVAL_THRESHOLD
    &&& p.status == ProposalStatus::Executed <==> p.approvals.len() == APPROVAL_THRESHOLD
}

/// What holds of the storage at all times. Before the contract is
/// initialized it is empty. From then on there are three different
/// administrators, the proposals have the identifiers from 0 up to the next
/// one, and the fund holds what was given and not paid out.
pub open spec fn sound(s: State) -> bool {
    if s.admins is None {
        s == State::empty()
    } else {
        &&& s.admins->0.len() == ADMIN_COUNT
        &&& s.admins->0.no_duplicates()
        &&& s.token is Some
        &&& s.total_funds is Some
        &&& s.next_proposal_id is Some
        &&& s.proposals.dom().finite()
        &&& s.donor_balances.dom().finite()
        &&& forall|id: u32| #[trigger] s.proposals.contains_key(id) <==> id < s.next_id()
        &&& forall|id: u32| #[trigger] s.proposals.contains_key(id) ==> sound_proposal(s, id)
        &&& given(s) == s.total() + paid(s)
    }
}

/// The storage is sound before the first call.
pub proof fn law_sound_at_first()
    ensures
        sound(State::empty()),
{
}

/// Every call keeps the storage sound.
pub proof fn law_sound_ever_after(s: State, call: Call)
    requires
        sound(s),
    ensures
        sound(call.after(s)),
{
    if call.refusal(s) is None {
        let t = call.after(s);
        match call {
            Call::Initialize { a, b, c, token } => {
                assert(t == initialized(s, a, b, c, token));
                assert(t.admins->0 == seq![a, b, c]);
                assert(given(t) == 0);
                assert(paid(t) == 0);
            },
            Call::Donate { donor, amount } => {
                assert(t == donated(s, donor, amount));
                lemma_sum_insert(
                    s.donor_balances,
                    balance_value(),
                    donor,
                    (s.balance_of(donor) + amount) as u128,
                );
                assert forall|id: u32| #[trigger] t.proposals.contains_key(id) implies
                    sound_proposal(t, id) by {
                    assert(s.proposals.contains_key(id));
                    assert(sound_proposal(s, id));
                }
            },
            Call::CreateProposal { proposer, recipient, amount, description } => {
                let p = new_proposal(s, proposer, recipient, amount, description);
                assert(t == filed(s, p));
                lemma_sum_insert(s.proposals, payment(), p.id, p);
                assert forall|id: u32| #[trigger] t.proposals.contains_key(id) implies
                    sound_proposal(t, id) by {
                    if id != p.id {
                        assert(s.proposals.contains_key(id));
                        assert(sound_proposal(s, id));
                    }
                }
            },
            Call::ApproveProposal { approver, id } => {
                lemma_approve_keeps_sound(s, approver, id);
            },
            Call::CancelProposal { caller, id } => {
                assert(t == cancelled(s, id));
                assert(sound_proposal(s, id));
                lemma_sum_insert(s.proposals, payment(), id, t.proposals[id]);
                assert forall|other: u32| #[trigger] t.proposals.contains_key(other) implies
                    sound_proposal(t, other) by {
                    assert(s.proposals.contains_key(other));
                    assert(sound_proposal(s, other));
                }
            },
        }
    }
}

/// A proposal that waits has the proposer's approval alone, and one more
/// decides.
pub proof fn lemma_vote_decides(s: State, approver: Address, id: u32)
    requires
        sound(s),
        s.proposals.contains_key(id),
        s.proposals[id].status == ProposalStatus::Pending,
    ensures
        s.proposals[id].approvals == seq![s.proposals[id].proposer],
        with_vote(s, approver, id).approvals == seq![s.proposals[id].proposer, approver],
        decides(s, approver, id),
{
    assert(sound_proposal(s, id));
    let approvals = with_vote(s, approver, id).approvals;
    assert(s.proposals[id].approvals =~= seq![s.proposals[id].proposer]);
    assert(approvals =~= seq![s.proposals[id].proposer, approver]);
    assert(approval_count(approvals) == 2);
}

proof fn lemma_approve_keeps_sound(s: State, approver: Address, id: u32)
    requires
        sound(s),
        approve_refusal(s, approver, id) is None,
    ensures
        sound(approved(s, approver, id)),
{
    lemma_vote_decides(s, approver, id);
    let v = voted(s, approver, id);
    let t = executed(v, id);
    assert(sound_proposal(s, id));
    assert(v.proposals.insert(id, t.proposals[id]) =~= s.proposals.insert(id, t.proposals[id]));
    lemma_sum_insert(s.proposals, payment(), id, t.proposals[id]);
    assert forall|other: u32| #[trigger] t.proposals.contains_key(other) implies sound_proposal(
        t,
        other,
    ) by {
        assert(s.proposals.contains_key(other));
        assert(sound_proposal(s, other));
    }
}

/// What the storage holds after the calls, one after the other.
pub open spec fn run(s: State, calls: Seq<Call>) -> State
    decreases calls.len(),
{
    if calls.len() == 0 {
        s
    } else {
        calls.last().after(run(s, calls.drop_last()))
    }
}

/// Whatever calls are made, the storage stays sound.
pub proof fn law_always_sound(s: State, calls: Seq<Call>)
    requires
        sound(s),
    ensures
        sound(run(s, calls)),
    decreases calls.len(),
{
    if calls.len() > 0 {
        law_always_sound(s, calls.drop_last());
        law_sound_ever_after(run(s, calls.drop_last()), calls.last());
    }
}

/// What the last of the calls, made when the storage holds `s`, gives on
/// behalf of `donor`.
pub open spec fn gift(s: State, call: Call, donor: Address) -> nat {
    match call {
        Call::Donate { donor: d, amount } => if d == donor && call.accepted(s) {
            amount as nat
        } else {
            0
        },
        _ => 0,
    }
}

/// What the accepted donations of `donor` among the calls add up to.
pub open spec fn gifts(s: State, calls: Seq<Call>, donor: Address) -> nat
    decreases calls.len(),
{
    if calls.len() == 0 {
        0
    } else {
        gifts(s, calls.drop_last(), donor) + gift(run(s, calls.drop_last()), calls.last(), donor)
    }
}

/// A donor's balance counts all of the donor's accepted donations, and
/// nothing else.
pub proof fn law_balance_is_all_gifts(s: State, calls: Seq<Call>, donor: Address)
    ensures
        run(s, calls).balance_of(donor) == s.balance_of(donor) + gifts(s, calls, donor),
    decreases calls.len(),
{
    if calls.len() > 0 {
        law_balance_is_all_gifts(s, calls.drop_last(), donor);
    }
}

/// What the call, made when the storage holds `s`, adds to the fund. Less
/// than nothing if it pays out.
pub open spec fn change(s: State, call: Call) -> int {
    if !call.accepted(s) {
        0
    } else {
        match call {
            Call::Donate { amount, .. } => amount as int,
            Call::ApproveProposal { approver, id } => if decides(s, approver, id) {
                -(s.proposals[id].amount as int)
            } else {
                0
            },
            _ => 0,
        }
    }
}

/// What the calls add to the fund.
pub open spec fn changes(s: State, calls: Seq<Call>) -> int
    decreases calls.len(),
{
    if calls.len() == 0 {
        0
    } else {
        changes(s, calls.drop_last()) + change(run(s, calls.drop_last()), calls.last())
    }
}

/// The fund holds what the accepted donations brought in less what the
/// executed proposals paid out.
pub proof fn law_total_is_all_changes(s: State, calls: Seq<Call>)
    requires
        sound(s),
    ensures
        run(s, calls).total() == s.total() + changes(s, calls),
    decreases calls.len(),
{
    if calls.len() > 0 {
        law_total_is_all_changes(s, calls.drop_last());
        law_always_sound(s, calls.drop_last());
    }
}

/// How many of the calls create a proposal.
pub open spec fn creations(s: State, calls: Seq<Call>) -> nat
    decreases calls.len(),
{
    if calls.len() == 0 {
        0
    } else {
        creations(s, calls.drop_last()) + if calls.last() is CreateProposal
            && calls.last().accepted(run(s, calls.drop_last())) {
            1nat
        } else {
            0
        }
    }
}

/// Identifiers count the proposals, from 0 on: the next one is the number of
/// proposals that were created.
pub proof fn law_ids_count_proposals(calls: Seq<Call>)
    ensures
        run(State::empty(), calls).next_id() == creations(State::empty(), calls),
    decreases calls.len(),
{
    if calls.len() > 0 {
        let before = run(State::empty(), calls.drop_last());
        law_ids_count_proposals(calls.drop_last());
        law_sound_at_first();
        law_always_sound(State::empty(), calls.drop_last());
        if calls.last() is Initialize {
            assert(calls.last().accepted(before) ==> before == State::empty());
        }
    }
}

/// Once there are administrators, they and the token stay the same whatever
/// calls are made, and the contract cannot be initialized again.
pub proof fn law_initialized_once(
    s: State,
    calls: Seq<Call>,
    a: Address,
    b: Address,
    c: Address,
)
    requires
        s.admins is Some,
    ensures
        run(s, calls).admins == s.admins,
        run(s, calls).token == s.token,
        initialize_refusal(run(s, calls), a, b, c) == Some(ContractError::AlreadyInitialized),
    decreases calls.len(),
{
    if calls.len() > 0 {
        law_initialized_once(s, calls.drop_last(), a, b, c);
    }
}

/// A proposal keeps its identifier, proposer, recipient, amount and
/// description, and its approvals, whatever calls are made.
pub proof fn law_proposal_kept(s: State, calls: Seq<Call>, id: u32)
    requires
        sound(s),
        s.proposals.contains_key(id),
    ensures
        run(s, calls).proposals.contains_key(id),
        ({
            let before = s.proposals[id];
            let after = run(s, calls).proposals[id];
            &&& after.id == before.id
            &&& after.proposer == before.proposer
            &&& after.recipient == before.recipient
            &&& after.amount == before.amount
            &&& after.description == before.description
            &&& before.approvals.is_prefix_of(after.approvals)
        }),
    decreases calls.len(),
{
    if calls.len() > 0 {
        let mid = run(s, calls.drop_last());
        law_proposal_kept(s, calls.drop_last(), id);
        law_always_sound(s, calls.drop_last());
        let p = mid.proposals[id];
        let q = calls.last().after(mid).proposals[id];
        assert(p.approvals.is_prefix_of(q.approvals));
        assert forall|i: int| 0 <= i < s.proposals[id].approvals.len() implies
            s.proposals[id].approvals[i] == q.approvals[i] by {
            assert(s.proposals[id].approvals[i] == p.approvals[i]);
        }
        assert(s.proposals[id].approvals =~= q.approvals.subrange(
            0,
            s.proposals[id].approvals.len() as int,
        ));
    }
}

/// An executed or cancelled proposal stays as it is whatever calls are made.
pub proof fn law_settled_for_good(s: State, calls: Seq<Call>, id: u32)
    requires
        sound(s),
        s.proposals.contains_key(id),
        s.proposals[id].status != ProposalStatus::Pending,
    ensures
        run(s, calls).proposals.contains_key(id),
        run(s, calls).proposals[id] == s.proposals[id],
    decreases calls.len(),
{
    if calls.len() > 0 {
        law_settled_for_good(s, calls.drop_last(), id);
        law_always_sound(s, calls.drop_last());
    }
}

/// An administrator approves a proposal at most once: whatever calls are made
/// after the approval, another one by the same administrator is refused. So
/// is a proposer's, whose approval counts from the start.
pub proof fn law_no_second_vote(s: State, calls: Seq<Call>, id: u32, approver: Address)
    requires
        sound(s),
        s.proposals.contains_key(id),
        s.proposals[id].approvals.contains(approver),
    ensures
        ({
            let t = run(s, calls);
            approve_refusal(t, approver, id) == Some(
                if t.proposals[id].status == ProposalStatus::Pending {
                    ContractError::AlreadyApproved
                } else {
                    ContractError::ProposalNotPending
                },
            )
        }),
{
    let t = run(s, calls);
    law_proposal_kept(s, calls, id);
    law_always_sound(s, calls);
    let k = choose|k: int|
        0 <= k < s.proposals[id].approvals.len() && s.proposals[id].approvals[k] == approver;
    assert(t.proposals[id].approvals[k] == approver);
    assert(sound_proposal(t, id));
    assert(t.admins->0.contains(t.proposals[id].approvals[k]));
}

/// Behind every executed proposal stand two different administrators: the
/// proposer and another one.
pub proof fn law_two_admins_behind_payment(s: State, id: u32)
    requires
        sound(s),
        s.proposals.contains_key(id),
        s.proposals[id].status == ProposalStatus::Executed,
    ensures
        ({
            let p = s.proposals[id];
            &&& p.approvals.len() == 2
            &&& p.approvals[0] == p.proposer
            &&& p.approvals[0] != p.approvals[1]
            &&& s.admins->0.contains(p.approvals[0])
            &&& s.admins->0.contains(p.approvals[1])
        }),
{
    assert(sound_proposal(s, id));
}

/// A proposal is paid at most once: whatever calls are made after it was
/// executed, no approval of it asks for a transfer again.
pub proof fn law_paid_once(
    contract: Address,
    s: State,
    calls: Seq<Call>,
    id: u32,
    approver: Address,
    k: int,
)
    requires
        sound(s),
        s.proposals.contains_key(id),
        s.proposals[id].status == ProposalStatus::Executed,
        0 <= k < approve_requests(contract, run(s, calls), approver, id).len(),
    ensures
        approve_refusal(run(s, calls), approver, id) is Some,
        approve_requests(contract, run(s, calls), approver, id)[k] !is Transfer,
{
    law_settled_for_good(s, calls, id);
}

} // verus!
