//! What the contract asks of the host over any calls at all: which transfers,
//! and on whose authority.
use vstd::prelude::*;

use crate::address::Address;
use crate::history::{
    law_always_sound, law_initialized_once, law_proposal_kept, law_settled_for_good,
    law_sound_at_first, law_sound_ever_after, law_two_admins_behind_payment, lemma_vote_decides,
    run, sound, sound_proposal,
};
use crate::host::RequestView;
use crate::laws::{
    law_authorized_first, law_donation_is_collected, law_marked_before_paid, law_payment_is_made,
    law_token_amount,
};
use crate::proposal::{ProposalStatus, ProposalView};
use crate::rules::{decides, token_amount, Call};
use crate::storage::State;

verus! {

/// What the storage holds when call `i` is made, if it was empty at first.
pub open spec fn before(calls: Seq<Call>, i: int) -> State {
    run(State::empty(), calls.take(i))
}

/// The calls can be made in two goes.
proof fn lemma_run_split(s: State, calls: Seq<Call>, i: int)
    requires
        0 <= i <= calls.len(),
    ensures
        run(s, calls) == run(run(s, calls.take(i)), calls.skip(i)),
    decreases calls.len(),
{
    if i == calls.len() {
        assert(calls.take(i) =~= calls);
        assert(calls.skip(i) =~= seq![]);
    } else {
        lemma_run_split(s, calls.drop_last(), i);
        assert(calls.drop_last().take(i) =~= calls.take(i));
        assert(calls.drop_last().skip(i) =~= calls.skip(i).drop_last());
    }
}

/// After call `i`, the rest of the calls leads on.
proof fn lemma_run_from(calls: Seq<Call>, i: int)
    requires
        0 <= i < calls.len(),
    ensures
        sound(before(calls, i)),
        sound(calls[i].after(before(calls, i))),
        run(State::empty(), calls) == run(calls[i].after(before(calls, i)), calls.skip(i + 1)),
{
    law_sound_at_first();
    law_always_sound(State::empty(), calls.take(i));
    law_sound_ever_after(before(calls, i), calls[i]);
    lemma_run_split(State::empty(), calls, i + 1);
    assert(calls.take(i + 1).drop_last() =~= calls.take(i));
}

/// What call `i` finds does not depend on the calls after it.
proof fn lemma_before_prefix(calls: Seq<Call>, i: int)
    requires
        0 <= i < calls.len(),
    ensures
        i < calls.len() - 1 ==> before(calls.drop_last(), i) == before(calls, i),
        before(calls, calls.len() - 1) == run(State::empty(), calls.drop_last()),
{
    assert(calls.take(calls.len() - 1) =~= calls.drop_last());
    if i < calls.len() - 1 {
        assert(calls.drop_last().take(i) =~= calls.take(i));
    }
}

/// The sum of what `f` makes of the requests.
pub open spec fn tally(requests: Seq<RequestView>, f: spec_fn(RequestView) -> int) -> int
    decreases requests.len(),
{
    if requests.len() == 0 {
        0
    } else {
        tally(requests.drop_last(), f) + f(requests.last())
    }
}

proof fn lemma_tally_none(requests: Seq<RequestView>, f: spec_fn(RequestView) -> int)
    requires
        forall|k: int| 0 <= k < requests.len() ==> f(#[trigger] requests[k]) == 0,
    ensures
        tally(requests, f) == 0,
    decreases requests.len(),
{
    if requests.len() > 0 {
        assert forall|k: int| 0 <= k < requests.len() - 1 implies f(
            #[trigger] requests.drop_last()[k],
        ) == 0 by {
            assert(requests.drop_last()[k] == requests[k]);
        }
        lemma_tally_none(requests.drop_last(), f);
    }
}

proof fn lemma_tally_one(requests: Seq<RequestView>, f: spec_fn(RequestView) -> int, m: int)
    requires
        0 <= m < requests.len(),
        forall|k: int| 0 <= k < requests.len() && k != m ==> f(#[trigger] requests[k]) == 0,
    ensures
        tally(requests, f) == f(requests[m]),
    decreases requests.len(),
{
    assert forall|k: int| 0 <= k < requests.len() - 1 && k != m implies f(
        #[trigger] requests.drop_last()[k],
    ) == 0 by {
        assert(requests.drop_last()[k] == requests[k]);
    }
    if m == requests.len() - 1 {
        lemma_tally_none(requests.drop_last(), f);
    } else {
        lemma_tally_one(requests.drop_last(), f, m);
        assert(f(requests[requests.len() - 1]) == 0);
    }
}

/// Counts a transfer as 1.
pub open spec fn one_per_transfer() -> spec_fn(RequestView) -> int {
    |request: RequestView|
        if request is Transfer {
            1
        } else {
            0
        }
}

/// What a request brings the account of `contract`: the tokens that a
/// transfer moves to it, less those that one moves from it.
pub open spec fn movement(contract: Address) -> spec_fn(RequestView) -> int {
    |request: RequestView|
        match request {
            RequestView::Transfer { from, to, amount, .. } => (if to == contract {
                amount as int
            } else {
                0
            }) - (if from == contract {
                amount as int
            } else {
                0
            }),
            _ => 0,
        }
}

/// Which transfer an accepted call asks for: a donation its second request,
/// a deciding approval its sixth, and any other call none.
pub open spec fn transfer_at(s: State, call: Call) -> Option<int> {
    match call {
        Call::Donate { .. } => Some(1),
        Call::ApproveProposal { approver, id } => if decides(s, approver, id) {
            Some(5)
        } else {
            None
        },
        _ => None,
    }
}

proof fn lemma_transfer_at(contract: Address, s: State, call: Call, f: spec_fn(RequestView) -> int)
    requires
        call.accepted(s),
        forall|r: RequestView| r !is Transfer ==> #[trigger] f(r) == 0,
    ensures
        ({
            let r = call.requests(contract, s);
            match transfer_at(s, call) {
                Some(m) => {
                    &&& 0 <= m < r.len()
                    &&& r[m] is Transfer
                    &&& tally(r, f) == f(r[m])
                    &&& forall|k: int| 0 <= k < r.len() && k != m ==> #[trigger] r[k] !is Transfer
                },
                None => {
                    &&& tally(r, f) == 0
                    &&& forall|k: int| 0 <= k < r.len() ==> #[trigger] r[k] !is Transfer
                },
            }
        }),
{
    let r = call.requests(contract, s);
    match call {
        Call::Donate { donor, amount } => {
            law_donation_is_collected(contract, s, donor, amount);
        },
        Call::ApproveProposal { approver, id } => {
            if decides(s, approver, id) {
                law_payment_is_made(contract, s, approver, id);
            }
        },
        _ => {},
    }
    match transfer_at(s, call) {
        Some(m) => {
            lemma_tally_one(r, f, m);
        },
        None => {
            lemma_tally_none(r, f);
        },
    }
}

/// How many transfers the call, made when the storage holds `s`, asks for to
/// pay for the proposal `id`.
pub open spec fn payments_by(contract: Address, s: State, call: Call, id: u32) -> int {
    if call.accepted(s) && call is ApproveProposal && call->ApproveProposal_id == id {
        tally(call.requests(contract, s), one_per_transfer())
    } else {
        0
    }
}

/// How many transfers the calls ask for to pay for the proposal `id`.
pub open spec fn payments(contract: Address, calls: Seq<Call>, id: u32) -> int
    decreases calls.len(),
{
    if calls.len() == 0 {
        0
    } else {
        payments(contract, calls.drop_last(), id) + payments_by(
            contract,
            run(State::empty(), calls.drop_last()),
            calls.last(),
            id,
        )
    }
}

/// Whatever calls are made, an executed proposal has been paid by one
/// transfer, and any other by none.
pub proof fn law_one_payment_if_executed(contract: Address, calls: Seq<Call>, id: u32)
    ensures
        ({
            let t = run(State::empty(), calls);
            payments(contract, calls, id) == if t.proposals.contains_key(id)
                && t.proposals[id].status == ProposalStatus::Executed {
                1int
            } else {
                0
            }
        }),
    decreases calls.len(),
{
    if calls.len() > 0 {
        let s = run(State::empty(), calls.drop_last());
        let call = calls.last();
        law_one_payment_if_executed(contract, calls.drop_last(), id);
        law_sound_at_first();
        law_always_sound(State::empty(), calls.drop_last());
        if call.accepted(s) {
            if call is ApproveProposal {
                lemma_vote_decides(
                    s,
                    call->ApproveProposal_approver,
                    call->ApproveProposal_id,
                );
                lemma_transfer_at(contract, s, call, one_per_transfer());
            }
        }
    }
}

/// Call `i` makes the proposal `p`: it is accepted, has the proposal's data
/// and identifier, and first of all asks for the proposer's authorization.
pub open spec fn creates(contract: Address, calls: Seq<Call>, i: int, p: ProposalView) -> bool {
    &&& 0 <= i < calls.len()
    &&& calls[i] == Call::CreateProposal {
        proposer: p.proposer,
        recipient: p.recipient,
        amount: p.amount,
        description: p.description,
    }
    &&& calls[i].accepted(before(calls, i))
    &&& before(calls, i).next_id() == p.id
    &&& calls[i].requests(contract, before(calls, i)).len() > 0
    &&& calls[i].requests(contract, before(calls, i))[0] == RequestView::Authorize(p.proposer)
}

/// Call `j` approves the proposal `id` on behalf of `approver`: it is
/// accepted, and first of all asks for the approver's authorization.
pub open spec fn approves(
    contract: Address,
    calls: Seq<Call>,
    j: int,
    id: u32,
    approver: Address,
) -> bool {
    &&& 0 <= j < calls.len()
    &&& calls[j] == Call::ApproveProposal { approver, id }
    &&& calls[j].accepted(before(calls, j))
    &&& calls[j].requests(contract, before(calls, j)).len() > 0
    &&& calls[j].requests(contract, before(calls, j))[0] == RequestView::Authorize(approver)
}

/// One of the calls approves the proposal `id` on behalf of `approver`.
pub open spec fn given_by_call(
    contract: Address,
    calls: Seq<Call>,
    id: u32,
    approver: Address,
) -> bool {
    exists|j: int| #[trigger] approves(contract, calls, j, id, approver)
}

/// Call `n` is the accepted one that made `admins` the administrators.
pub open spec fn initializes(calls: Seq<Call>, n: int, admins: Seq<Address>) -> bool {
    &&& 0 <= n < calls.len()
    &&& calls[n] is Initialize
    &&& calls[n].accepted(before(calls, n))
    &&& admins == seq![
        calls[n]->Initialize_a,
        calls[n]->Initialize_b,
        calls[n]->Initialize_c,
    ]
}

/// The administrators are the three addresses that an accepted `initialize`
/// was given.
pub proof fn law_admins_come_from_initialize(calls: Seq<Call>)
    requires
        run(State::empty(), calls).admins is Some,
    ensures
        exists|n: int| #[trigger]
            initializes(calls, n, run(State::empty(), calls).admins->0),
    decreases calls.len(),
{
    let t = run(State::empty(), calls);
    let last = calls.len() - 1;
    let s = run(State::empty(), calls.drop_last());
    lemma_before_prefix(calls, last);
    if s.admins is None {
        assert(calls.last() is Initialize && calls.last().accepted(s));
        assert(initializes(calls, last, t.admins->0));
    } else {
        law_admins_come_from_initialize(calls.drop_last());
        let n = choose|n: int| #[trigger] initializes(calls.drop_last(), n, s.admins->0);
        lemma_before_prefix(calls, n);
        law_initialized_once(
            s,
            seq![calls.last()],
            calls[n]->Initialize_a,
            calls[n]->Initialize_b,
            calls[n]->Initialize_c,
        );
        assert(t.admins == s.admins);
        assert(initializes(calls, n, t.admins->0));
    }
}

/// Every proposal was made by an accepted call of its proposer, with the
/// recipient, the amount and the description that it has, and every further
/// approval was given by an accepted call of the approver. Each of these
/// calls asked for that address's authorization.
pub proof fn law_votes_come_from_calls(contract: Address, calls: Seq<Call>, id: u32)
    requires
        run(State::empty(), calls).proposals.contains_key(id),
    ensures
        ({
            let p = run(State::empty(), calls).proposals[id];
            &&& exists|i: int| #[trigger] creates(contract, calls, i, p)
            &&& forall|v: int|
                1 <= v < p.approvals.len() ==> given_by_call(
                    contract,
                    calls,
                    id,
                    #[trigger] p.approvals[v],
                )
        }),
    decreases calls.len(),
{
    let t = run(State::empty(), calls);
    let p = t.proposals[id];
    let last = calls.len() - 1;
    let s = run(State::empty(), calls.drop_last());
    let call = calls.last();
    law_sound_at_first();
    law_always_sound(State::empty(), calls.drop_last());
    lemma_before_prefix(calls, last);
    if !s.proposals.contains_key(id) {
        law_authorized_first(contract, s, call);
        assert(creates(contract, calls, last, p));
        assert(p.approvals.len() == 1);
    } else {
        let q = s.proposals[id];
        law_votes_come_from_calls(contract, calls.drop_last(), id);
        let i = choose|i: int| #[trigger] creates(contract, calls.drop_last(), i, q);
        lemma_before_prefix(calls, i);
        law_proposal_kept(s, seq![call], id);
        assert(seq![call].drop_last() =~= seq![]);
        assert(run(s, seq![call].drop_last()) == s);
        assert(run(s, seq![call]) == t);
        assert(creates(contract, calls, i, p));
        assert forall|v: int| 1 <= v < p.approvals.len() implies given_by_call(
            contract,
            calls,
            id,
            #[trigger] p.approvals[v],
        ) by {
            if v < q.approvals.len() {
                assert(p.approvals[v] == q.approvals[v]);
                assert(given_by_call(contract, calls.drop_last(), id, q.approvals[v]));
                let j = choose|j: int| #[trigger]
                    approves(contract, calls.drop_last(), j, id, q.approvals[v]);
                lemma_before_prefix(calls, j);
                assert(approves(contract, calls, j, id, p.approvals[v]));
            } else {
                law_authorized_first(contract, s, call);
                assert(approves(contract, calls, last, id, p.approvals[v]));
            }
        }
    }
}

/// Nothing leaves the fund on one word: behind every executed proposal stand
/// two accepted calls, the one that made it and one that approved it, which
/// asked for the authorization of two different addresses, both among the
/// administrators that `initialize` was given.
pub proof fn law_two_authorized_admins_behind_payment(
    contract: Address,
    calls: Seq<Call>,
    id: u32,
)
    requires
        run(State::empty(), calls).proposals.contains_key(id),
        run(State::empty(), calls).proposals[id].status == ProposalStatus::Executed,
    ensures
        ({
            let t = run(State::empty(), calls);
            let p = t.proposals[id];
            &&& p.approvals == seq![p.proposer, p.approvals[1]]
            &&& p.proposer != p.approvals[1]
            &&& t.admins->0.contains(p.proposer)
            &&& t.admins->0.contains(p.approvals[1])
            &&& exists|n: int| #[trigger] initializes(calls, n, t.admins->0)
            &&& exists|i: int| #[trigger] creates(contract, calls, i, p)
            &&& given_by_call(contract, calls, id, p.approvals[1])
        }),
{
    let t = run(State::empty(), calls);
    law_sound_at_first();
    law_always_sound(State::empty(), calls);
    law_two_admins_behind_payment(t, id);
    law_admins_come_from_initialize(calls);
    law_votes_come_from_calls(contract, calls, id);
    assert(t.proposals[id].approvals =~= seq![
        t.proposals[id].proposer,
        t.proposals[id].approvals[1],
    ]);
}

/// Every transfer that an accepted call asks for is one of two: a donation,
/// from the donor to the contract, or the payment for a proposal that is
/// executed, from the contract to the recipient, of the amount with which the
/// proposal was made. All are of the one token.
pub proof fn law_every_transfer_has_a_reason(contract: Address, calls: Seq<Call>, i: int, k: int)
    requires
        0 <= i < calls.len(),
        calls[i].accepted(before(calls, i)),
        0 <= k < calls[i].requests(contract, before(calls, i)).len(),
        calls[i].requests(contract, before(calls, i))[k] is Transfer,
    ensures
        ({
            let t = run(State::empty(), calls);
            let r = calls[i].requests(contract, before(calls, i))[k];
            match calls[i] {
                Call::Donate { donor, amount } => r == RequestView::Transfer {
                    token: t.token->0,
                    from: donor,
                    to: contract,
                    amount: token_amount(amount),
                },
                Call::ApproveProposal { id, .. } => {
                    let p = t.proposals[id];
                    &&& t.proposals.contains_key(id)
                    &&& p.status == ProposalStatus::Executed
                    &&& exists|c: int| #[trigger] creates(contract, calls, c, p)
                    &&& r == RequestView::Transfer {
                        token: t.token->0,
                        from: contract,
                        to: p.recipient,
                        amount: token_amount(p.amount),
                    }
                },
                _ => false,
            }
        }),
{
    let s = before(calls, i);
    let call = calls[i];
    let u = call.after(s);
    lemma_run_from(calls, i);
    lemma_transfer_at(contract, s, call, one_per_transfer());
    assert(u.token == s.token);
    law_initialized_once(u, calls.skip(i + 1), contract, contract, contract);
    match call {
        Call::Donate { donor, amount } => {
            law_donation_is_collected(contract, s, donor, amount);
        },
        Call::ApproveProposal { approver, id } => {
            law_payment_is_made(contract, s, approver, id);
            law_marked_before_paid(contract, s, call, k);
            law_settled_for_good(u, calls.skip(i + 1), id);
            law_votes_come_from_calls(contract, calls, id);
        },
        _ => {},
    }
}

/// Call `j` is the accepted approval of `p` that asks for its payment: one
/// transfer, of its amount, from the contract to its recipient.
pub open spec fn pays(
    contract: Address,
    calls: Seq<Call>,
    j: int,
    p: ProposalView,
    token: Address,
) -> bool {
    &&& 0 <= j < calls.len()
    &&& calls[j] is ApproveProposal
    &&& calls[j]->ApproveProposal_id == p.id
    &&& calls[j].accepted(before(calls, j))
    &&& tally(calls[j].requests(contract, before(calls, j)), one_per_transfer()) == 1
    &&& calls[j].requests(contract, before(calls, j)).contains(
        RequestView::Transfer {
            token,
            from: contract,
            to: p.recipient,
            amount: token_amount(p.amount),
        },
    )
}

/// An executed proposal was paid as it was made: one of the calls asked for
/// the transfer of its amount to its recipient.
pub proof fn law_executed_was_paid_as_made(contract: Address, calls: Seq<Call>, id: u32)
    requires
        run(State::empty(), calls).proposals.contains_key(id),
        run(State::empty(), calls).proposals[id].status == ProposalStatus::Executed,
    ensures
        ({
            let t = run(State::empty(), calls);
            let p = t.proposals[id];
            &&& p.id == id
            &&& exists|i: int| #[trigger] creates(contract, calls, i, p)
            &&& exists|j: int| #[trigger] pays(contract, calls, j, p, t.token->0)
        }),
{
    let t = run(State::empty(), calls);
    let p = t.proposals[id];
    law_two_authorized_admins_behind_payment(contract, calls, id);
    let approver = p.approvals[1];
    let j = choose|j: int| #[trigger] approves(contract, calls, j, id, approver);
    let s = before(calls, j);
    let r = calls[j].requests(contract, s);
    law_sound_at_first();
    law_always_sound(State::empty(), calls);
    assert(sound_proposal(t, id));
    lemma_run_from(calls, j);
    lemma_vote_decides(s, approver, id);
    lemma_transfer_at(contract, s, calls[j], one_per_transfer());
    law_every_transfer_has_a_reason(contract, calls, j, 5);
    assert(r.contains(r[5]));
    assert(pays(contract, calls, j, p, t.token->0));
}

/// What the call, made when the storage holds `s`, brings the account of
/// `contract`. A refused call has no effect.
pub open spec fn inflow(contract: Address, s: State, call: Call) -> int {
    if call.accepted(s) {
        tally(call.requests(contract, s), movement(contract))
    } else {
        0
    }
}

/// What the calls bring the account of `contract`: the transfers that they
/// ask for into it, less those out of it.
pub open spec fn inflows(contract: Address, calls: Seq<Call>) -> int
    decreases calls.len(),
{
    if calls.len() == 0 {
        0
    } else {
        inflows(contract, calls.drop_last()) + inflow(
            contract,
            run(State::empty(), calls.drop_last()),
            calls.last(),
        )
    }
}

/// Call `i` leaves the token's contract nothing to refuse on principle: it
/// asks for no transfer of a negative amount. And the contract does not donate
/// to itself.
pub open spec fn regular(contract: Address, calls: Seq<Call>, i: int) -> bool {
    calls[i].accepted(before(calls, i)) ==> {
        &&& calls[i] is Donate ==> calls[i]->Donate_donor != contract
        &&& forall|k: int|
            0 <= k < calls[i].requests(contract, before(calls, i)).len()
                && #[trigger] calls[i].requests(contract, before(calls, i))[k] is Transfer
                ==> calls[i].requests(contract, before(calls, i))[k]->Transfer_amount >= 0
    }
}

/// Regular calls are regular without the last one, too.
proof fn lemma_regular_prefix(contract: Address, calls: Seq<Call>)
    requires
        calls.len() > 0,
        forall|i: int| 0 <= i < calls.len() ==> #[trigger] regular(contract, calls, i),
    ensures
        forall|i: int|
            0 <= i < calls.len() - 1 ==> #[trigger] regular(contract, calls.drop_last(), i),
{
    assert forall|i: int| 0 <= i < calls.len() - 1 implies #[trigger] regular(
        contract,
        calls.drop_last(),
        i,
    ) by {
        lemma_before_prefix(calls, i);
        assert(regular(contract, calls, i));
    }
}

proof fn lemma_inflow_covers_change(contract: Address, calls: Seq<Call>, i: int)
    requires
        0 <= i < calls.len(),
        regular(contract, calls, i),
    ensures
        calls[i].after(before(calls, i)).total() - before(calls, i).total() <= inflow(
            contract,
            before(calls, i),
            calls[i],
        ),
{
    let s = before(calls, i);
    let call = calls[i];
    lemma_run_from(calls, i);
    if call.accepted(s) {
        let r = call.requests(contract, s);
        lemma_transfer_at(contract, s, call, movement(contract));
        match call {
            Call::Donate { donor, amount } => {
                law_donation_is_collected(contract, s, donor, amount);
                law_token_amount(amount);
                assert(r[1] is Transfer);
            },
            Call::ApproveProposal { approver, id } => {
                lemma_vote_decides(s, approver, id);
                law_payment_is_made(contract, s, approver, id);
                law_token_amount(s.proposals[id].amount);
                assert(r[5] is Transfer);
            },
            _ => {},
        }
    }
}

/// The fund is solvent: the transfers that the calls ask for into the
/// contract's account, less those out of it, are at least what the fund says
/// it holds. Left out are donations of the contract to itself, and transfers
/// of a negative amount, which a token's contract does not carry out.
pub proof fn law_transfers_cover_the_total(contract: Address, calls: Seq<Call>)
    requires
        forall|i: int| 0 <= i < calls.len() ==> #[trigger] regular(contract, calls, i),
    ensures
        inflows(contract, calls) >= run(State::empty(), calls).total(),
    decreases calls.len(),
{
    if calls.len() > 0 {
        let last = calls.len() - 1;
        lemma_regular_prefix(contract, calls);
        law_transfers_cover_the_total(contract, calls.drop_last());
        lemma_before_prefix(calls, last);
        assert(regular(contract, calls, last));
        lemma_inflow_covers_change(contract, calls, last);
    }
}

/// The tokens are really there: an account of the contract that starts with
/// nothing or more, and to which each call adds at least what it asks for,
/// always holds at least what the fund says. `balances[i]` is what the account
/// holds when call `i` is made.
pub proof fn law_balance_covers_the_total(
    contract: Address,
    calls: Seq<Call>,
    balances: Seq<int>,
)
    requires
        forall|i: int| 0 <= i < calls.len() ==> #[trigger] regular(contract, calls, i),
        balances.len() == calls.len() + 1,
        balances[0] >= 0,
        forall|i: int|
            0 <= i < calls.len() ==> #[trigger] balances[i + 1] >= balances[i] + inflow(
                contract,
                before(calls, i),
                calls[i],
            ),
    ensures
        balances.last() >= run(State::empty(), calls).total(),
    decreases calls.len(),
{
    if calls.len() > 0 {
        let last = calls.len() - 1;
        lemma_regular_prefix(contract, calls);
        assert forall|i: int| 0 <= i < calls.len() - 1 implies #[trigger] balances.drop_last()[i
            + 1] >= balances.drop_last()[i] + inflow(
            contract,
            before(calls.drop_last(), i),
            calls.drop_last()[i],
        ) by {
            lemma_before_prefix(calls, i);
            assert(balances[i + 1] >= balances[i] + inflow(contract, before(calls, i), calls[i]));
        }
        law_balance_covers_the_total(contract, calls.drop_last(), balances.drop_last());
        lemma_before_prefix(calls, last);
        assert(regular(contract, calls, last));
        lemma_inflow_covers_change(contract, calls, last);
        assert(balances[last + 1] >= balances[last] + inflow(
            contract,
            before(calls, last),
            calls[last],
        ));
    }
}

} // verus!
