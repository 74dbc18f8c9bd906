//! What the mathematical values say of the values that the program holds: a
//! view keeps every field, and the model of the storage gives back what is put
//! into it.
use vstd::prelude::*;
use vstd::std_specs::cmp::PartialEqSpec;

use crate::address::Address;
use crate::host::{Event, EventView, Request, RequestView};
use crate::proposal::Proposal;
use crate::storage::{Durability, Entry, EntryView, State, StorageKey};

verus! {

/// Two addresses count as the same exactly when their strkeys are the same,
/// byte for byte.
pub proof fn law_same_strkey_same_address(a: Address, b: Address)
    ensures
        a.eq_spec(&b) <==> a.strkey@ == b.strkey@,
        a == b <==> a.strkey@ == b.strkey@,
{
    if a.strkey@ == b.strkey@ {
        assert(a.strkey =~= b.strkey);
    }
}

/// The view of a proposal has each of its fields.
pub proof fn law_proposal_is_seen(p: Proposal)
    ensures
        p@.id == p.id,
        p@.proposer == p.proposer,
        p@.recipient == p.recipient,
        p@.amount == p.amount,
        p@.description == p.description@,
        p@.approvals == p.approvals@,
        p@.status == p.status,
{
}

/// The view of an entry has its key and its value.
pub proof fn law_entry_is_seen(entry: Entry)
    ensures
        match entry {
            Entry::Admins(admins) => entry@ == EntryView::Admins(admins@),
            Entry::Token(token) => entry@ == EntryView::Token(token),
            Entry::TotalFunds(total) => entry@ == EntryView::TotalFunds(total),
            Entry::NextProposalId(id) => entry@ == EntryView::NextProposalId(id),
            Entry::Proposal(id, proposal) => entry@ == EntryView::Proposal(id, proposal@),
            Entry::DonorBalance(donor, balance) => entry@ == EntryView::DonorBalance(
                donor,
                balance,
            ),
        },
{
}

/// The view of an event has each of its fields.
pub proof fn law_event_is_seen(event: Event)
    ensures
        match event {
            Event::Donate { donor, amount, new_total } => {
                &&& event@ is Donate
                &&& event@->donor == donor
                &&& event@->Donate_amount == amount
                &&& event@->new_total == new_total
            },
            Event::ProposalCreated { proposer, proposal_id, recipient, amount, description } => {
                &&& event@ is ProposalCreated
                &&& event@->proposer == proposer
                &&& event@->ProposalCreated_proposal_id == proposal_id
                &&& event@->ProposalCreated_recipient == recipient
                &&& event@->ProposalCreated_amount == amount
                &&& event@->description == description@
            },
            Event::ProposalApproved { approver, proposal_id, approval_count } => {
                &&& event@ is ProposalApproved
                &&& event@->approver == approver
                &&& event@->ProposalApproved_proposal_id == proposal_id
                &&& event@->approval_count == approval_count
            },
            Event::ProposalExecuted { recipient, proposal_id, amount, remaining } => {
                &&& event@ is ProposalExecuted
                &&& event@->ProposalExecuted_recipient == recipient
                &&& event@->ProposalExecuted_proposal_id == proposal_id
                &&& event@->ProposalExecuted_amount == amount
                &&& event@->remaining == remaining
            },
            Event::ProposalCancelled { caller, proposal_id } => {
                &&& event@ is ProposalCancelled
                &&& event@->caller == caller
                &&& event@->ProposalCancelled_proposal_id == proposal_id
            },
        },
{
}

/// The view of a request has each of its fields.
pub proof fn law_request_is_seen(request: Request)
    ensures
        match request {
            Request::Authorize(address) => request@ == RequestView::Authorize(address),
            Request::Store(entry) => request@ == RequestView::Store(entry@),
            Request::Transfer { token, from, to, amount } => {
                &&& request@ is Transfer
                &&& request@->token == token
                &&& request@->from == from
                &&& request@->to == to
                &&& request@->amount == amount
            },
            Request::Publish(event) => request@ == RequestView::Publish(event@),
        },
{
}

/// An event's topics tell what happened, and about whom.
pub proof fn law_topics(event: EventView)
    ensures
        event is Donate ==> event.name() == "donate"@ && event.subject() == event->donor,
        event is ProposalCreated ==> event.name() == "proposal_created"@ && event.subject()
            == event->proposer,
        event is ProposalApproved ==> event.name() == "proposal_approved"@ && event.subject()
            == event->approver,
        event is ProposalExecuted ==> event.name() == "proposal_executed"@ && event.subject()
            == event->ProposalExecuted_recipient,
        event is ProposalCancelled ==> event.name() == "proposal_cancelled"@ && event.subject()
            == event->caller,
{
}

/// Proposals and donors' balances are ledger entries of their own; the four
/// single entries are kept with the contract's instance.
pub proof fn law_where_entries_are_kept(key: StorageKey)
    ensures
        key.kept() == Durability::Persistent <==> key is Proposal || key is DonorBalance,
        key.kept() == Durability::Instance <==> key is Admins || key is Token || key is TotalFunds
            || key is NextProposalId,
{
}

/// An empty storage has nothing under any key.
pub proof fn law_empty_holds_nothing(key: StorageKey, id: u32, donor: Address)
    ensures
        State::empty().lookup(key) is None,
        State::empty().admins is None,
        State::empty().token is None,
        State::empty().total_funds is None,
        State::empty().next_proposal_id is None,
        !State::empty().proposals.contains_key(id),
        !State::empty().donor_balances.contains_key(donor),
{
}

/// Each entry is found under its own key.
pub proof fn law_entries_are_found(s: State, id: u32, donor: Address)
    ensures
        s.lookup(StorageKey::Admins) is Some <==> s.admins is Some,
        s.admins is Some ==> s.lookup(StorageKey::Admins) == Some(EntryView::Admins(s.admins->0)),
        s.lookup(StorageKey::Token) is Some <==> s.token is Some,
        s.token is Some ==> s.lookup(StorageKey::Token) == Some(EntryView::Token(s.token->0)),
        s.lookup(StorageKey::TotalFunds) is Some <==> s.total_funds is Some,
        s.total_funds is Some ==> s.lookup(StorageKey::TotalFunds) == Some(
            EntryView::TotalFunds(s.total_funds->0),
        ),
        s.lookup(StorageKey::NextProposalId) is Some <==> s.next_proposal_id is Some,
        s.next_proposal_id is Some ==> s.lookup(StorageKey::NextProposalId) == Some(
            EntryView::NextProposalId(s.next_proposal_id->0),
        ),
        s.lookup(StorageKey::Proposal(id)) is Some <==> s.proposals.contains_key(id),
        s.proposals.contains_key(id) ==> s.lookup(StorageKey::Proposal(id)) == Some(
            EntryView::Proposal(id, s.proposals[id]),
        ),
        s.lookup(StorageKey::DonorBalance(donor)) is Some <==> s.donor_balances.contains_key(donor),
        s.donor_balances.contains_key(donor) ==> s.lookup(StorageKey::DonorBalance(donor)) == Some(
            EntryView::DonorBalance(donor, s.donor_balances[donor]),
        ),
{
}

/// An entry that is put into the storage is found under its key, and every
/// other key has what it had.
pub proof fn law_put_is_found(s: State, entry: EntryView, key: StorageKey)
    ensures
        s.put(entry).lookup(entry.key()) == Some(entry),
        key != entry.key() ==> s.put(entry).lookup(key) == s.lookup(key),
{
}

/// Storages with the same entries are the same.
pub proof fn law_entries_are_all(s: State, t: State)
    requires
        forall|key: StorageKey| #[trigger] s.lookup(key) == t.lookup(key),
    ensures
        s == t,
{
    assert(s.lookup(StorageKey::Admins) == t.lookup(StorageKey::Admins));
    assert(s.lookup(StorageKey::Token) == t.lookup(StorageKey::Token));
    assert(s.lookup(StorageKey::TotalFunds) == t.lookup(StorageKey::TotalFunds));
    assert(s.lookup(StorageKey::NextProposalId) == t.lookup(StorageKey::NextProposalId));
    assert forall|id: u32| #[trigger] s.proposals.contains_key(id) == t.proposals.contains_key(id)
        && (s.proposals.contains_key(id) ==> s.proposals[id] == t.proposals[id]) by {
        let key = StorageKey::Proposal(id);
        assert(s.lookup(key) == t.lookup(key));
    }
    assert forall|d: Address| #[trigger]
        s.donor_balances.contains_key(d) == t.donor_balances.contains_key(d) && (
        s.donor_balances.contains_key(d) ==> s.donor_balances[d] == t.donor_balances[d]) by {
        let key = StorageKey::DonorBalance(d);
        assert(s.lookup(key) == t.lookup(key));
    }
    assert(s.proposals =~= t.proposals);
    assert(s.donor_balances =~= t.donor_balances);
}

} // verus!
