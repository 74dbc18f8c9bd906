use vstd::prelude::*;

use crate::address::Address;
use crate::storage::{Entry, EntryView, State, Storage};

verus! {

/// What the contract announces.
///
/// An event has two topics, its name and the address that it is about; the
/// remaining fields are its data, in the order in which they stand here.
#[derive(Debug, PartialEq, Eq)]
pub enum Event {
    Donate { donor: Address, amount: u128, new_total: u128 },
    ProposalCreated {
        proposer: Address,
        proposal_id: u32,
        recipient: Address,
        amount: u128,
        description: Vec<u8>,
    },
    ProposalApproved { approver: Address, proposal_id: u32, approval_count: u32 },
    ProposalExecuted { recipient: Address, proposal_id: u32, amount: u128, remaining: u128 },
    ProposalCancelled { caller: Address, proposal_id: u32 },
}

/// An [`Event`] as a mathematical value.
pub enum EventView {
    Donate { donor: Address, amount: u128, new_total: u128 },
    ProposalCreated {
        proposer: Address,
        proposal_id: u32,
        recipient: Address,
        amount: u128,
        description: Seq<u8>,
    },
    ProposalApproved { approver: Address, proposal_id: u32, approval_count: u32 },
    ProposalExecuted { recipient: Address, proposal_id: u32, amount: u128, remaining: u128 },
    ProposalCancelled { caller: Address, proposal_id: u32 },
}

impl EventView {
    /// The event's first topic, its name.
    pub open spec fn name(self) -> Seq<char> {
        match self {
            EventView::Donate { .. } => "donate"@,
            EventView::ProposalCreated { .. } => "proposal_created"@,
            EventView::ProposalApproved { .. } => "proposal_approved"@,
            EventView::ProposalExecuted { .. } => "proposal_executed"@,
            EventView::ProposalCancelled { .. } => "proposal_cancelled"@,
        }
    }

    /// The event's second topic, the address that it is about.
    pub open spec fn subject(self) -> Address {
        match self {
            EventView::Donate { donor, .. } => donor,
            EventView::ProposalCreated { proposer, .. } => proposer,
            EventView::ProposalApproved { approver, .. } => approver,
            EventView::ProposalExecuted { recipient, .. } => recipient,
            EventView::ProposalCancelled { caller, .. } => caller,
        }
    }
}

impl View for Event {
    type V = EventView;

    open spec fn view(&self) -> EventView {
        match *self {
            Event::Donate { donor, amount, new_total } => EventView::Donate {
                donor,
                amount,
                new_total,
            },
            Event::ProposalCreated { proposer, proposal_id, recipient, amount, description } =>
            EventView::ProposalCreated {
                proposer,
                proposal_id,
                recipient,
                amount,
                description: description@,
            },
            Event::ProposalApproved { approver, proposal_id, approval_count } =>
            EventView::ProposalApproved { approver, proposal_id, approval_count },
            Event::ProposalExecuted { recipient, proposal_id, amount, remaining } =>
            EventView::ProposalExecuted { recipient, proposal_id, amount, remaining },
            Event::ProposalCancelled { caller, proposal_id } => EventView::ProposalCancelled {
                caller,
                proposal_id,
            },
        }
    }
}

impl Event {
    /// The event's first topic, its name.
    pub fn name(&self) -> (name: &'static str)
        ensures
            name@ == self@.name(),
    {
        match self {
            Event::Donate { .. } => "donate",
            Event::ProposalCreated { .. } => "proposal_created",
            Event::ProposalApproved { .. } => "proposal_approved",
            Event::ProposalExecuted { .. } => "proposal_executed",
            Event::ProposalCancelled { .. } => "proposal_cancelled",
        }
    }

    /// The event's second topic, the address that it is about.
    pub fn subject(&self) -> (subject: Address)
        ensures
            subject == self@.subject(),
    {
        match self {
            Event::Donate { donor, .. } => *donor,
            Event::ProposalCreated { proposer, .. } => *proposer,
            Event::ProposalApproved { approver, .. } => *approver,
            Event::ProposalExecuted { recipient, .. } => *recipient,
            Event::ProposalCancelled { caller, .. } => *caller,
        }
    }
}

/// What the contract asks of the host that runs it.
///
/// The host carries the requests out in order. One that it cannot carry out
/// fails the call as a whole, and so does a call that the contract refuses:
/// then nothing that was asked has an effect.
#[derive(Debug, PartialEq, Eq)]
pub enum Request {
    /// Make sure that the address authorized the call.
    Authorize(Address),
    /// Put the entry into the contract's storage.
    Store(Entry),
    /// Have the contract `token` move `amount` tokens.
    Transfer { token: Address, from: Address, to: Address, amount: i128 },
    /// Publish the event.
    Publish(Event),
}

/// A [`Request`] as a mathematical value.
pub enum RequestView {
    Authorize(Address),
    Store(EntryView),
    Transfer { token: Address, from: Address, to: Address, amount: i128 },
    Publish(EventView),
}

impl View for Request {
    type V = RequestView;

    open spec fn view(&self) -> RequestView {
        match *self {
            Request::Authorize(address) => RequestView::Authorize(address),
            Request::Store(entry) => RequestView::Store(entry@),
            Request::Transfer { token, from, to, amount } => RequestView::Transfer {
                token,
                from,
                to,
                amount,
            },
            Request::Publish(event) => RequestView::Publish(event@),
        }
    }
}

/// What the contract sees of the host, as a mathematical value.
#[verifier::ext_equal]
pub struct EnvView {
    /// The contract's own address.
    pub contract: Address,
    /// What the contract's storage holds.
    pub state: State,
    /// What the contract has asked of the host so far, in order.
    pub requests: Seq<RequestView>,
}

impl EnvView {
    /// After one more request.
    pub open spec fn ask(self, request: RequestView) -> EnvView {
        EnvView { requests: self.requests.push(request), ..self }
    }

    /// After `entry` was put into the storage.
    pub open spec fn store(self, entry: EntryView) -> EnvView {
        EnvView { state: self.state.put(entry), ..self }.ask(RequestView::Store(entry))
    }
}

/// What the contract sees of the host that runs it: its own address, its
/// storage, and what it has asked of the host so far.
#[derive(Debug)]
pub struct Env {
    contract: Address,
    storage: Storage,
    requests: Vec<Request>,
}

impl View for Env {
    type V = EnvView;

    closed spec fn view(&self) -> EnvView {
        EnvView {
            contract: self.contract,
            state: self.storage@,
            requests: self.requests@.map_values(|request: Request| request@),
        }
    }
}

impl Env {
    /// The storage is well-formed.
    pub closed spec fn wf(&self) -> bool {
        self.storage.wf()
    }

    /// The view of a contract at the address `contract` with that storage,
    /// which has asked nothing yet.
    pub fn new(contract: Address, storage: Storage) -> (env: Self)
        requires
            storage.wf(),
        ensures
            env.wf(),
            env@ == (EnvView { contract, state: storage@, requests: Seq::empty() }),
    {
        let env = Env { contract, storage, requests: Vec::new() };
        assert(env@.requests =~= Seq::empty());
        env
    }

    /// The contract's own address.
    pub fn current_contract_address(&self) -> (contract: Address)
        ensures
            contract == self@.contract,
    {
        self.contract
    }

    /// The contract's storage.
    pub fn storage(&self) -> (storage: &Storage)
        requires
            self.wf(),
        ensures
            storage.wf(),
            storage@ == self@.state,
    {
        &self.storage
    }

    /// What the contract has asked of the host, in order.
    pub fn into_requests(self) -> (requests: Vec<Request>)
        ensures
            requests@.map_values(|request: Request| request@) == self@.requests,
    {
        self.requests
    }

    /// Asks one more thing of the host.
    pub(crate) fn ask(&mut self, request: Request)
        requires
            old(self).wf(),
        ensures
            final(self).wf(),
            final(self)@ == old(self)@.ask(request@),
    {
        self.requests.push(request);
        assert(self@.requests =~= old(self)@.requests.push(request@));
    }

    /// Puts `entry` into the storage, and asks the host to do so.
    pub(crate) fn store(&mut self, entry: Entry)
        requires
            old(self).wf(),
        ensures
            final(self).wf(),
            final(self)@ == old(self)@.store(entry@),
    {
        self.storage.put(entry.clone());
        self.ask(Request::Store(entry));
    }

    /// Gives the storage back as it was in `saved`.
    pub(crate) fn restore(&mut self, saved: Storage)
        requires
            saved.wf(),
        ensures
            final(self).wf(),
            final(self)@ == (EnvView { state: saved@, ..old(self)@ }),
    {
        self.storage = saved;
    }
}

} // verus!
