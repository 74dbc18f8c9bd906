use vstd::prelude::*;

use crate::address::Address;
use crate::proposal::{copy_addresses, Proposal, ProposalView};
use crate::table::Table;

verus! {

/// Where the ledger keeps an entry.
#[derive(Clone, Copy, Debug, PartialEq, Eq, Structural)]
pub enum Durability {
    /// With the contract's instance.
    Instance,
    /// As a ledger entry of its own.
    Persistent,
}

/// The keys of the contract's storage.
///
/// | Key                  | Durability | Value           |
/// |----------------------|------------|-----------------|
/// | `Admins`             | Instance   | `Vec<Address>`  |
/// | `Token`              | Instance   | `Address`       |
/// | `TotalFunds`         | Instance   | `u128`          |
/// | `NextProposalId`     | Instance   | `u32`           |
/// | `Proposal(id)`       | Persistent | `Proposal`      |
/// | `DonorBalance(addr)` | Persistent | `u128`          |
#[derive(Clone, Copy, Debug, PartialEq, Eq)]
pub enum StorageKey {
    /// The administrators.
    Admins,
    /// The contract of the token that the fund takes and pays.
    Token,
    /// How many tokens the fund holds.
    TotalFunds,
    /// The identifier of the next proposal.
    NextProposalId,
    /// The proposal with that identifier.
    Proposal(u32),
    /// What that donor has given in all.
    DonorBalance(Address),
}

impl StorageKey {
    /// Where the entry under this key is kept.
    pub open spec fn kept(self) -> Durability {
        match self {
            StorageKey::Proposal(_) | StorageKey::DonorBalance(_) => Durability::Persistent,
            _ => Durability::Instance,
        }
    }

    /// Where the entry under this key is kept.
    pub fn durability(self) -> (durability: Durability)
        ensures
            durability == self.kept(),
    {
        match self {
            StorageKey::Admins => Durability::Instance,
            StorageKey::Token => Durability::Instance,
            StorageKey::TotalFunds => Durability::Instance,
            StorageKey::NextProposalId => Durability::Instance,
            StorageKey::Proposal(_) => Durability::Persistent,
            StorageKey::DonorBalance(_) => Durability::Persistent,
        }
    }
}

/// A key of the storage together with the value under it.
#[derive(Debug, PartialEq, Eq)]
pub enum Entry {
    Admins(Vec<Address>),
    Token(Address),
    TotalFunds(u128),
    NextProposalId(u32),
    Proposal(u32, Proposal),
    DonorBalance(Address, u128),
}

/// An [`Entry`] as a mathematical value.
pub enum EntryView {
    Admins(Seq<Address>),
    Token(Address),
    TotalFunds(u128),
    NextProposalId(u32),
    Proposal(u32, ProposalView),
    DonorBalance(Address, u128),
}

impl EntryView {
    /// The key of the entry.
    pub open spec fn key(self) -> StorageKey {
        match self {
            EntryView::Admins(_) => StorageKey::Admins,
            EntryView::Token(_) => StorageKey::Token,
            EntryView::TotalFunds(_) => StorageKey::TotalFunds,
            EntryView::NextProposalId(_) => StorageKey::NextProposalId,
            EntryView::Proposal(id, _) => StorageKey::Proposal(id),
            EntryView::DonorBalance(donor, _) => StorageKey::DonorBalance(donor),
        }
    }
}

impl View for Entry {
    type V = EntryView;

    open spec fn view(&self) -> EntryView {
        match self {
            Entry::Admins(admins) => EntryView::Admins(admins@),
            Entry::Token(token) => EntryView::Token(*token),
            Entry::TotalFunds(total) => EntryView::TotalFunds(*total),
            Entry::NextProposalId(id) => EntryView::NextProposalId(*id),
            Entry::Proposal(id, proposal) => EntryView::Proposal(*id, proposal@),
            Entry::DonorBalance(donor, balance) => EntryView::DonorBalance(*donor, *balance),
        }
    }
}

impl Entry {
    /// The key of the entry.
    pub fn key(&self) -> (key: StorageKey)
        ensures
            key == self@.key(),
    {
        match self {
            Entry::Admins(_) => StorageKey::Admins,
            Entry::Token(_) => StorageKey::Token,
            Entry::TotalFunds(_) => StorageKey::TotalFunds,
            Entry::NextProposalId(_) => StorageKey::NextProposalId,
            Entry::Proposal(id, _) => StorageKey::Proposal(*id),
            Entry::DonorBalance(donor, _) => StorageKey::DonorBalance(*donor),
        }
    }
}

impl Clone for Entry {
    fn clone(&self) -> (copy: Self)
        ensures
            copy@ == self@,
    {
        match self {
            Entry::Admins(admins) => Entry::Admins(copy_addresses(admins)),
            Entry::Token(token) => Entry::Token(*token),
            Entry::TotalFunds(total) => Entry::TotalFunds(*total),
            Entry::NextProposalId(id) => Entry::NextProposalId(*id),
            Entry::Proposal(id, proposal) => Entry::Proposal(*id, proposal.clone()),
            Entry::DonorBalance(donor, balance) => Entry::DonorBalance(*donor, *balance),
        }
    }
}

/// What the storage holds, as a mathematical value.
#[verifier::ext_equal]
pub struct State {
    pub admins: Option<Seq<Address>>,
    pub token: Option<Address>,
    pub total_funds: Option<u128>,
    pub next_proposal_id: Option<u32>,
    pub proposals: Map<u32, ProposalView>,
    pub donor_balances: Map<Address, u128>,
}

impl State {
    /// A storage that holds nothing.
    pub open spec fn empty() -> State {
        State {
            admins: None,
            token: None,
            total_funds: None,
            next_proposal_id: None,
            proposals: Map::empty(),
            donor_balances: Map::empty(),
        }
    }

    /// The storage after `entry` was put into it.
    pub open spec fn put(self, entry: EntryView) -> State {
        match entry {
            EntryView::Admins(admins) => State { admins: Some(admins), ..self },
            EntryView::Token(token) => State { token: Some(token), ..self },
            EntryView::TotalFunds(total) => State { total_funds: Some(total), ..self },
            EntryView::NextProposalId(id) => State { next_proposal_id: Some(id), ..self },
            EntryView::Proposal(id, proposal) => State {
                proposals: self.proposals.insert(id, proposal),
                ..self
            },
            EntryView::DonorBalance(donor, balance) => State {
                donor_balances: self.donor_balances.insert(donor, balance),
                ..self
            },
        }
    }

    /// The entry under `key`, if there is one.
    pub open spec fn lookup(self, key: StorageKey) -> Option<EntryView> {
        match key {
            StorageKey::Admins => match self.admins {
                Some(admins) => Some(EntryView::Admins(admins)),
                None => None,
            },
            StorageKey::Token => match self.token {
                Some(token) => Some(EntryView::Token(token)),
                None => None,
            },
            StorageKey::TotalFunds => match self.total_funds {
                Some(total) => Some(EntryView::TotalFunds(total)),
                None => None,
            },
            StorageKey::NextProposalId => match self.next_proposal_id {
                Some(id) => Some(EntryView::NextProposalId(id)),
                None => None,
            },
            StorageKey::Proposal(id) => if self.proposals.contains_key(id) {
                Some(EntryView::Proposal(id, self.proposals[id]))
            } else {
                None
            },
            StorageKey::DonorBalance(donor) => if self.donor_balances.contains_key(donor) {
                Some(EntryView::DonorBalance(donor, self.donor_balances[donor]))
            } else {
                None
            },
        }
    }

    /// How many tokens the fund holds; none before anything is recorded.
    pub open spec fn total(self) -> u128 {
        match self.total_funds {
            Some(total) => total,
            None => 0,
        }
    }

    /// The identifier of the next proposal; 0 before anything is recorded.
    pub open spec fn next_id(self) -> u32 {
        match self.next_proposal_id {
            Some(id) => id,
            None => 0,
        }
    }

    /// What `donor` has given in all; nothing before anything is recorded.
    pub open spec fn balance_of(self, donor: Address) -> u128 {
        if self.donor_balances.contains_key(donor) {
            self.donor_balances[donor]
        } else {
            0
        }
    }
}

/// The contract's storage, or the part of it that a call reads and writes.
#[derive(Debug)]
pub struct Storage {
    admins: Option<Vec<Address>>,
    token: Option<Address>,
    total_funds: Option<u128>,
    next_proposal_id: Option<u32>,
    proposals: Table<u32, Proposal>,
    donor_balances: Table<Address, u128>,
}

impl View for Storage {
    type V = State;

    closed spec fn view(&self) -> State {
        State {
            admins: match self.admins {
                Some(admins) => Some(admins@),
                None => None,
            },
            token: self.token,
            total_funds: self.total_funds,
            next_proposal_id: self.next_proposal_id,
            proposals: self.proposals@,
            donor_balances: self.donor_balances@,
        }
    }
}

impl Storage {
    /// The tables hold each key once.
    pub closed spec fn wf(&self) -> bool {
        self.proposals.wf() && self.donor_balances.wf()
    }

    /// A storage that holds nothing.
    pub fn new() -> (storage: Self)
        ensures
            storage.wf(),
            storage@ == State::empty(),
    {
        Storage {
            admins: None,
            token: None,
            total_funds: None,
            next_proposal_id: None,
            proposals: Table::new(),
            donor_balances: Table::new(),
        }
    }

    /// Puts `entry` into the storage, in place of what was under its key.
    pub fn put(&mut self, entry: Entry)
        requires
            old(self).wf(),
        ensures
            final(self).wf(),
            final(self)@ == old(self)@.put(entry@),
    {
        match entry {
            Entry::Admins(admins) => {
                self.admins = Some(admins);
            },
            Entry::Token(token) => {
                self.token = Some(token);
            },
            Entry::TotalFunds(total) => {
                self.total_funds = Some(total);
            },
            Entry::NextProposalId(id) => {
                self.next_proposal_id = Some(id);
            },
            Entry::Proposal(id, proposal) => {
                self.proposals.set(id, proposal);
            },
            Entry::DonorBalance(donor, balance) => {
                self.donor_balances.set(donor, balance);
            },
        }
    }

    /// The administrators, if they are recorded.
    pub fn admins(&self) -> (admins: Option<&Vec<Address>>)
        ensures
            match admins {
                Some(list) => self@.admins == Some(list@),
                None => self@.admins is None,
            },
    {
        match &self.admins {
            Some(list) => Some(list),
            None => None,
        }
    }

    /// The token's contract, if it is recorded.
    pub fn token(&self) -> (token: Option<Address>)
        ensures
            token == self@.token,
    {
        self.token
    }

    /// How many tokens the fund holds, if that is recorded.
    pub fn total_funds(&self) -> (total: Option<u128>)
        ensures
            total == self@.total_funds,
    {
        self.total_funds
    }

    /// The identifier of the next proposal, if it is recorded.
    pub fn next_proposal_id(&self) -> (id: Option<u32>)
        ensures
            id == self@.next_proposal_id,
    {
        self.next_proposal_id
    }

    /// The proposal with the identifier `id`, if there is one.
    pub fn proposal(&self, id: u32) -> (proposal: Option<&Proposal>)
        requires
            self.wf(),
        ensures
            match proposal {
                Some(p) => self@.proposals.contains_key(id) && p@ == self@.proposals[id],
                None => !self@.proposals.contains_key(id),
            },
    {
        self.proposals.get(id)
    }

    /// What `donor` has given in all, if that is recorded.
    pub fn donor_balance(&self, donor: Address) -> (balance: Option<u128>)
        requires
            self.wf(),
        ensures
            match balance {
                Some(b) => self@.donor_balances.contains_key(donor) && b
                    == self@.donor_balances[donor],
                None => !self@.donor_balances.contains_key(donor),
            },
    {
        match self.donor_balances.get(donor) {
            Some(balance) => Some(*balance),
            None => None,
        }
    }

    /// A copy that holds the same entries.
    pub fn duplicate(&self) -> (copy: Self)
        requires
            self.wf(),
        ensures
            copy.wf(),
            copy@ == self@,
    {
        Storage {
            admins: match &self.admins {
                Some(list) => Some(copy_addresses(list)),
                None => None,
            },
            token: self.token,
            total_funds: self.total_funds,
            next_proposal_id: self.next_proposal_id,
            proposals: self.proposals.duplicate(),
            donor_balances: self.donor_balances.duplicate(),
        }
    }
}

} // verus!
