use vstd::prelude::*;

use crate::address::Address;
use crate::table::TableValue;

verus! {

/// How many administrators the fund has.
pub const ADMIN_COUNT: u32 = 3;

/// How many approvals a proposal needs to be executed.
pub const APPROVAL_THRESHOLD: u32 = 2;

/// The life cycle of a proposal.
#[derive(Clone, Copy, Debug, PartialEq, Eq, Structural)]
pub enum ProposalStatus {
    /// Waiting for enough approvals.
    Pending,
    /// Approved often enough, and paid out.
    Executed,
    /// Cancelled by its proposer before it was approved often enough.
    Cancelled,
}

/// A proposal to pay an amount out of the fund.
#[derive(Debug, PartialEq, Eq)]
pub struct Proposal {
    /// Identifies the proposal; the first is 0, and each next one is 1 more.
    pub id: u32,
    /// The administrator who made the proposal, and approved it by that.
    pub proposer: Address,
    /// Who is paid when the proposal is executed.
    pub recipient: Address,
    /// How many tokens are paid.
    pub amount: u128,
    /// What the payment is for: an IPFS hash or a UTF-8 text.
    pub description: Vec<u8>,
    /// The administrators who approved, each once, in the order in which they
    /// did.
    pub approvals: Vec<Address>,
    /// Where the proposal stands.
    pub status: ProposalStatus,
}

/// A [`Proposal`] as a mathematical value.
pub struct ProposalView {
    pub id: u32,
    pub proposer: Address,
    pub recipient: Address,
    pub amount: u128,
    pub description: Seq<u8>,
    pub approvals: Seq<Address>,
    pub status: ProposalStatus,
}

impl View for Proposal {
    type V = ProposalView;

    open spec fn view(&self) -> ProposalView {
        ProposalView {
            id: self.id,
            proposer: self.proposer,
            recipient: self.recipient,
            amount: self.amount,
            description: self.description@,
            approvals: self.approvals@,
            status: self.status,
        }
    }
}

/// A copy of a list of addresses.
pub(crate) fn copy_addresses(list: &Vec<Address>) -> (copy: Vec<Address>)
    ensures
        copy@ == list@,
{
    let copy = list.clone();
    assert(copy@ =~= list@);
    copy
}

/// A copy of a byte string.
pub(crate) fn copy_bytes(bytes: &Vec<u8>) -> (copy: Vec<u8>)
    ensures
        copy@ == bytes@,
{
    let copy = bytes.clone();
    assert(copy@ =~= bytes@);
    copy
}

/// Whether `list` holds `address`.
pub(crate) fn contains_address(list: &Vec<Address>, address: Address) -> (found: bool)
    ensures
        found == list@.contains(address),
{
    let mut i: usize = 0;
    while i < list.len()
        invariant
            i <= list.len(),
            forall|j: int| 0 <= j < i ==> list@[j] != address,
        decreases list.len() - i,
    {
        if list[i] == address {
            return true;
        }
        i += 1;
    }
    false
}

impl Clone for Proposal {
    fn clone(&self) -> (copy: Self)
        ensures
            copy@ == self@,
    {
        Proposal {
            id: self.id,
            proposer: self.proposer,
            recipient: self.recipient,
            amount: self.amount,
            description: copy_bytes(&self.description),
            approvals: copy_addresses(&self.approvals),
            status: self.status,
        }
    }
}

impl TableValue for Proposal {
    fn duplicate(&self) -> (copy: Self) {
        self.clone()
    }
}

} // verus!
