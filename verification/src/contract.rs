use vstd::prelude::*;

use crate::address::Address;
use crate::error::ContractError;
use crate::host::{Env, Event, Request, RequestView};
use crate::proposal::{
    contains_address, copy_addresses, copy_bytes, Proposal, ProposalStatus, ProposalView,
    APPROVAL_THRESHOLD,
};
use crate::rules::{
    admin_refusal, approval_count, approve_refusal, cancel_refusal, create_refusal, decides,
    donate_refusal, donated, executed, execution_leaves, execution_refusal, execution_requests,
    file_refusal, filed, initialize_refusal, new_proposal, suffices, token_amount, vote_refusal,
    voted, with_vote, Call,
};
use crate::storage::{Entry, EntryView, State};

verus! {

/// The charity contract.
///
/// Anyone can donate to the fund. To pay out of it, one administrator creates
/// a proposal, which counts as that administrator's approval; the approval of
/// a second administrator executes it.
///
/// A call that returns an error leaves the storage as it was.
pub struct CharityContract;

impl CharityContract {
    /// Sets the three administrators and the token's contract. Can be done
    /// once.
    pub fn initialize(
        env: &mut Env,
        admin_a: Address,
        admin_b: Address,
        admin_c: Address,
        token: Address,
    ) -> (result: Result<(), ContractError>)
        requires
            old(env).wf(),
        ensures
            final(env).wf(),
            final(env)@ == old(env)@.after(
                Call::Initialize { a: admin_a, b: admin_b, c: admin_c, token },
            ),
            result == match initialize_refusal(old(env)@.state, admin_a, admin_b, admin_c) {
                Some(error) => Err::<(), ContractError>(error),
                None => Ok(()),
            },
            result is Ok <==> old(env)@.state.admins is None && admin_a != admin_b && admin_b
                != admin_c && admin_a != admin_c,
            result is Ok ==> final(env)@.state == (State {
                admins: Some(seq![admin_a, admin_b, admin_c]),
                token: Some(token),
                total_funds: Some(0),
                next_proposal_id: Some(0),
                ..old(env)@.state
            }),
            result is Err ==> *final(env) == *old(env),
    {
        let ghost start = env@;
        let ghost call = Call::Initialize { a: admin_a, b: admin_b, c: admin_c, token };
        if env.storage().admins().is_some() {
            assert(env@ =~= start.after(call));
            return Err(ContractError::AlreadyInitialized);
        }
        if admin_a == admin_b || admin_b == admin_c || admin_a == admin_c {
            assert(env@ =~= start.after(call));
            return Err(ContractError::AdminsMustBeDistinct);
        }
        let admins: Vec<Address> = vec![admin_a, admin_b, admin_c];
        assert(admins@ =~= seq![admin_a, admin_b, admin_c]);
        env.store(Entry::Admins(admins));
        env.store(Entry::Token(token));
        env.store(Entry::TotalFunds(0));
        env.store(Entry::NextProposalId(0));
        assert(env@ =~= start.after(call));
        Ok(())
    }

    /// Takes `amount` tokens from `donor` into the fund.
    pub fn donate(env: &mut Env, donor: Address, amount: u128) -> (result: Result<
        (),
        ContractError,
    >)
        requires
            old(env).wf(),
        ensures
            final(env).wf(),
            final(env)@ == old(env)@.after(Call::Donate { donor, amount }),
            result == match donate_refusal(old(env)@.state, donor, amount) {
                Some(error) => Err::<(), ContractError>(error),
                None => Ok(()),
            },
            ({
                let s = old(env)@.state;
                let t = final(env)@.state;
                let held: int = match s.total_funds {
                    Some(total) => total as int,
                    None => 0,
                };
                let had: int = if s.donor_balances.contains_key(donor) {
                    s.donor_balances[donor] as int
                } else {
                    0
                };
                &&& result is Ok <==> amount > 0 && s.token is Some && held + amount <= u128::MAX
                    && had + amount <= u128::MAX
                &&& result is Ok ==> t == (State {
                    total_funds: Some((held + amount) as u128),
                    donor_balances: s.donor_balances.insert(donor, (had + amount) as u128),
                    ..s
                })
                &&& result is Err ==> t == s
            }),
    {
        let saved = env.storage().duplicate();
        let result = Self::try_donate(env, donor, amount);
        if result.is_err() {
            env.restore(saved);
        }
        result
    }

    /// Proposes to pay `amount` tokens to `recipient`, and approves that on
    /// behalf of the proposer. Returns the proposal's identifier.
    pub fn create_proposal(
        env: &mut Env,
        proposer: Address,
        recipient: Address,
        amount: u128,
        description: Vec<u8>,
    ) -> (result: Result<u32, ContractError>)
        requires
            old(env).wf(),
        ensures
            final(env).wf(),
            final(env)@ == old(env)@.after(
                Call::CreateProposal { proposer, recipient, amount, description: description@ },
            ),
            result == match create_refusal(
                old(env)@.state,
                proposer,
                recipient,
                amount,
                description@,
            ) {
                Some(error) => Err::<u32, ContractError>(error),
                None => Ok(old(env)@.state.next_id()),
            },
            ({
                let s = old(env)@.state;
                let t = final(env)@.state;
                let held: int = match s.total_funds {
                    Some(total) => total as int,
                    None => 0,
                };
                let id: u32 = match s.next_proposal_id {
                    Some(next) => next,
                    None => 0,
                };
                &&& result is Ok <==> s.admins is Some && s.admins->0.contains(proposer) && 0
                    < amount <= held && id < u32::MAX
                &&& result is Ok ==> result->Ok_0 == id
                &&& result is Ok ==> t == (State {
                    next_proposal_id: Some((id + 1) as u32),
                    proposals: s.proposals.insert(
                        id,
                        ProposalView {
                            id,
                            proposer,
                            recipient,
                            amount,
                            description: description@,
                            approvals: seq![proposer],
                            status: ProposalStatus::Pending,
                        },
                    ),
                    ..s
                })
                &&& result is Err ==> t == s
            }),
    {
        let saved = env.storage().duplicate();
        let result = Self::try_create_proposal(env, proposer, recipient, amount, description);
        if result.is_err() {
            env.restore(saved);
        }
        result
    }

    /// Approves the proposal `proposal_id` on behalf of `approver`, and
    /// executes it if that suffices.
    pub fn approve_proposal(env: &mut Env, approver: Address, proposal_id: u32) -> (result: Result<
        (),
        ContractError,
    >)
        requires
            old(env).wf(),
        ensures
            final(env).wf(),
            final(env)@ == old(env)@.after(Call::ApproveProposal { approver, id: proposal_id }),
            result == match approve_refusal(old(env)@.state, approver, proposal_id) {
                Some(error) => Err::<(), ContractError>(error),
                None => Ok(()),
            },
            ({
                let s = old(env)@.state;
                let t = final(env)@.state;
                let p = s.proposals[proposal_id];
                let added = final(env)@.requests.skip(old(env)@.requests.len() as int);
                let held: int = match s.total_funds {
                    Some(total) => total as int,
                    None => 0,
                };
                let counts = s.admins is Some && s.admins->0.contains(approver)
                    && s.proposals.contains_key(proposal_id) && p.status
                    == ProposalStatus::Pending && !p.approvals.contains(approver);
                &&& result is Ok ==> counts
                &&& p.approvals.len() == 1 ==> (result is Ok <==> counts && p.amount <= held
                    && s.token is Some)
                &&& result is Ok && p.approvals.len() == 1 ==> {
                    &&& t == (State {
                        total_funds: Some((held - p.amount) as u128),
                        proposals: s.proposals.insert(
                            proposal_id,
                            ProposalView {
                                approvals: p.approvals.push(approver),
                                status: ProposalStatus::Executed,
                                ..p
                            },
                        ),
                        ..s
                    })
                    &&& added.len() == 7
                    &&& added[5] == RequestView::Transfer {
                        token: s.token->0,
                        from: old(env)@.contract,
                        to: p.recipient,
                        amount: token_amount(p.amount),
                    }
                    &&& forall|k: int| 0 <= k < 7 && k != 5 ==> #[trigger] added[k] !is Transfer
                }
                &&& result is Err ==> t == s
            }),
    {
        let saved = env.storage().duplicate();
        let result = Self::try_approve_proposal(env, approver, proposal_id);
        if result.is_err() {
            env.restore(saved);
        }
        result
    }

    /// Cancels the proposal `proposal_id` of `caller`, which waits for
    /// approvals.
    pub fn cancel_proposal(env: &mut Env, caller: Address, proposal_id: u32) -> (result: Result<
        (),
        ContractError,
    >)
        requires
            old(env).wf(),
        ensures
            final(env).wf(),
            final(env)@ == old(env)@.after(Call::CancelProposal { caller, id: proposal_id }),
            result == match cancel_refusal(old(env)@.state, caller, proposal_id) {
                Some(error) => Err::<(), ContractError>(error),
                None => Ok(()),
            },
            ({
                let s = old(env)@.state;
                let t = final(env)@.state;
                let p = s.proposals[proposal_id];
                &&& result is Ok <==> s.admins is Some && s.admins->0.contains(caller)
                    && s.proposals.contains_key(proposal_id) && p.status
                    == ProposalStatus::Pending && p.proposer == caller
                &&& result is Ok ==> t == (State {
                    proposals: s.proposals.insert(
                        proposal_id,
                        ProposalView { status: ProposalStatus::Cancelled, ..p },
                    ),
                    ..s
                })
                &&& result is Err ==> t == s
            }),
    {
        let ghost start = env@;
        let ghost call = Call::CancelProposal { caller, id: proposal_id };
        env.ask(Request::Authorize(caller));
        if let Err(error) = Self::assert_is_admin(env, caller) {
            assert(env@ =~= start.after(call));
            return Err(error);
        }
        let mut proposal = match Self::load_proposal(env, proposal_id) {
            Ok(proposal) => proposal,
            Err(error) => {
                assert(env@ =~= start.after(call));
                return Err(error);
            },
        };
        if proposal.status != ProposalStatus::Pending {
            assert(env@ =~= start.after(call));
            return Err(ContractError::ProposalNotPending);
        }
        if caller != proposal.proposer {
            assert(env@ =~= start.after(call));
            return Err(ContractError::OnlyProposerCanCancel);
        }
        proposal.status = ProposalStatus::Cancelled;
        env.store(Entry::Proposal(proposal_id, proposal));
        env.ask(Request::Publish(Event::ProposalCancelled { caller, proposal_id }));
        assert(env@ =~= start.after(call));
        Ok(())
    }

    /// How many tokens the fund holds.
    pub fn get_total_funds(env: &Env) -> (total: u128)
        requires
            env.wf(),
        ensures
            total == env@.state.total(),
            total == match env@.state.total_funds {
                Some(recorded) => recorded,
                None => 0,
            },
    {
        Self::read_total_funds(env)
    }

    /// The proposal `proposal_id`.
    pub fn get_proposal(env: &Env, proposal_id: u32) -> (proposal: Result<Proposal, ContractError>)
        requires
            env.wf(),
        ensures
            match proposal {
                Ok(p) => {
                    &&& env@.state.proposals.contains_key(proposal_id)
                    &&& p@ == env@.state.proposals[proposal_id]
                },
                Err(error) => {
                    &&& !env@.state.proposals.contains_key(proposal_id)
                    &&& error == ContractError::ProposalNotFound
                },
            },
    {
        Self::load_proposal(env, proposal_id)
    }

    /// The identifier that the next proposal will have.
    pub fn get_next_proposal_id(env: &Env) -> (id: u32)
        requires
            env.wf(),
        ensures
            id == env@.state.next_id(),
            id == match env@.state.next_proposal_id {
                Some(recorded) => recorded,
                None => 0,
            },
    {
        match env.storage().next_proposal_id() {
            Some(id) => id,
            None => 0,
        }
    }

    /// The administrators.
    pub fn get_admins(env: &Env) -> (admins: Result<Vec<Address>, ContractError>)
        requires
            env.wf(),
        ensures
            match admins {
                Ok(list) => env@.state.admins == Some(list@),
                Err(error) => env@.state.admins is None && error == ContractError::NotInitialized,
            },
    {
        Self::read_admins(env)
    }

    /// What `donor` has given in all.
    pub fn get_donor_balance(env: &Env, donor: Address) -> (balance: u128)
        requires
            env.wf(),
        ensures
            balance == env@.state.balance_of(donor),
            balance == if env@.state.donor_balances.contains_key(donor) {
                env@.state.donor_balances[donor]
            } else {
                0
            },
    {
        match env.storage().donor_balance(donor) {
            Some(balance) => balance,
            None => 0,
        }
    }

    /// [`donate`](Self::donate), but a refused call leaves in the storage what
    /// it has stored until then.
    fn try_donate(env: &mut Env, donor: Address, amount: u128) -> (result: Result<
        (),
        ContractError,
    >)
        requires
            old(env).wf(),
        ensures
            final(env).wf(),
            final(env)@.contract == old(env)@.contract,
            final(env)@.requests == old(env)@.after(Call::Donate { donor, amount }).requests,
            result == match donate_refusal(old(env)@.state, donor, amount) {
                Some(error) => Err::<(), ContractError>(error),
                None => Ok(()),
            },
            final(env)@.state == match donate_refusal(old(env)@.state, donor, amount) {
                None => donated(old(env)@.state, donor, amount),
                Some(ContractError::DonorBalanceOverflow) => old(env)@.state.put(
                    EntryView::TotalFunds((old(env)@.state.total() + amount) as u128),
                ),
                Some(_) => old(env)@.state,
            },
    {
        let ghost start = env@;
        let ghost call = Call::Donate { donor, amount };
        env.ask(Request::Authorize(donor));
        if amount == 0 {
            assert(env@.requests =~= start.after(call).requests);
            return Err(ContractError::AmountMustBePositive);
        }
        let token = match Self::get_token(env) {
            Ok(token) => token,
            Err(error) => {
                assert(env@.requests =~= start.after(call).requests);
                return Err(error);
            },
        };
        let contract = env.current_contract_address();
        env.ask(
            Request::Transfer {
                token,
                from: donor,
                to: contract,
                amount: Self::to_token_amount(amount),
            },
        );
        let new_total = match Self::add_to_total(env, amount) {
            Ok(new_total) => new_total,
            Err(error) => {
                assert(env@.requests =~= start.after(call).requests);
                return Err(error);
            },
        };
        let new_balance = match Self::get_donor_balance(env, donor).checked_add(amount) {
            Some(new_balance) => new_balance,
            None => {
                assert(env@.requests =~= start.after(call).requests);
                return Err(ContractError::DonorBalanceOverflow);
            },
        };
        env.store(Entry::DonorBalance(donor, new_balance));
        env.ask(Request::Publish(Event::Donate { donor, amount, new_total }));
        assert(env@.requests =~= start.after(call).requests);
        assert(env@.state =~= donated(start.state, donor, amount));
        Ok(())
    }

    /// [`create_proposal`](Self::create_proposal), but a refused call leaves in
    /// the storage what it has stored until then.
    fn try_create_proposal(
        env: &mut Env,
        proposer: Address,
        recipient: Address,
        amount: u128,
        description: Vec<u8>,
    ) -> (result: Result<u32, ContractError>)
        requires
            old(env).wf(),
        ensures
            final(env).wf(),
            final(env)@.contract == old(env)@.contract,
            final(env)@.requests == old(env)@.after(
                Call::CreateProposal { proposer, recipient, amount, description: description@ },
            ).requests,
            result == match create_refusal(
                old(env)@.state,
                proposer,
                recipient,
                amount,
                description@,
            ) {
                Some(error) => Err::<u32, ContractError>(error),
                None => Ok(old(env)@.state.next_id()),
            },
            final(env)@.state == if file_refusal(old(env)@.state, proposer, amount) is Some {
                old(env)@.state
            } else {
                let proposal = new_proposal(
                    old(env)@.state,
                    proposer,
                    recipient,
                    amount,
                    description@,
                );
                if suffices(1) {
                    execution_leaves(filed(old(env)@.state, proposal), proposal.id)
                } else {
                    filed(old(env)@.state, proposal)
                }
            },
    {
        let ghost start = env@;
        let ghost call = Call::CreateProposal {
            proposer,
            recipient,
            amount,
            description: description@,
        };
        env.ask(Request::Authorize(proposer));
        if let Err(error) = Self::assert_is_admin(env, proposer) {
            assert(env@.requests =~= start.after(call).requests);
            return Err(error);
        }
        if amount == 0 {
            assert(env@.requests =~= start.after(call).requests);
            return Err(ContractError::AmountMustBePositive);
        }
        if amount > Self::read_total_funds(env) {
            assert(env@.requests =~= start.after(call).requests);
            return Err(ContractError::InsufficientFunds);
        }
        let proposal_id = match Self::next_proposal_id(env) {
            Ok(id) => id,
            Err(error) => {
                assert(env@.requests =~= start.after(call).requests);
                return Err(error);
            },
        };
        let approvals: Vec<Address> = vec![proposer];
        assert(approvals@ =~= seq![proposer]);
        let proposal = Proposal {
            id: proposal_id,
            proposer,
            recipient,
            amount,
            description: copy_bytes(&description),
            approvals,
            status: ProposalStatus::Pending,
        };
        env.store(Entry::Proposal(proposal_id, proposal));
        env.ask(
            Request::Publish(
                Event::ProposalCreated { proposer, proposal_id, recipient, amount, description },
            ),
        );
        assert(env@.state =~= filed(start.state, proposal@));
        if APPROVAL_THRESHOLD <= 1 {
            let result = Self::execute_proposal(env, proposal_id);
            assert(env@.requests =~= start.after(call).requests);
            if let Err(error) = result {
                return Err(error);
            }
        }
        assert(env@.requests =~= start.after(call).requests);
        Ok(proposal_id)
    }

    /// [`approve_proposal`](Self::approve_proposal), but a refused call leaves in
    /// the storage what it has stored until then.
    fn try_approve_proposal(env: &mut Env, approver: Address, proposal_id: u32) -> (result: Result<
        (),
        ContractError,
    >)
        requires
            old(env).wf(),
        ensures
            final(env).wf(),
            final(env)@.contract == old(env)@.contract,
            final(env)@.requests == old(env)@.after(
                Call::ApproveProposal { approver, id: proposal_id },
            ).requests,
            result == match approve_refusal(old(env)@.state, approver, proposal_id) {
                Some(error) => Err::<(), ContractError>(error),
                None => Ok(()),
            },
            final(env)@.state == if vote_refusal(
                old(env)@.state,
                approver,
                proposal_id,
            ) is Some {
                old(env)@.state
            } else if decides(old(env)@.state, approver, proposal_id) {
                execution_leaves(voted(old(env)@.state, approver, proposal_id), proposal_id)
            } else {
                voted(old(env)@.state, approver, proposal_id)
            },
    {
        let ghost start = env@;
        let ghost call = Call::ApproveProposal { approver, id: proposal_id };
        env.ask(Request::Authorize(approver));
        if let Err(error) = Self::assert_is_admin(env, approver) {
            assert(env@.requests =~= start.after(call).requests);
            return Err(error);
        }
        let mut proposal = match Self::load_proposal(env, proposal_id) {
            Ok(proposal) => proposal,
            Err(error) => {
                assert(env@.requests =~= start.after(call).requests);
                return Err(error);
            },
        };
        if proposal.status != ProposalStatus::Pending {
            assert(env@.requests =~= start.after(call).requests);
            return Err(ContractError::ProposalNotPending);
        }
        if contains_address(&proposal.approvals, approver) {
            assert(env@.requests =~= start.after(call).requests);
            return Err(ContractError::AlreadyApproved);
        }
        proposal.approvals.push(approver);
        let approval_count: u32 = Self::count_approvals(&proposal.approvals);
        assert(proposal@ == with_vote(start.state, approver, proposal_id));
        env.store(Entry::Proposal(proposal_id, proposal));
        env.ask(
            Request::Publish(Event::ProposalApproved { approver, proposal_id, approval_count }),
        );
        assert(env@.state =~= voted(start.state, approver, proposal_id));
        if approval_count >= APPROVAL_THRESHOLD {
            let result = Self::execute_proposal(env, proposal_id);
            assert(env@.requests =~= start.after(call).requests);
            return result;
        }
        assert(env@.requests =~= start.after(call).requests);
        Ok(())
    }

    /// The number of approvals in the list.
    fn count_approvals(approvals: &Vec<Address>) -> (count: u32)
        ensures
            count == approval_count(approvals@),
    {
        #[verifier::truncate]
        (approvals.len() as u32)
    }

    /// Executes the proposal `proposal_id`, which has enough approvals.
    ///
    /// The storage says that the proposal is executed and the tokens are gone
    /// before the token's contract is called.
    fn execute_proposal(env: &mut Env, proposal_id: u32) -> (result: Result<(), ContractError>)
        requires
            old(env).wf(),
        ensures
            final(env).wf(),
            final(env)@.contract == old(env)@.contract,
            final(env)@.requests == old(env)@.requests + execution_requests(
                old(env)@.contract,
                old(env)@.state,
                proposal_id,
            ),
            result == match execution_refusal(old(env)@.state, proposal_id) {
                Some(error) => Err::<(), ContractError>(error),
                None => Ok(()),
            },
            final(env)@.state == execution_leaves(old(env)@.state, proposal_id),
    {
        let ghost start = env@;
        let mut proposal = match Self::load_proposal(env, proposal_id) {
            Ok(proposal) => proposal,
            Err(error) => {
                assert(env@.requests =~= start.requests + execution_requests(
                    start.contract,
                    start.state,
                    proposal_id,
                ));
                return Err(error);
            },
        };
        let total = Self::read_total_funds(env);
        if proposal.amount > total {
            assert(env@.requests =~= start.requests + execution_requests(
                start.contract,
                start.state,
                proposal_id,
            ));
            return Err(ContractError::InsufficientFundsAtExecution);
        }
        let recipient = proposal.recipient;
        let amount = proposal.amount;
        proposal.status = ProposalStatus::Executed;
        env.store(Entry::Proposal(proposal_id, proposal));
        let remaining: u128 = total - amount;
        env.store(Entry::TotalFunds(remaining));
        let token = match Self::get_token(env) {
            Ok(token) => token,
            Err(error) => {
                assert(env@.requests =~= start.requests + execution_requests(
                    start.contract,
                    start.state,
                    proposal_id,
                ));
                return Err(error);
            },
        };
        let contract = env.current_contract_address();
        env.ask(
            Request::Transfer {
                token,
                from: contract,
                to: recipient,
                amount: Self::to_token_amount(amount),
            },
        );
        env.ask(
            Request::Publish(Event::ProposalExecuted { recipient, proposal_id, amount, remaining }),
        );
        assert(env@.requests =~= start.requests + execution_requests(
            start.contract,
            start.state,
            proposal_id,
        ));
        assert(env@.state =~= executed(start.state, proposal_id));
        Ok(())
    }

    /// The amount in the signed form that the token's contract takes.
    fn to_token_amount(amount: u128) -> (signed: i128)
        ensures
            signed == token_amount(amount),
    {
        #[verifier::truncate]
        (amount as i128)
    }

    /// Whether `address` is an administrator.
    fn assert_is_admin(env: &Env, address: Address) -> (result: Result<(), ContractError>)
        requires
            env.wf(),
        ensures
            result == match admin_refusal(env@.state, address) {
                Some(error) => Err(error),
                None => Ok(()),
            },
    {
        match env.storage().admins() {
            Some(admins) => if contains_address(admins, address) {
                Ok(())
            } else {
                Err(ContractError::NotAdmin)
            },
            None => Err(ContractError::NotInitialized),
        }
    }

    /// The token's contract.
    fn get_token(env: &Env) -> (token: Result<Address, ContractError>)
        requires
            env.wf(),
        ensures
            token == match env@.state.token {
                Some(address) => Ok(address),
                None => Err(ContractError::NotInitialized),
            },
    {
        match env.storage().token() {
            Some(token) => Ok(token),
            None => Err(ContractError::NotInitialized),
        }
    }

    /// How many tokens the fund holds.
    fn read_total_funds(env: &Env) -> (total: u128)
        requires
            env.wf(),
        ensures
            total == env@.state.total(),
    {
        match env.storage().total_funds() {
            Some(total) => total,
            None => 0,
        }
    }

    /// The proposal `proposal_id`.
    fn load_proposal(env: &Env, proposal_id: u32) -> (proposal: Result<Proposal, ContractError>)
        requires
            env.wf(),
        ensures
            match proposal {
                Ok(p) => {
                    &&& env@.state.proposals.contains_key(proposal_id)
                    &&& p@ == env@.state.proposals[proposal_id]
                },
                Err(error) => {
                    &&& !env@.state.proposals.contains_key(proposal_id)
                    &&& error == ContractError::ProposalNotFound
                },
            },
    {
        match env.storage().proposal(proposal_id) {
            Some(proposal) => Ok(proposal.clone()),
            None => Err(ContractError::ProposalNotFound),
        }
    }

    /// The administrators.
    fn read_admins(env: &Env) -> (admins: Result<Vec<Address>, ContractError>)
        requires
            env.wf(),
        ensures
            match admins {
                Ok(list) => env@.state.admins == Some(list@),
                Err(error) => env@.state.admins is None && error == ContractError::NotInitialized,
            },
    {
        match env.storage().admins() {
            Some(admins) => Ok(copy_addresses(admins)),
            None => Err(ContractError::NotInitialized),
        }
    }

    /// Takes the next identifier, and counts it up.
    fn next_proposal_id(env: &mut Env) -> (result: Result<u32, ContractError>)
        requires
            old(env).wf(),
        ensures
            final(env).wf(),
            match result {
                Ok(id) => {
                    &&& id == old(env)@.state.next_id()
                    &&& id < u32::MAX
                    &&& final(env)@ == old(env)@.store(EntryView::NextProposalId((id + 1) as u32))
                },
                Err(error) => {
                    &&& old(env)@.state.next_id() == u32::MAX
                    &&& error == ContractError::ProposalIdOverflow
                    &&& final(env)@ == old(env)@
                },
            },
    {
        let id = Self::get_next_proposal_id(env);
        match id.checked_add(1) {
            Some(next) => {
                env.store(Entry::NextProposalId(next));
                Ok(id)
            },
            None => Err(ContractError::ProposalIdOverflow),
        }
    }

    /// Adds `amount` to what the fund holds. Returns the sum.
    fn add_to_total(env: &mut Env, amount: u128) -> (result: Result<u128, ContractError>)
        requires
            old(env).wf(),
        ensures
            final(env).wf(),
            match result {
                Ok(new_total) => {
                    &&& new_total == old(env)@.state.total() + amount
                    &&& final(env)@ == old(env)@.store(EntryView::TotalFunds(new_total))
                },
                Err(error) => {
                    &&& old(env)@.state.total() + amount > u128::MAX
                    &&& error == ContractError::TotalFundsOverflow
                    &&& final(env)@ == old(env)@
                },
            },
    {
        match Self::read_total_funds(env).checked_add(amount) {
            Some(new_total) => {
                env.store(Entry::TotalFunds(new_total));
                Ok(new_total)
            },
            None => Err(ContractError::TotalFundsOverflow),
        }
    }
}

} // verus!
