use chain_charity::{
    Address, CharityContract, ContractError, Durability, Entry, Env, Event, Proposal,
    ProposalStatus, Request, Storage, StorageKey, ADMIN_COUNT, APPROVAL_THRESHOLD,
};

fn address(tag: u8) -> Address {
    Address { strkey: [tag; 56] }
}

const A: u8 = b'A';
const B: u8 = b'B';
const C: u8 = b'C';
const DONOR: u8 = b'D';
const RECIPIENT: u8 = b'R';
const TOKEN: u8 = b'T';
const CONTRACT: u8 = b'X';

fn empty() -> Env {
    Env::new(address(CONTRACT), Storage::new())
}

fn holding(entries: Vec<Entry>) -> Env {
    let mut storage = Storage::new();
    for entry in entries {
        storage.put(entry);
    }
    Env::new(address(CONTRACT), storage)
}

fn admins() -> Vec<Address> {
    vec![address(A), address(B), address(C)]
}

/// An initialized contract whose fund holds `total`, before any request.
fn funded(total: u128) -> Env {
    holding(vec![
        Entry::Admins(admins()),
        Entry::Token(address(TOKEN)),
        Entry::TotalFunds(total),
        Entry::NextProposalId(0),
    ])
}

fn waiting(id: u32, amount: u128) -> Proposal {
    Proposal {
        id,
        proposer: address(A),
        recipient: address(RECIPIENT),
        amount,
        description: b"books".to_vec(),
        approvals: vec![address(A)],
        status: ProposalStatus::Pending,
    }
}

fn create(env: &mut Env, proposer: u8, amount: u128) -> Result<u32, ContractError> {
    CharityContract::create_proposal(
        env,
        address(proposer),
        address(RECIPIENT),
        amount,
        b"books".to_vec(),
    )
}

fn approve(env: &mut Env, approver: u8, id: u32) -> Result<(), ContractError> {
    CharityContract::approve_proposal(env, address(approver), id)
}

fn cancel(env: &mut Env, caller: u8, id: u32) -> Result<(), ContractError> {
    CharityContract::cancel_proposal(env, address(caller), id)
}

fn donate(env: &mut Env, amount: u128) -> Result<(), ContractError> {
    CharityContract::donate(env, address(DONOR), amount)
}

#[test]
fn constants() {
    assert_eq!(ADMIN_COUNT, 3);
    assert_eq!(APPROVAL_THRESHOLD, 2);
}

#[test]
fn addresses_differ_in_one_byte() {
    let mut strkey = [A; 56];
    assert_eq!(address(A), Address { strkey });
    strkey[55] = B;
    assert_ne!(address(A), Address { strkey });
}

#[test]
fn initialize_stores_four_entries() {
    let mut env = empty();
    assert_eq!(
        CharityContract::initialize(&mut env, address(A), address(B), address(C), address(TOKEN)),
        Ok(())
    );
    assert_eq!(CharityContract::get_admins(&env), Ok(admins()));
    assert_eq!(env.storage().token(), Some(address(TOKEN)));
    assert_eq!(CharityContract::get_total_funds(&env), 0);
    assert_eq!(CharityContract::get_next_proposal_id(&env), 0);
    assert_eq!(
        env.into_requests(),
        vec![
            Request::Store(Entry::Admins(admins())),
            Request::Store(Entry::Token(address(TOKEN))),
            Request::Store(Entry::TotalFunds(0)),
            Request::Store(Entry::NextProposalId(0)),
        ]
    );
}

#[test]
fn initialize_once() {
    let mut env = funded(7);
    assert_eq!(
        CharityContract::initialize(&mut env, address(C), address(C), address(C), address(B)),
        Err(ContractError::AlreadyInitialized)
    );
    assert_eq!(CharityContract::get_admins(&env), Ok(admins()));
    assert_eq!(CharityContract::get_total_funds(&env), 7);
    assert_eq!(env.into_requests(), vec![]);
}

#[test]
fn administrators_are_distinct() {
    for (a, b, c) in [(A, A, C), (A, B, B), (A, B, A)] {
        let mut env = empty();
        assert_eq!(
            CharityContract::initialize(
                &mut env,
                address(a),
                address(b),
                address(c),
                address(TOKEN)
            ),
            Err(ContractError::AdminsMustBeDistinct)
        );
        assert_eq!(
            CharityContract::get_admins(&env),
            Err(ContractError::NotInitialized)
        );
    }
}

#[test]
fn nothing_works_before_initialize() {
    let mut env = empty();
    assert_eq!(donate(&mut env, 1), Err(ContractError::NotInitialized));
    assert_eq!(donate(&mut env, 0), Err(ContractError::AmountMustBePositive));
    assert_eq!(create(&mut env, A, 1), Err(ContractError::NotInitialized));
    assert_eq!(approve(&mut env, A, 0), Err(ContractError::NotInitialized));
    assert_eq!(cancel(&mut env, A, 0), Err(ContractError::NotInitialized));
    assert_eq!(CharityContract::get_total_funds(&env), 0);
    assert_eq!(CharityContract::get_next_proposal_id(&env), 0);
    assert_eq!(CharityContract::get_donor_balance(&env, address(DONOR)), 0);
    assert_eq!(
        CharityContract::get_proposal(&env, 0),
        Err(ContractError::ProposalNotFound)
    );
}

#[test]
fn donation_asks_in_order() {
    let mut env = funded(100);
    assert_eq!(donate(&mut env, 25), Ok(()));
    assert_eq!(
        env.into_requests(),
        vec![
            Request::Authorize(address(DONOR)),
            Request::Transfer {
                token: address(TOKEN),
                from: address(DONOR),
                to: address(CONTRACT),
                amount: 25,
            },
            Request::Store(Entry::TotalFunds(125)),
            Request::Store(Entry::DonorBalance(address(DONOR), 25)),
            Request::Publish(Event::Donate {
                donor: address(DONOR),
                amount: 25,
                new_total: 125,
            }),
        ]
    );
}

#[test]
fn donations_add_up_per_donor() {
    let mut env = funded(0);
    assert_eq!(donate(&mut env, 25), Ok(()));
    assert_eq!(donate(&mut env, 17), Ok(()));
    assert_eq!(CharityContract::donate(&mut env, address(B), 8), Ok(()));
    assert_eq!(CharityContract::get_donor_balance(&env, address(DONOR)), 42);
    assert_eq!(CharityContract::get_donor_balance(&env, address(B)), 8);
    assert_eq!(CharityContract::get_donor_balance(&env, address(C)), 0);
    assert_eq!(CharityContract::get_total_funds(&env), 50);
}

#[test]
fn large_amount_is_asked_for_as_negative() {
    let mut env = funded(0);
    assert_eq!(donate(&mut env, 1u128 << 127), Ok(()));
    assert_eq!(
        env.into_requests()[1],
        Request::Transfer {
            token: address(TOKEN),
            from: address(DONOR),
            to: address(CONTRACT),
            amount: i128::MIN,
        }
    );
    let mut env = funded(0);
    assert_eq!(donate(&mut env, (1u128 << 127) - 1), Ok(()));
    assert_eq!(
        env.into_requests()[1],
        Request::Transfer {
            token: address(TOKEN),
            from: address(DONOR),
            to: address(CONTRACT),
            amount: i128::MAX,
        }
    );
}

#[test]
fn total_overflow_comes_after_the_transfer() {
    let mut env = funded(u128::MAX - 4);
    assert_eq!(donate(&mut env, 5), Err(ContractError::TotalFundsOverflow));
    assert_eq!(CharityContract::get_total_funds(&env), u128::MAX - 4);
    assert_eq!(CharityContract::get_donor_balance(&env, address(DONOR)), 0);
    let requests = env.into_requests();
    assert_eq!(requests.len(), 2);
    assert!(matches!(requests[1], Request::Transfer { amount: 5, .. }));
}

#[test]
fn total_can_be_full() {
    let mut env = funded(u128::MAX - 5);
    assert_eq!(donate(&mut env, 5), Ok(()));
    assert_eq!(CharityContract::get_total_funds(&env), u128::MAX);
}

#[test]
fn balance_overflow_restores_the_total() {
    let mut env = holding(vec![
        Entry::Token(address(TOKEN)),
        Entry::TotalFunds(10),
        Entry::DonorBalance(address(DONOR), u128::MAX - 4),
    ]);
    assert_eq!(donate(&mut env, 5), Err(ContractError::DonorBalanceOverflow));
    assert_eq!(CharityContract::get_total_funds(&env), 10);
    assert_eq!(
        CharityContract::get_donor_balance(&env, address(DONOR)),
        u128::MAX - 4
    );
    let requests = env.into_requests();
    assert_eq!(requests.len(), 3);
    assert_eq!(requests[2], Request::Store(Entry::TotalFunds(15)));
}

#[test]
fn creation_asks_in_order() {
    let mut env = funded(100);
    assert_eq!(create(&mut env, A, 100), Ok(0));
    assert_eq!(CharityContract::get_next_proposal_id(&env), 1);
    assert_eq!(CharityContract::get_proposal(&env, 0), Ok(waiting(0, 100)));
    assert_eq!(
        env.into_requests(),
        vec![
            Request::Authorize(address(A)),
            Request::Store(Entry::NextProposalId(1)),
            Request::Store(Entry::Proposal(0, waiting(0, 100))),
            Request::Publish(Event::ProposalCreated {
                proposer: address(A),
                proposal_id: 0,
                recipient: address(RECIPIENT),
                amount: 100,
                description: b"books".to_vec(),
            }),
        ]
    );
}

#[test]
fn creation_is_refused() {
    let mut env = funded(100);
    assert_eq!(create(&mut env, DONOR, 0), Err(ContractError::NotAdmin));
    assert_eq!(create(&mut env, B, 0), Err(ContractError::AmountMustBePositive));
    assert_eq!(create(&mut env, B, 101), Err(ContractError::InsufficientFunds));
    assert_eq!(CharityContract::get_next_proposal_id(&env), 0);
    assert_eq!(
        env.into_requests(),
        vec![
            Request::Authorize(address(DONOR)),
            Request::Authorize(address(B)),
            Request::Authorize(address(B)),
        ]
    );
}

#[test]
fn identifiers_count_up_and_run_out() {
    let mut env = funded(100);
    for id in 0..5u32 {
        assert_eq!(create(&mut env, C, 1), Ok(id));
    }
    assert_eq!(CharityContract::get_next_proposal_id(&env), 5);

    let mut env = holding(vec![
        Entry::Admins(admins()),
        Entry::TotalFunds(9),
        Entry::NextProposalId(u32::MAX),
    ]);
    assert_eq!(create(&mut env, A, 1), Err(ContractError::ProposalIdOverflow));
    assert_eq!(CharityContract::get_next_proposal_id(&env), u32::MAX);
    assert_eq!(
        CharityContract::get_proposal(&env, u32::MAX),
        Err(ContractError::ProposalNotFound)
    );
}

#[test]
fn deciding_approval_asks_in_order() {
    let mut env = funded(100);
    assert_eq!(create(&mut env, A, 40), Ok(0));
    assert_eq!(approve(&mut env, C, 0), Ok(()));
    assert_eq!(CharityContract::get_total_funds(&env), 60);

    let voted = Proposal {
        approvals: vec![address(A), address(C)],
        ..waiting(0, 40)
    };
    let executed = Proposal {
        status: ProposalStatus::Executed,
        ..voted.clone()
    };
    assert_eq!(CharityContract::get_proposal(&env, 0), Ok(executed.clone()));
    assert_eq!(
        env.into_requests().split_off(4),
        vec![
            Request::Authorize(address(C)),
            Request::Store(Entry::Proposal(0, voted)),
            Request::Publish(Event::ProposalApproved {
                approver: address(C),
                proposal_id: 0,
                approval_count: 2,
            }),
            Request::Store(Entry::Proposal(0, executed)),
            Request::Store(Entry::TotalFunds(60)),
            Request::Transfer {
                token: address(TOKEN),
                from: address(CONTRACT),
                to: address(RECIPIENT),
                amount: 40,
            },
            Request::Publish(Event::ProposalExecuted {
                recipient: address(RECIPIENT),
                proposal_id: 0,
                amount: 40,
                remaining: 60,
            }),
        ]
    );
}

#[test]
fn approval_short_of_the_threshold_waits() {
    let unapproved = Proposal {
        approvals: vec![],
        ..waiting(3, 40)
    };
    let mut env = holding(vec![
        Entry::Admins(admins()),
        Entry::Proposal(3, unapproved),
    ]);
    assert_eq!(approve(&mut env, B, 3), Ok(()));
    let proposal = CharityContract::get_proposal(&env, 3).unwrap();
    assert_eq!(proposal.approvals, vec![address(B)]);
    assert_eq!(proposal.status, ProposalStatus::Pending);
    assert_eq!(env.into_requests().len(), 3);
}

#[test]
fn approval_is_refused() {
    let mut env = funded(100);
    assert_eq!(approve(&mut env, A, 0), Err(ContractError::ProposalNotFound));
    assert_eq!(create(&mut env, A, 40), Ok(0));
    assert_eq!(approve(&mut env, DONOR, 0), Err(ContractError::NotAdmin));
    assert_eq!(approve(&mut env, A, 0), Err(ContractError::AlreadyApproved));
    assert_eq!(cancel(&mut env, A, 0), Ok(()));
    assert_eq!(approve(&mut env, B, 0), Err(ContractError::ProposalNotPending));
    assert_eq!(approve(&mut env, A, 0), Err(ContractError::ProposalNotPending));
    assert_eq!(CharityContract::get_total_funds(&env), 100);
}

#[test]
fn unpayable_proposal_waits_on() {
    let mut env = funded(100);
    assert_eq!(create(&mut env, A, 60), Ok(0));
    assert_eq!(create(&mut env, B, 70), Ok(1));
    assert_eq!(approve(&mut env, B, 0), Ok(()));
    assert_eq!(
        approve(&mut env, C, 1),
        Err(ContractError::InsufficientFundsAtExecution)
    );
    let proposal = CharityContract::get_proposal(&env, 1).unwrap();
    assert_eq!(proposal.approvals, vec![address(B)]);
    assert_eq!(proposal.status, ProposalStatus::Pending);
    assert_eq!(CharityContract::get_total_funds(&env), 40);

    assert_eq!(donate(&mut env, 30), Ok(()));
    assert_eq!(approve(&mut env, C, 1), Ok(()));
    assert_eq!(CharityContract::get_total_funds(&env), 0);
}

#[test]
fn execution_without_a_token_is_undone() {
    let mut env = holding(vec![
        Entry::Admins(admins()),
        Entry::TotalFunds(50),
        Entry::Proposal(0, waiting(0, 40)),
    ]);
    assert_eq!(approve(&mut env, B, 0), Err(ContractError::NotInitialized));
    assert_eq!(CharityContract::get_total_funds(&env), 50);
    assert_eq!(CharityContract::get_proposal(&env, 0), Ok(waiting(0, 40)));
    assert_eq!(env.into_requests().len(), 5);
}

#[test]
fn cancellation_asks_in_order() {
    let mut env = holding(vec![
        Entry::Admins(admins()),
        Entry::TotalFunds(50),
        Entry::Proposal(0, waiting(0, 40)),
    ]);
    assert_eq!(cancel(&mut env, A, 0), Ok(()));
    assert_eq!(CharityContract::get_total_funds(&env), 50);
    let cancelled = Proposal {
        status: ProposalStatus::Cancelled,
        ..waiting(0, 40)
    };
    assert_eq!(
        env.into_requests(),
        vec![
            Request::Authorize(address(A)),
            Request::Store(Entry::Proposal(0, cancelled)),
            Request::Publish(Event::ProposalCancelled {
                caller: address(A),
                proposal_id: 0,
            }),
        ]
    );
}

#[test]
fn cancellation_is_refused() {
    let mut env = funded(100);
    assert_eq!(cancel(&mut env, A, 0), Err(ContractError::ProposalNotFound));
    assert_eq!(create(&mut env, A, 40), Ok(0));
    assert_eq!(cancel(&mut env, DONOR, 0), Err(ContractError::NotAdmin));
    assert_eq!(cancel(&mut env, B, 0), Err(ContractError::OnlyProposerCanCancel));
    assert_eq!(approve(&mut env, B, 0), Ok(()));
    assert_eq!(cancel(&mut env, A, 0), Err(ContractError::ProposalNotPending));
}

#[test]
fn fund_holds_what_was_given_and_not_paid() {
    let mut env = funded(0);
    assert_eq!(donate(&mut env, 500), Ok(()));
    assert_eq!(CharityContract::donate(&mut env, address(B), 250), Ok(()));
    assert_eq!(create(&mut env, A, 300), Ok(0));
    assert_eq!(create(&mut env, B, 100), Ok(1));
    assert_eq!(create(&mut env, C, 50), Ok(2));
    assert_eq!(approve(&mut env, C, 0), Ok(()));
    assert_eq!(cancel(&mut env, B, 1), Ok(()));
    assert_eq!(approve(&mut env, A, 2), Ok(()));
    assert_eq!(CharityContract::get_total_funds(&env), 500 + 250 - 300 - 50);
    assert_eq!(
        CharityContract::get_admins(&env),
        Ok(vec![address(A), address(B), address(C)])
    );
}

#[test]
fn stored_requests_give_the_storage() {
    let mut env = funded(0);
    assert_eq!(donate(&mut env, 500), Ok(()));
    assert_eq!(create(&mut env, A, 300), Ok(0));
    assert_eq!(approve(&mut env, B, 0), Ok(()));
    let total = CharityContract::get_total_funds(&env);
    let proposal = CharityContract::get_proposal(&env, 0);
    let mut entries = vec![];
    for request in env.into_requests() {
        if let Request::Store(entry) = request {
            entries.push(entry);
        }
    }
    let mirror = holding(entries);
    assert_eq!(CharityContract::get_total_funds(&mirror), total);
    assert_eq!(CharityContract::get_proposal(&mirror, 0), proposal);
    assert_eq!(CharityContract::get_donor_balance(&mirror, address(DONOR)), 500);
    assert_eq!(CharityContract::get_next_proposal_id(&mirror), 1);
}

#[test]
fn entries_have_keys() {
    let cases = vec![
        (Entry::Admins(admins()), StorageKey::Admins, Durability::Instance),
        (Entry::Token(address(TOKEN)), StorageKey::Token, Durability::Instance),
        (Entry::TotalFunds(1), StorageKey::TotalFunds, Durability::Instance),
        (Entry::NextProposalId(1), StorageKey::NextProposalId, Durability::Instance),
        (
            Entry::Proposal(7, waiting(7, 1)),
            StorageKey::Proposal(7),
            Durability::Persistent,
        ),
        (
            Entry::DonorBalance(address(DONOR), 1),
            StorageKey::DonorBalance(address(DONOR)),
            Durability::Persistent,
        ),
    ];
    for (entry, key, durability) in cases {
        assert_eq!(entry.key(), key);
        assert_eq!(key.durability(), durability);
    }
}

#[test]
fn events_have_topics() {
    let event = Event::ProposalExecuted {
        recipient: address(RECIPIENT),
        proposal_id: 1,
        amount: 2,
        remaining: 3,
    };
    assert_eq!(event.name(), "proposal_executed");
    assert_eq!(event.subject(), address(RECIPIENT));
    let event = Event::Donate {
        donor: address(DONOR),
        amount: 2,
        new_total: 3,
    };
    assert_eq!(event.name(), "donate");
    assert_eq!(event.subject(), address(DONOR));
    let event = Event::ProposalCreated {
        proposer: address(A),
        proposal_id: 1,
        recipient: address(RECIPIENT),
        amount: 2,
        description: vec![],
    };
    assert_eq!(event.name(), "proposal_created");
    assert_eq!(event.subject(), address(A));
    let event = Event::ProposalApproved {
        approver: address(B),
        proposal_id: 1,
        approval_count: 2,
    };
    assert_eq!(event.name(), "proposal_approved");
    assert_eq!(event.subject(), address(B));
    let event = Event::ProposalCancelled {
        caller: address(C),
        proposal_id: 1,
    };
    assert_eq!(event.name(), "proposal_cancelled");
    assert_eq!(event.subject(), address(C));
}

#[test]
fn errors_have_messages() {
    let cases = vec![
        (ContractError::AlreadyInitialized, "already_initialized"),
        (ContractError::AdminsMustBeDistinct, "admins_must_be_distinct"),
        (ContractError::NotInitialized, "not_initialized"),
        (ContractError::AmountMustBePositive, "amount_must_be_positive"),
        (ContractError::InsufficientFunds, "insufficient_funds"),
        (ContractError::NotAdmin, "not_admin"),
        (ContractError::ProposalNotFound, "proposal_not_found"),
        (ContractError::ProposalNotPending, "proposal_not_pending"),
        (ContractError::AlreadyApproved, "already_approved"),
        (ContractError::OnlyProposerCanCancel, "only_proposer_can_cancel"),
        (
            ContractError::InsufficientFundsAtExecution,
            "insufficient_funds_at_execution",
        ),
        (ContractError::TotalFundsOverflow, "total_funds_overflow"),
        (ContractError::DonorBalanceOverflow, "attempt to add with overflow"),
        (ContractError::ProposalIdOverflow, "attempt to add with overflow"),
    ];
    for (error, message) in cases {
        assert_eq!(error.message(), message);
    }
}

#[test]
fn entries_that_a_call_reads_suffice() {
    let mut whole = holding(vec![
        Entry::Admins(admins()),
        Entry::Token(address(TOKEN)),
        Entry::TotalFunds(90),
        Entry::NextProposalId(2),
        Entry::Proposal(0, waiting(0, 10)),
        Entry::Proposal(1, waiting(1, 40)),
        Entry::DonorBalance(address(DONOR), 90),
    ]);
    let mut part = holding(vec![
        Entry::Admins(admins()),
        Entry::Token(address(TOKEN)),
        Entry::TotalFunds(90),
        Entry::Proposal(1, waiting(1, 40)),
    ]);
    assert_eq!(approve(&mut whole, B, 1), Ok(()));
    assert_eq!(approve(&mut part, B, 1), Ok(()));
    assert_eq!(CharityContract::get_proposal(&whole, 0), Ok(waiting(0, 10)));
    assert_eq!(CharityContract::get_donor_balance(&whole, address(DONOR)), 90);
    assert_eq!(whole.into_requests(), part.into_requests());
}

#[test]
fn executed_proposal_is_paid_once() {
    let mut env = funded(100);
    assert_eq!(create(&mut env, A, 40), Ok(0));
    assert_eq!(approve(&mut env, B, 0), Ok(()));
    for approver in [A, B, C] {
        assert_eq!(
            approve(&mut env, approver, 0),
            Err(ContractError::ProposalNotPending)
        );
    }
    assert_eq!(create(&mut env, B, 1), Ok(1));
    assert_eq!(approve(&mut env, C, 0), Err(ContractError::ProposalNotPending));
    assert_eq!(CharityContract::get_total_funds(&env), 60);
    let mut transfers: usize = 0;
    for request in env.into_requests() {
        if let Request::Transfer { .. } = request {
            transfers += 1;
        }
    }
    assert_eq!(transfers, 1);
}

#[test]
fn vote_is_remembered() {
    let mut env = funded(100);
    assert_eq!(create(&mut env, B, 40), Ok(0));
    assert_eq!(create(&mut env, A, 70), Ok(1));
    assert_eq!(donate(&mut env, 5), Ok(()));
    assert_eq!(approve(&mut env, B, 0), Err(ContractError::AlreadyApproved));
    assert_eq!(approve(&mut env, B, 1), Ok(()));
    assert_eq!(approve(&mut env, B, 0), Err(ContractError::AlreadyApproved));
    assert_eq!(CharityContract::get_total_funds(&env), 35);
}

/// What the requests bring the contract's account.
fn inflow(requests: &[Request]) -> i128 {
    let mut sum: i128 = 0;
    for request in requests {
        if let Request::Transfer { from, to, amount, .. } = request {
            if *to == address(CONTRACT) {
                sum += amount;
            }
            if *from == address(CONTRACT) {
                sum -= amount;
            }
        }
    }
    sum
}

#[test]
fn transfers_cover_the_total() {
    let mut env = funded(0);
    assert_eq!(donate(&mut env, 500), Ok(()));
    assert_eq!(create(&mut env, A, 120), Ok(0));
    assert_eq!(approve(&mut env, B, 0), Ok(()));
    assert_eq!(CharityContract::get_total_funds(&env), 380);
    assert_eq!(inflow(&env.into_requests()), 380);
}

#[test]
fn payment_to_the_contract_itself_stays_covered() {
    let mut env = funded(0);
    assert_eq!(donate(&mut env, 500), Ok(()));
    assert_eq!(
        CharityContract::create_proposal(
            &mut env,
            address(A),
            address(CONTRACT),
            120,
            b"savings".to_vec()
        ),
        Ok(0)
    );
    assert_eq!(approve(&mut env, B, 0), Ok(()));
    assert_eq!(CharityContract::get_total_funds(&env), 380);
    assert_eq!(inflow(&env.into_requests()), 500);
}

#[test]
fn votes_are_authorized() {
    let mut env = funded(100);
    assert_eq!(create(&mut env, A, 40), Ok(0));
    assert_eq!(create(&mut env, B, 10), Ok(1));
    assert_eq!(approve(&mut env, C, 0), Ok(()));
    let approvals = CharityContract::get_proposal(&env, 0).unwrap().approvals;
    assert_eq!(approvals, vec![address(A), address(C)]);
    let requests = env.into_requests();
    assert_eq!(requests[0], Request::Authorize(approvals[0]));
    assert_eq!(requests[4], Request::Authorize(address(B)));
    assert_eq!(requests[8], Request::Authorize(approvals[1]));
    let mut payments = vec![];
    for request in requests {
        if let Request::Transfer { to, amount, .. } = request {
            payments.push((to, amount));
        }
    }
    assert_eq!(payments, vec![(address(RECIPIENT), 40)]);
}
