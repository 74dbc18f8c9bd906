use chain_charity::{Address, CharityContract, ContractError, Env, ProposalStatus, Storage};

const CONTRACT: u8 = b'X';
const TOKEN: u8 = b'T';

fn address(tag: u8) -> Address {
    Address { strkey: [tag; 56] }
}

fn must<T>(result: Result<T, ContractError>) -> T {
    match result {
        Ok(value) => value,
        Err(error) => panic!("{}", error.message()),
    }
}

fn text(text: &str) -> Vec<u8> {
    text.as_bytes().to_vec()
}

/// An initialized contract, its three administrators and a donor.
fn setup() -> (Env, Address, Address, Address, Address) {
    let mut env = Env::new(address(CONTRACT), Storage::new());
    let (admin_a, admin_b, admin_c) = (address(b'A'), address(b'B'), address(b'C'));
    must(CharityContract::initialize(
        &mut env,
        admin_a,
        admin_b,
        admin_c,
        address(TOKEN),
    ));
    (env, admin_a, admin_b, admin_c, address(b'D'))
}

#[test]
fn test_donate_records_balance() {
    let (mut env, _a, _b, _c, donor) = setup();

    must(CharityContract::donate(&mut env, donor, 1_000_000_u128));

    assert_eq!(CharityContract::get_total_funds(&env), 1_000_000_u128);
    assert_eq!(CharityContract::get_donor_balance(&env, donor), 1_000_000_u128);
}

#[test]
#[should_panic(expected = "amount_must_be_positive")]
fn test_donate_zero_rejected() {
    let (mut env, _a, _b, _c, donor) = setup();
    must(CharityContract::donate(&mut env, donor, 0_u128));
}

#[test]
fn test_multisig_2_of_3_executes() {
    let (mut env, admin_a, admin_b, _c, donor) = setup();
    let recipient = address(b'R');

    must(CharityContract::donate(&mut env, donor, 1_000_000_u128));

    let pid = must(CharityContract::create_proposal(
        &mut env,
        admin_a,
        recipient,
        400_000_u128,
        text("QmIPFS_truong_vung_cao"),
    ));
    assert_eq!(pid, 0_u32);

    let p = must(CharityContract::get_proposal(&env, pid));
    assert_eq!(p.status, ProposalStatus::Pending);
    assert_eq!(p.approvals.len(), 1);

    must(CharityContract::approve_proposal(&mut env, admin_b, pid));

    let p_after = must(CharityContract::get_proposal(&env, pid));
    assert_eq!(p_after.status, ProposalStatus::Executed);
    assert_eq!(CharityContract::get_total_funds(&env), 600_000_u128);
}

#[test]
fn test_one_approval_stays_pending() {
    let (mut env, admin_a, _b, _c, donor) = setup();
    let recipient = address(b'R');

    must(CharityContract::donate(&mut env, donor, 500_000_u128));

    let pid = must(CharityContract::create_proposal(
        &mut env,
        admin_a,
        recipient,
        200_000_u128,
        text("phase_1"),
    ));

    assert_eq!(
        must(CharityContract::get_proposal(&env, pid)).status,
        ProposalStatus::Pending
    );
    assert_eq!(CharityContract::get_total_funds(&env), 500_000_u128);
}

#[test]
#[should_panic(expected = "already_approved")]
fn test_double_vote_rejected() {
    let (mut env, admin_a, _b, _c, donor) = setup();
    let recipient = address(b'R');

    must(CharityContract::donate(&mut env, donor, 500_000_u128));
    let pid = must(CharityContract::create_proposal(
        &mut env,
        admin_a,
        recipient,
        100_000_u128,
        text("test"),
    ));
    must(CharityContract::approve_proposal(&mut env, admin_a, pid));
}

#[test]
#[should_panic(expected = "not_admin")]
fn test_non_admin_cannot_create() {
    let (mut env, _a, _b, _c, donor) = setup();
    let recipient = address(b'R');

    must(CharityContract::donate(&mut env, donor, 500_000_u128));
    must(CharityContract::create_proposal(
        &mut env,
        donor,
        recipient,
        100_000_u128,
        text("hack"),
    ));
}

#[test]
#[should_panic(expected = "not_admin")]
fn test_non_admin_cannot_approve() {
    let (mut env, admin_a, _b, _c, donor) = setup();
    let recipient = address(b'R');

    must(CharityContract::donate(&mut env, donor, 500_000_u128));
    let pid = must(CharityContract::create_proposal(
        &mut env,
        admin_a,
        recipient,
        100_000_u128,
        text("test"),
    ));
    must(CharityContract::approve_proposal(&mut env, donor, pid));
}

#[test]
#[should_panic(expected = "proposal_not_pending")]
fn test_approve_executed_rejected() {
    let (mut env, admin_a, admin_b, admin_c, donor) = setup();
    let recipient = address(b'R');

    must(CharityContract::donate(&mut env, donor, 1_000_000_u128));
    let pid = must(CharityContract::create_proposal(
        &mut env,
        admin_a,
        recipient,
        500_000_u128,
        text("test"),
    ));
    must(CharityContract::approve_proposal(&mut env, admin_b, pid));

    must(CharityContract::approve_proposal(&mut env, admin_c, pid));
}

#[test]
#[should_panic(expected = "insufficient_funds")]
fn test_proposal_exceeds_balance() {
    let (mut env, admin_a, _b, _c, donor) = setup();
    let recipient = address(b'R');

    must(CharityContract::donate(&mut env, donor, 100_u128));
    must(CharityContract::create_proposal(
        &mut env,
        admin_a,
        recipient,
        999_u128,
        text("over_budget"),
    ));
}

#[test]
fn test_proposer_can_cancel() {
    let (mut env, admin_a, _b, _c, donor) = setup();
    let recipient = address(b'R');

    must(CharityContract::donate(&mut env, donor, 500_000_u128));
    let pid = must(CharityContract::create_proposal(
        &mut env,
        admin_a,
        recipient,
        200_000_u128,
        text("cancel_me"),
    ));
    must(CharityContract::cancel_proposal(&mut env, admin_a, pid));

    assert_eq!(
        must(CharityContract::get_proposal(&env, pid)).status,
        ProposalStatus::Cancelled
    );
    assert_eq!(CharityContract::get_total_funds(&env), 500_000_u128);
}

#[test]
fn test_multiple_proposals_independent() {
    let (mut env, admin_a, admin_b, _c, donor) = setup();
    let r1 = address(b'R');
    let r2 = address(b'S');

    must(CharityContract::donate(&mut env, donor, 2_000_000_u128));

    let pid0 = must(CharityContract::create_proposal(
        &mut env,
        admin_a,
        r1,
        300_000_u128,
        text("project_A"),
    ));
    let pid1 = must(CharityContract::create_proposal(
        &mut env,
        admin_b,
        r2,
        500_000_u128,
        text("project_B"),
    ));

    must(CharityContract::approve_proposal(&mut env, admin_b, pid0));
    must(CharityContract::approve_proposal(&mut env, admin_a, pid1));

    assert_eq!(CharityContract::get_total_funds(&env), 1_200_000_u128);
    assert_eq!(
        must(CharityContract::get_proposal(&env, pid0)).status,
        ProposalStatus::Executed
    );
    assert_eq!(
        must(CharityContract::get_proposal(&env, pid1)).status,
        ProposalStatus::Executed
    );
}

#[test]
fn test_get_admins_returns_three() {
    let (env, _a, _b, _c, _d) = setup();
    assert_eq!(must(CharityContract::get_admins(&env)).len(), 3);
}
