use polylance::errors::EscrowError;
use polylance::escrow::EscrowStateMachine;
use polylance::job::JobStatus;

const CLIENT: u64 = 7;
const FREELANCER: u64 = 9;
const OUTSIDER: u64 = 5;
const ADDR: [u8; 20] = [1u8; 20];

fn funded_market() -> EscrowStateMachine {
    let mut m = EscrowStateMachine::new();
    assert_eq!(m.fund(CLIENT, 1_000), Ok(()));
    m
}

fn market_with_job() -> EscrowStateMachine {
    let mut m = funded_market();
    assert_eq!(m.create_job(CLIENT, 1, 100, ADDR), Ok(()));
    m
}

#[test]
fn scenario_release_pays_freelancer() {
    let mut m = market_with_job();
    assert_eq!(m.assign_freelancer(CLIENT, 1, FREELANCER), Ok(()));
    assert_eq!(m.submit_work(FREELANCER, 1), Ok(()));
    assert_eq!(m.release_payment(CLIENT, 1), Ok(()));
    let job = m.get_job(1).unwrap();
    assert_eq!(job.status, JobStatus::Completed);
    assert_eq!(m.custodied(1), 0);
    assert_eq!(m.balance_of(FREELANCER), 100);
    assert_eq!(m.balance_of(CLIENT), 900);
}

#[test]
fn scenario_dispute_refunds_client() {
    let mut m = market_with_job();
    assert_eq!(m.assign_freelancer(CLIENT, 1, FREELANCER), Ok(()));
    assert_eq!(m.submit_work(FREELANCER, 1), Ok(()));
    assert_eq!(m.initiate_dispute(FREELANCER, 1), Ok(()));
    assert_eq!(m.resolve_dispute(OUTSIDER, 1, 0), Ok(()));
    let job = m.get_job(1).unwrap();
    assert_eq!(job.status, JobStatus::Completed);
    assert_eq!(m.custodied(1), 0);
    assert_eq!(m.balance_of(CLIENT), 1_000);
    assert_eq!(m.balance_of(FREELANCER), 0);
}

#[test]
fn scenario_dispute_pays_freelancer() {
    let mut m = market_with_job();
    assert_eq!(m.assign_freelancer(CLIENT, 1, FREELANCER), Ok(()));
    assert_eq!(m.initiate_dispute(CLIENT, 1), Ok(()));
    assert_eq!(m.resolve_dispute(OUTSIDER, 1, 1), Ok(()));
    let job = m.get_job(1).unwrap();
    assert_eq!(job.status, JobStatus::Completed);
    assert_eq!(m.custodied(1), 0);
    assert_eq!(m.balance_of(FREELANCER), 100);
    assert_eq!(m.balance_of(CLIENT), 900);
}

#[test]
fn scenario_unknown_verdict_strands_funds() {
    let mut m = market_with_job();
    assert_eq!(m.assign_freelancer(CLIENT, 1, FREELANCER), Ok(()));
    assert_eq!(m.submit_work(FREELANCER, 1), Ok(()));
    assert_eq!(m.initiate_dispute(CLIENT, 1), Ok(()));
    assert_eq!(m.resolve_dispute(OUTSIDER, 1, 2), Ok(()));
    let job = m.get_job(1).unwrap();
    assert_eq!(job.status, JobStatus::Completed);
    assert_eq!(m.custodied(1), 100);
    assert_eq!(m.balance_of(CLIENT), 900);
    assert_eq!(m.balance_of(FREELANCER), 0);
}

#[test]
fn create_twice_fails_and_keeps_first_record() {
    let mut m = market_with_job();
    assert_eq!(m.create_job(OUTSIDER, 1, 5, [2u8; 20]), Err(EscrowError::AlreadyExists));
    let job = m.get_job(1).unwrap();
    assert_eq!(job.client, CLIENT);
    assert_eq!(job.amount, 100);
    assert_eq!(job.client_external_address, ADDR);
    assert_eq!(job.status, JobStatus::Created);
    assert_eq!(m.custodied(1), 100);
}

#[test]
fn create_without_funds_fails_without_a_record() {
    let mut m = EscrowStateMachine::new();
    assert_eq!(m.create_job(CLIENT, 1, 100, ADDR), Err(EscrowError::TransferFailed));
    assert_eq!(m.get_job(1), Err(EscrowError::NotFound));
    assert_eq!(m.custodied(1), 0);
}

#[test]
fn create_records_the_parties_and_the_amount() {
    let m = market_with_job();
    let job = m.get_job(1).unwrap();
    assert_eq!(job.job_id, 1);
    assert_eq!(job.client, CLIENT);
    assert_eq!(job.freelancer, None);
    assert_eq!(job.amount, 100);
    assert_eq!(job.client_external_address, ADDR);
    assert_eq!(job.status, JobStatus::Created);
    assert_eq!(m.balance_of(CLIENT), 900);
    assert_eq!(m.custodied(1), 100);
}

#[test]
fn assign_sets_freelancer_and_status() {
    let mut m = market_with_job();
    assert_eq!(m.assign_freelancer(CLIENT, 1, FREELANCER), Ok(()));
    let job = m.get_job(1).unwrap();
    assert_eq!(job.freelancer, Some(FREELANCER));
    assert_eq!(job.status, JobStatus::Ongoing);
}

#[test]
fn assign_twice_fails_even_with_another_freelancer() {
    let mut m = market_with_job();
    assert_eq!(m.assign_freelancer(CLIENT, 1, FREELANCER), Ok(()));
    assert_eq!(m.assign_freelancer(CLIENT, 1, OUTSIDER), Err(EscrowError::InvalidStatus));
    let job = m.get_job(1).unwrap();
    assert_eq!(job.freelancer, Some(FREELANCER));
    assert_eq!(job.status, JobStatus::Ongoing);
}

#[test]
fn only_the_client_assigns() {
    let mut m = market_with_job();
    assert_eq!(m.assign_freelancer(OUTSIDER, 1, FREELANCER), Err(EscrowError::Unauthorized));
    let job = m.get_job(1).unwrap();
    assert_eq!(job.freelancer, None);
    assert_eq!(job.status, JobStatus::Created);
}

#[test]
fn only_the_freelancer_submits() {
    let mut m = market_with_job();
    assert_eq!(m.assign_freelancer(CLIENT, 1, FREELANCER), Ok(()));
    assert_eq!(m.submit_work(CLIENT, 1), Err(EscrowError::Unauthorized));
    assert_eq!(m.submit_work(OUTSIDER, 1), Err(EscrowError::Unauthorized));
    assert_eq!(m.get_job(1).unwrap().status, JobStatus::Ongoing);
}

#[test]
fn nobody_submits_before_assignment() {
    let mut m = market_with_job();
    assert_eq!(m.submit_work(CLIENT, 1), Err(EscrowError::Unauthorized));
    assert_eq!(m.get_job(1).unwrap().status, JobStatus::Created);
}

#[test]
fn only_the_client_releases() {
    let mut m = market_with_job();
    assert_eq!(m.assign_freelancer(CLIENT, 1, FREELANCER), Ok(()));
    assert_eq!(m.release_payment(FREELANCER, 1), Err(EscrowError::Unauthorized));
    assert_eq!(m.release_payment(OUTSIDER, 1), Err(EscrowError::Unauthorized));
    assert_eq!(m.get_job(1).unwrap().status, JobStatus::Ongoing);
    assert_eq!(m.custodied(1), 100);
}

#[test]
fn transitions_from_wrong_status_fail() {
    let mut m = market_with_job();
    // from Created
    assert_eq!(m.submit_work(CLIENT, 1), Err(EscrowError::Unauthorized));
    assert_eq!(m.initiate_dispute(CLIENT, 1), Err(EscrowError::InvalidStatus));
    assert_eq!(m.release_payment(CLIENT, 1), Err(EscrowError::InvalidStatus));
    assert_eq!(m.resolve_dispute(OUTSIDER, 1, 0), Err(EscrowError::InvalidStatus));
    assert_eq!(m.get_job(1).unwrap().status, JobStatus::Created);
    // from Ongoing
    assert_eq!(m.assign_freelancer(CLIENT, 1, FREELANCER), Ok(()));
    assert_eq!(m.assign_freelancer(CLIENT, 1, FREELANCER), Err(EscrowError::InvalidStatus));
    assert_eq!(m.resolve_dispute(OUTSIDER, 1, 0), Err(EscrowError::InvalidStatus));
    // from Submitted
    assert_eq!(m.submit_work(FREELANCER, 1), Ok(()));
    assert_eq!(m.submit_work(FREELANCER, 1), Err(EscrowError::InvalidStatus));
    assert_eq!(m.resolve_dispute(OUTSIDER, 1, 0), Err(EscrowError::InvalidStatus));
    assert_eq!(m.get_job(1).unwrap().status, JobStatus::Submitted);
}

#[test]
fn completed_is_terminal() {
    let mut m = market_with_job();
    assert_eq!(m.assign_freelancer(CLIENT, 1, FREELANCER), Ok(()));
    assert_eq!(m.release_payment(CLIENT, 1), Ok(()));
    assert_eq!(m.assign_freelancer(CLIENT, 1, OUTSIDER), Err(EscrowError::InvalidStatus));
    assert_eq!(m.submit_work(FREELANCER, 1), Err(EscrowError::InvalidStatus));
    assert_eq!(m.initiate_dispute(CLIENT, 1), Err(EscrowError::InvalidStatus));
    assert_eq!(m.release_payment(CLIENT, 1), Err(EscrowError::InvalidStatus));
    assert_eq!(m.resolve_dispute(OUTSIDER, 1, 1), Err(EscrowError::InvalidStatus));
    assert_eq!(m.get_job(1).unwrap().status, JobStatus::Completed);
}

#[test]
fn disputed_is_reachable_from_ongoing_and_submitted() {
    let mut m = funded_market();
    assert_eq!(m.create_job(CLIENT, 1, 100, ADDR), Ok(()));
    assert_eq!(m.create_job(CLIENT, 2, 100, ADDR), Ok(()));
    assert_eq!(m.assign_freelancer(CLIENT, 1, FREELANCER), Ok(()));
    assert_eq!(m.initiate_dispute(OUTSIDER, 1), Ok(()));
    assert_eq!(m.get_job(1).unwrap().status, JobStatus::Disputed);
    assert_eq!(m.assign_freelancer(CLIENT, 2, FREELANCER), Ok(()));
    assert_eq!(m.submit_work(FREELANCER, 2), Ok(()));
    assert_eq!(m.initiate_dispute(FREELANCER, 2), Ok(()));
    assert_eq!(m.get_job(2).unwrap().status, JobStatus::Disputed);
}

#[test]
fn every_operation_on_an_unknown_job_fails_not_found() {
    let mut m = funded_market();
    assert_eq!(m.assign_freelancer(CLIENT, 3, FREELANCER), Err(EscrowError::NotFound));
    assert_eq!(m.submit_work(FREELANCER, 3), Err(EscrowError::NotFound));
    assert_eq!(m.initiate_dispute(CLIENT, 3), Err(EscrowError::NotFound));
    assert_eq!(m.release_payment(CLIENT, 3), Err(EscrowError::NotFound));
    assert_eq!(m.resolve_dispute(OUTSIDER, 3, 0), Err(EscrowError::NotFound));
    assert_eq!(m.get_job(3), Err(EscrowError::NotFound));
}

#[test]
fn custody_equals_amount_until_completion() {
    let mut m = market_with_job();
    assert_eq!(m.custodied(1), 100);
    assert_eq!(m.assign_freelancer(CLIENT, 1, FREELANCER), Ok(()));
    assert_eq!(m.custodied(1), 100);
    assert_eq!(m.submit_work(FREELANCER, 1), Ok(()));
    assert_eq!(m.custodied(1), 100);
    assert_eq!(m.initiate_dispute(CLIENT, 1), Ok(()));
    assert_eq!(m.custodied(1), 100);
    assert_eq!(m.resolve_dispute(OUTSIDER, 1, 1), Ok(()));
    assert_eq!(m.custodied(1), 0);
}

#[test]
fn a_failed_transfer_leaves_everything_unchanged() {
    let mut m = market_with_job();
    assert_eq!(m.assign_freelancer(CLIENT, 1, FREELANCER), Ok(()));
    assert_eq!(m.submit_work(FREELANCER, 1), Ok(()));
    // the freelancer's balance cannot take the payment
    assert_eq!(m.fund(FREELANCER, u64::MAX), Ok(()));
    assert_eq!(m.release_payment(CLIENT, 1), Err(EscrowError::TransferFailed));
    assert_eq!(m.get_job(1).unwrap().status, JobStatus::Submitted);
    assert_eq!(m.custodied(1), 100);
    assert_eq!(m.balance_of(FREELANCER), u64::MAX);
}

#[test]
fn funding_cannot_overflow_a_balance() {
    let mut m = EscrowStateMachine::new();
    assert_eq!(m.fund(CLIENT, u64::MAX), Ok(()));
    assert_eq!(m.fund(CLIENT, 1), Err(EscrowError::TransferFailed));
    assert_eq!(m.balance_of(CLIENT), u64::MAX);
}

#[test]
fn jobs_are_independent() {
    let mut m = funded_market();
    assert_eq!(m.create_job(CLIENT, 1, 100, ADDR), Ok(()));
    assert_eq!(m.create_job(CLIENT, 2, 300, ADDR), Ok(()));
    assert_eq!(m.assign_freelancer(CLIENT, 2, FREELANCER), Ok(()));
    assert_eq!(m.release_payment(CLIENT, 2), Ok(()));
    assert_eq!(m.get_job(1).unwrap().status, JobStatus::Created);
    assert_eq!(m.get_job(2).unwrap().status, JobStatus::Completed);
    assert_eq!(m.custodied(1), 100);
    assert_eq!(m.custodied(2), 0);
    assert_eq!(m.balance_of(FREELANCER), 300);
    assert_eq!(m.balance_of(CLIENT), 600);
}
