use polylance::custody::FundCustodian;
use polylance::errors::EscrowError;
use polylance::job::{Job, JobStatus};
use polylance::store::JobStore;
use polylance::table::Table;

fn sample_job(job_id: u64) -> Job {
    Job {
        job_id,
        client: 7,
        freelancer: None,
        client_external_address: [3u8; 20],
        amount: 42,
        status: JobStatus::Created,
        custody_nonce: 1,
    }
}

#[test]
fn table_get_returns_the_latest_binding() {
    let mut t: Table<u64> = Table::new();
    assert_eq!(t.get(1), None);
    t.set(1, 10);
    t.set(2, 20);
    assert_eq!(t.get(1), Some(10));
    assert_eq!(t.get(2), Some(20));
    t.set(1, 11);
    assert_eq!(t.get(1), Some(11));
    assert_eq!(t.get(2), Some(20));
    assert_eq!(t.get(3), None);
}

#[test]
fn store_creates_each_key_once() {
    let mut s = JobStore::new();
    assert_eq!(s.create(1, sample_job(1)), Ok(()));
    assert_eq!(s.create(1, sample_job(1)), Err(EscrowError::AlreadyExists));
    let record = s.get(1).unwrap();
    assert_eq!(record.job_id, 1);
    assert_eq!(record.client, 7);
    assert_eq!(record.amount, 42);
    assert_eq!(s.get(2), Err(EscrowError::NotFound));
}

#[test]
fn custodian_tracks_external_balances() {
    let mut c = FundCustodian::new();
    assert_eq!(c.balance_of(7), 0);
    assert_eq!(c.fund(7, 30), Ok(()));
    assert_eq!(c.fund(7, 12), Ok(()));
    assert_eq!(c.balance_of(7), 42);
    assert_eq!(c.balance_of(8), 0);
    assert_eq!(c.custodied(1), 0);
}
