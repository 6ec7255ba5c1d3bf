//! The functional model of the marketplace: an abstract state, one step
//! function per operation, and the invariant every reachable state obeys.
//! The executable operations in [`crate::escrow`] are each proved to agree
//! with their step function exactly, result and state alike.

use crate::custody::{balance_in, CustodyAccount};
use crate::errors::EscrowError;
use crate::job::{nonce_for, Job, JobStatus};
use vstd::prelude::*;

verus! {

/// The abstract state of the whole marketplace: the persisted job records,
/// the custody sub-account of each job, and the external balance ledger.
#[verifier::ext_equal]
pub ghost struct MarketView {
    pub jobs: Map<u64, Job>,
    pub custody: Map<u64, CustodyAccount>,
    pub balances: Map<u64, u64>,
}

/// One record, taken together with its custody sub-account, is consistent:
/// the stored key and nonces agree, the freelancer slot is empty exactly in
/// the `Created` status, and the custodied balance equals the job's amount
/// until a transfer-out empties it.
pub open spec fn record_ok(v: MarketView, id: u64) -> bool {
    let r = v.jobs[id];
    let c = v.custody[id];
    &&& r.job_id == id
    &&& (r.freelancer is None <==> r.status == JobStatus::Created)
    &&& r.custody_nonce == nonce_for(id)
    &&& c.nonce == nonce_for(id)
    &&& (r.status != JobStatus::Completed ==> c.amount == r.amount)
    &&& (c.amount == r.amount || c.amount == 0)
}

/// The invariant every reachable marketplace state satisfies: jobs and
/// custody sub-accounts exist for exactly the same identifiers, and every
/// record is consistent.
pub open spec fn market_inv(v: MarketView) -> bool {
    &&& forall|id: u64| #[trigger] v.jobs.contains_key(id) ==> v.custody.contains_key(id)
    &&& forall|id: u64| #[trigger] v.custody.contains_key(id) ==> v.jobs.contains_key(id)
    &&& forall|id: u64| #[trigger] v.jobs.contains_key(id) ==> record_ok(v, id)
}

/// One requested operation, with its caller's identity and its arguments.
pub enum Op {
    CreateJob { caller: u64, job_id: u64, amount: u64, client_external_address: [u8; 20] },
    AssignFreelancer { caller: u64, job_id: u64, freelancer: u64 },
    SubmitWork { caller: u64, job_id: u64 },
    InitiateDispute { caller: u64, job_id: u64 },
    ReleasePayment { caller: u64, job_id: u64 },
    ResolveDispute { caller: u64, job_id: u64, verdict: u8 },
}

/// The job identifier an operation addresses.
pub open spec fn op_job_id(op: Op) -> u64 {
    match op {
        Op::CreateJob { job_id, .. } => job_id,
        Op::AssignFreelancer { job_id, .. } => job_id,
        Op::SubmitWork { job_id, .. } => job_id,
        Op::InitiateDispute { job_id, .. } => job_id,
        Op::ReleasePayment { job_id, .. } => job_id,
        Op::ResolveDispute { job_id, .. } => job_id,
    }
}

/// Create a job: persist a fresh record and custody `amount` out of the
/// caller's external balance. The caller is the client. Fails when a record
/// already exists for `job_id`, or when the caller's balance is short.
pub open spec fn create_step(
    v: MarketView,
    caller: u64,
    job_id: u64,
    amount: u64,
    client_external_address: [u8; 20],
) -> (MarketView, Result<(), EscrowError>) {
    if v.jobs.contains_key(job_id) {
        (v, Err(EscrowError::AlreadyExists))
    } else if balance_in(v.balances, caller) < amount {
        (v, Err(EscrowError::TransferFailed))
    } else {
        let record = Job {
            job_id: job_id,
            client: caller,
            freelancer: None,
            client_external_address: client_external_address,
            amount: amount,
            status: JobStatus::Created,
            custody_nonce: nonce_for(job_id),
        };
        (
            MarketView {
                jobs: v.jobs.insert(job_id, record),
                custody: v.custody.insert(
                    job_id,
                    CustodyAccount { amount: amount, nonce: nonce_for(job_id) },
                ),
                balances: v.balances.insert(
                    caller,
                    (balance_in(v.balances, caller) - amount) as u64,
                ),
            },
            Ok(()),
        )
    }
}

/// Assign a freelancer. Only the job's client may, only in the `Created`
/// status, and only while the freelancer slot is still empty.
pub open spec fn assign_step(v: MarketView, caller: u64, job_id: u64, freelancer: u64) -> (
    MarketView,
    Result<(), EscrowError>,
) {
    if !v.jobs.contains_key(job_id) {
        (v, Err(EscrowError::NotFound))
    } else {
        let r = v.jobs[job_id];
        if caller != r.client {
            (v, Err(EscrowError::Unauthorized))
        } else if r.status != JobStatus::Created {
            (v, Err(EscrowError::InvalidStatus))
        } else if r.freelancer is Some {
            (v, Err(EscrowError::AlreadyAssigned))
        } else {
            let updated = Job {
                job_id: r.job_id,
                client: r.client,
                freelancer: Some(freelancer),
                client_external_address: r.client_external_address,
                amount: r.amount,
                status: JobStatus::Ongoing,
                custody_nonce: r.custody_nonce,
            };
            (MarketView { jobs: v.jobs.insert(job_id, updated), ..v }, Ok(()))
        }
    }
}

/// Submit work for review. Only the assigned freelancer may, and only in the
/// `Ongoing` status.
pub open spec fn submit_step(v: MarketView, caller: u64, job_id: u64) -> (
    MarketView,
    Result<(), EscrowError>,
) {
    if !v.jobs.contains_key(job_id) {
        (v, Err(EscrowError::NotFound))
    } else {
        let r = v.jobs[job_id];
        if r.freelancer != Some(caller) {
            (v, Err(EscrowError::Unauthorized))
        } else if r.status != JobStatus::Ongoing {
            (v, Err(EscrowError::InvalidStatus))
        } else {
            let updated = Job { status: JobStatus::Submitted, ..r };
            (MarketView { jobs: v.jobs.insert(job_id, updated), ..v }, Ok(()))
        }
    }
}

/// Flag a job as disputed. Any already-authenticated caller may: arbitration
/// is driven by an external authority whose verification is outside this
/// core. Allowed from `Ongoing` or `Submitted`.
pub open spec fn dispute_step(v: MarketView, caller: u64, job_id: u64) -> (
    MarketView,
    Result<(), EscrowError>,
) {
    if !v.jobs.contains_key(job_id) {
        (v, Err(EscrowError::NotFound))
    } else {
        let r = v.jobs[job_id];
        if r.status != JobStatus::Ongoing && r.status != JobStatus::Submitted {
            (v, Err(EscrowError::InvalidStatus))
        } else {
            let updated = Job { status: JobStatus::Disputed, ..r };
            (MarketView { jobs: v.jobs.insert(job_id, updated), ..v }, Ok(()))
        }
    }
}

/// Release the custodied amount to the freelancer and complete the job. Only
/// the client may, from `Ongoing` or `Submitted`. A failure of the transfer
/// itself leaves everything, the status included, unchanged.
pub open spec fn release_step(v: MarketView, caller: u64, job_id: u64) -> (
    MarketView,
    Result<(), EscrowError>,
) {
    if !v.jobs.contains_key(job_id) {
        (v, Err(EscrowError::NotFound))
    } else {
        let r = v.jobs[job_id];
        if caller != r.client {
            (v, Err(EscrowError::Unauthorized))
        } else if r.status != JobStatus::Ongoing && r.status != JobStatus::Submitted {
            (v, Err(EscrowError::InvalidStatus))
        } else {
            pay_out(v, job_id, r.freelancer.unwrap())
        }
    }
}

/// Close a disputed job by an arbitration outcome: one value refunds the
/// client, another pays the freelancer. Whoever calls is taken to be the
/// arbiter; establishing that identity is the surrounding system's job, so
/// no identity check happens here. Every other verdict value moves nothing
/// and still completes the job, leaving the custodied balance unreachable:
/// a known defect of this design, kept as it is and flagged rather than
/// silently repaired.
pub open spec fn resolve_step(v: MarketView, caller: u64, job_id: u64, verdict: u8) -> (
    MarketView,
    Result<(), EscrowError>,
) {
    if !v.jobs.contains_key(job_id) {
        (v, Err(EscrowError::NotFound))
    } else {
        let r = v.jobs[job_id];
        if r.status != JobStatus::Disputed {
            (v, Err(EscrowError::InvalidStatus))
        } else if verdict == VERDICT_REFUND_CLIENT {
            pay_out(v, job_id, r.client)
        } else if verdict == VERDICT_PAY_FREELANCER {
            pay_out(v, job_id, r.freelancer.unwrap())
        } else {
            let updated = Job { status: JobStatus::Completed, ..r };
            (MarketView { jobs: v.jobs.insert(job_id, updated), ..v }, Ok(()))
        }
    }
}

/// The verdict value that refunds the custodied amount to the client.
pub const VERDICT_REFUND_CLIENT: u8 = 0;

/// The verdict value that pays the custodied amount to the freelancer.
pub const VERDICT_PAY_FREELANCER: u8 = 1;

/// The common transfer-out tail of the two completing transitions that move
/// funds: empty the job's custody sub-account into `recipient`'s external
/// balance and mark the job `Completed`; on a failed transfer, change
/// nothing.
pub open spec fn pay_out(v: MarketView, job_id: u64, recipient: u64) -> (
    MarketView,
    Result<(), EscrowError>,
) {
    let r = v.jobs[job_id];
    let c = v.custody[job_id];
    if c.amount <= u64::MAX - balance_in(v.balances, recipient) {
        let updated = Job { status: JobStatus::Completed, ..r };
        (
            MarketView {
                jobs: v.jobs.insert(job_id, updated),
                custody: v.custody.insert(job_id, CustodyAccount { amount: 0, nonce: c.nonce }),
                balances: v.balances.insert(
                    recipient,
                    (balance_in(v.balances, recipient) + c.amount) as u64,
                ),
            },
            Ok(()),
        )
    } else {
        (v, Err(EscrowError::TransferFailed))
    }
}

/// The outcome of any one operation: the state after it and its result.
pub open spec fn step(v: MarketView, op: Op) -> (MarketView, Result<(), EscrowError>) {
    match op {
        Op::CreateJob { caller, job_id, amount, client_external_address } => create_step(
            v,
            caller,
            job_id,
            amount,
            client_external_address,
        ),
        Op::AssignFreelancer { caller, job_id, freelancer } => assign_step(
            v,
            caller,
            job_id,
            freelancer,
        ),
        Op::SubmitWork { caller, job_id } => submit_step(v, caller, job_id),
        Op::InitiateDispute { caller, job_id } => dispute_step(v, caller, job_id),
        Op::ReleasePayment { caller, job_id } => release_step(v, caller, job_id),
        Op::ResolveDispute { caller, job_id, verdict } => resolve_step(v, caller, job_id, verdict),
    }
}

} // verus!
