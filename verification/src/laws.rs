//! The guarantees the marketplace gives, stated over the functional model
//! of [`crate::model`] and proved once and for all. Because every
//! executable operation agrees exactly with its step function, each law
//! here is a law of the running code too.

use crate::custody::{balance_in, custody_in};
use crate::errors::EscrowError;
use crate::job::{edge_allowed, Job, JobStatus};
use crate::model::{
    assign_step, create_step, dispute_step, market_inv, op_job_id, pay_out, record_ok,
    release_step, resolve_step, step, submit_step, MarketView, Op, VERDICT_PAY_FREELANCER,
    VERDICT_REFUND_CLIENT,
};
use vstd::prelude::*;

verus! {

/// Replacing one record, without touching its key, nonce or amount and
/// keeping the freelancer slot consistent with the status, preserves the
/// marketplace invariant.
proof fn lemma_update_keeps_inv(v: MarketView, v2: MarketView, id: u64, updated: Job)
    requires
        market_inv(v),
        v.jobs.contains_key(id),
        v.jobs[id].status != JobStatus::Completed,
        updated.job_id == id,
        updated.custody_nonce == v.jobs[id].custody_nonce,
        updated.amount == v.jobs[id].amount,
        (updated.freelancer is None <==> updated.status == JobStatus::Created),
        v2.jobs == v.jobs.insert(id, updated),
        v2.custody == v.custody,
    ensures
        market_inv(v2),
{
    assert(record_ok(v, id));
    assert forall|k: u64| #[trigger] v2.jobs.contains_key(k) implies v2.custody.contains_key(
        k,
    ) by {
        if k != id {
            assert(v.jobs.contains_key(k));
        }
    }
    assert forall|k: u64| #[trigger] v2.custody.contains_key(k) implies v2.jobs.contains_key(
        k,
    ) by {
        assert(v.jobs.contains_key(k));
    }
    assert forall|k: u64| #[trigger] v2.jobs.contains_key(k) implies record_ok(v2, k) by {
        if k != id {
            assert(v.jobs.contains_key(k));
            assert(record_ok(v, k));
            assert(v2.jobs[k] == v.jobs[k]);
        }
    }
}

/// Creating a fresh record together with its custody sub-account preserves
/// the marketplace invariant.
proof fn lemma_create_keeps_inv(
    v: MarketView,
    caller: u64,
    job_id: u64,
    amount: u64,
    client_external_address: [u8; 20],
)
    requires
        market_inv(v),
    ensures
        market_inv(create_step(v, caller, job_id, amount, client_external_address).0),
{
    if !v.jobs.contains_key(job_id) && balance_in(v.balances, caller) >= amount {
        let v2 = create_step(v, caller, job_id, amount, client_external_address).0;
        assert forall|k: u64| #[trigger] v2.jobs.contains_key(k) implies v2.custody.contains_key(
            k,
        ) by {
            if k != job_id {
                assert(v.jobs.contains_key(k));
            }
        }
        assert forall|k: u64| #[trigger] v2.custody.contains_key(k) implies v2.jobs.contains_key(
            k,
        ) by {
            if k != job_id {
                assert(v.custody.contains_key(k));
            }
        }
        assert forall|k: u64| #[trigger] v2.jobs.contains_key(k) implies record_ok(v2, k) by {
            if k != job_id {
                assert(v.jobs.contains_key(k));
                assert(record_ok(v, k));
                assert(v2.jobs[k] == v.jobs[k]);
                assert(v2.custody[k] == v.custody[k]);
            }
        }
    }
}

/// Emptying a job's custody sub-account into some recipient's balance while
/// completing the job preserves the marketplace invariant.
proof fn lemma_pay_out_keeps_inv(v: MarketView, id: u64, recipient: u64)
    requires
        market_inv(v),
        v.jobs.contains_key(id),
        v.jobs[id].status != JobStatus::Completed,
        v.jobs[id].status != JobStatus::Created,
    ensures
        market_inv(pay_out(v, id, recipient).0),
{
    assert(record_ok(v, id));
    let v2 = pay_out(v, id, recipient).0;
    if v.custody[id].amount <= u64::MAX - balance_in(v.balances, recipient) {
        assert forall|k: u64| #[trigger] v2.jobs.contains_key(k) implies v2.custody.contains_key(
            k,
        ) by {
            if k != id {
                assert(v.jobs.contains_key(k));
            }
        }
        assert forall|k: u64| #[trigger] v2.custody.contains_key(k) implies v2.jobs.contains_key(
            k,
        ) by {
            if k != id {
                assert(v.custody.contains_key(k));
            }
        }
        assert forall|k: u64| #[trigger] v2.jobs.contains_key(k) implies record_ok(v2, k) by {
            if k != id {
                assert(v.jobs.contains_key(k));
                assert(record_ok(v, k));
                assert(v2.jobs[k] == v.jobs[k]);
                assert(v2.custody[k] == v.custody[k]);
            }
        }
    }
}

/// Every operation preserves the marketplace invariant: from a consistent
/// state, each of the six operations leads to a consistent state again.
pub proof fn lemma_step_preserves_inv(v: MarketView, op: Op)
    requires
        market_inv(v),
    ensures
        market_inv(step(v, op).0),
{
    match op {
        Op::CreateJob { caller, job_id, amount, client_external_address } => {
            lemma_create_keeps_inv(v, caller, job_id, amount, client_external_address);
        },
        Op::AssignFreelancer { caller, job_id, freelancer } => {
            if v.jobs.contains_key(job_id) && caller == v.jobs[job_id].client
                && v.jobs[job_id].status == JobStatus::Created && v.jobs[job_id].freelancer
                is None {
                let v2 = assign_step(v, caller, job_id, freelancer).0;
                lemma_update_keeps_inv(v, v2, job_id, v2.jobs[job_id]);
            }
        },
        Op::SubmitWork { caller, job_id } => {
            if v.jobs.contains_key(job_id) && v.jobs[job_id].freelancer == Some(caller)
                && v.jobs[job_id].status == JobStatus::Ongoing {
                let v2 = submit_step(v, caller, job_id).0;
                assert(record_ok(v, job_id));
                lemma_update_keeps_inv(v, v2, job_id, v2.jobs[job_id]);
            }
        },
        Op::InitiateDispute { caller, job_id } => {
            if v.jobs.contains_key(job_id) && (v.jobs[job_id].status == JobStatus::Ongoing
                || v.jobs[job_id].status == JobStatus::Submitted) {
                let v2 = dispute_step(v, caller, job_id).0;
                assert(record_ok(v, job_id));
                lemma_update_keeps_inv(v, v2, job_id, v2.jobs[job_id]);
            }
        },
        Op::ReleasePayment { caller, job_id } => {
            if v.jobs.contains_key(job_id) && caller == v.jobs[job_id].client && (
            v.jobs[job_id].status == JobStatus::Ongoing || v.jobs[job_id].status
                == JobStatus::Submitted) {
                assert(record_ok(v, job_id));
                lemma_pay_out_keeps_inv(v, job_id, v.jobs[job_id].freelancer.unwrap());
            }
        },
        Op::ResolveDispute { caller, job_id, verdict } => {
            if v.jobs.contains_key(job_id) && v.jobs[job_id].status == JobStatus::Disputed {
                assert(record_ok(v, job_id));
                if verdict == VERDICT_REFUND_CLIENT {
                    lemma_pay_out_keeps_inv(v, job_id, v.jobs[job_id].client);
                } else if verdict == VERDICT_PAY_FREELANCER {
                    lemma_pay_out_keeps_inv(v, job_id, v.jobs[job_id].freelancer.unwrap());
                } else {
                    let v2 = resolve_step(v, caller, job_id, verdict).0;
                    lemma_update_keeps_inv(v, v2, job_id, v2.jobs[job_id]);
                }
            }
        },
    }
}

/// At most one creation ever succeeds per job identifier: once a creation
/// has succeeded, any further attempt with the same identifier fails with
/// `AlreadyExists`, whatever its caller, amount or address, and leaves the
/// first record untouched.
pub proof fn lemma_create_at_most_once(
    v: MarketView,
    c1: u64,
    job_id: u64,
    a1: u64,
    x1: [u8; 20],
    c2: u64,
    a2: u64,
    x2: [u8; 20],
)
    requires
        create_step(v, c1, job_id, a1, x1).1 is Ok,
    ensures
        ({
            let v2 = create_step(v, c1, job_id, a1, x1).0;
            create_step(v2, c2, job_id, a2, x2).1 == Err::<(), EscrowError>(
                EscrowError::AlreadyExists,
            ) && create_step(v2, c2, job_id, a2, x2).0 == v2
        }),
{
}

/// An operation that fails changes nothing: no record, no custody
/// sub-account and no balance moves on any error.
pub proof fn lemma_failure_changes_nothing(v: MarketView, op: Op)
    ensures
        step(v, op).1 is Err ==> step(v, op).0 == v,
{
}

/// Status only ever moves forward: whatever operation runs, the status of
/// any existing job either stays as it is or moves along one allowed edge of
/// the lifecycle (and the record never disappears).
pub proof fn lemma_status_moves_forward(v: MarketView, op: Op, id: u64)
    requires
        v.jobs.contains_key(id),
    ensures
        step(v, op).0.jobs.contains_key(id),
        ({
            let before = v.jobs[id].status;
            let after = step(v, op).0.jobs[id].status;
            before == after || edge_allowed(before, after)
        }),
{
}

/// From a status its row of the transition table does not list, each
/// operation fails with `InvalidStatus` and changes nothing, for every
/// authorized caller: assignment outside `Created`, submission outside
/// `Ongoing`, a dispute or a release outside `Ongoing` and `Submitted`, and
/// a resolution outside `Disputed`.
pub proof fn lemma_unlisted_status_fails(
    v: MarketView,
    caller: u64,
    job_id: u64,
    freelancer: u64,
    verdict: u8,
)
    requires
        v.jobs.contains_key(job_id),
    ensures
        ({
            let r = v.jobs[job_id];
            let refused = (v, Err::<(), EscrowError>(EscrowError::InvalidStatus));
            &&& (caller == r.client && r.status != JobStatus::Created ==> assign_step(
                v,
                caller,
                job_id,
                freelancer,
            ) == refused)
            &&& (r.freelancer == Some(caller) && r.status != JobStatus::Ongoing ==> submit_step(
                v,
                caller,
                job_id,
            ) == refused)
            &&& (r.status != JobStatus::Ongoing && r.status != JobStatus::Submitted
                ==> dispute_step(v, caller, job_id) == refused)
            &&& (caller == r.client && r.status != JobStatus::Ongoing && r.status
                != JobStatus::Submitted ==> release_step(v, caller, job_id) == refused)
            &&& (r.status != JobStatus::Disputed ==> resolve_step(v, caller, job_id, verdict)
                == refused)
        }),
{
}

/// A freelancer is assigned at most once per job: after one successful
/// assignment, every further attempt fails, whatever its caller and even
/// with a different freelancer argument, and changes nothing.
pub proof fn lemma_assign_at_most_once(
    v: MarketView,
    c1: u64,
    job_id: u64,
    f1: u64,
    c2: u64,
    f2: u64,
)
    requires
        assign_step(v, c1, job_id, f1).1 is Ok,
    ensures
        ({
            let v2 = assign_step(v, c1, job_id, f1).0;
            assign_step(v2, c2, job_id, f2).1 is Err && assign_step(v2, c2, job_id, f2).0 == v2
        }),
{
}

/// Only the job's client may assign a freelancer: any other caller fails
/// with `Unauthorized` and changes nothing.
pub proof fn lemma_only_client_assigns(v: MarketView, caller: u64, job_id: u64, freelancer: u64)
    requires
        v.jobs.contains_key(job_id),
        caller != v.jobs[job_id].client,
    ensures
        assign_step(v, caller, job_id, freelancer).1 == Err::<(), EscrowError>(
            EscrowError::Unauthorized,
        ),
        assign_step(v, caller, job_id, freelancer).0 == v,
{
}

/// Only the job's client may release the payment: any other caller fails
/// with `Unauthorized` and changes nothing.
pub proof fn lemma_only_client_releases(v: MarketView, caller: u64, job_id: u64)
    requires
        v.jobs.contains_key(job_id),
        caller != v.jobs[job_id].client,
    ensures
        release_step(v, caller, job_id).1 == Err::<(), EscrowError>(EscrowError::Unauthorized),
        release_step(v, caller, job_id).0 == v,
{
}

/// Only the assigned freelancer may submit work: any other caller, and any
/// caller at all while no freelancer is assigned, fails with `Unauthorized`
/// and changes nothing.
pub proof fn lemma_only_freelancer_submits(v: MarketView, caller: u64, job_id: u64)
    requires
        v.jobs.contains_key(job_id),
        v.jobs[job_id].freelancer != Some(caller),
    ensures
        submit_step(v, caller, job_id).1 == Err::<(), EscrowError>(EscrowError::Unauthorized),
        submit_step(v, caller, job_id).0 == v,
{
}

/// Whatever operation runs, an existing record's identity never changes:
/// the key, the client, the amount, the external address and the nonce are
/// immutable, the freelancer is immutable once assigned, and the balance
/// custodied for the job never grows.
pub proof fn lemma_fields_immutable(v: MarketView, op: Op, id: u64)
    requires
        v.jobs.contains_key(id),
    ensures
        ({
            let before = v.jobs[id];
            let after = step(v, op).0.jobs[id];
            &&& after.job_id == before.job_id
            &&& after.client == before.client
            &&& after.amount == before.amount
            &&& after.client_external_address == before.client_external_address
            &&& after.custody_nonce == before.custody_nonce
            &&& (before.freelancer is Some ==> after.freelancer == before.freelancer)
            &&& custody_in(step(v, op).0.custody, id) <= custody_in(v.custody, id)
        }),
{
}

/// From creation until a completing transition, the balance custodied for a
/// job equals the job's amount.
pub proof fn lemma_custody_holds_amount(v: MarketView, id: u64)
    requires
        market_inv(v),
        v.jobs.contains_key(id),
        v.jobs[id].status != JobStatus::Completed,
    ensures
        v.custody.contains_key(id),
        v.custody[id].amount == v.jobs[id].amount,
{
    assert(record_ok(v, id));
}

/// A successful payment release completes the job, empties its custody
/// sub-account, and credits exactly the job's amount to the freelancer.
pub proof fn lemma_release_empties_custody(v: MarketView, caller: u64, job_id: u64)
    requires
        market_inv(v),
        release_step(v, caller, job_id).1 is Ok,
    ensures
        ({
            let v2 = release_step(v, caller, job_id).0;
            let f = v.jobs[job_id].freelancer.unwrap();
            &&& v2.jobs[job_id].status == JobStatus::Completed
            &&& custody_in(v2.custody, job_id) == 0
            &&& balance_in(v2.balances, f) == balance_in(v.balances, f) + v.jobs[job_id].amount
        }),
{
    assert(record_ok(v, job_id));
}

/// A successful dispute resolution that moves funds completes the job,
/// empties its custody sub-account, and credits exactly the job's amount to
/// the chosen party: the client on the refunding verdict, the freelancer on
/// the paying one.
pub proof fn lemma_resolution_empties_custody(v: MarketView, caller: u64, job_id: u64, verdict: u8)
    requires
        market_inv(v),
        verdict == VERDICT_REFUND_CLIENT || verdict == VERDICT_PAY_FREELANCER,
        resolve_step(v, caller, job_id, verdict).1 is Ok,
    ensures
        ({
            let v2 = resolve_step(v, caller, job_id, verdict).0;
            let recipient = if verdict == VERDICT_REFUND_CLIENT {
                v.jobs[job_id].client
            } else {
                v.jobs[job_id].freelancer.unwrap()
            };
            &&& v2.jobs[job_id].status == JobStatus::Completed
            &&& custody_in(v2.custody, job_id) == 0
            &&& balance_in(v2.balances, recipient) == balance_in(v.balances, recipient)
                + v.jobs[job_id].amount
        }),
{
    assert(record_ok(v, job_id));
}

/// A verdict that is neither the refunding nor the paying value still
/// completes a disputed job while moving no funds at all: the custodied
/// amount stays where it is and becomes unreachable through this interface.
/// A known defect of this design, stated here so nobody relies on those
/// funds ever moving again.
pub proof fn lemma_unknown_verdict_strands_funds(
    v: MarketView,
    caller: u64,
    job_id: u64,
    verdict: u8,
)
    requires
        verdict != VERDICT_REFUND_CLIENT,
        verdict != VERDICT_PAY_FREELANCER,
        v.jobs.contains_key(job_id),
        v.jobs[job_id].status == JobStatus::Disputed,
    ensures
        resolve_step(v, caller, job_id, verdict).1 is Ok,
        ({
            let v2 = resolve_step(v, caller, job_id, verdict).0;
            &&& v2.jobs[job_id].status == JobStatus::Completed
            &&& v2.custody == v.custody
            &&& v2.balances == v.balances
        }),
{
}

/// Every operation other than creation fails with `NotFound`, changing
/// nothing, when no record exists for the job identifier it addresses.
pub proof fn lemma_unknown_job_fails(v: MarketView, op: Op)
    requires
        !v.jobs.contains_key(op_job_id(op)),
        !(op is CreateJob),
    ensures
        step(v, op).1 == Err::<(), EscrowError>(EscrowError::NotFound),
        step(v, op).0 == v,
{
}

} // verus!
