use crate::custody::{balance_in, custody_in, CustodyAccount, FundCustodian};
use crate::errors::EscrowError;
use crate::job::{nonce_for, Job, JobStatus};
use crate::laws::lemma_step_preserves_inv;
use crate::model::{
    assign_step, create_step, dispute_step, market_inv, pay_out, record_ok, release_step,
    resolve_step, submit_step, MarketView, Op, VERDICT_PAY_FREELANCER, VERDICT_REFUND_CLIENT,
};
use crate::store::JobStore;
use vstd::prelude::*;

verus! {

/// The escrow state machine: validates and applies every status transition,
/// enforcing the caller's identity and the current status before letting the
/// custodian move any value. Each operation is all-or-nothing: it commits
/// fully, or fails with no effect.
pub struct EscrowStateMachine {
    store: JobStore,
    custodian: FundCustodian,
}

impl View for EscrowStateMachine {
    type V = MarketView;

    closed spec fn view(&self) -> MarketView {
        MarketView {
            jobs: self.store@,
            custody: self.custodian.custody_map(),
            balances: self.custodian.balances_map(),
        }
    }
}

impl EscrowStateMachine {
    /// The machine's representation is sound and its abstract state
    /// satisfies the marketplace invariant.
    pub closed spec fn wf(&self) -> bool {
        self.store.wf() && self.custodian.wf() && market_inv(self@)
    }

    /// A well-formed machine's abstract state satisfies the marketplace
    /// invariant.
    pub proof fn lemma_wf_market_inv(&self)
        requires
            self.wf(),
        ensures
            market_inv(self@),
    {
    }

    /// An empty marketplace: no jobs, no custody, no balances.
    pub fn new() -> (m: Self)
        ensures
            m.wf(),
            m@.jobs == Map::<u64, Job>::empty(),
            m@.custody == Map::<u64, CustodyAccount>::empty(),
            m@.balances == Map::<u64, u64>::empty(),
    {
        let m = EscrowStateMachine { store: JobStore::new(), custodian: FundCustodian::new() };
        proof {
            assert(market_inv(m@));
        }
        m
    }

    /// Credit `amount` to `who`'s external balance, modeling value arriving
    /// from outside the marketplace. Fails, changing nothing, exactly when
    /// the balance would overflow.
    pub fn fund(&mut self, who: u64, amount: u64) -> (r: Result<(), EscrowError>)
        requires
            old(self).wf(),
        ensures
            final(self).wf(),
            final(self)@.jobs == old(self)@.jobs,
            final(self)@.custody == old(self)@.custody,
            ({
                let b = balance_in(old(self)@.balances, who);
                if amount <= u64::MAX - b {
                    r == Ok::<(), EscrowError>(()) && final(self)@.balances == old(
                        self,
                    )@.balances.insert(who, (b + amount) as u64)
                } else {
                    r == Err::<(), EscrowError>(EscrowError::TransferFailed) && final(self)@.balances
                        == old(self)@.balances
                }
            }),
    {
        let r = self.custodian.fund(who, amount);
        proof {
            assert(self@.jobs == old(self)@.jobs);
            assert(self@.custody == old(self)@.custody);
            assert forall|k: u64| #[trigger] self@.jobs.contains_key(k) implies
                self@.custody.contains_key(k) by {
                assert(old(self)@.jobs.contains_key(k));
            }
            assert forall|k: u64| #[trigger] self@.custody.contains_key(k) implies
                self@.jobs.contains_key(k) by {
                assert(old(self)@.custody.contains_key(k));
            }
            assert forall|k: u64| #[trigger] self@.jobs.contains_key(k) implies record_ok(
                self@,
                k,
            ) by {
                assert(old(self)@.jobs.contains_key(k));
                assert(record_ok(old(self)@, k));
            }
        }
        r
    }

    /// The external balance of `who`; zero when the ledger has no entry.
    pub fn balance_of(&self, who: u64) -> (r: u64)
        requires
            self.wf(),
        ensures
            r == balance_in(self@.balances, who),
    {
        self.custodian.balance_of(who)
    }

    /// The balance custodied for `job_id`; zero when no job exists for it.
    pub fn custodied(&self, job_id: u64) -> (r: u64)
        requires
            self.wf(),
        ensures
            r == custody_in(self@.custody, job_id),
    {
        self.custodian.custodied(job_id)
    }

    /// Look the record for `job_id` up; fails exactly when none exists.
    pub fn get_job(&self, job_id: u64) -> (r: Result<Job, EscrowError>)
        requires
            self.wf(),
        ensures
            match r {
                Ok(record) => self@.jobs.contains_key(job_id) && record == self@.jobs[job_id],
                Err(e) => !self@.jobs.contains_key(job_id) && e == EscrowError::NotFound,
            },
    {
        self.store.get(job_id)
    }

    /// Create a new job escrow: the caller becomes the client, a fresh
    /// record is persisted under `job_id`, and `amount` moves from the
    /// caller's external balance into the job's custody sub-account.
    pub fn create_job(
        &mut self,
        caller: u64,
        job_id: u64,
        amount: u64,
        client_external_address: [u8; 20],
    ) -> (r: Result<(), EscrowError>)
        requires
            old(self).wf(),
        ensures
            final(self).wf(),
            r == create_step(old(self)@, caller, job_id, amount, client_external_address).1,
            final(self)@ == create_step(old(self)@, caller, job_id, amount, client_external_address).0,
    {
        proof {
            lemma_step_preserves_inv(
                old(self)@,
                Op::CreateJob { caller, job_id, amount, client_external_address },
            );
        }
        match self.store.get(job_id) {
            Ok(_) => Err(EscrowError::AlreadyExists),
            Err(_) => {
                proof {
                    assert(!old(self)@.custody.contains_key(job_id));
                }
                let nonce = (job_id % 256) as u8;
                proof {
                    assert(nonce == nonce_for(job_id));
                }
                match self.custodian.deposit(job_id, caller, amount, nonce) {
                    Err(e) => Err(e),
                    Ok(_) => {
                        let record = Job {
                            job_id,
                            client: caller,
                            freelancer: None,
                            client_external_address,
                            amount,
                            status: JobStatus::Created,
                            custody_nonce: nonce,
                        };
                        match self.store.create(job_id, record) {
                            Ok(_) => Ok(()),
                            Err(e) => {
                                proof {
                                    assert(false);
                                }
                                Err(e)
                            },
                        }
                    },
                }
            },
        }
    }

    /// Assign `freelancer` to the job. Only the job's client may, only while
    /// the status is `Created`, and only while the freelancer slot is empty;
    /// the job then becomes `Ongoing`.
    pub fn assign_freelancer(&mut self, caller: u64, job_id: u64, freelancer: u64) -> (r: Result<
        (),
        EscrowError,
    >)
        requires
            old(self).wf(),
        ensures
            final(self).wf(),
            r == assign_step(old(self)@, caller, job_id, freelancer).1,
            final(self)@ == assign_step(old(self)@, caller, job_id, freelancer).0,
    {
        proof {
            lemma_step_preserves_inv(old(self)@, Op::AssignFreelancer { caller, job_id, freelancer });
        }
        match self.store.get(job_id) {
            Err(e) => Err(e),
            Ok(record) => {
                if caller != record.client {
                    Err(EscrowError::Unauthorized)
                } else if record.status != JobStatus::Created {
                    Err(EscrowError::InvalidStatus)
                } else if record.freelancer.is_some() {
                    Err(EscrowError::AlreadyAssigned)
                } else {
                    let mut updated = record;
                    updated.freelancer = Some(freelancer);
                    updated.status = JobStatus::Ongoing;
                    self.store.update(job_id, updated);
                    Ok(())
                }
            },
        }
    }

    /// Submit the job's work for review. Only the assigned freelancer may,
    /// and only while the status is `Ongoing`; the job becomes `Submitted`.
    pub fn submit_work(&mut self, caller: u64, job_id: u64) -> (r: Result<(), EscrowError>)
        requires
            old(self).wf(),
        ensures
            final(self).wf(),
            r == submit_step(old(self)@, caller, job_id).1,
            final(self)@ == submit_step(old(self)@, caller, job_id).0,
    {
        proof {
            lemma_step_preserves_inv(old(self)@, Op::SubmitWork { caller, job_id });
        }
        match self.store.get(job_id) {
            Err(e) => Err(e),
            Ok(record) => {
                let authorized = match record.freelancer {
                    Some(f) => f == caller,
                    None => false,
                };
                if !authorized {
                    Err(EscrowError::Unauthorized)
                } else if record.status != JobStatus::Ongoing {
                    Err(EscrowError::InvalidStatus)
                } else {
                    let mut updated = record;
                    updated.status = JobStatus::Submitted;
                    self.store.update(job_id, updated);
                    Ok(())
                }
            },
        }
    }

    /// Flag the job as disputed, from `Ongoing` or `Submitted`. Any
    /// already-authenticated caller may: arbitration is driven by an
    /// external authority whose verification happens outside this core.
    pub fn initiate_dispute(&mut self, caller: u64, job_id: u64) -> (r: Result<(), EscrowError>)
        requires
            old(self).wf(),
        ensures
            final(self).wf(),
            r == dispute_step(old(self)@, caller, job_id).1,
            final(self)@ == dispute_step(old(self)@, caller, job_id).0,
    {
        proof {
            lemma_step_preserves_inv(old(self)@, Op::InitiateDispute { caller, job_id });
        }
        match self.store.get(job_id) {
            Err(e) => Err(e),
            Ok(record) => {
                if record.status != JobStatus::Ongoing && record.status != JobStatus::Submitted {
                    Err(EscrowError::InvalidStatus)
                } else {
                    let mut updated = record;
                    updated.status = JobStatus::Disputed;
                    self.store.update(job_id, updated);
                    Ok(())
                }
            },
        }
    }

    /// Release the custodied amount to the freelancer and complete the job.
    /// Only the client may, from `Ongoing` or `Submitted`. A failure of the
    /// transfer leaves everything, the status included, unchanged.
    pub fn release_payment(&mut self, caller: u64, job_id: u64) -> (r: Result<(), EscrowError>)
        requires
            old(self).wf(),
        ensures
            final(self).wf(),
            r == release_step(old(self)@, caller, job_id).1,
            final(self)@ == release_step(old(self)@, caller, job_id).0,
    {
        proof {
            lemma_step_preserves_inv(old(self)@, Op::ReleasePayment { caller, job_id });
        }
        match self.store.get(job_id) {
            Err(e) => Err(e),
            Ok(record) => {
                if caller != record.client {
                    Err(EscrowError::Unauthorized)
                } else if record.status != JobStatus::Ongoing && record.status
                    != JobStatus::Submitted {
                    Err(EscrowError::InvalidStatus)
                } else {
                    proof {
                        assert(record_ok(old(self)@, job_id));
                    }
                    let recipient = match record.freelancer {
                        Some(f) => f,
                        None => {
                            proof {
                                assert(false);
                            }
                            0
                        },
                    };
                    self.transfer_out(job_id, record, recipient)
                }
            },
        }
    }

    /// Close a disputed job by an arbitration verdict. A verdict of
    /// [`VERDICT_REFUND_CLIENT`] sends the custodied amount back to the
    /// client; [`VERDICT_PAY_FREELANCER`] sends it to the freelancer; every
    /// other value moves nothing and still completes the job. Whoever calls
    /// is taken to be the arbiter: establishing that identity is the job of
    /// the surrounding system, not of this function.
    pub fn resolve_dispute(&mut self, caller: u64, job_id: u64, verdict: u8) -> (r: Result<
        (),
        EscrowError,
    >)
        requires
            old(self).wf(),
        ensures
            final(self).wf(),
            r == resolve_step(old(self)@, caller, job_id, verdict).1,
            final(self)@ == resolve_step(old(self)@, caller, job_id, verdict).0,
    {
        proof {
            lemma_step_preserves_inv(old(self)@, Op::ResolveDispute { caller, job_id, verdict });
        }
        match self.store.get(job_id) {
            Err(e) => Err(e),
            Ok(record) => {
                if record.status != JobStatus::Disputed {
                    Err(EscrowError::InvalidStatus)
                } else {
                    proof {
                        assert(record_ok(old(self)@, job_id));
                    }
                    if verdict == VERDICT_REFUND_CLIENT {
                        self.transfer_out(job_id, record, record.client)
                    } else if verdict == VERDICT_PAY_FREELANCER {
                        let recipient = match record.freelancer {
                            Some(f) => f,
                            None => {
                                proof {
                                    assert(false);
                                }
                                0
                            },
                        };
                        self.transfer_out(job_id, record, recipient)
                    } else {
                        let mut updated = record;
                        updated.status = JobStatus::Completed;
                        self.store.update(job_id, updated);
                        Ok(())
                    }
                }
            },
        }
    }

    /// The common transfer-out tail of the completing transitions that move
    /// funds: empty the custody sub-account into `recipient`'s balance and
    /// mark the job `Completed`; on a failed transfer, change nothing.
    fn transfer_out(&mut self, job_id: u64, record: Job, recipient: u64) -> (r: Result<
        (),
        EscrowError,
    >)
        requires
            old(self).wf(),
            old(self)@.jobs.contains_key(job_id),
            record == old(self)@.jobs[job_id],
            record.status != JobStatus::Completed,
            market_inv(pay_out(old(self)@, job_id, recipient).0),
        ensures
            final(self).wf(),
            r == pay_out(old(self)@, job_id, recipient).1,
            final(self)@ == pay_out(old(self)@, job_id, recipient).0,
    {
        proof {
            assert(record_ok(old(self)@, job_id));
        }
        match self.custodian.release(job_id, record.custody_nonce, recipient) {
            Err(e) => Err(e),
            Ok(_) => {
                let mut updated = record;
                updated.status = JobStatus::Completed;
                self.store.update(job_id, updated);
                Ok(())
            },
        }
    }
}

} // verus!
