use vstd::prelude::*;

verus! {

/// The lifecycle of a job. It is strictly forward-moving and has no cycles:
/// `Created -> Ongoing -> Submitted -> {Completed | Disputed} -> Completed`,
/// with `Disputed` also reachable directly from `Ongoing` and `Completed`
/// also reachable directly from `Ongoing`. `Completed` is terminal.
#[derive(Clone, Copy, PartialEq, Eq, Structural, Debug)]
pub enum JobStatus {
    Created,
    Ongoing,
    Submitted,
    Completed,
    Disputed,
}

/// One escrow agreement between a client and a freelancer for a fixed amount.
#[derive(Clone, Copy, PartialEq, Eq, Debug)]
pub struct Job {
    /// Unique identifier, immutable after creation; the lookup key.
    pub job_id: u64,
    /// Identity of the paying party; immutable after creation.
    pub client: u64,
    /// Identity of the assigned worker: `None` until assignment, then immutable.
    pub freelancer: Option<u64>,
    /// A 20-byte identifier of the client on a foreign chain. It is opaque:
    /// carried for off-chain correlation only, never interpreted here.
    pub client_external_address: [u8; 20],
    /// The value custodied for this job; set at creation, immutable thereafter.
    pub amount: u64,
    /// The sole mutable field, driving all authorization logic.
    pub status: JobStatus,
    /// Nonce of the job's custody signing authority; stored once at creation
    /// and never changed.
    pub custody_nonce: u8,
}

/// Position of a status along the forward-only lifecycle: every allowed
/// transition strictly increases this rank, so no status can ever recur.
pub open spec fn status_rank(s: JobStatus) -> int {
    match s {
        JobStatus::Created => 0,
        JobStatus::Ongoing => 1,
        JobStatus::Submitted => 2,
        JobStatus::Disputed => 3,
        JobStatus::Completed => 4,
    }
}

/// The allowed transition edges of the lifecycle. An operation may move a
/// job's status only along one of these edges.
pub open spec fn edge_allowed(from: JobStatus, to: JobStatus) -> bool {
    ||| (from == JobStatus::Created && to == JobStatus::Ongoing)
    ||| (from == JobStatus::Ongoing && to == JobStatus::Submitted)
    ||| (from == JobStatus::Ongoing && to == JobStatus::Disputed)
    ||| (from == JobStatus::Ongoing && to == JobStatus::Completed)
    ||| (from == JobStatus::Submitted && to == JobStatus::Disputed)
    ||| (from == JobStatus::Submitted && to == JobStatus::Completed)
    ||| (from == JobStatus::Disputed && to == JobStatus::Completed)
}

/// Deterministic derivation of a job's custody signing nonce from its
/// identifier alone. The custodian honors a release only when presented with
/// this nonce, modeling a signing authority scoped to the one job.
pub open spec fn nonce_for(job_id: u64) -> u8 {
    (job_id % 256) as u8
}

/// Every allowed edge strictly increases the status rank: the lifecycle is
/// forward-only, and in particular `Completed` is terminal.
pub proof fn lemma_edges_increase_rank(from: JobStatus, to: JobStatus)
    ensures
        edge_allowed(from, to) ==> status_rank(from) < status_rank(to),
{
}

} // verus!
