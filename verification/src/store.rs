use crate::errors::EscrowError;
use crate::job::Job;
use crate::table::Table;
use vstd::prelude::*;

verus! {

/// Keyed persistence of [`Job`] records, exactly one per job identifier.
/// Records are only ever created once and then mutated through the state
/// machine; no update-or-insert operation is exposed and nothing is deleted.
pub struct JobStore {
    jobs: Table<Job>,
}

impl JobStore {
    pub closed spec fn wf(&self) -> bool {
        self.jobs.wf()
    }
}

impl View for JobStore {
    type V = Map<u64, Job>;

    closed spec fn view(&self) -> Map<u64, Job> {
        self.jobs@
    }
}

impl JobStore {
    /// An empty store.
    pub fn new() -> (s: Self)
        ensures
            s.wf(),
            s@ == Map::<u64, Job>::empty(),
    {
        JobStore { jobs: Table::new() }
    }

    /// Persist a new record under `job_id`. Fails, changing nothing, exactly
    /// when a record for that key already exists.
    pub fn create(&mut self, job_id: u64, record: Job) -> (r: Result<(), EscrowError>)
        requires
            old(self).wf(),
        ensures
            final(self).wf(),
            old(self)@.contains_key(job_id) ==> r == Err::<(), EscrowError>(
                EscrowError::AlreadyExists,
            ) && final(self)@ == old(self)@,
            !old(self)@.contains_key(job_id) ==> r == Ok::<(), EscrowError>(()) && final(self)@
                == old(self)@.insert(job_id, record),
    {
        match self.jobs.get(job_id) {
            Some(_) => Err(EscrowError::AlreadyExists),
            None => {
                self.jobs.set(job_id, record);
                Ok(())
            },
        }
    }

    /// Look a record up by its key; fails exactly when the key is unknown.
    pub fn get(&self, job_id: u64) -> (r: Result<Job, EscrowError>)
        requires
            self.wf(),
        ensures
            match r {
                Ok(record) => self@.contains_key(job_id) && record == self@[job_id],
                Err(e) => !self@.contains_key(job_id) && e == EscrowError::NotFound,
            },
    {
        match self.jobs.get(job_id) {
            Some(record) => Ok(record),
            None => Err(EscrowError::NotFound),
        }
    }

    /// Replace the record stored under an existing key. Only the state
    /// machine uses this, to commit a validated transition.
    pub(crate) fn update(&mut self, job_id: u64, record: Job)
        requires
            old(self).wf(),
            old(self)@.contains_key(job_id),
        ensures
            final(self).wf(),
            final(self)@ == old(self)@.insert(job_id, record),
    {
        self.jobs.set(job_id, record);
    }
}

} // verus!
