use crate::errors::EscrowError;
use crate::table::Table;
use vstd::prelude::*;

verus! {

/// The custody sub-account held on behalf of one job: the custodied balance
/// and the nonce of the signing authority that may move it.
#[derive(Clone, Copy, Debug)]
pub struct CustodyAccount {
    /// The balance currently custodied for the job.
    pub amount: u64,
    /// The nonce recorded when the sub-account was opened; a release must
    /// present it.
    pub nonce: u8,
}

/// The external balance of an identity in a ledger: absent means zero.
pub open spec fn balance_in(balances: Map<u64, u64>, who: u64) -> u64 {
    if balances.contains_key(who) {
        balances[who]
    } else {
        0
    }
}

/// The balance custodied for a job in a custody ledger: absent means zero.
pub open spec fn custody_in(custody: Map<u64, CustodyAccount>, job_id: u64) -> u64 {
    if custody.contains_key(job_id) {
        custody[job_id].amount
    } else {
        0
    }
}

/// Holds and moves fixed-denomination balances: an explicit ledger of
/// external balances per identity, and one custody sub-account per job.
/// Both `deposit` and `release` are all-or-nothing: they either fully
/// succeed or leave every balance unchanged.
///
/// A release is authorized by presenting the nonce recorded when the
/// sub-account was opened. That capability never leaves this crate: the
/// moving operations are visible to the state machine only, so no external
/// party can authorize a release directly.
pub struct FundCustodian {
    balances: Table<u64>,
    custody: Table<CustodyAccount>,
}

impl FundCustodian {
    pub closed spec fn wf(&self) -> bool {
        self.balances.wf() && self.custody.wf()
    }

    /// The ledger of external balances.
    pub closed spec fn balances_map(&self) -> Map<u64, u64> {
        self.balances@
    }

    /// The ledger of custody sub-accounts.
    pub closed spec fn custody_map(&self) -> Map<u64, CustodyAccount> {
        self.custody@
    }

    /// An empty custodian: no balances, no custody sub-accounts.
    pub fn new() -> (c: Self)
        ensures
            c.wf(),
            c.balances_map() == Map::<u64, u64>::empty(),
            c.custody_map() == Map::<u64, CustodyAccount>::empty(),
    {
        FundCustodian { balances: Table::new(), custody: Table::new() }
    }

    /// Credit `amount` to `who`'s external balance, modeling value arriving
    /// from outside this system. Fails, changing nothing, exactly when the
    /// balance would exceed the largest representable value.
    pub fn fund(&mut self, who: u64, amount: u64) -> (r: Result<(), EscrowError>)
        requires
            old(self).wf(),
        ensures
            final(self).wf(),
            final(self).custody_map() == old(self).custody_map(),
            ({
                let b = balance_in(old(self).balances_map(), who);
                if amount <= u64::MAX - b {
                    r == Ok::<(), EscrowError>(()) && final(self).balances_map() == old(self).balances_map().insert(who, (b + amount) as u64)
                } else {
                    r == Err::<(), EscrowError>(EscrowError::TransferFailed) && final(self).balances_map() == old(self).balances_map()
                }
            }),
    {
        let b = match self.balances.get(who) {
            Some(v) => v,
            None => 0,
        };
        if amount <= u64::MAX - b {
            self.balances.set(who, b + amount);
            Ok(())
        } else {
            Err(EscrowError::TransferFailed)
        }
    }

    /// The external balance of `who`; zero when the ledger has no entry.
    pub fn balance_of(&self, who: u64) -> (r: u64)
        requires
            self.wf(),
        ensures
            r == balance_in(self.balances_map(), who),
    {
        match self.balances.get(who) {
            Some(v) => v,
            None => 0,
        }
    }

    /// The balance custodied for `job_id`; zero when no sub-account exists.
    pub fn custodied(&self, job_id: u64) -> (r: u64)
        requires
            self.wf(),
        ensures
            r == custody_in(self.custody_map(), job_id),
    {
        match self.custody.get(job_id) {
            Some(account) => account.amount,
            None => 0,
        }
    }

    /// Open the custody sub-account for a new job and move `amount` into it
    /// from `payer`'s external balance, recording `nonce` as the job's
    /// signing authority. Fails, changing nothing, exactly when `payer`'s
    /// balance is short.
    pub(crate) fn deposit(&mut self, job_id: u64, payer: u64, amount: u64, nonce: u8) -> (r: Result<
        (),
        EscrowError,
    >)
        requires
            old(self).wf(),
            !old(self).custody_map().contains_key(job_id),
        ensures
            final(self).wf(),
            ({
                let b = balance_in(old(self).balances_map(), payer);
                if b >= amount {
                    r == Ok::<(), EscrowError>(()) && final(self).balances_map() == old(self).balances_map().insert(payer, (b - amount) as u64) && final(self).custody_map()
                        == old(self).custody_map().insert(
                        job_id,
                        CustodyAccount { amount, nonce },
                    )
                } else {
                    r == Err::<(), EscrowError>(EscrowError::TransferFailed) && final(self).balances_map() == old(self).balances_map() && final(self).custody_map()
                        == old(self).custody_map()
                }
            }),
    {
        let b = match self.balances.get(payer) {
            Some(v) => v,
            None => 0,
        };
        if b >= amount {
            self.balances.set(payer, b - amount);
            self.custody.set(job_id, CustodyAccount { amount, nonce });
            Ok(())
        } else {
            Err(EscrowError::TransferFailed)
        }
    }

    /// Move the full custodied balance of `job_id` out to `recipient` and
    /// zero the sub-account. Succeeds exactly when the sub-account exists,
    /// the presented `nonce` matches the recorded one, and the recipient's
    /// balance can take the amount; otherwise nothing changes.
    pub(crate) fn release(&mut self, job_id: u64, nonce: u8, recipient: u64) -> (r: Result<
        (),
        EscrowError,
    >)
        requires
            old(self).wf(),
        ensures
            final(self).wf(),
            ({
                let cm = old(self).custody_map();
                let bm = old(self).balances_map();
                if cm.contains_key(job_id) && cm[job_id].nonce == nonce && cm[job_id].amount
                    <= u64::MAX - balance_in(bm, recipient) {
                    r == Ok::<(), EscrowError>(()) && final(self).custody_map() == cm.insert(
                        job_id,
                        CustodyAccount { amount: 0, nonce: cm[job_id].nonce },
                    ) && final(self).balances_map() == bm.insert(
                        recipient,
                        (balance_in(bm, recipient) + cm[job_id].amount) as u64,
                    )
                } else {
                    r == Err::<(), EscrowError>(EscrowError::TransferFailed) && final(self).custody_map() == cm && final(self).balances_map() == bm
                }
            }),
    {
        let account = match self.custody.get(job_id) {
            Some(account) => account,
            None => {
                return Err(EscrowError::TransferFailed);
            },
        };
        if account.nonce != nonce {
            return Err(EscrowError::TransferFailed);
        }
        let b = match self.balances.get(recipient) {
            Some(v) => v,
            None => 0,
        };
        if account.amount <= u64::MAX - b {
            self.balances.set(recipient, b + account.amount);
            self.custody.set(job_id, CustodyAccount { amount: 0, nonce: account.nonce });
            Ok(())
        } else {
            Err(EscrowError::TransferFailed)
        }
    }
}

} // verus!
