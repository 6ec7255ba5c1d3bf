//! A verified escrow for paid jobs. A client locks a fixed amount in
//! custody when opening a job, a freelancer works it, and the amount leaves
//! custody only through one of the completing transitions: the client
//! releases it, or an arbiter settles a dispute.
//!
//! The heart of the crate is the lifecycle state machine in [`escrow`],
//! proved against the functional model in [`model`]: funds move only when
//! the job's current status and the caller's identity allow it, every
//! transition is forward-only, and every failure leaves all state exactly
//! as it was. The value-transfer primitive itself is kept abstract in
//! [`custody::FundCustodian`], an explicit ledger of external balances with
//! one custody sub-account per job. The laws the whole design obeys are
//! stated and proved in [`laws`].

pub mod custody;
pub mod errors;
pub mod escrow;
pub mod job;
pub mod laws;
pub mod model;
pub mod store;
pub mod table;
