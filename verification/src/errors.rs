use vstd::prelude::*;

verus! {

/// The ways an operation can fail. Every failure is reported synchronously
/// and leaves all state unchanged: there are no partial commits.
#[derive(Clone, Copy, PartialEq, Eq, Structural, Debug)]
pub enum EscrowError {
    /// A record already exists for this job identifier.
    AlreadyExists,
    /// No record exists for this job identifier.
    NotFound,
    /// The current status does not permit the requested transition.
    InvalidStatus,
    /// The freelancer slot of the job is already filled.
    AlreadyAssigned,
    /// The caller is not the party that may perform this operation.
    Unauthorized,
    /// The custodian could not move funds.
    TransferFailed,
}

} // verus!
