//! The pipeline's error taxonomy.  Every failure carries the stage that
//! raised it and enough identifying detail to diagnose it without
//! re-running: the object, the address or the amount in question.

use vstd::prelude::*;
use crate::types::Address;
use crate::types::ExecutionResult;
use crate::types::ObjectId;

verus! {

/// The stage of the pipeline at which an error arose.
#[derive(Clone, Copy, Debug, PartialEq, Eq, Structural)]
pub enum Stage {
    Resolving,
    Funding,
    Compiling,
    Signing,
    Submitting,
}

/// What went wrong.
#[derive(Debug)]
pub enum ErrorKind {
    /// A required on-chain object is absent.
    NotFound { object: ObjectId },
    /// The object exists but its ownership metadata is not what the
    /// command needs (a shared object was expected).
    InvalidOwnership { object: ObjectId },
    /// The operator owns no capability object of the required type.
    CapabilityMissing { owner: Address },
    /// No eligible payment object covers the computed budget.
    InsufficientFunds { budget: u64 },
    /// The operator owns no fee-payable objects at all.
    NoGasObjects { owner: Address },
    /// The command variant has no call graph defined.
    UnsupportedCommand,
    /// The key material could not produce a signature.
    SigningError,
    /// The transport failed before the transaction reached the network.
    NetworkError,
    /// The network refused the transaction before executing it.
    Rejected,
    /// The transaction executed and the contract call aborted; the
    /// result is kept so the caller can inspect the abort.
    ExecutionFailed { result: ExecutionResult },
}

/// A typed pipeline failure: the stage it arose at, and its kind.
#[derive(Debug)]
pub struct PipelineError {
    pub stage: Stage,
    pub kind: ErrorKind,
}

} // verus!
