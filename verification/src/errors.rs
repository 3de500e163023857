//! Error taxonomy of the pipeline.
//!
//! `MissingField` and `CheckFailed` are recovered at the router boundary
//! and turned into a verdict; `InvalidOrder` aborts only the current
//! order; `LimitUpdateRejected` is returned to the caller of a hot-reload
//! operation and leaves the prior limits unchanged; `BrokerError` carries
//! a dispatch failure; `StoreUnavailable` stands for a failed collaborator
//! read, on which every safety gate fails closed.

use vstd::prelude::*;
use vstd::string::StringExecFns;

verus! {

pub enum PipelineError {
    /// A required attribute is absent from the input; carries its message.
    MissingField(String),
    /// Semantically invalid order parameters.
    InvalidOrder,
    /// A validator's business rule was violated; carries the reason.
    CheckFailed(String),
    /// A non-positive threshold was supplied to a hot-reload operation.
    LimitUpdateRejected,
    /// The execution capability refused the dispatch.
    BrokerError(String),
    /// A collaborator read failed.
    StoreUnavailable,
}

impl PipelineError {
    /// The human-readable message a rejection carries.
    pub open spec fn message_view(&self) -> Seq<char> {
        match self {
            PipelineError::MissingField(m) => m@,
            PipelineError::InvalidOrder => "Invalid order parameters"@,
            PipelineError::CheckFailed(m) => m@,
            PipelineError::LimitUpdateRejected => "Invalid limit update"@,
            PipelineError::BrokerError(m) => m@,
            PipelineError::StoreUnavailable => "State store unavailable"@,
        }
    }

    pub fn message(&self) -> (m: String)
        ensures
            m@ == self.message_view(),
    {
        match self {
            PipelineError::MissingField(m) => m.clone(),
            PipelineError::InvalidOrder => String::from_str("Invalid order parameters"),
            PipelineError::CheckFailed(m) => m.clone(),
            PipelineError::LimitUpdateRejected => String::from_str("Invalid limit update"),
            PipelineError::BrokerError(m) => m.clone(),
            PipelineError::StoreUnavailable => String::from_str("State store unavailable"),
        }
    }
}

} // verus!
