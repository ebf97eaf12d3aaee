use vstd::prelude::*;

use crate::text::{decimal, decimal_text};

verus! {

/// Failures reported to callers of the engine and of its surrounding service.
#[derive(Clone, Debug)]
pub enum ChainGuardError {
    // Permission errors
    Unauthorized,
    InsufficientPermissions { required: String },
    // Configuration errors
    NotInitialized,
    AlreadyInitialized,
    InvalidConfiguration { reason: String },
    // Policy errors
    PolicyNotFound { id: u64 },
    PolicyEvaluationFailed { reason: String },
    // Threshold errors
    RequestNotFound { id: u64 },
    RequestExpired,
    RequestAlreadySigned,
    RequestNotApproved,
    InvalidRequestStatus { expected: String, actual: String },
    // Execution errors
    ExecutionFailed { reason: String },
    ChainNotSupported { chain: String },
    InsufficientFunds { msg: String },
    InvalidInput { msg: String },
    UnsupportedChain { msg: String },
    NotImplemented { feature: String },
    // System errors
    SystemPaused,
    InternalError { msg: String },
}

/// The message that describes an error.
pub open spec fn error_text(error: ChainGuardError) -> Seq<char> {
    match error {
        ChainGuardError::Unauthorized => "Unauthorized access"@,
        ChainGuardError::InsufficientPermissions { required } => "Insufficient permissions. Required: "@ + required@,
        ChainGuardError::NotInitialized => "ChainGuard not initialized"@,
        ChainGuardError::AlreadyInitialized => "ChainGuard already initialized"@,
        ChainGuardError::InvalidConfiguration { reason } => "Invalid configuration: "@ + reason@,
        ChainGuardError::PolicyNotFound { id } => "Policy not found: "@ + decimal_text(id as nat),
        ChainGuardError::PolicyEvaluationFailed { reason } => "Policy evaluation failed: "@ + reason@,
        ChainGuardError::RequestNotFound { id } => "Request not found: "@ + decimal_text(id as nat),
        ChainGuardError::RequestExpired => "Request has expired"@,
        ChainGuardError::RequestAlreadySigned => "Request already signed by this principal"@,
        ChainGuardError::RequestNotApproved => "Request not yet approved"@,
        ChainGuardError::InvalidRequestStatus { expected, actual } => "Invalid request status. Expected: "@ + expected@ + ", Actual: "@ + actual@,
        ChainGuardError::ExecutionFailed { reason } => "Execution failed: "@ + reason@,
        ChainGuardError::ChainNotSupported { chain } => "Chain not supported: "@ + chain@,
        ChainGuardError::InsufficientFunds { msg } => "Insufficient funds: "@ + msg@,
        ChainGuardError::InvalidInput { msg } => "Invalid input: "@ + msg@,
        ChainGuardError::UnsupportedChain { msg } => "Unsupported chain: "@ + msg@,
        ChainGuardError::NotImplemented { feature } => "Feature not yet implemented: "@ + feature@,
        ChainGuardError::SystemPaused => "System is currently paused"@,
        ChainGuardError::InternalError { msg } => "Internal error: "@ + msg@,
    }
}

impl ChainGuardError {
    /// A human-readable message for the error.
    pub fn to_string(&self) -> (s: String)
        ensures
            s@ == error_text(*self),
    {
        match self {
            ChainGuardError::Unauthorized => String::from_str("Unauthorized access"),
            ChainGuardError::InsufficientPermissions { required } => {
                let mut s = String::from_str("Insufficient permissions. Required: ");
                s.append(required.as_str());
                s
            },
            ChainGuardError::NotInitialized => String::from_str("ChainGuard not initialized"),
            ChainGuardError::AlreadyInitialized => String::from_str("ChainGuard already initialized"),
            ChainGuardError::InvalidConfiguration { reason } => {
                let mut s = String::from_str("Invalid configuration: ");
                s.append(reason.as_str());
                s
            },
            ChainGuardError::PolicyNotFound { id } => {
                let mut s = String::from_str("Policy not found: ");
                s.append(decimal(*id).as_str());
                s
            },
            ChainGuardError::PolicyEvaluationFailed { reason } => {
                let mut s = String::from_str("Policy evaluation failed: ");
                s.append(reason.as_str());
                s
            },
            ChainGuardError::RequestNotFound { id } => {
                let mut s = String::from_str("Request not found: ");
                s.append(decimal(*id).as_str());
                s
            },
            ChainGuardError::RequestExpired => String::from_str("Request has expired"),
            ChainGuardError::RequestAlreadySigned => String::from_str("Request already signed by this principal"),
            ChainGuardError::RequestNotApproved => String::from_str("Request not yet approved"),
            ChainGuardError::InvalidRequestStatus { expected, actual } => {
                let mut s = String::from_str("Invalid request status. Expected: ");
                s.append(expected.as_str());
                s.append(", Actual: ");
                s.append(actual.as_str());
                s
            },
            ChainGuardError::ExecutionFailed { reason } => {
                let mut s = String::from_str("Execution failed: ");
                s.append(reason.as_str());
                s
            },
            ChainGuardError::ChainNotSupported { chain } => {
                let mut s = String::from_str("Chain not supported: ");
                s.append(chain.as_str());
                s
            },
            ChainGuardError::InsufficientFunds { msg } => {
                let mut s = String::from_str("Insufficient funds: ");
                s.append(msg.as_str());
                s
            },
            ChainGuardError::InvalidInput { msg } => {
                let mut s = String::from_str("Invalid input: ");
                s.append(msg.as_str());
                s
            },
            ChainGuardError::UnsupportedChain { msg } => {
                let mut s = String::from_str("Unsupported chain: ");
                s.append(msg.as_str());
                s
            },
            ChainGuardError::NotImplemented { feature } => {
                let mut s = String::from_str("Feature not yet implemented: ");
                s.append(feature.as_str());
                s
            },
            ChainGuardError::SystemPaused => String::from_str("System is currently paused"),
            ChainGuardError::InternalError { msg } => {
                let mut s = String::from_str("Internal error: ");
                s.append(msg.as_str());
                s
            },
        }
    }
}

/// Result of an operation that may fail with a `ChainGuardError`.
pub type ChainGuardResult<T> = Result<T, ChainGuardError>;

} // verus!
