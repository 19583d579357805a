//! The failures a call can end in.

use vstd::prelude::*;
use crate::rpc::{invalid_argument, invalid_argument_status, unauthenticated, unauthenticated_status};

verus! {

/// The kind of a failure, as the caller's protocol layer reports it.
#[derive(Debug, Clone, Copy, PartialEq, Eq, Structural)]
pub enum Code {
    /// The caller sent an input that no retry with the same input can mend.
    InvalidArgument,
    /// The caller did not present the credential that the call asks for.
    Unauthenticated,
}

/// Why a call was refused. Every failure leaves the service running and is
/// handed to the caller with its code and its message.
#[derive(Debug, Clone, Copy, PartialEq, Eq, Structural)]
pub enum RpcError {
    /// A division whose divisor is zero.
    DivisionByZero,
    /// An administrative call without a credential.
    MissingToken,
    /// An administrative call with a credential other than the expected one.
    InvalidToken,
}

impl RpcError {
    /// The code under which this failure is reported.
    pub open spec fn code_spec(self) -> Code {
        match self {
            RpcError::DivisionByZero => Code::InvalidArgument,
            RpcError::MissingToken => Code::Unauthenticated,
            RpcError::InvalidToken => Code::Unauthenticated,
        }
    }

    /// The message that accompanies this failure.
    pub open spec fn message_spec(self) -> Seq<char> {
        match self {
            RpcError::DivisionByZero => "Cannot divide by zero"@,
            RpcError::MissingToken => "Missing token"@,
            RpcError::InvalidToken => "Invalid token"@,
        }
    }

    /// The code under which this failure is reported.
    #[verifier::when_used_as_spec(code_spec)]
    pub fn code(self) -> (code: Code)
        ensures
            code == self.code_spec(),
    {
        match self {
            RpcError::DivisionByZero => Code::InvalidArgument,
            RpcError::MissingToken => Code::Unauthenticated,
            RpcError::InvalidToken => Code::Unauthenticated,
        }
    }

    /// The message that accompanies this failure.
    pub fn message(self) -> (message: &'static str)
        ensures
            message@ == self.message_spec(),
    {
        match self {
            RpcError::DivisionByZero => "Cannot divide by zero",
            RpcError::MissingToken => "Missing token",
            RpcError::InvalidToken => "Invalid token",
        }
    }

    /// The status by which the framework reports this failure: the one it
    /// makes for this failure's code out of this failure's message.
    pub open spec fn status_spec(self) -> tonic::Status {
        match self.code_spec() {
            Code::InvalidArgument => invalid_argument_status(self.message_spec()),
            Code::Unauthenticated => unauthenticated_status(self.message_spec()),
        }
    }

    /// Turns this failure into the status by which the framework reports it.
    pub fn into_status(self) -> (status: tonic::Status)
        ensures
            status == self.status_spec(),
    {
        match self.code() {
            Code::InvalidArgument => invalid_argument(self.message()),
            Code::Unauthenticated => unauthenticated(self.message()),
        }
    }
}

} // verus!
