//! The status with which the service answers a call.

use vstd::prelude::*;
use vstd::string::StringExecFns;

verus! {

/// `tonic::Status`, the status of a gRPC call, of which nothing is known
/// here.
#[verifier::external_type_specification]
#[verifier::external_body]
pub struct ExGrpcStatus(tonic::Status);

/// The status codes of gRPC.
#[derive(Debug, Clone, Copy, PartialEq, Eq, Structural)]
pub enum Code {
    /// Not an error: the call succeeded.
    Success,
    Cancelled,
    Unknown,
    InvalidArgument,
    DeadlineExceeded,
    NotFound,
    AlreadyExists,
    PermissionDenied,
    ResourceExhausted,
    FailedPrecondition,
    Aborted,
    OutOfRange,
    Unimplemented,
    Internal,
    Unavailable,
    DataLoss,
    Unauthenticated,
}

impl Code {
    /// The number that gRPC gives to each code.
    pub open spec fn number(self) -> i32 {
        match self {
            Code::Success => 0,
            Code::Cancelled => 1,
            Code::Unknown => 2,
            Code::InvalidArgument => 3,
            Code::DeadlineExceeded => 4,
            Code::NotFound => 5,
            Code::AlreadyExists => 6,
            Code::PermissionDenied => 7,
            Code::ResourceExhausted => 8,
            Code::FailedPrecondition => 9,
            Code::Aborted => 10,
            Code::OutOfRange => 11,
            Code::Unimplemented => 12,
            Code::Internal => 13,
            Code::Unavailable => 14,
            Code::DataLoss => 15,
            Code::Unauthenticated => 16,
        }
    }

    /// The code with the number `n`; a number that gRPC gives to no code
    /// stands for an unknown error.
    pub open spec fn of_number(n: i32) -> Code {
        if n == 0 {
            Code::Success
        } else if n == 1 {
            Code::Cancelled
        } else if n == 3 {
            Code::InvalidArgument
        } else if n == 4 {
            Code::DeadlineExceeded
        } else if n == 5 {
            Code::NotFound
        } else if n == 6 {
            Code::AlreadyExists
        } else if n == 7 {
            Code::PermissionDenied
        } else if n == 8 {
            Code::ResourceExhausted
        } else if n == 9 {
            Code::FailedPrecondition
        } else if n == 10 {
            Code::Aborted
        } else if n == 11 {
            Code::OutOfRange
        } else if n == 12 {
            Code::Unimplemented
        } else if n == 13 {
            Code::Internal
        } else if n == 14 {
            Code::Unavailable
        } else if n == 15 {
            Code::DataLoss
        } else if n == 16 {
            Code::Unauthenticated
        } else {
            Code::Unknown
        }
    }

    /// The code's number.
    pub fn as_i32(self) -> (n: i32)
        ensures
            n == self.number(),
    {
        match self {
            Code::Success => 0,
            Code::Cancelled => 1,
            Code::Unknown => 2,
            Code::InvalidArgument => 3,
            Code::DeadlineExceeded => 4,
            Code::NotFound => 5,
            Code::AlreadyExists => 6,
            Code::PermissionDenied => 7,
            Code::ResourceExhausted => 8,
            Code::FailedPrecondition => 9,
            Code::Aborted => 10,
            Code::OutOfRange => 11,
            Code::Unimplemented => 12,
            Code::Internal => 13,
            Code::Unavailable => 14,
            Code::DataLoss => 15,
            Code::Unauthenticated => 16,
        }
    }

    /// The code with the number `n`; a number that gRPC gives to no code
    /// stands for an unknown error.
    pub fn from_i32(n: i32) -> (code: Code)
        ensures
            code == Code::of_number(n),
            0 <= n <= 16 ==> code.number() == n,
    {
        match n {
            0 => Code::Success,
            1 => Code::Cancelled,
            3 => Code::InvalidArgument,
            4 => Code::DeadlineExceeded,
            5 => Code::NotFound,
            6 => Code::AlreadyExists,
            7 => Code::PermissionDenied,
            8 => Code::ResourceExhausted,
            9 => Code::FailedPrecondition,
            10 => Code::Aborted,
            11 => Code::OutOfRange,
            12 => Code::Unimplemented,
            13 => Code::Internal,
            14 => Code::Unavailable,
            15 => Code::DataLoss,
            16 => Code::Unauthenticated,
            _ => Code::Unknown,
        }
    }

    /// The name under which gRPC knows each code.
    pub open spec fn name(self) -> Seq<char> {
        match self {
            Code::Success => "Ok"@,
            Code::Cancelled => "Cancelled"@,
            Code::Unknown => "Unknown"@,
            Code::InvalidArgument => "InvalidArgument"@,
            Code::DeadlineExceeded => "DeadlineExceeded"@,
            Code::NotFound => "NotFound"@,
            Code::AlreadyExists => "AlreadyExists"@,
            Code::PermissionDenied => "PermissionDenied"@,
            Code::ResourceExhausted => "ResourceExhausted"@,
            Code::FailedPrecondition => "FailedPrecondition"@,
            Code::Aborted => "Aborted"@,
            Code::OutOfRange => "OutOfRange"@,
            Code::Unimplemented => "Unimplemented"@,
            Code::Internal => "Internal"@,
            Code::Unavailable => "Unavailable"@,
            Code::DataLoss => "DataLoss"@,
            Code::Unauthenticated => "Unauthenticated"@,
        }
    }

    /// The name under which gRPC knows this code.
    pub fn as_str(self) -> (name: &'static str)
        ensures
            name@ == self.name(),
    {
        match self {
            Code::Success => "Ok",
            Code::Cancelled => "Cancelled",
            Code::Unknown => "Unknown",
            Code::InvalidArgument => "InvalidArgument",
            Code::DeadlineExceeded => "DeadlineExceeded",
            Code::NotFound => "NotFound",
            Code::AlreadyExists => "AlreadyExists",
            Code::PermissionDenied => "PermissionDenied",
            Code::ResourceExhausted => "ResourceExhausted",
            Code::FailedPrecondition => "FailedPrecondition",
            Code::Aborted => "Aborted",
            Code::OutOfRange => "OutOfRange",
            Code::Unimplemented => "Unimplemented",
            Code::Internal => "Internal",
            Code::Unavailable => "Unavailable",
            Code::DataLoss => "DataLoss",
            Code::Unauthenticated => "Unauthenticated",
        }
    }

    /// Whether a call that failed with this code may succeed when it is
    /// made again: the service reports an internal or an unknown error.
    pub open spec fn is_transient(self) -> bool {
        self == Code::Internal || self == Code::Unknown
    }
}

/// The status of a call that failed.
#[derive(Debug, Clone)]
pub struct RpcStatus {
    /// The status code.
    pub code: Code,
    /// The error message.
    pub message: String,
}

/// The number of the code of a gRPC status, as `tonic::Status::code` gives
/// it: one of the seventeen that gRPC defines, 0 to 16.
#[verifier::external_body]
fn grpc_code(status: &tonic::Status) -> (n: i32)
    ensures
        0 <= n <= 16,
{
    status.code() as i32
}

/// The message of a gRPC status, as `tonic::Status::message` gives it.
#[verifier::external_body]
fn grpc_message(status: &tonic::Status) -> (message: String)
{
    status.message().to_string()
}

impl RpcStatus {
    /// The code and the message of a gRPC status: the status that
    /// [`RpcStatus::new`] makes of the number of its code and of its
    /// message.
    pub fn from_grpc(status: &tonic::Status) -> (own: RpcStatus)
    {
        RpcStatus::new(grpc_code(status), grpc_message(status))
    }

    /// The status with the code of the number `code` and with `message` as
    /// its message; a number that gRPC gives to no code stands for an
    /// unknown error.
    pub fn new(code: i32, message: String) -> (own: RpcStatus)
        ensures
            own.code == Code::of_number(code),
            own.message == message,
    {
        RpcStatus { code: Code::from_i32(code), message }
    }

    /// The text of this status: the name of its code, then its message.
    pub open spec fn text(self) -> Seq<char> {
        "status: "@ + self.code.name() + ", message: "@ + self.message@
    }

    /// The text of this status.
    pub fn to_string(&self) -> (text: String)
        ensures
            text@ == self.text(),
    {
        String::from_str("status: ").concat(self.code.as_str()).concat(", message: ").concat(
            self.message.as_str(),
        )
    }
}

} // verus!
