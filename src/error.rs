//! Errors of the connection, and the table that interprets the host's
//! status codes.

use vstd::prelude::*;

verus! {

/// The host could not find the file named.
pub const ERROR_FILE_NOT_FOUND: i32 = 2;
/// The host denied access; the port may be held by another owner.
pub const ERROR_ACCESS_DENIED: i32 = 5;
/// The handle passed to the host is not valid.
pub const ERROR_INVALID_HANDLE: i32 = 6;
/// The host ran out of memory for pending requests.
pub const ERROR_NOT_ENOUGH_MEMORY: i32 = 8;
/// The request was aborted.
pub const ERROR_OPERATION_ABORTED: i32 = 995;
/// The buffer handed to the host is not valid.
pub const ERROR_INVALID_USER_BUFFER: i32 = 1784;

/// The class of a failure, stable across host codes.
#[derive(Clone, Copy, Debug, PartialEq, Eq, Structural)]
pub enum ErrorKind {
    /// Access denied: the port is busy or held by another owner.
    AlreadyExists,
    NotFound,
    InvalidInput,
    ResourceExhausted,
    Interrupted,
    TimedOut,
    Other,
}

/// The host call that failed.
#[derive(Clone, Copy, Debug, PartialEq, Eq, Structural)]
pub enum Operation {
    Open,
    GetCommState,
    SetCommState,
    SetCommTimeouts,
    Read,
    Write,
    Flush,
}

/// A failure of a connection operation.
#[derive(Clone, Copy, Debug, PartialEq, Eq, Structural)]
pub enum CommError {
    /// A host call failed with `code`.
    Host { kind: ErrorKind, operation: Operation, code: i32 },
    /// A read succeeded without delivering a byte within the timeout.
    TimedOut,
    /// A delimited read ended before its delimiter came.
    DelimiterNotFound,
}

/// The class of each host status code.
pub open spec fn kind_of_code(code: i32) -> ErrorKind {
    if code == ERROR_ACCESS_DENIED {
        ErrorKind::AlreadyExists
    } else if code == ERROR_FILE_NOT_FOUND {
        ErrorKind::NotFound
    } else if code == ERROR_INVALID_USER_BUFFER || code == ERROR_INVALID_HANDLE {
        ErrorKind::InvalidInput
    } else if code == ERROR_NOT_ENOUGH_MEMORY {
        ErrorKind::ResourceExhausted
    } else if code == ERROR_OPERATION_ABORTED {
        ErrorKind::Interrupted
    } else {
        ErrorKind::Other
    }
}

/// The error that a failed host call reports.
pub open spec fn host_error(operation: Operation, code: i32) -> CommError {
    CommError::Host { kind: kind_of_code(code), operation, code }
}

pub open spec fn error_kind(e: CommError) -> ErrorKind {
    match e {
        CommError::Host { kind, .. } => kind,
        CommError::TimedOut => ErrorKind::TimedOut,
        CommError::DelimiterNotFound => ErrorKind::Other,
    }
}

pub open spec fn operation_name(op: Operation) -> Seq<char> {
    match op {
        Operation::Open => "open"@,
        Operation::GetCommState => "GetCommState"@,
        Operation::SetCommState => "SetCommState"@,
        Operation::SetCommTimeouts => "SetCommTimeouts"@,
        Operation::Read => "read"@,
        Operation::Write => "write"@,
        Operation::Flush => "flush"@,
    }
}

/// The description that each error carries.
pub open spec fn error_message(e: CommError) -> Seq<char> {
    match e {
        CommError::Host { code, .. } => {
            if code == ERROR_ACCESS_DENIED {
                "Access denied. Resource might be busy"@
            } else if code == ERROR_FILE_NOT_FOUND {
                "Serial port not found"@
            } else if code == ERROR_INVALID_USER_BUFFER {
                "Supplied buffer is invalid"@
            } else if code == ERROR_NOT_ENOUGH_MEMORY {
                "Too many I/O requests, not enough memory"@
            } else if code == ERROR_OPERATION_ABORTED {
                "Operation was canceled"@
            } else if code == ERROR_INVALID_HANDLE {
                "Communications handle is invalid"@
            } else {
                "unmatched error"@
            }
        },
        CommError::TimedOut => "Operation timed out"@,
        CommError::DelimiterNotFound => "Delimiter was not found"@,
    }
}

/// Translates the status code of a failed host call into an error that
/// names the operation and keeps the code.
pub fn system_to_io_err(operation: Operation, error_code: i32) -> (r: CommError)
    ensures
        r == host_error(operation, error_code),
{
    let kind = if error_code == ERROR_ACCESS_DENIED {
        ErrorKind::AlreadyExists
    } else if error_code == ERROR_FILE_NOT_FOUND {
        ErrorKind::NotFound
    } else if error_code == ERROR_INVALID_USER_BUFFER || error_code == ERROR_INVALID_HANDLE {
        ErrorKind::InvalidInput
    } else if error_code == ERROR_NOT_ENOUGH_MEMORY {
        ErrorKind::ResourceExhausted
    } else if error_code == ERROR_OPERATION_ABORTED {
        ErrorKind::Interrupted
    } else {
        ErrorKind::Other
    };
    CommError::Host { kind, operation, code: error_code }
}

impl Operation {
    /// The name under which the operation is reported.
    pub fn name(&self) -> (r: &'static str)
        ensures
            r@ == operation_name(*self),
    {
        match self {
            Operation::Open => "open",
            Operation::GetCommState => "GetCommState",
            Operation::SetCommState => "SetCommState",
            Operation::SetCommTimeouts => "SetCommTimeouts",
            Operation::Read => "read",
            Operation::Write => "write",
            Operation::Flush => "flush",
        }
    }
}

impl CommError {
    /// The class of this error.
    pub fn kind(&self) -> (r: ErrorKind)
        ensures
            r == error_kind(*self),
    {
        match self {
            CommError::Host { kind, .. } => *kind,
            CommError::TimedOut => ErrorKind::TimedOut,
            CommError::DelimiterNotFound => ErrorKind::Other,
        }
    }

    /// A short description of the failure.
    pub fn message(&self) -> (r: &'static str)
        ensures
            r@ == error_message(*self),
    {
        match self {
            CommError::Host { code, .. } => {
                if *code == ERROR_ACCESS_DENIED {
                    "Access denied. Resource might be busy"
                } else if *code == ERROR_FILE_NOT_FOUND {
                    "Serial port not found"
                } else if *code == ERROR_INVALID_USER_BUFFER {
                    "Supplied buffer is invalid"
                } else if *code == ERROR_NOT_ENOUGH_MEMORY {
                    "Too many I/O requests, not enough memory"
                } else if *code == ERROR_OPERATION_ABORTED {
                    "Operation was canceled"
                } else if *code == ERROR_INVALID_HANDLE {
                    "Communications handle is invalid"
                } else {
                    "unmatched error"
                }
            },
            CommError::TimedOut => "Operation timed out",
            CommError::DelimiterNotFound => "Delimiter was not found",
        }
    }
}

} // verus!
