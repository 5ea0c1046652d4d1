//! Reading the answers of the login manager's session queries.

use vstd::prelude::*;
use vstd::string::*;
use crate::sys::{
    bad_descriptor_error,
    invalid_argument_error,
    no_data_error,
    no_such_address_error,
    no_such_process_error,
    out_of_memory_error,
};

verus! {

/// Why a session query failed, by the error the login manager returned.
#[derive(Debug, Clone, Copy, PartialEq, Eq, Structural)]
pub enum QueryFailure {
    /// `ESRCH`: no process has the given id.
    NoSuchProcess,
    /// `EBADF`: the socket descriptor was invalid.
    BadDescriptor,
    /// `ENODATA`: the field is not set.
    NoData,
    /// `EINVAL`: an argument was invalid.
    InvalidArgument,
    /// `ENOMEM`: memory ran out.
    OutOfMemory,
    /// `ENXIO`: no session has the given id.
    NoSuchSession,
    /// Any other error.
    Other,
}

/// The error numbers of the operating system that the queries can fail
/// with. They differ between systems, so they are read once, from the
/// system, and every status is told apart by them.
#[derive(Debug, Clone, Copy, PartialEq, Eq, Structural)]
pub struct ErrorNumbers {
    /// `ESRCH`.
    pub no_such_process: i32,
    /// `EBADF`.
    pub bad_descriptor: i32,
    /// `ENODATA`.
    pub no_data: i32,
    /// `EINVAL`.
    pub invalid_argument: i32,
    /// `ENOMEM`.
    pub out_of_memory: i32,
    /// `ENXIO`.
    pub no_such_session: i32,
}

/// Whether `numbers` are the error numbers of some Linux-like system.
pub open spec fn is_system(numbers: ErrorNumbers) -> bool {
    &&& numbers.no_such_process == 3 || numbers.no_such_process == 71
    &&& numbers.bad_descriptor == 9 || numbers.bad_descriptor == 8
    &&& numbers.no_data == 61 || numbers.no_data == 111 || numbers.no_data == 116
    &&& numbers.invalid_argument == 22 || numbers.invalid_argument == 28
    &&& numbers.out_of_memory == 12 || numbers.out_of_memory == 48
    &&& numbers.no_such_session == 6 || numbers.no_such_session == 60
}

/// The failure that the status `status` of a query stands for: a query
/// fails with the negative of an error number.
pub open spec fn failure_of(status: int, numbers: ErrorNumbers) -> QueryFailure {
    if status == -numbers.no_such_process {
        QueryFailure::NoSuchProcess
    } else if status == -numbers.bad_descriptor {
        QueryFailure::BadDescriptor
    } else if status == -numbers.no_data {
        QueryFailure::NoData
    } else if status == -numbers.invalid_argument {
        QueryFailure::InvalidArgument
    } else if status == -numbers.out_of_memory {
        QueryFailure::OutOfMemory
    } else if status == -numbers.no_such_session {
        QueryFailure::NoSuchSession
    } else {
        QueryFailure::Other
    }
}

/// On any one system a status stands for one failure only, whatever the
/// order in which the error numbers are tried: the numbers of a system are
/// all different.
pub proof fn error_numbers_differ(numbers: ErrorNumbers)
    requires
        is_system(numbers),
    ensures
        failure_of(-numbers.no_such_process, numbers) == QueryFailure::NoSuchProcess,
        failure_of(-numbers.bad_descriptor, numbers) == QueryFailure::BadDescriptor,
        failure_of(-numbers.no_data, numbers) == QueryFailure::NoData,
        failure_of(-numbers.invalid_argument, numbers) == QueryFailure::InvalidArgument,
        failure_of(-numbers.out_of_memory, numbers) == QueryFailure::OutOfMemory,
        failure_of(-numbers.no_such_session, numbers) == QueryFailure::NoSuchSession,
        forall|status: int| status >= 0 ==> failure_of(status, numbers) == QueryFailure::Other,
{
}

impl ErrorNumbers {
    /// The error numbers of the system that the program runs on.
    pub fn system() -> (numbers: Self)
        ensures
            is_system(numbers),
    {
        ErrorNumbers {
            no_such_process: no_such_process_error(),
            bad_descriptor: bad_descriptor_error(),
            no_data: no_data_error(),
            invalid_argument: invalid_argument_error(),
            out_of_memory: out_of_memory_error(),
            no_such_session: no_such_address_error(),
        }
    }

    /// The failure that the status `status` of a query stands for.
    pub fn query_failure(&self, status: i32) -> (failure: QueryFailure)
        ensures
            failure == failure_of(status as int, *self),
    {
        let status = status as i64;
        if status == -(self.no_such_process as i64) {
            QueryFailure::NoSuchProcess
        } else if status == -(self.bad_descriptor as i64) {
            QueryFailure::BadDescriptor
        } else if status == -(self.no_data as i64) {
            QueryFailure::NoData
        } else if status == -(self.invalid_argument as i64) {
            QueryFailure::InvalidArgument
        } else if status == -(self.out_of_memory as i64) {
            QueryFailure::OutOfMemory
        } else if status == -(self.no_such_session as i64) {
            QueryFailure::NoSuchSession
        } else {
            QueryFailure::Other
        }
    }
}

/// What is said of a failed query for the session of a process.
pub open spec fn process_detail(failure: QueryFailure) -> Seq<char> {
    match failure {
        QueryFailure::NoSuchProcess => "The specified PID does not refer to a running process."@,
        QueryFailure::BadDescriptor => "The specified socket file descriptor was invalid."@,
        QueryFailure::NoData => "The given field is not specified for the described process or peer."@,
        QueryFailure::InvalidArgument => "An input parameter was invalid (out of range, or NULL, where that is not accepted)."@,
        QueryFailure::OutOfMemory => "Memory allocation failed."@,
        _ => "Unknown error."@,
    }
}

/// What is said of a failed query for the seat of a session.
pub open spec fn session_detail(failure: QueryFailure) -> Seq<char> {
    match failure {
        QueryFailure::NoSuchSession => "The specified session does not exist."@,
        QueryFailure::NoData => "The given field is not specified for the described session."@,
        QueryFailure::InvalidArgument => "An input parameter was invalid (out of range, or NULL, where that is not accepted)."@,
        QueryFailure::OutOfMemory => "Memory allocation failed."@,
        _ => "Unknown error."@,
    }
}

fn process_detail_text(failure: QueryFailure) -> (text: &'static str)
    ensures
        text@ == process_detail(failure),
{
    match failure {
        QueryFailure::NoSuchProcess => "The specified PID does not refer to a running process.",
        QueryFailure::BadDescriptor => "The specified socket file descriptor was invalid.",
        QueryFailure::NoData => "The given field is not specified for the described process or peer.",
        QueryFailure::InvalidArgument => "An input parameter was invalid (out of range, or NULL, where that is not accepted).",
        QueryFailure::OutOfMemory => "Memory allocation failed.",
        _ => "Unknown error.",
    }
}

fn session_detail_text(failure: QueryFailure) -> (text: &'static str)
    ensures
        text@ == session_detail(failure),
{
    match failure {
        QueryFailure::NoSuchSession => "The specified session does not exist.",
        QueryFailure::NoData => "The given field is not specified for the described session.",
        QueryFailure::InvalidArgument => "An input parameter was invalid (out of range, or NULL, where that is not accepted).",
        QueryFailure::OutOfMemory => "Memory allocation failed.",
        _ => "Unknown error.",
    }
}

/// Reads the answer to the query for the session of a process: the
/// session's id, or the complaint about the failure.
pub fn pid_get_session(answer: Result<String, QueryFailure>) -> (r: Result<String, String>)
    ensures
        match answer {
            Ok(id) => r is Ok && r->Ok_0@ == id@,
            Err(failure) => r is Err && r->Err_0@
                == "logind: failed to get session from pid. "@ + process_detail(failure),
        },
{
    match answer {
        Ok(id) => Ok(id),
        Err(failure) => {
            let mut message = String::from_str("logind: failed to get session from pid. ");
            message.append(process_detail_text(failure));
            Err(message)
        },
    }
}

/// Reads the answer to the query for the seat of a session: the seat's id,
/// or the complaint about the failure.
pub fn session_get_seat(answer: Result<String, QueryFailure>) -> (r: Result<String, String>)
    ensures
        match answer {
            Ok(seat) => r is Ok && r->Ok_0@ == seat@,
            Err(failure) => r is Err && r->Err_0@ == "logind: failed to get session seat. "@
                + session_detail(failure),
        },
{
    match answer {
        Ok(seat) => Ok(seat),
        Err(failure) => {
            let mut message = String::from_str("logind: failed to get session seat. ");
            message.append(session_detail_text(failure));
            Err(message)
        },
    }
}

/// Reads the answer to the query for the virtual terminal of a session;
/// `None` where the session has none.
pub fn session_get_vt(answer: Option<u32>) -> (r: Result<u32, String>)
    ensures
        match answer {
            Some(vt) => r == Ok::<u32, String>(vt),
            None => r is Err && r->Err_0@ == "logind: session not running on a VT"@,
        },
{
    match answer {
        Some(vt) => Ok(vt),
        None => Err(String::from_str("logind: session not running on a VT")),
    }
}

} // verus!
