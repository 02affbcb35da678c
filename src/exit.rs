//! How a helper program ended, and what that means for the step that ran it.
use vstd::prelude::*;

use crate::error::InitError;

verus! {

/// The exit disposition of a helper program.
#[derive(Copy, Clone, Debug, PartialEq, Eq, Structural)]
pub enum ProcessExit {
    /// It exited with status code zero.
    Success,
    /// It exited with this non-zero status code.
    Code(i32),
    /// It was terminated by this signal.
    Signal(i32),
}

/// What the platform reports of a finished process: a status code when it
/// exited, a signal when a signal ended it. A status code takes precedence, so
/// a disposition never reports both.
pub open spec fn disposition_of(code: Option<i32>, signal: Option<i32>) -> ProcessExit {
    match code {
        Some(c) => if c == 0 {
            ProcessExit::Success
        } else {
            ProcessExit::Code(c)
        },
        None => ProcessExit::Signal(signal->0),
    }
}

/// Classifies a finished process from its status code and terminating signal.
/// One of the two is always present for a process that has ended.
pub fn exit_disposition(code: Option<i32>, signal: Option<i32>) -> (r: ProcessExit)
    requires
        code is Some || signal is Some,
    ensures
        r == disposition_of(code, signal),
        r is Success <==> code == Some(0i32),
        r is Code ==> code == Some(r->Code_0),
        r is Signal ==> code is None && signal == Some(r->Signal_0),
{
    match code {
        Some(c) => if c == 0 {
            ProcessExit::Success
        } else {
            ProcessExit::Code(c)
        },
        None => match signal {
            Some(s) => ProcessExit::Signal(s),
            None => ProcessExit::Success,
        },
    }
}

/// The outcome of a step that ran `program` to completion: success exactly when
/// it exited with status zero, otherwise an error carrying the code or signal.
pub fn check_helper_exit(program: &str, exit: ProcessExit) -> (r: Result<(), InitError>)
    ensures
        exit is Success <==> r is Ok,
        exit is Code ==> (r matches Err(InitError::HelperExitCode { program: p, code: c })
            && p@ == program@ && c == exit->Code_0),
        exit is Signal ==> (r matches Err(InitError::HelperSignal { program: p, signal: s })
            && p@ == program@ && s == exit->Signal_0),
{
    match exit {
        ProcessExit::Success => Ok(()),
        ProcessExit::Code(code) => Err(
            InitError::HelperExitCode { program: String::from_str(program), code },
        ),
        ProcessExit::Signal(signal) => Err(
            InitError::HelperSignal { program: String::from_str(program), signal },
        ),
    }
}

} // verus!
