//! The errors of guest bootstrap, and their messages.
use vstd::prelude::*;

use crate::decimal::{decimal_string, decimal_text};

verus! {

/// Why a bootstrap step failed. Every one of these is fatal to the step that
/// reports it; only the caller decides whether a missing program is.
#[derive(Clone, Debug, PartialEq, Eq)]
pub enum InitError {
    /// A required program is not on the search path.
    LookupFailure { program: String },
    /// A program was found but could not be started.
    SpawnFailure { program: String, detail: String },
    /// A file or socket operation failed.
    IoFailure { operation: String, detail: String },
    /// A helper program exited with a non-zero status code.
    HelperExitCode { program: String, code: i32 },
    /// A helper program was terminated by a signal.
    HelperSignal { program: String, signal: i32 },
    /// A privileged kernel operation (a mount, setting the hostname) failed.
    KernelOperationFailure { operation: String, detail: String },
}

/// The text of `s` between backquotes.
pub open spec fn quoted(s: Seq<char>) -> Seq<char> {
    seq!['`'] + s + seq!['`']
}

/// The message that describes `e`.
pub open spec fn message_text(e: InitError) -> Seq<char> {
    match e {
        InitError::LookupFailure { program } => quoted(program@)
            + " executable not found in PATH"@,
        InitError::SpawnFailure { program, detail } => "Failed to execute "@ + quoted(program@)
            + " as child process: "@ + detail@,
        InitError::IoFailure { operation, detail } => operation@ + ": "@ + detail@,
        InitError::HelperExitCode { program, code } => quoted(program@)
            + " process exited with status code: "@ + decimal_text(code as int),
        InitError::HelperSignal { program, signal } => quoted(program@)
            + " process terminated by signal: "@ + decimal_text(signal as int),
        InitError::KernelOperationFailure { operation, detail } => operation@ + ": "@ + detail@,
    }
}

fn quote(s: &String) -> (r: String)
    ensures
        r@ == quoted(s@),
{
    proof { reveal_strlit("`"); }
    let r = String::from_str("`").concat(s.as_str()).concat("`");
    assert(r@ =~= quoted(s@));
    r
}

impl InitError {
    /// A readable account of the error, naming the operation or program concerned.
    pub fn message(&self) -> (r: String)
        ensures
            r@ == message_text(*self),
    {
        match self {
            InitError::LookupFailure { program } => {
                quote(program).concat(" executable not found in PATH")
            },
            InitError::SpawnFailure { program, detail } => {
                let q = quote(program);
                let r = String::from_str("Failed to execute ").concat(q.as_str()).concat(
                    " as child process: ",
                ).concat(detail.as_str());
                assert(r@ =~= message_text(*self));
                r
            },
            InitError::IoFailure { operation, detail } => {
                operation.clone().concat(": ").concat(detail.as_str())
            },
            InitError::HelperExitCode { program, code } => {
                let d = decimal_string(*code);
                quote(program).concat(" process exited with status code: ").concat(d.as_str())
            },
            InitError::HelperSignal { program, signal } => {
                let d = decimal_string(*signal);
                quote(program).concat(" process terminated by signal: ").concat(d.as_str())
            },
            InitError::KernelOperationFailure { operation, detail } => {
                operation.clone().concat(": ").concat(detail.as_str())
            },
        }
    }
}

} // verus!
