//! What the caller reports after it ran the git toolchain.

use vstd::prelude::*;
use vstd::utf8::*;

verus! {

/// How a run of the git toolchain ended.
#[derive(Debug)]
pub enum ProcessOutcome {
    /// The process could not be started.
    NotStarted,
    /// The process ran to its end. `code` is `None` when a signal ended it.
    Exited { code: Option<i32>, stdout: Vec<u8>, stderr: Vec<u8> },
    /// A pipe to the process broke while data was on its way.
    BrokenPipe,
    /// The process overran the time that the caller allowed and was killed.
    TimedOut,
}

/// The status that is reported for a process that a signal ended.
pub const KILLED: i32 = -1;

impl ProcessOutcome {
    /// Only an exit with status zero is a success.
    pub open spec fn succeeded(self) -> bool {
        self matches ProcessOutcome::Exited { code: Some(c), .. } && c == 0
    }

    /// Whether the process ran to its end and ended with status zero.
    pub fn is_success(&self) -> (r: bool)
        ensures
            r == self.succeeded(),
    {
        match self {
            ProcessOutcome::Exited { code: Some(c), .. } => *c == 0,
            _ => false,
        }
    }
}

/// The exit status as a number.
pub open spec fn exit_status(code: Option<i32>) -> i32 {
    match code {
        Some(c) => c,
        None => KILLED,
    }
}

/// The text that `String::from_utf8_lossy` makes of a run of bytes.
pub uninterp spec fn lossy_text(bytes: Seq<u8>) -> Seq<char>;

/// Calls `String::from_utf8_lossy`. The result is a function of the bytes
/// alone; for bytes that are valid UTF-8 it is the text that they encode,
/// and elsewhere it holds replacement characters in a way that is not
/// spelled out here.
#[verifier::external_body]
pub(crate) fn lossy(bytes: &[u8]) -> (text: String)
    ensures
        text@ == lossy_text(bytes@),
        valid_utf8(bytes@) ==> text@ == decode_utf8(bytes@),
{
    String::from_utf8_lossy(bytes).into_owned()
}

} // verus!
