use vstd::prelude::*;
use vstd::string::*;

verus! {

/// How the last setup script of the current page ended.
#[derive(Clone, Copy, Debug, PartialEq, Eq, Structural)]
pub enum ScriptResult {
    /// No script has ended since the page was entered or the script started.
    Idle,
    Succeeded,
    Failed,
}

impl ScriptResult {
    /// The number under which front ends publish the result: 0 idle, 1 success, 2 failure.
    pub open spec fn spec_code(self) -> i32 {
        match self {
            ScriptResult::Idle => 0,
            ScriptResult::Succeeded => 1,
            ScriptResult::Failed => 2,
        }
    }

    pub fn code(&self) -> (r: i32)
        ensures
            r == self.spec_code(),
    {
        match self {
            ScriptResult::Idle => 0,
            ScriptResult::Succeeded => 1,
            ScriptResult::Failed => 2,
        }
    }

    /// The result a finished script reports.
    pub open spec fn spec_from_success(success: bool) -> ScriptResult {
        if success {
            ScriptResult::Succeeded
        } else {
            ScriptResult::Failed
        }
    }

    pub fn from_success(success: bool) -> (r: ScriptResult)
        ensures
            r == Self::spec_from_success(success),
    {
        if success {
            ScriptResult::Succeeded
        } else {
            ScriptResult::Failed
        }
    }
}

/// The first text of the setup log, written when a script starts.
pub const START_NOTE: &'static str = "Starting setup, please wait…\n";

/// The last line of the setup log after a script exited with success.
pub const SUCCESS_NOTE: &'static str = "\nSetup completed successfully!";

/// The last line of the setup log after a script failed or could not start.
pub const FAILURE_NOTE: &'static str = "\nSetup failed. You can retry or skip.";

/// What is appended to the log for one line of script output: nothing for an
/// empty line, else the line and a line break.
pub open spec fn spec_log_chunk(line: Seq<char>) -> Option<Seq<char>> {
    if line.len() == 0 {
        None
    } else {
        Some(line + "\n"@)
    }
}

/// The text appended to the log for one line of script output.
pub fn log_chunk(line: &str) -> (r: Option<String>)
    ensures
        r matches Some(c) ==> spec_log_chunk(line@) == Some(c@),
        r is None ==> spec_log_chunk(line@) is None,
{
    if line.unicode_len() == 0 {
        None
    } else {
        let mut chunk = line.to_owned();
        chunk.append("\n");
        Some(chunk)
    }
}

/// The text appended to the log when the script exits.
pub open spec fn spec_exit_chunk(success: bool) -> Seq<char> {
    if success {
        SUCCESS_NOTE@ + "\n"@
    } else {
        FAILURE_NOTE@ + "\n"@
    }
}

pub fn exit_chunk(success: bool) -> (r: String)
    ensures
        r@ == spec_exit_chunk(success),
{
    let mut chunk = if success {
        String::from_str(SUCCESS_NOTE)
    } else {
        String::from_str(FAILURE_NOTE)
    };
    chunk.append("\n");
    chunk
}

/// The text appended to the log when the script could not be started:
/// the error, then `note`, then a line break.
pub fn start_error_chunk(error: &str, note: &str) -> (r: String)
    ensures
        r@ == error@ + note@ + "\n"@,
{
    let mut chunk = error.to_owned();
    chunk.append(note);
    chunk.append("\n");
    chunk
}

} // verus!
