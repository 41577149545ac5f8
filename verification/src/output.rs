//! What the server makes of a run of the `agent-browser` command: the time it
//! is given, and the text that its output becomes.

use vstd::prelude::*;
use vstd::utf8::{decode_utf8, valid_utf8};
use crate::protocol::outcome_view;
use crate::text::{decimal, trim_end, trim_end_spec, u64_to_decimal};

verus! {

/// The time a command is given, in seconds, when the call names none.
pub const DEFAULT_TIMEOUT_SECS: u64 = 60;

/// The time a command is given, in seconds.
pub fn effective_timeout(timeout_secs: Option<u64>) -> (t: u64)
    ensures
        t == match timeout_secs {
            Some(s) => s,
            None => DEFAULT_TIMEOUT_SECS,
        },
{
    match timeout_secs {
        Some(s) => s,
        None => DEFAULT_TIMEOUT_SECS,
    }
}

/// The message for a command that did not finish within `secs` seconds.
pub fn timeout_message(secs: u64) -> (m: String)
    ensures
        m@ == "agent-browser timed out after "@ + decimal(secs as nat) + "s"@,
{
    let mut m = String::from_str("agent-browser timed out after ");
    let n = u64_to_decimal(secs);
    m.append(n.as_str());
    m.append("s");
    m
}

/// The message for a command that could not be started, given the text of the
/// system's error.
pub fn spawn_failure_message(detail: &str) -> (m: String)
    ensures
        m@ == "Failed to execute agent-browser: "@ + detail@,
{
    let mut m = String::from_str("Failed to execute agent-browser: ");
    m.append(detail);
    m
}

/// What `String::from_utf8_lossy` makes of `bytes`.
pub uninterp spec fn lossy_text(bytes: Seq<u8>) -> Seq<char>;

/// Calls `String::from_utf8_lossy`. Its result is named `lossy_text`; bytes
/// that are valid UTF-8 decode to their characters. What replaces invalid
/// sequences is not stated.
#[verifier::external_body]
fn lossy_utf8(bytes: &[u8]) -> (s: String)
    ensures
        s@ == lossy_text(bytes@),
        valid_utf8(bytes@) ==> s@ == decode_utf8(bytes@),
{
    String::from_utf8_lossy(bytes).into_owned()
}

/// The text of one output stream: decoded, with trailing whitespace removed.
pub open spec fn stream_text(bytes: Seq<u8>) -> Seq<char> {
    trim_end_spec(lossy_text(bytes))
}

/// The message for a command that succeeded without printing anything.
pub open spec fn done_message() -> Seq<char> {
    "Command executed successfully"@
}

/// The outcome of a finished command: on success its standard output, or a
/// fixed message when that is empty; on failure its standard error, or its
/// standard output when the error stream is empty.
pub open spec fn output_outcome(success: bool, stdout: Seq<u8>, stderr: Seq<u8>) -> Result<
    Seq<char>,
    Seq<char>,
> {
    if success {
        if stream_text(stdout).len() == 0 {
            Ok(done_message())
        } else {
            Ok(stream_text(stdout))
        }
    } else if stream_text(stderr).len() == 0 {
        Err(stream_text(stdout))
    } else {
        Err(stream_text(stderr))
    }
}

/// The text of one output stream.
pub fn stream_output(bytes: &[u8]) -> (s: String)
    ensures
        s@ == stream_text(bytes@),
        trim_end_spec(s@) == s@,
        valid_utf8(bytes@) ==> s@ == trim_end_spec(decode_utf8(bytes@)),
{
    let raw = lossy_utf8(bytes);
    trim_end(raw.as_str())
}

/// Turns the exit status and the two output streams of a finished command into
/// its outcome. No answer ends in whitespace, and a successful one is never
/// empty.
pub fn interpret_output(success: bool, stdout: &[u8], stderr: &[u8]) -> (r: Result<
    String,
    String,
>)
    ensures
        outcome_view(r) == output_outcome(success, stdout@, stderr@),
        r is Ok ==> r->Ok_0@.len() > 0 && trim_end_spec(r->Ok_0@) == r->Ok_0@,
        r is Err ==> trim_end_spec(r->Err_0@) == r->Err_0@,
{
    if success {
        let out = stream_output(stdout);
        if out.as_str().is_empty() {
            proof {
                reveal_strlit("Command executed successfully");
            }
            Ok(String::from_str("Command executed successfully"))
        } else {
            Ok(out)
        }
    } else {
        let err = stream_output(stderr);
        let out = stream_output(stdout);
        if err.as_str().is_empty() {
            Err(out)
        } else {
            Err(err)
        }
    }
}

} // verus!
