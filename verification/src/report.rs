//! The report shown after a script has run.

use vstd::prelude::*;
use vstd::string::StringExecFns;
use vstd::utf8::decode_utf8;
use vstd::utf8::valid_utf8;
use crate::text::decimal;
use crate::text::decimal_string;

verus! {

/// What a finished child process leaves behind.
#[derive(Debug)]
pub struct RunOutput {
    /// Exit code; `None` where the process ended without one.
    pub code: Option<i32>,
    /// Bytes written to standard output.
    pub stdout: Vec<u8>,
    /// Bytes written to standard error.
    pub stderr: Vec<u8>,
}

/// The code a run is reported with: `-1` stands for a missing one.
pub open spec fn exit_code(code: Option<i32>) -> int {
    match code {
        Some(c) => c as int,
        None => -1,
    }
}

/// First lines of the report: a mark for success or failure, and the code.
pub open spec fn report_header(code: int) -> Seq<char> {
    if code == 0 {
        "✓ Script completed successfully\nExit code: 0"@
    } else {
        "✗ Script failed\nExit code: "@ + decimal(code)
    }
}

/// `text`, or `placeholder` where there is no text.
pub open spec fn or_placeholder(text: Seq<char>, placeholder: Seq<char>) -> Seq<char> {
    if text.len() == 0 {
        placeholder
    } else {
        text
    }
}

/// The whole report on a run that ended with `code` and wrote `out` and
/// `err`.
pub open spec fn report_text(code: int, out: Seq<char>, err: Seq<char>) -> Seq<char> {
    report_header(code) + "\n\n=== OUTPUT ===\n"@ + or_placeholder(out, "(no output)"@)
        + "\n\n=== ERRORS ===\n"@ + or_placeholder(err, "(none)"@)
}

/// What is shown when the script could not be started.
pub open spec fn launch_failure_text(message: Seq<char>) -> Seq<char> {
    "✗ Error running script:\n"@ + message
}

/// What is shown while the script runs.
pub open spec fn running_text() -> Seq<char> {
    "Running script...\n\nPlease wait..."@
}

/// The text that `String::from_utf8_lossy` makes of `bytes`.
pub uninterp spec fn lossy_text(bytes: Seq<u8>) -> Seq<char>;

/// Decodes with `String::from_utf8_lossy`. Valid UTF-8 is decoded as it
/// stands; otherwise the result is only named, since std replaces each
/// invalid sequence by U+FFFD in a way too long to restate here.
#[verifier::external_body]
fn decode_lossy(bytes: &[u8]) -> (text: String)
    ensures
        text@ == lossy_text(bytes@),
        valid_utf8(bytes@) ==> text@ == decode_utf8(bytes@),
{
    String::from_utf8_lossy(bytes).into_owned()
}

/// Composes the report on a run that ended with `code` and wrote `stdout`
/// and `stderr`.
pub fn compose_report(code: i32, stdout: &str, stderr: &str) -> (report: String)
    ensures
        report@ == report_text(code as int, stdout@, stderr@),
{
    let mut report = if code == 0 {
        "✓ Script completed successfully\nExit code: 0".to_owned()
    } else {
        let mut header = "✗ Script failed\nExit code: ".to_owned();
        let digits = decimal_string(code);
        header.append(digits.as_str());
        header
    };
    report.append("\n\n=== OUTPUT ===\n");
    if stdout.is_empty() {
        report.append("(no output)");
    } else {
        report.append(stdout);
    }
    report.append("\n\n=== ERRORS ===\n");
    if stderr.is_empty() {
        report.append("(none)");
    } else {
        report.append(stderr);
    }
    report
}

/// Composes the report on a finished child process. Its output is decoded
/// leniently, and a missing exit code is reported as `-1`.
pub fn report_on(output: &RunOutput) -> (report: String)
    ensures
        report@ == report_text(
            exit_code(output.code),
            lossy_text(output.stdout@),
            lossy_text(output.stderr@),
        ),
        valid_utf8(output.stdout@) && valid_utf8(output.stderr@) ==> report@ == report_text(
            exit_code(output.code),
            decode_utf8(output.stdout@),
            decode_utf8(output.stderr@),
        ),
{
    let code: i32 = match output.code {
        Some(c) => c,
        None => -1,
    };
    let stdout = decode_lossy(output.stdout.as_slice());
    let stderr = decode_lossy(output.stderr.as_slice());
    compose_report(code, stdout.as_str(), stderr.as_str())
}

} // verus!
