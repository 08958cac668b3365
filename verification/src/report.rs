//! What the client prints: notices, fatal errors, usage errors, and the help
//! and version texts, each with the exit code that goes with it.

use vstd::prelude::*;
use vstd::string::*;

verus! {

/// The exit code of a run that ended well.
pub const EXIT_OK: i32 = 0;

/// The exit code of every fatal error.
pub const EXIT_ERROR: i32 = 1;

/// The exit code of a malformed invocation.
pub const EXIT_USAGE: i32 = 2;

/// What the client is.
pub const INFO: &'static str =
    "=============== JGrab Client ================\n - https://github.com/renatoathaydes/jgrab -\n=============================================\nJgrab can execute Java code from stdin (if not given any argument),\na Java file, or a Java snippet.\n\nThis is the native JGrab Client, written in Rust!\n\nA Java daemon is started the first time the JGrab Client is run so\nthat subsequent runs are much faster.";

/// How the client is called.
pub const USAGE: &'static str =
    "Usage:\n  jgrab [<option> | java_file [java-args*] | -e java_snippet]\nOptions:\n  --stop -s\n    Stops the JGrab daemon.\n  --start -t\n    Starts the JGrab daemon (if not yet running).\n  --help -h\n    Shows usage.\n  --version -v\n    Shows version information.";

/// A last line to print, and the code to leave the process with.
#[derive(Debug, Clone, PartialEq, Eq)]
pub struct Exit {
    pub line: String,
    pub code: i32,
}

/// An `Exit` as plain values.
pub struct ExitView {
    pub line: Seq<char>,
    pub code: int,
}

impl View for Exit {
    type V = ExitView;

    open spec fn view(&self) -> ExitView {
        ExitView { line: self.line@, code: self.code as int }
    }
}

/// The line of a notice.
pub open spec fn log_line(message: Seq<char>) -> Seq<char> {
    "=== JGrab Client - "@ + message + " ==="@
}

/// The line of a fatal error.
pub open spec fn error_line(message: Seq<char>) -> Seq<char> {
    "### JGrab Client Error - "@ + message + " ###"@
}

/// The lines of a usage error: the complaint, an empty line, the usage text.
pub open spec fn usage_error_lines(message: Seq<char>) -> Seq<char> {
    "### "@ + message + " ###\n\n"@ + USAGE@
}

/// The end that a fatal error makes.
pub open spec fn error_exit(message: Seq<char>) -> ExitView {
    ExitView { line: error_line(message), code: EXIT_ERROR as int }
}

/// The end that a usage error makes.
pub open spec fn usage_error_exit(message: Seq<char>) -> ExitView {
    ExitView { line: usage_error_lines(message), code: EXIT_USAGE as int }
}

/// The help text: what the client is, an empty line, how it is called.
pub open spec fn help_lines() -> Seq<char> {
    INFO@ + "\n\n"@ + USAGE@
}

/// The line that gives the client's own version.
pub open spec fn version_line(version: Seq<char>) -> Seq<char> {
    "JGrab Client Version: "@ + version
}

/// Renders a notice.
pub fn log(message: &str) -> (line: String)
    ensures
        line@ == log_line(message@),
{
    let mut line = String::from_str("=== JGrab Client - ");
    line.append(message);
    line.append(" ===");
    line
}

/// Renders a fatal error: its line goes with `EXIT_ERROR`.
pub fn error(message: &str) -> (exit: Exit)
    ensures
        exit@ == error_exit(message@),
{
    let mut line = String::from_str("### JGrab Client Error - ");
    line.append(message);
    line.append(" ###");
    Exit { line, code: EXIT_ERROR }
}

/// Renders a usage error: its lines go with `EXIT_USAGE`.
pub fn usage_error(message: &str) -> (exit: Exit)
    ensures
        exit@ == usage_error_exit(message@),
{
    let mut line = String::from_str("### ");
    line.append(message);
    line.append(" ###\n\n");
    line.append(USAGE);
    Exit { line, code: EXIT_USAGE }
}

/// Renders the help text.
pub fn help() -> (lines: String)
    ensures
        lines@ == help_lines(),
{
    let mut lines = String::from_str(INFO);
    lines.append("\n\n");
    lines.append(USAGE);
    lines
}

/// Renders the line that gives the client's own version.
pub fn client_version(version: &str) -> (line: String)
    ensures
        line@ == version_line(version@),
{
    let mut line = String::from_str("JGrab Client Version: ");
    line.append(version);
    line
}

/// The three exit codes differ, and only the first is zero.
pub proof fn lemma_exit_codes_distinct()
    ensures
        EXIT_OK == 0,
        EXIT_USAGE != 0,
        EXIT_ERROR != 0,
        EXIT_USAGE != EXIT_ERROR,
{
}

} // verus!
