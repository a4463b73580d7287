//! Opening a path with the desktop's default handler: what is run, and what is
//! printed afterwards. Starting the process is the program's part.

use vstd::prelude::*;
use vstd::string::*;
use crate::text::{quoted, spec_open_error, spec_quoted, texts};

verus! {

/// A process to start: the program and its arguments.
#[derive(Debug, PartialEq, Eq)]
pub struct Launch {
    pub program: String,
    pub arguments: Vec<String>,
}

/// The shell that opens a path.
pub open spec fn spec_shell() -> Seq<char> {
    "powershell"@
}

/// The arguments with which the shell opens `path`: the verb, then the path
/// between double quotes.
pub open spec fn spec_shell_arguments(path: Seq<char>) -> Seq<Seq<char>> {
    seq!["start"@, spec_quoted(path)]
}

/// The process that opens `path`. The path is taken as it is: whether
/// anything is there shows only when the desktop tries to open it.
pub fn open_this(path: &String) -> (launch: Launch)
    ensures
        launch.program@ == spec_shell(),
        texts(launch.arguments@) == spec_shell_arguments(path@),
{
    let mut arguments: Vec<String> = Vec::new();
    arguments.push(String::from_str("start"));
    arguments.push(quoted(path));
    assert(texts(arguments@) =~= spec_shell_arguments(path@));
    Launch { program: String::from_str("powershell"), arguments }
}

/// The line to print after the process for `path` was started or could not
/// be: the quoted path, or the failure.
pub open spec fn spec_open_report(path: Seq<char>, started: bool) -> Seq<char> {
    if started {
        spec_quoted(path)
    } else {
        spec_open_error()
    }
}

/// The line to print after the attempt to open `path`. `started` says
/// whether the process could be started; that it started says nothing of
/// whether the path could be opened.
pub fn open_report(path: &String, started: bool) -> (line: String)
    ensures
        line@ == spec_open_report(path@, started),
{
    if started {
        quoted(path)
    } else {
        String::from_str("Error: Failed to open file or folder.")
    }
}

} // verus!
