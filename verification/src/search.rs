//! The search dispatcher: what the search tool is run with, and what its
//! exit means for the invocation.

use vstd::prelude::*;
use crate::error::Error;

verus! {

/// The contents of a list of strings.
pub open spec fn texts(strings: Seq<String>) -> Seq<Seq<char>> {
    strings.map_values(|s: String| s@)
}

/// The arguments that the search tool is run with: those that the user
/// gave, in their order, and the path of the checkout after them. Without
/// any from the user there is nothing to search for.
pub open spec fn command_line(tool_args: Seq<Seq<char>>, target_path: Seq<char>) -> Result<
    Seq<Seq<char>>,
    Error,
> {
    if tool_args.len() == 0 {
        Err(Error::NoSearchArgs)
    } else {
        Ok(tool_args.push(target_path))
    }
}

/// Builds the argument list of the search tool.
pub fn search_arguments(tool_args: &Vec<String>, target_path: &str) -> (r: Result<
    Vec<String>,
    Error,
>)
    ensures
        r matches Ok(arguments) ==> command_line(texts(tool_args@), target_path@) == Ok::<
            Seq<Seq<char>>,
            Error,
        >(texts(arguments@)),
        r matches Err(e) ==> command_line(texts(tool_args@), target_path@) == Err::<
            Seq<Seq<char>>,
            Error,
        >(e),
{
    let n = tool_args.len();
    if n == 0 {
        return Err(Error::NoSearchArgs);
    }
    let mut arguments: Vec<String> = Vec::new();
    let mut i: usize = 0;
    while i < n
        invariant
            n == tool_args@.len(),
            i <= n,
            arguments@.len() == i,
            forall|j: int| 0 <= j < i ==> arguments@[j]@ == tool_args@[j]@,
        decreases n - i,
    {
        arguments.push(tool_args[i].clone());
        i = i + 1;
    }
    arguments.push(target_path.to_owned());
    assert(texts(arguments@) =~= texts(tool_args@).push(target_path@));
    Ok(arguments)
}

/// How the run of the search tool ended.
#[derive(Clone, Copy, Debug, PartialEq, Eq, Structural)]
pub enum SearchRun {
    /// The tool could not be started.
    NotStarted,
    /// The tool ran to its end, with this exit code where it left one. A
    /// tool that a signal ended leaves none.
    Exited { code: Option<i32> },
}

/// What the invocation reports of a search that ran: the exit code of the
/// process, and whether to warn the user that the search tool failed.
#[derive(Clone, Copy, Debug, PartialEq, Eq, Structural)]
pub struct SearchReport {
    pub exit_code: i32,
    pub warn: bool,
}

/// The exit code that stands for a search tool that left none.
pub const EXIT_WITHOUT_CODE: i32 = 1;

/// What the invocation makes of the way the search tool ended. The exit
/// code of the tool becomes that of the process, and any other than zero
/// comes with a warning. A tool that did not start is a fatal error.
pub open spec fn report_of(run: SearchRun) -> Result<SearchReport, Error> {
    match run {
        SearchRun::NotStarted => Err(Error::SearchToolUnavailable),
        SearchRun::Exited { code: Some(code) } => Ok(
            SearchReport { exit_code: code, warn: code != 0 },
        ),
        SearchRun::Exited { code: None } => Ok(
            SearchReport { exit_code: EXIT_WITHOUT_CODE, warn: true },
        ),
    }
}

/// Decides the exit code of the process from the way the search tool ended.
pub fn exit_status(run: SearchRun) -> (r: Result<SearchReport, Error>)
    ensures
        r == report_of(run),
{
    match run {
        SearchRun::NotStarted => Err(Error::SearchToolUnavailable),
        SearchRun::Exited { code: Some(code) } => Ok(
            SearchReport { exit_code: code, warn: code != 0 },
        ),
        SearchRun::Exited { code: None } => Ok(
            SearchReport { exit_code: EXIT_WITHOUT_CODE, warn: true },
        ),
    }
}

} // verus!
