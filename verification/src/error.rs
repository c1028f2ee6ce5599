//! The ways an invocation can fail.

use vstd::prelude::*;

verus! {

/// A fatal error. Each one ends the invocation before the search is
/// dispatched, or when the search tool cannot be started.
#[derive(Clone, Copy, Debug, PartialEq, Eq, Structural)]
pub enum Error {
    /// The reference is neither an absolute URL nor a path that can be
    /// joined onto the default host.
    MalformedReference,
    /// The canonical URL has no path segment that could name a repository.
    EmptyPath,
    /// The cache root cannot be created or used.
    CacheRootUnwritable,
    /// The configuration file exists and does not hold a configuration.
    ConfigCorrupt,
    /// The clone of the remote repository failed.
    CloneFailed,
    /// The requested branch or tag is not in the checkout.
    BranchNotFound,
    /// No argument was given for the search tool.
    NoSearchArgs,
    /// The search tool could not be started.
    SearchToolUnavailable,
}

impl Error {
    /// The exit code that stands for this error.
    pub open spec fn code(self) -> int {
        match self {
            Error::MalformedReference => 64,
            Error::EmptyPath => 65,
            Error::CacheRootUnwritable => 66,
            Error::ConfigCorrupt => 67,
            Error::CloneFailed => 68,
            Error::BranchNotFound => 69,
            Error::NoSearchArgs => 70,
            Error::SearchToolUnavailable => 71,
        }
    }

    /// The process exit code for this error: never zero, and a different one
    /// for each kind.
    pub fn exit_code(self) -> (code: i32)
        ensures
            code == self.code(),
            code != 0,
    {
        match self {
            Error::MalformedReference => 64,
            Error::EmptyPath => 65,
            Error::CacheRootUnwritable => 66,
            Error::ConfigCorrupt => 67,
            Error::CloneFailed => 68,
            Error::BranchNotFound => 69,
            Error::NoSearchArgs => 70,
            Error::SearchToolUnavailable => 71,
        }
    }

    /// What the user is told of this error.
    pub open spec fn description(self) -> Seq<char> {
        match self {
            Error::MalformedReference => "the repository reference is neither a URL nor a path on the default host"@,
            Error::EmptyPath => "the repository URL has no path that names a repository"@,
            Error::CacheRootUnwritable => "the cache directory cannot be created or used"@,
            Error::ConfigCorrupt => "the configuration file is not valid; correct or delete it"@,
            Error::CloneFailed => "the repository could not be cloned"@,
            Error::BranchNotFound => "the branch or tag was not found in the repository"@,
            Error::NoSearchArgs => "no arguments were given for the search"@,
            Error::SearchToolUnavailable => "the search tool could not be started"@,
        }
    }

    /// The message that describes this error to the user.
    pub fn message(self) -> (text: &'static str)
        ensures
            text@ == self.description(),
    {
        match self {
            Error::MalformedReference => "the repository reference is neither a URL nor a path on the default host",
            Error::EmptyPath => "the repository URL has no path that names a repository",
            Error::CacheRootUnwritable => "the cache directory cannot be created or used",
            Error::ConfigCorrupt => "the configuration file is not valid; correct or delete it",
            Error::CloneFailed => "the repository could not be cloned",
            Error::BranchNotFound => "the branch or tag was not found in the repository",
            Error::NoSearchArgs => "no arguments were given for the search",
            Error::SearchToolUnavailable => "the search tool could not be started",
        }
    }

    /// Two errors with the same exit code are the same error.
    pub proof fn lemma_codes_distinct(a: Error, b: Error)
        requires
            a.code() == b.code(),
        ensures
            a == b,
    {
    }
}

} // verus!
