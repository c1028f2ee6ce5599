//! The checkout orchestrator: from a reference to a checkout that is ready
//! to be searched.
//!
//! The clone and the switch of branch are the caller's to perform. What is
//! decided here is which of them are needed, in what order, and what their
//! failure amounts to.

use vstd::prelude::*;
use crate::cache::{is_stale, stale, CheckoutEntry, SECONDS_PER_DAY};
use crate::error::Error;
use crate::identifier::{get_repo_name_from_url, lemma_trailing_slash_ignored, repo_name};
use crate::resolver::{
    joined_url, parse_url, parsed_url, resolve, rooted, CanonicalUrl, CanonicalUrlView,
    ParsedUrlView, GITHUB_BASE_URL,
};

verus! {

/// A resolved reference: the remote to clone from, and the identifier under
/// which its checkout is cached.
#[derive(Clone, Debug, PartialEq, Eq)]
pub struct Target {
    pub url: CanonicalUrl,
    pub identifier: String,
}

/// The mathematical content of a `Target`.
pub struct TargetView {
    pub url: CanonicalUrlView,
    pub identifier: Seq<char>,
}

impl View for Target {
    type V = TargetView;

    open spec fn view(&self) -> TargetView {
        TargetView { url: self.url@, identifier: self.identifier@ }
    }
}

impl TargetView {
    /// The identifier is a function of the URL: the one that the path of
    /// the URL has.
    pub open spec fn wf(self) -> bool {
        repo_name(self.url.path) == Ok::<Seq<char>, Error>(self.identifier)
    }
}

/// The target of an invocation with the reference `raw` and `search_args`
/// arguments for the search tool, given what the parser made of `raw` alone
/// and of `raw` relative to the default base.
///
/// The arguments are looked at first: without any, nothing else is tried.
pub open spec fn target_of(
    raw: Seq<char>,
    search_args: nat,
    absolute: Option<ParsedUrlView>,
    joined: Option<ParsedUrlView>,
) -> Result<TargetView, Error> {
    if search_args == 0 {
        Err(Error::NoSearchArgs)
    } else {
        match resolve(raw, absolute, joined) {
            Ok(url) => match repo_name(url.path) {
                Ok(identifier) => Ok(TargetView { url, identifier }),
                Err(e) => Err(e),
            },
            Err(e) => Err(e),
        }
    }
}

/// Begins an invocation: checks that there is something to search for,
/// resolves the reference and derives the identifier of its checkout.
///
/// Nothing on disk or on the network is needed for any of this, so every
/// error that comes from here comes before the cache is touched.
pub fn begin(raw_reference: &str, search_args: &Vec<String>) -> (r: Result<Target, Error>)
    ensures
        r matches Ok(target) ==> target_of(
            raw_reference@,
            search_args@.len(),
            parsed_url(raw_reference@),
            joined_url(GITHUB_BASE_URL@, raw_reference@),
        ) == Ok::<TargetView, Error>(target@),
        r matches Err(e) ==> target_of(
            raw_reference@,
            search_args@.len(),
            parsed_url(raw_reference@),
            joined_url(GITHUB_BASE_URL@, raw_reference@),
        ) == Err::<TargetView, Error>(e),
        search_args@.len() == 0 ==> r == Err::<Target, Error>(Error::NoSearchArgs),
        r matches Ok(target) ==> target@.wf(),
{
    if search_args.len() == 0 {
        return Err(Error::NoSearchArgs);
    }
    let url = match parse_url(raw_reference) {
        Ok(url) => url,
        Err(e) => { return Err(e); },
    };
    match get_repo_name_from_url(&url) {
        Ok(identifier) => Ok(Target { url, identifier }),
        Err(e) => Err(e),
    }
}

/// The identifier of a shorthand reference is that of the reference taken
/// as a path: where a reference that is no absolute URL has a target, the
/// identifier of the target is the last segment of the reference.
pub proof fn lemma_shorthand_identifier(
    raw: Seq<char>,
    search_args: nat,
    absolute: Option<ParsedUrlView>,
    joined: Option<ParsedUrlView>,
)
    requires
        !(absolute is Some && absolute->0.host is Some),
        target_of(raw, search_args, absolute, joined) is Ok,
    ensures
        repo_name(rooted(raw)) == Ok::<Seq<char>, Error>(
            target_of(raw, search_args, absolute, joined)->Ok_0.identifier,
        ),
{
}

/// A slash after a shorthand reference does not change the identifier:
/// where a reference that does not end in a slash and the same reference
/// with one added both have a target, and neither is an absolute URL, the
/// two targets have the same identifier.
pub proof fn lemma_shorthand_identifier_ignores_trailing_slash(
    raw: Seq<char>,
    search_args: nat,
    absolute: Option<ParsedUrlView>,
    joined: Option<ParsedUrlView>,
    absolute_closed: Option<ParsedUrlView>,
    joined_closed: Option<ParsedUrlView>,
)
    requires
        raw.len() > 0,
        raw.last() != '/',
        !(absolute is Some && absolute->0.host is Some),
        !(absolute_closed is Some && absolute_closed->0.host is Some),
        target_of(raw, search_args, absolute, joined) is Ok,
        target_of(raw.push('/'), search_args, absolute_closed, joined_closed) is Ok,
    ensures
        target_of(raw, search_args, absolute, joined)->Ok_0.identifier == target_of(
            raw.push('/'),
            search_args,
            absolute_closed,
            joined_closed,
        )->Ok_0.identifier,
{
    assert(rooted(raw.push('/')) =~= rooted(raw).push('/'));
    lemma_trailing_slash_ignored(rooted(raw));
}

/// What the caller has to do next to make the checkout ready.
#[derive(Clone, Copy, Debug, PartialEq, Eq, Structural)]
pub enum Step {
    /// Clone the remote into the path of the entry. With `replace`, remove
    /// what stands at that path first.
    Clone { replace: bool },
    /// Switch the checkout to the requested branch or tag.
    Switch,
    /// Nothing: the checkout is ready.
    Ready,
}

/// The step that follows a clone, or the reuse of a fresh checkout.
pub open spec fn after_clone(has_branch: bool) -> Step {
    if has_branch {
        Step::Switch
    } else {
        Step::Ready
    }
}

/// The first step of a checkout. A stale entry is cloned afresh, in place
/// of whatever is there; a fresh one is reused as it is.
pub open spec fn first(entry: CheckoutEntry, ttl_days: u32, now: u64, has_branch: bool) -> Step {
    if stale(entry, ttl_days, now) {
        Step::Clone { replace: !(entry is Missing) }
    } else {
        after_clone(has_branch)
    }
}

/// The step that follows `step`, given whether `step` succeeded. A failed
/// clone and a failed switch are fatal, and nothing is tried again.
pub open spec fn next(step: Step, has_branch: bool, succeeded: bool) -> Result<Step, Error> {
    match step {
        Step::Clone { .. } => if succeeded {
            Ok(after_clone(has_branch))
        } else {
            Err(Error::CloneFailed)
        },
        Step::Switch => if succeeded {
            Ok(Step::Ready)
        } else {
            Err(Error::BranchNotFound)
        },
        Step::Ready => Ok(Step::Ready),
    }
}

/// Decides the first step of a checkout from what stands at the path of the
/// entry, the configured time-to-live, the time `now` in seconds since the
/// epoch, and whether a branch was asked for.
pub fn first_step(entry: &CheckoutEntry, ttl_days: u32, now: u64, has_branch: bool) -> (step: Step)
    ensures
        step == first(*entry, ttl_days, now, has_branch),
{
    if is_stale(entry, ttl_days, now) {
        let replace = match entry {
            CheckoutEntry::Missing => false,
            _ => true,
        };
        Step::Clone { replace }
    } else if has_branch {
        Step::Switch
    } else {
        Step::Ready
    }
}

/// Decides the step that follows `step`, given whether the caller could
/// carry `step` out.
pub fn next_step(step: Step, has_branch: bool, succeeded: bool) -> (r: Result<Step, Error>)
    ensures
        r == next(step, has_branch, succeeded),
{
    match step {
        Step::Clone { .. } => if succeeded {
            if has_branch {
                Ok(Step::Switch)
            } else {
                Ok(Step::Ready)
            }
        } else {
            Err(Error::CloneFailed)
        },
        Step::Switch => if succeeded {
            Ok(Step::Ready)
        } else {
            Err(Error::BranchNotFound)
        },
        Step::Ready => Ok(Step::Ready),
    }
}

/// A checkout that is not stale is never cloned: the first step is no
/// clone, and no step that follows another is one.
pub proof fn lemma_fresh_entry_is_reused(
    entry: CheckoutEntry,
    ttl_days: u32,
    now: u64,
    has_branch: bool,
    step: Step,
    succeeded: bool,
)
    requires
        !stale(entry, ttl_days, now),
    ensures
        !(first(entry, ttl_days, now, has_branch) is Clone),
        next(step, has_branch, succeeded) matches Ok(following) ==> !(following is Clone),
{
}

/// A second invocation within the time-to-live of a checkout cloned at
/// `cloned_at` does not clone again.
pub proof fn lemma_second_run_within_ttl_reuses(
    ttl_days: u32,
    cloned_at: u64,
    now: u64,
    has_branch: bool,
)
    requires
        ttl_days > 0,
        now - cloned_at <= ttl_days * SECONDS_PER_DAY,
    ensures
        first(CheckoutEntry::Checkout { modified: Some(cloned_at) }, ttl_days, now, has_branch)
            == after_clone(has_branch),
{
}

/// With a time-to-live of zero every invocation clones, whatever stands at
/// the path of the entry and whatever its age.
pub proof fn lemma_zero_ttl_always_clones(entry: CheckoutEntry, now: u64, has_branch: bool)
    ensures
        first(entry, 0, now, has_branch) is Clone,
{
}

/// Where every step succeeds, the checkout is ready after two steps at most.
pub proof fn lemma_ready_after_two_steps(
    entry: CheckoutEntry,
    ttl_days: u32,
    now: u64,
    has_branch: bool,
)
    ensures
        next(first(entry, ttl_days, now, has_branch), has_branch, true) matches Ok(second) && next(
            second,
            has_branch,
            true,
        ) == Ok::<Step, Error>(Step::Ready),
{
}

} // verus!
