use resorepo::cache::CheckoutEntry;
use resorepo::checkout::{begin, first_step, next_step, Step};
use resorepo::error::Error;

const DAY: u64 = 86_400;

fn args(list: &[&str]) -> Vec<String> {
    list.iter().map(|a| a.to_string()).collect()
}

#[test]
fn begin_resolves_reference_and_identifier() {
    let target = begin("https://www.github.com/foo/bar/", &args(&["-i", "todo"])).unwrap();
    assert_eq!(target.url.as_str(), "https://www.github.com/foo/bar/");
    assert_eq!(target.identifier, "bar");
}

#[test]
fn begin_reports_each_error() {
    assert_eq!(begin("foo/bar", &args(&[])), Err(Error::NoSearchArgs));
    assert_eq!(begin("foo bar", &args(&["x"])), Err(Error::MalformedReference));
    assert_eq!(begin("https://github.com", &args(&["x"])), Err(Error::EmptyPath));
}

#[test]
fn stale_entry_is_cloned() {
    let now = 1_700_000_000;
    assert_eq!(first_step(&CheckoutEntry::Missing, 7, now, false), Step::Clone { replace: false });
    assert_eq!(first_step(&CheckoutEntry::Leftover, 7, now, false), Step::Clone { replace: true });
    assert_eq!(
        first_step(&CheckoutEntry::Checkout { modified: None }, 7, now, true),
        Step::Clone { replace: true }
    );
    assert_eq!(
        first_step(&CheckoutEntry::Checkout { modified: Some(now - 8 * DAY) }, 7, now, true),
        Step::Clone { replace: true }
    );
}

#[test]
fn fresh_entry_is_reused() {
    let now = 1_700_000_000;
    let entry = CheckoutEntry::Checkout { modified: Some(now - 6 * DAY) };
    assert_eq!(first_step(&entry, 7, now, false), Step::Ready);
    assert_eq!(first_step(&entry, 7, now, true), Step::Switch);
}

#[test]
fn steps_follow_in_order() {
    let clone = Step::Clone { replace: false };
    assert_eq!(next_step(clone, false, true), Ok(Step::Ready));
    assert_eq!(next_step(clone, true, true), Ok(Step::Switch));
    assert_eq!(next_step(Step::Clone { replace: true }, true, true), Ok(Step::Switch));
    assert_eq!(next_step(Step::Switch, true, true), Ok(Step::Ready));
    assert_eq!(next_step(Step::Ready, true, true), Ok(Step::Ready));
    assert_eq!(next_step(Step::Ready, false, false), Ok(Step::Ready));
}

#[test]
fn failed_clone_is_fatal() {
    assert_eq!(next_step(Step::Clone { replace: false }, false, false), Err(Error::CloneFailed));
    assert_eq!(next_step(Step::Clone { replace: true }, true, false), Err(Error::CloneFailed));
}

#[test]
fn missing_branch_is_fatal() {
    assert_eq!(next_step(Step::Switch, true, false), Err(Error::BranchNotFound));
}

#[test]
fn checkout_is_ready_after_two_steps_at_most() {
    let now = 1_700_000_000;
    for entry in [
        CheckoutEntry::Missing,
        CheckoutEntry::Leftover,
        CheckoutEntry::Checkout { modified: Some(now) },
    ] {
        for has_branch in [false, true] {
            let first = first_step(&entry, 7, now, has_branch);
            let second = next_step(first, has_branch, true).unwrap();
            assert_eq!(next_step(second, has_branch, true), Ok(Step::Ready));
        }
    }
}
