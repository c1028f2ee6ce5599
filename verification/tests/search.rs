use resorepo::error::Error;
use resorepo::search::{exit_status, search_arguments, SearchReport, SearchRun, EXIT_WITHOUT_CODE};

fn args(list: &[&str]) -> Vec<String> {
    list.iter().map(|a| a.to_string()).collect()
}

#[test]
fn target_path_comes_last() {
    assert_eq!(
        search_arguments(&args(&["-i", "--glob", "*.rs", "needle"]), "/cache/repo"),
        Ok(args(&["-i", "--glob", "*.rs", "needle", "/cache/repo"]))
    );
    assert_eq!(search_arguments(&args(&[""]), ""), Ok(args(&["", ""])));
}

#[test]
fn search_needs_an_argument() {
    assert_eq!(search_arguments(&args(&[]), "/cache/repo"), Err(Error::NoSearchArgs));
}

#[test]
fn exit_code_mirrors_the_search_tool() {
    assert_eq!(
        exit_status(SearchRun::Exited { code: Some(0) }),
        Ok(SearchReport { exit_code: 0, warn: false })
    );
    assert_eq!(
        exit_status(SearchRun::Exited { code: Some(1) }),
        Ok(SearchReport { exit_code: 1, warn: true })
    );
    assert_eq!(
        exit_status(SearchRun::Exited { code: Some(2) }),
        Ok(SearchReport { exit_code: 2, warn: true })
    );
    assert_eq!(
        exit_status(SearchRun::Exited { code: Some(-1) }),
        Ok(SearchReport { exit_code: -1, warn: true })
    );
}

#[test]
fn search_tool_without_exit_code_fails_with_a_warning() {
    assert_eq!(EXIT_WITHOUT_CODE, 1);
    assert_eq!(
        exit_status(SearchRun::Exited { code: None }),
        Ok(SearchReport { exit_code: 1, warn: true })
    );
}

#[test]
fn search_tool_that_does_not_start_is_fatal() {
    assert_eq!(exit_status(SearchRun::NotStarted), Err(Error::SearchToolUnavailable));
}
