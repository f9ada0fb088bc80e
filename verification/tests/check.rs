use harbr::check::{check_git_server, probe_args, CheckRequest, Probe};

fn request() -> CheckRequest {
    CheckRequest { url: "https://example.com/demo.git".to_string() }
}

#[test]
fn the_probe_lists_the_remote_quietly() {
    assert_eq!(
        probe_args(&request()),
        vec!["ls-remote", "--quiet", "--exit-code", "https://example.com/demo.git"]
    );
}

#[test]
fn a_listing_that_succeeds_is_a_git_server() {
    let r = check_git_server(&request(), &Probe::Ran { success: true, stderr: b"noise".to_vec() });
    assert!(r.is_git_server);
    assert_eq!(r.details.as_deref(), Some("Connected to https://example.com/demo.git"));
    assert_eq!(r.error, None);
}

#[test]
fn a_listing_that_fails_is_no_git_server() {
    let probe = Probe::Ran { success: false, stderr: b"fatal: repository not found\n".to_vec() };
    let r = check_git_server(&request(), &probe);
    assert!(!r.is_git_server);
    assert_eq!(r.details, None);
    assert_eq!(r.error.as_deref(), Some("fatal: repository not found\n"));
}

#[test]
fn a_listing_that_could_not_run_says_why() {
    let probe = Probe::Failed { reason: "No such file or directory (os error 2)".to_string() };
    let r = check_git_server(&request(), &probe);
    assert!(!r.is_git_server);
    assert_eq!(r.details, None);
    assert_eq!(
        r.error.as_deref(),
        Some("Failed to find server No such file or directory (os error 2)")
    );
}
