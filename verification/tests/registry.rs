use harbr::error::GitError;
use harbr::lock::{LockOp, RepoLock};
use harbr::name::is_valid_name;
use harbr::process::ProcessOutcome;
use harbr::registry::{join, RepoManager};
use harbr::service::LockMode;

fn success() -> ProcessOutcome {
    ProcessOutcome::Exited { code: Some(0), stdout: Vec::new(), stderr: Vec::new() }
}

fn failure(code: Option<i32>, stderr: &[u8]) -> ProcessOutcome {
    ProcessOutcome::Exited { code, stdout: Vec::new(), stderr: stderr.to_vec() }
}

#[test]
fn test_repo_manager() {
    let mut manager = RepoManager::new("/tmp/harbr-test".to_string());

    let result = manager.add_repo(
        "test-repo".to_string(),
        Some("Test repository".to_string()),
        &success(),
    );
    assert!(result.is_ok());

    assert!(manager.contains_key("test-repo"));
}

#[test]
fn create_then_lookup_gives_an_active_record() {
    let mut manager = RepoManager::new("./repos".to_string());
    let created = manager
        .add_repo("demo".to_string(), Some("test".to_string()), &success())
        .unwrap();
    assert_eq!(created.name, "demo");
    assert_eq!(created.path.as_deref(), Some("./repos/demo"));
    assert_eq!(created.description.as_deref(), Some("test"));
    assert!(created.active);

    let found = manager.lookup("demo").unwrap();
    assert_eq!(found.name, "demo");
    assert!(found.active);
    assert_eq!(found.path.as_deref(), Some("./repos/demo"));
    assert_eq!(found.description.as_deref(), Some("test"));
    assert_eq!(manager.len(), 1);
}

#[test]
fn second_create_of_a_name_already_exists() {
    let mut manager = RepoManager::new("./repos".to_string());
    assert!(manager.add_repo("demo".to_string(), Some("test".to_string()), &success()).is_ok());
    assert!(matches!(manager.plan_create("demo"), Err(GitError::AlreadyExists)));
    let again = manager.add_repo("demo".to_string(), None, &success());
    assert!(matches!(again, Err(GitError::AlreadyExists)));
    assert_eq!(manager.len(), 1);
    assert_eq!(manager.lookup("demo").unwrap().description.as_deref(), Some("test"));
}

#[test]
fn parent_traversal_is_an_invalid_name() {
    let mut manager = RepoManager::new("./repos".to_string());
    assert!(matches!(manager.plan_create("../evil"), Err(GitError::InvalidName)));
    let r = manager.add_repo("../evil".to_string(), None, &success());
    assert!(matches!(r, Err(GitError::InvalidName)));
    assert_eq!(manager.len(), 0);
    assert!(!manager.contains_key("../evil"));
}

#[test]
fn unsafe_names_are_refused_before_any_command() {
    let manager = RepoManager::new("./repos".to_string());
    for name in ["a/b", "/abs", "..", "a..b", "x/../y", "\\share", "a\\b", "C:repo", "c:\\repo", "a:b2"] {
        assert!(!is_valid_name(name), "{name}");
        assert!(matches!(manager.plan_create(name), Err(GitError::InvalidName)), "{name}");
    }
}

#[test]
fn ordinary_names_are_valid() {
    for name in ["demo", "test-repo", "a.b", ".hidden", "repo_1", "r\u{e9}po", "1:x", "ab:c"] {
        assert!(is_valid_name(name), "{name}");
    }
}

#[test]
fn plan_names_the_init_command() {
    let manager = RepoManager::new("./repos".to_string());
    let plan = manager.plan_create("demo").unwrap();
    assert_eq!(plan.location, "./repos/demo");
    assert_eq!(plan.args, vec!["init".to_string(), "--bare".to_string(), "./repos/demo".to_string()]);
    assert_eq!(plan.lock, LockMode::Write);
}

#[test]
fn join_puts_one_separator_between_base_and_name() {
    assert_eq!(join("./repos", "demo"), "./repos/demo");
    assert_eq!(join("repos/", "demo"), "repos/demo");
    assert_eq!(join("", "demo"), "demo");
    assert_eq!(join("/", "demo"), "/demo");
}

#[test]
fn failed_init_files_nothing() {
    let mut manager = RepoManager::new("./repos".to_string());
    let r = manager.add_repo("demo".to_string(), None, &failure(Some(128), b"fatal: cannot mkdir\n"));
    match r {
        Err(GitError::InitFailed(text)) => assert_eq!(text, "fatal: cannot mkdir\n"),
        other => panic!("unexpected: {other:?}"),
    }
    assert!(!manager.contains_key("demo"));
    assert!(matches!(manager.lookup("demo"), Err(GitError::NotFound)));
    assert_eq!(manager.len(), 0);
}

#[test]
fn init_killed_by_a_signal_is_a_failed_init() {
    let mut manager = RepoManager::new("./repos".to_string());
    let r = manager.add_repo("demo".to_string(), None, &failure(None, b""));
    assert!(matches!(r, Err(GitError::InitFailed(_))));
    assert_eq!(manager.len(), 0);
}

#[test]
fn init_that_never_ran_files_nothing() {
    let mut manager = RepoManager::new("./repos".to_string());
    let r = manager.add_repo("demo".to_string(), None, &ProcessOutcome::NotStarted);
    assert!(matches!(r, Err(GitError::SpawnFailed)));
    let r = manager.add_repo("demo".to_string(), None, &ProcessOutcome::BrokenPipe);
    assert!(matches!(r, Err(GitError::IOFailure)));
    let r = manager.add_repo("demo".to_string(), None, &ProcessOutcome::TimedOut);
    assert!(matches!(r, Err(GitError::Timeout)));
    assert_eq!(manager.len(), 0);
}

#[test]
fn stderr_that_is_not_utf8_is_kept_with_replacement_characters() {
    let mut manager = RepoManager::new("./repos".to_string());
    let r = manager.add_repo("demo".to_string(), None, &failure(Some(1), &[b'a', 0xff, b'b']));
    match r {
        Err(GitError::InitFailed(text)) => assert_eq!(text, "a\u{fffd}b"),
        other => panic!("unexpected: {other:?}"),
    }
}

#[test]
fn lookup_of_an_unknown_name_is_not_found() {
    let manager = RepoManager::new("./repos".to_string());
    assert!(matches!(manager.lookup("nope"), Err(GitError::NotFound)));
    assert!(!manager.contains_key("nope"));
}

#[test]
fn delete_switches_off_then_drops() {
    let mut manager = RepoManager::new("./repos".to_string());
    manager.add_repo("demo".to_string(), None, &success()).unwrap();
    manager.add_repo("other".to_string(), None, &success()).unwrap();

    let mut lock = RepoLock::new();
    assert!(!manager.ready_to_remove("demo", &lock));

    let place = manager.begin_delete("demo").unwrap();
    assert_eq!(place, "./repos/demo");
    assert!(matches!(manager.lookup("demo"), Err(GitError::Inactive)));
    assert!(manager.contains_key("demo"));
    assert!(manager.lookup("other").is_ok());

    assert!(lock.apply(LockOp::TryRead));
    assert!(!manager.ready_to_remove("demo", &lock));
    assert!(lock.apply(LockOp::ReleaseRead));
    assert!(manager.ready_to_remove("demo", &lock));
    assert!(!manager.ready_to_remove("other", &lock));
    assert!(!manager.ready_to_remove("nope", &lock));

    assert!(manager.finish_delete("demo").is_ok());
    assert!(matches!(manager.lookup("demo"), Err(GitError::NotFound)));
    assert!(!manager.contains_key("demo"));
    assert_eq!(manager.len(), 1);
    assert!(manager.lookup("other").is_ok());
}

#[test]
fn delete_of_an_unknown_name_is_not_found() {
    let mut manager = RepoManager::new("./repos".to_string());
    assert!(matches!(manager.begin_delete("nope"), Err(GitError::NotFound)));
    assert!(matches!(manager.finish_delete("nope"), Err(GitError::NotFound)));
}

#[test]
fn a_deleted_name_can_be_created_again() {
    let mut manager = RepoManager::new("./repos".to_string());
    manager.add_repo("demo".to_string(), None, &success()).unwrap();
    manager.begin_delete("demo").unwrap();
    assert!(matches!(manager.plan_create("demo"), Err(GitError::AlreadyExists)));
    manager.finish_delete("demo").unwrap();
    assert!(manager.plan_create("demo").is_ok());
    assert!(manager.add_repo("demo".to_string(), None, &success()).is_ok());
    assert!(manager.lookup("demo").unwrap().active);
}
