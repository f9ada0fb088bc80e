use harbr::error::{handle_rejection, Error, GitError, Rejection};
use harbr::service::Service;
use harbr::text::{decimal, same_bytes, same_text, starts_with};

#[test]
fn every_failure_has_its_status() {
    assert_eq!(GitError::InvalidName.status(), 400);
    assert_eq!(GitError::AlreadyExists.status(), 409);
    assert_eq!(GitError::NotFound.status(), 404);
    assert_eq!(GitError::Inactive.status(), 404);
    assert_eq!(GitError::InitFailed("x".to_string()).status(), 500);
    assert_eq!(GitError::RefEnumerationFailed.status(), 500);
    assert_eq!(GitError::SpawnFailed.status(), 500);
    assert_eq!(GitError::AbnormalExit(1, "x".to_string()).status(), 500);
    assert_eq!(GitError::IOFailure.status(), 500);
    assert_eq!(GitError::Timeout.status(), 500);
}

#[test]
fn every_failure_has_its_wording() {
    assert_eq!(GitError::InvalidName.message(), "invalid repository name");
    assert_eq!(GitError::AlreadyExists.message(), "repository already exists");
    assert_eq!(GitError::NotFound.message(), "repository not found");
    assert_eq!(GitError::Inactive.message(), "repository is inactive");
    assert_eq!(
        GitError::InitFailed("fatal: no space".to_string()).message(),
        "repository initialisation failed: fatal: no space"
    );
    assert_eq!(GitError::RefEnumerationFailed.message(), "could not enumerate refs");
    assert_eq!(GitError::SpawnFailed.message(), "could not start the git process");
    assert_eq!(
        GitError::AbnormalExit(128, "fatal: bad pack".to_string()).message(),
        "git process failed: fatal: bad pack"
    );
    assert_eq!(GitError::IOFailure.message(), "broken pipe to the git process");
    assert_eq!(GitError::Timeout.message(), "git process timed out");
}

#[test]
fn every_failure_of_the_api_has_its_wording() {
    assert_eq!(Error::NotFound.message(), "Not found");
    assert_eq!(Error::Database("locked".to_string()).message(), "Database error: locked");
    assert_eq!(Error::Validation("name".to_string()).message(), "Validation error: name");
    assert_eq!(Error::Unauthorized.message(), "Unauthorized");
    assert_eq!(Error::Conflict("taken".to_string()).message(), "Conflict: taken");
}

#[test]
fn a_rejection_becomes_a_status_a_title_and_sometimes_details() {
    let r = handle_rejection(&Rejection::NotFound);
    assert_eq!((r.code, r.message.as_str(), r.details), (404, "Not Found", None));

    let r = handle_rejection(&Rejection::Failed(Error::NotFound));
    assert_eq!((r.code, r.message.as_str(), r.details), (404, "Not Found", None));

    let r = handle_rejection(&Rejection::Failed(Error::Database("locked".to_string())));
    assert_eq!((r.code, r.message.as_str(), r.details), (500, "Internal Server Error", None));

    let r = handle_rejection(&Rejection::Failed(Error::Validation("name: length".to_string())));
    assert_eq!(
        (r.code, r.message.as_str(), r.details),
        (400, "Validation Error", Some("name: length".to_string()))
    );

    let r = handle_rejection(&Rejection::Failed(Error::Unauthorized));
    assert_eq!((r.code, r.message.as_str(), r.details), (401, "Unauthorized", None));

    let r = handle_rejection(&Rejection::Failed(Error::Conflict("taken".to_string())));
    assert_eq!((r.code, r.message.as_str(), r.details), (409, "Conflict", Some("taken".to_string())));

    let r = handle_rejection(&Rejection::MethodNotAllowed);
    assert_eq!((r.code, r.message.as_str(), r.details), (405, "Method Not Allowed", None));

    let r = handle_rejection(&Rejection::Other);
    assert_eq!((r.code, r.message.as_str(), r.details), (500, "Internal Server Error", None));
}

#[test]
fn the_handlers_turn_every_failure_into_a_missing_resource() {
    assert!(matches!(Error::not_found(), Rejection::NotFound));
    assert!(matches!(Error::db("locked".to_string()), Rejection::NotFound));
    assert!(matches!(Error::validation("name".to_string()), Rejection::NotFound));
}

#[test]
fn a_service_is_read_back_from_its_name() {
    assert_eq!(Service::UploadPack.name(), "git-upload-pack");
    assert_eq!(Service::ReceivePack.name(), "git-receive-pack");
    assert_eq!(Service::parse("git-upload-pack"), Some(Service::UploadPack));
    assert_eq!(Service::parse("git-receive-pack"), Some(Service::ReceivePack));
    assert_eq!(Service::parse("git-upload-archive"), None);
    assert_eq!(Service::parse("upload-pack"), None);
    assert_eq!(Service::parse(""), None);
    assert_eq!(Service::UploadPack.subcommand(), "upload-pack");
    assert_eq!(Service::ReceivePack.subcommand(), "receive-pack");
    assert_eq!(Service::UploadPack.args(), vec!["upload-pack", "--stateless-rpc", "."]);
}

#[test]
fn text_is_compared_character_by_character() {
    assert!(same_text("demo", "demo"));
    assert!(!same_text("demo", "demo2"));
    assert!(!same_text("demo", "Demo"));
    assert!(same_text("", ""));
    assert!(same_bytes(b"\x00\xff", b"\x00\xff"));
    assert!(!same_bytes(b"\x00\xff", b"\x00\xfe"));
    assert!(starts_with("sqlite://x", "sqlite"));
    assert!(starts_with("r\u{e9}po", "r\u{e9}"));
    assert!(!starts_with("sql", "sqlite"));
    assert!(starts_with("anything", ""));
}

#[test]
fn a_number_is_written_in_decimal_digits() {
    assert_eq!(decimal(0), "0");
    assert_eq!(decimal(7), "7");
    assert_eq!(decimal(10), "10");
    assert_eq!(decimal(1234567890), "1234567890");
    assert_eq!(decimal(usize::MAX), usize::MAX.to_string());
}
