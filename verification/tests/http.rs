use harbr::error::GitError;
use harbr::http::{
    api_route, api_route_path, api_route_with, create_repo, handle_git_request, info_refs, route,
    route_path, serve_exchange, serve_info_refs, split_path, ApiRoute, Method, Route,
};
use harbr::pktline::{ObjectId, RefRead};
use harbr::process::ProcessOutcome;
use harbr::registry::{RepoConfig, RepoManager};
use harbr::service::{LockMode, Service};
use harbr::session::{Action, Phase, Session};

fn segments(path: &str) -> Vec<String> {
    path.split('/').filter(|s| !s.is_empty()).map(|s| s.to_string()).collect()
}

fn body(name: &str) -> RepoConfig {
    RepoConfig { name: name.to_string(), path: None, description: None, active: false }
}

fn success() -> ProcessOutcome {
    ProcessOutcome::Exited { code: Some(0), stdout: Vec::new(), stderr: Vec::new() }
}

#[test]
fn the_advertisement_is_routed_by_its_service() {
    match route(Method::Get, &segments("/demo/info/refs"), Some("git-upload-pack")) {
        Route::InfoRefs { repo, service } => {
            assert_eq!(repo, "demo");
            assert_eq!(service, Service::UploadPack);
        }
        other => panic!("unexpected: {other:?}"),
    }
    match route(Method::Get, &segments("/demo/info/refs"), Some("git-receive-pack")) {
        Route::InfoRefs { repo, service } => {
            assert_eq!(repo, "demo");
            assert_eq!(service, Service::ReceivePack);
        }
        other => panic!("unexpected: {other:?}"),
    }
}

#[test]
fn a_missing_or_unknown_service_is_forbidden() {
    assert!(matches!(route(Method::Get, &segments("/demo/info/refs"), None), Route::Forbidden));
    assert!(matches!(
        route(Method::Get, &segments("/demo/info/refs"), Some("git-upload-archive")),
        Route::Forbidden
    ));
    assert!(matches!(
        route(Method::Get, &segments("/demo/info/refs"), Some("upload-pack")),
        Route::Forbidden
    ));
    assert!(matches!(route(Method::Get, &segments("/demo/info/refs"), Some("")), Route::Forbidden));
}

#[test]
fn the_pack_exchange_is_routed_by_its_path() {
    match route(Method::Post, &segments("/demo/git-upload-pack"), None) {
        Route::Exchange { repo, service } => {
            assert_eq!(repo, "demo");
            assert_eq!(service, Service::UploadPack);
        }
        other => panic!("unexpected: {other:?}"),
    }
    match route(Method::Post, &segments("/demo/git-receive-pack"), Some("ignored")) {
        Route::Exchange { repo, service } => {
            assert_eq!(repo, "demo");
            assert_eq!(service, Service::ReceivePack);
        }
        other => panic!("unexpected: {other:?}"),
    }
}

#[test]
fn a_new_repository_is_posted_to_repos() {
    assert!(matches!(route(Method::Post, &segments("/repos"), None), Route::CreateRepo));
    assert!(matches!(route(Method::Get, &segments("/repos"), None), Route::MethodNotAllowed));
}

#[test]
fn the_wrong_method_is_not_allowed_and_the_wrong_path_not_found() {
    assert!(matches!(
        route(Method::Post, &segments("/demo/info/refs"), Some("git-upload-pack")),
        Route::MethodNotAllowed
    ));
    assert!(matches!(
        route(Method::Get, &segments("/demo/git-upload-pack"), None),
        Route::MethodNotAllowed
    ));
    assert!(matches!(route(Method::Get, &segments("/"), None), Route::NotFound));
    assert!(matches!(route(Method::Get, &segments("/demo"), None), Route::NotFound));
    assert!(matches!(route(Method::Post, &segments("/demo/upload-pack"), None), Route::NotFound));
    assert!(matches!(route(Method::Get, &segments("/demo/info/other"), None), Route::NotFound));
    assert!(matches!(
        route(Method::Get, &segments("/a/demo/info/refs"), Some("git-upload-pack")),
        Route::NotFound
    ));
}

#[test]
fn the_metadata_api_is_routed_by_method_and_id() {
    let id = "550e8400-e29b-41d4-a716-446655440000";
    let n: u128 = 0x550e8400_e29b_41d4_a716_446655440000;
    assert_eq!(api_route(Method::Get, &segments("/api/repos")), Some(ApiRoute::List));
    assert_eq!(api_route(Method::Post, &segments("/api/repos")), Some(ApiRoute::Create));
    assert_eq!(api_route(Method::Delete, &segments("/api/repos")), None);
    let path = format!("/api/repos/{id}");
    assert_eq!(api_route(Method::Get, &segments(&path)), Some(ApiRoute::Get(n)));
    assert_eq!(api_route(Method::Patch, &segments(&path)), Some(ApiRoute::Update(n)));
    assert_eq!(api_route(Method::Delete, &segments(&path)), Some(ApiRoute::Delete(n)));
    assert_eq!(api_route(Method::Post, &segments(&path)), None);
    assert_eq!(api_route(Method::Other, &segments(&path)), None);
}

#[test]
fn an_id_is_read_in_every_form_that_the_uuid_crate_reads() {
    let n: u128 = 0x550e8400_e29b_41d4_a716_446655440000;
    for id in [
        "550e8400-e29b-41d4-a716-446655440000",
        "550e8400e29b41d4a716446655440000",
        "550E8400-E29B-41D4-A716-446655440000",
        "urn:uuid:550e8400-e29b-41d4-a716-446655440000",
    ] {
        let path = vec!["api".to_string(), "repos".to_string(), id.to_string()];
        assert_eq!(api_route(Method::Get, &path), Some(ApiRoute::Get(n)), "{id}");
    }
}

#[test]
fn a_path_without_an_id_is_no_route() {
    for id in ["demo", "550e8400-e29b-41d4-a716", "123", "550e8400-e29b-41d4-a716-44665544000g"] {
        let path = vec!["api".to_string(), "repos".to_string(), id.to_string()];
        assert_eq!(api_route(Method::Get, &path), None, "{id}");
    }
    assert_eq!(api_route(Method::Get, &segments("/api")), None);
    assert_eq!(api_route(Method::Get, &segments("/repos")), None);
    assert_eq!(api_route(Method::Get, &segments("/api/users")), None);
    assert_eq!(api_route(Method::Get, &segments("/v1/repos")), None);
    assert_eq!(
        api_route(Method::Get, &segments("/api/repos/550e8400e29b41d4a716446655440000/x")),
        None
    );
}

#[test]
fn the_route_of_the_api_follows_from_the_id_that_was_read() {
    let path = segments("/api/repos/anything");
    assert_eq!(api_route_with(Method::Get, &path, Some(7)), Some(ApiRoute::Get(7)));
    assert_eq!(api_route_with(Method::Patch, &path, Some(7)), Some(ApiRoute::Update(7)));
    assert_eq!(api_route_with(Method::Delete, &path, Some(7)), Some(ApiRoute::Delete(7)));
    assert_eq!(api_route_with(Method::Get, &path, None), None);
    assert_eq!(api_route_with(Method::Get, &segments("/api/repos"), Some(7)), Some(ApiRoute::List));
    assert_eq!(api_route_with(Method::Get, &segments("/api/other/x"), Some(7)), None);
}

#[test]
fn the_advertisement_goes_out_with_its_content_type() {
    let reply = info_refs(Service::UploadPack, &Vec::new());
    assert_eq!(reply.status, 200);
    assert_eq!(
        reply.content_type.as_deref(),
        Some("application/x-git-upload-pack-advertisement")
    );
    assert_eq!(reply.body, b"001e# service=git-upload-pack\n00000000".to_vec());

    let refs = vec![RefRead::Found {
        target: ObjectId { bytes: [0x12; 20] },
        name: "refs/heads/main".to_string(),
    }];
    let reply = info_refs(Service::ReceivePack, &refs);
    assert_eq!(reply.status, 200);
    assert_eq!(
        reply.content_type.as_deref(),
        Some("application/x-git-receive-pack-advertisement")
    );
    let expected = format!(
        "001f# service=git-receive-pack\n0000003d{} refs/heads/main\n0000",
        "12".repeat(20)
    );
    assert_eq!(reply.body, expected.into_bytes());
}

#[test]
fn refs_that_cannot_be_read_are_an_internal_error_without_a_body() {
    let reply = info_refs(Service::UploadPack, &vec![RefRead::Unreadable]);
    assert_eq!(reply.status, 500);
    assert_eq!(reply.content_type, None);
    assert!(reply.body.is_empty());
}

#[test]
fn the_exchange_answers_with_the_output_or_with_the_status_of_the_failure() {
    let reply = handle_git_request(ProcessOutcome::Exited {
        code: Some(0),
        stdout: b"0008NAK\n".to_vec(),
        stderr: Vec::new(),
    });
    assert_eq!(reply.status, 200);
    assert_eq!(reply.body, b"0008NAK\n".to_vec());

    let reply = handle_git_request(ProcessOutcome::Exited {
        code: Some(1),
        stdout: b"0008NAK\n".to_vec(),
        stderr: b"fatal".to_vec(),
    });
    assert_eq!(reply.status, 500);
    assert!(reply.body.is_empty());

    for outcome in [ProcessOutcome::NotStarted, ProcessOutcome::BrokenPipe, ProcessOutcome::TimedOut]
    {
        let reply = handle_git_request(outcome);
        assert_eq!(reply.status, 500);
        assert!(reply.body.is_empty());
    }
}

#[test]
fn creating_answers_201_then_409_and_400_for_a_bad_name() {
    let mut manager = RepoManager::new("./repos".to_string());
    assert_eq!(create_repo(&mut manager, body("demo"), &success()), 201);
    assert!(manager.lookup("demo").unwrap().active);
    assert_eq!(manager.lookup("demo").unwrap().path.as_deref(), Some("./repos/demo"));
    assert_eq!(create_repo(&mut manager, body("demo"), &success()), 409);
    assert_eq!(create_repo(&mut manager, body("../evil"), &success()), 400);
    assert_eq!(create_repo(&mut manager, body("a/b"), &success()), 400);
    let failed = ProcessOutcome::Exited { code: Some(1), stdout: Vec::new(), stderr: Vec::new() };
    assert_eq!(create_repo(&mut manager, body("other"), &failed), 500);
    assert_eq!(manager.len(), 1);
}

#[test]
fn a_path_is_taken_apart_at_its_slashes() {
    assert_eq!(split_path("/demo/info/refs"), vec!["demo", "info", "refs"]);
    assert_eq!(split_path("demo/git-upload-pack"), vec!["demo", "git-upload-pack"]);
    assert_eq!(split_path("/repos"), vec!["repos"]);
    assert_eq!(split_path("/repos/"), vec!["repos"]);
    assert_eq!(split_path("//a///b//"), vec!["a", "b"]);
    assert_eq!(split_path("/r\u{e9}po/x"), vec!["r\u{e9}po", "x"]);
    assert_eq!(split_path("/"), Vec::<String>::new());
    assert_eq!(split_path(""), Vec::<String>::new());
    assert_eq!(split_path("x"), vec!["x"]);
}

#[test]
fn a_request_is_routed_from_its_path() {
    match route_path(Method::Get, "/demo/info/refs", Some("git-upload-pack")) {
        Route::InfoRefs { repo, service } => {
            assert_eq!(repo, "demo");
            assert_eq!(service, Service::UploadPack);
        }
        other => panic!("unexpected: {other:?}"),
    }
    match route_path(Method::Post, "/demo/git-receive-pack", None) {
        Route::Exchange { repo, service } => {
            assert_eq!(repo, "demo");
            assert_eq!(service, Service::ReceivePack);
        }
        other => panic!("unexpected: {other:?}"),
    }
    assert!(matches!(route_path(Method::Post, "/repos", None), Route::CreateRepo));
    assert!(matches!(route_path(Method::Get, "/demo/info/refs", None), Route::Forbidden));
    assert!(matches!(route_path(Method::Get, "/", None), Route::NotFound));
    assert_eq!(api_route_path(Method::Get, "/api/repos"), Some(ApiRoute::List));
    assert_eq!(
        api_route_path(Method::Delete, "/api/repos/00000000-0000-0000-0000-00000000002a"),
        Some(ApiRoute::Delete(42))
    );
    assert_eq!(api_route_path(Method::Get, "/api/repos/42"), None);
}

fn locked(action: Action) -> Session {
    let mut manager = RepoManager::new("./repos".to_string());
    assert_eq!(create_repo(&mut manager, body("demo"), &success()), 201);
    let mut session = Session::new("demo".to_string(), action);
    assert!(session.validate_name());
    assert!(session.resolve(&manager).is_some());
    assert!(session.lock_granted());
    session
}

#[test]
fn serving_an_advertisement_completes_the_session() {
    let mut session = locked(Action::InfoRefs);
    let served = serve_info_refs(&mut session, Service::UploadPack, &Vec::new()).unwrap();
    assert_eq!(served.reply.status, 200);
    assert_eq!(served.reply.body, b"001e# service=git-upload-pack\n00000000".to_vec());
    assert_eq!(served.release, LockMode::Read);
    assert_eq!(session.phase(), Phase::Completed);
    assert_eq!(session.status(), Some(200));
    assert!(serve_info_refs(&mut session, Service::UploadPack, &Vec::new()).is_none());
}

#[test]
fn an_advertisement_that_fails_fails_the_session_before_its_first_byte() {
    let mut session = locked(Action::InfoRefs);
    let refs = vec![RefRead::Unreadable];
    let served = serve_info_refs(&mut session, Service::UploadPack, &refs).unwrap();
    assert_eq!(served.reply.status, 500);
    assert!(served.reply.body.is_empty());
    assert_eq!(served.release, LockMode::Read);
    assert_eq!(session.phase(), Phase::Failed);
    assert!(matches!(session.failure(), Some(GitError::RefEnumerationFailed)));
    assert_eq!(session.status(), Some(500));
}

#[test]
fn serving_a_push_completes_the_session_and_hands_the_write_lock_back() {
    let mut session = locked(Action::ReceivePack);
    let outcome = ProcessOutcome::Exited {
        code: Some(0),
        stdout: b"000eunpack ok\n0000".to_vec(),
        stderr: Vec::new(),
    };
    let served = serve_exchange(&mut session, outcome).unwrap();
    assert_eq!(served.reply.status, 200);
    assert_eq!(served.reply.body, b"000eunpack ok\n0000".to_vec());
    assert_eq!(served.release, LockMode::Write);
    assert_eq!(session.phase(), Phase::Completed);
}

#[test]
fn an_exchange_that_fails_keeps_its_failure_in_the_session() {
    let mut session = locked(Action::UploadPack);
    let outcome =
        ProcessOutcome::Exited { code: Some(128), stdout: Vec::new(), stderr: b"fatal".to_vec() };
    let served = serve_exchange(&mut session, outcome).unwrap();
    assert_eq!(served.reply.status, 500);
    assert!(served.reply.body.is_empty());
    assert_eq!(served.release, LockMode::Read);
    assert_eq!(session.phase(), Phase::Failed);
    match session.failure() {
        Some(GitError::AbnormalExit(code, text)) => {
            assert_eq!(*code, 128);
            assert_eq!(text, "fatal");
        }
        other => panic!("unexpected: {other:?}"),
    }
}

#[test]
fn nothing_is_served_before_the_lock_is_held() {
    let manager = RepoManager::new("./repos".to_string());
    let mut session = Session::new("demo".to_string(), Action::UploadPack);
    assert!(serve_exchange(&mut session, success()).is_none());
    assert_eq!(session.phase(), Phase::Received);
    assert!(session.validate_name());
    assert!(serve_info_refs(&mut session, Service::UploadPack, &Vec::new()).is_none());
    assert_eq!(session.phase(), Phase::NameValidated);
    assert!(session.resolve(&manager).is_none());
    assert!(serve_exchange(&mut session, success()).is_none());
    assert_eq!(session.phase(), Phase::Failed);
}
