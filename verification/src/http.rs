//! The HTTP surface: which request goes where, and what goes back.

use vstd::prelude::*;
use vstd::string::*;
use crate::bridge::{exchange_answer, finish_exchange};
use crate::error::{ErrorView, GitError, STATUS_CREATED, STATUS_OK};
use crate::pktline::{advertise, advertisement, all_advertisable, RefRead};
use crate::process::ProcessOutcome;
use crate::registry::{create_answer, text_view, RecordView, RepoConfig, RepoManager};
use crate::service::{args_view, service_named, LockMode, Service};
use crate::session::{lock_of, Event, Phase, Session, SessionView};
use crate::text::same_text;

verus! {

/// The method of a request.
#[derive(Clone, Copy, Debug, PartialEq, Eq, Structural)]
pub enum Method {
    Get,
    Post,
    Patch,
    Delete,
    Other,
}

/// Where a request of the git transport goes.
#[derive(Debug)]
pub enum Route {
    /// `GET /{repo}/info/refs?service=..`: the ref advertisement.
    InfoRefs { repo: String, service: Service },
    /// `POST /{repo}/git-upload-pack` or `/{repo}/git-receive-pack`: the
    /// pack exchange.
    Exchange { repo: String, service: Service },
    /// `POST /repos`: a new repository.
    CreateRepo,
    /// The advertisement was asked for without a service, or for one that
    /// is not offered.
    Forbidden,
    /// The path is served, but not with this method.
    MethodNotAllowed,
    /// Nothing is served at the path.
    NotFound,
}

/// The mathematical value of a route.
pub enum RouteView {
    InfoRefs { repo: Seq<char>, service: Service },
    Exchange { repo: Seq<char>, service: Service },
    CreateRepo,
    Forbidden,
    MethodNotAllowed,
    NotFound,
}

impl View for Route {
    type V = RouteView;

    open spec fn view(&self) -> RouteView {
        match *self {
            Route::InfoRefs { repo, service } => RouteView::InfoRefs { repo: repo@, service },
            Route::Exchange { repo, service } => RouteView::Exchange { repo: repo@, service },
            Route::CreateRepo => RouteView::CreateRepo,
            Route::Forbidden => RouteView::Forbidden,
            Route::MethodNotAllowed => RouteView::MethodNotAllowed,
            Route::NotFound => RouteView::NotFound,
        }
    }
}

/// The route of a request, from its method, the segments of its path and
/// its `service` parameter.
pub open spec fn route_of(method: Method, segments: Seq<Seq<char>>, service: Option<Seq<char>>)
    -> RouteView {
    if segments.len() == 1 && segments[0] == "repos"@ {
        if method == Method::Post {
            RouteView::CreateRepo
        } else {
            RouteView::MethodNotAllowed
        }
    } else if segments.len() == 3 && segments[1] == "info"@ && segments[2] == "refs"@ {
        if method != Method::Get {
            RouteView::MethodNotAllowed
        } else {
            match service {
                Some(s) => match service_named(s) {
                    Some(known) => RouteView::InfoRefs { repo: segments[0], service: known },
                    None => RouteView::Forbidden,
                },
                None => RouteView::Forbidden,
            }
        }
    } else if segments.len() == 2 && service_named(segments[1]) is Some {
        if method == Method::Post {
            RouteView::Exchange { repo: segments[0], service: service_named(segments[1])->0 }
        } else {
            RouteView::MethodNotAllowed
        }
    } else {
        RouteView::NotFound
    }
}

/// Finds the route of a request of the git transport.
pub fn route(method: Method, segments: &Vec<String>, service: Option<&str>) -> (r: Route)
    ensures
        r@ == route_of(
            method,
            args_view(segments@),
            match service {
                Some(s) => Some(s@),
                None => None,
            },
        ),
{
    let n = segments.len();
    if n == 1 && same_text(segments[0].as_str(), "repos") {
        match method {
            Method::Post => Route::CreateRepo,
            _ => Route::MethodNotAllowed,
        }
    } else if n == 3 && same_text(segments[1].as_str(), "info") && same_text(
        segments[2].as_str(),
        "refs",
    ) {
        match method {
            Method::Get => match service {
                Some(s) => match Service::parse(s) {
                    Some(known) => Route::InfoRefs { repo: segments[0].clone(), service: known },
                    None => Route::Forbidden,
                },
                None => Route::Forbidden,
            },
            _ => Route::MethodNotAllowed,
        }
    } else if n == 2 {
        match Service::parse(segments[1].as_str()) {
            Some(known) => match method {
                Method::Post => Route::Exchange { repo: segments[0].clone(), service: known },
                _ => Route::MethodNotAllowed,
            },
            None => Route::NotFound,
        }
    } else {
        Route::NotFound
    }
}

/// What reading a path has gathered so far: the segments that are
/// closed, and the one that is still open.
pub struct Scan {
    pub closed: Seq<Seq<char>>,
    pub open: Seq<char>,
}

/// Reads one more character of a path: a slash closes the open segment
/// if there is one, any other character joins it.
pub open spec fn scan_char(s: Scan, c: char) -> Scan {
    if c != '/' {
        Scan { open: s.open.push(c), ..s }
    } else if s.open.len() > 0 {
        Scan { closed: s.closed.push(s.open), open: Seq::empty() }
    } else {
        s
    }
}

/// Reads a path from its first character to its last.
pub open spec fn scan(path: Seq<char>) -> Scan
    decreases path.len(),
{
    if path.len() == 0 {
        Scan { closed: Seq::empty(), open: Seq::empty() }
    } else {
        scan_char(scan(path.drop_last()), path.last())
    }
}

/// The segments of a path: the runs of characters between its slashes,
/// without the empty ones.
pub open spec fn segments_of(path: Seq<char>) -> Seq<Seq<char>> {
    let s = scan(path);
    if s.open.len() > 0 {
        s.closed.push(s.open)
    } else {
        s.closed
    }
}

/// Takes a path apart into its segments.
pub fn split_path(path: &str) -> (segments: Vec<String>)
    ensures
        args_view(segments@) == segments_of(path@),
{
    let n = path.unicode_len();
    let mut segments: Vec<String> = Vec::new();
    let mut start: usize = 0;
    let mut i: usize = 0;
    while i < n
        invariant
            n == path@.len(),
            start <= i <= n,
            scan(path@.take(i as int)).closed == args_view(segments@),
            scan(path@.take(i as int)).open == path@.subrange(start as int, i as int),
        decreases n - i,
    {
        let c = path.get_char(i);
        proof {
            let before = path@.take(i as int);
            let after = path@.take(i + 1);
            assert(after.drop_last() =~= before);
            assert(after.last() == c);
            assert(path@.subrange(start as int, i as int).push(c) =~= path@.subrange(
                start as int,
                i + 1,
            ));
            assert(path@.subrange(i + 1, i + 1) =~= Seq::<char>::empty());
        }
        if c == '/' {
            if i > start {
                let ghost closed = args_view(segments@);
                segments.push(String::from_str(path.substring_char(start, i)));
                assert(args_view(segments@) =~= closed.push(
                    path@.subrange(start as int, i as int),
                ));
            }
            start = i + 1;
        }
        i += 1;
    }
    assert(path@.take(n as int) =~= path@);
    if n > start {
        let ghost closed = args_view(segments@);
        segments.push(String::from_str(path.substring_char(start, n)));
        assert(args_view(segments@) =~= closed.push(path@.subrange(start as int, n as int)));
    }
    segments
}

/// Finds the route of a request of the git transport from its path.
pub fn route_path(method: Method, path: &str, service: Option<&str>) -> (r: Route)
    ensures
        r@ == route_of(
            method,
            segments_of(path@),
            match service {
                Some(s) => Some(s@),
                None => None,
            },
        ),
{
    let segments = split_path(path);
    route(method, &segments, service)
}

/// Where a request of the metadata API goes.
#[derive(Clone, Copy, Debug, PartialEq, Eq, Structural)]
pub enum ApiRoute {
    List,
    Create,
    Get(u128),
    Update(u128),
    Delete(u128),
}

/// The number that `Uuid::parse_str` of the uuid crate reads from a text,
/// if it reads one.
pub uninterp spec fn uuid_value(text: Seq<char>) -> Option<u128>;

/// Calls `Uuid::parse_str` of the uuid crate and hands out the id as a
/// number. Which texts the crate accepts is not spelled out here; the
/// result is a function of the text alone.
#[verifier::external_body]
fn parse_uuid(text: &str) -> (r: Option<u128>)
    ensures
        r == uuid_value(text@),
{
    match uuid::Uuid::parse_str(text) {
        Ok(id) => Some(id.as_u128()),
        Err(_) => None,
    }
}

/// The route of a request of the metadata API, from its method, the
/// segments of its path and the id that its third segment holds, if it
/// holds one.
pub open spec fn api_route_of(method: Method, segments: Seq<Seq<char>>, id: Option<u128>) -> Option<
    ApiRoute,
> {
    if segments.len() < 2 || segments[0] != "api"@ || segments[1] != "repos"@ {
        None
    } else if segments.len() == 2 {
        match method {
            Method::Get => Some(ApiRoute::List),
            Method::Post => Some(ApiRoute::Create),
            _ => None,
        }
    } else if segments.len() == 3 {
        match (id, method) {
            (Some(n), Method::Get) => Some(ApiRoute::Get(n)),
            (Some(n), Method::Patch) => Some(ApiRoute::Update(n)),
            (Some(n), Method::Delete) => Some(ApiRoute::Delete(n)),
            _ => None,
        }
    } else {
        None
    }
}

/// Finds the route of a request of the metadata API once the id in its
/// path has been read.
pub fn api_route_with(method: Method, segments: &Vec<String>, id: Option<u128>) -> (r: Option<
    ApiRoute,
>)
    ensures
        r == api_route_of(method, args_view(segments@), id),
{
    let n = segments.len();
    if n < 2 || !same_text(segments[0].as_str(), "api") || !same_text(
        segments[1].as_str(),
        "repos",
    ) {
        None
    } else if n == 2 {
        match method {
            Method::Get => Some(ApiRoute::List),
            Method::Post => Some(ApiRoute::Create),
            _ => None,
        }
    } else if n == 3 {
        match id {
            Some(n) => match method {
                Method::Get => Some(ApiRoute::Get(n)),
                Method::Patch => Some(ApiRoute::Update(n)),
                Method::Delete => Some(ApiRoute::Delete(n)),
                _ => None,
            },
            None => None,
        }
    } else {
        None
    }
}

/// The id that the path of a request holds in its third segment.
pub open spec fn path_id(segments: Seq<Seq<char>>) -> Option<u128> {
    if segments.len() == 3 {
        uuid_value(segments[2])
    } else {
        None
    }
}

/// Finds the route of a request of the metadata API.
pub fn api_route(method: Method, segments: &Vec<String>) -> (r: Option<ApiRoute>)
    ensures
        r == api_route_of(method, args_view(segments@), path_id(args_view(segments@))),
{
    let id = if segments.len() == 3 {
        parse_uuid(segments[2].as_str())
    } else {
        None
    };
    api_route_with(method, segments, id)
}

/// Finds the route of a request of the metadata API from its path.
pub fn api_route_path(method: Method, path: &str) -> (r: Option<ApiRoute>)
    ensures
        r == api_route_of(method, segments_of(path@), path_id(segments_of(path@))),
{
    let segments = split_path(path);
    api_route(method, &segments)
}

/// What goes back to the client.
#[derive(Debug)]
pub struct Reply {
    pub status: u16,
    pub content_type: Option<String>,
    pub body: Vec<u8>,
}

/// The mathematical value of a reply.
pub struct ReplyView {
    pub status: u16,
    pub content_type: Option<Seq<char>>,
    pub body: Seq<u8>,
}

impl View for Reply {
    type V = ReplyView;

    open spec fn view(&self) -> ReplyView {
        ReplyView {
            status: self.status,
            content_type: text_view(self.content_type),
            body: self.body@,
        }
    }
}

/// The reply that stands for a failure before the first byte: the status
/// of the failure and an empty body.
pub open spec fn failure_reply(e: ErrorView) -> ReplyView {
    ReplyView { status: e.status(), content_type: None, body: Seq::empty() }
}

/// The reply to a request for the ref advertisement.
pub open spec fn info_refs_answer(service: Service, refs: Seq<RefRead>) -> ReplyView {
    if all_advertisable(refs) {
        ReplyView {
            status: STATUS_OK,
            content_type: Some(service.spec_advertisement_type()),
            body: advertisement(service, refs),
        }
    } else {
        failure_reply(ErrorView::RefEnumerationFailed)
    }
}

/// The reply to a pack exchange.
pub open spec fn exchange_reply(answer: Result<Seq<u8>, ErrorView>) -> ReplyView {
    match answer {
        Ok(body) => ReplyView { status: STATUS_OK, content_type: None, body },
        Err(e) => failure_reply(e),
    }
}

/// The status of the reply to a request to create a repository.
pub open spec fn create_status(answer: Result<RecordView, ErrorView>) -> u16 {
    match answer {
        Ok(_) => STATUS_CREATED,
        Err(e) => e.status(),
    }
}

fn refuse(e: &GitError) -> (r: Reply)
    ensures
        r@ == failure_reply(e@),
{
    Reply { status: e.status(), content_type: None, body: Vec::new() }
}

/// Answers `GET info/refs` from what reading the refs gave: the whole
/// advertisement with the service's content type, or an internal error
/// without a body.
pub fn info_refs(service: Service, refs: &Vec<RefRead>) -> (r: Reply)
    ensures
        r@ == info_refs_answer(service, refs@),
{
    match advertise(service, refs) {
        Ok(body) => Reply {
            status: STATUS_OK,
            content_type: Some(String::from_str(service.advertisement_type())),
            body,
        },
        Err(e) => refuse(&e),
    }
}

/// Answers a pack exchange from the report of the toolchain's run: its
/// output, or the status of the failure without a body.
pub fn handle_git_request(outcome: ProcessOutcome) -> (r: Reply)
    ensures
        r@ == exchange_reply(exchange_answer(outcome)),
{
    match finish_exchange(outcome) {
        Ok(body) => Reply { status: STATUS_OK, content_type: None, body },
        Err(e) => refuse(&e),
    }
}

/// What the handler of `LockAcquired` hands back: the reply for the
/// client, and the lock that the caller has to release once the reply is
/// out.
#[derive(Debug)]
pub struct Served {
    pub reply: Reply,
    pub release: LockMode,
}

/// The session after its reply was made: a success has streamed and is
/// completed, a failure has failed the session before its first byte.
pub open spec fn delivered(s: SessionView, failure: Option<ErrorView>) -> SessionView {
    match failure {
        None => s.after(Event::FirstByte).after(Event::Finished),
        Some(e) => s.failed(e),
    }
}

/// The failure of an answer, if it is one.
pub open spec fn failure_of(answer: Result<Seq<u8>, ErrorView>) -> Option<ErrorView> {
    match answer {
        Ok(_) => None,
        Err(e) => Some(e),
    }
}

/// The failure of an advertisement, if the refs do not allow one.
pub open spec fn advertisement_failure(refs: Seq<RefRead>) -> Option<ErrorView> {
    if all_advertisable(refs) {
        None
    } else {
        Some(ErrorView::RefEnumerationFailed)
    }
}

/// Handler of `LockAcquired` for an advertisement: makes the reply from
/// what reading the refs gave and brings the session to its end. Out of
/// its phase the handler does nothing and returns `None`.
pub fn serve_info_refs(session: &mut Session, service: Service, refs: &Vec<RefRead>) -> (r: Option<
    Served,
>)
    requires
        old(session).wf(),
    ensures
        final(session).wf(),
        old(session)@.phase != Phase::LockAcquired ==> (r is None
            && final(session)@ == old(session)@),
        old(session)@.phase == Phase::LockAcquired ==> {
            &&& r matches Some(served)
            &&& served.reply@ == info_refs_answer(service, refs@)
            &&& served.release == lock_of(old(session)@.action)
            &&& final(session)@ == delivered(old(session)@, advertisement_failure(refs@))
        },
{
    match session.phase() {
        Phase::LockAcquired => {},
        _ => { return None; },
    }
    let release = session.lock_mode();
    match advertise(service, refs) {
        Ok(body) => {
            session.first_byte();
            session.finish();
            let reply = Reply {
                status: STATUS_OK,
                content_type: Some(String::from_str(service.advertisement_type())),
                body,
            };
            Some(Served { reply, release })
        },
        Err(e) => {
            let reply = refuse(&e);
            session.fail(e);
            Some(Served { reply, release })
        },
    }
}

/// Handler of `LockAcquired` for a pack exchange: makes the reply from
/// the report of the toolchain's run and brings the session to its end.
/// Out of its phase the handler does nothing and returns `None`.
pub fn serve_exchange(session: &mut Session, outcome: ProcessOutcome) -> (r: Option<Served>)
    requires
        old(session).wf(),
    ensures
        final(session).wf(),
        old(session)@.phase != Phase::LockAcquired ==> (r is None
            && final(session)@ == old(session)@),
        old(session)@.phase == Phase::LockAcquired ==> {
            &&& r matches Some(served)
            &&& served.reply@ == exchange_reply(exchange_answer(outcome))
            &&& served.release == lock_of(old(session)@.action)
            &&& final(session)@ == delivered(old(session)@, failure_of(exchange_answer(outcome)))
        },
{
    match session.phase() {
        Phase::LockAcquired => {},
        _ => { return None; },
    }
    let release = session.lock_mode();
    match finish_exchange(outcome) {
        Ok(body) => {
            session.first_byte();
            session.finish();
            Some(Served { reply: Reply { status: STATUS_OK, content_type: None, body }, release })
        },
        Err(e) => {
            let reply = refuse(&e);
            session.fail(e);
            Some(Served { reply, release })
        },
    }
}

/// Files a new repository once the toolchain has run and answers with
/// the status: created, or the status of the failure.
pub fn create_repo(manager: &mut RepoManager, body: RepoConfig, init: &ProcessOutcome) -> (status:
    u16)
    requires
        old(manager).wf(),
    ensures
        final(manager).wf(),
        final(manager).base() == old(manager).base(),
        status == create_status(
            create_answer(
                old(manager)@,
                old(manager).base(),
                body.name@,
                text_view(body.description),
                *init,
            ),
        ),
        match create_answer(
            old(manager)@,
            old(manager).base(),
            body.name@,
            text_view(body.description),
            *init,
        ) {
            Ok(record) => final(manager)@ == old(manager)@.insert(body.name@, record),
            Err(_) => final(manager)@ == old(manager)@,
        },
{
    match manager.add_repo(body.name, body.description, init) {
        Ok(_) => STATUS_CREATED,
        Err(e) => e.status(),
    }
}

} // verus!
