//! One request against one repository, as an explicit state machine.
//!
//! A request is received, has its repository name validated, its
//! repository resolved and its lock acquired, streams its response and is
//! completed. It may fail from any state but the last. No state is
//! skipped: a request whose name is refused never gets as far as a lock.

use vstd::prelude::*;
use crate::error::{ErrorView, GitError};
use crate::name::{is_valid_name, valid_name};
use crate::registry::{lookup_answer, RepoManager};
use crate::service::{LockMode, Service};

verus! {

/// Where a request stands.
#[derive(Clone, Copy, Debug, PartialEq, Eq, Structural)]
pub enum Phase {
    Received,
    NameValidated,
    RepoResolved,
    LockAcquired,
    Streaming,
    Completed,
    Failed,
}

/// What moves a request on.
#[derive(Clone, Copy, Debug, PartialEq, Eq, Structural)]
pub enum Event {
    /// The repository name was found valid.
    NameAccepted,
    /// The repository was found and is switched on.
    RepoFound,
    /// The lock of the repository was granted.
    LockGranted,
    /// The first byte of the response went out.
    FirstByte,
    /// The response went out whole.
    Finished,
    /// Something went wrong.
    Broke,
}

/// What a request does to its repository.
#[derive(Clone, Copy, Debug, PartialEq, Eq, Structural)]
pub enum Action {
    InfoRefs,
    UploadPack,
    ReceivePack,
}

/// How far a request has come. A failed request has no rank.
pub open spec fn rank(p: Phase) -> int {
    match p {
        Phase::Received => 0,
        Phase::NameValidated => 1,
        Phase::RepoResolved => 2,
        Phase::LockAcquired => 3,
        Phase::Streaming => 4,
        Phase::Completed => 5,
        Phase::Failed => -1,
    }
}

/// A request that is completed or has failed goes nowhere from there.
pub open spec fn terminal(p: Phase) -> bool {
    p == Phase::Completed || p == Phase::Failed
}

/// The phase that an event leads to, where the event is in order.
pub open spec fn next(p: Phase, e: Event) -> Option<Phase> {
    match (p, e) {
        (Phase::Received, Event::NameAccepted) => Some(Phase::NameValidated),
        (Phase::NameValidated, Event::RepoFound) => Some(Phase::RepoResolved),
        (Phase::RepoResolved, Event::LockGranted) => Some(Phase::LockAcquired),
        (Phase::LockAcquired, Event::FirstByte) => Some(Phase::Streaming),
        (Phase::Streaming, Event::Finished) => Some(Phase::Completed),
        (Phase::Completed, Event::Broke) => None,
        (Phase::Failed, Event::Broke) => None,
        (_, Event::Broke) => Some(Phase::Failed),
        _ => None,
    }
}

/// The phase after an event; an event out of order changes nothing.
pub open spec fn advance(p: Phase, e: Event) -> Phase {
    match next(p, e) {
        Some(q) => q,
        None => p,
    }
}

/// The phase of a request after a run of events, the first one first.
pub open spec fn walk(events: Seq<Event>) -> Phase
    decreases events.len(),
{
    if events.len() == 0 {
        Phase::Received
    } else {
        advance(walk(events.drop_last()), events.last())
    }
}

/// While a request holds its lock it is in one of these phases.
pub open spec fn holds_lock(p: Phase) -> bool {
    p == Phase::LockAcquired || p == Phase::Streaming
}

/// The lock that an action takes: only a push takes it alone.
pub open spec fn lock_of(action: Action) -> LockMode {
    match action {
        Action::ReceivePack => LockMode::Write,
        _ => LockMode::Read,
    }
}

/// The action of a pack exchange.
pub open spec fn exchange_of(service: Service) -> Action {
    match service {
        Service::UploadPack => Action::UploadPack,
        Service::ReceivePack => Action::ReceivePack,
    }
}

/// The action that the pack exchange of a service is. It takes the lock
/// that the service asks for.
pub fn exchange_action(service: Service) -> (action: Action)
    ensures
        action == exchange_of(service),
        lock_of(action) == service.spec_exchange_lock(),
{
    match service {
        Service::UploadPack => Action::UploadPack,
        Service::ReceivePack => Action::ReceivePack,
    }
}

/// Decides where an event leads from a phase. `None` says that the event
/// is out of order there.
pub fn next_phase(p: Phase, e: Event) -> (r: Option<Phase>)
    ensures
        r == next(p, e),
{
    match e {
        Event::NameAccepted => match p {
            Phase::Received => Some(Phase::NameValidated),
            _ => None,
        },
        Event::RepoFound => match p {
            Phase::NameValidated => Some(Phase::RepoResolved),
            _ => None,
        },
        Event::LockGranted => match p {
            Phase::RepoResolved => Some(Phase::LockAcquired),
            _ => None,
        },
        Event::FirstByte => match p {
            Phase::LockAcquired => Some(Phase::Streaming),
            _ => None,
        },
        Event::Finished => match p {
            Phase::Streaming => Some(Phase::Completed),
            _ => None,
        },
        Event::Broke => match p {
            Phase::Completed => None,
            Phase::Failed => None,
            _ => Some(Phase::Failed),
        },
    }
}

/// An event leads to the very next phase or to failure, never further.
pub proof fn lemma_no_phase_skipped(p: Phase, e: Event)
    ensures
        next(p, e) matches Some(q) ==> q == Phase::Failed || rank(q) == rank(p) + 1,
{
}

/// Nothing leads out of a terminal phase.
pub proof fn lemma_terminal_is_final(p: Phase, e: Event)
    requires
        terminal(p),
    ensures
        next(p, e) is None,
        advance(p, e) == p,
{
}

/// Once a run of events has ended in a terminal phase, whatever follows
/// leaves the request there.
pub proof fn lemma_terminal_stays(events: Seq<Event>, k: int)
    requires
        0 <= k <= events.len(),
        terminal(walk(events.take(k))),
    ensures
        walk(events) == walk(events.take(k)),
    decreases events.len() - k,
{
    if k == events.len() {
        assert(events.take(k) =~= events);
    } else {
        assert(events.take(k + 1).drop_last() =~= events.take(k));
        lemma_terminal_is_final(walk(events.take(k)), events[k]);
        assert(walk(events.take(k + 1)) == walk(events.take(k)));
        lemma_terminal_stays(events, k + 1);
    }
}

/// A request that has not failed has gone through every earlier phase,
/// one event at a time: for each lower rank there is a moment at which
/// the request stood there, and the event that came next was in order.
pub proof fn lemma_phases_in_order(events: Seq<Event>, r: int)
    requires
        walk(events) != Phase::Failed,
        0 <= r < rank(walk(events)),
    ensures
        exists|k: int|
            0 <= k < events.len() && rank(#[trigger] walk(events.take(k))) == r && next(
                walk(events.take(k)),
                events[k],
            ) is Some,
    decreases events.len(),
{
    if events.len() == 0 {
    } else {
        let before = events.drop_last();
        let n = events.len() - 1;
        assert(events.take(n) =~= before);
        lemma_no_phase_skipped(walk(before), events.last());
        if next(walk(before), events.last()) is Some && rank(walk(before)) == r {
            assert(rank(walk(events.take(n))) == r);
        } else {
            lemma_phases_in_order(before, r);
            let k = choose|k: int|
                0 <= k < before.len() && rank(#[trigger] walk(before.take(k))) == r && next(
                    walk(before.take(k)),
                    before[k],
                ) is Some;
            assert(before.take(k) =~= events.take(k));
        }
    }
}

/// A request whose name was refused never holds a lock: if the first
/// thing that happens to a request is a failure, no later event brings
/// it to a phase in which it holds one.
pub proof fn lemma_refused_name_never_locks(events: Seq<Event>)
    requires
        events.len() > 0,
        events[0] == Event::Broke,
    ensures
        walk(events) == Phase::Failed,
        !holds_lock(walk(events)),
{
    let first = events.take(1);
    assert(first.drop_last() =~= Seq::<Event>::empty());
    assert(walk(first.drop_last()) == Phase::Received);
    assert(first.last() == Event::Broke);
    assert(walk(first) == Phase::Failed);
    lemma_terminal_stays(events, 1);
}

/// The mathematical value of a session.
pub struct SessionView {
    pub repo_name: Seq<char>,
    pub action: Action,
    pub phase: Phase,
    /// Whether a byte of the response has gone out.
    pub streamed: bool,
    /// Why the request failed, if it did.
    pub failure: Option<ErrorView>,
}

impl SessionView {
    /// The session in another phase.
    pub open spec fn moved(self, phase: Phase) -> SessionView {
        SessionView { phase, ..self }
    }

    /// The session after it failed.
    pub open spec fn failed(self, error: ErrorView) -> SessionView {
        SessionView { phase: Phase::Failed, failure: Some(error), ..self }
    }

    /// The session after an event. An event out of order changes
    /// nothing; the first byte is remembered.
    pub open spec fn after(self, e: Event) -> SessionView {
        SessionView {
            phase: advance(self.phase, e),
            streamed: self.streamed || (e == Event::FirstByte && next(self.phase, e) is Some),
            ..self
        }
    }
}

/// The state of one request.
#[derive(Debug)]
pub struct Session {
    repo_name: String,
    action: Action,
    phase: Phase,
    streamed: bool,
    failure: Option<GitError>,
}

impl View for Session {
    type V = SessionView;

    closed spec fn view(&self) -> SessionView {
        SessionView {
            repo_name: self.repo_name@,
            action: self.action,
            phase: self.phase,
            streamed: self.streamed,
            failure: match self.failure {
                Some(e) => Some(e@),
                None => None,
            },
        }
    }
}

/// What holds of every session: only a failed one carries a failure; a
/// session that got past validation has a valid name; and a byte has
/// gone out only if the session came to stream.
pub open spec fn consistent(s: SessionView) -> bool {
    &&& s.failure is Some <==> s.phase == Phase::Failed
    &&& rank(s.phase) >= 1 ==> valid_name(s.repo_name)
    &&& s.streamed ==> s.phase == Phase::Streaming || terminal(s.phase)
    &&& s.phase == Phase::Streaming || s.phase == Phase::Completed ==> s.streamed
}

/// The status of the response, as far as a status can still be sent: 200
/// for a completed request, the failure's own status for a request that
/// failed before its first byte. A request that failed while streaming
/// has no status left to send, and neither has one that is still under
/// way.
pub open spec fn status_of(s: SessionView) -> Option<u16> {
    match s.phase {
        Phase::Completed => Some(200u16),
        Phase::Failed => if s.streamed {
            None
        } else {
            match s.failure {
                Some(e) => Some(e.status()),
                None => None,
            }
        },
        _ => None,
    }
}

/// What is left to do for a request whose client went away.
#[derive(Clone, Copy, Debug, PartialEq, Eq, Structural)]
pub struct Cleanup {
    /// Whether a process of the toolchain may be running and has to be
    /// killed.
    pub kill: bool,
    /// The lock to release, if the request held one.
    pub release: Option<LockMode>,
}

/// The toolchain runs only for a pack exchange, and only while the
/// request holds its lock; the lock is held from its grant to the end.
pub open spec fn cleanup_of(s: SessionView) -> Cleanup {
    Cleanup {
        kill: holds_lock(s.phase) && s.action != Action::InfoRefs,
        release: if holds_lock(s.phase) {
            Some(lock_of(s.action))
        } else {
            None
        },
    }
}

impl Session {
    pub open spec fn wf(&self) -> bool {
        consistent(self@)
    }

    /// A request as it comes in.
    pub fn new(repo_name: String, action: Action) -> (s: Session)
        ensures
            s.wf(),
            s@ == (SessionView {
                repo_name: repo_name@,
                action,
                phase: Phase::Received,
                streamed: false,
                failure: None,
            }),
    {
        Session { repo_name, action, phase: Phase::Received, streamed: false, failure: None }
    }

    pub fn phase(&self) -> (p: Phase)
        ensures
            p == self@.phase,
    {
        self.phase
    }

    pub fn action(&self) -> (a: Action)
        ensures
            a == self@.action,
    {
        self.action
    }

    pub fn repo_name(&self) -> (n: &str)
        ensures
            n@ == self@.repo_name,
    {
        self.repo_name.as_str()
    }

    /// Why the request failed, if it did.
    pub fn failure(&self) -> (f: Option<&GitError>)
        ensures
            match self@.failure {
                Some(e) => f matches Some(g) && g@ == e,
                None => f is None,
            },
    {
        match &self.failure {
            Some(e) => Some(e),
            None => None,
        }
    }

    /// The lock that the request needs.
    pub fn lock_mode(&self) -> (mode: LockMode)
        ensures
            mode == lock_of(self@.action),
    {
        match self.action {
            Action::ReceivePack => LockMode::Write,
            _ => LockMode::Read,
        }
    }

    /// Whether the request holds its lock now.
    pub fn holds_lock(&self) -> (r: bool)
        ensures
            r == holds_lock(self@.phase),
    {
        match self.phase {
            Phase::LockAcquired => true,
            Phase::Streaming => true,
            _ => false,
        }
    }

    /// Handler of `Received`: validates the repository name. A refused
    /// name fails the request with `InvalidName`. Out of its phase the
    /// handler does nothing and returns `false`.
    pub fn validate_name(&mut self) -> (ok: bool)
        requires
            old(self).wf(),
        ensures
            final(self).wf(),
            old(self)@.phase != Phase::Received ==> !ok && final(self)@ == old(self)@,
            old(self)@.phase == Phase::Received ==> {
                &&& ok == valid_name(old(self)@.repo_name)
                &&& final(self)@ == if ok {
                    old(self)@.moved(Phase::NameValidated)
                } else {
                    old(self)@.failed(ErrorView::InvalidName)
                }
            },
    {
        match self.phase {
            Phase::Received => {
                if is_valid_name(self.repo_name.as_str()) {
                    self.phase = Phase::NameValidated;
                    true
                } else {
                    self.phase = Phase::Failed;
                    self.failure = Some(GitError::InvalidName);
                    false
                }
            },
            _ => false,
        }
    }

    /// Handler of `NameValidated`: resolves the repository and hands out
    /// its directory. A repository that is not registered or is switched
    /// off fails the request. Out of its phase the handler does nothing
    /// and returns `None`.
    pub fn resolve(&mut self, registry: &RepoManager) -> (directory: Option<String>)
        requires
            old(self).wf(),
            registry.wf(),
        ensures
            final(self).wf(),
            old(self)@.phase != Phase::NameValidated ==> (directory is None
                && final(self)@ == old(self)@),
            old(self)@.phase == Phase::NameValidated ==> match lookup_answer(
                registry@,
                old(self)@.repo_name,
            ) {
                Ok(record) => {
                    &&& directory matches Some(d)
                    &&& Some(d@) == record.path
                    &&& final(self)@ == old(self)@.moved(Phase::RepoResolved)
                },
                Err(e) => {
                    &&& directory is None
                    &&& final(self)@ == old(self)@.failed(e)
                },
            },
    {
        match self.phase {
            Phase::NameValidated => {
                match registry.lookup(self.repo_name.as_str()) {
                    Ok(record) => {
                        match &record.path {
                            Some(path) => {
                                self.phase = Phase::RepoResolved;
                                Some(path.clone())
                            },
                            None => {
                                proof {
                                    assert(registry@.dom().contains(self.repo_name@));
                                }
                                None
                            },
                        }
                    },
                    Err(e) => {
                        self.phase = Phase::Failed;
                        self.failure = Some(e);
                        None
                    },
                }
            },
            _ => None,
        }
    }

    /// Handler of `RepoResolved`: the lock was granted. Out of its phase
    /// the handler does nothing and returns `false`.
    pub fn lock_granted(&mut self) -> (ok: bool)
        requires
            old(self).wf(),
        ensures
            final(self).wf(),
            ok == (old(self)@.phase == Phase::RepoResolved),
            final(self)@ == old(self)@.after(Event::LockGranted),
    {
        match self.phase {
            Phase::RepoResolved => {
                self.phase = Phase::LockAcquired;
                true
            },
            _ => false,
        }
    }

    /// Handler of `LockAcquired`: the first byte of the response goes
    /// out. From here on a failure can no longer be turned into a status.
    pub fn first_byte(&mut self) -> (ok: bool)
        requires
            old(self).wf(),
        ensures
            final(self).wf(),
            ok == (old(self)@.phase == Phase::LockAcquired),
            final(self)@ == old(self)@.after(Event::FirstByte),
    {
        match self.phase {
            Phase::LockAcquired => {
                self.phase = Phase::Streaming;
                self.streamed = true;
                true
            },
            _ => false,
        }
    }

    /// Handler of `Streaming`: the response went out whole. Hands back
    /// the lock that the caller has to release now.
    pub fn finish(&mut self) -> (release: Option<LockMode>)
        requires
            old(self).wf(),
        ensures
            final(self).wf(),
            final(self)@ == old(self)@.after(Event::Finished),
            release == if old(self)@.phase == Phase::Streaming {
                Some(lock_of(old(self)@.action))
            } else {
                None
            },
    {
        match self.phase {
            Phase::Streaming => {
                self.phase = Phase::Completed;
                Some(self.lock_mode())
            },
            _ => None,
        }
    }

    /// Fails the request from whatever phase it is in, and hands back the
    /// lock that the caller has to release, if the request held one. A
    /// request that is completed or has failed already stays as it is.
    pub fn fail(&mut self, error: GitError) -> (release: Option<LockMode>)
        requires
            old(self).wf(),
        ensures
            final(self).wf(),
            terminal(old(self)@.phase) ==> final(self)@ == old(self)@,
            !terminal(old(self)@.phase) ==> final(self)@ == old(self)@.failed(error@),
            release == if holds_lock(old(self)@.phase) {
                Some(lock_of(old(self)@.action))
            } else {
                None
            },
    {
        match self.phase {
            Phase::Completed => None,
            Phase::Failed => None,
            _ => {
                let release = if self.holds_lock() {
                    Some(self.lock_mode())
                } else {
                    None
                };
                self.phase = Phase::Failed;
                self.failure = Some(error);
                release
            },
        }
    }

    /// The client went away: fails the request as a broken pipe and says
    /// what the caller has to clean up. The toolchain is to be killed when
    /// the request had come far enough to run it, and the lock is to be
    /// released when the request held it.
    pub fn cancel(&mut self) -> (cleanup: Cleanup)
        requires
            old(self).wf(),
        ensures
            final(self).wf(),
            terminal(old(self)@.phase) ==> final(self)@ == old(self)@,
            !terminal(old(self)@.phase) ==> final(self)@ == old(self)@.failed(ErrorView::IOFailure),
            cleanup == cleanup_of(old(self)@),
    {
        let kill = self.holds_lock() && match self.action {
            Action::InfoRefs => false,
            _ => true,
        };
        let release = self.fail(GitError::IOFailure);
        Cleanup { kill, release }
    }

    /// The status of the response, as far as one can still be sent.
    pub fn status(&self) -> (code: Option<u16>)
        requires
            self.wf(),
        ensures
            code == status_of(self@),
    {
        match self.phase {
            Phase::Completed => Some(200),
            Phase::Failed => {
                if self.streamed {
                    None
                } else {
                    match &self.failure {
                        Some(e) => Some(e.status()),
                        None => None,
                    }
                }
            },
            _ => None,
        }
    }
}

/// A session that holds its lock has a valid name: a request that failed
/// validation is never among those that hold a lock.
pub proof fn lemma_lock_needs_valid_name(s: SessionView)
    requires
        consistent(s),
        holds_lock(s.phase),
    ensures
        valid_name(s.repo_name),
{
}

} // verus!
