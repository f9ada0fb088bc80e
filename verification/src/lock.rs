//! The readers/writer lock of one repository, as a state machine.
//!
//! The lock counts its holders and the writers that wait. It never blocks:
//! a request is granted or not, and the caller suspends a task that was
//! not served and lets it ask again after the next release. Writers come
//! first: while one waits, no new reader gets in.

use vstd::prelude::*;
use vstd::string::*;
use crate::text::same_text;

verus! {

/// No counter of the lock goes beyond this.
pub const LIMIT: u64 = 0xffff_ffff_ffff_ffff;

/// The holders of a lock and the writers that wait for it.
pub struct LockView {
    pub readers: nat,
    pub writers: nat,
    pub waiting: nat,
}

/// What a lock looks like from outside.
#[derive(Clone, Copy, Debug, PartialEq, Eq, Structural)]
pub enum LockState {
    Idle,
    ReadHeld(u64),
    WriteHeld,
}

/// What a task may ask of a lock.
#[derive(Clone, Copy, Debug, PartialEq, Eq, Structural)]
pub enum LockOp {
    /// A reader asks to get in.
    TryRead,
    /// A writer arrives: it gets in at once or joins the waiting writers.
    RequestWrite,
    /// A waiting writer asks again.
    RetryWrite,
    /// A waiting writer gives up.
    CancelWrite,
    /// A reader leaves.
    ReleaseRead,
    /// The writer leaves.
    ReleaseWrite,
}

/// What a writer is told when it arrives.
#[derive(Clone, Copy, Debug, PartialEq, Eq, Structural)]
pub enum WriteAnswer {
    /// The writer holds the lock.
    Granted,
    /// The writer was counted among the waiting writers.
    Queued,
    /// The lock is taken and cannot count another waiting writer.
    Refused,
}

/// The lock that nobody holds and nobody waits for.
pub open spec fn idle() -> LockView {
    LockView { readers: 0, writers: 0, waiting: 0 }
}

/// Nobody holds the lock.
pub open spec fn free(v: LockView) -> bool {
    v.readers == 0 && v.writers == 0
}

/// A reader is let in when no writer holds the lock and none waits.
pub open spec fn admits_reader(v: LockView) -> bool {
    v.writers == 0 && v.waiting == 0 && v.readers < LIMIT
}

/// At most one writer holds the lock, and never together with a reader.
pub open spec fn exclusive(v: LockView) -> bool {
    v.writers <= 1 && (v.writers == 1 ==> v.readers == 0)
}

/// The lock after a request.
pub open spec fn step(v: LockView, op: LockOp) -> LockView {
    match op {
        LockOp::TryRead => if admits_reader(v) {
            LockView { readers: v.readers + 1, ..v }
        } else {
            v
        },
        LockOp::RequestWrite => if free(v) {
            LockView { writers: 1, ..v }
        } else if v.waiting < LIMIT {
            LockView { waiting: v.waiting + 1, ..v }
        } else {
            v
        },
        LockOp::RetryWrite => if free(v) && v.waiting > 0 {
            LockView { writers: 1, waiting: (v.waiting - 1) as nat, ..v }
        } else {
            v
        },
        LockOp::CancelWrite => if v.waiting > 0 {
            LockView { waiting: (v.waiting - 1) as nat, ..v }
        } else {
            v
        },
        LockOp::ReleaseRead => if v.readers > 0 {
            LockView { readers: (v.readers - 1) as nat, ..v }
        } else {
            v
        },
        LockOp::ReleaseWrite => if v.writers > 0 {
            LockView { writers: (v.writers - 1) as nat, ..v }
        } else {
            v
        },
    }
}

/// The lock after a run of requests, the first one first.
pub open spec fn run(v: LockView, ops: Seq<LockOp>) -> LockView
    decreases ops.len(),
{
    if ops.len() == 0 {
        v
    } else {
        step(run(v, ops.drop_last()), ops.last())
    }
}

/// No request breaks the exclusion.
pub proof fn lemma_step_keeps_exclusion(v: LockView, op: LockOp)
    requires
        exclusive(v),
    ensures
        exclusive(step(v, op)),
{
}

/// Whatever is asked of a lock, from the moment it is made and in any
/// order: at no time do two writers hold it, and at no time a writer
/// together with a reader.
pub proof fn lemma_exclusion_always(ops: Seq<LockOp>)
    ensures
        exclusive(run(idle(), ops)),
    decreases ops.len(),
{
    if ops.len() > 0 {
        lemma_exclusion_always(ops.drop_last());
        lemma_step_keeps_exclusion(run(idle(), ops.drop_last()), ops.last());
    }
}

/// While a writer waits no reader gets in, and a reader that asks leaves
/// the lock as it was.
pub proof fn lemma_writers_first(v: LockView)
    requires
        v.waiting > 0,
    ensures
        !admits_reader(v),
        step(v, LockOp::TryRead) == v,
{
}

/// A writer gets in only when the last holder has left.
pub proof fn lemma_writer_waits_for_holders(v: LockView, op: LockOp)
    requires
        step(v, op).writers > v.writers,
    ensures
        free(v),
        op == LockOp::RequestWrite || op == LockOp::RetryWrite,
{
}

/// The lock of one repository.
#[derive(Clone, Copy, Debug)]
pub struct RepoLock {
    readers: u64,
    writers: u64,
    waiting_writers: u64,
}

impl View for RepoLock {
    type V = LockView;

    closed spec fn view(&self) -> LockView {
        LockView {
            readers: self.readers as nat,
            writers: self.writers as nat,
            waiting: self.waiting_writers as nat,
        }
    }
}

impl RepoLock {
    /// What holds of every lock: the exclusion.
    pub open spec fn wf(&self) -> bool {
        exclusive(self@)
    }

    /// A lock that nobody holds.
    pub fn new() -> (lock: RepoLock)
        ensures
            lock@ == idle(),
            lock.wf(),
    {
        RepoLock { readers: 0, writers: 0, waiting_writers: 0 }
    }

    /// A reader asks to get in. It is let in unless a writer holds the
    /// lock or waits for it.
    pub fn try_read(&mut self) -> (granted: bool)
        requires
            old(self).wf(),
        ensures
            final(self).wf(),
            granted == admits_reader(old(self)@),
            final(self)@ == step(old(self)@, LockOp::TryRead),
    {
        if self.writers == 0 && self.waiting_writers == 0 && self.readers < LIMIT {
            self.readers = self.readers + 1;
            true
        } else {
            false
        }
    }

    /// A writer arrives. It gets the lock if nobody holds it; else it is
    /// counted among the waiting writers and has to ask again.
    pub fn request_write(&mut self) -> (answer: WriteAnswer)
        requires
            old(self).wf(),
        ensures
            final(self).wf(),
            final(self)@ == step(old(self)@, LockOp::RequestWrite),
            answer == if free(old(self)@) {
                WriteAnswer::Granted
            } else if old(self)@.waiting < LIMIT {
                WriteAnswer::Queued
            } else {
                WriteAnswer::Refused
            },
    {
        if self.readers == 0 && self.writers == 0 {
            self.writers = 1;
            WriteAnswer::Granted
        } else if self.waiting_writers < LIMIT {
            self.waiting_writers = self.waiting_writers + 1;
            WriteAnswer::Queued
        } else {
            WriteAnswer::Refused
        }
    }

    /// A waiting writer asks again. It gets the lock once nobody holds
    /// it, and then waits no longer.
    pub fn retry_write(&mut self) -> (granted: bool)
        requires
            old(self).wf(),
        ensures
            final(self).wf(),
            final(self)@ == step(old(self)@, LockOp::RetryWrite),
            granted == (free(old(self)@) && old(self)@.waiting > 0),
    {
        if self.readers == 0 && self.writers == 0 && self.waiting_writers > 0 {
            self.writers = 1;
            self.waiting_writers = self.waiting_writers - 1;
            true
        } else {
            false
        }
    }

    /// A waiting writer gives up. Returns whether a writer was waiting.
    pub fn cancel_write(&mut self) -> (done: bool)
        requires
            old(self).wf(),
        ensures
            final(self).wf(),
            final(self)@ == step(old(self)@, LockOp::CancelWrite),
            done == (old(self)@.waiting > 0),
    {
        if self.waiting_writers > 0 {
            self.waiting_writers = self.waiting_writers - 1;
            true
        } else {
            false
        }
    }

    /// A reader leaves. Returns whether a reader held the lock.
    pub fn release_read(&mut self) -> (done: bool)
        requires
            old(self).wf(),
        ensures
            final(self).wf(),
            final(self)@ == step(old(self)@, LockOp::ReleaseRead),
            done == (old(self)@.readers > 0),
    {
        if self.readers > 0 {
            self.readers = self.readers - 1;
            true
        } else {
            false
        }
    }

    /// The writer leaves. Returns whether a writer held the lock.
    pub fn release_write(&mut self) -> (done: bool)
        requires
            old(self).wf(),
        ensures
            final(self).wf(),
            final(self)@ == step(old(self)@, LockOp::ReleaseWrite),
            done == (old(self)@.writers > 0),
    {
        if self.writers > 0 {
            self.writers = self.writers - 1;
            true
        } else {
            false
        }
    }

    /// Carries out a request and says whether it was served: a reader or
    /// a writer that got in, a writer that stopped waiting, a holder that
    /// left.
    pub fn apply(&mut self, op: LockOp) -> (served: bool)
        requires
            old(self).wf(),
        ensures
            final(self).wf(),
            final(self)@ == step(old(self)@, op),
            served == match op {
                LockOp::TryRead => admits_reader(old(self)@),
                LockOp::RequestWrite => free(old(self)@),
                LockOp::RetryWrite => free(old(self)@) && old(self)@.waiting > 0,
                LockOp::CancelWrite => old(self)@.waiting > 0,
                LockOp::ReleaseRead => old(self)@.readers > 0,
                LockOp::ReleaseWrite => old(self)@.writers > 0,
            },
    {
        match op {
            LockOp::TryRead => self.try_read(),
            LockOp::RequestWrite => match self.request_write() {
                WriteAnswer::Granted => true,
                _ => false,
            },
            LockOp::RetryWrite => self.retry_write(),
            LockOp::CancelWrite => self.cancel_write(),
            LockOp::ReleaseRead => self.release_read(),
            LockOp::ReleaseWrite => self.release_write(),
        }
    }

    /// Who holds the lock.
    pub open spec fn spec_state(v: LockView) -> LockState {
        if v.writers > 0 {
            LockState::WriteHeld
        } else if v.readers > 0 {
            LockState::ReadHeld(v.readers as u64)
        } else {
            LockState::Idle
        }
    }

    /// Who holds the lock.
    pub fn state(&self) -> (s: LockState)
        ensures
            s == Self::spec_state(self@),
    {
        if self.writers > 0 {
            LockState::WriteHeld
        } else if self.readers > 0 {
            LockState::ReadHeld(self.readers)
        } else {
            LockState::Idle
        }
    }

    /// Whether nobody holds the lock.
    pub fn is_idle(&self) -> (r: bool)
        ensures
            r == free(self@),
    {
        self.readers == 0 && self.writers == 0
    }

    /// How many writers wait.
    pub fn waiting_writers(&self) -> (n: u64)
        ensures
            n == self@.waiting,
    {
        self.waiting_writers
    }
}

/// The lock of a repository under its name.
#[derive(Debug)]
struct LockEntry {
    name: String,
    lock: RepoLock,
}

/// The locks of all repositories, by name. A lock is made when its name
/// is first asked for and stays for good.
#[derive(Debug)]
pub struct LockTable {
    entries: Vec<LockEntry>,
}

spec fn lock_at(s: Seq<LockEntry>, n: Seq<char>) -> LockView
    decreases s.len(),
{
    if s.len() == 0 {
        idle()
    } else if s.last().name@ == n {
        s.last().lock@
    } else {
        lock_at(s.drop_last(), n)
    }
}

spec fn listed(s: Seq<LockEntry>, n: Seq<char>) -> bool
    decreases s.len(),
{
    s.len() > 0 && (s.last().name@ == n || listed(s.drop_last(), n))
}

spec fn all_exclusive(s: Seq<LockEntry>) -> bool {
    forall|i: int| 0 <= i < s.len() ==> exclusive((#[trigger] s[i]).lock@)
}

proof fn lemma_unlisted(s: Seq<LockEntry>, n: Seq<char>)
    requires
        forall|j: int| 0 <= j < s.len() ==> (#[trigger] s[j]).name@ != n,
    ensures
        !listed(s, n),
        lock_at(s, n) == idle(),
    decreases s.len(),
{
    if s.len() > 0 {
        assert(s.last() == s[s.len() - 1]);
        let t = s.drop_last();
        assert forall|j: int| 0 <= j < t.len() implies (#[trigger] t[j]).name@ != n by {
            assert(t[j] == s[j]);
        }
        lemma_unlisted(t, n);
    }
}

proof fn lemma_lock_at_exclusive(s: Seq<LockEntry>, n: Seq<char>)
    requires
        all_exclusive(s),
    ensures
        exclusive(lock_at(s, n)),
    decreases s.len(),
{
    if s.len() > 0 {
        assert(s.last() == s[s.len() - 1]);
        assert forall|j: int| 0 <= j < s.drop_last().len() implies exclusive(
            (#[trigger] s.drop_last()[j]).lock@,
        ) by {
            assert(s.drop_last()[j] == s[j]);
        }
        lemma_lock_at_exclusive(s.drop_last(), n);
    }
}

proof fn lemma_replaced(s: Seq<LockEntry>, i: int, e: LockEntry, m: Seq<char>)
    requires
        0 <= i < s.len(),
        e.name@ == s[i].name@,
        forall|j: int| i < j < s.len() ==> (#[trigger] s[j]).name@ != e.name@,
    ensures
        lock_at(s.update(i, e), m) == if m == e.name@ {
            e.lock@
        } else {
            lock_at(s, m)
        },
        listed(s.update(i, e), m) == listed(s, m),
        lock_at(s, e.name@) == s[i].lock@,
    decreases s.len(),
{
    let t = s.update(i, e);
    if i == s.len() - 1 {
        assert(t.drop_last() =~= s.drop_last());
    } else {
        assert(t.last() == s.last());
        assert(s.last() == s[s.len() - 1]);
        let front = s.drop_last();
        assert(t.drop_last() =~= front.update(i, e));
        assert forall|j: int| i < j < front.len() implies (#[trigger] front[j]).name@
            != e.name@ by {
            assert(front[j] == s[j]);
        }
        lemma_replaced(front, i, e, m);
    }
}

impl LockTable {
    /// The lock of a name. A name that was never asked for has a lock
    /// that nobody holds.
    pub closed spec fn state_of(&self, name: Seq<char>) -> LockView {
        lock_at(self.entries@, name)
    }

    /// Whether the lock of a name has been made.
    pub closed spec fn has_lock(&self, name: Seq<char>) -> bool {
        listed(self.entries@, name)
    }

    /// What holds of every table: each of its locks keeps the exclusion.
    pub closed spec fn wf(&self) -> bool {
        all_exclusive(self.entries@)
    }

    /// In a table no lock is ever held by two writers, or by a writer and
    /// a reader.
    pub proof fn lemma_every_lock_exclusive(&self, name: Seq<char>)
        requires
            self.wf(),
        ensures
            exclusive(self.state_of(name)),
    {
        lemma_lock_at_exclusive(self.entries@, name);
    }

    /// A table without locks.
    pub fn new() -> (t: LockTable)
        ensures
            t.wf(),
            forall|n: Seq<char>| !t.has_lock(n) && t.state_of(n) == idle(),
    {
        LockTable { entries: Vec::new() }
    }

    fn position(&self, name: &str) -> (r: Option<usize>)
        ensures
            match r {
                Some(i) => {
                    &&& i < self.entries@.len()
                    &&& self.entries@[i as int].name@ == name@
                    &&& forall|j: int|
                        i < j < self.entries@.len() ==> (#[trigger] self.entries@[j]).name@
                            != name@
                },
                None => forall|j: int|
                    0 <= j < self.entries@.len() ==> (#[trigger] self.entries@[j]).name@ != name@,
            },
    {
        let mut i: usize = self.entries.len();
        while i > 0
            invariant
                i <= self.entries@.len(),
                forall|j: int|
                    i <= j < self.entries@.len() ==> (#[trigger] self.entries@[j]).name@ != name@,
            decreases i,
        {
            i -= 1;
            if same_text(self.entries[i].name.as_str(), name) {
                return Some(i);
            }
        }
        None
    }

    /// The lock of a name as it stands.
    pub fn peek(&self, name: &str) -> (lock: RepoLock)
        requires
            self.wf(),
        ensures
            lock@ == self.state_of(name@),
            lock.wf(),
    {
        proof {
            lemma_lock_at_exclusive(self.entries@, name@);
        }
        match self.position(name) {
            Some(i) => {
                proof {
                    let e = self.entries@[i as int];
                    lemma_replaced(self.entries@, i as int, e, name@);
                }
                self.entries[i].lock
            },
            None => {
                proof {
                    lemma_unlisted(self.entries@, name@);
                }
                RepoLock::new()
            },
        }
    }

    /// Carries out a request on the lock of a name and says whether it
    /// was served. The lock is made if the name is new. No other lock
    /// changes, and no lock is ever dropped.
    pub fn apply(&mut self, name: &str, op: LockOp) -> (served: bool)
        requires
            old(self).wf(),
        ensures
            final(self).wf(),
            final(self).has_lock(name@),
            final(self).state_of(name@) == step(old(self).state_of(name@), op),
            forall|other: Seq<char>|
                other != name@ ==> final(self).state_of(other) == old(self).state_of(other),
            forall|other: Seq<char>| old(self).has_lock(other) ==> final(self).has_lock(other),
            served == match op {
                LockOp::TryRead => admits_reader(old(self).state_of(name@)),
                LockOp::RequestWrite => free(old(self).state_of(name@)),
                LockOp::RetryWrite => free(old(self).state_of(name@)) && old(self).state_of(
                    name@,
                ).waiting > 0,
                LockOp::CancelWrite => old(self).state_of(name@).waiting > 0,
                LockOp::ReleaseRead => old(self).state_of(name@).readers > 0,
                LockOp::ReleaseWrite => old(self).state_of(name@).writers > 0,
            },
    {
        let ghost before = self.entries@;
        match self.position(name) {
            Some(i) => {
                let mut lock = self.entries[i].lock;
                proof {
                    lemma_replaced(before, i as int, before[i as int], name@);
                }
                let served = lock.apply(op);
                let entry = LockEntry { name: self.entries[i].name.clone(), lock };
                self.entries.set(i, entry);
                proof {
                    lemma_replaced(before, i as int, entry, name@);
                    assert forall|m: Seq<char>| m != name@ implies #[trigger] lock_at(
                        self.entries@,
                        m,
                    ) == lock_at(before, m) by {
                        lemma_replaced(before, i as int, entry, m);
                    }
                    assert forall|m: Seq<char>| #[trigger] listed(before, m) implies listed(
                        self.entries@,
                        m,
                    ) by {
                        lemma_replaced(before, i as int, entry, m);
                    }
                    lemma_listed_at(self.entries@, i as int);
                }
                served
            },
            None => {
                let mut lock = RepoLock::new();
                proof {
                    lemma_unlisted(before, name@);
                }
                let served = lock.apply(op);
                let entry = LockEntry { name: String::from_str(name), lock };
                self.entries.push(entry);
                proof {
                    assert(self.entries@.drop_last() =~= before);
                    assert(self.entries@.last() == entry);
                    assert forall|m: Seq<char>| m != name@ implies #[trigger] lock_at(
                        self.entries@,
                        m,
                    ) == lock_at(before, m) by {}
                    assert forall|m: Seq<char>| #[trigger] listed(before, m) implies listed(
                        self.entries@,
                        m,
                    ) by {}
                }
                served
            },
        }
    }
}

proof fn lemma_listed_at(s: Seq<LockEntry>, i: int)
    requires
        0 <= i < s.len(),
    ensures
        listed(s, s[i].name@),
    decreases s.len(),
{
    if i < s.len() - 1 {
        assert(s.drop_last()[i] == s[i]);
        lemma_listed_at(s.drop_last(), i);
    }
}

/// A repository as its requests see it: its lock, and the version of its
/// refs, which counts the pushes that have committed.
pub struct Timeline {
    pub lock: LockView,
    pub version: nat,
}

/// What happens to a repository.
pub enum Move {
    /// A request asks something of the lock.
    Lock(LockOp),
    /// The push that holds the lock commits its refs. A commit without
    /// the write lock does not happen.
    Commit,
}

/// The repository after a move.
pub open spec fn moved(t: Timeline, m: Move) -> Timeline {
    match m {
        Move::Lock(op) => Timeline { lock: step(t.lock, op), ..t },
        Move::Commit => if t.lock.writers > 0 {
            Timeline { version: t.version + 1, ..t }
        } else {
            t
        },
    }
}

/// The repository after a run of moves, the first one first.
pub open spec fn replay(t: Timeline, moves: Seq<Move>) -> Timeline
    decreases moves.len(),
{
    if moves.len() == 0 {
        t
    } else {
        moved(replay(t, moves.drop_last()), moves.last())
    }
}

/// A fetch sees one version of the refs for as long as it holds the read
/// lock: if readers hold the lock before every one of a run of moves, no
/// push commits during the run, so the refs that were advertised are the
/// refs that the pack is made from. A push commits wholly before or
/// wholly after.
pub proof fn lemma_readers_see_one_version(t: Timeline, moves: Seq<Move>)
    requires
        exclusive(t.lock),
        forall|k: int|
            0 <= k < moves.len() ==> (#[trigger] replay(t, moves.take(k))).lock.readers > 0,
    ensures
        replay(t, moves).version == t.version,
        exclusive(replay(t, moves).lock),
    decreases moves.len(),
{
    if moves.len() > 0 {
        let before = moves.drop_last();
        assert forall|k: int| 0 <= k < before.len() implies (#[trigger] replay(
            t,
            before.take(k),
        )).lock.readers > 0 by {
            assert(before.take(k) =~= moves.take(k));
        }
        lemma_readers_see_one_version(t, before);
        assert(moves.take(moves.len() - 1) =~= before);
        assert(replay(t, moves.take(moves.len() - 1)).lock.readers > 0);
        match moves.last() {
            Move::Lock(op) => {
                lemma_step_keeps_exclusion(replay(t, before).lock, op);
            },
            Move::Commit => {},
        }
    }
}

} // verus!
