//! The registry: which repositories exist, where they lie, and whether
//! they are switched on.
//!
//! The registry itself never touches the disk. Creating a repository is a
//! plan that the caller carries out, followed by a report of how it went;
//! deleting one is switching it off, then, once nobody holds its lock and
//! the caller has removed its directory, dropping its record.

use vstd::prelude::*;
use vstd::string::*;
use crate::error::{ErrorView, GitError};
use crate::lock::{free, RepoLock};
use crate::service::{args_view, LockMode};
use crate::name::{
    has_absolute_prefix, has_parent_traversal, is_valid_name, lemma_slash_is_rejected, valid_name,
};
use crate::process::{lossy, lossy_text, ProcessOutcome};
use crate::text::same_text;

verus! {

/// A repository as the registry knows it.
#[derive(Debug)]
pub struct RepoConfig {
    pub name: String,
    pub path: Option<String>,
    pub description: Option<String>,
    pub active: bool,
}

/// The mathematical value of a record.
pub struct RecordView {
    pub name: Seq<char>,
    pub path: Option<Seq<char>>,
    pub description: Option<Seq<char>>,
    pub active: bool,
}

/// The characters of an optional string.
pub open spec fn text_view(text: Option<String>) -> Option<Seq<char>> {
    match text {
        Some(s) => Some(s@),
        None => None,
    }
}

impl View for RepoConfig {
    type V = RecordView;

    open spec fn view(&self) -> RecordView {
        RecordView {
            name: self.name@,
            path: text_view(self.path),
            description: text_view(self.description),
            active: self.active,
        }
    }
}

/// Where a repository lies: its name under the base directory, with one
/// separator between the two unless the base is empty or brings its own.
pub open spec fn location(base: Seq<char>, name: Seq<char>) -> Seq<char> {
    if base.len() == 0 {
        name
    } else if base.last() == '/' {
        base + name
    } else {
        base + seq!['/'] + name
    }
}

/// The record of a repository that was just created.
pub open spec fn fresh_record(
    base: Seq<char>,
    name: Seq<char>,
    description: Option<Seq<char>>,
) -> RecordView {
    RecordView { name, path: Some(location(base, name)), description, active: true }
}

/// What a lookup answers on a registry with the given records.
pub open spec fn lookup_answer(records: Map<Seq<char>, RecordView>, name: Seq<char>) -> Result<
    RecordView,
    ErrorView,
> {
    if !records.dom().contains(name) {
        Err(ErrorView::NotFound)
    } else if !records[name].active {
        Err(ErrorView::Inactive)
    } else {
        Ok(records[name])
    }
}

/// Why a repository of this name cannot be created, if anything speaks
/// against it before the toolchain has run.
pub open spec fn create_refusal(records: Map<Seq<char>, RecordView>, name: Seq<char>) -> Option<
    ErrorView,
> {
    if !valid_name(name) {
        Some(ErrorView::InvalidName)
    } else if records.dom().contains(name) {
        Some(ErrorView::AlreadyExists)
    } else {
        None
    }
}

/// What creating a repository answers once the toolchain has run: the
/// refusal of the name if there is one, else the failure of the toolchain
/// if it failed, else the fresh record.
pub open spec fn create_answer(
    records: Map<Seq<char>, RecordView>,
    base: Seq<char>,
    name: Seq<char>,
    description: Option<Seq<char>>,
    init: ProcessOutcome,
) -> Result<RecordView, ErrorView> {
    match create_refusal(records, name) {
        Some(e) => Err(e),
        None => match init {
            ProcessOutcome::NotStarted => Err(ErrorView::SpawnFailed),
            ProcessOutcome::BrokenPipe => Err(ErrorView::IOFailure),
            ProcessOutcome::TimedOut => Err(ErrorView::Timeout),
            ProcessOutcome::Exited { code, stdout, stderr } => if init.succeeded() {
                Ok(fresh_record(base, name, description))
            } else {
                Err(ErrorView::InitFailed(lossy_text(stderr@)))
            },
        },
    }
}

/// The command that initialises a bare repository.
#[derive(Debug)]
pub struct InitPlan {
    /// The lock to hold while the toolchain runs: creating a repository
    /// changes what is on disk.
    pub lock: LockMode,
    /// Where the repository will lie.
    pub location: String,
    /// The arguments for the git toolchain.
    pub args: Vec<String>,
}

/// The arguments that initialise a bare repository at a location.
pub open spec fn init_args(location: Seq<char>) -> Seq<Seq<char>> {
    seq!["init"@, "--bare"@, location]
}

/// The registry of the repositories under one base directory.
#[derive(Debug)]
pub struct RepoManager {
    repos: Vec<RepoConfig>,
    base_path: String,
}

spec fn known(s: Seq<RepoConfig>, n: Seq<char>) -> bool {
    exists|i: int| 0 <= i < s.len() && #[trigger] s[i].name@ == n
}

spec fn index_of(s: Seq<RepoConfig>, n: Seq<char>) -> int {
    choose|i: int| 0 <= i < s.len() && #[trigger] s[i].name@ == n
}

spec fn distinct(s: Seq<RepoConfig>) -> bool {
    forall|i: int, j: int| 0 <= i < j < s.len() ==> #[trigger] s[i].name@ != #[trigger] s[j].name@
}

spec fn as_map(s: Seq<RepoConfig>) -> Map<Seq<char>, RecordView> {
    Map::new(|n: Seq<char>| known(s, n), |n: Seq<char>| s[index_of(s, n)]@)
}

proof fn lemma_index(s: Seq<RepoConfig>, i: int)
    requires
        distinct(s),
        0 <= i < s.len(),
    ensures
        known(s, s[i].name@),
        index_of(s, s[i].name@) == i,
        as_map(s).dom().contains(s[i].name@),
        as_map(s)[s[i].name@] == s[i]@,
{
    let j = index_of(s, s[i].name@);
    assert(0 <= j < s.len() && s[j].name@ == s[i].name@);
    if j < i {
        assert(s[j].name@ != s[i].name@);
    }
    if i < j {
        assert(s[i].name@ != s[j].name@);
    }
}

proof fn lemma_absent(s: Seq<RepoConfig>, n: Seq<char>)
    requires
        forall|i: int| 0 <= i < s.len() ==> #[trigger] s[i].name@ != n,
    ensures
        !known(s, n),
        !as_map(s).dom().contains(n),
{
}

proof fn lemma_push(s: Seq<RepoConfig>, r: RepoConfig)
    requires
        distinct(s),
        !known(s, r.name@),
    ensures
        distinct(s.push(r)),
        as_map(s.push(r)) == as_map(s).insert(r.name@, r@),
{
    let t = s.push(r);
    assert forall|i: int, j: int| 0 <= i < j < t.len() implies #[trigger] t[i].name@
        != #[trigger] t[j].name@ by {
        if j == s.len() {
            assert(t[i] == s[i]);
            assert(s[i].name@ != r.name@);
        } else {
            assert(t[i] == s[i] && t[j] == s[j]);
        }
    }
    assert forall|n: Seq<char>| known(t, n) <==> (known(s, n) || n == r.name@) by {
        if known(t, n) {
            let i = index_of(t, n);
            if i < s.len() {
                assert(s[i].name@ == n);
            }
        }
        if known(s, n) {
            let i = index_of(s, n);
            assert(t[i].name@ == n);
        }
        if n == r.name@ {
            assert(t[s.len() as int].name@ == n);
        }
    }
    assert forall|n: Seq<char>| known(t, n) implies #[trigger] as_map(t)[n] == as_map(s).insert(
        r.name@,
        r@,
    )[n] by {
        let i = index_of(t, n);
        lemma_index(t, i);
        if i < s.len() {
            assert(t[i] == s[i]);
            lemma_index(s, i);
        }
    }
    assert(as_map(t) =~= as_map(s).insert(r.name@, r@));
}

proof fn lemma_update(s: Seq<RepoConfig>, i: int, r: RepoConfig)
    requires
        distinct(s),
        0 <= i < s.len(),
        r.name@ == s[i].name@,
    ensures
        distinct(s.update(i, r)),
        as_map(s.update(i, r)) == as_map(s).insert(r.name@, r@),
{
    let t = s.update(i, r);
    assert forall|a: int, b: int| 0 <= a < b < t.len() implies #[trigger] t[a].name@
        != #[trigger] t[b].name@ by {
        assert(t[a].name@ == s[a].name@);
        assert(t[b].name@ == s[b].name@);
    }
    assert forall|n: Seq<char>| known(t, n) <==> known(s, n) by {
        if known(t, n) {
            let k = index_of(t, n);
            assert(s[k].name@ == n);
        }
        if known(s, n) {
            let k = index_of(s, n);
            assert(t[k].name@ == n);
        }
    }
    lemma_index(s, i);
    assert forall|n: Seq<char>| known(t, n) implies #[trigger] as_map(t)[n] == as_map(s).insert(
        r.name@,
        r@,
    )[n] by {
        let k = index_of(t, n);
        lemma_index(t, k);
        assert(s[k].name@ == n);
        lemma_index(s, k);
    }
    assert(as_map(t) =~= as_map(s).insert(r.name@, r@));
}

proof fn lemma_remove(s: Seq<RepoConfig>, i: int)
    requires
        distinct(s),
        0 <= i < s.len(),
    ensures
        distinct(s.remove(i)),
        as_map(s.remove(i)) == as_map(s).remove(s[i].name@),
{
    let t = s.remove(i);
    assert forall|a: int| 0 <= a < t.len() implies #[trigger] t[a] == s[if a < i {
        a
    } else {
        a + 1
    }] by {}
    assert forall|a: int, b: int| 0 <= a < b < t.len() implies #[trigger] t[a].name@
        != #[trigger] t[b].name@ by {
        let a2 = if a < i { a } else { a + 1 };
        let b2 = if b < i { b } else { b + 1 };
        assert(t[a] == s[a2] && t[b] == s[b2]);
        assert(s[a2].name@ != s[b2].name@);
    }
    assert forall|n: Seq<char>| known(t, n) <==> (known(s, n) && n != s[i].name@) by {
        if known(t, n) {
            let k = index_of(t, n);
            let k2 = if k < i { k } else { k + 1 };
            assert(t[k] == s[k2]);
            assert(s[k2].name@ == n);
            if k2 < i {
                assert(s[k2].name@ != s[i].name@);
            } else {
                assert(s[i].name@ != s[k2].name@);
            }
        }
        if known(s, n) && n != s[i].name@ {
            let k = index_of(s, n);
            let k1 = if k < i { k } else { k - 1 };
            assert(t[k1] == s[k]);
            assert(t[k1].name@ == n);
        }
    }
    assert forall|n: Seq<char>| known(t, n) implies #[trigger] as_map(t)[n] == as_map(s).remove(
        s[i].name@,
    )[n] by {
        let k = index_of(t, n);
        lemma_index(t, k);
        let k2 = if k < i { k } else { k + 1 };
        assert(t[k] == s[k2]);
        lemma_index(s, k2);
    }
    assert(as_map(t) =~= as_map(s).remove(s[i].name@));
}

fn copy_text(text: &Option<String>) -> (r: Option<String>)
    ensures
        text_view(r) == text_view(*text),
{
    match text {
        Some(s) => Some(s.clone()),
        None => None,
    }
}

/// Joins a name to a base directory.
pub fn join(base: &str, name: &str) -> (r: String)
    ensures
        r@ == location(base@, name@),
{
    let mut last: Option<char> = None;
    for c in iter: base.chars()
        invariant
            iter.seq() == base@,
            last == if iter.index() == 0 {
                None::<char>
            } else {
                Some(base@[iter.index() - 1])
            },
    {
        last = Some(c);
    }
    match last {
        None => String::from_str(name),
        Some(c) => {
            if c == '/' {
                String::from_str(base).concat(name)
            } else {
                proof {
                    reveal_strlit("/");
                    assert("/"@ =~= seq!['/']);
                }
                String::from_str(base).concat("/").concat(name)
            }
        },
    }
}

impl View for RepoManager {
    type V = Map<Seq<char>, RecordView>;

    /// The records by name.
    closed spec fn view(&self) -> Map<Seq<char>, RecordView> {
        as_map(self.repos@)
    }
}

impl RepoManager {
    /// The directory under which every repository lies.
    pub closed spec fn base(&self) -> Seq<char> {
        self.base_path@
    }

    /// What holds of every registry: no name is filed twice, every name
    /// is valid, and every record lies where its name puts it.
    pub closed spec fn wf(&self) -> bool {
        &&& distinct(self.repos@)
        &&& forall|i: int|
            0 <= i < self.repos@.len() ==> valid_name((#[trigger] self.repos@[i]).name@)
                && self.repos@[i]@.path == Some(location(self.base_path@, self.repos@[i].name@))
    }

    /// Every record is filed under its own name, which is valid, and lies
    /// under the base directory at the place that the name gives.
    pub open spec fn well_placed(records: Map<Seq<char>, RecordView>, base: Seq<char>) -> bool {
        forall|n: Seq<char>| #[trigger]
            records.dom().contains(n) ==> {
                &&& valid_name(n)
                &&& records[n].name == n
                &&& records[n].path == Some(location(base, n))
            }
    }

    /// An empty registry over a base directory.
    pub fn new(base_path: String) -> (m: RepoManager)
        ensures
            m.wf(),
            m@ == Map::<Seq<char>, RecordView>::empty(),
            m.base() == base_path@,
    {
        let m = RepoManager { repos: Vec::new(), base_path };
        assert(m@ =~= Map::<Seq<char>, RecordView>::empty());
        m
    }

    /// The records of a registry are always well placed.
    pub proof fn lemma_well_placed(&self)
        requires
            self.wf(),
        ensures
            Self::well_placed(self@, self.base()),
    {
        assert forall|n: Seq<char>| #[trigger] self@.dom().contains(n) implies valid_name(n)
            && self@[n].name == n && self@[n].path == Some(location(self.base(), n)) by {
            let i = index_of(self.repos@, n);
            lemma_index(self.repos@, i);
        }
    }

    fn position(&self, name: &str) -> (r: Option<usize>)
        requires
            self.wf(),
        ensures
            r matches Some(i) ==> i < self.repos@.len() && self.repos@[i as int].name@ == name@,
            r is None ==> !known(self.repos@, name@),
            r is Some == self@.dom().contains(name@),
    {
        let mut i: usize = 0;
        while i < self.repos.len()
            invariant
                i <= self.repos@.len(),
                forall|j: int| 0 <= j < i ==> #[trigger] self.repos@[j].name@ != name@,
            decreases self.repos@.len() - i,
        {
            if same_text(self.repos[i].name.as_str(), name) {
                return Some(i);
            }
            i += 1;
        }
        proof {
            lemma_absent(self.repos@, name@);
        }
        None
    }

    /// Whether a repository of that name is registered, switched on or
    /// not.
    pub fn contains_key(&self, name: &str) -> (r: bool)
        requires
            self.wf(),
        ensures
            r == self@.dom().contains(name@),
    {
        self.position(name).is_some()
    }

    /// How many repositories are registered.
    pub fn len(&self) -> (n: usize)
        requires
            self.wf(),
        ensures
            n == self@.dom().len(),
            self@.dom().finite(),
    {
        proof {
            lemma_count(self.repos@);
        }
        self.repos.len()
    }

    /// Looks a repository up by name. A repository that is switched off is
    /// not handed out.
    pub fn lookup(&self, name: &str) -> (r: Result<&RepoConfig, GitError>)
        requires
            self.wf(),
        ensures
            match lookup_answer(self@, name@) {
                Ok(record) => r matches Ok(found) && found@ == record,
                Err(e) => r matches Err(f) && f@ == e,
            },
            Self::well_placed(self@, self.base()),
    {
        proof {
            self.lemma_well_placed();
        }
        match self.position(name) {
            None => Err(GitError::NotFound),
            Some(i) => {
                proof {
                    lemma_index(self.repos@, i as int);
                }
                let record = &self.repos[i];
                if record.active {
                    Ok(record)
                } else {
                    Err(GitError::Inactive)
                }
            },
        }
    }

    /// First step of creating a repository: checks the name and hands out
    /// the command that initialises the bare repository. When the name is
    /// refused no command is handed out, so nothing is touched on disk.
    pub fn plan_create(&self, name: &str) -> (r: Result<InitPlan, GitError>)
        requires
            self.wf(),
        ensures
            match create_refusal(self@, name@) {
                Some(e) => r matches Err(f) && f@ == e,
                None => {
                    &&& r matches Ok(plan)
                    &&& plan.lock == LockMode::Write
                    &&& plan.location@ == location(self.base(), name@)
                    &&& args_view(plan.args@) == init_args(plan.location@)
                },
            },
    {
        if !is_valid_name(name) {
            return Err(GitError::InvalidName);
        }
        if self.position(name).is_some() {
            return Err(GitError::AlreadyExists);
        }
        let place = join(self.base_path.as_str(), name);
        let mut args: Vec<String> = Vec::new();
        args.push(String::from_str("init"));
        args.push(String::from_str("--bare"));
        args.push(place.clone());
        assert(args_view(args@) =~= init_args(place@));
        Ok(InitPlan { lock: LockMode::Write, location: place, args })
    }

    /// Second step of creating a repository: files the record once the
    /// toolchain has initialised the repository. The name is checked again,
    /// so that of two callers with one name the second is refused. When the
    /// toolchain failed, nothing is filed.
    pub fn add_repo(
        &mut self,
        name: String,
        description: Option<String>,
        init: &ProcessOutcome,
    ) -> (r: Result<RepoConfig, GitError>)
        requires
            old(self).wf(),
        ensures
            final(self).wf(),
            final(self).base() == old(self).base(),
            r is Err ==> final(self)@ == old(self)@,
            match create_answer(
                old(self)@,
                old(self).base(),
                name@,
                text_view(description),
                *init,
            ) {
                Ok(record) => {
                    &&& r matches Ok(filed)
                    &&& filed@ == record
                    &&& final(self)@ == old(self)@.insert(name@, record)
                },
                Err(e) => r matches Err(f) && f@ == e,
            },
    {
        if !is_valid_name(name.as_str()) {
            return Err(GitError::InvalidName);
        }
        if self.position(name.as_str()).is_some() {
            return Err(GitError::AlreadyExists);
        }
        match init {
            ProcessOutcome::NotStarted => Err(GitError::SpawnFailed),
            ProcessOutcome::BrokenPipe => Err(GitError::IOFailure),
            ProcessOutcome::TimedOut => Err(GitError::Timeout),
            ProcessOutcome::Exited { code, stdout, stderr } => {
                if !init.is_success() {
                    return Err(GitError::InitFailed(lossy(stderr.as_slice())));
                }
                let place = join(self.base_path.as_str(), name.as_str());
                let filed = RepoConfig {
                    name: name.clone(),
                    path: Some(place.clone()),
                    description: copy_text(&description),
                    active: true,
                };
                let record = RepoConfig { name, path: Some(place), description, active: true };
                proof {
                    lemma_push(self.repos@, filed);
                }
                self.repos.push(filed);
                Ok(record)
            },
        }
    }

    /// First step of deleting a repository: switches it off, so that no
    /// new request is served from it, and hands out where it lies. The
    /// caller waits until nobody holds the repository's lock, removes the
    /// directory and then drops the record.
    pub fn begin_delete(&mut self, name: &str) -> (r: Result<String, GitError>)
        requires
            old(self).wf(),
        ensures
            final(self).wf(),
            final(self).base() == old(self).base(),
            !old(self)@.dom().contains(name@) ==> (r matches Err(GitError::NotFound)
                && final(self)@ == old(self)@),
            old(self)@.dom().contains(name@) ==> {
                &&& r matches Ok(place)
                &&& place@ == location(old(self).base(), name@)
                &&& final(self)@ == old(self)@.insert(
                    name@,
                    RecordView { active: false, ..old(self)@[name@] },
                )
            },
    {
        match self.position(name) {
            None => Err(GitError::NotFound),
            Some(i) => {
                let record = &self.repos[i];
                let place = join(self.base_path.as_str(), name);
                let off = RepoConfig {
                    name: record.name.clone(),
                    path: copy_text(&record.path),
                    description: copy_text(&record.description),
                    active: false,
                };
                proof {
                    lemma_index(self.repos@, i as int);
                    lemma_update(self.repos@, i as int, off);
                }
                self.repos.set(i, off);
                Ok(place)
            },
        }
    }

    /// Whether the directory of a repository may be removed now: the
    /// repository is registered and switched off, and nobody holds its
    /// lock.
    pub fn ready_to_remove(&self, name: &str, lock: &RepoLock) -> (r: bool)
        requires
            self.wf(),
        ensures
            r == (self@.dom().contains(name@) && !self@[name@].active && free(lock@)),
    {
        match self.position(name) {
            None => false,
            Some(i) => {
                proof {
                    lemma_index(self.repos@, i as int);
                }
                !self.repos[i].active && lock.is_idle()
            },
        }
    }

    /// Last step of deleting a repository: drops its record.
    pub fn finish_delete(&mut self, name: &str) -> (r: Result<(), GitError>)
        requires
            old(self).wf(),
        ensures
            final(self).wf(),
            final(self).base() == old(self).base(),
            !old(self)@.dom().contains(name@) ==> (r matches Err(GitError::NotFound)
                && final(self)@ == old(self)@),
            old(self)@.dom().contains(name@) ==> r is Ok && final(self)@ == old(self)@.remove(
                name@,
            ),
    {
        match self.position(name) {
            None => Err(GitError::NotFound),
            Some(i) => {
                proof {
                    lemma_remove(self.repos@, i as int);
                }
                self.repos.remove(i);
                Ok(())
            },
        }
    }
}

proof fn lemma_count(s: Seq<RepoConfig>)
    requires
        distinct(s),
    ensures
        as_map(s).dom().finite(),
        as_map(s).dom().len() == s.len(),
    decreases s.len(),
{
    if s.len() == 0 {
        assert(as_map(s).dom() =~= Set::<Seq<char>>::empty());
    } else {
        let t = s.drop_last();
        assert forall|i: int, j: int| 0 <= i < j < t.len() implies #[trigger] t[i].name@
            != #[trigger] t[j].name@ by {
            assert(t[i] == s[i] && t[j] == s[j]);
        }
        lemma_count(t);
        assert(!known(t, s.last().name@)) by {
            if known(t, s.last().name@) {
                let i = index_of(t, s.last().name@);
                assert(t[i] == s[i]);
                assert(s[i].name@ != s[s.len() - 1].name@);
            }
        }
        assert(s =~= t.push(s.last()));
        lemma_push(t, s.last());
        assert(as_map(s).dom() =~= as_map(t).dom().insert(s.last().name@));
    }
}

/// A repository that was created under a valid name that was still free
/// is found by the next lookup: the record is switched on, carries the
/// name, and lies at the name's place under the base directory.
pub proof fn lemma_create_then_lookup(
    records: Map<Seq<char>, RecordView>,
    base: Seq<char>,
    name: Seq<char>,
    description: Option<Seq<char>>,
    init: ProcessOutcome,
)
    requires
        valid_name(name),
        !records.dom().contains(name),
        init.succeeded(),
    ensures
        create_answer(records, base, name, description, init) matches Ok(record) && {
            &&& lookup_answer(records.insert(name, record), name) == Ok::<RecordView, ErrorView>(
                record,
            )
            &&& record.active
            &&& record.name == name
            &&& record.path == Some(location(base, name))
        },
{
}

/// A name that holds a slash or two dots in a row, or that starts like an
/// absolute path, is refused as invalid whatever the registry holds and
/// however the toolchain would have fared: no command is planned and no
/// record is filed.
pub proof fn lemma_unsafe_name_is_refused(
    records: Map<Seq<char>, RecordView>,
    base: Seq<char>,
    name: Seq<char>,
    description: Option<Seq<char>>,
    init: ProcessOutcome,
)
    requires
        name.contains('/') || has_parent_traversal(name) || has_absolute_prefix(name),
    ensures
        create_refusal(records, name) == Some(ErrorView::InvalidName),
        create_answer(records, base, name, description, init) == Err::<RecordView, ErrorView>(
            ErrorView::InvalidName,
        ),
{
    if name.contains('/') {
        lemma_slash_is_rejected(name);
    }
}

} // verus!
