//! The requests of the metadata API and the rules that they have to meet.

use vstd::prelude::*;
use vstd::string::*;
use crate::error::{ApiErrorView, Error};
use crate::text::same_text;

verus! {

/// Rows on a page when the request does not say.
pub const DEFAULT_PER_PAGE: i32 = 30;

/// Most rows on a page.
pub const MAX_PER_PAGE: i32 = 100;

/// Shortest and longest name of a repository, in characters.
pub const MIN_NAME_LEN: u64 = 1;

pub const MAX_NAME_LEN: u64 = 100;

/// The query of a listing.
#[derive(Debug)]
pub struct ListQuery {
    pub q: Option<String>,
    pub repo_type: Option<String>,
    pub language: Option<String>,
    pub sort: Option<String>,
    pub per_page: Option<i32>,
    pub page: Option<i32>,
}

/// The body of a request to create a repository.
#[derive(Debug)]
pub struct CreateRepository {
    pub name: String,
    pub description: Option<String>,
    pub is_private: bool,
    pub language: Option<String>,
    pub topics: Vec<String>,
}

/// The body of a request to change a repository. What is absent stays as
/// it is.
#[derive(Debug)]
pub struct UpdateRepository {
    pub description: Option<String>,
    pub is_private: Option<bool>,
    pub language: Option<String>,
    pub topics: Option<Vec<String>>,
}

/// What a listing is ordered by, the highest first.
#[derive(Clone, Copy, Debug, PartialEq, Eq, Structural)]
pub enum SortKey {
    Stars,
    Forks,
    Updated,
    Created,
    /// The request names a key that the store does not know: the rows
    /// come in no promised order.
    Unordered,
}

/// Which repositories a listing shows.
#[derive(Clone, Copy, Debug, PartialEq, Eq, Structural)]
pub enum Visibility {
    Public,
    Private,
    All,
}

/// The key that a `sort` parameter stands for.
pub open spec fn sort_key_of(sort: Option<Seq<char>>) -> SortKey {
    match sort {
        None => SortKey::Created,
        Some(s) => if s == "stars"@ {
            SortKey::Stars
        } else if s == "forks"@ {
            SortKey::Forks
        } else if s == "updated"@ {
            SortKey::Updated
        } else {
            SortKey::Unordered
        },
    }
}

/// The filter that a `type` parameter stands for.
pub open spec fn visibility_of(repo_type: Option<Seq<char>>) -> Visibility {
    match repo_type {
        None => Visibility::All,
        Some(t) => if t == "public"@ {
            Visibility::Public
        } else if t == "private"@ {
            Visibility::Private
        } else {
            Visibility::All
        },
    }
}

/// The characters of an optional string.
pub open spec fn chars_of(text: Option<String>) -> Option<Seq<char>> {
    match text {
        Some(s) => Some(s@),
        None => None,
    }
}

impl ListQuery {
    /// Rows on a page: what the request asks for, thirty if it does not
    /// say, and never more than a hundred.
    pub open spec fn spec_page_size(self) -> int {
        let asked = match self.per_page {
            Some(n) => n as int,
            None => DEFAULT_PER_PAGE as int,
        };
        if asked < MAX_PER_PAGE {
            asked
        } else {
            MAX_PER_PAGE as int
        }
    }

    /// The number of the page: what the request asks for, the first if it
    /// does not say, and never one before the first.
    pub open spec fn spec_page_number(self) -> int {
        let asked = match self.page {
            Some(n) => n as int,
            None => 1,
        };
        if asked > 1 {
            asked
        } else {
            1
        }
    }

    /// Rows to skip: a page size for every page before the one asked for.
    pub open spec fn spec_offset(self) -> int {
        (self.spec_page_number() - 1) * self.spec_page_size()
    }

    pub fn page_size(&self) -> (n: i32)
        ensures
            n == self.spec_page_size(),
    {
        let asked: i32 = match self.per_page {
            Some(n) => n,
            None => DEFAULT_PER_PAGE,
        };
        if asked < MAX_PER_PAGE {
            asked
        } else {
            MAX_PER_PAGE
        }
    }

    pub fn page_number(&self) -> (n: i32)
        ensures
            n == self.spec_page_number(),
            n >= 1,
    {
        let asked: i32 = match self.page {
            Some(n) => n,
            None => 1,
        };
        if asked > 1 {
            asked
        } else {
            1
        }
    }

    pub fn offset(&self) -> (n: i64)
        ensures
            n == self.spec_offset(),
    {
        let pages: i64 = (self.page_number() - 1) as i64;
        let size: i64 = self.page_size() as i64;
        assert(-0x8000_0000_0000_0000 <= pages * size <= 0x7fff_ffff_ffff_ffff) by (nonlinear_arith)
            requires
                0 <= pages <= 0x7fff_ffff,
                -0x8000_0000 <= size <= 100,
        ;
        pages * size
    }

    pub fn sort_key(&self) -> (k: SortKey)
        ensures
            k == sort_key_of(chars_of(self.sort)),
    {
        match &self.sort {
            None => SortKey::Created,
            Some(s) => {
                if same_text(s.as_str(), "stars") {
                    SortKey::Stars
                } else if same_text(s.as_str(), "forks") {
                    SortKey::Forks
                } else if same_text(s.as_str(), "updated") {
                    SortKey::Updated
                } else {
                    SortKey::Unordered
                }
            },
        }
    }

    pub fn visibility(&self) -> (v: Visibility)
        ensures
            v == visibility_of(chars_of(self.repo_type)),
    {
        match &self.repo_type {
            None => Visibility::All,
            Some(t) => {
                if same_text(t.as_str(), "public") {
                    Visibility::Public
                } else if same_text(t.as_str(), "private") {
                    Visibility::Private
                } else {
                    Visibility::All
                }
            },
        }
    }

    /// A listing has no rule to break.
    pub fn validate(&self) -> (r: Result<(), Error>)
        ensures
            r is Ok,
    {
        Ok(())
    }
}

/// Calls `validate_length` of the validator crate on a string, with both
/// bounds and no exact length. The crate counts the characters of the
/// string and accepts it when the count lies within the bounds, both
/// included.
#[verifier::external_body]
fn length_within(text: &str, min: u64, max: u64) -> (ok: bool)
    ensures
        ok == (min <= text@.len() <= max),
{
    validator::ValidateLength::validate_length(text, Some(min), Some(max), None)
}

/// Whether a name is neither empty nor longer than a hundred characters.
pub open spec fn name_length_ok(name: Seq<char>) -> bool {
    MIN_NAME_LEN <= name.len() <= MAX_NAME_LEN
}

impl CreateRepository {
    /// The one rule: the length of the name.
    pub fn validate(&self) -> (r: Result<(), Error>)
        ensures
            name_length_ok(self.name@) ==> r is Ok,
            !name_length_ok(self.name@) ==> (r matches Err(e) && e@ == ApiErrorView::Validation(
                "name: length"@,
            )),
    {
        if length_within(self.name.as_str(), MIN_NAME_LEN, MAX_NAME_LEN) {
            Ok(())
        } else {
            Err(Error::Validation(String::from_str("name: length")))
        }
    }
}

impl UpdateRepository {
    /// A change has no rule to break.
    pub fn validate(&self) -> (r: Result<(), Error>)
        ensures
            r is Ok,
    {
        Ok(())
    }
}

/// How a statement against the store failed.
#[derive(Debug)]
pub enum DbFailure {
    /// The database refused the statement; `code` is its SQLSTATE where
    /// it gave one.
    Database { code: Option<String>, message: String },
    /// The statement found no row where one was needed.
    RowNotFound,
    /// Anything else.
    Other { message: String },
}

/// What a failure of the store means for the client: a unique violation
/// is a collision of names, a foreign-key violation and a missing row are
/// things not found, and the rest is the store's own trouble.
pub open spec fn db_verdict(failure: DbFailure) -> ApiErrorView {
    match failure {
        DbFailure::Database { code: Some(c), message } => if c@ == "23505"@ {
            ApiErrorView::Conflict("A repository with this name already exists"@)
        } else if c@ == "23503"@ {
            ApiErrorView::NotFound
        } else {
            ApiErrorView::Database(message@)
        },
        DbFailure::Database { code: None, message } => ApiErrorView::Database(message@),
        DbFailure::RowNotFound => ApiErrorView::NotFound,
        DbFailure::Other { message } => ApiErrorView::Database(message@),
    }
}

/// Turns a failure of the store into a failure of the API.
pub fn handle_db_error(failure: DbFailure) -> (e: Error)
    ensures
        e@ == db_verdict(failure),
{
    match failure {
        DbFailure::Database { code, message } => {
            match code {
                Some(c) => {
                    if same_text(c.as_str(), "23505") {
                        Error::Conflict(
                            String::from_str("A repository with this name already exists"),
                        )
                    } else if same_text(c.as_str(), "23503") {
                        Error::NotFound
                    } else {
                        Error::Database(message)
                    }
                },
                None => Error::Database(message),
            }
        },
        DbFailure::RowNotFound => Error::NotFound,
        DbFailure::Other { message } => Error::Database(message),
    }
}

} // verus!
