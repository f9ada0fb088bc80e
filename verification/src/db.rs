//! What the metadata store needs to know about its database.

use vstd::prelude::*;
use vstd::string::*;
use crate::text::{decimal, decimal_digits, starts_with};

verus! {

/// The kinds of database that the store can talk to.
#[derive(Clone, Copy, Debug, PartialEq, Eq, Structural)]
pub enum DbType {
    SQLite,
}

/// The kind of database behind a URL, if the store can talk to it.
pub open spec fn db_type_of(url: Seq<char>) -> Option<DbType> {
    if "sqlite"@.is_prefix_of(url) {
        Some(DbType::SQLite)
    } else {
        None
    }
}

impl DbType {
    /// Reads the kind of database off the scheme of its URL.
    pub fn from_url(database_url: &str) -> (r: Option<DbType>)
        ensures
            r == db_type_of(database_url@),
    {
        if starts_with(database_url, "sqlite") {
            Some(DbType::SQLite)
        } else {
            None
        }
    }

    /// The placeholder of the parameter with the given number: a dollar
    /// sign and the number.
    pub open spec fn spec_placeholder(self, index: nat) -> Seq<char> {
        "$"@ + decimal_digits(index)
    }

    /// The expression that reads the clock.
    pub open spec fn spec_datetime_now(self) -> Seq<char> {
        "DATETIME('now')"@
    }

    /// The comparison that matches a pattern with regard to case.
    pub open spec fn spec_like_escape(self, pattern: Seq<char>) -> Seq<char> {
        "LIKE '"@ + pattern + "' COLLATE BINARY"@
    }

    pub fn placeholder(&self, index: usize) -> (r: String)
        ensures
            r@ == self.spec_placeholder(index as nat),
    {
        let digits = decimal(index);
        String::from_str("$").concat(digits.as_str())
    }

    pub fn datetime_now(&self) -> (r: &'static str)
        ensures
            r@ == self.spec_datetime_now(),
    {
        "DATETIME('now')"
    }

    pub fn like_escape(&self, pattern: &str) -> (r: String)
        ensures
            r@ == self.spec_like_escape(pattern@),
    {
        String::from_str("LIKE '").concat(pattern).concat("' COLLATE BINARY")
    }
}

} // verus!
