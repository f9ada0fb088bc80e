//! Which repository names are safe to put under the base directory.

use vstd::prelude::*;

verus! {

/// A path separator of any of the supported platforms.
pub open spec fn is_separator(c: char) -> bool {
    c == '/' || c == '\\'
}

/// An ASCII letter, as in a drive prefix.
pub open spec fn is_letter(c: char) -> bool {
    ('a' <= c && c <= 'z') || ('A' <= c && c <= 'Z')
}

/// Whether the name holds a path separator anywhere.
pub open spec fn has_separator(name: Seq<char>) -> bool {
    exists|i: int| 0 <= i < name.len() && is_separator(#[trigger] name[i])
}

/// Whether the name holds two dots in a row anywhere.
pub open spec fn has_parent_traversal(name: Seq<char>) -> bool {
    exists|i: int| 0 <= i < name.len() - 1 && #[trigger] name[i] == '.' && name[i + 1] == '.'
}

/// Whether the name starts like an absolute path: with a separator, or
/// with a drive letter and a colon.
pub open spec fn has_absolute_prefix(name: Seq<char>) -> bool {
    ||| (name.len() >= 1 && is_separator(name[0]))
    ||| (name.len() >= 2 && is_letter(name[0]) && name[1] == ':')
}

/// A name is valid when it cannot leave the base directory: it holds no
/// separator, no parent traversal and no absolute prefix.
pub open spec fn valid_name(name: Seq<char>) -> bool {
    &&& !has_separator(name)
    &&& !has_parent_traversal(name)
    &&& !has_absolute_prefix(name)
}

fn separator(c: char) -> (r: bool)
    ensures
        r == is_separator(c),
{
    c == '/' || c == '\\'
}

fn letter(c: char) -> (r: bool)
    ensures
        r == is_letter(c),
{
    ('a' <= c && c <= 'z') || ('A' <= c && c <= 'Z')
}

/// Decides whether a repository name is valid.
pub fn is_valid_name(name: &str) -> (ok: bool)
    ensures
        ok == valid_name(name@),
{
    let mut sep = false;
    let mut dots = false;
    let mut drive = false;
    let mut prev_dot = false;
    let mut first_letter = false;
    let mut seen: u8 = 0;
    for c in iter: name.chars()
        invariant
            iter.seq() == name@,
            seen == if iter.index() < 2 { iter.index() } else { 2 },
            sep == (exists|j: int| 0 <= j < iter.index() && is_separator(#[trigger] name@[j])),
            dots == (exists|j: int|
                0 <= j < iter.index() - 1 && #[trigger] name@[j] == '.' && name@[j + 1] == '.'),
            prev_dot == (iter.index() >= 1 && name@[iter.index() - 1] == '.'),
            first_letter == (iter.index() >= 1 && is_letter(name@[0])),
            drive == (iter.index() >= 2 && is_letter(name@[0]) && name@[1] == ':'),
    {
        let ghost k = iter.index();
        if separator(c) {
            sep = true;
        }
        if prev_dot && c == '.' {
            assert(name@[k - 1] == '.' && name@[k - 1 + 1] == '.');
            dots = true;
        }
        if seen == 0 {
            first_letter = letter(c);
        }
        if seen == 1 && first_letter && c == ':' {
            drive = true;
        }
        prev_dot = c == '.';
        if seen < 2 {
            seen += 1;
        }
    }
    proof {
        if sep {
            let j = choose|j: int| 0 <= j < name@.len() && is_separator(#[trigger] name@[j]);
            assert(is_separator(name@[j]));
        }
    }
    !sep && !dots && !drive
}

/// A name with a slash in it is never valid.
pub proof fn lemma_slash_is_rejected(name: Seq<char>)
    requires
        name.contains('/'),
    ensures
        !valid_name(name),
{
    let i = choose|i: int| 0 <= i < name.len() && name[i] == '/';
    assert(is_separator(name[i]));
}

/// A name with two dots in a row is never valid.
pub proof fn lemma_dots_are_rejected(name: Seq<char>, i: int)
    requires
        0 <= i < name.len() - 1,
        name[i] == '.',
        name[i + 1] == '.',
    ensures
        !valid_name(name),
{
}

} // verus!
