//! Which source commit a build of the helper reports to come from.

use crate::text::{trim_end, trim_start};
use vstd::prelude::*;
use vstd::string::*;

verus! {

/// The length of a commit's name.
pub const COMMIT_CHARS: usize = 40;

/// A hexadecimal digit.
pub open spec fn is_hex_digit(c: char) -> bool {
    '0' <= c <= '9' || 'a' <= c <= 'f' || 'A' <= c <= 'F'
}

/// The full name of a commit: forty hexadecimal digits.
pub open spec fn is_commit(text: Seq<char>) -> bool {
    &&& text.len() == COMMIT_CHARS
    &&& forall|i: int| 0 <= i < text.len() ==> is_hex_digit(#[trigger] text[i])
}

/// The character in lower case, if it is an ASCII letter.
pub open spec fn ascii_lower(c: char) -> char {
    if 'A' <= c <= 'Z' {
        ((c as u32 + 32) as u32) as char
    } else {
        c
    }
}

/// The text with its ASCII letters in lower case.
pub open spec fn ascii_lowercase(text: Seq<char>) -> Seq<char> {
    text.map_values(|c: char| ascii_lower(c))
}

/// `str::to_ascii_lowercase`: a copy of the text in which the letters A to Z are replaced by a to z
/// and every other character is kept.
pub assume_specification[ str::to_ascii_lowercase ](text: &str) -> (lower: String)
    ensures
        lower@ == ascii_lowercase(text@),
;

/// The text without the white space around it.
pub open spec fn trimmed(text: Seq<char>) -> Seq<char> {
    crate::text::trimmed_end(crate::text::trimmed_start(text))
}

/// The commit that a build reports. The packager may give it; otherwise it is the head of the
/// checkout, marked if that was changed; and without either it is unknown.
pub open spec fn reported_commit(
    given: Option<Seq<char>>,
    head: Option<Seq<char>>,
    dirty: bool,
) -> Seq<char> {
    if given is Some && is_commit(trimmed(given->0)) {
        ascii_lowercase(trimmed(given->0))
    } else if head is Some && is_commit(trimmed(head->0)) {
        if dirty {
            trimmed(head->0) + "-dirty"@
        } else {
            trimmed(head->0)
        }
    } else {
        "unknown"@
    }
}

/// An optional text.
pub open spec fn optional_text(text: Option<&str>) -> Option<Seq<char>> {
    match text {
        Some(text) => Some(text@),
        None => None,
    }
}

/// Tells whether `text` is the full name of a commit.
pub fn valid_commit(text: &str) -> (valid: bool)
    ensures
        valid == is_commit(text@),
{
    if text.unicode_len() != COMMIT_CHARS {
        return false;
    }
    for c in it: text.chars()
        invariant
            it.seq() == text@,
            forall|i: int| 0 <= i < it.index() ==> is_hex_digit(#[trigger] text@[i]),
    {
        let digit = ('0' <= c && c <= '9') || ('a' <= c && c <= 'f') || ('A' <= c && c <= 'F');
        if !digit {
            assert(!is_hex_digit(text@[it.index()]));
            return false;
        }
    }
    true
}

/// The commit to report, from what the packager gives, the head of the checkout, and whether the
/// checkout was changed.
pub fn helper_source_commit(given: Option<&str>, head: Option<&str>, dirty: bool) -> (commit: String)
    ensures
        commit@ == reported_commit(optional_text(given), optional_text(head), dirty),
{
    if let Some(value) = given {
        let value = trim_end(trim_start(value));
        if valid_commit(value) {
            return value.to_ascii_lowercase();
        }
    }
    if let Some(value) = head {
        let value = trim_end(trim_start(value));
        if valid_commit(value) {
            if dirty {
                return value.to_string().concat("-dirty");
            }
            return value.to_string();
        }
    }
    "unknown".to_string()
}

}
