//! Character classes and string checks shared by the helper's validation rules.

use vstd::prelude::*;

verus! {

/// A control character: Unicode general category `Cc`.
pub open spec fn is_control_char(c: char) -> bool {
    c <= '\u{1f}' || '\u{7f}' <= c <= '\u{9f}'
}

/// A character that is invisible or reorders the text around it: the Arabic letter mark, the
/// zero-width and directional marks, the directional embeddings, overrides and isolates, the word
/// joiner and the byte order mark.
pub open spec fn is_hidden_format_char(c: char) -> bool {
    ||| c == '\u{61c}'
    ||| '\u{200b}' <= c <= '\u{200f}'
    ||| '\u{202a}' <= c <= '\u{202e}'
    ||| c == '\u{2060}'
    ||| '\u{2066}' <= c <= '\u{2069}'
    ||| c == '\u{feff}'
}

/// A character that an identifier may hold.
pub open spec fn is_id_char(c: char) -> bool {
    ||| 'a' <= c <= 'z'
    ||| 'A' <= c <= 'Z'
    ||| '0' <= c <= '9'
    ||| c == '.'
    ||| c == '_'
    ||| c == ':'
    ||| c == '-'
}

/// A character with the Unicode property `White_Space`.
pub open spec fn is_white_space(c: char) -> bool {
    ||| '\u{9}' <= c <= '\u{d}'
    ||| c == ' '
    ||| c == '\u{85}'
    ||| c == '\u{a0}'
    ||| c == '\u{1680}'
    ||| '\u{2000}' <= c <= '\u{200a}'
    ||| c == '\u{2028}'
    ||| c == '\u{2029}'
    ||| c == '\u{202f}'
    ||| c == '\u{205f}'
    ||| c == '\u{3000}'
}

/// A decimal digit.
pub open spec fn is_digit(c: char) -> bool {
    '0' <= c <= '9'
}

/// Text that takes at most `max` bytes in UTF-8 and holds no control character and no hidden
/// formatting character.
pub open spec fn is_bounded_text(value: Seq<char>, max: nat) -> bool {
    &&& vstd::utf8::encode_utf8(value).len() <= max
    &&& forall|i: int|
        0 <= i < value.len() ==> !is_control_char(#[trigger] value[i]) && !is_hidden_format_char(
            value[i],
        )
}

/// The longest identifier, in characters.
pub const MAX_ID_CHARS: usize = 128;

/// An identifier: between 1 and `MAX_ID_CHARS` identifier characters.
pub open spec fn is_id(value: Seq<char>) -> bool {
    &&& 0 < value.len() <= MAX_ID_CHARS
    &&& forall|i: int| 0 <= i < value.len() ==> is_id_char(#[trigger] value[i])
}

/// Tells whether `value` takes at most `max` bytes and holds nothing that a label could hide
/// behind.
pub fn bounded_text(value: &str, max: usize) -> (bounded: bool)
    ensures
        bounded == is_bounded_text(value@, max as nat),
{
    if value.as_bytes().len() > max {
        return false;
    }
    for character in it: value.chars()
        invariant
            it.seq() == value@,
            forall|i: int|
                0 <= i < it.index() ==> !is_control_char(#[trigger] value@[i])
                    && !is_hidden_format_char(value@[i]),
    {
        let control = character <= '\u{1f}' || ('\u{7f}' <= character && character <= '\u{9f}');
        let hidden = character == '\u{61c}' || ('\u{200b}' <= character && character <= '\u{200f}')
            || ('\u{202a}' <= character && character <= '\u{202e}') || character == '\u{2060}' || (
        '\u{2066}' <= character && character <= '\u{2069}') || character == '\u{feff}';
        if control || hidden {
            assert(is_control_char(value@[it.index()]) || is_hidden_format_char(value@[it.index()]));
            return false;
        }
    }
    true
}

/// An identifier takes one byte for each of its characters.
proof fn lemma_id_byte_length(value: Seq<char>)
    requires
        forall|i: int| 0 <= i < value.len() ==> is_id_char(#[trigger] value[i]),
    ensures
        vstd::utf8::encode_utf8(value).len() == value.len(),
{
    assert(vstd::utf8::is_ascii_chars(value));
    vstd::utf8::is_ascii_chars_encode_utf8(value);
}

/// Tells whether `value` is an identifier.
pub fn valid_id(value: &str) -> (valid: bool)
    ensures
        valid == is_id(value@),
{
    if value.is_empty() {
        return false;
    }
    if value.as_bytes().len() > MAX_ID_CHARS {
        proof {
            if is_id(value@) {
                lemma_id_byte_length(value@);
            }
        }
        return false;
    }
    for character in it: value.chars()
        invariant
            it.seq() == value@,
            forall|i: int| 0 <= i < it.index() ==> is_id_char(#[trigger] value@[i]),
    {
        let letter = ('a' <= character && character <= 'z') || ('A' <= character && character
            <= 'Z');
        let digit = '0' <= character && character <= '9';
        let mark = character == '.' || character == '_' || character == ':' || character == '-';
        if !letter && !digit && !mark {
            assert(!is_id_char(value@[it.index()]));
            return false;
        }
    }
    proof {
        lemma_id_byte_length(value@);
    }
    true
}

/// Two texts with the same UTF-8 bytes are the same text.
proof fn lemma_bytes_determine_text(left: Seq<char>, right: Seq<char>)
    ensures
        vstd::utf8::encode_utf8(left) == vstd::utf8::encode_utf8(right) <==> left == right,
{
    vstd::utf8::encode_utf8_decode_utf8(left);
    vstd::utf8::encode_utf8_decode_utf8(right);
}

/// The bytes of an optional vector.
pub open spec fn optional_bytes(bytes: Option<Vec<u8>>) -> Option<Seq<u8>> {
    match bytes {
        None => None,
        Some(bytes) => Some(bytes@),
    }
}

/// A text takes at least one byte for each of its characters.
pub(crate) proof fn lemma_bytes_count_characters(text: Seq<char>)
    ensures
        text.len() <= vstd::utf8::encode_utf8(text).len(),
    decreases text.len(),
{
    if text.len() > 0 {
        vstd::utf8::char_is_scalar(text[0]);
        lemma_bytes_count_characters(text.drop_first());
    }
}

/// Tells whether two byte strings are equal.
pub fn bytes_equal(left: &[u8], right: &[u8]) -> (equal: bool)
    ensures
        equal == (left@ == right@),
{
    if left.len() != right.len() {
        return false;
    }
    for i in 0..left.len()
        invariant
            left.len() == right.len(),
            forall|j: int| 0 <= j < i ==> left@[j] == right@[j],
    {
        if left[i] != right[i] {
            return false;
        }
    }
    assert(left@ =~= right@);
    true
}

/// Tells whether two texts are equal.
pub fn text_equal(left: &str, right: &str) -> (equal: bool)
    ensures
        equal == (left@ == right@),
{
    proof {
        lemma_bytes_determine_text(left@, right@);
    }
    bytes_equal(left.as_bytes(), right.as_bytes())
}

/// The text without the white space at its end.
pub open spec fn trimmed_end(text: Seq<char>) -> Seq<char>
    decreases text.len(),
{
    if text.len() > 0 && is_white_space(text.last()) {
        trimmed_end(text.drop_last())
    } else {
        text
    }
}

/// The text without the white space at its start.
pub open spec fn trimmed_start(text: Seq<char>) -> Seq<char>
    decreases text.len(),
{
    if text.len() > 0 && is_white_space(text.first()) {
        trimmed_start(text.drop_first())
    } else {
        text
    }
}

/// Tells whether `c` is white space.
fn white_space(c: char) -> (white: bool)
    ensures
        white == is_white_space(c),
{
    ('\u{9}' <= c && c <= '\u{d}') || c == ' ' || c == '\u{85}' || c == '\u{a0}' || c == '\u{1680}'
        || ('\u{2000}' <= c && c <= '\u{200a}') || c == '\u{2028}' || c == '\u{2029}' || c
        == '\u{202f}' || c == '\u{205f}' || c == '\u{3000}'
}

/// The part of `text` before the white space at its end.
pub fn trim_end(text: &str) -> (trimmed: &str)
    ensures
        trimmed@ == trimmed_end(text@),
{
    let mut kept: usize = 0;
    let mut seen: usize = 0;
    let length = text.unicode_len();
    for character in it: text.chars()
        invariant
            it.seq() == text@,
            length == text@.len(),
            seen == it.index(),
            kept <= seen,
            trimmed_end(text@.take(it.index())) == text@.take(kept as int),
    {
        proof {
            let longer = text@.take(it.index() + 1);
            assert(longer.drop_last() =~= text@.take(it.index()));
            assert(longer.last() == character);
        }
        seen = seen + 1;
        if !white_space(character) {
            kept = seen;
        }
    }
    assert(text@.take(text@.len() as int) =~= text@);
    text.substring_char(0, kept)
}

/// The part of `text` after the white space at its start.
pub fn trim_start(text: &str) -> (trimmed: &str)
    ensures
        trimmed@ == trimmed_start(text@),
{
    let mut skipped: usize = 0;
    let length = text.unicode_len();
    assert(text@.skip(0) =~= text@);
    for character in it: text.chars()
        invariant
            it.seq() == text@,
            length == text@.len(),
            skipped == it.index(),
            trimmed_start(text@) == trimmed_start(text@.skip(skipped as int)),
    {
        if !white_space(character) {
            assert(text@.skip(skipped as int).first() == character);
            return text.substring_char(skipped, length);
        }
        assert(text@.skip(skipped as int).drop_first() =~= text@.skip(skipped + 1));
        skipped = skipped + 1;
    }
    text.substring_char(length, length)
}

}
