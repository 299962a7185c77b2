//! Which texts, codes, entries and snapshots are accepted, told by what the functions that judge
//! them answer.

use crate::snapshot::{HelperEntry, HelperSnapshot};
use vstd::prelude::*;

verus! {

/// The number of a character.
pub open spec fn point(c: char) -> int {
    c as int
}

/// A character that a reader sees, or a space that stays where it is: neither a control character
/// nor one that hides or turns round what is near it.
pub open spec fn is_visible(c: char) -> bool {
    &&& point(c) >= 0x20
    &&& !(0x7f <= point(c) < 0xa0)
    &&& point(c) != 0x61c
    &&& !(0x200b <= point(c) < 0x2010)
    &&& !(0x202a <= point(c) < 0x202f)
    &&& point(c) != 0x2060
    &&& !(0x2066 <= point(c) < 0x206a)
    &&& point(c) != 0xfeff
}

/// A text of visible characters, the empty one too, that takes at most `most` bytes.
pub open spec fn is_label(text: Seq<char>, most: int) -> bool {
    &&& vstd::utf8::encode_utf8(text).len() <= most
    &&& forall|i: int| 0 <= i < text.len() ==> is_visible(#[trigger] text[i])
}

/// A letter, a digit, or one of the four marks.
pub open spec fn is_word_char(c: char) -> bool {
    ||| 0x61 <= point(c) < 0x7b
    ||| 0x41 <= point(c) < 0x5b
    ||| 0x30 <= point(c) < 0x3a
    ||| point(c) == 0x2e
    ||| point(c) == 0x5f
    ||| point(c) == 0x3a
    ||| point(c) == 0x2d
}

/// A text that can name something: 1 to 128 letters, digits and marks.
pub open spec fn is_word(text: Seq<char>) -> bool {
    &&& 1 <= text.len() < 129
    &&& forall|i: int| 0 <= i < text.len() ==> is_word_char(#[trigger] text[i])
}

/// A code that an authenticator shows: for Steam five characters of its alphabet, which leaves out
/// those that are easily mistaken, and otherwise six to ten digits.
pub open spec fn is_shown_code(code: Seq<char>, steam: bool) -> bool {
    if steam {
        &&& code.len() == 5
        &&& forall|i: int|
            0 <= i < 5 ==> "23456789BCDFGHJKMNPQRTVWXY"@.contains(#[trigger] code[i])
    } else {
        &&& 5 < code.len() < 11
        &&& forall|i: int| 0 <= i < code.len() ==> "0123456789"@.contains(#[trigger] code[i])
    }
}

/// An entry each field of which is in order.
pub open spec fn is_sound(entry: HelperEntry) -> bool {
    let steam = entry.entry_type@ == "Steam"@;
    &&& is_word(entry.id@)
    &&& is_label(entry.name@, 80)
    &&& is_label(entry.issuer@, 80)
    &&& steam || entry.entry_type@ == "Totp"@
    &&& is_shown_code(entry.code@, steam)
    &&& is_shown_code(entry.next_code@, steam)
    &&& 15 <= entry.period < 121
}

/// One of the five states.
pub open spec fn is_known_state(state: Seq<char>) -> bool {
    seq!["ready"@, "locked"@, "needs_login"@, "unavailable"@, "error"@].contains(state)
}

/// Steam's alphabet.
proof fn lemma_steam_alphabet(c: char)
    ensures
        crate::snapshot::is_steam_char(c) <==> "23456789BCDFGHJKMNPQRTVWXY"@.contains(c),
{
    reveal_strlit("23456789BCDFGHJKMNPQRTVWXY");
    let all = "23456789BCDFGHJKMNPQRTVWXY"@;
    assert(all.len() == 26);
    assert(all[0] == '2' && all[1] == '3' && all[2] == '4' && all[3] == '5' && all[4] == '6');
    assert(all[5] == '7' && all[6] == '8' && all[7] == '9' && all[8] == 'B' && all[9] == 'C');
    assert(all[10] == 'D' && all[11] == 'F' && all[12] == 'G' && all[13] == 'H' && all[14] == 'J');
    assert(all[15] == 'K' && all[16] == 'M' && all[17] == 'N' && all[18] == 'P' && all[19] == 'Q');
    assert(all[20] == 'R' && all[21] == 'T' && all[22] == 'V' && all[23] == 'W' && all[24] == 'X');
    assert(all[25] == 'Y');
    if all.contains(c) {
        let i = choose|i: int| 0 <= i < all.len() && all[i] == c;
        assert(crate::snapshot::is_steam_char(all[i]));
    }
}

/// The ten digits.
proof fn lemma_digits(c: char)
    ensures
        crate::text::is_digit(c) <==> "0123456789"@.contains(c),
{
    reveal_strlit("0123456789");
    let all = "0123456789"@;
    assert(all.len() == 10);
    assert(all[0] == '0' && all[1] == '1' && all[2] == '2' && all[3] == '3' && all[4] == '4');
    assert(all[5] == '5' && all[6] == '6' && all[7] == '7' && all[8] == '8' && all[9] == '9');
    if all.contains(c) {
        let i = choose|i: int| 0 <= i < all.len() && all[i] == c;
        assert(crate::text::is_digit(all[i]));
    }
}

/// What a code of an entry is.
proof fn lemma_codes(code: Seq<char>, entry_type: Seq<char>)
    ensures
        crate::snapshot::is_code(code, entry_type) <==> is_shown_code(
            code,
            entry_type == "Steam"@,
        ),
{
    assert forall|c: char| #![auto]
        crate::snapshot::is_steam_char(c) <==> "23456789BCDFGHJKMNPQRTVWXY"@.contains(c) by {
        lemma_steam_alphabet(c);
    }
    assert forall|c: char| #![auto]
        crate::text::is_digit(c) <==> "0123456789"@.contains(c) by {
        lemma_digits(c);
    }
    if crate::snapshot::is_code(code, entry_type) {
        assert(is_shown_code(code, entry_type == "Steam"@));
    }
    if is_shown_code(code, entry_type == "Steam"@) {
        assert(crate::snapshot::is_code(code, entry_type));
    }
}

/// What a label is.
proof fn lemma_labels(text: Seq<char>, most: nat)
    ensures
        crate::text::is_bounded_text(text, most) <==> is_label(text, most as int),
{
    if crate::text::is_bounded_text(text, most) {
        assert(is_label(text, most as int));
    }
    if is_label(text, most as int) {
        assert forall|i: int| 0 <= i < text.len() implies !crate::text::is_control_char(
            #[trigger] text[i],
        ) && !crate::text::is_hidden_format_char(text[i]) by {
            assert(is_visible(text[i]));
        }
    }
}

/// What an identifier is.
pub(crate) proof fn lemma_words(text: Seq<char>)
    ensures
        crate::text::is_id(text) <==> is_word(text),
{
    if crate::text::is_id(text) {
        assert forall|i: int| 0 <= i < text.len() implies is_word_char(#[trigger] text[i]) by {
            assert(crate::text::is_id_char(text[i]));
        }
    }
    if is_word(text) {
        assert forall|i: int| 0 <= i < text.len() implies crate::text::is_id_char(
            #[trigger] text[i],
        ) by {
            assert(is_word_char(text[i]));
        }
    }
}

/// What an entry in order is.
proof fn lemma_entries(entry: HelperEntry)
    ensures
        entry@.valid() <==> is_sound(entry),
{
    lemma_words(entry.id@);
    lemma_labels(entry.name@, 80);
    lemma_labels(entry.issuer@, 80);
    lemma_codes(entry.code@, entry.entry_type@);
    lemma_codes(entry.next_code@, entry.entry_type@);
}

/// What a state is.
proof fn lemma_states(state: Seq<char>)
    ensures
        crate::snapshot::is_state(state) <==> is_known_state(state),
{
    let all = seq!["ready"@, "locked"@, "needs_login"@, "unavailable"@, "error"@];
    assert(all[0] == "ready"@ && all[1] == "locked"@ && all[2] == "needs_login"@);
    assert(all[3] == "unavailable"@ && all[4] == "error"@);
}

/// A text is bounded exactly if it is short enough and every character of it can be seen; the empty
/// text is.
pub proof fn law_bounded_text_is_a_label(value: &str, max: usize, bounded: bool)
    requires
        call_ensures(crate::text::bounded_text, (value, max), bounded),
    ensures
        bounded <==> is_label(value@, max as int),
        value@.len() == 0 ==> bounded,
{
    lemma_labels(value@, max as nat);
    if value@.len() == 0 {
        assert(value@ =~= Seq::empty());
        vstd::utf8::is_ascii_chars_encode_utf8(value@);
    }
}

/// An identifier is exactly a word of 1 to 128 letters, digits and marks.
pub proof fn law_identifier_is_a_word(value: &str, valid: bool)
    requires
        call_ensures(crate::text::valid_id, (value,), valid),
    ensures
        valid <==> is_word(value@),
{
    lemma_words(value@);
}

/// A code is judged by its length and its alphabet, which differ for Steam and everything else.
pub proof fn law_code_has_its_alphabet(code: &str, entry_type: &str, valid: bool)
    requires
        call_ensures(crate::snapshot::valid_code, (code, entry_type), valid),
    ensures
        valid <==> is_shown_code(code@, entry_type@ == "Steam"@),
{
    lemma_codes(code@, entry_type@);
}

/// A snapshot is accepted exactly if its state is known, its account is a label of at most 120
/// bytes, it has at most 200 entries, none if it is locked, and each of them is sound. In particular
/// an entry may lack a name and an issuer.
pub proof fn law_sound_snapshots_are_accepted(
    snapshot: HelperSnapshot,
    verdict: Result<(), String>,
)
    requires
        call_ensures(crate::snapshot::validate_snapshot, (&snapshot,), verdict),
    ensures
        verdict is Ok <==> {
            &&& is_known_state(snapshot.state@)
            &&& is_label(snapshot.account@, 120)
            &&& snapshot.entries@.len() < 201
            &&& snapshot.locked ==> snapshot.entries@.len() == 0
            &&& forall|i: int|
                0 <= i < snapshot.entries@.len() ==> is_sound(#[trigger] snapshot.entries@[i])
        },
{
    lemma_states(snapshot.state@);
    lemma_labels(snapshot.account@, 120);
    assert forall|i: int| 0 <= i < snapshot.entries@.len() implies (snapshot@.entries[i].valid()
        <==> is_sound(#[trigger] snapshot.entries@[i])) by {
        lemma_entries(snapshot.entries@[i]);
    }
    if verdict is Ok {
        assert forall|i: int| 0 <= i < snapshot.entries@.len() implies is_sound(
            #[trigger] snapshot.entries@[i],
        ) by {
            assert(snapshot@.entries[i].valid());
        }
    }
    if forall|i: int|
        0 <= i < snapshot.entries@.len() ==> is_sound(#[trigger] snapshot.entries@[i]) {
        assert forall|i: int| 0 <= i < snapshot@.entries.len() implies (
        #[trigger] snapshot@.entries[i]).valid() by {
            assert(is_sound(snapshot.entries@[i]));
        }
    }
}

/// Why a snapshot is refused: the state comes first, then the size of what it holds, then the lock,
/// and the entries come last.
pub proof fn law_refusal_names_first_fault(snapshot: HelperSnapshot, verdict: Result<(), String>)
    requires
        call_ensures(crate::snapshot::validate_snapshot, (&snapshot,), verdict),
        verdict is Err,
    ensures
        ({
            let crowded = !is_label(snapshot.account@, 120) || snapshot.entries@.len() > 200;
            let exposed = snapshot.locked && snapshot.entries@.len() > 0;
            let reason = verdict->Err_0@;
            &&& !is_known_state(snapshot.state@) ==> reason == "invalid_state"@
            &&& is_known_state(snapshot.state@) && crowded ==> reason == "snapshot_bounds"@
            &&& is_known_state(snapshot.state@) && !crowded && exposed ==> reason
                == "locked_snapshot_has_entries"@
            &&& is_known_state(snapshot.state@) && !crowded && !exposed ==> reason
                == "invalid_entry"@
        }),
{
    lemma_states(snapshot.state@);
    lemma_labels(snapshot.account@, 120);
}

/// Publishing refuses what validation refuses, for the same reason, and accepts all else, whatever
/// the state of the helper.
pub proof fn law_publishing_answers_as_validating(
    state: &mut crate::state::HelperState,
    snapshot: HelperSnapshot,
    published: Result<(), String>,
    validated: Result<(), String>,
)
    requires
        call_ensures(crate::snapshot::validate_snapshot, (&snapshot,), validated),
        call_ensures(crate::state::HelperState::publish, (state, snapshot), published),
    ensures
        published is Ok <==> validated is Ok,
        published is Err ==> published->Err_0@ == validated->Err_0@,
{
}

}
