//! Which source commit a build reports.

use vstd::prelude::*;

verus! {

/// A digit, or one of the first six letters.
pub open spec fn is_hex(c: char) -> bool {
    ||| 0x30 <= crate::laws::validation::point(c) < 0x3a
    ||| 0x61 <= crate::laws::validation::point(c) < 0x67
    ||| 0x41 <= crate::laws::validation::point(c) < 0x47
}

/// The name of a commit.
pub open spec fn is_commit_name(text: Seq<char>) -> bool {
    text.len() == 40 && forall|i: int| 0 <= i < 40 ==> is_hex(#[trigger] text[i])
}

/// `text` is `name` with nothing but space around it.
pub open spec fn pads(text: Seq<char>, name: Seq<char>) -> bool {
    exists|before: int|
        #![trigger text.take(before)]
        0 <= before && before + name.len() <= text.len() && crate::laws::lines::is_blank_text(text.take(before))
            && text.subrange(before, before + name.len()) == name && crate::laws::lines::is_blank_text(
            text.skip(before + name.len()),
        )
}

/// `text` has the name of a commit, with nothing but space around it.
pub open spec fn has_commit_name(text: Option<&str>) -> bool {
    text is Some && exists|name: Seq<char>| is_commit_name(name) && #[trigger] pads(text->0@, name)
}

/// `lower` is `text` with small letters in place of the capital ones.
pub open spec fn is_small(lower: Seq<char>, text: Seq<char>) -> bool {
    &&& lower.len() == text.len()
    &&& forall|i: int|
        0 <= i < text.len() ==> crate::laws::validation::point(#[trigger] lower[i]) == crate::laws::validation::point(text[i]) + if 0x41 <= crate::laws::validation::point(
            text[i],
        ) < 0x5b {
            0x20int
        } else {
            0int
        }
}

/// The name of a commit.
proof fn lemma_commit_name(text: Seq<char>)
    ensures
        crate::provenance::is_commit(text) <==> is_commit_name(text),
{
    if crate::provenance::is_commit(text) {
        assert forall|i: int| 0 <= i < 40 implies is_hex(#[trigger] text[i]) by {
            assert(crate::provenance::is_hex_digit(text[i]));
        }
    }
    if is_commit_name(text) {
        assert forall|i: int| 0 <= i < text.len() implies crate::provenance::is_hex_digit(
            #[trigger] text[i],
        ) by {
            assert(is_hex(text[i]));
        }
    }
}

/// Trimming leaves what there is between the space at both ends.
proof fn lemma_trimming_finds_name(text: Seq<char>, name: Seq<char>)
    requires
        is_commit_name(name),
        pads(text, name),
    ensures
        crate::provenance::trimmed(text) == name,
{
    let before = choose|before: int|
        #![trigger text.take(before)]
        0 <= before && before + name.len() <= text.len() && crate::laws::lines::is_blank_text(text.take(before))
            && text.subrange(before, before + name.len()) == name && crate::laws::lines::is_blank_text(
            text.skip(before + name.len()),
        );
    let end = before + 40;
    crate::laws::lines::lemma_trimmed_start(text);
    let rest = crate::text::trimmed_start(text);
    crate::laws::lines::lemma_trimmed_end(rest);
    let gone = text.len() - rest.len();
    assert(is_hex(name[0]) && is_hex(name[39]));
    assert(text[before] == name[0]);
    assert(text[end - 1] == name[39]);
    if gone > before {
        assert(crate::laws::lines::is_space(text.take(gone)[before]));
    }
    if gone < before {
        assert(rest.first() == text.take(before)[gone]);
    }
    let part = crate::text::trimmed_end(rest);
    if part.len() < 40 {
        assert(crate::laws::lines::is_space(rest.skip(part.len() as int)[39 - part.len()]));
        assert(rest[39] == text[end - 1]);
    }
    if part.len() > 40 {
        assert(part.last() == text[before + part.len() - 1]);
        assert(crate::laws::lines::is_space(text.skip(end)[part.len() - 41]));
    }
    assert(part =~= name) by {
        assert forall|i: int| 0 <= i < 40 implies part[i] == name[i] by {
            assert(part[i] == rest[i]);
            assert(rest[i] == text[before + i]);
            assert(name[i] == text.subrange(before, end)[i]);
        }
    }
}

/// What is left by trimming has nothing but space around it.
proof fn lemma_trimming_pads(text: Seq<char>)
    ensures
        pads(text, crate::provenance::trimmed(text)),
{
    crate::laws::lines::lemma_trimmed_start(text);
    let rest = crate::text::trimmed_start(text);
    crate::laws::lines::lemma_trimmed_end(rest);
    let part = crate::provenance::trimmed(text);
    let before = text.len() - rest.len();
    assert(text.subrange(before, before + part.len()) =~= part) by {
        assert(part =~= rest.take(part.len() as int));
    }
    assert(text.skip(before + part.len()) =~= rest.skip(part.len() as int));
    assert(crate::laws::lines::is_blank_text(text.take(before)));
}

/// A text that has the name of a commit, seen by trimming it.
proof fn lemma_has_commit_name(text: Option<&str>)
    ensures
        has_commit_name(text) <==> text is Some && crate::provenance::is_commit(
            crate::provenance::trimmed(text->0@),
        ),
{
    if text is Some {
        lemma_commit_name(crate::provenance::trimmed(text->0@));
        lemma_trimming_pads(text->0@);
        if has_commit_name(text) {
            let name = choose|name: Seq<char>|
                is_commit_name(name) && #[trigger] pads(text->0@, name);
            lemma_trimming_finds_name(text->0@, name);
        }
    }
}

/// The name of a commit is forty hexadecimal digits.
pub proof fn law_commit_names_are_forty_digits(text: &str, valid: bool)
    requires
        call_ensures(crate::provenance::valid_commit, (text,), valid),
    ensures
        valid <==> is_commit_name(text@),
{
    lemma_commit_name(text@);
}

/// A commit that the packager names is reported in small letters, whatever the checkout says.
pub proof fn law_packagers_commit_is_reported(
    given: Option<&str>,
    head: Option<&str>,
    dirty: bool,
    commit: String,
    name: Seq<char>,
)
    requires
        call_ensures(crate::provenance::helper_source_commit, (given, head, dirty), commit),
        given is Some,
        is_commit_name(name),
        pads(given->0@, name),
    ensures
        is_small(commit@, name),
{
    lemma_commit_name(name);
    lemma_trimming_finds_name(given->0@, name);
    assert(commit@ == crate::provenance::ascii_lowercase(name));
    assert forall|i: int| 0 <= i < name.len() implies crate::laws::validation::point(#[trigger] commit@[i]) == crate::laws::validation::point(name[i])
        + if 0x41 <= crate::laws::validation::point(name[i]) < 0x5b {
        0x20int
    } else {
        0int
    } by {
        assert(commit@[i] == crate::provenance::ascii_lower(name[i]));
    }
}

/// Where the packager names no commit, the head of the checkout is reported, and whether it was
/// changed.
pub proof fn law_head_of_checkout_is_reported(
    given: Option<&str>,
    head: Option<&str>,
    dirty: bool,
    commit: String,
    name: Seq<char>,
)
    requires
        call_ensures(crate::provenance::helper_source_commit, (given, head, dirty), commit),
        !has_commit_name(given),
        head is Some,
        is_commit_name(name),
        pads(head->0@, name),
    ensures
        !dirty ==> commit@ == name,
        dirty ==> commit@ == name + "-dirty"@,
{
    lemma_has_commit_name(given);
    lemma_commit_name(name);
    lemma_trimming_finds_name(head->0@, name);
}

/// Where neither names a commit, it is unknown.
pub proof fn law_commit_is_unknown_otherwise(
    given: Option<&str>,
    head: Option<&str>,
    dirty: bool,
    commit: String,
)
    requires
        call_ensures(crate::provenance::helper_source_commit, (given, head, dirty), commit),
        !has_commit_name(given),
        !has_commit_name(head),
    ensures
        commit@ == "unknown"@,
{
    lemma_has_commit_name(given);
    lemma_has_commit_name(head);
}

}
