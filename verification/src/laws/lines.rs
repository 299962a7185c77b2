//! Texts and bytes: how they are compared and trimmed, which lines are read and sent, and when the
//! clipboard is cleared.

use crate::frame::{ClientRefusal, Exchange};
use crate::protocol::{CopyOrder, HelperRequest, Outcome};
use crate::state::HelperState;
use serde_json::Value;
use vstd::prelude::*;

verus! {

/// A space, a tab, a line end or another character that stands for empty space.
pub open spec fn is_space(c: char) -> bool {
    ||| 0x9 <= crate::laws::validation::point(c) < 0xe
    ||| crate::laws::validation::point(c) == 0x20
    ||| crate::laws::validation::point(c) == 0x85
    ||| crate::laws::validation::point(c) == 0xa0
    ||| crate::laws::validation::point(c) == 0x1680
    ||| 0x2000 <= crate::laws::validation::point(c) < 0x200b
    ||| crate::laws::validation::point(c) == 0x2028
    ||| crate::laws::validation::point(c) == 0x2029
    ||| crate::laws::validation::point(c) == 0x202f
    ||| crate::laws::validation::point(c) == 0x205f
    ||| crate::laws::validation::point(c) == 0x3000
}

/// Nothing but space.
pub open spec fn is_blank_text(text: Seq<char>) -> bool {
    forall|i: int| 0 <= i < text.len() ==> is_space(#[trigger] text[i])
}

/// `part` is `text` up to the space at its end.
pub open spec fn is_without_end_space(part: Seq<char>, text: Seq<char>) -> bool {
    &&& part.len() <= text.len()
    &&& part == text.take(part.len() as int)
    &&& is_blank_text(text.skip(part.len() as int))
    &&& part.len() > 0 ==> !is_space(part.last())
}

/// `part` is `text` from after the space at its start.
pub open spec fn is_without_start_space(part: Seq<char>, text: Seq<char>) -> bool {
    &&& part.len() <= text.len()
    &&& part == text.skip(text.len() - part.len())
    &&& is_blank_text(text.take(text.len() - part.len()))
    &&& part.len() > 0 ==> !is_space(part.first())
}

/// Trimming the end.
pub(crate) proof fn lemma_trimmed_end(text: Seq<char>)
    ensures
        is_without_end_space(crate::text::trimmed_end(text), text),
    decreases text.len(),
{
    let part = crate::text::trimmed_end(text);
    if text.len() > 0 && crate::text::is_white_space(text.last()) {
        let shorter = text.drop_last();
        lemma_trimmed_end(shorter);
        assert(text.take(part.len() as int) =~= shorter.take(part.len() as int));
        assert forall|i: int| 0 <= i < text.skip(part.len() as int).len() implies is_space(
            #[trigger] text.skip(part.len() as int)[i],
        ) by {
            if i < shorter.skip(part.len() as int).len() {
                assert(is_space(shorter.skip(part.len() as int)[i]));
            }
        }
    } else {
        assert(text.take(part.len() as int) =~= part);
    }
}

/// Trimming the start.
pub(crate) proof fn lemma_trimmed_start(text: Seq<char>)
    ensures
        is_without_start_space(crate::text::trimmed_start(text), text),
    decreases text.len(),
{
    let part = crate::text::trimmed_start(text);
    if text.len() > 0 && crate::text::is_white_space(text.first()) {
        let shorter = text.drop_first();
        lemma_trimmed_start(shorter);
        let gone = text.len() - part.len();
        assert(text.skip(gone) =~= shorter.skip(gone - 1));
        assert forall|i: int| 0 <= i < text.take(gone).len() implies is_space(
            #[trigger] text.take(gone)[i],
        ) by {
            if i > 0 {
                assert(is_space(shorter.take(gone - 1)[i - 1]));
            }
        }
    } else {
        assert(text.skip(0) =~= text);
    }
}

/// Two byte strings, and two texts, are equal exactly if they have the same length and the same
/// content everywhere.
pub proof fn law_equality_looks_everywhere(
    left: &[u8],
    right: &[u8],
    bytes_equal: bool,
    one: &str,
    other: &str,
    texts_equal: bool,
)
    requires
        call_ensures(crate::text::bytes_equal, (left, right), bytes_equal),
        call_ensures(crate::text::text_equal, (one, other), texts_equal),
    ensures
        bytes_equal <==> left@.len() == right@.len() && forall|i: int|
            0 <= i < left@.len() ==> left@[i] == right@[i],
        texts_equal <==> one@.len() == other@.len() && forall|i: int|
            0 <= i < one@.len() ==> one@[i] == other@[i],
{
    if left@.len() == right@.len() && forall|i: int| 0 <= i < left@.len() ==> left@[i] == right@[i] {
        assert(left@ =~= right@);
    }
    if one@.len() == other@.len() && forall|i: int| 0 <= i < one@.len() ==> one@[i] == other@[i] {
        assert(one@ =~= other@);
    }
}

/// Trimming takes away all the space at an end and nothing else.
pub proof fn law_trimming_takes_only_space(text: &str, from_end: &str, from_start: &str)
    requires
        call_ensures(crate::text::trim_end, (text,), from_end),
        call_ensures(crate::text::trim_start, (text,), from_start),
    ensures
        is_without_end_space(from_end@, text@),
        is_without_start_space(from_start@, text@),
{
    lemma_trimmed_end(text@);
    lemma_trimmed_start(text@);
}

/// Exactly the clients of the helper's own user are let in.
pub proof fn law_only_own_user_is_let_in(
    peer_uid: u32,
    own_uid: u32,
    verdict: Result<(), ClientRefusal>,
)
    requires
        call_ensures(crate::frame::check_peer, (peer_uid, own_uid), verdict),
    ensures
        verdict is Ok <==> peer_uid == own_uid,
        verdict is Err ==> verdict->Err_0 is PeerMismatch,
{
}

/// Exactly the lines of 1 to 16384 bytes are read, without the space at their end.
pub proof fn law_request_lines_are_bounded(line: &str, text: Result<&str, ClientRefusal>)
    requires
        call_ensures(crate::frame::request_text, (line,), text),
    ensures
        text is Ok <==> 1 <= vstd::utf8::encode_utf8(line@).len() < 0x4001,
        text is Ok ==> is_without_end_space(text->Ok_0@, line@),
        text is Err ==> text->Err_0 is RequestTooLarge,
{
    lemma_trimmed_end(line@);
}

/// What is said of each refusal.
pub proof fn law_refusals_have_messages(refusal: ClientRefusal, message: &'static str)
    requires
        call_ensures(ClientRefusal::message, (&refusal,), message),
    ensures
        refusal is PeerMismatch ==> message@ == "peer uid mismatch"@,
        refusal is RequestTooLarge ==> message@ == "request too large"@,
        refusal is InvalidJson ==> message@ == "invalid json"@,
        refusal is Unencodable ==> message@ == "response cannot be encoded"@,
{
}

/// What is sent for the JSON text of a response: the text and a line feed if they take at most a
/// mebibyte together, and otherwise a line that says that the response is too large.
pub open spec fn is_sent_for(line: Seq<u8>, text: Seq<u8>) -> bool {
    if text.len() < 0x10_0000 {
        line == text + seq![0x0au8]
    } else {
        line == vstd::utf8::encode_utf8(
            "{\"v\":1,\"id\":\"\",\"ok\":false,\"error\":\"response_too_large\"}\n"@,
        )
    }
}

/// A response is sent as its JSON text and a line feed, if that is not too long.
pub proof fn law_response_is_its_text(
    encoded: Vec<u8>,
    framed: Vec<u8>,
    response: Value,
    line: Result<Vec<u8>, ClientRefusal>,
)
    requires
        call_ensures(crate::frame::response_frame, (encoded,), framed),
        call_ensures(crate::frame::encode_response, (&response,), line),
    ensures
        is_sent_for(framed@, encoded@),
        line is Ok,
        is_sent_for(line->Ok_0@, crate::json::json_text(crate::json::json_tree(response))),
{
    let text = crate::json::json_text(crate::json::json_tree(response));
    assert(encoded@.push(10) =~= encoded@ + seq![0x0au8]);
    assert(text.push(10) =~= text + seq![0x0au8]);
}

/// A client is sent the response that the request comes to, or its code is copied, or its view is
/// opened, and the state changes as the request says.
pub proof fn law_client_gets_its_answer(
    serving: &mut HelperState,
    handling: &mut HelperState,
    served: HelperRequest,
    handled: HelperRequest,
    exchange: Result<Exchange, ClientRefusal>,
    outcome: Outcome,
)
    requires
        old(serving)@ == old(handling)@,
        served@ == handled@,
        call_ensures(crate::frame::serve_request, (serving, served), exchange),
        call_ensures(crate::protocol::handle_request, (handling, handled), outcome),
    ensures
        final(serving)@ == final(handling)@,
        exchange is Ok,
        match outcome {
            Outcome::Reply(value) => exchange->Ok_0 matches Exchange::Send(line) && is_sent_for(
                line@,
                crate::json::json_text(crate::json::json_tree(value)),
            ),
            Outcome::Copy(order) => exchange->Ok_0 matches Exchange::Copy(ordered) && ordered@
                == order@,
            Outcome::Open(value, view) => exchange->Ok_0 matches Exchange::Open(line, opened)
                && opened == view && is_sent_for(
                line@,
                crate::json::json_text(crate::json::json_tree(value)),
            ),
        },
{
    match outcome {
        Outcome::Reply(value) => {
            let text = crate::json::json_text(crate::json::json_tree(value));
            assert(text.push(10) =~= text + seq![0x0au8]);
        },
        Outcome::Copy(_) => {},
        Outcome::Open(value, _) => {
            let text = crate::json::json_text(crate::json::json_tree(value));
            assert(text.push(10) =~= text + seq![0x0au8]);
        },
    }
}

/// After a copy a client is sent the response that completing it gives, and the state changes in the
/// same way.
pub proof fn law_client_hears_of_copy(
    serving: &mut HelperState,
    completing: &mut HelperState,
    order: CopyOrder,
    copied: bool,
    served: Result<(Vec<u8>, Option<u64>), ClientRefusal>,
    completed: (Value, Option<u64>),
)
    requires
        old(serving)@ == old(completing)@,
        call_ensures(crate::frame::serve_copied, (serving, &order, copied), served),
        call_ensures(crate::protocol::complete_copy, (completing, &order, copied), completed),
    ensures
        final(serving)@ == final(completing)@,
        served is Ok,
        is_sent_for(
            (served->Ok_0).0@,
            crate::json::json_text(crate::json::json_tree(completed.0)),
        ),
        (served->Ok_0).1 == completed.1,
{
    let text = crate::json::json_text(crate::json::json_tree(completed.0));
    assert(text.push(10) =~= text + seq![0x0au8]);
}

/// What was read from the clipboard is its contents exactly if it is at most 64 bytes and the
/// reading went well.
pub proof fn law_clipboard_contents_are_bounded(
    read: Vec<u8>,
    succeeded: bool,
    contents: Option<Vec<u8>>,
)
    requires
        call_ensures(crate::clipboard::clipboard_contents, (read, succeeded), contents),
    ensures
        contents is Some <==> read@.len() < 65 && succeeded,
        contents is Some ==> contents->0@ == read@,
{
}

/// More than 64 bytes are too many.
pub proof fn law_clipboard_overflows_after_its_limit(read: &[u8], overflows: bool)
    requires
        call_ensures(crate::clipboard::clipboard_overflows, (read,), overflows),
    ensures
        overflows <==> read@.len() >= 65,
{
}

/// The clipboard is cleared exactly if it holds, byte for byte, the code that was copied, and no
/// code was copied since. Whatever else it holds, be it as long as the code, is left alone.
pub proof fn law_only_the_copied_code_is_cleared(
    state: HelperState,
    generation: u64,
    code: &[u8],
    contents: Option<Vec<u8>>,
    clear: bool,
    current: bool,
)
    requires
        call_ensures(crate::clipboard::should_clear, (&state, generation, code, &contents), clear),
        call_ensures(HelperState::is_current_clipboard_generation, (&state, generation), current),
    ensures
        clear <==> {
            &&& current
            &&& contents is Some
            &&& contents->0@.len() == code@.len()
            &&& forall|i: int| 0 <= i < code@.len() ==> contents->0@[i] == code@[i]
        },
        clear ==> state@.clipboard_generation == generation,
{
    if contents is Some && contents->0@.len() == code@.len() && forall|i: int|
        0 <= i < code@.len() ==> contents->0@[i] == code@[i] {
        assert(contents->0@ =~= code@);
    }
}

}
