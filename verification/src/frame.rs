//! The lines that travel over the helper's socket, and who may send them.

use crate::json::encode;
use crate::protocol::{
    complete_copy, handle_request, CopyModel, CopyOrder, HelperRequest, Outcome, OutcomeModel,
    RequestModel, MAX_REQUEST_BYTES,
};
use crate::state::{HelperState, StateModel, MAX_RESPONSE_BYTES};
use crate::text::trim_end;
use crate::window::OpenView;
use serde_json::Value;
use vstd::prelude::*;
use vstd::string::*;

verus! {

/// Why a client is turned away without a response.
#[derive(Clone, Copy, Debug, PartialEq, Eq, Structural)]
pub enum ClientRefusal {
    /// The client runs under another user.
    PeerMismatch,
    /// The request is empty or longer than a request may be.
    RequestTooLarge,
    /// The request is not the JSON of a request.
    InvalidJson,
    /// The response could not be written as JSON.
    Unencodable,
}

impl ClientRefusal {
    /// What is said of the refusal.
    pub open spec fn text(self) -> Seq<char> {
        match self {
            ClientRefusal::PeerMismatch => "peer uid mismatch"@,
            ClientRefusal::RequestTooLarge => "request too large"@,
            ClientRefusal::InvalidJson => "invalid json"@,
            ClientRefusal::Unencodable => "response cannot be encoded"@,
        }
    }

    /// What is said of the refusal.
    pub fn message(&self) -> (message: &'static str)
        ensures
            message@ == self.text(),
    {
        match self {
            ClientRefusal::PeerMismatch => "peer uid mismatch",
            ClientRefusal::RequestTooLarge => "request too large",
            ClientRefusal::InvalidJson => "invalid json",
            ClientRefusal::Unencodable => "response cannot be encoded",
        }
    }
}

/// The line that stands for a response that is too long to be sent.
pub open spec fn too_large_line() -> Seq<u8> {
    vstd::utf8::encode_utf8(
        "{\"v\":1,\"id\":\"\",\"ok\":false,\"error\":\"response_too_large\"}\n"@,
    )
}

/// The line that is sent for a response with the JSON text `encoded`.
pub open spec fn response_line(encoded: Seq<u8>) -> Seq<u8> {
    if encoded.len() + 1 > MAX_RESPONSE_BYTES {
        too_large_line()
    } else {
        encoded.push(10)
    }
}

/// One line: its only line feed is its last byte.
pub open spec fn is_line(bytes: Seq<u8>) -> bool {
    &&& bytes.len() > 0
    &&& bytes.last() == 10
    &&& forall|i: int| 0 <= i < bytes.len() - 1 ==> bytes[i] != 10
}

/// Lets in a client that runs under the helper's own user.
pub fn check_peer(peer_uid: u32, own_uid: u32) -> (verdict: Result<(), ClientRefusal>)
    ensures
        verdict == (if peer_uid == own_uid {
            Ok(())
        } else {
            Err(ClientRefusal::PeerMismatch)
        }),
{
    if peer_uid == own_uid {
        Ok(())
    } else {
        Err(ClientRefusal::PeerMismatch)
    }
}

/// The JSON text of a request, from the line that was read: at most [`MAX_REQUEST_BYTES`] bytes,
/// and at least one.
pub fn request_text(line: &str) -> (text: Result<&str, ClientRefusal>)
    ensures
        match text {
            Ok(text) => {
                &&& 0 < vstd::utf8::encode_utf8(line@).len() <= MAX_REQUEST_BYTES
                &&& text@ == crate::text::trimmed_end(line@)
            },
            Err(refusal) => {
                &&& refusal == ClientRefusal::RequestTooLarge
                &&& !(0 < vstd::utf8::encode_utf8(line@).len() <= MAX_REQUEST_BYTES)
            },
        },
{
    let length = line.as_bytes().len();
    if length == 0 || length > MAX_REQUEST_BYTES {
        Err(ClientRefusal::RequestTooLarge)
    } else {
        Ok(trim_end(line))
    }
}

/// The line to send for a response with the JSON text `encoded`.
pub fn response_frame(encoded: Vec<u8>) -> (line: Vec<u8>)
    ensures
        line@ == response_line(encoded@),
{
    let mut line = encoded;
    if line.len() >= MAX_RESPONSE_BYTES {
        "{\"v\":1,\"id\":\"\",\"ok\":false,\"error\":\"response_too_large\"}\n".as_bytes_vec()
    } else {
        line.push(10);
        line
    }
}

/// The line to send for a response. It can always be written, and stands for the response as it is
/// unless that may be too long.
pub fn encode_response(response: &Value) -> (line: Result<Vec<u8>, ClientRefusal>)
    ensures
        line is Ok,
        line->Ok_0@ == response_line(crate::json::json_text(crate::json::json_tree(*response))),
        is_response(line->Ok_0@),
        crate::json::json_size(crate::json::json_tree(*response)) < MAX_RESPONSE_BYTES
            ==> line->Ok_0@ == crate::json::json_text(crate::json::json_tree(*response)).push(10),
{
    match encode(response) {
        Ok(encoded) => {
            proof {
                law_response_is_one_short_line(encoded@);
            }
            Ok(response_frame(encoded))
        },
        Err(_) => Err(ClientRefusal::Unencodable),
    }
}

/// What is to be done about a client's request.
#[derive(Debug)]
pub enum Exchange {
    /// Send this line.
    Send(Vec<u8>),
    /// Copy the code, then send the line that [`serve_copied`] gives.
    Copy(CopyOrder),
    /// Show this view, and send this line.
    Open(Vec<u8>, OpenView),
}

/// What an [`Exchange`] says.
pub enum ExchangeModel {
    Send(Seq<u8>),
    Copy(CopyModel),
    Open(Seq<u8>, OpenView),
}

impl View for Exchange {
    type V = ExchangeModel;

    open spec fn view(&self) -> ExchangeModel {
        match self {
            Exchange::Send(line) => ExchangeModel::Send(line@),
            Exchange::Copy(order) => ExchangeModel::Copy(order@),
            Exchange::Open(line, view) => ExchangeModel::Open(line@, *view),
        }
    }
}

/// What is to be done about a request that comes to `outcome`.
pub open spec fn exchange_for(outcome: OutcomeModel) -> ExchangeModel {
    match outcome {
        OutcomeModel::Reply(tree) => ExchangeModel::Send(
            response_line(crate::json::json_text(tree)),
        ),
        OutcomeModel::Copy(order) => ExchangeModel::Copy(order),
        OutcomeModel::Open(tree, view) => ExchangeModel::Open(
            response_line(crate::json::json_text(tree)),
            view,
        ),
    }
}

/// A line that can be sent: one line, and no longer than a response may be.
pub open spec fn is_response(line: Seq<u8>) -> bool {
    is_line(line) && line.len() <= MAX_RESPONSE_BYTES
}

/// What is sent for a request that comes to `outcome`, if the response is sent as it is.
pub open spec fn unshortened(outcome: OutcomeModel) -> ExchangeModel {
    match outcome {
        OutcomeModel::Reply(tree) => ExchangeModel::Send(crate::json::json_text(tree).push(10)),
        OutcomeModel::Copy(order) => ExchangeModel::Copy(order),
        OutcomeModel::Open(tree, view) => ExchangeModel::Open(
            crate::json::json_text(tree).push(10),
            view,
        ),
    }
}

/// Neither the request's identifier, which is echoed, nor the source commit, which is reported, is
/// longer than a request may be.
pub open spec fn modest(state: StateModel, request: RequestModel) -> bool {
    request.id.len() <= MAX_REQUEST_BYTES && state.source_commit.len() <= MAX_REQUEST_BYTES
}

/// Carries out a client's request and writes the response, unless a code has to be copied first. The
/// response to a request that was read from a line is never too long to be sent.
pub fn serve_request(state: &mut HelperState, request: HelperRequest) -> (exchange: Result<
    Exchange,
    ClientRefusal,
>)
    ensures
        exchange is Ok,
        exchange->Ok_0@ == exchange_for(crate::protocol::answer(old(state)@, request@)),
        exchange->Ok_0@ matches ExchangeModel::Send(line) ==> is_response(line),
        exchange->Ok_0@ matches ExchangeModel::Open(line, _) ==> is_response(line),
        modest(old(state)@, request@) ==> exchange->Ok_0@ == unshortened(
            crate::protocol::answer(old(state)@, request@),
        ),
        final(state)@ == crate::protocol::state_after(old(state)@, request@),
{
    let ghost asked = request@;
    let outcome = handle_request(state, request);
    proof {
        if modest(old(state)@, asked) {
            crate::size::lemma_answer_fits(old(state)@, asked);
        }
    }
    match outcome {
        Outcome::Reply(response) => match encode_response(&response) {
            Ok(line) => Ok(Exchange::Send(line)),
            Err(refusal) => Err(refusal),
        },
        Outcome::Copy(order) => Ok(Exchange::Copy(order)),
        Outcome::Open(response, view) => match encode_response(&response) {
            Ok(line) => Ok(Exchange::Open(line, view)),
            Err(refusal) => Err(refusal),
        },
    }
}

/// Takes note that the code was copied, or could not be, and writes the response. With it comes,
/// if the code was copied, the clipboard generation that it belongs to.
pub fn serve_copied(state: &mut HelperState, order: &CopyOrder, copied: bool) -> (served: Result<
    (Vec<u8>, Option<u64>),
    ClientRefusal,
>)
    ensures
        served is Ok,
        (served->Ok_0).0@ == response_line(
            crate::json::json_text(crate::protocol::copied_tree(order@, copied)),
        ),
        is_response((served->Ok_0).0@),
        order@.id.len() <= MAX_REQUEST_BYTES ==> (served->Ok_0).0@ == crate::json::json_text(
            crate::protocol::copied_tree(order@, copied),
        ).push(10),
        (served->Ok_0).1 == (if copied {
            Some(crate::state::generation_after(old(state)@.clipboard_generation))
        } else {
            None
        }),
        final(state)@ == crate::protocol::state_after_copy(old(state)@, copied),
{
    proof {
        if order@.id.len() <= MAX_REQUEST_BYTES {
            crate::size::lemma_copied_fits(order@, copied);
        }
    }
    let (response, generation) = complete_copy(state, order, copied);
    match encode_response(&response) {
        Ok(line) => Ok((line, generation)),
        Err(refusal) => Err(refusal),
    }
}

/// A response whose JSON text has no line feed is sent as one line that is no longer than a
/// response may be.
pub proof fn law_response_is_one_short_line(encoded: Seq<u8>)
    requires
        forall|i: int| 0 <= i < encoded.len() ==> encoded[i] != 10,
    ensures
        is_response(response_line(encoded)),
{
    reveal_strlit("{\"v\":1,\"id\":\"\",\"ok\":false,\"error\":\"response_too_large\"}\n");
    let text = "{\"v\":1,\"id\":\"\",\"ok\":false,\"error\":\"response_too_large\"}\n"@;
    assert(vstd::utf8::is_ascii_chars(text));
    vstd::utf8::is_ascii_chars_encode_utf8(text);
    assert(text.len() == 56);
    assert(text[55] as u8 == 10u8);
    assert(forall|i: int| 0 <= i < 55 ==> (#[trigger] text[i]) as u8 != 10u8);
}

}
