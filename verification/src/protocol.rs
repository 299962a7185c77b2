//! The line protocol of the helper's socket: one JSON request on a line, one JSON response on a
//! line.

use crate::json::{
    bool_value, insert_member, into_members, new_members, number_value, object_value, text_value,
    JsonTree,
};
use crate::snapshot::{snapshot_value, EntryModel, HelperSnapshot, SnapshotModel};
use crate::state::{HelperState, StateModel};
use crate::text::{text_equal, valid_id};
use crate::window::OpenView;
use serde_json::Value;
use vstd::prelude::*;

verus! {

/// The version of the protocol.
pub const PROTOCOL_VERSION: u8 = 1;

/// The most bytes that a request may take, its line feed counted.
pub const MAX_REQUEST_BYTES: usize = 16_384;

/// A request.
#[derive(Debug)]
pub struct HelperRequest {
    pub v: u8,
    pub id: String,
    pub op: String,
    pub item_id: Option<String>,
}

/// What a [`HelperRequest`] says.
pub struct RequestModel {
    pub v: u8,
    pub id: Seq<char>,
    pub op: Seq<char>,
    pub item_id: Option<Seq<char>>,
}

impl View for HelperRequest {
    type V = RequestModel;

    open spec fn view(&self) -> RequestModel {
        RequestModel {
            v: self.v,
            id: self.id@,
            op: self.op@,
            item_id: match self.item_id {
                None => None,
                Some(item_id) => Some(item_id@),
            },
        }
    }
}

/// A code that is to be put on the clipboard before the request can be answered.
#[derive(Debug)]
pub struct CopyOrder {
    /// The identifier of the request.
    pub id: String,
    /// The code to copy.
    pub code: String,
    /// The generation of the snapshot that the code comes from.
    pub generation: u64,
}

/// What a [`CopyOrder`] says.
pub struct CopyModel {
    pub id: Seq<char>,
    pub code: Seq<char>,
    pub generation: u64,
}

impl View for CopyOrder {
    type V = CopyModel;

    open spec fn view(&self) -> CopyModel {
        CopyModel { id: self.id@, code: self.code@, generation: self.generation }
    }
}

/// What is to be done about a request.
#[derive(Debug)]
pub enum Outcome {
    /// Send this response.
    Reply(Value),
    /// Copy the code, then send the response that [`complete_copy`] gives.
    Copy(CopyOrder),
    /// Show this view, as [`crate::window::surface`] decides, and send this response.
    Open(Value, OpenView),
}

/// What an [`Outcome`] says.
pub enum OutcomeModel {
    Reply(JsonTree),
    Copy(CopyModel),
    Open(JsonTree, OpenView),
}

impl View for Outcome {
    type V = OutcomeModel;

    open spec fn view(&self) -> OutcomeModel {
        match self {
            Outcome::Reply(value) => OutcomeModel::Reply(crate::json::json_tree(*value)),
            Outcome::Copy(order) => OutcomeModel::Copy(order@),
            Outcome::Open(value, view) => OutcomeModel::Open(
                crate::json::json_tree(*value),
                *view,
            ),
        }
    }
}

/// A response: the members of `body`, if it is an object, with the protocol version and the
/// request's identifier.
pub open spec fn envelope_tree(id: Seq<char>, body: JsonTree) -> JsonTree {
    let members = match body {
        JsonTree::Object(members) => members,
        _ => crate::json::no_members(),
    };
    JsonTree::Object(
        members.insert("v"@, JsonTree::Number(PROTOCOL_VERSION as int)).insert(
            "id"@,
            JsonTree::Text(id),
        ),
    )
}

/// The response to a request that is refused.
pub open spec fn refusal_tree(id: Seq<char>, reason: Seq<char>) -> JsonTree {
    envelope_tree(
        id,
        JsonTree::Object(map!["ok"@ => JsonTree::Bool(false), "error"@ => JsonTree::Text(reason)]),
    )
}

/// The response to `status`: what is served, but not the entries, and the source commit that the
/// program was built from.
pub open spec fn status_tree(
    id: Seq<char>,
    snapshot: SnapshotModel,
    commit: Seq<char>,
) -> JsonTree {
    envelope_tree(
        id,
        JsonTree::Object(
            map![
                "ok"@ => JsonTree::Bool(true),
                "state"@ => JsonTree::Text(snapshot.state),
                "locked"@ => JsonTree::Bool(snapshot.locked),
                "synced"@ => JsonTree::Bool(snapshot.synced),
                "account"@ => JsonTree::Text(snapshot.account),
                "generation"@ => JsonTree::Number(snapshot.generation as int),
                "count"@ => JsonTree::Number(snapshot.entries.len() as int),
                "commit"@ => JsonTree::Text(commit),
            ],
        ),
    )
}

/// The response to `snapshot`: all that is served.
pub open spec fn snapshot_tree(id: Seq<char>, snapshot: SnapshotModel) -> JsonTree {
    envelope_tree(
        id,
        JsonTree::Object(
            crate::snapshot::snapshot_members(snapshot).insert("ok"@, JsonTree::Bool(true)),
        ),
    )
}

/// The response to `lock` and `unlock`: where the snapshot stands after it.
pub open spec fn latch_tree(id: Seq<char>, snapshot: SnapshotModel) -> JsonTree {
    envelope_tree(
        id,
        JsonTree::Object(
            map![
                "ok"@ => JsonTree::Bool(true),
                "state"@ => JsonTree::Text(snapshot.state),
                "locked"@ => JsonTree::Bool(snapshot.locked),
                "generation"@ => JsonTree::Number(snapshot.generation as int),
            ],
        ),
    )
}

/// The response to `copy`, once the code was copied or could not be.
pub open spec fn copied_tree(order: CopyModel, copied: bool) -> JsonTree {
    if copied {
        envelope_tree(
            order.id,
            JsonTree::Object(
                map![
                    "ok"@ => JsonTree::Bool(true),
                    "copied"@ => JsonTree::Bool(true),
                    "generation"@ => JsonTree::Number(order.generation as int),
                ],
            ),
        )
    } else {
        refusal_tree(order.id, "clipboard_failed"@)
    }
}

/// The response to `open`.
pub open spec fn open_tree(id: Seq<char>) -> JsonTree {
    envelope_tree(id, JsonTree::Object(map!["ok"@ => JsonTree::Bool(true)]))
}

/// The first entry with the identifier `id`.
pub open spec fn first_entry(entries: Seq<EntryModel>, id: Seq<char>) -> Option<EntryModel>
    decreases entries.len(),
{
    if entries.len() == 0 {
        None
    } else if entries.first().id == id {
        Some(entries.first())
    } else {
        first_entry(entries.drop_first(), id)
    }
}

impl RequestModel {
    /// A request of this version of the protocol, with an identifier.
    pub open spec fn well_formed(self) -> bool {
        self.v == PROTOCOL_VERSION && crate::text::is_id(self.id)
    }

    /// A request that changes the snapshot, if it is carried out.
    pub open spec fn changes_snapshot(self) -> bool {
        self.op == "lock"@ || self.op == "unlock"@
    }
}

/// What `copy` comes to: the order to copy the code of the first entry that is asked for, or a
/// refusal.
pub open spec fn copy_answer(snapshot: SnapshotModel, request: RequestModel) -> OutcomeModel {
    match request.item_id {
        Some(item_id) if crate::text::is_id(item_id) => {
            if snapshot.locked || snapshot.state != "ready"@ {
                OutcomeModel::Reply(refusal_tree(request.id, "locked"@))
            } else {
                match first_entry(snapshot.entries, item_id) {
                    Some(entry) => OutcomeModel::Copy(
                        CopyModel {
                            id: request.id,
                            code: entry.code,
                            generation: snapshot.generation,
                        },
                    ),
                    None => OutcomeModel::Reply(refusal_tree(request.id, "not_found"@)),
                }
            }
        },
        _ => OutcomeModel::Reply(refusal_tree(request.id, "invalid_item_id"@)),
    }
}

/// The state after a request: only `lock` and `unlock` change it. What `open` shows is decided
/// afterwards.
pub open spec fn state_after(state: StateModel, request: RequestModel) -> StateModel {
    if request.well_formed() && request.op == "lock"@ {
        state.locked()
    } else if request.well_formed() && request.op == "unlock"@ {
        state.unlocked()
    } else {
        state
    }
}

/// What a request comes to.
pub open spec fn answer(state: StateModel, request: RequestModel) -> OutcomeModel {
    if !request.well_formed() {
        OutcomeModel::Reply(refusal_tree(request.id, "invalid_request"@))
    } else if request.op == "status"@ {
        OutcomeModel::Reply(status_tree(request.id, state.snapshot, state.source_commit))
    } else if request.op == "snapshot"@ {
        OutcomeModel::Reply(snapshot_tree(request.id, state.snapshot))
    } else if request.op == "copy"@ {
        copy_answer(state.snapshot, request)
    } else if request.op == "open"@ {
        OutcomeModel::Open(open_tree(request.id), OpenView::Manage)
    } else if request.op == "lock"@ || request.op == "unlock"@ {
        OutcomeModel::Reply(latch_tree(request.id, state_after(state, request).snapshot))
    } else {
        OutcomeModel::Reply(refusal_tree(request.id, "unsupported_operation"@))
    }
}

/// Puts the protocol version and the request's identifier into a response.
pub fn envelope(id: &str, body: Value) -> (response: Value)
    ensures
        crate::json::json_tree(response) == envelope_tree(id@, crate::json::json_tree(body)),
{
    let mut members = match into_members(body) {
        Some(members) => members,
        None => new_members(),
    };
    insert_member(&mut members, "v", number_value(PROTOCOL_VERSION as u64));
    insert_member(&mut members, "id", text_value(id));
    object_value(members)
}

/// The response to a request that is refused.
fn refusal(id: &str, reason: &str) -> (response: Value)
    ensures
        crate::json::json_tree(response) == refusal_tree(id@, reason@),
{
    let mut members = new_members();
    insert_member(&mut members, "ok", bool_value(false));
    insert_member(&mut members, "error", text_value(reason));
    envelope(id, object_value(members))
}

/// The response to `status`.
fn status_response(id: &str, snapshot: &HelperSnapshot, commit: &str) -> (response: Value)
    ensures
        crate::json::json_tree(response) == status_tree(id@, snapshot@, commit@),
{
    let mut members = new_members();
    insert_member(&mut members, "ok", bool_value(true));
    insert_member(&mut members, "state", text_value(snapshot.state.as_str()));
    insert_member(&mut members, "locked", bool_value(snapshot.locked));
    insert_member(&mut members, "synced", bool_value(snapshot.synced));
    insert_member(&mut members, "account", text_value(snapshot.account.as_str()));
    insert_member(&mut members, "generation", number_value(snapshot.generation));
    insert_member(&mut members, "count", number_value(snapshot.entries.len() as u64));
    insert_member(&mut members, "commit", text_value(commit));
    envelope(id, object_value(members))
}

/// The response to `snapshot`.
pub fn snapshot_response(id: &str, snapshot: &HelperSnapshot) -> (response: Value)
    ensures
        crate::json::json_tree(response) == snapshot_tree(id@, snapshot@),
{
    let mut members = match into_members(snapshot_value(snapshot)) {
        Some(members) => members,
        None => new_members(),
    };
    insert_member(&mut members, "ok", bool_value(true));
    envelope(id, object_value(members))
}

/// The response to `lock` and `unlock`.
fn latch_response(id: &str, snapshot: &HelperSnapshot) -> (response: Value)
    ensures
        crate::json::json_tree(response) == latch_tree(id@, snapshot@),
{
    let mut members = new_members();
    insert_member(&mut members, "ok", bool_value(true));
    insert_member(&mut members, "state", text_value(snapshot.state.as_str()));
    insert_member(&mut members, "locked", bool_value(snapshot.locked));
    insert_member(&mut members, "generation", number_value(snapshot.generation));
    envelope(id, object_value(members))
}

/// The response to `open`.
fn open_response(id: &str) -> (response: Value)
    ensures
        crate::json::json_tree(response) == open_tree(id@),
{
    let mut members = new_members();
    insert_member(&mut members, "ok", bool_value(true));
    envelope(id, object_value(members))
}

/// The response to `copy`, once the code was copied or could not be.
pub fn copy_reply(order: &CopyOrder, copied: bool) -> (response: Value)
    ensures
        crate::json::json_tree(response) == copied_tree(order@, copied),
{
    if !copied {
        return refusal(order.id.as_str(), "clipboard_failed");
    }
    let mut members = new_members();
    insert_member(&mut members, "ok", bool_value(true));
    insert_member(&mut members, "copied", bool_value(true));
    insert_member(&mut members, "generation", number_value(order.generation));
    envelope(order.id.as_str(), object_value(members))
}

/// The state after a code was copied, or could not be: a copy starts a new clipboard generation.
pub open spec fn state_after_copy(state: StateModel, copied: bool) -> StateModel {
    if copied {
        StateModel {
            clipboard_generation: crate::state::wrapped_generation(state.clipboard_generation),
            ..state
        }
    } else {
        state
    }
}

/// Takes note that the code was copied, or could not be. Returns the response to send and, if the
/// code was copied, the clipboard generation that it belongs to.
pub fn complete_copy(state: &mut HelperState, order: &CopyOrder, copied: bool) -> (completed: (
    Value,
    Option<u64>,
))
    ensures
        crate::json::json_tree(completed.0) == copied_tree(order@, copied),
        completed.1 == (if copied {
            Some(crate::state::generation_after(old(state)@.clipboard_generation))
        } else {
            None
        }),
        final(state)@ == state_after_copy(old(state)@, copied),
{
    let generation = if copied {
        Some(state.next_clipboard_generation())
    } else {
        None
    };
    (copy_reply(order, copied), generation)
}

/// The code of the first entry with the identifier `id`.
fn find_code(snapshot: &HelperSnapshot, id: &str) -> (code: Option<String>)
    ensures
        match first_entry(snapshot@.entries, id@) {
            Some(entry) => code is Some && code->0@ == entry.code,
            None => code is None,
        },
{
    assert(snapshot@.entries.skip(0) =~= snapshot@.entries);
    for index in 0..snapshot.entries.len()
        invariant
            first_entry(snapshot@.entries, id@) == first_entry(
                snapshot@.entries.skip(index as int),
                id@,
            ),
    {
        let entry = &snapshot.entries[index];
        assert(snapshot@.entries.skip(index as int).first() == entry@);
        assert(snapshot@.entries.skip(index as int).drop_first() =~= snapshot@.entries.skip(
            index + 1,
        ));
        if text_equal(entry.id.as_str(), id) {
            return Some(entry.code.clone());
        }
    }
    None
}

/// Decides on `copy`.
fn copy_request(snapshot: &HelperSnapshot, request: &HelperRequest) -> (outcome: Outcome)
    ensures
        outcome@ == copy_answer(snapshot@, request@),
{
    let id = request.id.as_str();
    match &request.item_id {
        Some(item_id) if valid_id(item_id.as_str()) => {
            if snapshot.locked || !text_equal(snapshot.state.as_str(), "ready") {
                return Outcome::Reply(refusal(id, "locked"));
            }
            match find_code(snapshot, item_id.as_str()) {
                Some(code) => Outcome::Copy(
                    CopyOrder { id: request.id.clone(), code, generation: snapshot.generation },
                ),
                None => Outcome::Reply(refusal(id, "not_found")),
            }
        },
        _ => Outcome::Reply(refusal(id, "invalid_item_id")),
    }
}

/// The operations have different names.
pub(crate) proof fn lemma_operations_differ()
    ensures
        "lock"@ != "unlock"@,
        "status"@ != "lock"@ && "status"@ != "unlock"@,
        "snapshot"@ != "lock"@ && "snapshot"@ != "unlock"@,
        "copy"@ != "lock"@ && "copy"@ != "unlock"@,
        "status"@ != "snapshot"@ && "status"@ != "copy"@ && "snapshot"@ != "copy"@,
        "open"@ != "lock"@ && "open"@ != "unlock"@,
        "open"@ != "status"@ && "open"@ != "snapshot"@ && "open"@ != "copy"@,
{
    reveal_strlit("status");
    reveal_strlit("snapshot");
    reveal_strlit("copy");
    reveal_strlit("lock");
    reveal_strlit("unlock");
    reveal_strlit("open");
    assert("status"@.len() == 6 && "snapshot"@.len() == 8 && "copy"@.len() == 4);
    assert("copy"@[0] != "lock"@[0]);
    assert("status"@[0] != "unlock"@[0]);
    assert("open"@[0] != "copy"@[0] && "open"@[0] != "lock"@[0]);
}

/// Tells whether carrying out the request may change the snapshot. While another request is carried
/// out the snapshot can be read by others.
pub fn may_change_snapshot(request: &HelperRequest) -> (may: bool)
    ensures
        may == request@.changes_snapshot(),
{
    let op = request.op.as_str();
    text_equal(op, "lock") || text_equal(op, "unlock")
}

/// Carries out a request.
pub fn handle_request(state: &mut HelperState, request: HelperRequest) -> (outcome: Outcome)
    ensures
        outcome@ == answer(old(state)@, request@),
        old(state)@.wf(),
        final(state)@ == state_after(old(state)@, request@),
        final(state)@.wf(),
{
    proof {
        lemma_operations_differ();
    }
    let snapshot = state.snapshot();
    let id = request.id.as_str();
    if request.v != PROTOCOL_VERSION || !valid_id(id) {
        return Outcome::Reply(refusal(id, "invalid_request"));
    }
    let op = request.op.as_str();
    if text_equal(op, "status") {
        Outcome::Reply(status_response(id, snapshot, state.source_commit()))
    } else if text_equal(op, "snapshot") {
        Outcome::Reply(snapshot_response(id, snapshot))
    } else if text_equal(op, "copy") {
        copy_request(snapshot, &request)
    } else if text_equal(op, "open") {
        Outcome::Open(open_response(id), OpenView::Manage)
    } else if text_equal(op, "lock") {
        state.lock();
        Outcome::Reply(latch_response(id, state.snapshot()))
    } else if text_equal(op, "unlock") {
        state.unlock();
        Outcome::Reply(latch_response(id, state.snapshot()))
    } else {
        Outcome::Reply(refusal(id, "unsupported_operation"))
    }
}

}
