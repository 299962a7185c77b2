//! What clients are answered: which members each response has, what they hold, and what becomes of
//! the state.

use crate::json::JsonTree;
use crate::protocol::{CopyOrder, HelperRequest, Outcome};
use crate::snapshot::{EntryModel, HelperEntry, HelperSnapshot, SnapshotModel};
use crate::state::{HelperState, StateModel};
use serde_json::Value;
use vstd::prelude::*;

verus! {

/// The value of a member, if the tree is an object that has it.
pub open spec fn field(tree: JsonTree, name: Seq<char>) -> Option<JsonTree> {
    match tree {
        JsonTree::Object(members) if members.contains_key(name) => Some(members[name]),
        _ => None,
    }
}

/// The tree is an object with members of these names and no others.
pub open spec fn has_fields(tree: JsonTree, names: Set<Seq<char>>) -> bool {
    tree matches JsonTree::Object(members) && members.dom() == names
}

/// The member holds this text.
pub open spec fn says(tree: JsonTree, name: Seq<char>, text: Seq<char>) -> bool {
    field(tree, name) == Some(JsonTree::Text(text))
}

/// The member holds this integer.
pub open spec fn counts(tree: JsonTree, name: Seq<char>, number: int) -> bool {
    field(tree, name) == Some(JsonTree::Number(number))
}

/// The member holds this truth value.
pub open spec fn flags(tree: JsonTree, name: Seq<char>, flag: bool) -> bool {
    field(tree, name) == Some(JsonTree::Bool(flag))
}

/// The tree has every field of the entry, as it is, and nothing else.
pub open spec fn tells_entry(tree: JsonTree, entry: EntryModel) -> bool {
    &&& has_fields(
        tree,
        set![
            "id"@,
            "name"@,
            "issuer"@,
            "type"@,
            "code"@,
            "nextCode"@,
            "period"@,
            "validUntil"@,
        ],
    )
    &&& says(tree, "id"@, entry.id)
    &&& says(tree, "name"@, entry.name)
    &&& says(tree, "issuer"@, entry.issuer)
    &&& says(tree, "type"@, entry.entry_type)
    &&& says(tree, "code"@, entry.code)
    &&& says(tree, "nextCode"@, entry.next_code)
    &&& counts(tree, "period"@, entry.period as int)
    &&& counts(tree, "validUntil"@, entry.valid_until as int)
}

/// The tree has every field of the snapshot, as it is, and its entries in their order.
pub open spec fn tells_snapshot(tree: JsonTree, snapshot: SnapshotModel) -> bool {
    &&& says(tree, "state"@, snapshot.state)
    &&& flags(tree, "locked"@, snapshot.locked)
    &&& flags(tree, "synced"@, snapshot.synced)
    &&& says(tree, "account"@, snapshot.account)
    &&& counts(tree, "generation"@, snapshot.generation as int)
    &&& counts(tree, "now"@, snapshot.now as int)
    &&& field(tree, "entries"@) matches Some(JsonTree::List(items)) && {
        &&& items.len() == snapshot.entries.len()
        &&& forall|i: int|
            0 <= i < items.len() ==> tells_entry(#[trigger] items[i], snapshot.entries[i])
    }
}

/// The tree says that the request `id` of this version of the protocol went well, or did not.
pub open spec fn reports(tree: JsonTree, id: Seq<char>, ok: bool) -> bool {
    &&& counts(tree, "v"@, 1)
    &&& says(tree, "id"@, id)
    &&& flags(tree, "ok"@, ok)
}

/// The tree says that the request `id` was refused, why, and nothing else.
pub open spec fn refuses_for(tree: JsonTree, id: Seq<char>, reason: Seq<char>) -> bool {
    &&& has_fields(tree, set!["v"@, "id"@, "ok"@, "error"@])
    &&& reports(tree, id, false)
    &&& says(tree, "error"@, reason)
}

/// The request is refused for this reason.
pub open spec fn is_refusal(outcome: Outcome, id: Seq<char>, reason: Seq<char>) -> bool {
    outcome matches Outcome::Reply(value) && refuses_for(
        crate::json::json_tree(value),
        id,
        reason,
    )
}

/// A request of this version of the protocol, under a proper name, for the operation `op`.
pub open spec fn asks_for(request: HelperRequest, op: Seq<char>) -> bool {
    request.v == 1 && crate::laws::validation::is_word(request.id@) && request.op@ == op
}

/// No two names of members are the same.
proof fn lemma_names_differ()
    ensures
        "v"@.len() == 1,
        "id"@.len() == 2 && "id"@[0] == 'i',
        "ok"@.len() == 2 && "ok"@[0] == 'o',
        "now"@.len() == 3,
        "code"@.len() == 4 && "code"@[0] == 'c',
        "name"@.len() == 4 && "name"@[0] == 'n',
        "type"@.len() == 4 && "type"@[0] == 't',
        "count"@.len() == 5 && "count"@[0] == 'c',
        "error"@.len() == 5 && "error"@[0] == 'e',
        "state"@.len() == 5 && "state"@[0] == 's',
        "commit"@.len() == 6 && "commit"@[0] == 'c',
        "copied"@.len() == 6,
        "issuer"@.len() == 6 && "issuer"@[0] == 'i',
        "locked"@.len() == 6 && "locked"@[0] == 'l',
        "period"@.len() == 6 && "period"@[0] == 'p',
        "synced"@.len() == 6 && "synced"@[0] == 's',
        "account"@.len() == 7 && "account"@[0] == 'a',
        "entries"@.len() == 7 && "entries"@[0] == 'e',
        "nextCode"@.len() == 8,
        "generation"@.len() == 10 && "generation"@[0] == 'g',
        "validUntil"@.len() == 10 && "validUntil"@[0] == 'v',
{
    crate::size::lemma_member_names();
    reveal_strlit("id");
    reveal_strlit("ok");
    reveal_strlit("code");
    reveal_strlit("name");
    reveal_strlit("type");
    reveal_strlit("count");
    reveal_strlit("error");
    reveal_strlit("state");
    reveal_strlit("commit");
    reveal_strlit("issuer");
    reveal_strlit("locked");
    reveal_strlit("period");
    reveal_strlit("synced");
    reveal_strlit("account");
    reveal_strlit("entries");
    reveal_strlit("generation");
    reveal_strlit("validUntil");
}

/// The tree of an entry.
proof fn lemma_entry_is_told(entry: EntryModel)
    ensures
        tells_entry(crate::snapshot::entry_tree(entry), entry),
{
    lemma_names_differ();
    let members = crate::snapshot::entry_tree(entry)->Object_0;
    assert(members.dom() =~= set![
        "id"@,
        "name"@,
        "issuer"@,
        "type"@,
        "code"@,
        "nextCode"@,
        "period"@,
        "validUntil"@,
    ]);
}

/// The members of a snapshot.
proof fn lemma_snapshot_is_told(snapshot: SnapshotModel)
    ensures
        tells_snapshot(JsonTree::Object(crate::snapshot::snapshot_members(snapshot)), snapshot),
        crate::snapshot::snapshot_members(snapshot).dom() =~= set![
            "state"@,
            "locked"@,
            "synced"@,
            "account"@,
            "generation"@,
            "now"@,
            "entries"@,
        ],
{
    lemma_names_differ();
    assert forall|i: int| 0 <= i < snapshot.entries.len() implies tells_entry(
        crate::snapshot::entry_tree(snapshot.entries[i]),
        snapshot.entries[i],
    ) by {
        lemma_entry_is_told(snapshot.entries[i]);
    }
}

/// A refusal.
proof fn lemma_refusal_is_told(id: Seq<char>, reason: Seq<char>)
    ensures
        refuses_for(crate::protocol::refusal_tree(id, reason), id, reason),
{
    lemma_names_differ();
    let members = crate::protocol::refusal_tree(id, reason)->Object_0;
    assert(members.dom() =~= set!["v"@, "id"@, "ok"@, "error"@]);
}

/// The models of entries, snapshots, requests and orders keep every field.
pub proof fn law_models_keep_every_field(
    entry: HelperEntry,
    snapshot: HelperSnapshot,
    request: HelperRequest,
    order: CopyOrder,
)
    ensures
        entry@.id == entry.id@,
        entry@.name == entry.name@,
        entry@.issuer == entry.issuer@,
        entry@.entry_type == entry.entry_type@,
        entry@.code == entry.code@,
        entry@.next_code == entry.next_code@,
        entry@.period == entry.period,
        entry@.valid_until == entry.valid_until,
        snapshot@.state == snapshot.state@,
        snapshot@.locked == snapshot.locked,
        snapshot@.synced == snapshot.synced,
        snapshot@.account == snapshot.account@,
        snapshot@.generation == snapshot.generation,
        snapshot@.now == snapshot.now,
        snapshot@.entries.len() == snapshot.entries@.len(),
        forall|i: int|
            0 <= i < snapshot.entries@.len() ==> #[trigger] snapshot@.entries[i]
                == snapshot.entries@[i]@,
        request@.v == request.v,
        request@.id == request.id@,
        request@.op == request.op@,
        request@.item_id is Some <==> request.item_id is Some,
        request.item_id is Some ==> request@.item_id->0 == request.item_id->0@,
        order@.id == order.id@,
        order@.code == order.code@,
        order@.generation == order.generation,
{
}

/// A copy of an entry or a snapshot has the same fields.
pub proof fn law_clones_are_alike(
    entry: HelperEntry,
    entry_copy: HelperEntry,
    snapshot: HelperSnapshot,
    snapshot_copy: HelperSnapshot,
)
    requires
        call_ensures(HelperEntry::clone, (&entry,), entry_copy),
        call_ensures(HelperSnapshot::clone, (&snapshot,), snapshot_copy),
    ensures
        entry_copy@ == entry@,
        snapshot_copy@ == snapshot@,
{
}

/// The JSON of an entry determines it: it has every field, as it is, under its own name.
pub proof fn law_entry_value_tells_entry(entry: HelperEntry, value: Value)
    requires
        call_ensures(crate::snapshot::entry_value, (&entry,), value),
    ensures
        tells_entry(crate::json::json_tree(value), entry@),
{
    lemma_entry_is_told(entry@);
}

/// Entries that differ in any field have different JSON.
pub proof fn law_different_entries_have_different_values(
    left: HelperEntry,
    left_value: Value,
    right: HelperEntry,
    right_value: Value,
)
    requires
        call_ensures(crate::snapshot::entry_value, (&left,), left_value),
        call_ensures(crate::snapshot::entry_value, (&right,), right_value),
        crate::json::json_tree(left_value) == crate::json::json_tree(right_value),
    ensures
        left.id@ == right.id@,
        left.name@ == right.name@,
        left.issuer@ == right.issuer@,
        left.entry_type@ == right.entry_type@,
        left.code@ == right.code@,
        left.next_code@ == right.next_code@,
        left.period == right.period,
        left.valid_until == right.valid_until,
{
    lemma_entry_is_told(left@);
    lemma_entry_is_told(right@);
}

/// The JSON of a snapshot has every field, as it is, and the entries in their order.
pub proof fn law_snapshot_value_tells_snapshot(snapshot: HelperSnapshot, value: Value)
    requires
        call_ensures(crate::snapshot::snapshot_value, (&snapshot,), value),
    ensures
        has_fields(
            crate::json::json_tree(value),
            set![
                "state"@,
                "locked"@,
                "synced"@,
                "account"@,
                "generation"@,
                "now"@,
                "entries"@,
            ],
        ),
        tells_snapshot(crate::json::json_tree(value), snapshot@),
{
    lemma_snapshot_is_told(snapshot@);
}

/// An envelope has the version and the identifier, whatever the body says of them, and otherwise
/// the members of the body, if that is an object.
pub proof fn law_envelope_adds_version_and_id(
    id: &str,
    body: Value,
    response: Value,
    name: Seq<char>,
)
    requires
        call_ensures(crate::protocol::envelope, (id, body), response),
    ensures
        counts(crate::json::json_tree(response), "v"@, 1),
        says(crate::json::json_tree(response), "id"@, id@),
        name != "v"@ && name != "id"@ ==> field(crate::json::json_tree(response), name) == field(
            crate::json::json_tree(body),
            name,
        ),
{
    lemma_names_differ();
}

/// What a response with a snapshot has.
pub open spec fn is_snapshot_response(
    tree: JsonTree,
    id: Seq<char>,
    snapshot: SnapshotModel,
) -> bool {
    &&& has_fields(
        tree,
        set![
            "v"@,
            "id"@,
            "ok"@,
            "state"@,
            "locked"@,
            "synced"@,
            "account"@,
            "generation"@,
            "now"@,
            "entries"@,
        ],
    )
    &&& reports(tree, id, true)
    &&& tells_snapshot(tree, snapshot)
}

/// The tree of a response with a snapshot.
proof fn lemma_snapshot_response(id: Seq<char>, snapshot: SnapshotModel)
    ensures
        is_snapshot_response(crate::protocol::snapshot_tree(id, snapshot), id, snapshot),
{
    lemma_names_differ();
    lemma_snapshot_is_told(snapshot);
    let tree = crate::protocol::snapshot_tree(id, snapshot);
    assert(tree->Object_0.dom() =~= set![
        "v"@,
        "id"@,
        "ok"@,
        "state"@,
        "locked"@,
        "synced"@,
        "account"@,
        "generation"@,
        "now"@,
        "entries"@,
    ]);
}

/// The response with a snapshot has all of the snapshot.
pub proof fn law_snapshot_response_tells_snapshot(
    id: &str,
    snapshot: HelperSnapshot,
    response: Value,
)
    requires
        call_ensures(crate::protocol::snapshot_response, (id, &snapshot), response),
    ensures
        is_snapshot_response(crate::json::json_tree(response), id@, snapshot@),
{
    lemma_snapshot_response(id@, snapshot@);
}

/// A request of another version, or without a proper name, is refused and changes nothing.
pub proof fn law_improper_requests_are_refused(
    state: &mut HelperState,
    request: HelperRequest,
    outcome: Outcome,
)
    requires
        call_ensures(crate::protocol::handle_request, (state, request), outcome),
        request.v != 1 || !crate::laws::validation::is_word(request.id@),
    ensures
        is_refusal(outcome, request.id@, "invalid_request"@),
        final(state)@ == old(state)@,
{
    crate::laws::validation::lemma_words(request.id@);
    lemma_refusal_is_told(request.id@, "invalid_request"@);
}

/// A proper request for none of the six operations is refused and changes nothing.
pub proof fn law_unknown_operations_are_refused(
    state: &mut HelperState,
    request: HelperRequest,
    outcome: Outcome,
)
    requires
        call_ensures(crate::protocol::handle_request, (state, request), outcome),
        asks_for(request, request.op@),
        !seq!["status"@, "snapshot"@, "copy"@, "lock"@, "unlock"@, "open"@].contains(request.op@),
    ensures
        is_refusal(outcome, request.id@, "unsupported_operation"@),
        final(state)@ == old(state)@,
{
    let known = seq!["status"@, "snapshot"@, "copy"@, "lock"@, "unlock"@, "open"@];
    assert(known[0] == "status"@ && known[1] == "snapshot"@ && known[2] == "copy"@);
    assert(known[3] == "lock"@ && known[4] == "unlock"@ && known[5] == "open"@);
    crate::laws::validation::lemma_words(request.id@);
    lemma_refusal_is_told(request.id@, "unsupported_operation"@);
}

/// `snapshot` is answered with all that is served, and changes nothing.
pub proof fn law_snapshot_request_is_served(
    state: &mut HelperState,
    request: HelperRequest,
    outcome: Outcome,
)
    requires
        call_ensures(crate::protocol::handle_request, (state, request), outcome),
        asks_for(request, "snapshot"@),
    ensures
        outcome matches Outcome::Reply(value) && is_snapshot_response(
            crate::json::json_tree(value),
            request.id@,
            old(state)@.snapshot,
        ),
        final(state)@ == old(state)@,
{
    crate::laws::validation::lemma_words(request.id@);
    crate::protocol::lemma_operations_differ();
    lemma_snapshot_response(request.id@, old(state)@.snapshot);
}

/// `status` is answered with the fields of what is served, the number of its entries and the source
/// commit, and with nothing else. It changes nothing, and while the latch is set it says so.
pub proof fn law_status_request_is_served(
    state: &mut HelperState,
    request: HelperRequest,
    outcome: Outcome,
)
    requires
        call_ensures(crate::protocol::handle_request, (state, request), outcome),
        asks_for(request, "status"@),
    ensures
        outcome matches Outcome::Reply(value) && ({
            let tree = crate::json::json_tree(value);
            let served = old(state)@.snapshot;
            &&& has_fields(
                tree,
                set![
                    "v"@,
                    "id"@,
                    "ok"@,
                    "state"@,
                    "locked"@,
                    "synced"@,
                    "account"@,
                    "generation"@,
                    "count"@,
                    "commit"@,
                ],
            )
            &&& reports(tree, request.id@, true)
            &&& says(tree, "state"@, served.state)
            &&& flags(tree, "locked"@, served.locked)
            &&& flags(tree, "synced"@, served.synced)
            &&& says(tree, "account"@, served.account)
            &&& counts(tree, "generation"@, served.generation as int)
            &&& counts(tree, "count"@, served.entries.len() as int)
            &&& says(tree, "commit"@, old(state)@.source_commit)
            &&& old(state)@.manual_locked ==> flags(tree, "locked"@, true) && says(
                tree,
                "state"@,
                "locked"@,
            ) && counts(tree, "count"@, 0)
        }),
        final(state)@ == old(state)@,
{
    crate::laws::validation::lemma_words(request.id@);
    crate::protocol::lemma_operations_differ();
    lemma_names_differ();
    let tree = crate::protocol::status_tree(
        request.id@,
        old(state)@.snapshot,
        old(state)@.source_commit,
    );
    assert(tree->Object_0.dom() =~= set![
        "v"@,
        "id"@,
        "ok"@,
        "state"@,
        "locked"@,
        "synced"@,
        "account"@,
        "generation"@,
        "count"@,
        "commit"@,
    ]);
}

/// In the same state `status` and `snapshot` say the same under every name that both have, and
/// `status` counts the entries that `snapshot` lists.
pub proof fn law_status_agrees_with_snapshot(
    first: &mut HelperState,
    second: &mut HelperState,
    status: HelperRequest,
    snapshot: HelperRequest,
    status_outcome: Outcome,
    snapshot_outcome: Outcome,
    name: Seq<char>,
)
    requires
        old(first)@ == old(second)@,
        asks_for(status, "status"@),
        asks_for(snapshot, "snapshot"@),
        status.id@ == snapshot.id@,
        call_ensures(crate::protocol::handle_request, (first, status), status_outcome),
        call_ensures(crate::protocol::handle_request, (second, snapshot), snapshot_outcome),
    ensures
        ({
            let brief = crate::json::json_tree(status_outcome->Reply_0);
            let full = crate::json::json_tree(snapshot_outcome->Reply_0);
            &&& status_outcome is Reply
            &&& snapshot_outcome is Reply
            &&& field(brief, name) is Some && field(full, name) is Some ==> field(brief, name)
                == field(full, name)
            &&& field(full, "entries"@) matches Some(JsonTree::List(items)) && counts(
                brief,
                "count"@,
                items.len() as int,
            )
        }),
{
    law_status_request_is_served(first, status, status_outcome);
    law_snapshot_request_is_served(second, snapshot, snapshot_outcome);
    lemma_names_differ();
}

/// `lock` sets the latch, leaves no entry, starts a generation and keeps all else, and the response
/// says so.
pub proof fn law_lock_request_is_carried_out(
    state: &mut HelperState,
    request: HelperRequest,
    outcome: Outcome,
)
    requires
        call_ensures(crate::protocol::handle_request, (state, request), outcome),
        asks_for(request, "lock"@),
    ensures
        is_closed(final(state)@, old(state)@, "locked"@, true),
        is_latch_response(outcome, request.id@, final(state)@.snapshot, "locked"@, true),
{
    crate::laws::validation::lemma_words(request.id@);
    crate::protocol::lemma_operations_differ();
    lemma_latch_response(request.id@, old(state)@.locked().snapshot);
}

/// `unlock` releases the latch, leaves no entry, starts a generation and keeps all else, and the
/// response says so.
pub proof fn law_unlock_request_is_carried_out(
    state: &mut HelperState,
    request: HelperRequest,
    outcome: Outcome,
)
    requires
        call_ensures(crate::protocol::handle_request, (state, request), outcome),
        asks_for(request, "unlock"@),
    ensures
        is_closed(final(state)@, old(state)@, "unavailable"@, false),
        is_latch_response(outcome, request.id@, final(state)@.snapshot, "unavailable"@, false),
{
    crate::laws::validation::lemma_words(request.id@);
    crate::protocol::lemma_operations_differ();
    lemma_latch_response(request.id@, old(state)@.unlocked().snapshot);
}

/// Nothing of what was served before is left but what does not depend on the entries: they are gone,
/// the snapshot is in the state `text`, and a new generation has begun, unless there is none left.
pub open spec fn is_closed(
    after: StateModel,
    before: StateModel,
    text: Seq<char>,
    locked: bool,
) -> bool {
    &&& after.manual_locked == locked
    &&& after.snapshot.locked == locked
    &&& after.snapshot.state == text
    &&& after.snapshot.entries.len() == 0
    &&& before.snapshot.generation < 0xffff_ffff_ffff_ffff ==> after.snapshot.generation
        == before.snapshot.generation + 1
    &&& before.snapshot.generation == 0xffff_ffff_ffff_ffff ==> after.snapshot.generation
        == before.snapshot.generation
    &&& after.snapshot.synced == before.snapshot.synced
    &&& after.snapshot.account == before.snapshot.account
    &&& after.snapshot.now == before.snapshot.now
    &&& after.login_requested == before.login_requested
    &&& after.clipboard_generation == before.clipboard_generation
    &&& after.source_commit == before.source_commit
}

/// The response says where the snapshot stands, and nothing else.
pub open spec fn is_latch_response(
    outcome: Outcome,
    id: Seq<char>,
    snapshot: SnapshotModel,
    text: Seq<char>,
    locked: bool,
) -> bool {
    outcome matches Outcome::Reply(value) && ({
        let tree = crate::json::json_tree(value);
        &&& has_fields(tree, set!["v"@, "id"@, "ok"@, "state"@, "locked"@, "generation"@])
        &&& reports(tree, id, true)
        &&& says(tree, "state"@, text)
        &&& flags(tree, "locked"@, locked)
        &&& counts(tree, "generation"@, snapshot.generation as int)
    })
}

/// The tree of a response to `lock` and `unlock`.
proof fn lemma_latch_response(id: Seq<char>, snapshot: SnapshotModel)
    ensures
        ({
            let tree = crate::protocol::latch_tree(id, snapshot);
            &&& has_fields(tree, set!["v"@, "id"@, "ok"@, "state"@, "locked"@, "generation"@])
            &&& reports(tree, id, true)
            &&& says(tree, "state"@, snapshot.state)
            &&& flags(tree, "locked"@, snapshot.locked)
            &&& counts(tree, "generation"@, snapshot.generation as int)
        }),
{
    lemma_names_differ();
    let tree = crate::protocol::latch_tree(id, snapshot);
    assert(tree->Object_0.dom() =~= set!["v"@, "id"@, "ok"@, "state"@, "locked"@, "generation"@]);
}

/// `open` is answered with success, in any state, opens the entries and changes nothing.
pub proof fn law_open_request_opens_entries(
    state: &mut HelperState,
    request: HelperRequest,
    outcome: Outcome,
)
    requires
        call_ensures(crate::protocol::handle_request, (state, request), outcome),
        asks_for(request, "open"@),
    ensures
        outcome matches Outcome::Open(value, view) && ({
            let tree = crate::json::json_tree(value);
            &&& view is Manage
            &&& has_fields(tree, set!["v"@, "id"@, "ok"@])
            &&& reports(tree, request.id@, true)
        }),
        final(state)@ == old(state)@,
{
    crate::laws::validation::lemma_words(request.id@);
    crate::protocol::lemma_operations_differ();
    lemma_names_differ();
    let tree = crate::protocol::open_tree(request.id@);
    assert(tree->Object_0.dom() =~= set!["v"@, "id"@, "ok"@]);
}

/// The first entry with an identifier, found by its place.
proof fn lemma_first_entry_is_least(entries: Seq<EntryModel>, id: Seq<char>, index: int)
    requires
        0 <= index < entries.len(),
        entries[index].id == id,
        forall|i: int| 0 <= i < index ==> (#[trigger] entries[i]).id != id,
    ensures
        crate::protocol::first_entry(entries, id) == Some(entries[index]),
    decreases entries.len(),
{
    if index > 0 {
        let rest = entries.drop_first();
        assert(entries[0].id != id);
        assert forall|i: int| 0 <= i < index - 1 implies (#[trigger] rest[i]).id != id by {
            assert(entries[i + 1].id != id);
        }
        lemma_first_entry_is_least(rest, id, index - 1);
    }
}

/// Without an entry that has the identifier there is no first one.
proof fn lemma_no_first_entry(entries: Seq<EntryModel>, id: Seq<char>)
    requires
        forall|i: int| 0 <= i < entries.len() ==> (#[trigger] entries[i]).id != id,
    ensures
        crate::protocol::first_entry(entries, id) is None,
    decreases entries.len(),
{
    if entries.len() > 0 {
        let rest = entries.drop_first();
        assert(entries[0].id != id);
        assert forall|i: int| 0 <= i < rest.len() implies (#[trigger] rest[i]).id != id by {
            assert(entries[i + 1].id != id);
        }
        lemma_no_first_entry(rest, id);
    }
}

/// Codes may be copied: the snapshot is ready and not locked.
pub open spec fn is_ready(state: StateModel) -> bool {
    !state.snapshot.locked && state.snapshot.state == "ready"@
}

/// `copy` orders the code of the entry that it names to be copied; of several it is the one with the
/// least place. It changes nothing yet.
pub proof fn law_copy_request_orders_code(
    state: &mut HelperState,
    request: HelperRequest,
    outcome: Outcome,
    index: int,
)
    requires
        call_ensures(crate::protocol::handle_request, (state, request), outcome),
        asks_for(request, "copy"@),
        request.item_id is Some,
        crate::laws::validation::is_word(request.item_id->0@),
        is_ready(old(state)@),
        0 <= index < old(state)@.snapshot.entries.len(),
        old(state)@.snapshot.entries[index].id == request.item_id->0@,
        forall|i: int|
            0 <= i < index ==> (#[trigger] old(state)@.snapshot.entries[i]).id
                != request.item_id->0@,
    ensures
        outcome matches Outcome::Copy(order) && order.id@ == request.id@ && order.code@ == old(
            state,
        )@.snapshot.entries[index].code && order.generation == old(state)@.snapshot.generation,
        final(state)@ == old(state)@,
{
    crate::laws::validation::lemma_words(request.id@);
    crate::laws::validation::lemma_words(request.item_id->0@);
    crate::protocol::lemma_operations_differ();
    lemma_first_entry_is_least(old(state)@.snapshot.entries, request.item_id->0@, index);
}

/// `copy` is refused exactly where it names nothing, where codes may not be copied, and where no
/// entry has the name, and each is told apart. It changes nothing.
pub proof fn law_copy_request_is_refused(
    state: &mut HelperState,
    request: HelperRequest,
    outcome: Outcome,
)
    requires
        call_ensures(crate::protocol::handle_request, (state, request), outcome),
        asks_for(request, "copy"@),
    ensures
        ({
            let named = request.item_id is Some && crate::laws::validation::is_word(request.item_id->0@);
            let served = exists|i: int|
                0 <= i < old(state)@.snapshot.entries.len() && (
                #[trigger] old(state)@.snapshot.entries[i]).id == request.item_id->0@;
            &&& !named ==> is_refusal(outcome, request.id@, "invalid_item_id"@)
            &&& named && !is_ready(old(state)@) ==> is_refusal(outcome, request.id@, "locked"@)
            &&& named && is_ready(old(state)@) && !served ==> is_refusal(
                outcome,
                request.id@,
                "not_found"@,
            )
            &&& outcome is Copy <==> named && is_ready(old(state)@) && served
        }),
        final(state)@ == old(state)@,
{
    let entries = old(state)@.snapshot.entries;
    crate::laws::validation::lemma_words(request.id@);
    crate::protocol::lemma_operations_differ();
    lemma_refusal_is_told(request.id@, "invalid_item_id"@);
    lemma_refusal_is_told(request.id@, "locked"@);
    lemma_refusal_is_told(request.id@, "not_found"@);
    if request.item_id is Some {
        let item_id = request.item_id->0@;
        crate::laws::validation::lemma_words(item_id);
        if exists|i: int| 0 <= i < entries.len() && (#[trigger] entries[i]).id == item_id {
            lemma_some_first_entry(entries, item_id);
        } else {
            lemma_no_first_entry(entries, item_id);
        }
    }
}

/// With an entry that has the identifier there is a first one.
proof fn lemma_some_first_entry(entries: Seq<EntryModel>, id: Seq<char>)
    requires
        exists|i: int| 0 <= i < entries.len() && (#[trigger] entries[i]).id == id,
    ensures
        crate::protocol::first_entry(entries, id) is Some,
    decreases entries.len(),
{
    let i = choose|i: int| 0 <= i < entries.len() && (#[trigger] entries[i]).id == id;
    if entries[0].id != id {
        let rest = entries.drop_first();
        assert(rest[i - 1].id == id);
        lemma_some_first_entry(rest, id);
    }
}

/// What is said of a copy.
pub open spec fn is_copy_response(tree: JsonTree, order: CopyOrder, copied: bool) -> bool {
    if copied {
        &&& has_fields(tree, set!["v"@, "id"@, "ok"@, "copied"@, "generation"@])
        &&& reports(tree, order.id@, true)
        &&& flags(tree, "copied"@, true)
        &&& counts(tree, "generation"@, order.generation as int)
    } else {
        refuses_for(tree, order.id@, "clipboard_failed"@)
    }
}

/// The tree of a response to `copy`.
proof fn lemma_copy_response(order: CopyOrder, copied: bool)
    ensures
        is_copy_response(crate::protocol::copied_tree(order@, copied), order, copied),
{
    lemma_names_differ();
    lemma_refusal_is_told(order.id@, "clipboard_failed"@);
    let members = crate::protocol::copied_tree(order@, copied)->Object_0;
    if copied {
        assert(members.dom() =~= set!["v"@, "id"@, "ok"@, "copied"@, "generation"@]);
    }
}

/// A copy is answered by whether it was made.
pub proof fn law_copy_reply_tells_success(order: CopyOrder, copied: bool, response: Value)
    requires
        call_ensures(crate::protocol::copy_reply, (&order, copied), response),
    ensures
        is_copy_response(crate::json::json_tree(response), order, copied),
{
    lemma_copy_response(order, copied);
}

/// A copy that was made starts a clipboard generation, whose number is handed out, and one that was
/// not changes nothing. Nothing but the clipboard generation ever changes.
pub proof fn law_completed_copy_starts_generation(
    state: &mut HelperState,
    order: CopyOrder,
    copied: bool,
    completed: (Value, Option<u64>),
)
    requires
        call_ensures(crate::protocol::complete_copy, (state, &order, copied), completed),
    ensures
        is_copy_response(crate::json::json_tree(completed.0), order, copied),
        completed.1 is Some <==> copied,
        !copied ==> final(state)@ == old(state)@,
        copied && old(state)@.clipboard_generation < 0xffff_ffff_ffff_ffff ==> {
            &&& completed.1 == Some(final(state)@.clipboard_generation)
            &&& final(state)@.clipboard_generation == old(state)@.clipboard_generation + 1
        },
        copied && old(state)@.clipboard_generation == 0xffff_ffff_ffff_ffff ==> {
            &&& completed.1 == Some(0xffff_ffff_ffff_ffffu64)
            &&& final(state)@.clipboard_generation == 0
        },
        final(state)@.snapshot == old(state)@.snapshot,
        final(state)@.manual_locked == old(state)@.manual_locked,
        final(state)@.login_requested == old(state)@.login_requested,
        final(state)@.source_commit == old(state)@.source_commit,
{
    lemma_copy_response(order, copied);
}

/// Exactly the requests to lock and to unlock may change the snapshot.
pub proof fn law_lock_and_unlock_may_change_snapshot(request: HelperRequest, may: bool)
    requires
        call_ensures(crate::protocol::may_change_snapshot, (&request,), may),
    ensures
        may <==> seq!["lock"@, "unlock"@].contains(request.op@),
{
    let both = seq!["lock"@, "unlock"@];
    assert(both[0] == "lock"@ && both[1] == "unlock"@);
}

}
