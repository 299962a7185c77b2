//! How long the JSON texts of snapshots and responses can get.

use crate::json::JsonTree;
use crate::protocol::{CopyModel, OutcomeModel, RequestModel, MAX_REQUEST_BYTES};
use crate::snapshot::{EntryModel, SnapshotModel};
use crate::state::StateModel;
use vstd::prelude::*;

verus! {

/// The most bytes that one member can take, with its colon and its comma.
pub open spec fn member_size(name: Seq<char>, value: JsonTree) -> nat {
    crate::json::text_size(name) + crate::json::json_size(value) + 2
}

/// The most bytes that all members of an object can take.
pub open spec fn all_members_size(members: Map<Seq<char>, JsonTree>) -> nat {
    crate::json::members_size(members, members.dom())
}

/// Any name can be counted first.
proof fn lemma_name_counts_once(
    members: Map<Seq<char>, JsonTree>,
    names: Set<Seq<char>>,
    name: Seq<char>,
)
    requires
        members.dom().finite(),
        names.subset_of(members.dom()),
        names.finite(),
        names.contains(name),
    ensures
        crate::json::members_size(members, names) == member_size(name, members[name])
            + crate::json::members_size(members, names.remove(name)),
    decreases names.len(),
{
    let first = names.choose();
    assert(names.contains(first));
    if first != name {
        lemma_name_counts_once(members, names.remove(first), name);
        lemma_name_counts_once(members, names.remove(name), first);
        assert(names.remove(first).remove(name) =~= names.remove(name).remove(first));
    }
}

/// What is counted depends on the members that are counted alone.
proof fn lemma_same_members_same_size(
    left: Map<Seq<char>, JsonTree>,
    right: Map<Seq<char>, JsonTree>,
    names: Set<Seq<char>>,
)
    requires
        left.dom().finite(),
        right.dom().finite(),
        names.subset_of(left.dom()),
        names.subset_of(right.dom()),
        names.finite(),
        forall|name: Seq<char>| names.contains(name) ==> left[name] == right[name],
    ensures
        crate::json::members_size(left, names) == crate::json::members_size(right, names),
    decreases names.len(),
{
    if names.len() > 0 {
        assert(names.contains(names.choose()));
        lemma_same_members_same_size(left, right, names.remove(names.choose()));
    }
}

/// A member that is added, or takes the place of another, makes an object longer by no more than
/// itself.
pub(crate) proof fn lemma_member_added(
    members: Map<Seq<char>, JsonTree>,
    name: Seq<char>,
    value: JsonTree,
)
    requires
        members.dom().finite(),
    ensures
        members.insert(name, value).dom().finite(),
        all_members_size(members.insert(name, value)) <= all_members_size(members) + member_size(
            name,
            value,
        ),
{
    let longer = members.insert(name, value);
    let others = members.dom().remove(name);
    lemma_name_counts_once(longer, longer.dom(), name);
    assert(longer.dom().remove(name) =~= others);
    lemma_same_members_same_size(members, longer, others);
    if members.dom().contains(name) {
        lemma_name_counts_once(members, members.dom(), name);
    } else {
        assert(others =~= members.dom());
    }
}

/// An object without members takes no more than its braces.
pub(crate) proof fn lemma_no_members()
    ensures
        crate::json::no_members().dom().finite(),
        all_members_size(crate::json::no_members()) == 0,
{
}

/// How long the names of the members are: those that every response has are shorter than all the
/// others, and different.
pub(crate) proof fn lemma_member_names()
    ensures
        "v"@.len() == 1,
        "id"@.len() == 2,
        "ok"@.len() == 2,
        "ok"@ != "id"@,
        "now"@.len() == 3,
        "code"@.len() == 4,
        "name"@.len() == 4,
        "type"@.len() == 4,
        "count"@.len() == 5,
        "error"@.len() == 5,
        "state"@.len() == 5,
        "commit"@.len() == 6,
        "copied"@.len() == 6,
        "issuer"@.len() == 6,
        "locked"@.len() == 6,
        "period"@.len() == 6,
        "synced"@.len() == 6,
        "account"@.len() == 7,
        "entries"@.len() == 7,
        "nextCode"@.len() == 8,
        "generation"@.len() == 10,
        "validUntil"@.len() == 10,
{
    reveal_strlit("v");
    reveal_strlit("id");
    reveal_strlit("ok");
    assert("ok"@[0] != "id"@[0]);
    reveal_strlit("now");
    reveal_strlit("code");
    reveal_strlit("name");
    reveal_strlit("type");
    reveal_strlit("count");
    reveal_strlit("error");
    reveal_strlit("state");
    reveal_strlit("commit");
    reveal_strlit("copied");
    reveal_strlit("issuer");
    reveal_strlit("locked");
    reveal_strlit("period");
    reveal_strlit("synced");
    reveal_strlit("account");
    reveal_strlit("entries");
    reveal_strlit("nextCode");
    reveal_strlit("generation");
    reveal_strlit("validUntil");
}

/// The most bytes that an entry which meets the rules can take.
pub open spec fn entry_limit() -> nat {
    2_228
}

/// The most bytes that the members of a snapshot which meets the rules can take.
pub open spec fn snapshot_limit() -> nat {
    446_934
}

/// An entry that meets the rules is no longer than the limit for one.
proof fn lemma_valid_entry_fits(entry: EntryModel)
    requires
        entry.valid(),
    ensures
        crate::json::json_size(crate::snapshot::entry_tree(entry)) <= entry_limit(),
{
    lemma_member_names();
    reveal_strlit("Totp");
    reveal_strlit("Steam");
    crate::text::lemma_bytes_count_characters(entry.name);
    crate::text::lemma_bytes_count_characters(entry.issuer);
    let none = crate::json::no_members();
    let m1 = none.insert("id"@, JsonTree::Text(entry.id));
    let m2 = m1.insert("name"@, JsonTree::Text(entry.name));
    let m3 = m2.insert("issuer"@, JsonTree::Text(entry.issuer));
    let m4 = m3.insert("type"@, JsonTree::Text(entry.entry_type));
    let m5 = m4.insert("code"@, JsonTree::Text(entry.code));
    let m6 = m5.insert("nextCode"@, JsonTree::Text(entry.next_code));
    let m7 = m6.insert("period"@, JsonTree::Number(entry.period as int));
    lemma_no_members();
    lemma_member_added(none, "id"@, JsonTree::Text(entry.id));
    lemma_member_added(m1, "name"@, JsonTree::Text(entry.name));
    lemma_member_added(m2, "issuer"@, JsonTree::Text(entry.issuer));
    lemma_member_added(m3, "type"@, JsonTree::Text(entry.entry_type));
    lemma_member_added(m4, "code"@, JsonTree::Text(entry.code));
    lemma_member_added(m5, "nextCode"@, JsonTree::Text(entry.next_code));
    lemma_member_added(m6, "period"@, JsonTree::Number(entry.period as int));
    lemma_member_added(m7, "validUntil"@, JsonTree::Number(entry.valid_until as int));
}

/// Entries that meet the rules are together no longer than the limit for each of them.
proof fn lemma_valid_entries_fit(entries: Seq<EntryModel>)
    requires
        forall|i: int| 0 <= i < entries.len() ==> (#[trigger] entries[i]).valid(),
    ensures
        crate::json::items_size(
            entries.map_values(|entry: EntryModel| crate::snapshot::entry_tree(entry)),
        ) <= entries.len() * (entry_limit() + 1),
    decreases entries.len(),
{
    let trees = entries.map_values(|entry: EntryModel| crate::snapshot::entry_tree(entry));
    if entries.len() > 0 {
        let earlier = entries.drop_last();
        lemma_valid_entries_fit(earlier);
        lemma_valid_entry_fits(entries[entries.len() - 1]);
        assert(trees.drop_last() =~= earlier.map_values(
            |entry: EntryModel| crate::snapshot::entry_tree(entry),
        ));
        assert(entries.len() * (entry_limit() + 1) == earlier.len() * (entry_limit() + 1)
            + entry_limit() + 1) by (nonlinear_arith)
            requires
                entries.len() == earlier.len() + 1,
        ;
    }
}

/// How long the texts of a snapshot that meets the rules can be.
proof fn lemma_snapshot_texts(snapshot: SnapshotModel)
    requires
        snapshot.verdict() is Ok,
    ensures
        snapshot.state.len() <= 11,
        snapshot.account.len() <= 120,
{
    lemma_member_names();
    reveal_strlit("ready");
    reveal_strlit("needs_login");
    reveal_strlit("unavailable");
    crate::text::lemma_bytes_count_characters(snapshot.account);
}

/// The members of a snapshot that meets the rules are no longer than the limit for them.
pub(crate) proof fn lemma_valid_snapshot_fits(snapshot: SnapshotModel)
    requires
        snapshot.verdict() is Ok,
    ensures
        crate::snapshot::snapshot_members(snapshot).dom().finite(),
        all_members_size(crate::snapshot::snapshot_members(snapshot)) <= snapshot_limit(),
{
    lemma_member_names();
    lemma_snapshot_texts(snapshot);
    assert forall|i: int| 0 <= i < snapshot.entries.len() implies (
    #[trigger] snapshot.entries[i]).valid() by {}
    lemma_valid_entries_fit(snapshot.entries);
    let trees = snapshot.entries.map_values(
        |entry: EntryModel| crate::snapshot::entry_tree(entry),
    );
    assert(crate::json::items_size(trees) <= 445_800) by (nonlinear_arith)
        requires
            crate::json::items_size(trees) <= snapshot.entries.len() * (entry_limit() + 1),
            snapshot.entries.len() <= 200,
            entry_limit() == 2_228,
    ;
    let none = crate::json::no_members();
    let m1 = none.insert("state"@, JsonTree::Text(snapshot.state));
    let m2 = m1.insert("locked"@, JsonTree::Bool(snapshot.locked));
    let m3 = m2.insert("synced"@, JsonTree::Bool(snapshot.synced));
    let m4 = m3.insert("account"@, JsonTree::Text(snapshot.account));
    let m5 = m4.insert("generation"@, JsonTree::Number(snapshot.generation as int));
    let m6 = m5.insert("now"@, JsonTree::Number(snapshot.now as int));
    lemma_no_members();
    lemma_member_added(none, "state"@, JsonTree::Text(snapshot.state));
    lemma_member_added(m1, "locked"@, JsonTree::Bool(snapshot.locked));
    lemma_member_added(m2, "synced"@, JsonTree::Bool(snapshot.synced));
    lemma_member_added(m3, "account"@, JsonTree::Text(snapshot.account));
    lemma_member_added(m4, "generation"@, JsonTree::Number(snapshot.generation as int));
    lemma_member_added(m5, "now"@, JsonTree::Number(snapshot.now as int));
    lemma_member_added(m6, "entries"@, JsonTree::List(trees));
}

/// The most bytes that a response can take, if its identifier and the source commit are no longer
/// than a request may be.
pub open spec fn response_limit() -> nat {
    700_000
}

/// An envelope adds no more than the protocol version and the identifier.
proof fn lemma_envelope_fits(id: Seq<char>, members: Map<Seq<char>, JsonTree>)
    requires
        members.dom().finite(),
        id.len() <= MAX_REQUEST_BYTES,
        all_members_size(members) <= 600_000,
    ensures
        crate::json::json_size(crate::protocol::envelope_tree(id, JsonTree::Object(members)))
            <= response_limit(),
{
    lemma_member_names();
    let version = JsonTree::Number(crate::protocol::PROTOCOL_VERSION as int);
    lemma_member_added(members, "v"@, version);
    lemma_member_added(members.insert("v"@, version), "id"@, JsonTree::Text(id));
}

/// A refusal is no longer than a response may be.
proof fn lemma_refusal_fits(id: Seq<char>, reason: Seq<char>)
    requires
        id.len() <= MAX_REQUEST_BYTES,
        reason.len() <= 30,
    ensures
        crate::json::json_size(crate::protocol::refusal_tree(id, reason)) <= response_limit(),
{
    lemma_member_names();
    lemma_no_members();
    let none = crate::json::no_members();
    let m1 = none.insert("ok"@, JsonTree::Bool(false));
    lemma_member_added(none, "ok"@, JsonTree::Bool(false));
    lemma_member_added(m1, "error"@, JsonTree::Text(reason));
    lemma_envelope_fits(id, m1.insert("error"@, JsonTree::Text(reason)));
}

/// A response to `status` is no longer than a response may be.
proof fn lemma_status_fits(id: Seq<char>, snapshot: SnapshotModel, commit: Seq<char>)
    requires
        id.len() <= MAX_REQUEST_BYTES,
        commit.len() <= MAX_REQUEST_BYTES,
        snapshot.verdict() is Ok,
    ensures
        crate::json::json_size(crate::protocol::status_tree(id, snapshot, commit))
            <= response_limit(),
{
    lemma_member_names();
    lemma_no_members();
    lemma_snapshot_texts(snapshot);
    let count = JsonTree::Number(snapshot.entries.len() as int);
    let none = crate::json::no_members();
    let m1 = none.insert("ok"@, JsonTree::Bool(true));
    let m2 = m1.insert("state"@, JsonTree::Text(snapshot.state));
    let m3 = m2.insert("locked"@, JsonTree::Bool(snapshot.locked));
    let m4 = m3.insert("synced"@, JsonTree::Bool(snapshot.synced));
    let m5 = m4.insert("account"@, JsonTree::Text(snapshot.account));
    let m6 = m5.insert("generation"@, JsonTree::Number(snapshot.generation as int));
    let m7 = m6.insert("count"@, count);
    lemma_member_added(none, "ok"@, JsonTree::Bool(true));
    lemma_member_added(m1, "state"@, JsonTree::Text(snapshot.state));
    lemma_member_added(m2, "locked"@, JsonTree::Bool(snapshot.locked));
    lemma_member_added(m3, "synced"@, JsonTree::Bool(snapshot.synced));
    lemma_member_added(m4, "account"@, JsonTree::Text(snapshot.account));
    lemma_member_added(m5, "generation"@, JsonTree::Number(snapshot.generation as int));
    lemma_member_added(m6, "count"@, count);
    lemma_member_added(m7, "commit"@, JsonTree::Text(commit));
    lemma_envelope_fits(id, m7.insert("commit"@, JsonTree::Text(commit)));
}

/// A response to `lock` or `unlock` is no longer than a response may be.
proof fn lemma_latch_fits(id: Seq<char>, snapshot: SnapshotModel)
    requires
        id.len() <= MAX_REQUEST_BYTES,
        snapshot.verdict() is Ok,
    ensures
        crate::json::json_size(crate::protocol::latch_tree(id, snapshot)) <= response_limit(),
{
    lemma_member_names();
    lemma_no_members();
    lemma_snapshot_texts(snapshot);
    let generation = JsonTree::Number(snapshot.generation as int);
    let none = crate::json::no_members();
    let m1 = none.insert("ok"@, JsonTree::Bool(true));
    let m2 = m1.insert("state"@, JsonTree::Text(snapshot.state));
    let m3 = m2.insert("locked"@, JsonTree::Bool(snapshot.locked));
    lemma_member_added(none, "ok"@, JsonTree::Bool(true));
    lemma_member_added(m1, "state"@, JsonTree::Text(snapshot.state));
    lemma_member_added(m2, "locked"@, JsonTree::Bool(snapshot.locked));
    lemma_member_added(m3, "generation"@, generation);
    lemma_envelope_fits(id, m3.insert("generation"@, generation));
}

/// The response to a request, if it is to be sent at once, is no longer than a response may be.
pub(crate) proof fn lemma_answer_fits(state: StateModel, request: RequestModel)
    requires
        state.wf(),
        crate::frame::modest(state, request),
    ensures
        match crate::protocol::answer(state, request) {
            OutcomeModel::Reply(tree) => crate::json::json_size(tree) <= response_limit(),
            OutcomeModel::Copy(_) => true,
            OutcomeModel::Open(tree, _) => crate::json::json_size(tree) <= response_limit(),
        },
{
    let id = request.id;
    reveal_strlit("invalid_request");
    reveal_strlit("invalid_item_id");
    reveal_strlit("not_found");
    reveal_strlit("unsupported_operation");
    lemma_member_names();
    lemma_refusal_fits(id, "invalid_request"@);
    lemma_refusal_fits(id, "invalid_item_id"@);
    lemma_refusal_fits(id, "locked"@);
    lemma_refusal_fits(id, "not_found"@);
    lemma_refusal_fits(id, "unsupported_operation"@);
    lemma_status_fits(id, state.snapshot, state.source_commit);
    let served = crate::snapshot::snapshot_members(state.snapshot);
    lemma_valid_snapshot_fits(state.snapshot);
    lemma_member_added(served, "ok"@, JsonTree::Bool(true));
    lemma_envelope_fits(id, served.insert("ok"@, JsonTree::Bool(true)));
    crate::laws::law_history_keeps_state_well_formed(
        state,
        seq![crate::laws::Happening::Request(request)],
    );
    let after = crate::protocol::state_after(state, request);
    assert(seq![crate::laws::Happening::Request(request)].drop_last() =~= Seq::empty());
    lemma_latch_fits(id, after.snapshot);
    let none = crate::json::no_members();
    lemma_no_members();
    lemma_member_added(none, "ok"@, JsonTree::Bool(true));
    lemma_envelope_fits(id, none.insert("ok"@, JsonTree::Bool(true)));
}

/// The response to `copy`, once the code was copied or could not be, is no longer than a response
/// may be.
pub(crate) proof fn lemma_copied_fits(order: CopyModel, copied: bool)
    requires
        order.id.len() <= MAX_REQUEST_BYTES,
    ensures
        crate::json::json_size(crate::protocol::copied_tree(order, copied)) <= response_limit(),
{
    reveal_strlit("clipboard_failed");
    lemma_refusal_fits(order.id, "clipboard_failed"@);
    lemma_member_names();
    lemma_no_members();
    let generation = JsonTree::Number(order.generation as int);
    let none = crate::json::no_members();
    let m1 = none.insert("ok"@, JsonTree::Bool(true));
    let m2 = m1.insert("copied"@, JsonTree::Bool(true));
    lemma_member_added(none, "ok"@, JsonTree::Bool(true));
    lemma_member_added(m1, "copied"@, JsonTree::Bool(true));
    lemma_member_added(m2, "generation"@, generation);
    lemma_envelope_fits(order.id, m2.insert("generation"@, generation));
}

}
