//! What holds of the helper as a whole, over every history of what is published to it and asked of
//! it.

use crate::json::JsonTree;
use crate::protocol::{CopyModel, OutcomeModel, RequestModel};
use crate::snapshot::{EntryModel, SnapshotModel};
use crate::state::StateModel;
use vstd::prelude::*;

pub mod answers;
pub mod builds;
pub mod changes;
pub mod lines;
pub mod program;
pub mod validation;

verus! {

/// Something that happens to the helper.
pub enum Happening {
    /// A snapshot is published.
    Publish(SnapshotModel),
    /// A client sends a request.
    Request(RequestModel),
    /// A code was copied, or could not be.
    CopyCompleted(bool),
    /// A sign-in is asked for.
    LoginRequested,
    /// The sign-in request is taken up.
    LoginTaken,
}

/// The state after something happened.
pub open spec fn after(state: StateModel, happening: Happening) -> StateModel {
    match happening {
        Happening::Publish(snapshot) => state.published(snapshot),
        Happening::Request(request) => crate::protocol::state_after(state, request),
        Happening::CopyCompleted(copied) => crate::protocol::state_after_copy(state, copied),
        Happening::LoginRequested => StateModel { login_requested: true, ..state },
        Happening::LoginTaken => StateModel { login_requested: false, ..state },
    }
}

/// The state after a history.
pub open spec fn after_all(state: StateModel, history: Seq<Happening>) -> StateModel
    decreases history.len(),
{
    if history.len() == 0 {
        state
    } else {
        after(after_all(state, history.drop_last()), history.last())
    }
}

/// A request to unlock that is carried out.
pub open spec fn unlocks(happening: Happening) -> bool {
    happening matches Happening::Request(request) && request.well_formed() && request.op
        == "unlock"@
}

/// The members of a JSON object.
pub open spec fn members(tree: JsonTree) -> Map<Seq<char>, JsonTree> {
    match tree {
        JsonTree::Object(members) => members,
        _ => crate::json::no_members(),
    }
}

/// A response that says that the request was refused.
pub open spec fn refuses(tree: JsonTree) -> bool {
    members(tree).contains_key("ok"@) && members(tree)["ok"@] == JsonTree::Bool(false)
}

/// Whatever happens, the snapshot that is served meets the rules for one, and while the latch is set
/// it is locked and has no entries.
pub proof fn law_history_keeps_state_well_formed(state: StateModel, history: Seq<Happening>)
    requires
        state.wf(),
    ensures
        after_all(state, history).wf(),
    decreases history.len(),
{
    if history.len() > 0 {
        let before = after_all(state, history.drop_last());
        law_history_keeps_state_well_formed(state, history.drop_last());
        if let Happening::Publish(snapshot) = history.last() {
            assert(before.stamped(snapshot).verdict() == snapshot.verdict());
        }
    }
}

/// A new helper is in a well-formed state.
pub proof fn law_fresh_state_is_well_formed(login_requested: bool)
    ensures
        StateModel::fresh(login_requested).wf(),
{
}

/// Once it is set, the manual lock latch stays set until a client asks for it to be released:
/// nothing else that happens releases it.
pub proof fn law_latch_holds_until_unlock(state: StateModel, history: Seq<Happening>)
    requires
        state.manual_locked,
        forall|i: int| 0 <= i < history.len() ==> !unlocks(#[trigger] history[i]),
    ensures
        after_all(state, history).manual_locked,
    decreases history.len(),
{
    if history.len() > 0 {
        let earlier = history.drop_last();
        assert forall|i: int| 0 <= i < earlier.len() implies !unlocks(#[trigger] earlier[i]) by {
            assert(earlier[i] == history[i]);
        }
        law_latch_holds_until_unlock(state, earlier);
        assert(!unlocks(history[history.len() - 1]));
    }
}

/// A request to lock that is carried out.
pub open spec fn locks(happening: Happening) -> bool {
    happening matches Happening::Request(request) && request.well_formed() && request.op == "lock"@
}

/// The manual lock latch is set only where a client asks for it.
pub proof fn law_only_lock_sets_latch(state: StateModel, history: Seq<Happening>)
    requires
        !state.manual_locked,
        forall|i: int| 0 <= i < history.len() ==> !locks(#[trigger] history[i]),
    ensures
        !after_all(state, history).manual_locked,
    decreases history.len(),
{
    if history.len() > 0 {
        let earlier = history.drop_last();
        assert forall|i: int| 0 <= i < earlier.len() implies !locks(#[trigger] earlier[i]) by {
            assert(earlier[i] == history[i]);
        }
        law_only_lock_sets_latch(state, earlier);
        assert(!locks(history[history.len() - 1]));
    }
}

/// Publishing answers what the rules for a snapshot say of it, whatever the state, and a snapshot
/// that meets the rules is never too large.
pub proof fn law_publication_answers_as_validation(state: StateModel, snapshot: SnapshotModel)
    ensures
        state.publish_verdict(snapshot) == snapshot.verdict(),
        snapshot.verdict() is Ok ==> crate::json::json_size(
            JsonTree::Object(crate::snapshot::snapshot_members(state.stamped(snapshot))),
        ) <= crate::state::MAX_RESPONSE_BYTES,
{
    if snapshot.verdict() is Ok {
        assert(state.stamped(snapshot).verdict() == snapshot.verdict());
        crate::size::lemma_valid_snapshot_fits(state.stamped(snapshot));
    }
}

/// After an unlock the next snapshot that is published and meets the rules is taken over.
pub proof fn law_publication_after_unlock_takes_effect(state: StateModel, snapshot: SnapshotModel)
    requires
        snapshot.verdict() is Ok,
    ensures
        state.unlocked().publish_verdict(snapshot) is Ok,
        state.unlocked().published(snapshot).snapshot == state.unlocked().stamped(snapshot),
{
}

/// While the latch is set a publication changes nothing, whether it is accepted or not.
pub proof fn law_latched_state_ignores_publications(state: StateModel, snapshot: SnapshotModel)
    requires
        state.manual_locked,
    ensures
        state.published(snapshot) == state,
        state.publish_verdict(snapshot) == snapshot.verdict(),
{
}

/// While the latch is set no code is handed out: no entry is served, and no request is answered
/// with an order to copy one.
pub proof fn law_latched_state_hands_out_no_code(state: StateModel, request: RequestModel)
    requires
        state.wf(),
        state.manual_locked,
    ensures
        state.snapshot.entries.len() == 0,
        !(crate::protocol::answer(state, request) is Copy),
{
}

/// After a lock no code is handed out, whatever happens, until a client asks for the latch to be
/// released: no entry is served, and no request is answered with an order to copy one.
pub proof fn law_no_code_between_lock_and_unlock(
    state: StateModel,
    history: Seq<Happening>,
    request: RequestModel,
)
    requires
        state.wf(),
        forall|i: int| 0 <= i < history.len() ==> !unlocks(#[trigger] history[i]),
    ensures
        after_all(state.locked(), history).snapshot.entries.len() == 0,
        after_all(state.locked(), history).snapshot.locked,
        !(crate::protocol::answer(after_all(state.locked(), history), request) is Copy),
{
    law_history_keeps_state_well_formed(state.locked(), history);
    law_latch_holds_until_unlock(state.locked(), history);
    law_latched_state_hands_out_no_code(after_all(state.locked(), history), request);
}

/// A lock leaves no entry, sets the latch and is undone only as far as the latch goes by an unlock,
/// after which there is still no entry until one is published.
pub proof fn law_lock_and_unlock_leave_no_entries(state: StateModel)
    ensures
        state.locked().manual_locked,
        state.locked().snapshot.entries.len() == 0,
        !state.locked().unlocked().manual_locked,
        state.locked().unlocked().snapshot.entries.len() == 0,
        !state.locked().unlocked().snapshot.locked,
{
}

/// The generation of the snapshot never goes back.
pub proof fn law_generation_never_goes_back(state: StateModel, history: Seq<Happening>)
    ensures
        after_all(state, history).snapshot.generation >= state.snapshot.generation,
    decreases history.len(),
{
    if history.len() > 0 {
        law_generation_never_goes_back(state, history.drop_last());
    }
}

/// A lock and an unlock each start the next generation, and so does a publication that is taken
/// over, unless it comes with a later one; only the last generation stays.
pub proof fn law_changes_start_a_generation(state: StateModel, snapshot: SnapshotModel)
    requires
        state.snapshot.generation < u64::MAX,
    ensures
        state.locked().snapshot.generation == state.snapshot.generation + 1,
        state.unlocked().snapshot.generation == state.snapshot.generation + 1,
        !state.manual_locked && state.publish_verdict(snapshot) is Ok ==> state.published(
            snapshot,
        ).snapshot.generation == if snapshot.generation > state.snapshot.generation {
            snapshot.generation as int
        } else {
            state.snapshot.generation + 1
        },
{
}

/// As long as the generation has not reached its last value, two snapshots of the same generation
/// are the same: a client that sees the generation it knows has missed nothing.
pub proof fn law_generation_tells_snapshots_apart(state: StateModel, history: Seq<Happening>)
    requires
        after_all(state, history).snapshot.generation == state.snapshot.generation,
        state.snapshot.generation < u64::MAX,
    ensures
        after_all(state, history).snapshot == state.snapshot,
    decreases history.len(),
{
    if history.len() > 0 {
        let before = after_all(state, history.drop_last());
        law_generation_never_goes_back(state, history.drop_last());
        lemma_change_advances_generation(before, history.last());
        if before.snapshot.generation == state.snapshot.generation {
            law_generation_tells_snapshots_apart(state, history.drop_last());
        }
    }
}

/// What changes the snapshot advances its generation, up to the last one.
proof fn lemma_change_advances_generation(state: StateModel, happening: Happening)
    requires
        state.snapshot.generation < u64::MAX,
    ensures
        after(state, happening).snapshot.generation >= state.snapshot.generation,
        after(state, happening).snapshot != state.snapshot ==> after(
            state,
            happening,
        ).snapshot.generation > state.snapshot.generation,
{
}

/// What is published and accepted while the latch is not set is what a client then reads, in the
/// generation that it was given.
pub proof fn law_snapshot_reads_back_publication(
    state: StateModel,
    snapshot: SnapshotModel,
    request: RequestModel,
)
    requires
        !state.manual_locked,
        state.publish_verdict(snapshot) is Ok,
        request.well_formed(),
        request.op == "snapshot"@,
    ensures
        crate::protocol::answer(state.published(snapshot), request) == OutcomeModel::Reply(
            crate::protocol::snapshot_tree(
                request.id,
                SnapshotModel {
                    generation: state.stamped(snapshot).generation,
                    ..snapshot
                },
            ),
        ),
        state.stamped(snapshot).generation >= snapshot.generation,
{
    crate::protocol::lemma_operations_differ();
}

/// A snapshot that is refused changes nothing.
pub proof fn law_refused_publication_changes_nothing(state: StateModel, snapshot: SnapshotModel)
    requires
        state.publish_verdict(snapshot) is Err,
    ensures
        state.published(snapshot) == state,
{
}

/// Every response carries the protocol version and the identifier of the request.
pub proof fn law_response_echoes_request(state: StateModel, request: RequestModel)
    ensures
        match crate::protocol::answer(state, request) {
            OutcomeModel::Reply(tree) => echoes(tree, request.id),
            OutcomeModel::Copy(order) => forall|copied: bool|
                echoes(#[trigger] crate::protocol::copied_tree(order, copied), request.id),
            OutcomeModel::Open(tree, _) => echoes(tree, request.id),
        },
{
    crate::size::lemma_member_names();
}

/// A response with the protocol version and the identifier `id`.
pub open spec fn echoes(tree: JsonTree, id: Seq<char>) -> bool {
    &&& tree is Object
    &&& members(tree).contains_key("v"@)
    &&& members(tree)["v"@] == JsonTree::Number(crate::protocol::PROTOCOL_VERSION as int)
    &&& members(tree).contains_key("id"@)
    &&& members(tree)["id"@] == JsonTree::Text(id)
}

/// A request that is refused changes nothing.
pub proof fn law_refused_request_changes_nothing(state: StateModel, request: RequestModel)
    requires
        crate::protocol::answer(state, request) matches OutcomeModel::Reply(tree) && refuses(tree),
    ensures
        crate::protocol::state_after(state, request) == state,
{
    crate::size::lemma_member_names();
    crate::protocol::lemma_operations_differ();
}

/// `status` says nothing of the entries but how many there are.
pub proof fn law_status_hides_entries(
    id: Seq<char>,
    snapshot: SnapshotModel,
    commit: Seq<char>,
    entries: Seq<EntryModel>,
)
    requires
        entries.len() == snapshot.entries.len(),
    ensures
        crate::protocol::status_tree(id, SnapshotModel { entries, ..snapshot }, commit)
            == crate::protocol::status_tree(id, snapshot, commit),
{
}

/// Whatever happens, `status` reports the source commit that the program was built from.
pub proof fn law_status_reports_source_commit(
    state: StateModel,
    history: Seq<Happening>,
    request: RequestModel,
)
    requires
        request.well_formed(),
        request.op == "status"@,
    ensures
        after_all(state, history).source_commit == state.source_commit,
        crate::protocol::answer(after_all(state, history), request) matches OutcomeModel::Reply(tree)
            && members(tree).contains_key("commit"@) && members(tree)["commit"@] == JsonTree::Text(
            state.source_commit,
        ),
    decreases history.len(),
{
    crate::size::lemma_member_names();
    if history.len() > 0 {
        law_status_reports_source_commit(state, history.drop_last(), request);
    }
}

/// `open` is answered with success, even while the latch is set, and neither it nor the showing of
/// the window that follows changes what is served or releases the latch.
pub proof fn law_open_keeps_latch(
    state: StateModel,
    request: RequestModel,
    login_window_open: bool,
)
    requires
        request.well_formed(),
        request.op == "open"@,
    ensures
        crate::protocol::state_after(state, request) == state,
        crate::protocol::answer(state, request) matches OutcomeModel::Open(tree, view) && {
            &&& members(tree).contains_key("ok"@)
            &&& members(tree)["ok"@] == JsonTree::Bool(true)
            &&& crate::window::surfaced(state, view, login_window_open).manual_locked
                == state.manual_locked
            &&& crate::window::surfaced(state, view, login_window_open).snapshot == state.snapshot
        },
{
    crate::size::lemma_member_names();
    crate::protocol::lemma_operations_differ();
}

/// A request that does not change the snapshot changes nothing at all.
pub proof fn law_only_lock_and_unlock_change_state(state: StateModel, request: RequestModel)
    requires
        !request.changes_snapshot(),
    ensures
        crate::protocol::state_after(state, request) == state,
{
}

/// The first entry with an identifier is one of the entries, and has that identifier.
proof fn lemma_first_entry_is_served(entries: Seq<EntryModel>, id: Seq<char>)
    ensures
        crate::protocol::first_entry(entries, id) matches Some(entry) ==> entries.contains(entry)
            && entry.id == id,
    decreases entries.len(),
{
    if entries.len() > 0 {
        if entries.first().id == id {
            assert(entries[0] == entries.first());
        } else {
            let rest = entries.drop_first();
            lemma_first_entry_is_served(rest, id);
            if let Some(entry) = crate::protocol::first_entry(rest, id) {
                let i = choose|i: int| 0 <= i < rest.len() && rest[i] == entry;
                assert(entries[i + 1] == entry);
            }
        }
    }
}

/// A code that is copied is that of an entry which is being served, unlocked and ready, and which
/// the request names.
pub proof fn law_copied_code_is_served(state: StateModel, request: RequestModel, order: CopyModel)
    requires
        crate::protocol::answer(state, request) == OutcomeModel::Copy(order),
    ensures
        request.well_formed(),
        request.item_id is Some,
        !state.snapshot.locked,
        state.snapshot.state == "ready"@,
        order.id == request.id,
        order.generation == state.snapshot.generation,
        exists|i: int|
            0 <= i < state.snapshot.entries.len() && (#[trigger] state.snapshot.entries[i]).id
                == request.item_id->0 && state.snapshot.entries[i].code == order.code,
{
    lemma_first_entry_is_served(state.snapshot.entries, request.item_id->0);
}

/// A sign-in request is taken up once: whoever comes next finds none, until one is made again.
pub proof fn law_login_request_is_taken_once(state: StateModel)
    ensures
        !after(state, Happening::LoginTaken).login_requested,
        after(after(state, Happening::LoginTaken), Happening::LoginRequested).login_requested,
{
}

/// How many codes were copied in a history.
pub open spec fn copies(history: Seq<Happening>) -> nat
    decreases history.len(),
{
    if history.len() == 0 {
        0
    } else {
        copies(history.drop_last()) + if history.last() == Happening::CopyCompleted(true) {
            1nat
        } else {
            0nat
        }
    }
}

/// The clipboard generation counts the copies, going round after the last number.
pub proof fn law_clipboard_generation_counts_copies(state: StateModel, history: Seq<Happening>)
    ensures
        after_all(state, history).clipboard_generation == (state.clipboard_generation + copies(
            history,
        )) % 0x1_0000_0000_0000_0000,
    decreases history.len(),
{
    if history.len() > 0 {
        law_clipboard_generation_counts_copies(state, history.drop_last());
    }
}

/// A copied code's life is renewed by the next copy: the expiry of the earlier one finds a later
/// clipboard generation and leaves the clipboard alone, whatever that holds. (The generations go
/// round only after all the numbers are used up.)
pub proof fn law_later_copy_keeps_clipboard(
    state: StateModel,
    history: Seq<Happening>,
    code: Seq<u8>,
    contents: Option<Seq<u8>>,
)
    requires
        0 < copies(history) <= u64::MAX,
    ensures
        !crate::clipboard::clears_clipboard(
            after_all(state, history).clipboard_generation,
            state.clipboard_generation,
            code,
            contents,
        ),
{
    law_clipboard_generation_counts_copies(state, history);
}

/// The number that a copy is given is that of the current clipboard generation, up to the last
/// number.
pub proof fn law_copy_is_current(state: StateModel)
    requires
        state.clipboard_generation < u64::MAX,
    ensures
        crate::protocol::state_after_copy(state, true).clipboard_generation
            == crate::state::generation_after(state.clipboard_generation),
{
}

/// The response to `snapshot` holds every member of the snapshot as it is.
pub proof fn law_snapshot_response_holds_snapshot(
    id: Seq<char>,
    snapshot: SnapshotModel,
    name: Seq<char>,
)
    requires
        crate::snapshot::snapshot_members(snapshot).contains_key(name),
    ensures
        members(crate::protocol::snapshot_tree(id, snapshot)).contains_key(name),
        members(crate::protocol::snapshot_tree(id, snapshot))[name]
            == crate::snapshot::snapshot_members(snapshot)[name],
{
    crate::size::lemma_member_names();
    assert(name.len() >= 3);
}

}
