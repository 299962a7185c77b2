//! What each operation on the state changes, and what it leaves alone.

use crate::laws::Happening;
use crate::snapshot::{HelperSnapshot, SnapshotModel};
use crate::state::{HelperState, StateModel};
use vstd::prelude::*;

verus! {

/// The two states differ in nothing but the snapshot.
pub open spec fn differs_in_snapshot(after: StateModel, before: StateModel) -> bool {
    &&& after.manual_locked == before.manual_locked
    &&& after.login_requested == before.login_requested
    &&& after.clipboard_generation == before.clipboard_generation
    &&& after.source_commit == before.source_commit
}

/// Nothing is known of the authenticator yet.
pub open spec fn is_blank(snapshot: SnapshotModel) -> bool {
    &&& snapshot.state == "unavailable"@
    &&& !snapshot.locked
    &&& !snapshot.synced
    &&& snapshot.account.len() == 0
    &&& snapshot.generation == 0
    &&& snapshot.now == 0
    &&& snapshot.entries.len() == 0
}

/// A new helper serves nothing, is not latched, has copied nothing, does not know its commit, and
/// asks for a sign-in exactly if it is made to.
pub proof fn law_new_state_is_blank(
    login_requested: bool,
    made: HelperState,
    default: HelperState,
    snapshot: HelperSnapshot,
)
    requires
        call_ensures(HelperState::with_login_requested, (login_requested,), made),
        call_ensures(HelperState::default, (), default),
        call_ensures(HelperSnapshot::default, (), snapshot),
    ensures
        is_blank(made@.snapshot),
        is_blank(snapshot@),
        !made@.manual_locked,
        made@.login_requested == login_requested,
        made@.clipboard_generation == 0,
        made@.source_commit == "unknown"@,
        !login_requested ==> default@ == made@,
        !default@.login_requested,
{
}

/// The source commit can be set, and nothing else changes.
pub proof fn law_source_commit_is_set(state: HelperState, commit: &str, made: HelperState)
    requires
        call_ensures(HelperState::with_source_commit, (state, commit), made),
    ensures
        made@.source_commit == commit@,
        made@.snapshot == state@.snapshot,
        made@.manual_locked == state@.manual_locked,
        made@.login_requested == state@.login_requested,
        made@.clipboard_generation == state@.clipboard_generation,
{
}

/// What can be read of the state is what it says, and while the latch is set no entry is there to be
/// read.
pub proof fn law_state_reads_as_it_is(
    state: HelperState,
    snapshot: &HelperSnapshot,
    latched: bool,
    commit: &str,
    generation: u64,
    current: bool,
)
    requires
        call_ensures(HelperState::snapshot, (&state,), snapshot),
        call_ensures(HelperState::latched, (&state,), latched),
        call_ensures(HelperState::source_commit, (&state,), commit),
        call_ensures(HelperState::is_current_clipboard_generation, (&state, generation), current),
    ensures
        snapshot@ == state@.snapshot,
        latched <==> state@.manual_locked,
        commit@ == state@.source_commit,
        current <==> state@.clipboard_generation == generation,
        latched ==> snapshot.locked && snapshot.entries@.len() == 0 && snapshot.state@ == "locked"@,
{
}

/// A sign-in request is found exactly once, however often it was made, and nothing else changes.
pub proof fn law_login_request_is_found_once(
    asking: &mut HelperState,
    taking: &mut HelperState,
    again: &mut HelperState,
    unit: (),
    taken: bool,
    taken_again: bool,
)
    requires
        call_ensures(HelperState::request_login, (asking,), unit),
        old(taking)@ == final(asking)@,
        call_ensures(HelperState::take_login_request, (taking,), taken),
        old(again)@ == final(taking)@,
        call_ensures(HelperState::take_login_request, (again,), taken_again),
    ensures
        taken,
        !taken_again,
        final(again)@.snapshot == old(asking)@.snapshot,
        final(again)@.manual_locked == old(asking)@.manual_locked,
        final(again)@.clipboard_generation == old(asking)@.clipboard_generation,
        final(again)@.source_commit == old(asking)@.source_commit,
        final(asking)@.snapshot == old(asking)@.snapshot,
        final(asking)@.manual_locked == old(asking)@.manual_locked,
{
}

/// A sign-in request that was not made is not found.
pub proof fn law_login_request_is_not_made_up(taking: &mut HelperState, taken: bool)
    requires
        call_ensures(HelperState::take_login_request, (taking,), taken),
    ensures
        taken <==> old(taking)@.login_requested,
        !final(taking)@.login_requested,
        final(taking)@.snapshot == old(taking)@.snapshot,
        final(taking)@.manual_locked == old(taking)@.manual_locked,
        final(taking)@.clipboard_generation == old(taking)@.clipboard_generation,
        final(taking)@.source_commit == old(taking)@.source_commit,
{
}

/// A new clipboard generation is the current one and ends the one before, as long as there are
/// numbers left, and nothing else changes.
pub proof fn law_clipboard_generation_is_renewed(
    state: &mut HelperState,
    after: HelperState,
    generation: u64,
    current: bool,
    earlier: bool,
)
    requires
        call_ensures(HelperState::next_clipboard_generation, (state,), generation),
        after@ == final(state)@,
        call_ensures(HelperState::is_current_clipboard_generation, (&after, generation), current),
        call_ensures(
            HelperState::is_current_clipboard_generation,
            (&after, old(state)@.clipboard_generation),
            earlier,
        ),
    ensures
        old(state)@.clipboard_generation < 0xffff_ffff_ffff_ffff ==> generation == old(
            state,
        )@.clipboard_generation + 1 && current,
        old(state)@.clipboard_generation == 0xffff_ffff_ffff_ffff ==> generation == old(
            state,
        )@.clipboard_generation && final(state)@.clipboard_generation == 0,
        !earlier,
        final(state)@.snapshot == old(state)@.snapshot,
        final(state)@.manual_locked == old(state)@.manual_locked,
        final(state)@.login_requested == old(state)@.login_requested,
        final(state)@.source_commit == old(state)@.source_commit,
{
}

/// A lock and an unlock do to the state what a client's requests for them do.
pub proof fn law_lock_and_unlock_close_snapshot(
    locking: &mut HelperState,
    unlocking: &mut HelperState,
    unit: (),
)
    requires
        call_ensures(HelperState::lock, (locking,), unit),
        call_ensures(HelperState::unlock, (unlocking,), unit),
    ensures
        crate::laws::answers::is_closed(final(locking)@, old(locking)@, "locked"@, true),
        crate::laws::answers::is_closed(final(unlocking)@, old(unlocking)@, "unavailable"@, false),
{
}

/// A snapshot that is accepted while the latch is not set is served from then on as it is, in its own
/// generation if that is later than the one before, and otherwise in the next. A snapshot that is
/// refused, or comes while the latch is set, changes nothing. Nothing but the snapshot ever changes.
pub proof fn law_accepted_snapshot_is_served(
    state: &mut HelperState,
    snapshot: HelperSnapshot,
    verdict: Result<(), String>,
)
    requires
        call_ensures(HelperState::publish, (state, snapshot), verdict),
    ensures
        differs_in_snapshot(final(state)@, old(state)@),
        verdict is Err || old(state)@.manual_locked ==> final(state)@ == old(state)@,
        verdict is Ok && !old(state)@.manual_locked ==> {
            let served = final(state)@.snapshot;
            let before = old(state)@.snapshot.generation;
            &&& served.state == snapshot.state@
            &&& served.locked == snapshot.locked
            &&& served.synced == snapshot.synced
            &&& served.account == snapshot.account@
            &&& served.now == snapshot.now
            &&& served.entries.len() == snapshot.entries@.len()
            &&& forall|i: int|
                0 <= i < served.entries.len() ==> #[trigger] served.entries[i]
                    == snapshot.entries@[i]@
            &&& snapshot.generation > before ==> served.generation == snapshot.generation
            &&& snapshot.generation <= before && before < 0xffff_ffff_ffff_ffff
                ==> served.generation == before + 1
            &&& before == 0xffff_ffff_ffff_ffff ==> served.generation == before
        },
{
}

/// An encoded snapshot can be served exactly if it is there and takes at most a mebibyte.
pub proof fn law_encodings_up_to_a_mebibyte_are_served(
    encoded: Option<Vec<u8>>,
    verdict: Result<(), String>,
)
    requires
        call_ensures(crate::state::check_encoding, (&encoded,), verdict),
    ensures
        verdict is Ok <==> encoded is Some && encoded->0@.len() <= 0x10_0000,
        encoded is None ==> verdict->Err_0@ == "snapshot_encode"@,
        encoded is Some && encoded->0@.len() > 0x10_0000 ==> verdict->Err_0@
            == "snapshot_too_large"@,
{
}

/// Each operation is one of the happenings that histories are made of.
pub proof fn law_operations_are_happenings(
    publishing: &mut HelperState,
    snapshot: HelperSnapshot,
    verdict: Result<(), String>,
    handling: &mut HelperState,
    request: crate::protocol::HelperRequest,
    outcome: crate::protocol::Outcome,
    copying: &mut HelperState,
    order: crate::protocol::CopyOrder,
    copied: bool,
    completed: (serde_json::Value, Option<u64>),
    asking: &mut HelperState,
    taking: &mut HelperState,
    unit: (),
    taken: bool,
)
    requires
        call_ensures(HelperState::publish, (publishing, snapshot), verdict),
        call_ensures(crate::protocol::handle_request, (handling, request), outcome),
        call_ensures(crate::protocol::complete_copy, (copying, &order, copied), completed),
        call_ensures(HelperState::request_login, (asking,), unit),
        call_ensures(HelperState::take_login_request, (taking,), taken),
    ensures
        final(publishing)@ == crate::laws::after(old(publishing)@, Happening::Publish(snapshot@)),
        final(handling)@ == crate::laws::after(old(handling)@, Happening::Request(request@)),
        final(copying)@ == crate::laws::after(old(copying)@, Happening::CopyCompleted(copied)),
        final(asking)@ == crate::laws::after(old(asking)@, Happening::LoginRequested),
        final(taking)@ == crate::laws::after(old(taking)@, Happening::LoginTaken),
{
}

}
