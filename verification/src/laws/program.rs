//! The program around the helper: where it listens, how it was started, what it shows and when it is
//! reloaded or started anew.

use crate::launch::{ForwardedAction, LaunchPlan, LevelFilter};
use crate::socket::{FileFacts, FileKind, SetupEvent, SetupStep, SocketRefusal};
use crate::state::HelperState;
use crate::watchdog::{Look, Observation, Watchdog, WatchdogAction};
use crate::window::{OpenView, SurfaceAction};
use vstd::prelude::*;

verus! {

/// How long the program waits for what, with which permissions it makes files, and how it ends.
pub proof fn law_limits()
    ensures
        crate::clipboard::CLIPBOARD_SECONDS == 20,
        crate::clipboard::MAX_CLIPBOARD_BYTES == 64,
        crate::protocol::MAX_REQUEST_BYTES == 16 * 1024,
        crate::socket::CLIENT_SECONDS == 2,
        crate::socket::PRIVATE_DIRECTORY_MODE == 7 * 64,
        crate::socket::PRIVATE_SOCKET_MODE == 6 * 64,
        crate::watchdog::WATCHDOG_SECONDS == 10,
        crate::watchdog::EXIT_FOR_UPDATE == 75,
{
}

/// The socket lies in a directory of its own under the runtime directory, with one slash between,
/// and nowhere if there is no runtime directory.
pub proof fn law_socket_lies_under_runtime_directory(
    runtime: Option<Vec<u8>>,
    path: Option<Vec<u8>>,
)
    requires
        call_ensures(crate::socket::socket_path, (runtime,), path),
    ensures
        path is Some <==> runtime is Some && runtime->0@.len() > 0,
        path is Some ==> {
            let under = vstd::utf8::encode_utf8("proton-authenticator-omarchy/helper.sock"@);
            let slash = seq![0x2fu8];
            if runtime->0@.last() == 0x2f {
                path->0@ == runtime->0@ + under
            } else {
                path->0@ == runtime->0@ + slash + under
            }
        },
{
    if path is Some {
        let under = vstd::utf8::encode_utf8("proton-authenticator-omarchy/helper.sock"@);
        assert(runtime->0@.push(0x2f) =~= runtime->0@ + seq![0x2fu8]);
    }
}

/// The file is a directory of the user `uid`.
pub open spec fn is_own_directory(facts: FileFacts, uid: u32) -> bool {
    facts.uid == uid && facts.kind is Directory
}

/// The file grants nothing to anyone but its owner.
pub open spec fn is_private(facts: FileFacts) -> bool {
    facts.mode & 0x3f == 0
}

/// The file is a socket of the user `uid`.
pub open spec fn is_own_socket(facts: FileFacts, uid: u32) -> bool {
    facts.uid == uid && facts.kind is Socket
}

/// How the preparation of the socket comes to each of its steps, and to no step otherwise.
pub proof fn law_each_step_has_its_causes(
    step: SetupStep,
    event: SetupEvent,
    uid: u32,
    next: SetupStep,
)
    requires
        call_ensures(SetupStep::advance, (step, event, uid), next),
    ensures
        ({
            let found = event is Found;
            let facts = event->Found_0;
            let own = found && is_own_directory(facts, uid);
            let private = own && is_private(facts);
            let old_socket = found && is_own_socket(facts, uid);
            &&& !(next is InspectDirectory)
            &&& next is CreateDirectory <==> step is InspectDirectory && event is Missing
            &&& next is RestrictDirectory <==> step is InspectDirectory && own && !private
            &&& next is ConfirmDirectory <==> step is InspectDirectory && private || (step
                is RestrictDirectory || step is CreateDirectory) && event is Done
            &&& next is InspectSocket <==> step is ConfirmDirectory && private
            &&& next is RemoveSocket <==> step is InspectSocket && old_socket
            &&& next is Bind <==> step is InspectSocket && !found || step is RemoveSocket && event
                is Done
            &&& next is RestrictSocket <==> step is Bind && event is Done
            &&& next is Ready <==> step is RestrictSocket && event is Done || step is Ready
            &&& next == SetupStep::Refused(SocketRefusal::UnsafeDirectory) <==> step
                is InspectDirectory && found && !own || step is ConfirmDirectory && found
                && !private || step == SetupStep::Refused(SocketRefusal::UnsafeDirectory)
            &&& next == SetupStep::Refused(SocketRefusal::UnsafeSocket) <==> step is InspectSocket
                && found && !old_socket || step == SetupStep::Refused(SocketRefusal::UnsafeSocket)
        }),
{
    let facts = event->Found_0;
    assert(facts.kind is Directory <==> facts.kind == FileKind::Directory);
    assert(facts.kind is Socket <==> facts.kind == FileKind::Socket);
}

/// The preparation begins with a look at the directory, and its refusals are told apart.
pub proof fn law_preparation_begins_with_directory(
    first: SetupStep,
    refusal: SocketRefusal,
    message: &'static str,
)
    requires
        call_ensures(SetupStep::first, (), first),
        call_ensures(SocketRefusal::message, (&refusal,), message),
    ensures
        first is InspectDirectory,
        refusal is UnsafeDirectory ==> message@ == "unsafe runtime directory"@,
        refusal is UnsafeSocket ==> message@ == "unsafe existing socket path"@,
{
}

/// A client is counted exactly while fewer than sixteen are, and one that goes is counted off.
pub proof fn law_clients_are_counted(
    active: usize,
    admitted: Option<usize>,
    left: usize,
    released: usize,
)
    requires
        call_ensures(crate::socket::admit_connection, (active,), admitted),
        call_ensures(crate::socket::release_connection, (left,), released),
    ensures
        admitted is Some <==> active < 16,
        admitted is Some ==> admitted->0 == active + 1,
        left > 0 ==> released == left - 1,
        left == 0 ==> released == usize::MAX,
{
}

/// The arguments have the flag somewhere.
pub open spec fn has_flag(args: Seq<&str>, flag: Seq<char>) -> bool {
    exists|i: int| 0 <= i < args.len() && (#[trigger] args[i])@ == flag
}

/// A flag among the arguments, and among their texts.
proof fn lemma_flag_in_texts(args: Seq<&str>, flag: Seq<char>)
    ensures
        has_flag(args, flag) <==> crate::launch::texts(args).contains(flag),
{
    if has_flag(args, flag) {
        let i = choose|i: int| 0 <= i < args.len() && (#[trigger] args[i])@ == flag;
        assert(crate::launch::texts(args)[i] == flag);
    }
    if crate::launch::texts(args).contains(flag) {
        let i = choose|i: int|
            0 <= i < args.len() && (#[trigger] crate::launch::texts(args)[i]) == flag;
        assert(args[i]@ == flag);
    }
}

/// Each of the two flags counts wherever it stands, and nothing else does.
pub proof fn law_flags_count_anywhere(args: &[&str], mode: (bool, bool), plan: LaunchPlan)
    requires
        call_ensures(crate::launch::helper_window_mode, (args,), mode),
        call_ensures(crate::launch::launch_plan, (args,), plan),
    ensures
        mode.0 <==> has_flag(args@, "--background"@),
        mode.1 <==> has_flag(args@, "--login"@),
        plan.login_requested <==> has_flag(args@, "--login"@),
        plan.supervised <==> has_flag(args@, "--background"@),
        plan.hidden <==> has_flag(args@, "--background"@) && !has_flag(args@, "--login"@),
        has_flag(args@, "--background"@) ==> plan.log_level is Warn,
        !has_flag(args@, "--background"@) ==> plan.log_level is Debug,
{
    lemma_flag_in_texts(args@, "--background"@);
    lemma_flag_in_texts(args@, "--login"@);
}

/// In the background warnings are the least that is logged, and otherwise debug records are.
pub proof fn law_log_level_follows_mode(background: bool, filter: LevelFilter)
    requires
        call_ensures(crate::launch::helper_log_level, (background,), filter),
    ensures
        filter is Warn <==> background,
        filter is Debug <==> !background,
{
}

/// The flags that a second start passes on.
spec fn passed_on(given: Seq<Seq<char>>) -> Seq<Seq<char>> {
    given.filter(|flag: Seq<char>| flag != "--background"@)
}

/// Nothing is passed on if there are only background flags.
proof fn lemma_nothing_passed_on(given: Seq<Seq<char>>)
    requires
        forall|i: int| 0 <= i < given.len() ==> #[trigger] given[i] == "--background"@,
    ensures
        passed_on(given).len() == 0,
    decreases given.len(),
{
    reveal(Seq::filter);
    if given.len() > 0 {
        let less = given.drop_last();
        assert forall|i: int| 0 <= i < less.len() implies #[trigger] less[i] == "--background"@ by {
            assert(given[i] == "--background"@);
        }
        lemma_nothing_passed_on(less);
        assert(given[given.len() - 1] == "--background"@);
    }
}

/// The only other flag is passed on.
proof fn lemma_one_passed_on(given: Seq<Seq<char>>, index: int)
    requires
        0 <= index < given.len(),
        given[index] != "--background"@,
        forall|i: int|
            0 <= i < given.len() && i != index ==> #[trigger] given[i] == "--background"@,
    ensures
        passed_on(given).len() == 1,
        passed_on(given)[0] == given[index],
    decreases given.len(),
{
    reveal(Seq::filter);
    let less = given.drop_last();
    assert forall|i: int| 0 <= i < less.len() && i != index implies #[trigger] less[i]
        == "--background"@ by {
        assert(given[i] == "--background"@);
    }
    if index == given.len() - 1 {
        lemma_nothing_passed_on(less);
    } else {
        lemma_one_passed_on(less, index);
        assert(given[given.len() - 1] == "--background"@);
    }
}

/// At least as many flags are passed on as there are others in a shorter list.
proof fn lemma_more_passed_on(given: Seq<Seq<char>>, first: int, second: int)
    requires
        0 <= first < second < given.len(),
        given[first] != "--background"@,
        given[second] != "--background"@,
    ensures
        passed_on(given).len() >= 2,
    decreases given.len(),
{
    reveal(Seq::filter);
    let less = given.drop_last();
    if second == given.len() - 1 {
        lemma_some_passed_on(less, first);
    } else {
        lemma_more_passed_on(less, first, second);
    }
}

/// Another flag is passed on.
proof fn lemma_some_passed_on(given: Seq<Seq<char>>, index: int)
    requires
        0 <= index < given.len(),
        given[index] != "--background"@,
    ensures
        passed_on(given).len() >= 1,
    decreases given.len(),
{
    reveal(Seq::filter);
    if index < given.len() - 1 {
        lemma_some_passed_on(given.drop_last(), index);
    }
}

/// Every argument of a second start but its name and the one at `index` is the background flag.
pub open spec fn has_no_other(args: Seq<&str>, index: int) -> bool {
    forall|i: int|
        1 <= i < args.len() && i != index ==> (#[trigger] args[i])@ == "--background"@
}

/// A second start shows the window exactly if all its arguments are the background flag, asks for a
/// sign-in exactly if one of them, and one only, is the sign-in flag instead, and does nothing
/// otherwise.
pub proof fn law_second_start_takes_one_flag(
    args: &[&str],
    action: ForwardedAction,
    view: Option<OpenView>,
)
    requires
        call_ensures(crate::launch::forwarded_action, (args,), action),
        call_ensures(ForwardedAction::view_to_open, (action,), view),
    ensures
        action is ShowWindow <==> has_no_other(args@, 0),
        action is Login <==> exists|k: int|
            1 <= k < args@.len() && (#[trigger] args@[k])@ == "--login"@ && has_no_other(args@, k),
        action is ShowWindow ==> view == Some(OpenView::Manage),
        action is Login ==> view == Some(OpenView::Login),
        action is Ignore ==> view is None,
{
    reveal_strlit("--background");
    reveal_strlit("--login");
    assert("--background"@.len() != "--login"@.len());
    let texts = crate::launch::texts(args@);
    if args@.len() > 0 {
        let given = texts.drop_first();
        assert(forall|i: int| 1 <= i < args@.len() ==> (#[trigger] args@[i])@ == given[i - 1]);
        assert(crate::launch::forwarded_flags(texts) == passed_on(given));
        if has_no_other(args@, 0) {
            assert forall|i: int| 0 <= i < given.len() implies #[trigger] given[i]
                == "--background"@ by {
                assert(args@[i + 1]@ == "--background"@);
            }
            lemma_nothing_passed_on(given);
        } else {
            let k = choose|k: int|
                1 <= k < args@.len() && k != 0 && (#[trigger] args@[k])@ != "--background"@;
            assert(given[k - 1] != "--background"@);
            if has_no_other(args@, k) {
                assert forall|i: int| 0 <= i < given.len() && i != k - 1 implies #[trigger] given[i]
                    == "--background"@ by {
                    assert(args@[i + 1]@ == "--background"@);
                }
                lemma_one_passed_on(given, k - 1);
            } else {
                let j = choose|j: int|
                    1 <= j < args@.len() && j != k && (#[trigger] args@[j])@ != "--background"@;
                assert(given[j - 1] != "--background"@);
                if j < k {
                    lemma_more_passed_on(given, j - 1, k - 1);
                } else {
                    lemma_more_passed_on(given, k - 1, j - 1);
                }
            }
            if exists|m: int|
                1 <= m < args@.len() && (#[trigger] args@[m])@ == "--login"@ && has_no_other(
                    args@,
                    m,
                ) {
                let m = choose|m: int|
                    1 <= m < args@.len() && (#[trigger] args@[m])@ == "--login"@ && has_no_other(
                        args@,
                        m,
                    );
                assert(m == k);
            }
        }
    }
}

/// A view is shown in its own way. A sign-in is requested exactly if it is to be shown and no window
/// for it is open, and nothing else of the state ever changes.
pub proof fn law_views_are_shown_in_their_way(
    state: &mut HelperState,
    view: OpenView,
    login_window_open: bool,
    action: SurfaceAction,
)
    requires
        call_ensures(crate::window::surface, (state, view, login_window_open), action),
    ensures
        action is ShowMain <==> view is Manage,
        action is AddInMain <==> view is Add,
        action is FocusLogin <==> view is Login && login_window_open,
        action is AnnounceLogin <==> view is Login && !login_window_open,
        action is AnnounceLogin ==> final(state)@.login_requested,
        !(action is AnnounceLogin) ==> final(state)@.login_requested == old(
            state,
        )@.login_requested,
        final(state)@.snapshot == old(state)@.snapshot,
        final(state)@.manual_locked == old(state)@.manual_locked,
        final(state)@.clipboard_generation == old(state)@.clipboard_generation,
        final(state)@.source_commit == old(state)@.source_commit,
{
}

/// What is done about the helper: it is started anew exactly if its binary was replaced while nobody
/// sees it, and it is reloaded exactly if it is not started anew, has been silent for 45 seconds and
/// was not reloaded in the last 120, and neither while the latch is set or without a window.
pub proof fn law_watchdog_acts_on_what_it_sees(seen: Observation, action: WatchdogAction)
    requires
        call_ensures(Observation::decide, (&seen,), action),
    ensures
        ({
            let watched = !seen.latched && seen.visible is Some;
            let unseen = watched && !seen.visible->0;
            let rested = seen.reload_age is None || seen.reload_age->0 > 119;
            &&& action is Restart <==> unseen && seen.binary_replaced
            &&& action is Reload <==> watched && !(unseen && seen.binary_replaced)
                && seen.publication_age > 44 && rested
        }),
{
}

/// A look is acted upon in the same way, by the time since the last reload, and a reload is
/// remembered.
pub proof fn law_watchdog_remembers_reloads(
    watchdog: &mut Watchdog,
    look: Look,
    action: WatchdogAction,
    fresh: Watchdog,
)
    requires
        call_ensures(Watchdog::look, (watchdog, look), action),
        call_ensures(Watchdog::default, (), fresh),
    ensures
        ({
            let watched = !look.latched && look.visible is Some;
            let unseen = watched && !look.visible->0;
            let rested = old(watchdog)@ is None || look.now >= old(watchdog)@->0
                + 120_000_000_000;
            &&& action is Restart <==> unseen && look.binary_replaced
            &&& action is Reload <==> watched && !(unseen && look.binary_replaced)
                && look.publication_age > 44 && rested
        }),
        action is Reload ==> final(watchdog)@ == Some(look.now),
        !(action is Reload) ==> final(watchdog)@ == old(watchdog)@,
        fresh@ is None,
{
}

}
