//! How the program was started, and what a second start of it may ask of the one that runs.

use crate::text::text_equal;
use crate::window::OpenView;
use vstd::prelude::*;

verus! {

/// The texts of a list of arguments.
pub open spec fn texts(args: Seq<&str>) -> Seq<Seq<char>> {
    args.map_values(|arg: &str| arg@)
}

/// Which log records are kept: those of this level and of the more urgent ones.
#[derive(Clone, Copy, Debug, PartialEq, Eq, Structural)]
pub enum LevelFilter {
    Off,
    Error,
    Warn,
    Info,
    Debug,
    Trace,
}

/// How urgent a log record is.
#[derive(Clone, Copy, Debug, PartialEq, Eq, Structural)]
pub enum Level {
    Error,
    Warn,
    Info,
    Debug,
    Trace,
}

impl Level {
    /// The place of the level, counted from the most urgent.
    pub open spec fn rank(self) -> int {
        match self {
            Level::Error => 1,
            Level::Warn => 2,
            Level::Info => 3,
            Level::Debug => 4,
            Level::Trace => 5,
        }
    }
}

impl LevelFilter {
    /// The rank of the least urgent level that is kept.
    pub open spec fn rank(self) -> int {
        match self {
            LevelFilter::Off => 0,
            LevelFilter::Error => 1,
            LevelFilter::Warn => 2,
            LevelFilter::Info => 3,
            LevelFilter::Debug => 4,
            LevelFilter::Trace => 5,
        }
    }

    /// Whether a record of the given level is kept.
    pub open spec fn keeps(self, level: Level) -> bool {
        level.rank() <= self.rank()
    }
}

/// Whether the program was started in the background, and whether a sign-in was asked for.
pub open spec fn window_mode(args: Seq<Seq<char>>) -> (bool, bool) {
    (args.contains("--background"@), args.contains("--login"@))
}

/// Reads from the arguments whether the program was started in the background, and whether a
/// sign-in was asked for.
pub fn helper_window_mode(args: &[&str]) -> (mode: (bool, bool))
    ensures
        mode == window_mode(texts(args@)),
{
    let mut background = false;
    let mut login = false;
    proof {
        lemma_flags_differ();
    }
    for index in 0..args.len()
        invariant
            "--background"@ != "--login"@,
            background == texts(args@).take(index as int).contains("--background"@),
            login == texts(args@).take(index as int).contains("--login"@),
    {
        proof {
            let seen = texts(args@).take(index as int);
            let more = texts(args@).take(index + 1);
            assert(more =~= seen.push(args@[index as int]@));
            assert(more[index as int] == args@[index as int]@);
            lemma_contains_pushed(seen, args@[index as int]@, "--background"@);
            lemma_contains_pushed(seen, args@[index as int]@, "--login"@);
        }
        if text_equal(args[index], "--background") {
            background = true;
        } else if text_equal(args[index], "--login") {
            login = true;
        }
    }
    assert(texts(args@).take(args@.len() as int) =~= texts(args@));
    (background, login)
}

/// What a longer list contains.
proof fn lemma_contains_pushed(list: Seq<Seq<char>>, added: Seq<char>, wanted: Seq<char>)
    ensures
        list.push(added).contains(wanted) <==> list.contains(wanted) || added == wanted,
{
    let longer = list.push(added);
    if list.contains(wanted) {
        let i = choose|i: int| 0 <= i < list.len() && list[i] == wanted;
        assert(longer[i] == wanted);
    }
    if added == wanted {
        assert(longer[list.len() as int] == wanted);
    }
}

/// The two flags are different.
proof fn lemma_flags_differ()
    ensures
        "--background"@ != "--login"@,
{
    reveal_strlit("--background");
    reveal_strlit("--login");
    assert("--background"@.len() != "--login"@.len());
}

/// Which log records are kept. In the background nothing below a warning is: the details of what
/// the program does with its entries and keys are not to be stored.
pub fn helper_log_level(background: bool) -> (filter: LevelFilter)
    ensures
        filter == (if background {
            LevelFilter::Warn
        } else {
            LevelFilter::Debug
        }),
{
    if background {
        LevelFilter::Warn
    } else {
        LevelFilter::Debug
    }
}

/// What the program does at its start.
#[derive(Clone, Copy, Debug, PartialEq, Eq, Structural)]
pub struct LaunchPlan {
    /// The sign-in request of the first state.
    pub login_requested: bool,
    /// The main window stays hidden.
    pub hidden: bool,
    /// A main window that is closed is only hidden, and the webview and the binary are watched.
    pub supervised: bool,
    /// Which log records are kept.
    pub log_level: LevelFilter,
}

/// What the program does when it is started with the given mode.
pub open spec fn plan_for(background: bool, login: bool) -> LaunchPlan {
    LaunchPlan {
        login_requested: login,
        hidden: background && !login,
        supervised: background,
        log_level: if background {
            LevelFilter::Warn
        } else {
            LevelFilter::Debug
        },
    }
}

/// Reads from the arguments what the program does at its start.
pub fn launch_plan(args: &[&str]) -> (plan: LaunchPlan)
    ensures
        plan == plan_for(window_mode(texts(args@)).0, window_mode(texts(args@)).1),
{
    let (background, login) = helper_window_mode(args);
    LaunchPlan {
        login_requested: login,
        hidden: background && !login,
        supervised: background,
        log_level: helper_log_level(background),
    }
}

/// What a second start of the program may ask of the one that runs. The arguments come from any
/// program of the same user, so all but one exact flag is passed over.
#[derive(Clone, Copy, Debug, PartialEq, Eq, Structural)]
pub enum ForwardedAction {
    ShowWindow,
    Login,
    Ignore,
}

/// The arguments after the program's name, without the background flag.
pub open spec fn forwarded_flags(args: Seq<Seq<char>>) -> Seq<Seq<char>> {
    if args.len() == 0 {
        args
    } else {
        args.drop_first().filter(|flag: Seq<char>| flag != "--background"@)
    }
}

/// What the arguments of a second start ask for.
pub open spec fn forwarded(args: Seq<Seq<char>>) -> ForwardedAction {
    let flags = forwarded_flags(args);
    if flags.len() == 0 {
        ForwardedAction::ShowWindow
    } else if flags.len() == 1 && flags[0] == "--login"@ {
        ForwardedAction::Login
    } else {
        ForwardedAction::Ignore
    }
}

/// Reads what the arguments of a second start ask for.
pub fn forwarded_action(args: &[&str]) -> (action: ForwardedAction)
    ensures
        action == forwarded(texts(args@)),
{
    if args.len() == 0 {
        return ForwardedAction::ShowWindow;
    }
    let ghost given = texts(args@).drop_first();
    let ghost wanted = |flag: Seq<char>| flag != "--background"@;
    let mut flags: Vec<&str> = Vec::new();
    assert(given.take(0).filter(wanted) =~= Seq::empty()) by {
        reveal(Seq::filter);
    }
    for index in 1..args.len()
        invariant
            given == texts(args@).drop_first(),
            wanted == (|flag: Seq<char>| flag != "--background"@),
            texts(flags@) == given.take(index - 1).filter(wanted),
    {
        let arg = args[index];
        proof {
            let more = given.take(index as int);
            assert(more.drop_last() =~= given.take(index - 1));
            assert(more.last() == arg@);
            reveal(Seq::filter);
        }
        let ghost kept = flags@;
        if !text_equal(arg, "--background") {
            flags.push(arg);
            assert(texts(flags@) =~= texts(kept).push(arg@));
        }
    }
    assert(given.take(args@.len() - 1) =~= given);
    assert(texts(flags@) == forwarded_flags(texts(args@)));
    if flags.len() == 0 {
        ForwardedAction::ShowWindow
    } else if flags.len() == 1 && text_equal(flags[0], "--login") {
        ForwardedAction::Login
    } else {
        ForwardedAction::Ignore
    }
}

impl ForwardedAction {
    /// The view that the action opens, if it opens one.
    pub open spec fn opens(self) -> Option<OpenView> {
        match self {
            ForwardedAction::ShowWindow => Some(OpenView::Manage),
            ForwardedAction::Login => Some(OpenView::Login),
            ForwardedAction::Ignore => None,
        }
    }

    /// The view that the action opens, if it opens one.
    pub fn view_to_open(self) -> (view: Option<OpenView>)
        ensures
            view == self.opens(),
    {
        match self {
            ForwardedAction::ShowWindow => Some(OpenView::Manage),
            ForwardedAction::Login => Some(OpenView::Login),
            ForwardedAction::Ignore => None,
        }
    }
}

/// In the background exactly the errors and the warnings are kept.
pub proof fn law_background_keeps_only_warnings_and_errors(login: bool, level: Level)
    ensures
        plan_for(true, login).log_level.keeps(level) <==> level is Error || level is Warn,
{
}

/// The main window is hidden at the start exactly if the program was started in the background and
/// no sign-in was asked for.
pub proof fn law_hidden_only_in_background_without_login(args: Seq<Seq<char>>)
    ensures
        plan_for(window_mode(args).0, window_mode(args).1).hidden <==> args.contains(
            "--background"@,
        ) && !args.contains("--login"@),
{
}

/// A second start asks for a sign-in exactly if its one argument besides the background flag is
/// the sign-in flag, and for the window exactly if it has no other argument.
pub proof fn law_login_takes_one_exact_flag(args: Seq<Seq<char>>)
    ensures
        forwarded(args) is Login <==> forwarded_flags(args) == seq!["--login"@],
        forwarded(args) is ShowWindow <==> forwarded_flags(args) == Seq::<Seq<char>>::empty(),
{
    let flags = forwarded_flags(args);
    assert(flags.len() == 0 ==> flags =~= Seq::<Seq<char>>::empty());
    assert(flags.len() == 1 && flags[0] == "--login"@ ==> flags =~= seq!["--login"@]);
}

/// A second start with an argument that is neither of the two flags asks for nothing.
pub proof fn law_other_argument_is_ignored(args: Seq<Seq<char>>, index: int)
    requires
        1 <= index < args.len(),
        args[index] != "--background"@,
        args[index] != "--login"@,
    ensures
        forwarded(args) is Ignore,
{
    let wanted = |flag: Seq<char>| flag != "--background"@;
    let given = args.drop_first();
    given.lemma_filter_contains(wanted, index - 1);
    assert(forwarded_flags(args).contains(args[index]));
}

}
