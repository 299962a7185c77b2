use authenticator_helper::launch::{
    forwarded_action, helper_log_level, helper_window_mode, launch_plan, ForwardedAction,
    LaunchPlan, LevelFilter,
};
use authenticator_helper::provenance::{helper_source_commit, valid_commit};
use authenticator_helper::socket::{
    admit_connection, release_connection, socket_path, FileFacts, FileKind, SetupEvent, SetupStep,
    SocketRefusal,
};
use authenticator_helper::state::HelperState;
use authenticator_helper::text::{
    bounded_text, bytes_equal, text_equal, trim_end, trim_start, valid_id,
};
use authenticator_helper::watchdog::{Look, Observation, Watchdog, WatchdogAction};
use authenticator_helper::window::{surface, OpenView, SurfaceAction};

#[test]
fn helper_window_mode_hides_background_except_login() {
    assert_eq!(helper_window_mode(&["app", "--background"]), (true, false));
    assert_eq!(
        helper_window_mode(&["app", "--background", "--login"]),
        (true, true)
    );
    assert_eq!(helper_window_mode(&["app"]), (false, false));
}

#[test]
fn background_helper_keeps_only_warnings_and_errors() {
    assert_eq!(helper_log_level(true), LevelFilter::Warn);
    assert_eq!(helper_log_level(false), LevelFilter::Debug);
}

#[test]
fn forwarded_invocations_honour_exactly_one_flag() {
    assert_eq!(forwarded_action(&["app"]), ForwardedAction::ShowWindow);
    assert_eq!(
        forwarded_action(&["app", "--background"]),
        ForwardedAction::ShowWindow
    );
    assert_eq!(forwarded_action(&["app", "--login"]), ForwardedAction::Login);
    assert_eq!(
        forwarded_action(&["app", "--background", "--login"]),
        ForwardedAction::Login
    );
    // Arbitrary argv from a D-Bus caller must not be treated as a relaunch.
    assert_eq!(
        forwarded_action(&["app", "--login", "--login"]),
        ForwardedAction::Ignore
    );
    assert_eq!(
        forwarded_action(&["app", "--unlock"]),
        ForwardedAction::Ignore
    );
    assert_eq!(
        forwarded_action(&["app", "/some/file.json"]),
        ForwardedAction::Ignore
    );
}

#[test]
fn forwarded_invocations_open_views() {
    assert_eq!(
        forwarded_action(&[]).view_to_open(),
        Some(OpenView::Manage)
    );
    assert_eq!(
        forwarded_action(&["--login"]).view_to_open(),
        Some(OpenView::Manage)
    );
    assert_eq!(
        forwarded_action(&["app", "--login", "--background", "--background"]).view_to_open(),
        Some(OpenView::Login)
    );
    assert_eq!(forwarded_action(&["app", ""]).view_to_open(), None);
}

#[test]
fn launch_plans_follow_the_flags() {
    assert_eq!(
        launch_plan(&["app", "--background"]),
        LaunchPlan {
            login_requested: false,
            hidden: true,
            supervised: true,
            log_level: LevelFilter::Warn,
        }
    );
    assert_eq!(
        launch_plan(&["app", "--login", "--background", "other"]),
        LaunchPlan {
            login_requested: true,
            hidden: false,
            supervised: true,
            log_level: LevelFilter::Warn,
        }
    );
    assert_eq!(
        launch_plan(&["app", "--login"]),
        LaunchPlan {
            login_requested: true,
            hidden: false,
            supervised: false,
            log_level: LevelFilter::Debug,
        }
    );
}

#[test]
fn surfacing_login_requests_it_once_and_keeps_the_latch() {
    let mut state = HelperState::default();
    state.lock();
    assert_eq!(
        surface(&mut state, OpenView::Manage, false),
        SurfaceAction::ShowMain
    );
    assert_eq!(
        surface(&mut state, OpenView::Add, true),
        SurfaceAction::AddInMain
    );
    assert_eq!(
        surface(&mut state, OpenView::Login, true),
        SurfaceAction::FocusLogin
    );
    assert!(!state.take_login_request());
    assert_eq!(
        surface(&mut state, OpenView::Login, false),
        SurfaceAction::AnnounceLogin
    );
    assert!(state.take_login_request());
    assert!(state.latched());
}

fn calm() -> Observation {
    Observation {
        latched: false,
        visible: Some(false),
        binary_replaced: false,
        publication_age: 1,
        reload_age: None,
    }
}

#[test]
fn watchdog_restarts_only_unseen_and_unlatched() {
    assert_eq!(calm().decide(), WatchdogAction::Wait);
    let replaced = Observation {
        binary_replaced: true,
        ..calm()
    };
    assert_eq!(replaced.decide(), WatchdogAction::Restart);
    let seen = Observation {
        visible: Some(true),
        ..replaced
    };
    assert_eq!(seen.decide(), WatchdogAction::Wait);
    let windowless = Observation {
        visible: None,
        ..replaced
    };
    assert_eq!(windowless.decide(), WatchdogAction::Wait);
    let latched = Observation {
        latched: true,
        ..replaced
    };
    assert_eq!(latched.decide(), WatchdogAction::Wait);
}

#[test]
fn watchdog_reloads_stalled_webviews_with_backoff() {
    for (age, reload_age, action) in [
        (44, None, WatchdogAction::Wait),
        (45, None, WatchdogAction::Reload),
        (45, Some(119), WatchdogAction::Wait),
        (45, Some(120), WatchdogAction::Reload),
        (44, Some(500), WatchdogAction::Wait),
    ] {
        for visible in [true, false] {
            let seen = Observation {
                visible: Some(visible),
                publication_age: age,
                reload_age,
                ..calm()
            };
            assert_eq!(seen.decide(), action);
        }
    }
    let both = Observation {
        binary_replaced: true,
        visible: Some(true),
        publication_age: 45,
        ..calm()
    };
    assert_eq!(both.decide(), WatchdogAction::Reload);
}

#[test]
fn watchdog_remembers_its_reloads() {
    let mut watchdog = Watchdog::default();
    let stalled = Look {
        now: 0,
        latched: false,
        visible: Some(false),
        binary_replaced: false,
        publication_age: 45,
    };
    for (now, action) in [
        (10_000_000_000, WatchdogAction::Reload),
        (20_000_000_000, WatchdogAction::Wait),
        (129_999_999_999, WatchdogAction::Wait),
        (130_000_000_000, WatchdogAction::Reload),
        (130_000_000_001, WatchdogAction::Wait),
        (1, WatchdogAction::Wait),
        (250_000_000_000, WatchdogAction::Reload),
    ] {
        assert_eq!(watchdog.look(Look { now, ..stalled }), action);
    }
    let calm = Look {
        now: 500_000_000_000,
        publication_age: 44,
        ..stalled
    };
    assert_eq!(watchdog.look(calm), WatchdogAction::Wait);
    let replaced = Look {
        binary_replaced: true,
        ..calm
    };
    assert_eq!(watchdog.look(replaced), WatchdogAction::Restart);
}

#[test]
fn socket_lies_in_the_runtime_directory() {
    assert_eq!(
        socket_path(Some(b"/run/user/1000".to_vec())),
        Some(b"/run/user/1000/proton-authenticator-omarchy/helper.sock".to_vec())
    );
    assert_eq!(
        socket_path(Some(b"/".to_vec())),
        Some(b"/proton-authenticator-omarchy/helper.sock".to_vec())
    );
    assert_eq!(
        socket_path(Some(vec![0xff])),
        Some([&[0xff][..], b"/proton-authenticator-omarchy/helper.sock"].concat())
    );
    assert_eq!(socket_path(Some(Vec::new())), None);
    assert_eq!(socket_path(None), None);
}

fn facts(uid: u32, kind: FileKind, mode: u32) -> SetupEvent {
    SetupEvent::Found(FileFacts { uid, kind, mode })
}

fn steps(events: &[SetupEvent]) -> SetupStep {
    let mut step = SetupStep::first();
    for event in events {
        step = step.advance(*event, 1000);
    }
    step
}

#[test]
fn socket_setup_in_a_new_directory() {
    let directory = facts(1000, FileKind::Directory, 0o40700);
    let mut events = vec![];
    for (event, step) in [
        (SetupEvent::Missing, SetupStep::CreateDirectory),
        (SetupEvent::Done, SetupStep::ConfirmDirectory),
        (directory, SetupStep::InspectSocket),
        (SetupEvent::Missing, SetupStep::Bind),
        (SetupEvent::Done, SetupStep::RestrictSocket),
        (SetupEvent::Done, SetupStep::Ready),
        (SetupEvent::Failed, SetupStep::Ready),
    ] {
        events.push(event);
        assert_eq!(steps(&events), step);
    }
}

#[test]
fn socket_setup_restricts_and_replaces() {
    let open = facts(1000, FileKind::Directory, 0o40755);
    let private = facts(1000, FileKind::Directory, 0o40700);
    let socket = facts(1000, FileKind::Socket, 0o140777);
    assert_eq!(steps(&[open]), SetupStep::RestrictDirectory);
    assert_eq!(steps(&[private]), SetupStep::ConfirmDirectory);
    assert_eq!(
        steps(&[open, SetupEvent::Done, open]),
        SetupStep::Refused(SocketRefusal::UnsafeDirectory)
    );
    assert_eq!(
        steps(&[open, SetupEvent::Done, private, socket]),
        SetupStep::RemoveSocket
    );
    assert_eq!(
        steps(&[private, private, socket, SetupEvent::Done]),
        SetupStep::Bind
    );
    assert_eq!(
        steps(&[private, private, SetupEvent::Failed]),
        SetupStep::Bind
    );
    assert_eq!(
        steps(&[private, private, socket, SetupEvent::Failed]),
        SetupStep::Failed
    );
    assert_eq!(steps(&[private, SetupEvent::Missing]), SetupStep::Failed);
    assert_eq!(steps(&[SetupEvent::Failed]), SetupStep::Failed);
}

#[test]
fn symlinked_runtime_directory_is_refused() {
    let refused = SetupStep::Refused(SocketRefusal::UnsafeDirectory);
    assert_eq!(steps(&[facts(1000, FileKind::Symlink, 0o120777)]), refused);
    assert_eq!(steps(&[facts(0, FileKind::Directory, 0o40700)]), refused);
    assert_eq!(steps(&[facts(1000, FileKind::Other, 0o600)]), refused);
    let private = facts(1000, FileKind::Directory, 0o40700);
    assert_eq!(
        steps(&[private, private, facts(1000, FileKind::Other, 0o600)]),
        SetupStep::Refused(SocketRefusal::UnsafeSocket)
    );
    assert_eq!(
        steps(&[private, private, facts(0, FileKind::Socket, 0o600)]),
        SetupStep::Refused(SocketRefusal::UnsafeSocket)
    );
    assert_eq!(
        SocketRefusal::UnsafeDirectory.message(),
        "unsafe runtime directory"
    );
    assert_eq!(
        SocketRefusal::UnsafeSocket.message(),
        "unsafe existing socket path"
    );
}

#[test]
fn connections_are_limited() {
    assert_eq!(admit_connection(0), Some(1));
    assert_eq!(admit_connection(15), Some(16));
    assert_eq!(admit_connection(16), None);
    assert_eq!(release_connection(16), 15);
    assert_eq!(release_connection(1), 0);
    assert_eq!(release_connection(0), usize::MAX);
}

#[test]
fn identifiers_hold_few_characters() {
    assert!(valid_id("Az09._:-"));
    assert!(valid_id(&"x".repeat(128)));
    assert!(!valid_id(&"x".repeat(129)));
    for id in ["", "a/b", "a b", "\u{e9}", "a\n", "a+b"] {
        assert!(!valid_id(id));
    }
}

#[test]
fn bounded_text_refuses_hidden_and_control_characters() {
    assert!(bounded_text("", 0));
    assert!(bounded_text("Grüße ☃", 12));
    assert!(!bounded_text("Grüße ☃", 10));
    for c in [
        '\u{0}', '\u{1f}', '\u{7f}', '\u{9f}', '\u{61c}', '\u{200b}', '\u{200f}', '\u{202a}',
        '\u{202e}', '\u{2060}', '\u{2066}', '\u{2069}', '\u{feff}',
    ] {
        assert!(!bounded_text(&format!("a{c}b"), 80));
    }
    for c in [
        ' ', '~', '\u{a0}', '\u{61b}', '\u{61d}', '\u{200a}', '\u{2010}', '\u{2029}', '\u{202f}',
        '\u{2061}', '\u{2065}', '\u{206a}', '\u{fefe}', '\u{1f600}',
    ] {
        assert!(bounded_text(&format!("a{c}b"), 80));
    }
}

#[test]
fn hidden_and_control_characters_match_the_standard_classes() {
    for c in (0..=0x10ffff).filter_map(char::from_u32) {
        let text = c.to_string();
        if c.is_control() {
            assert!(!bounded_text(&text, 4));
        }
        assert_eq!(trim_end(&text).is_empty(), c.is_whitespace());
        assert_eq!(trim_start(&text).is_empty(), c.is_whitespace());
    }
}

#[test]
fn text_helpers_compare_and_trim() {
    assert!(text_equal("größe", "größe"));
    assert!(!text_equal("größe", "grösse"));
    assert!(bytes_equal(b"ab", b"ab"));
    assert!(!bytes_equal(b"ab", b"abc"));
    assert_eq!(trim_end(" a b \n"), " a b");
    assert_eq!(trim_start("\u{2003} a b "), "a b ");
    assert_eq!(trim_start(" \n"), "");
    assert_eq!(trim_end(" \n"), "");
}

#[test]
fn source_commit_prefers_the_packager() {
    let upper = "ABCDEF0123456789ABCDEF0123456789ABCDEF01";
    let lower = "abcdef0123456789abcdef0123456789abcdef01";
    let head = "0123456789abcdef0123456789abcdef01234567\n";
    let commit = "0123456789abcdef0123456789abcdef01234567";
    assert_eq!(
        helper_source_commit(Some(&format!(" {upper}\n")), Some(head), true),
        lower
    );
    assert_eq!(helper_source_commit(Some("main"), Some(head), false), commit);
    assert_eq!(
        helper_source_commit(None, Some(head), true),
        format!("{commit}-dirty")
    );
    assert_eq!(helper_source_commit(None, Some(upper), false), upper);
    assert_eq!(helper_source_commit(None, Some("fatal"), true), "unknown");
    assert_eq!(helper_source_commit(Some(""), None, false), "unknown");
    assert!(valid_commit(commit));
    assert!(!valid_commit(&commit[1..]));
    assert!(!valid_commit("g123456789abcdef0123456789abcdef01234567"));
}
