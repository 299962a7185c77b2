use authenticator_helper::clipboard::{clipboard_contents, clipboard_overflows, should_clear};
use authenticator_helper::frame::{
    check_peer, encode_response, request_text, response_frame, serve_copied, serve_request,
    ClientRefusal, Exchange,
};
use authenticator_helper::protocol::{
    complete_copy, copy_reply, envelope, handle_request, may_change_snapshot, snapshot_response,
    CopyOrder, HelperRequest, Outcome,
};
use authenticator_helper::snapshot::{HelperEntry, HelperSnapshot};
use authenticator_helper::state::{HelperState, MAX_RESPONSE_BYTES};
use authenticator_helper::window::{surface, OpenView, SurfaceAction};
use serde_json::Value;

const TOO_LARGE: &[u8] = b"{\"v\":1,\"id\":\"\",\"ok\":false,\"error\":\"response_too_large\"}\n";

fn entry(id: &str, code: &str) -> HelperEntry {
    HelperEntry {
        id: id.into(),
        name: "name".into(),
        issuer: "issuer".into(),
        entry_type: "Totp".into(),
        code: code.into(),
        next_code: "000000".into(),
        period: 30,
        valid_until: 90,
    }
}

fn ready_state() -> HelperState {
    let mut state = HelperState::default();
    let snapshot = HelperSnapshot {
        state: "ready".into(),
        locked: false,
        synced: true,
        account: "me".into(),
        generation: 5,
        now: 61,
        entries: vec![
            entry("a", "111111"),
            entry("b", "222222"),
            entry("b", "333333"),
        ],
    };
    state.publish(snapshot).unwrap();
    state
}

fn request(op: &str, item_id: Option<&str>) -> HelperRequest {
    HelperRequest {
        v: 1,
        id: "r1".into(),
        op: op.into(),
        item_id: item_id.map(String::from),
    }
}

fn text_of(outcome: Outcome) -> String {
    match outcome {
        Outcome::Reply(value) => serde_json::to_string(&value).unwrap(),
        other => panic!("unexpected outcome: {other:?}"),
    }
}

#[test]
fn status_counts_entries_and_shows_none() {
    let mut state = ready_state();
    assert_eq!(
        text_of(handle_request(&mut state, request("status", None))),
        "{\"account\":\"me\",\"commit\":\"unknown\",\"count\":3,\"generation\":5,\"id\":\"r1\",\"locked\":false,\
         \"ok\":true,\"state\":\"ready\",\"synced\":true,\"v\":1}"
    );
}

#[test]
fn snapshot_reads_back_publication() {
    let mut state = ready_state();
    let response = match handle_request(&mut state, request("snapshot", None)) {
        Outcome::Reply(value) => value,
        other => panic!("unexpected outcome: {other:?}"),
    };
    assert_eq!(response["ok"], true);
    assert_eq!(response["v"], 1);
    assert_eq!(response["id"], "r1");
    assert_eq!(response["generation"], 5);
    assert_eq!(response["now"], 61);
    assert_eq!(response["entries"].as_array().unwrap().len(), 3);
    assert_eq!(response["entries"][0]["code"], "111111");
    assert_eq!(response["entries"][1]["nextCode"], "000000");
    assert_eq!(response["entries"][2]["validUntil"], 90);
}

#[test]
fn snapshot_response_of_an_empty_snapshot() {
    let response = snapshot_response("z", &HelperSnapshot::default());
    assert_eq!(
        serde_json::to_string(&response).unwrap(),
        "{\"account\":\"\",\"entries\":[],\"generation\":0,\"id\":\"z\",\"locked\":false,\
         \"now\":0,\"ok\":true,\"state\":\"unavailable\",\"synced\":false,\"v\":1}"
    );
}

#[test]
fn lock_and_unlock_answer_with_the_new_state() {
    let mut state = ready_state();
    assert_eq!(
        text_of(handle_request(&mut state, request("lock", None))),
        "{\"generation\":6,\"id\":\"r1\",\"locked\":true,\"ok\":true,\"state\":\"locked\",\"v\":1}"
    );
    assert!(state.latched());
    assert_eq!(
        text_of(handle_request(&mut state, request("unlock", None))),
        "{\"generation\":7,\"id\":\"r1\",\"locked\":false,\"ok\":true,\
         \"state\":\"unavailable\",\"v\":1}"
    );
    assert!(!state.latched());
}

#[test]
fn malformed_requests_are_refused_with_their_id() {
    let mut state = ready_state();
    let mut wrong_version = request("lock", None);
    wrong_version.v = 2;
    assert_eq!(
        text_of(handle_request(&mut state, wrong_version)),
        "{\"error\":\"invalid_request\",\"id\":\"r1\",\"ok\":false,\"v\":1}"
    );
    for id in ["", "a b", "ä", &"x".repeat(129)] {
        let mut bad_id = request("lock", None);
        bad_id.id = id.into();
        let response = match handle_request(&mut state, bad_id) {
            Outcome::Reply(value) => value,
            other => panic!("unexpected outcome: {other:?}"),
        };
        assert_eq!(response["error"], "invalid_request");
        assert_eq!(response["id"], id);
    }
    assert!(!state.latched());
    assert_eq!(state.snapshot().generation, 5);
}

#[test]
fn unknown_operations_are_refused() {
    let mut state = ready_state();
    for op in ["", "Open", "open ", "LOCK", "lock "] {
        assert_eq!(
            text_of(handle_request(&mut state, request(op, None))),
            "{\"error\":\"unsupported_operation\",\"id\":\"r1\",\"ok\":false,\"v\":1}"
        );
    }
    assert!(!state.latched());
}

#[test]
fn copy_orders_the_first_matching_code() {
    let mut state = ready_state();
    match handle_request(&mut state, request("copy", Some("b"))) {
        Outcome::Copy(order) => {
            assert_eq!(order.id, "r1");
            assert_eq!(order.code, "222222");
            assert_eq!(order.generation, 5);
        }
        other => panic!("unexpected outcome: {other:?}"),
    }
}

#[test]
fn copy_is_refused_without_a_served_entry() {
    let mut state = ready_state();
    let refused = |reason: &str| {
        format!("{{\"error\":\"{reason}\",\"id\":\"r1\",\"ok\":false,\"v\":1}}")
    };
    assert_eq!(
        text_of(handle_request(&mut state, request("copy", None))),
        refused("invalid_item_id")
    );
    assert_eq!(
        text_of(handle_request(&mut state, request("copy", Some("../a")))),
        refused("invalid_item_id")
    );
    assert_eq!(
        text_of(handle_request(&mut state, request("copy", Some("c")))),
        refused("not_found")
    );
    state.unlock();
    assert_eq!(
        text_of(handle_request(&mut state, request("copy", Some("a")))),
        refused("locked")
    );
    state.lock();
    assert_eq!(
        text_of(handle_request(&mut state, request("copy", Some("a")))),
        refused("locked")
    );
}

#[test]
fn copied_codes_start_a_clipboard_generation() {
    let mut state = ready_state();
    let order = CopyOrder {
        id: "r1".into(),
        code: "111111".into(),
        generation: 5,
    };
    let (failed, none) = complete_copy(&mut state, &order, false);
    assert_eq!(
        serde_json::to_string(&failed).unwrap(),
        "{\"error\":\"clipboard_failed\",\"id\":\"r1\",\"ok\":false,\"v\":1}"
    );
    assert_eq!(none, None);
    assert!(state.is_current_clipboard_generation(0));
    let (done, first) = complete_copy(&mut state, &order, true);
    assert_eq!(
        serde_json::to_string(&done).unwrap(),
        "{\"copied\":true,\"generation\":5,\"id\":\"r1\",\"ok\":true,\"v\":1}"
    );
    assert_eq!(first, Some(1));
    assert_eq!(done, copy_reply(&order, true));
}

#[test]
fn envelope_replaces_its_own_members_and_ignores_other_bodies() {
    let mut members = serde_json::Map::new();
    members.insert("v".into(), Value::from("old"));
    members.insert("kept".into(), Value::from(3));
    assert_eq!(
        serde_json::to_string(&envelope("q", Value::Object(members))).unwrap(),
        "{\"id\":\"q\",\"kept\":3,\"v\":1}"
    );
    assert_eq!(
        serde_json::to_string(&envelope("q", Value::from(7))).unwrap(),
        "{\"id\":\"q\",\"v\":1}"
    );
}

#[test]
fn expired_codes_are_cleared_only_if_still_there_and_current() {
    let mut state = HelperState::default();
    let first = state.next_clipboard_generation();
    assert!(should_clear(&state, first, b"123456", &Some(b"123456".to_vec())));
    assert!(!should_clear(&state, first, b"123456", &Some(b"1234567".to_vec())));
    assert!(!should_clear(&state, first, b"123456", &None));
    let second = state.next_clipboard_generation();
    assert!(!should_clear(&state, first, b"123456", &Some(b"123456".to_vec())));
    assert!(should_clear(&state, second, b"123456", &Some(b"123456".to_vec())));
}

#[test]
fn clipboard_is_read_up_to_its_limit() {
    assert!(!clipboard_overflows(&[0; 64]));
    assert!(clipboard_overflows(&[0; 65]));
    assert_eq!(clipboard_contents(vec![7; 64], true), Some(vec![7; 64]));
    assert_eq!(clipboard_contents(vec![7; 65], true), None);
    assert_eq!(clipboard_contents(vec![7; 3], false), None);
}

#[test]
fn peers_of_other_users_are_turned_away() {
    assert_eq!(check_peer(1000, 1000), Ok(()));
    assert_eq!(check_peer(0, 1000), Err(ClientRefusal::PeerMismatch));
    assert_eq!(ClientRefusal::PeerMismatch.message(), "peer uid mismatch");
}

#[test]
fn request_lines_are_bounded_and_trimmed() {
    assert_eq!(request_text("{}\n"), Ok("{}"));
    assert_eq!(request_text(" {} \t\r\n\u{3000}"), Ok(" {}"));
    assert_eq!(request_text("\n"), Ok(""));
    assert_eq!(request_text(""), Err(ClientRefusal::RequestTooLarge));
    assert_eq!(request_text(&"x".repeat(16384)), Ok("x".repeat(16384).as_str()));
    assert_eq!(
        request_text(&"x".repeat(16385)),
        Err(ClientRefusal::RequestTooLarge)
    );
    assert_eq!(ClientRefusal::RequestTooLarge.message(), "request too large");
    assert_eq!(ClientRefusal::InvalidJson.message(), "invalid json");
    assert_eq!(
        ClientRefusal::Unencodable.message(),
        "response cannot be encoded"
    );
}

#[test]
fn long_responses_are_replaced() {
    assert_eq!(response_frame(b"{}".to_vec()), b"{}\n".to_vec());
    let fits = response_frame(vec![b'x'; MAX_RESPONSE_BYTES - 1]);
    assert_eq!(fits.len(), MAX_RESPONSE_BYTES);
    assert_eq!(fits[MAX_RESPONSE_BYTES - 1], b'\n');
    assert_eq!(response_frame(vec![b'x'; MAX_RESPONSE_BYTES]), TOO_LARGE.to_vec());
}

#[test]
fn responses_are_single_lines() {
    let line = encode_response(&Value::from("a\nb\r\u{2028}c")).unwrap();
    assert_eq!(line, "\"a\\nb\\r\u{2028}c\"\n".as_bytes().to_vec());
    let huge = encode_response(&Value::from("y".repeat(MAX_RESPONSE_BYTES))).unwrap();
    assert_eq!(huge, TOO_LARGE.to_vec());
}

#[test]
fn exchanges_send_lines_or_order_copies() {
    let mut state = ready_state();
    match serve_request(&mut state, request("lock ", None)).unwrap() {
        Exchange::Send(line) => assert_eq!(
            line,
            b"{\"error\":\"unsupported_operation\",\"id\":\"r1\",\"ok\":false,\"v\":1}\n".to_vec()
        ),
        other => panic!("unexpected exchange: {other:?}"),
    }
    match serve_request(&mut state, request("copy", Some("a"))).unwrap() {
        Exchange::Copy(order) => {
            assert_eq!(order.code, "111111");
            let (line, generation) = serve_copied(&mut state, &order, true).unwrap();
            assert_eq!(
                line,
                b"{\"copied\":true,\"generation\":5,\"id\":\"r1\",\"ok\":true,\"v\":1}\n".to_vec()
            );
            assert_eq!(generation, Some(1));
            let (line, generation) = serve_copied(&mut state, &order, false).unwrap();
            assert_eq!(
                line,
                b"{\"error\":\"clipboard_failed\",\"id\":\"r1\",\"ok\":false,\"v\":1}\n".to_vec()
            );
            assert_eq!(generation, None);
        }
        other => panic!("unexpected exchange: {other:?}"),
    }
}

#[test]
fn no_code_is_handed_out_between_lock_and_unlock() {
    let served = ready_state().snapshot().clone();
    let mut state = ready_state();
    state.lock();
    assert_eq!(state.snapshot().generation, 6);
    state.publish(served.clone()).unwrap();
    state.request_login();
    for (op, item_id) in [
        ("status", None),
        ("snapshot", None),
        ("copy", Some("a")),
        ("lock", None),
        ("other", None),
    ] {
        let answer = text_of(handle_request(&mut state, request(op, item_id)));
        assert!(!answer.contains("111111"), "{answer}");
        assert!(state.latched());
        assert!(state.snapshot().locked);
        assert!(state.snapshot().entries.is_empty());
    }
    assert_eq!(state.snapshot().generation, 7);
    state.unlock();
    assert_eq!(state.snapshot().generation, 8);
    state.publish(served).unwrap();
    assert_eq!(state.snapshot().generation, 9);
    assert!(matches!(
        handle_request(&mut state, request("copy", Some("a"))),
        Outcome::Copy(order) if order.code == "111111"
    ));
}

#[test]
fn status_reports_the_source_commit() {
    let commit = "0123456789abcdef0123456789abcdef01234567-dirty";
    let mut state = ready_state().with_source_commit(commit);
    assert_eq!(state.snapshot().generation, 5);
    assert_eq!(state.source_commit(), commit);
    state.lock();
    state.unlock();
    assert_eq!(
        text_of(handle_request(&mut state, request("status", None))),
        "{\"account\":\"me\",\
         \"commit\":\"0123456789abcdef0123456789abcdef01234567-dirty\",\
         \"count\":0,\"generation\":7,\"id\":\"r1\",\"locked\":false,\
         \"ok\":true,\"state\":\"unavailable\",\"synced\":true,\"v\":1}"
    );
}

#[test]
fn open_shows_the_window_and_keeps_the_latch() {
    let mut state = ready_state();
    state.lock();
    match handle_request(&mut state, request("open", None)) {
        Outcome::Open(value, view) => {
            assert_eq!(
                serde_json::to_string(&value).unwrap(),
                "{\"id\":\"r1\",\"ok\":true,\"v\":1}"
            );
            assert_eq!(view, OpenView::Manage);
            assert_eq!(surface(&mut state, view, false), SurfaceAction::ShowMain);
        }
        other => panic!("unexpected outcome: {other:?}"),
    }
    assert!(state.latched());
    assert_eq!(state.snapshot().generation, 6);
    assert!(!state.take_login_request());
    match serve_request(&mut state, request("open", None)) {
        Ok(Exchange::Open(line, OpenView::Manage)) => {
            assert_eq!(line, b"{\"id\":\"r1\",\"ok\":true,\"v\":1}\n")
        }
        other => panic!("unexpected exchange: {other:?}"),
    }
    let malformed = HelperRequest {
        v: 2,
        ..request("open", None)
    };
    assert_eq!(
        text_of(handle_request(&mut state, malformed)),
        "{\"error\":\"invalid_request\",\"id\":\"r1\",\"ok\":false,\"v\":1}"
    );
}

#[test]
fn only_lock_and_unlock_may_change_the_snapshot() {
    for op in ["lock", "unlock"] {
        assert!(may_change_snapshot(&request(op, None)));
    }
    for op in ["status", "snapshot", "copy", "open", "", "Lock"] {
        assert!(!may_change_snapshot(&request(op, None)));
    }
}

#[test]
fn largest_answers_are_sent_as_they_are() {
    let label = "\"".repeat(80);
    let mut state = HelperState::default();
    state
        .publish(HelperSnapshot {
            state: "ready".into(),
            locked: false,
            synced: true,
            account: "\"".repeat(120),
            generation: u64::MAX,
            now: u64::MAX,
            entries: (0..200)
                .map(|index| HelperEntry {
                    name: label.clone(),
                    issuer: label.clone(),
                    ..entry(&format!("{index:0>128}"), "0123456789")
                })
                .collect(),
        })
        .unwrap();
    match serve_request(&mut state, request("snapshot", None)) {
        Ok(Exchange::Send(line)) => {
            assert!(line.len() > 100_000);
            assert!(line.len() < MAX_RESPONSE_BYTES);
            assert_eq!(line.iter().filter(|byte| **byte == 10).count(), 1);
        }
        other => panic!("unexpected exchange: {other:?}"),
    }
    let echoed = HelperRequest {
        id: "\u{1}".repeat(16_384),
        ..request("status", None)
    };
    let rest = "{\"error\":\"invalid_request\",\"id\":\"\",\"ok\":false,\"v\":1}\n";
    match serve_request(&mut state, echoed) {
        Ok(Exchange::Send(line)) => assert_eq!(line.len(), 6 * 16_384 + rest.len()),
        other => panic!("unexpected exchange: {other:?}"),
    }
}
