use authenticator_helper::protocol::{handle_request, HelperRequest, Outcome};
use authenticator_helper::snapshot::{
    entry_value, snapshot_value, valid_code, validate_snapshot, HelperEntry, HelperSnapshot,
};
use authenticator_helper::state::{check_encoding, HelperState, MAX_RESPONSE_BYTES};
use serde_json::Value;

fn valid_snapshot() -> HelperSnapshot {
    HelperSnapshot {
        state: "ready".into(),
        locked: false,
        synced: true,
        account: "test@example.test".into(),
        generation: 1,
        now: 59,
        entries: vec![HelperEntry {
            id: "fixture-rfc6238".into(),
            name: "test".into(),
            issuer: "RFC6238".into(),
            entry_type: "Totp".into(),
            code: "94287082".into(),
            next_code: "37359152".into(),
            period: 30,
            valid_until: 60,
        }],
    }
}

fn reply(state: &mut HelperState, id: &str, op: &str) -> Value {
    let request = HelperRequest {
        v: 1,
        id: id.into(),
        op: op.into(),
        item_id: None,
    };
    match handle_request(state, request) {
        Outcome::Reply(value) => value,
        other => panic!("unexpected outcome: {other:?}"),
    }
}

#[test]
fn login_request_latch_is_consumed_once() {
    let mut state = HelperState::with_login_requested(true);
    assert!(state.take_login_request());
    assert!(!state.take_login_request());
    state.request_login();
    assert!(state.take_login_request());
}

#[test]
fn clipboard_generation_renews_expiration() {
    let mut state = HelperState::default();
    let first = state.next_clipboard_generation();
    let second = state.next_clipboard_generation();
    assert!(!state.is_current_clipboard_generation(first));
    assert!(state.is_current_clipboard_generation(second));
}

#[test]
fn clipboard_generations_start_at_one() {
    let mut state = HelperState::default();
    assert!(state.is_current_clipboard_generation(0));
    assert_eq!(state.next_clipboard_generation(), 1);
    assert_eq!(state.next_clipboard_generation(), 2);
}

#[test]
fn validates_bounded_snapshot() {
    assert!(validate_snapshot(&valid_snapshot()).is_ok());
}

#[test]
fn rejects_locked_snapshot_with_codes() {
    let mut snapshot = valid_snapshot();
    snapshot.locked = true;
    snapshot.state = "locked".into();
    assert_eq!(
        validate_snapshot(&snapshot),
        Err("locked_snapshot_has_entries".into())
    );
}

#[test]
fn rejects_invalid_code_and_id() {
    let mut snapshot = valid_snapshot();
    snapshot.entries[0].id = "../bad".into();
    snapshot.entries[0].code = "12 3456".into();
    assert_eq!(validate_snapshot(&snapshot), Err("invalid_entry".into()));
}

#[test]
fn rejects_bidi_and_zero_width_labels() {
    for character in [
        '\u{061c}', '\u{200b}', '\u{200e}', '\u{200f}', '\u{202e}', '\u{2060}',
    ] {
        let mut snapshot = valid_snapshot();
        snapshot.entries[0].name = format!("safe{character}spoof");
        assert_eq!(validate_snapshot(&snapshot), Err("invalid_entry".into()));
    }
}

#[test]
fn rejects_labels_over_utf8_byte_limit() {
    let mut snapshot = valid_snapshot();
    snapshot.entries[0].name = "ü".repeat(80);
    assert_eq!(validate_snapshot(&snapshot), Err("invalid_entry".into()));
}

#[test]
fn accepts_labels_at_utf8_byte_limit() {
    let mut snapshot = valid_snapshot();
    snapshot.entries[0].name = "ü".repeat(40);
    snapshot.entries[0].issuer = "x".repeat(80);
    assert_eq!(validate_snapshot(&snapshot), Ok(()));
    snapshot.entries[0].issuer = "x".repeat(81);
    assert_eq!(validate_snapshot(&snapshot), Err("invalid_entry".into()));
}

#[test]
fn accepts_every_state_and_no_other() {
    for name in ["ready", "locked", "needs_login", "unavailable", "error"] {
        let mut snapshot = valid_snapshot();
        snapshot.state = name.into();
        assert_eq!(validate_snapshot(&snapshot), Ok(()));
    }
    for name in ["", "Ready", "ready ", "open"] {
        let mut snapshot = valid_snapshot();
        snapshot.state = name.into();
        assert_eq!(validate_snapshot(&snapshot), Err("invalid_state".into()));
    }
}

#[test]
fn rejects_account_and_entries_out_of_bounds() {
    let mut snapshot = valid_snapshot();
    snapshot.account = "a".repeat(120);
    assert_eq!(validate_snapshot(&snapshot), Ok(()));
    snapshot.account = "a".repeat(121);
    assert_eq!(validate_snapshot(&snapshot), Err("snapshot_bounds".into()));

    let mut snapshot = valid_snapshot();
    snapshot.account = "a\tb".into();
    assert_eq!(validate_snapshot(&snapshot), Err("snapshot_bounds".into()));

    let mut snapshot = valid_snapshot();
    let entry = snapshot.entries[0].clone();
    snapshot.entries = vec![entry.clone(); 200];
    assert_eq!(validate_snapshot(&snapshot), Ok(()));
    snapshot.entries = vec![entry; 201];
    assert_eq!(validate_snapshot(&snapshot), Err("snapshot_bounds".into()));
}

#[test]
fn first_broken_rule_is_named() {
    let mut snapshot = valid_snapshot();
    snapshot.locked = true;
    snapshot.account = "a".repeat(121);
    snapshot.state = "nothing".into();
    snapshot.entries[0].period = 0;
    assert_eq!(validate_snapshot(&snapshot), Err("invalid_state".into()));
    snapshot.state = "ready".into();
    assert_eq!(validate_snapshot(&snapshot), Err("snapshot_bounds".into()));
    snapshot.account = String::new();
    assert_eq!(
        validate_snapshot(&snapshot),
        Err("locked_snapshot_has_entries".into())
    );
    snapshot.locked = false;
    assert_eq!(validate_snapshot(&snapshot), Err("invalid_entry".into()));
    snapshot.entries[0].period = 15;
    assert_eq!(validate_snapshot(&snapshot), Ok(()));
}

#[test]
fn rejects_periods_and_types_outside_the_rules() {
    for (period, accepted) in [(14, false), (15, true), (120, true), (121, false)] {
        let mut snapshot = valid_snapshot();
        snapshot.entries[0].period = period;
        assert_eq!(validate_snapshot(&snapshot).is_ok(), accepted);
    }
    let mut snapshot = valid_snapshot();
    snapshot.entries[0].entry_type = "Hotp".into();
    assert_eq!(validate_snapshot(&snapshot), Err("invalid_entry".into()));
    let mut snapshot = valid_snapshot();
    snapshot.entries[0].entry_type = "Steam".into();
    assert_eq!(validate_snapshot(&snapshot), Err("invalid_entry".into()));
    snapshot.entries[0].code = "2BCDF".into();
    snapshot.entries[0].next_code = "WXY99".into();
    assert_eq!(validate_snapshot(&snapshot), Ok(()));
}

#[test]
fn checks_codes_by_type() {
    assert!(valid_code("123456", "Totp"));
    assert!(valid_code("1234567890", "Totp"));
    assert!(!valid_code("12345", "Totp"));
    assert!(!valid_code("12345678901", "Totp"));
    assert!(!valid_code("12345a", "Totp"));
    assert!(!valid_code("12345\u{0661}", "Totp"));
    for c in "23456789BCDFGHJKMNPQRTVWXY".chars() {
        assert!(valid_code(&c.to_string().repeat(5), "Steam"));
    }
    for c in "01AEILOSUZabc".chars() {
        assert!(!valid_code(&c.to_string().repeat(5), "Steam"));
    }
    assert!(!valid_code("BCDF", "Steam"));
    assert!(!valid_code("BCDFGH", "Steam"));
}

#[test]
fn lock_clears_rows_and_advances_generation() {
    let mut state = HelperState::default();
    state.publish(valid_snapshot()).unwrap();
    assert_eq!(state.snapshot().generation, 1);
    let response = reply(&mut state, "abcd", "lock");
    assert_eq!(response["ok"], true);
    {
        let snapshot = state.snapshot();
        assert!(snapshot.locked);
        assert!(snapshot.entries.is_empty());
        assert_eq!(snapshot.generation, 2);
    }

    let mut republished = valid_snapshot();
    republished.generation = 3;
    state.publish(republished.clone()).unwrap();
    assert!(state.snapshot().locked);
    assert!(state.snapshot().entries.is_empty());

    let unlock_response = reply(&mut state, "efgh", "unlock");
    assert_eq!(unlock_response["ok"], true);
    state.publish(republished).unwrap();
    let snapshot = state.snapshot();
    assert!(!snapshot.locked);
    assert_eq!(snapshot.state, "ready");
    assert_eq!(snapshot.entries.len(), 1);
    assert_eq!(snapshot.generation, 4);
}

#[test]
fn publication_keeps_a_newer_generation_and_raises_an_older_one() {
    let mut state = HelperState::default();
    let mut snapshot = valid_snapshot();
    snapshot.generation = 50;
    state.publish(snapshot.clone()).unwrap();
    assert_eq!(state.snapshot().generation, 50);
    snapshot.generation = 7;
    state.publish(snapshot.clone()).unwrap();
    assert_eq!(state.snapshot().generation, 51);
    snapshot.generation = u64::MAX;
    state.publish(snapshot.clone()).unwrap();
    assert_eq!(state.snapshot().generation, u64::MAX);
    snapshot.generation = 0;
    state.publish(snapshot).unwrap();
    assert_eq!(state.snapshot().generation, u64::MAX);
    state.lock();
    assert_eq!(state.snapshot().generation, u64::MAX);
}

#[test]
fn refused_publication_changes_nothing() {
    let mut state = HelperState::default();
    state.publish(valid_snapshot()).unwrap();
    let mut snapshot = valid_snapshot();
    snapshot.state = "broken".into();
    snapshot.generation = 9;
    assert_eq!(state.publish(snapshot), Err("invalid_state".into()));
    assert_eq!(state.snapshot().generation, 1);
    assert_eq!(state.snapshot().state, "ready");
    assert_eq!(state.snapshot().entries.len(), 1);
}

#[test]
fn latched_state_still_validates_publications() {
    let mut state = HelperState::default();
    state.lock();
    assert!(state.latched());
    let mut snapshot = valid_snapshot();
    snapshot.entries[0].period = 1;
    assert_eq!(state.publish(snapshot), Err("invalid_entry".into()));
    assert_eq!(state.publish(valid_snapshot()), Ok(()));
    assert!(state.latched());
    assert_eq!(state.snapshot().state, "locked");
    assert_eq!(state.snapshot().generation, 1);
}

#[test]
fn unlock_keeps_the_account_and_serves_nothing() {
    let mut state = HelperState::with_login_requested(true);
    state.publish(valid_snapshot()).unwrap();
    state.lock();
    state.unlock();
    assert!(!state.latched());
    let snapshot = state.snapshot();
    assert_eq!(snapshot.state, "unavailable");
    assert!(!snapshot.locked);
    assert!(snapshot.synced);
    assert_eq!(snapshot.account, "test@example.test");
    assert_eq!(snapshot.now, 59);
    assert!(snapshot.entries.is_empty());
    assert_eq!(snapshot.generation, 3);
    assert!(state.take_login_request());
}

#[test]
fn largest_snapshot_within_the_rules_is_served() {
    let mut state = HelperState::default();
    let mut snapshot = valid_snapshot();
    let mut entry = snapshot.entries[0].clone();
    entry.id = "i".repeat(128);
    entry.name = "\"".repeat(80);
    entry.issuer = "\\".repeat(80);
    snapshot.entries = vec![entry; 200];
    snapshot.account = "\"".repeat(120);
    assert_eq!(state.publish(snapshot), Ok(()));
    assert_eq!(state.snapshot().entries.len(), 200);
}

#[test]
fn encodings_are_held_to_the_limit() {
    assert_eq!(check_encoding(&None), Err("snapshot_encode".into()));
    assert_eq!(check_encoding(&Some(vec![0; MAX_RESPONSE_BYTES])), Ok(()));
    assert_eq!(
        check_encoding(&Some(vec![0; MAX_RESPONSE_BYTES + 1])),
        Err("snapshot_too_large".into())
    );
}

#[test]
fn default_snapshot_is_unavailable() {
    let snapshot = HelperSnapshot::default();
    assert_eq!(
        serde_json::to_string(&snapshot_value(&snapshot)).unwrap(),
        "{\"account\":\"\",\"entries\":[],\"generation\":0,\"locked\":false,\"now\":0,\
         \"state\":\"unavailable\",\"synced\":false}"
    );
}

#[test]
fn snapshot_value_has_every_field() {
    assert_eq!(
        serde_json::to_string(&snapshot_value(&valid_snapshot())).unwrap(),
        "{\"account\":\"test@example.test\",\"entries\":[{\"code\":\"94287082\",\
         \"id\":\"fixture-rfc6238\",\"issuer\":\"RFC6238\",\"name\":\"test\",\
         \"nextCode\":\"37359152\",\"period\":30,\"type\":\"Totp\",\"validUntil\":60}],\
         \"generation\":1,\"locked\":false,\"now\":59,\"state\":\"ready\",\"synced\":true}"
    );
}

#[test]
fn entry_value_keeps_large_numbers() {
    let mut entry = valid_snapshot().entries[0].clone();
    entry.valid_until = u64::MAX;
    let value = entry_value(&entry);
    assert_eq!(value["validUntil"].as_u64(), Some(u64::MAX));
    assert_eq!(value["type"], "Totp");
}

#[test]
fn publication_after_an_unlock_takes_effect() {
    let mut state = HelperState::default();
    state.publish(valid_snapshot()).unwrap();
    state.lock();
    state.publish(valid_snapshot()).unwrap();
    assert!(state.snapshot().entries.is_empty());
    state.unlock();
    state.publish(valid_snapshot()).unwrap();
    assert_eq!(state.snapshot().state, "ready");
    assert_eq!(state.snapshot().entries.len(), 1);
    assert_eq!(state.snapshot().generation, 4);
}
