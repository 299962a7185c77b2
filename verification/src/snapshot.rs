//! What the authenticator publishes: its entries with their one-time codes, and the rules that a
//! snapshot of them has to meet.

use crate::json::{
    bool_value, insert_member, list_value, new_members, number_value, object_value, text_value,
    JsonTree,
};
use crate::text::{bounded_text, text_equal, valid_id};
use serde_json::Value;
use vstd::prelude::*;

verus! {

/// The most entries that a snapshot may hold.
pub const MAX_ENTRIES: usize = 200;

/// The most bytes that the account name may take.
pub const MAX_ACCOUNT_BYTES: usize = 120;

/// The most bytes that an entry's name or issuer may take.
pub const MAX_LABEL_BYTES: usize = 80;

/// The shortest life of a code, in seconds.
pub const MIN_PERIOD: u32 = 15;

/// The longest life of a code, in seconds.
pub const MAX_PERIOD: u32 = 120;

/// One entry of the authenticator, with the code that is valid now and the one after it.
#[derive(Debug)]
pub struct HelperEntry {
    pub id: String,
    pub name: String,
    pub issuer: String,
    pub entry_type: String,
    pub code: String,
    pub next_code: String,
    pub period: u32,
    pub valid_until: u64,
}

/// The authenticator's entries at one moment, and whether they may be shown.
#[derive(Debug)]
pub struct HelperSnapshot {
    pub state: String,
    pub locked: bool,
    pub synced: bool,
    pub account: String,
    pub generation: u64,
    pub now: u64,
    pub entries: Vec<HelperEntry>,
}

/// What a [`HelperEntry`] says.
pub struct EntryModel {
    pub id: Seq<char>,
    pub name: Seq<char>,
    pub issuer: Seq<char>,
    pub entry_type: Seq<char>,
    pub code: Seq<char>,
    pub next_code: Seq<char>,
    pub period: u32,
    pub valid_until: u64,
}

/// What a [`HelperSnapshot`] says.
pub struct SnapshotModel {
    pub state: Seq<char>,
    pub locked: bool,
    pub synced: bool,
    pub account: Seq<char>,
    pub generation: u64,
    pub now: u64,
    pub entries: Seq<EntryModel>,
}

impl Clone for HelperEntry {
    fn clone(&self) -> (copy: Self)
        ensures
            copy@ == self@,
    {
        HelperEntry {
            id: self.id.clone(),
            name: self.name.clone(),
            issuer: self.issuer.clone(),
            entry_type: self.entry_type.clone(),
            code: self.code.clone(),
            next_code: self.next_code.clone(),
            period: self.period,
            valid_until: self.valid_until,
        }
    }
}

impl Clone for HelperSnapshot {
    fn clone(&self) -> (copy: Self)
        ensures
            copy@ == self@,
    {
        let copy = HelperSnapshot {
            state: self.state.clone(),
            locked: self.locked,
            synced: self.synced,
            account: self.account.clone(),
            generation: self.generation,
            now: self.now,
            entries: self.entries.clone(),
        };
        assert(copy@.entries =~= self@.entries);
        copy
    }
}

impl View for HelperEntry {
    type V = EntryModel;

    open spec fn view(&self) -> EntryModel {
        EntryModel {
            id: self.id@,
            name: self.name@,
            issuer: self.issuer@,
            entry_type: self.entry_type@,
            code: self.code@,
            next_code: self.next_code@,
            period: self.period,
            valid_until: self.valid_until,
        }
    }
}

impl View for HelperSnapshot {
    type V = SnapshotModel;

    open spec fn view(&self) -> SnapshotModel {
        SnapshotModel {
            state: self.state@,
            locked: self.locked,
            synced: self.synced,
            account: self.account@,
            generation: self.generation,
            now: self.now,
            entries: self.entries@.map_values(|entry: HelperEntry| entry@),
        }
    }
}

/// A character of a Steam code.
pub open spec fn is_steam_char(c: char) -> bool {
    ||| '2' <= c <= '9'
    ||| 'B' <= c <= 'D'
    ||| 'F' <= c <= 'H'
    ||| c == 'J'
    ||| c == 'K'
    ||| c == 'M'
    ||| c == 'N'
    ||| 'P' <= c <= 'R'
    ||| c == 'T'
    ||| 'V' <= c <= 'Y'
}

/// A code of the given entry type: five characters of Steam's alphabet, or six to ten digits.
pub open spec fn is_code(code: Seq<char>, entry_type: Seq<char>) -> bool {
    if entry_type == "Steam"@ {
        &&& code.len() == 5
        &&& forall|i: int| 0 <= i < code.len() ==> is_steam_char(#[trigger] code[i])
    } else {
        &&& 6 <= code.len() <= 10
        &&& forall|i: int| 0 <= i < code.len() ==> crate::text::is_digit(#[trigger] code[i])
    }
}

impl EntryModel {
    /// An entry that a snapshot may hold.
    pub open spec fn valid(self) -> bool {
        &&& crate::text::is_id(self.id)
        &&& crate::text::is_bounded_text(self.name, MAX_LABEL_BYTES as nat)
        &&& crate::text::is_bounded_text(self.issuer, MAX_LABEL_BYTES as nat)
        &&& self.entry_type == "Totp"@ || self.entry_type == "Steam"@
        &&& is_code(self.code, self.entry_type)
        &&& is_code(self.next_code, self.entry_type)
        &&& MIN_PERIOD <= self.period <= MAX_PERIOD
    }
}

/// A state that a snapshot may be in.
pub open spec fn is_state(state: Seq<char>) -> bool {
    ||| state == "ready"@
    ||| state == "locked"@
    ||| state == "needs_login"@
    ||| state == "unavailable"@
    ||| state == "error"@
}

impl SnapshotModel {
    /// Whether the snapshot may be published, or else the first rule that it breaks.
    pub open spec fn verdict(self) -> Result<(), Seq<char>> {
        if !is_state(self.state) {
            Err("invalid_state"@)
        } else if !crate::text::is_bounded_text(self.account, MAX_ACCOUNT_BYTES as nat)
            || self.entries.len() > MAX_ENTRIES {
            Err("snapshot_bounds"@)
        } else if self.locked && self.entries.len() > 0 {
            Err("locked_snapshot_has_entries"@)
        } else if exists|i: int| 0 <= i < self.entries.len() && !(#[trigger] self.entries[i]).valid() {
            Err("invalid_entry"@)
        } else {
            Ok(())
        }
    }
}

/// A result whose error is told by its text.
pub open spec fn told(result: Result<(), String>) -> Result<(), Seq<char>> {
    match result {
        Ok(()) => Ok(()),
        Err(reason) => Err(reason@),
    }
}

impl Default for HelperSnapshot {
    /// Nothing is known of the authenticator yet.
    fn default() -> (snapshot: Self)
        ensures
            snapshot@ == empty_snapshot(),
    {
        let snapshot = HelperSnapshot {
            state: "unavailable".to_string(),
            locked: false,
            synced: false,
            account: String::new(),
            generation: 0,
            now: 0,
            entries: Vec::new(),
        };
        assert(snapshot@.entries =~= Seq::<EntryModel>::empty());
        snapshot
    }
}

/// The snapshot before anything was published.
pub open spec fn empty_snapshot() -> SnapshotModel {
    SnapshotModel {
        state: "unavailable"@,
        locked: false,
        synced: false,
        account: Seq::empty(),
        generation: 0,
        now: 0,
        entries: Seq::empty(),
    }
}

/// Tells whether `code` is a code of the given entry type.
pub fn valid_code(code: &str, entry_type: &str) -> (valid: bool)
    ensures
        valid == is_code(code@, entry_type@),
{
    let steam = text_equal(entry_type, "Steam");
    let length = code.unicode_len();
    if steam {
        if length != 5 {
            return false;
        }
    } else if length < 6 || length > 10 {
        return false;
    }
    for c in it: code.chars()
        invariant
            it.seq() == code@,
            steam == (entry_type@ == "Steam"@),
            steam ==> forall|i: int| 0 <= i < it.index() ==> is_steam_char(#[trigger] code@[i]),
            !steam ==> forall|i: int|
                0 <= i < it.index() ==> crate::text::is_digit(#[trigger] code@[i]),
    {
        let accepted = if steam {
            ('2' <= c && c <= '9') || ('B' <= c && c <= 'D') || ('F' <= c && c <= 'H') || c == 'J'
                || c == 'K' || c == 'M' || c == 'N' || ('P' <= c && c <= 'R') || c == 'T' || ('V'
                <= c && c <= 'Y')
        } else {
            '0' <= c && c <= '9'
        };
        if !accepted {
            assert(steam ==> !is_steam_char(code@[it.index()]));
            assert(!steam ==> !crate::text::is_digit(code@[it.index()]));
            return false;
        }
    }
    true
}

/// Tells whether an entry may stand in a snapshot.
fn valid_entry(entry: &HelperEntry) -> (valid: bool)
    ensures
        valid == entry@.valid(),
{
    let entry_type = entry.entry_type.as_str();
    valid_id(entry.id.as_str()) && bounded_text(entry.name.as_str(), MAX_LABEL_BYTES)
        && bounded_text(entry.issuer.as_str(), MAX_LABEL_BYTES) && (text_equal(entry_type, "Totp")
        || text_equal(entry_type, "Steam")) && valid_code(entry.code.as_str(), entry_type)
        && valid_code(entry.next_code.as_str(), entry_type) && MIN_PERIOD <= entry.period
        && entry.period <= MAX_PERIOD
}

/// Accepts a snapshot that meets every rule, and names the first rule that another breaks.
pub fn validate_snapshot(snapshot: &HelperSnapshot) -> (verdict: Result<(), String>)
    ensures
        told(verdict) == snapshot@.verdict(),
{
    let state = snapshot.state.as_str();
    if !(text_equal(state, "ready") || text_equal(state, "locked") || text_equal(
        state,
        "needs_login",
    ) || text_equal(state, "unavailable") || text_equal(state, "error")) {
        return Err("invalid_state".to_string());
    }
    if !bounded_text(snapshot.account.as_str(), MAX_ACCOUNT_BYTES) || snapshot.entries.len()
        > MAX_ENTRIES {
        return Err("snapshot_bounds".to_string());
    }
    if snapshot.locked && snapshot.entries.len() > 0 {
        return Err("locked_snapshot_has_entries".to_string());
    }
    for index in 0..snapshot.entries.len()
        invariant
            snapshot@.verdict() is Err ==> snapshot@.verdict() == Err::<(), Seq<char>>(
                "invalid_entry"@,
            ),
            forall|i: int| 0 <= i < index ==> (#[trigger] snapshot@.entries[i]).valid(),
    {
        if !valid_entry(&snapshot.entries[index]) {
            assert(!snapshot@.entries[index as int].valid());
            return Err("invalid_entry".to_string());
        }
    }
    Ok(())
}

/// The JSON object of an entry.
pub open spec fn entry_tree(entry: EntryModel) -> JsonTree {
    JsonTree::Object(
        map![
            "id"@ => JsonTree::Text(entry.id),
            "name"@ => JsonTree::Text(entry.name),
            "issuer"@ => JsonTree::Text(entry.issuer),
            "type"@ => JsonTree::Text(entry.entry_type),
            "code"@ => JsonTree::Text(entry.code),
            "nextCode"@ => JsonTree::Text(entry.next_code),
            "period"@ => JsonTree::Number(entry.period as int),
            "validUntil"@ => JsonTree::Number(entry.valid_until as int),
        ],
    )
}

/// The members of a snapshot's JSON object.
pub open spec fn snapshot_members(snapshot: SnapshotModel) -> Map<Seq<char>, JsonTree> {
    map![
        "state"@ => JsonTree::Text(snapshot.state),
        "locked"@ => JsonTree::Bool(snapshot.locked),
        "synced"@ => JsonTree::Bool(snapshot.synced),
        "account"@ => JsonTree::Text(snapshot.account),
        "generation"@ => JsonTree::Number(snapshot.generation as int),
        "now"@ => JsonTree::Number(snapshot.now as int),
        "entries"@ => JsonTree::List(
            snapshot.entries.map_values(|entry: EntryModel| entry_tree(entry)),
        ),
    ]
}

/// Builds the JSON object of an entry.
pub fn entry_value(entry: &HelperEntry) -> (value: Value)
    ensures
        crate::json::json_tree(value) == entry_tree(entry@),
{
    let mut members = new_members();
    insert_member(&mut members, "id", text_value(entry.id.as_str()));
    insert_member(&mut members, "name", text_value(entry.name.as_str()));
    insert_member(&mut members, "issuer", text_value(entry.issuer.as_str()));
    insert_member(&mut members, "type", text_value(entry.entry_type.as_str()));
    insert_member(&mut members, "code", text_value(entry.code.as_str()));
    insert_member(&mut members, "nextCode", text_value(entry.next_code.as_str()));
    insert_member(&mut members, "period", number_value(entry.period as u64));
    insert_member(&mut members, "validUntil", number_value(entry.valid_until));
    object_value(members)
}

/// Builds the JSON object of a snapshot.
pub fn snapshot_value(snapshot: &HelperSnapshot) -> (value: Value)
    ensures
        crate::json::json_tree(value) == JsonTree::Object(snapshot_members(snapshot@)),
{
    let mut entries: Vec<Value> = Vec::new();
    for index in 0..snapshot.entries.len()
        invariant
            entries@.len() == index,
            forall|i: int|
                0 <= i < index ==> crate::json::json_tree(#[trigger] entries@[i]) == entry_tree(
                    snapshot@.entries[i],
                ),
    {
        entries.push(entry_value(&snapshot.entries[index]));
    }
    assert(crate::json::json_trees(entries@) =~= snapshot@.entries.map_values(
        |entry: EntryModel| entry_tree(entry),
    ));
    let mut members = new_members();
    insert_member(&mut members, "state", text_value(snapshot.state.as_str()));
    insert_member(&mut members, "locked", bool_value(snapshot.locked));
    insert_member(&mut members, "synced", bool_value(snapshot.synced));
    insert_member(&mut members, "account", text_value(snapshot.account.as_str()));
    insert_member(&mut members, "generation", number_value(snapshot.generation));
    insert_member(&mut members, "now", number_value(snapshot.now));
    insert_member(&mut members, "entries", list_value(entries));
    object_value(members)
}

}
