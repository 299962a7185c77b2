//! The helper's state: the snapshot that it serves, the manual lock latch, the pending sign-in
//! request, the clipboard generation and the source commit that it reports.

use crate::json::encode;
use crate::snapshot::{
    snapshot_value, validate_snapshot, EntryModel, HelperSnapshot, SnapshotModel,
};
use vstd::prelude::*;

verus! {

/// The most bytes that an encoded snapshot, and a response with its line feed, may take.
pub const MAX_RESPONSE_BYTES: usize = 1_048_576;

/// What the helper knows and serves.
pub struct HelperState {
    snapshot: HelperSnapshot,
    manual_locked: bool,
    login_requested: bool,
    clipboard_generation: u64,
    source_commit: String,
}

/// What a [`HelperState`] says.
pub struct StateModel {
    pub snapshot: SnapshotModel,
    /// The manual lock latch: while it is set nothing that is published is taken over.
    pub manual_locked: bool,
    /// A sign-in was asked for and nobody has taken the request up.
    pub login_requested: bool,
    /// Counts the codes that were copied.
    pub clipboard_generation: u64,
    /// The source commit that the running program was built from.
    pub source_commit: Seq<char>,
}

/// The generation after `generation`; the last one stays.
pub open spec fn generation_after(generation: u64) -> u64 {
    if generation == u64::MAX {
        generation
    } else {
        (generation + 1) as u64
    }
}

/// The number after `generation`, going round after the last.
pub open spec fn wrapped_generation(generation: u64) -> u64 {
    if generation == u64::MAX {
        0
    } else {
        (generation + 1) as u64
    }
}

/// Whether an encoded snapshot is small enough to be served, or else why it is not. Without an
/// encoding there is nothing to serve.
pub open spec fn encoding_verdict(encoded: Option<Seq<u8>>) -> Result<(), Seq<char>> {
    match encoded {
        None => Err("snapshot_encode"@),
        Some(bytes) => if bytes.len() > MAX_RESPONSE_BYTES {
            Err("snapshot_too_large"@)
        } else {
            Ok(())
        },
    }
}

impl StateModel {
    /// The snapshot meets the rules for one, and while the latch is set it is locked and empty.
    pub open spec fn wf(self) -> bool {
        &&& self.snapshot.verdict() is Ok
        &&& self.manual_locked ==> self.snapshot.locked && self.snapshot.state == "locked"@
            && self.snapshot.entries.len() == 0
    }

    /// Nothing was published, locked, asked for or copied yet, and the source commit is unknown.
    pub open spec fn fresh(login_requested: bool) -> StateModel {
        StateModel {
            snapshot: crate::snapshot::empty_snapshot(),
            manual_locked: false,
            login_requested,
            clipboard_generation: 0,
            source_commit: "unknown"@,
        }
    }

    /// The snapshot as it is served if it is published now: never in an older generation than the
    /// one after the current.
    pub open spec fn stamped(self, snapshot: SnapshotModel) -> SnapshotModel {
        let next = generation_after(self.snapshot.generation);
        SnapshotModel {
            generation: if snapshot.generation > next {
                snapshot.generation
            } else {
                next
            },
            ..snapshot
        }
    }

    /// What is said of the size of the snapshot's JSON text.
    pub open spec fn size_verdict(self) -> Result<(), Seq<char>> {
        encoding_verdict(
            Some(
                crate::json::json_text(
                    crate::json::JsonTree::Object(crate::snapshot::snapshot_members(self.snapshot)),
                ),
            ),
        )
    }

    /// What publishing `snapshot` answers: whatever the rules for a snapshot say of it, whether the
    /// latch is set or not. One that meets the rules is never too large to be served.
    pub open spec fn publish_verdict(self, snapshot: SnapshotModel) -> Result<(), Seq<char>> {
        snapshot.verdict()
    }

    /// The state after publishing `snapshot`: it is taken over if it is accepted and the latch is
    /// not set.
    pub open spec fn published(self, snapshot: SnapshotModel) -> StateModel {
        if self.publish_verdict(snapshot) is Ok && !self.manual_locked {
            StateModel { snapshot: self.stamped(snapshot), ..self }
        } else {
            self
        }
    }

    /// The state after a manual lock: the latch is set and no entry is left.
    pub open spec fn locked(self) -> StateModel {
        StateModel {
            snapshot: SnapshotModel {
                state: "locked"@,
                locked: true,
                entries: Seq::empty(),
                generation: generation_after(self.snapshot.generation),
                ..self.snapshot
            },
            manual_locked: true,
            ..self
        }
    }

    /// The state after an unlock: the latch is released, and nothing is served until the next
    /// publication.
    pub open spec fn unlocked(self) -> StateModel {
        StateModel {
            snapshot: SnapshotModel {
                state: "unavailable"@,
                locked: false,
                entries: Seq::empty(),
                generation: generation_after(self.snapshot.generation),
                ..self.snapshot
            },
            manual_locked: false,
            ..self
        }
    }
}

impl View for HelperState {
    type V = StateModel;

    closed spec fn view(&self) -> StateModel {
        StateModel {
            snapshot: self.snapshot@,
            manual_locked: self.manual_locked,
            login_requested: self.login_requested,
            clipboard_generation: self.clipboard_generation,
            source_commit: self.source_commit@,
        }
    }
}

/// Tells whether an encoded snapshot can be served; `None` is one that could not be encoded.
pub fn check_encoding(encoded: &Option<Vec<u8>>) -> (verdict: Result<(), String>)
    ensures
        crate::snapshot::told(verdict) == encoding_verdict(crate::text::optional_bytes(*encoded)),
{
    match encoded {
        None => Err("snapshot_encode".to_string()),
        Some(bytes) => if bytes.len() > MAX_RESPONSE_BYTES {
            Err("snapshot_too_large".to_string())
        } else {
            Ok(())
        },
    }
}

impl Default for HelperState {
    fn default() -> (state: Self)
        ensures
            state@ == StateModel::fresh(false),
    {
        HelperState::with_login_requested(false)
    }
}

impl HelperState {
    #[verifier::type_invariant]
    spec fn well_formed(self) -> bool {
        self@.wf()
    }

    /// A state in which nothing was published yet; `login_requested` says whether a sign-in is
    /// asked for from the start.
    pub fn with_login_requested(login_requested: bool) -> (state: Self)
        ensures
            state@ == StateModel::fresh(login_requested),
            state@.wf(),
    {
        HelperState {
            snapshot: HelperSnapshot::default(),
            manual_locked: false,
            login_requested,
            clipboard_generation: 0,
            source_commit: "unknown".to_string(),
        }
    }

    /// The same state of a program that was built from the source commit `commit`.
    pub fn with_source_commit(self, commit: &str) -> (state: Self)
        ensures
            state@ == (StateModel { source_commit: commit@, ..self@ }),
            state@.wf(),
    {
        proof {
            use_type_invariant(&self);
        }
        HelperState {
            snapshot: self.snapshot,
            manual_locked: self.manual_locked,
            login_requested: self.login_requested,
            clipboard_generation: self.clipboard_generation,
            source_commit: commit.to_string(),
        }
    }

    /// The source commit that the running program was built from.
    pub fn source_commit(&self) -> (commit: &str)
        ensures
            commit@ == self@.source_commit,
    {
        self.source_commit.as_str()
    }

    /// The snapshot that is served.
    pub fn snapshot(&self) -> (snapshot: &HelperSnapshot)
        ensures
            snapshot@ == self@.snapshot,
            self@.wf(),
    {
        proof {
            use_type_invariant(self);
        }
        &self.snapshot
    }

    /// Tells whether the manual lock latch is set.
    pub fn latched(&self) -> (latched: bool)
        ensures
            latched == self@.manual_locked,
            self@.wf(),
    {
        proof {
            use_type_invariant(self);
        }
        self.manual_locked
    }

    /// Asks for a sign-in.
    pub fn request_login(&mut self)
        ensures
            final(self)@ == (StateModel { login_requested: true, ..old(self)@ }),
            final(self)@.wf(),
    {
        proof {
            use_type_invariant(&*self);
        }
        self.login_requested = true;
    }

    /// Takes up the sign-in request, if there is one; it can be taken up once.
    pub fn take_login_request(&mut self) -> (requested: bool)
        ensures
            requested == old(self)@.login_requested,
            final(self)@ == (StateModel { login_requested: false, ..old(self)@ }),
            final(self)@.wf(),
    {
        proof {
            use_type_invariant(&*self);
        }
        let requested = self.login_requested;
        self.login_requested = false;
        requested
    }

    /// Starts a new clipboard generation, which ends the one before, and returns its number.
    ///
    /// The counter wraps around, while the number that is returned saturates.
    pub fn next_clipboard_generation(&mut self) -> (generation: u64)
        ensures
            generation == generation_after(old(self)@.clipboard_generation),
            final(self)@ == (StateModel {
                clipboard_generation: wrapped_generation(old(self)@.clipboard_generation),
                ..old(self)@
            }),
            final(self)@.wf(),
    {
        proof {
            use_type_invariant(&*self);
        }
        let previous = self.clipboard_generation;
        self.clipboard_generation = previous.wrapping_add(1);
        previous.saturating_add(1)
    }

    /// Tells whether no code was copied since the clipboard generation `generation` started.
    pub fn is_current_clipboard_generation(&self, generation: u64) -> (current: bool)
        ensures
            current == (self@.clipboard_generation == generation),
    {
        self.clipboard_generation == generation
    }

    /// Takes over a snapshot that meets the rules and is small enough to be served. While the
    /// manual lock latch is set, a snapshot that meets the rules is passed over in silence.
    pub fn publish(&mut self, snapshot: HelperSnapshot) -> (verdict: Result<(), String>)
        ensures
            crate::snapshot::told(verdict) == old(self)@.publish_verdict(snapshot@),
            final(self)@ == old(self)@.published(snapshot@),
            final(self)@.wf(),
            verdict is Ok && !old(self)@.manual_locked ==> final(self)@.size_verdict() is Ok,
    {
        proof {
            use_type_invariant(&*self);
        }
        let verdict = validate_snapshot(&snapshot);
        if verdict.is_err() {
            return verdict;
        }
        if self.manual_locked {
            return Ok(());
        }
        let mut stamped = snapshot;
        let next = self.snapshot.generation.saturating_add(1);
        if stamped.generation < next {
            stamped.generation = next;
        }
        let encoded = match encode(&snapshot_value(&stamped)) {
            Ok(bytes) => Some(bytes),
            Err(_) => None,
        };
        proof {
            assert(stamped@.verdict() == snapshot@.verdict());
            crate::size::lemma_valid_snapshot_fits(stamped@);
        }
        let verdict = check_encoding(&encoded);
        if verdict.is_err() {
            return verdict;
        }
        self.snapshot = stamped;
        Ok(())
    }

    /// Sets the manual lock latch and drops every entry.
    pub fn lock(&mut self)
        ensures
            final(self)@ == old(self)@.locked(),
            final(self)@.wf(),
    {
        proof {
            use_type_invariant(&*self);
        }
        *self = HelperState {
            snapshot: self.emptied("locked", true),
            manual_locked: true,
            login_requested: self.login_requested,
            clipboard_generation: self.clipboard_generation,
            source_commit: self.source_commit.clone(),
        };
    }

    /// Releases the manual lock latch. Nothing is served until the next publication.
    pub fn unlock(&mut self)
        ensures
            final(self)@ == old(self)@.unlocked(),
            final(self)@.wf(),
    {
        proof {
            use_type_invariant(&*self);
        }
        *self = HelperState {
            snapshot: self.emptied("unavailable", false),
            manual_locked: false,
            login_requested: self.login_requested,
            clipboard_generation: self.clipboard_generation,
            source_commit: self.source_commit.clone(),
        };
    }

    /// The snapshot of the next generation, without entries and in the given state.
    fn emptied(&self, state: &str, locked: bool) -> (snapshot: HelperSnapshot)
        ensures
            snapshot@ == (SnapshotModel {
                state: state@,
                locked,
                entries: Seq::empty(),
                generation: generation_after(self@.snapshot.generation),
                ..self@.snapshot
            }),
    {
        let snapshot = HelperSnapshot {
            state: state.to_string(),
            locked,
            synced: self.snapshot.synced,
            account: self.snapshot.account.clone(),
            generation: self.snapshot.generation.saturating_add(1),
            now: self.snapshot.now,
            entries: Vec::new(),
        };
        assert(snapshot@.entries =~= Seq::<EntryModel>::empty());
        snapshot
    }
}

}
