//! Where the helper's socket lies, what has to hold of that place before the helper listens there,
//! and how many clients it serves at a time.

use vstd::prelude::*;
use vstd::string::*;

verus! {

/// The most clients that are served at a time.
pub const MAX_CONNECTIONS: usize = 16;

/// How long a client may keep the helper waiting, in seconds.
pub const CLIENT_SECONDS: u64 = 2;

/// The permission bits of a directory that only its owner can use.
pub const PRIVATE_DIRECTORY_MODE: u32 = 0o700;

/// The permission bits of a socket that only its owner can use.
pub const PRIVATE_SOCKET_MODE: u32 = 0o600;

/// The path of the socket in the runtime directory `runtime`.
pub open spec fn socket_path_in(runtime: Seq<u8>) -> Seq<u8> {
    let directory = if runtime.last() == 0x2f {
        runtime
    } else {
        runtime.push(0x2f)
    };
    directory + vstd::utf8::encode_utf8("proton-authenticator-omarchy/helper.sock"@)
}

/// The path of the socket, given the runtime directory that the session names, if it names one.
pub fn socket_path(runtime: Option<Vec<u8>>) -> (path: Option<Vec<u8>>)
    ensures
        crate::text::optional_bytes(path) == (match crate::text::optional_bytes(runtime) {
            Some(directory) if directory.len() > 0 => Some(socket_path_in(directory)),
            _ => None,
        }),
{
    match runtime {
        Some(mut path) if path.len() > 0 => {
            if path[path.len() - 1] != 0x2f {
                path.push(0x2f);
            }
            let mut rest = "proton-authenticator-omarchy/helper.sock".as_bytes_vec();
            path.append(&mut rest);
            Some(path)
        },
        _ => None,
    }
}

/// What a name in the file system stands for, a symbolic link not followed.
#[derive(Clone, Copy, Debug, PartialEq, Eq, Structural)]
pub enum FileKind {
    Directory,
    Socket,
    Symlink,
    Other,
}

/// What is known of a file.
#[derive(Clone, Copy, Debug, PartialEq, Eq, Structural)]
pub struct FileFacts {
    pub uid: u32,
    pub kind: FileKind,
    pub mode: u32,
}

impl FileFacts {
    /// A directory of the user `uid`.
    pub open spec fn own_directory(self, uid: u32) -> bool {
        self.uid == uid && self.kind == FileKind::Directory
    }

    /// A directory that the user `uid` owns and nobody else can use.
    pub open spec fn private_directory(self, uid: u32) -> bool {
        self.own_directory(uid) && self.mode & 0o077 == 0
    }

    /// A socket of the user `uid`.
    pub open spec fn own_socket(self, uid: u32) -> bool {
        self.uid == uid && self.kind == FileKind::Socket
    }
}

/// Why the helper does not listen at its place.
#[derive(Clone, Copy, Debug, PartialEq, Eq, Structural)]
pub enum SocketRefusal {
    /// The directory of the socket is not a private directory of the helper's user.
    UnsafeDirectory,
    /// Something other than a socket of the helper's user stands where the socket would.
    UnsafeSocket,
}

impl SocketRefusal {
    /// What is said of the refusal.
    pub open spec fn text(self) -> Seq<char> {
        match self {
            SocketRefusal::UnsafeDirectory => "unsafe runtime directory"@,
            SocketRefusal::UnsafeSocket => "unsafe existing socket path"@,
        }
    }

    /// What is said of the refusal.
    pub fn message(&self) -> (message: &'static str)
        ensures
            message@ == self.text(),
    {
        match self {
            SocketRefusal::UnsafeDirectory => "unsafe runtime directory",
            SocketRefusal::UnsafeSocket => "unsafe existing socket path",
        }
    }
}

/// How far the preparation of the socket has come: the step to take next, or how it ended.
#[derive(Clone, Copy, Debug, PartialEq, Eq, Structural)]
pub enum SetupStep {
    /// Look at the directory.
    InspectDirectory,
    /// Take the directory's permissions from everybody but its owner.
    RestrictDirectory,
    /// Make the directory, for its owner alone.
    CreateDirectory,
    /// Look at the directory again.
    ConfirmDirectory,
    /// Look at what stands where the socket is to be.
    InspectSocket,
    /// Remove the socket that was left there.
    RemoveSocket,
    /// Listen.
    Bind,
    /// Take the socket's permissions from everybody but its owner.
    RestrictSocket,
    /// The helper listens.
    Ready,
    /// The place is not safe.
    Refused(SocketRefusal),
    /// A step failed; its error is the reason.
    Failed,
}

/// What came of a step.
#[derive(Clone, Copy, Debug, PartialEq, Eq, Structural)]
pub enum SetupEvent {
    /// What was looked at is there.
    Found(FileFacts),
    /// What was looked at is not there.
    Missing,
    /// The step was taken.
    Done,
    /// The step failed.
    Failed,
}

impl SetupStep {
    /// The step after `self`, for the user `uid`.
    pub open spec fn after(self, event: SetupEvent, uid: u32) -> SetupStep {
        match (self, event) {
            (SetupStep::InspectDirectory, SetupEvent::Found(facts)) => {
                if !facts.own_directory(uid) {
                    SetupStep::Refused(SocketRefusal::UnsafeDirectory)
                } else if !facts.private_directory(uid) {
                    SetupStep::RestrictDirectory
                } else {
                    SetupStep::ConfirmDirectory
                }
            },
            (SetupStep::InspectDirectory, SetupEvent::Missing) => SetupStep::CreateDirectory,
            (SetupStep::RestrictDirectory, SetupEvent::Done) => SetupStep::ConfirmDirectory,
            (SetupStep::CreateDirectory, SetupEvent::Done) => SetupStep::ConfirmDirectory,
            (SetupStep::ConfirmDirectory, SetupEvent::Found(facts)) => {
                if facts.private_directory(uid) {
                    SetupStep::InspectSocket
                } else {
                    SetupStep::Refused(SocketRefusal::UnsafeDirectory)
                }
            },
            (SetupStep::InspectSocket, SetupEvent::Found(facts)) => {
                if facts.own_socket(uid) {
                    SetupStep::RemoveSocket
                } else {
                    SetupStep::Refused(SocketRefusal::UnsafeSocket)
                }
            },
            (SetupStep::InspectSocket, _) => SetupStep::Bind,
            (SetupStep::RemoveSocket, SetupEvent::Done) => SetupStep::Bind,
            (SetupStep::Bind, SetupEvent::Done) => SetupStep::RestrictSocket,
            (SetupStep::RestrictSocket, SetupEvent::Done) => SetupStep::Ready,
            (SetupStep::Ready, _) => SetupStep::Ready,
            (SetupStep::Refused(refusal), _) => SetupStep::Refused(refusal),
            _ => SetupStep::Failed,
        }
    }

    /// The step that the preparation starts with.
    pub fn first() -> (step: SetupStep)
        ensures
            step == SetupStep::InspectDirectory,
    {
        SetupStep::InspectDirectory
    }

    /// The step after `self`, for the user `uid`.
    pub fn advance(self, event: SetupEvent, uid: u32) -> (next: SetupStep)
        ensures
            next == self.after(event, uid),
    {
        match (self, event) {
            (SetupStep::InspectDirectory, SetupEvent::Found(facts)) => {
                if facts.uid != uid || facts.kind != FileKind::Directory {
                    SetupStep::Refused(SocketRefusal::UnsafeDirectory)
                } else if facts.mode & 0o077 != 0 {
                    SetupStep::RestrictDirectory
                } else {
                    SetupStep::ConfirmDirectory
                }
            },
            (SetupStep::InspectDirectory, SetupEvent::Missing) => SetupStep::CreateDirectory,
            (SetupStep::RestrictDirectory, SetupEvent::Done) => SetupStep::ConfirmDirectory,
            (SetupStep::CreateDirectory, SetupEvent::Done) => SetupStep::ConfirmDirectory,
            (SetupStep::ConfirmDirectory, SetupEvent::Found(facts)) => {
                if facts.uid != uid || facts.kind != FileKind::Directory || facts.mode & 0o077
                    != 0 {
                    SetupStep::Refused(SocketRefusal::UnsafeDirectory)
                } else {
                    SetupStep::InspectSocket
                }
            },
            (SetupStep::InspectSocket, SetupEvent::Found(facts)) => {
                if facts.uid != uid || facts.kind != FileKind::Socket {
                    SetupStep::Refused(SocketRefusal::UnsafeSocket)
                } else {
                    SetupStep::RemoveSocket
                }
            },
            (SetupStep::InspectSocket, _) => SetupStep::Bind,
            (SetupStep::RemoveSocket, SetupEvent::Done) => SetupStep::Bind,
            (SetupStep::Bind, SetupEvent::Done) => SetupStep::RestrictSocket,
            (SetupStep::RestrictSocket, SetupEvent::Done) => SetupStep::Ready,
            (SetupStep::Ready, _) => SetupStep::Ready,
            (SetupStep::Refused(refusal), _) => SetupStep::Refused(refusal),
            _ => SetupStep::Failed,
        }
    }
}

/// The step that the preparation has come to after `events`.
pub open spec fn setup_after(events: Seq<SetupEvent>, uid: u32) -> SetupStep
    decreases events.len(),
{
    if events.len() == 0 {
        SetupStep::InspectDirectory
    } else {
        setup_after(events.drop_last(), uid).after(events.last(), uid)
    }
}

/// The steps that come after the directory was confirmed.
pub open spec fn directory_confirmed(step: SetupStep) -> bool {
    ||| step is InspectSocket
    ||| step is RemoveSocket
    ||| step is Bind
    ||| step is RestrictSocket
    ||| step is Ready
}

/// Whether `events` hold a moment at which the directory was looked at again and was found to be
/// a private directory of the user `uid`.
pub open spec fn saw_private_directory(events: Seq<SetupEvent>, uid: u32) -> bool {
    exists|i: int|
        0 <= i < events.len() && confirms_directory(#[trigger] events[i], uid) && setup_after(
            events.take(i),
            uid,
        ) is ConfirmDirectory
}

/// Whether a private directory of the user `uid` was found.
pub open spec fn confirms_directory(event: SetupEvent, uid: u32) -> bool {
    event matches SetupEvent::Found(facts) && facts.private_directory(uid)
}

/// The helper looks for an old socket, removes one or listens only after it has seen that the
/// directory is private and its own.
pub proof fn law_listens_only_in_private_directory(events: Seq<SetupEvent>, uid: u32)
    requires
        directory_confirmed(setup_after(events, uid)),
    ensures
        saw_private_directory(events, uid),
    decreases events.len(),
{
    let before = events.drop_last();
    if directory_confirmed(setup_after(before, uid)) {
        law_listens_only_in_private_directory(before, uid);
        let i = choose|i: int|
            0 <= i < before.len() && confirms_directory(#[trigger] before[i], uid) && setup_after(
                before.take(i),
                uid,
            ) is ConfirmDirectory;
        assert(events.take(i) =~= before.take(i));
        assert(confirms_directory(events[i], uid));
    } else {
        assert(events.take(events.len() - 1) =~= before);
        assert(confirms_directory(events[events.len() - 1], uid));
    }
}

/// What is removed from the socket's place is a socket of the helper's user: it was the last thing
/// that was looked at.
pub proof fn law_removes_only_own_socket(events: Seq<SetupEvent>, uid: u32)
    requires
        setup_after(events, uid) is RemoveSocket,
    ensures
        events.len() > 0,
        events.last() matches SetupEvent::Found(facts) && facts.own_socket(uid),
{
}

/// The count with one more client, unless as many are served as can be.
pub open spec fn admitted(active: usize) -> Option<usize> {
    if active < MAX_CONNECTIONS {
        Some((active + 1) as usize)
    } else {
        None
    }
}

/// The count with one client less. It goes round below zero, which it never reaches as long as only
/// admitted clients are released.
pub open spec fn released(active: usize) -> usize {
    if active > 0 {
        (active - 1) as usize
    } else {
        usize::MAX
    }
}

/// Counts one more client, unless as many are served as can be.
pub fn admit_connection(active: usize) -> (count: Option<usize>)
    ensures
        count == admitted(active),
{
    if active < MAX_CONNECTIONS {
        Some(active + 1)
    } else {
        None
    }
}

/// Counts one client less.
pub fn release_connection(active: usize) -> (count: usize)
    ensures
        count == released(active),
{
    active.wrapping_sub(1)
}

/// The clients that are served after a history of clients that came (`true`) and went (`false`),
/// when at first there were none.
pub open spec fn served_after(history: Seq<bool>) -> usize
    decreases history.len(),
{
    if history.len() == 0 {
        0
    } else {
        let before = served_after(history.drop_last());
        if !history.last() {
            released(before)
        } else if admitted(before) is Some {
            admitted(before)->0
        } else {
            before
        }
    }
}

/// If a client goes only where one is being served, there are never more clients than can be
/// served.
pub proof fn law_never_serves_too_many(history: Seq<bool>)
    requires
        forall|i: int|
            0 <= i < history.len() && !(#[trigger] history[i]) ==> served_after(history.take(i))
                > 0,
    ensures
        served_after(history) <= MAX_CONNECTIONS,
    decreases history.len(),
{
    if history.len() > 0 {
        let earlier = history.drop_last();
        assert forall|i: int| 0 <= i < earlier.len() && !(#[trigger] earlier[i]) implies served_after(
            earlier.take(i),
        ) > 0 by {
            assert(earlier[i] == history[i]);
            assert(earlier.take(i) =~= history.take(i));
        }
        law_never_serves_too_many(earlier);
        assert(history.take(history.len() - 1) =~= earlier);
        assert(history[history.len() - 1] == history.last());
    }
}

/// A client that was admitted and is released leaves the count as it was.
pub proof fn law_release_undoes_admission(active: usize)
    requires
        admitted(active) is Some,
    ensures
        released(admitted(active)->0) == active,
{
}

}
