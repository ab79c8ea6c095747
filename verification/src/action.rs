//! What the manager asks of its caller, and what the caller tells it.
//!
//! The manager never touches the outside world. It takes an `Event`, changes
//! what it tracks, and answers with `Action`s for the caller to perform, in
//! order. Where an action has a result, the caller hands it back as another
//! event.
use vstd::prelude::*;
use crate::err::{TransportError, TransportErrorView};
use crate::notices::{Notice, NoticeView};
use crate::udisks2::devices::block::{Block, BlockView};
use crate::udisks2::devices::drive::{Drive, DriveView};
use crate::udisks2::devices::encrypted::{keyfile_contents, Credential, CredentialView};

verus! {

/// A request to mount a filesystem, with what is needed once the reply is
/// there.
#[derive(Debug, PartialEq, Eq)]
pub struct MountRequest {
    /// The object path of the block device to mount.
    pub object_path: String,
    /// Its device node.
    pub device: String,
    /// The script to run once it is mounted.
    pub hook: Option<String>,
}

/// A `MountRequest` with its strings as text.
pub ghost struct MountRequestView {
    pub object_path: Seq<char>,
    pub device: Seq<char>,
    pub hook: Option<Seq<char>>,
}

impl View for MountRequest {
    type V = MountRequestView;

    open spec fn view(&self) -> MountRequestView {
        MountRequestView {
            object_path: self.object_path@,
            device: self.device@,
            hook: self.hook.deep_view(),
        }
    }
}

impl DeepView for MountRequest {
    type V = MountRequestView;

    open spec fn deep_view(&self) -> MountRequestView {
        self@
    }
}

/// Something for the caller to do.
#[derive(Debug, PartialEq, Eq)]
pub enum Action {
    /// Show the notice to the user. A failure to do so is no event.
    Notify(Notice),
    /// Ask the service to mount the filesystem, and report the reply as
    /// `Event::MountFinished` with this request.
    Mount(MountRequest),
    /// Look whether a file exists at this path, and report it as
    /// `Event::HookProbed`.
    ProbeHook(String),
    /// Run the script at this path without arguments. Whether it fails is no
    /// event.
    RunHook(String),
    /// Read the file at `path`, and report its contents as
    /// `Event::KeyfileRead`.
    ReadKeyfile { object_path: String, path: String },
    /// Ask the user for a password, and report it as
    /// `Event::PasswordEntered`.
    Prompt { object_path: String },
    /// Ask the service to unlock the volume with the credential, and report
    /// the reply as `Event::UnlockFinished`.
    Unlock { object_path: String, credential: Credential },
}

/// An `Action` with its strings as text.
pub ghost enum ActionView {
    Notify(NoticeView),
    Mount(MountRequestView),
    ProbeHook(Seq<char>),
    RunHook(Seq<char>),
    ReadKeyfile { object_path: Seq<char>, path: Seq<char> },
    Prompt { object_path: Seq<char> },
    Unlock { object_path: Seq<char>, credential: CredentialView },
}

impl View for Action {
    type V = ActionView;

    open spec fn view(&self) -> ActionView {
        match self {
            Action::Notify(notice) => ActionView::Notify(notice@),
            Action::Mount(request) => ActionView::Mount(request@),
            Action::ProbeHook(path) => ActionView::ProbeHook(path@),
            Action::RunHook(path) => ActionView::RunHook(path@),
            Action::ReadKeyfile { object_path, path } => ActionView::ReadKeyfile {
                object_path: object_path@,
                path: path@,
            },
            Action::Prompt { object_path } => ActionView::Prompt { object_path: object_path@ },
            Action::Unlock { object_path, credential } => ActionView::Unlock {
                object_path: object_path@,
                credential: credential@,
            },
        }
    }
}

impl DeepView for Action {
    type V = ActionView;

    open spec fn deep_view(&self) -> ActionView {
        self@
    }
}

/// The notices among `actions`, in order.
pub open spec fn notices_of(actions: Seq<ActionView>) -> Seq<NoticeView>
    decreases actions.len(),
{
    if actions.len() == 0 {
        Seq::empty()
    } else {
        let before = notices_of(actions.drop_last());
        match actions.last() {
            ActionView::Notify(notice) => before.push(notice),
            _ => before,
        }
    }
}

/// Whether `actions` ask for anything to be mounted.
pub open spec fn asks_to_mount(actions: Seq<ActionView>) -> bool {
    exists|i: int| 0 <= i < actions.len() && #[trigger] actions[i] is Mount
}

/// Whether `actions` ask for anything to be unlocked.
pub open spec fn asks_to_unlock(actions: Seq<ActionView>) -> bool {
    exists|i: int| 0 <= i < actions.len() && #[trigger] actions[i] is Unlock
}

/// Something that happened: a device came or went, or an action has its
/// result.
#[derive(Debug, PartialEq, Eq)]
pub enum Event {
    /// A drive appeared or changed.
    DriveAdded(Drive),
    /// A block device appeared or changed.
    DeviceAdded(Block),
    /// The object at this path went away.
    ObjectRemoved(String),
    /// The service answered a mount request: with the mount path, or with a
    /// failure.
    MountFinished { request: MountRequest, reply: Result<String, TransportError> },
    /// It was looked up whether the hook at `path` exists.
    HookProbed { path: String, exists: bool },
    /// The keyfile for the volume at `object_path` was read, or could not
    /// be; the error holds the reason.
    KeyfileRead { object_path: String, contents: Result<Vec<u8>, String> },
    /// The user was asked for the password of the volume at `object_path`,
    /// and gave one or none.
    PasswordEntered { object_path: String, password: Option<String> },
    /// The service answered an unlock request: with the object path of the
    /// unlocked device, or with a failure.
    UnlockFinished { reply: Result<String, TransportError> },
}

/// The reply of the service as text.
pub open spec fn service_reply(reply: Result<String, TransportError>) -> Result<
    Seq<char>,
    TransportErrorView,
> {
    match reply {
        Ok(path) => Ok(path@),
        Err(e) => Err(e@),
    }
}

/// An `Event` with its strings as text.
pub ghost enum EventView {
    DriveAdded(DriveView),
    DeviceAdded(BlockView),
    ObjectRemoved(Seq<char>),
    MountFinished { request: MountRequestView, reply: Result<Seq<char>, TransportErrorView> },
    HookProbed { path: Seq<char>, exists: bool },
    KeyfileRead { object_path: Seq<char>, contents: Result<Seq<u8>, Seq<char>> },
    PasswordEntered { object_path: Seq<char>, password: Option<Seq<char>> },
    UnlockFinished { reply: Result<Seq<char>, TransportErrorView> },
}

impl View for Event {
    type V = EventView;

    open spec fn view(&self) -> EventView {
        match self {
            Event::DriveAdded(drive) => EventView::DriveAdded(drive@),
            Event::DeviceAdded(device) => EventView::DeviceAdded(device@),
            Event::ObjectRemoved(object_path) => EventView::ObjectRemoved(object_path@),
            Event::MountFinished { request, reply } => EventView::MountFinished {
                request: request@,
                reply: service_reply(*reply),
            },
            Event::HookProbed { path, exists } => EventView::HookProbed {
                path: path@,
                exists: *exists,
            },
            Event::KeyfileRead { object_path, contents } => EventView::KeyfileRead {
                object_path: object_path@,
                contents: keyfile_contents(*contents),
            },
            Event::PasswordEntered { object_path, password } => EventView::PasswordEntered {
                object_path: object_path@,
                password: password.deep_view(),
            },
            Event::UnlockFinished { reply } => EventView::UnlockFinished {
                reply: service_reply(*reply),
            },
        }
    }
}

impl DeepView for Event {
    type V = EventView;

    open spec fn deep_view(&self) -> EventView {
        self@
    }
}

/// Adds `action` at the end of `actions`.
pub fn push_action(actions: &mut Vec<Action>, action: Action)
    ensures
        final(actions).deep_view() == old(actions).deep_view().push(action@),
{
    actions.push(action);
}

/// Adds `more` at the end of `actions`, in order.
pub fn append_actions(actions: &mut Vec<Action>, more: Vec<Action>)
    ensures
        final(actions).deep_view() == old(actions).deep_view() + more.deep_view(),
{
    let mut more = more;
    actions.append(&mut more);
}

} // verus!
