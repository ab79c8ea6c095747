//! The manager: it keeps track of drives and block devices, and decides for
//! each block device that appears whether its filesystem is mounted and its
//! volume unlocked.
use vstd::prelude::*;
use crate::action::{
    append_actions,
    push_action,
    Action,
    ActionView,
    Event,
    EventView,
    MountRequest,
    MountRequestView,
};
use crate::config::{Config, ConfigView};
use crate::err::{MounterErrorView, TransportError, TransportErrorView};
use crate::notices::{Notice, NoticeView};
use crate::policy::{resolve, resolve_policy, CredentialSource, CredentialSourceView};
use crate::tracker::{snapshot_view, Tracker, TrackerView};
use crate::udisks2::devices::block::{Block, BlockView};
use crate::udisks2::devices::drive::Drive;
use crate::udisks2::devices::encrypted::{
    keyfile_step,
    unlock_step,
    Encrypted,
    UnlockStep,
    UnlockStepView,
};
use crate::udisks2::devices::filesystem::{Filesystem, MountStep};
use crate::udisks2::raw::Interfaces;
use crate::udisks2::Interface;

verus! {

/// Keeps track of drives and block devices, and decides what is done with
/// them.
pub struct Manager {
    config: Config,
    tracker: Tracker,
}

/// A `Manager` as its configuration and what it tracks.
pub ghost struct ManagerView {
    pub config: ConfigView,
    pub tracker: TrackerView,
}

impl View for Manager {
    type V = ManagerView;

    closed spec fn view(&self) -> ManagerView {
        ManagerView { config: self.config@, tracker: self.tracker@ }
    }
}

/// Whether the filesystem on `device` may be handled at all: the device
/// names a drive, the drive is tracked, and it is removable.
pub open spec fn mount_eligible(tracker: TrackerView, device: BlockView) -> bool {
    match device.drive {
        Some(object_path) => match tracker.get_drive(object_path) {
            Some(drive) => drive.removable,
            None => false,
        },
        None => false,
    }
}

/// What is done for the filesystem on `device` when the device appears.
///
/// Nothing, if the filesystem may not be handled or is mounted already.
/// Else the user is told of the new filesystem, and it is mounted if the
/// policy for the volume says so.
pub open spec fn filesystem_actions(
    config: ConfigView,
    tracker: TrackerView,
    device: BlockView,
) -> Seq<ActionView> {
    if !mount_eligible(tracker, device) || device.is_mounted() {
        Seq::empty()
    } else {
        let policy = resolve_policy(device.uuid, config);
        let announce = ActionView::Notify(NoticeView::NewFilesystem(device.device));
        if policy.should_automount {
            seq![
                announce,
                ActionView::Mount(
                    MountRequestView {
                        object_path: device.object_path,
                        device: device.device,
                        hook: policy.hook,
                    },
                ),
            ]
        } else {
            seq![announce]
        }
    }
}

/// What one step on the way to an unlocked volume asks of the caller.
pub open spec fn step_actions(object_path: Seq<char>, step: UnlockStepView) -> Seq<ActionView> {
    match step {
        UnlockStepView::ReadKeyfile(path) => seq![ActionView::ReadKeyfile { object_path, path }],
        UnlockStepView::Call { object_path: target, credential } => seq![
            ActionView::Unlock { object_path: target, credential },
        ],
        UnlockStepView::Failed(e) => seq![ActionView::Notify(NoticeView::DecryptFail(e.message()))],
    }
}

/// What is done for the encrypted volume on `device` when the device
/// appears.
///
/// Nothing, if the volume is unlocked already. Else the user is told of the
/// new volume, and the key is fetched from where the policy for the volume
/// says: the keyfile is read, or the password is used at once, or the user
/// is asked.
pub open spec fn encrypted_actions(config: ConfigView, device: BlockView) -> Seq<ActionView> {
    if device.is_unlocked() {
        Seq::empty()
    } else {
        let announce = seq![ActionView::Notify(NoticeView::NewEncrypted(device.device))];
        match resolve_policy(device.uuid, config).credential {
            CredentialSourceView::Keyfile(path) => announce + step_actions(
                device.object_path,
                unlock_step(device.object_path, Some(path), None),
            ),
            CredentialSourceView::Password(text) => announce + step_actions(
                device.object_path,
                unlock_step(device.object_path, None, Some(text)),
            ),
            CredentialSourceView::Interactive => announce + seq![
                ActionView::Prompt { object_path: device.object_path },
            ],
        }
    }
}

/// What is done when `device` appears: what its filesystem asks for, if it
/// has one, then what its encrypted volume asks for, if it is one.
pub open spec fn device_actions(
    config: ConfigView,
    tracker: TrackerView,
    device: BlockView,
) -> Seq<ActionView> {
    let filesystem = if device.has_interface(Interface::Filesystem) {
        filesystem_actions(config, tracker, device)
    } else {
        Seq::empty()
    };
    let encrypted = if device.has_interface(Interface::Encrypted) {
        encrypted_actions(config, device)
    } else {
        Seq::empty()
    };
    filesystem + encrypted
}

/// What is done when an object goes away: if it was a block device with a
/// filesystem, the user is told that the filesystem is gone; else nothing.
pub open spec fn removal_actions(removed: Option<BlockView>) -> Seq<ActionView> {
    match removed {
        Some(device) => if device.has_interface(Interface::Filesystem) {
            seq![ActionView::Notify(NoticeView::UnmountSuccess(device.device))]
        } else {
            Seq::empty()
        },
        None => Seq::empty(),
    }
}

/// What is done when a mount request is answered. On success the user is
/// told where the filesystem is mounted, and the hook, if there is one, is
/// looked for. On failure the user is told which device could not be
/// mounted.
pub open spec fn mount_finished_actions(
    request: MountRequestView,
    reply: Result<Seq<char>, TransportErrorView>,
) -> Seq<ActionView> {
    match reply {
        Ok(path) => {
            let told = seq![ActionView::Notify(NoticeView::MountSuccess(path))];
            match request.hook {
                Some(hook) => told + seq![ActionView::ProbeHook(hook)],
                None => told,
            }
        },
        Err(_) => seq![ActionView::Notify(NoticeView::MountFail(request.device))],
    }
}

/// What is done once it is known whether the hook exists: it is run if it
/// does.
pub open spec fn hook_probed_actions(path: Seq<char>, exists: bool) -> Seq<ActionView> {
    if exists {
        seq![ActionView::RunHook(path)]
    } else {
        Seq::empty()
    }
}

/// What is done when an unlock request is answered: the user is told of the
/// unlocked device, or of the error.
pub open spec fn unlock_finished_actions(reply: Result<Seq<char>, TransportErrorView>) -> Seq<
    ActionView,
> {
    match reply {
        Ok(path) => seq![ActionView::Notify(NoticeView::DecryptSuccess(path))],
        Err(e) => seq![
            ActionView::Notify(NoticeView::DecryptFail(MounterErrorView::UnlockFailed(e).message())),
        ],
    }
}

impl ManagerView {
    /// The manager after every event of `events`, in order, and all that
    /// they ask of the caller, in order.
    pub open spec fn run(self, events: Seq<EventView>) -> (ManagerView, Seq<ActionView>)
        decreases events.len(),
    {
        if events.len() == 0 {
            (self, Seq::empty())
        } else {
            let before = self.run(events.drop_last());
            let last = before.0.step(events.last());
            (last.0, before.1 + last.1)
        }
    }

    /// The manager after `event`, and what the event asks of the caller.
    pub open spec fn step(self, event: EventView) -> (ManagerView, Seq<ActionView>) {
        match event {
            EventView::DriveAdded(drive) => (
                ManagerView { tracker: self.tracker.insert_drive(drive), ..self },
                Seq::empty(),
            ),
            EventView::DeviceAdded(device) => (
                ManagerView { tracker: self.tracker.insert_device(device), ..self },
                device_actions(self.config, self.tracker.insert_device(device), device),
            ),
            EventView::ObjectRemoved(object_path) => (
                ManagerView { tracker: self.tracker.remove(object_path), ..self },
                removal_actions(self.tracker.get_device(object_path)),
            ),
            EventView::MountFinished { request, reply } => (
                self,
                mount_finished_actions(request, reply),
            ),
            EventView::HookProbed { path, exists } => (self, hook_probed_actions(path, exists)),
            EventView::KeyfileRead { object_path, contents } => (
                self,
                step_actions(object_path, keyfile_step(object_path, contents)),
            ),
            EventView::PasswordEntered { object_path, password } => (
                self,
                step_actions(object_path, unlock_step(object_path, None, password)),
            ),
            EventView::UnlockFinished { reply } => (self, unlock_finished_actions(reply)),
        }
    }
}

/// Turns one step on the way to an unlocked volume into what it asks of the
/// caller.
fn actions_of_step(object_path: &str, step: UnlockStep) -> (actions: Vec<Action>)
    ensures
        actions.deep_view() == step_actions(object_path@, step@),
{
    let mut actions: Vec<Action> = Vec::new();
    let action = match step {
        UnlockStep::ReadKeyfile(path) => Action::ReadKeyfile {
            object_path: object_path.to_owned(),
            path,
        },
        UnlockStep::Call { object_path: target, credential } => Action::Unlock {
            object_path: target,
            credential,
        },
        UnlockStep::Failed(e) => Action::Notify(Notice::DecryptFail(e.message())),
    };
    push_action(&mut actions, action);
    actions
}

/// An empty list of actions.
fn no_actions() -> (actions: Vec<Action>)
    ensures
        actions.deep_view() == Seq::<ActionView>::empty(),
{
    let actions: Vec<Action> = Vec::new();
    actions
}

impl Manager {
    /// A manager with the configuration `config`. The objects of
    /// `initial_state`, if there is one, are tracked from the start; nothing
    /// is done about them, since they were there before.
    pub fn new(config: Config, initial_state: Option<Vec<(String, Interfaces)>>) -> (manager:
        Manager)
        ensures
            manager@.config == config@,
            manager@.tracker == match initial_state {
                Some(snapshot) => TrackerView::empty().seed(snapshot_view(snapshot@)),
                None => TrackerView::empty(),
            },
    {
        let mut new_manager = Manager { config, tracker: Tracker::new() };
        match initial_state {
            Some(snapshot) => {
                new_manager.parse_initial_udisks2_state(&snapshot);
            },
            None => {},
        }
        new_manager
    }

    /// The configuration that the manager decides by.
    pub fn config(&self) -> (config: &Config)
        ensures
            config@ == self@.config,
    {
        &self.config
    }

    /// The drives and block devices that the manager tracks.
    pub fn tracker(&self) -> (tracker: &Tracker)
        ensures
            tracker@ == self@.tracker,
    {
        &self.tracker
    }

    /// Tracks the objects of `initial_state` without acting on any.
    fn parse_initial_udisks2_state(&mut self, initial_state: &Vec<(String, Interfaces)>)
        ensures
            final(self)@.config == old(self)@.config,
            final(self)@.tracker == old(self)@.tracker.seed(snapshot_view(initial_state@)),
    {
        self.tracker.seed(initial_state);
    }

    /// Tracks `drive`, in place of any drive with the same object path.
    pub fn new_drive(&mut self, drive: Drive)
        ensures
            final(self)@ == old(self)@.step(EventView::DriveAdded(drive@)).0,
    {
        self.tracker.insert_drive(drive);
    }

    /// Tracks `device`, in place of any device with the same object path,
    /// and decides what is done about its filesystem and its encrypted
    /// volume.
    pub fn new_device(&mut self, device: Block) -> (actions: Vec<Action>)
        ensures
            (final(self)@, actions.deep_view()) == old(self)@.step(EventView::DeviceAdded(device@)),
    {
        self.tracker.insert_device(device.clone());
        let mut actions = no_actions();
        match device.as_fs() {
            Some(filesystem) => {
                let more = self.new_filesystem(&filesystem);
                append_actions(&mut actions, more);
            },
            None => {},
        }
        match device.as_enc() {
            Some(encrypted) => {
                let more = self.new_encrypted(&encrypted);
                append_actions(&mut actions, more);
            },
            None => {},
        }
        actions
    }

    /// Decides what is done about an encrypted volume that appeared.
    pub fn new_encrypted(&self, encrypted: &Encrypted) -> (actions: Vec<Action>)
        ensures
            actions.deep_view() == encrypted_actions(self@.config, encrypted.device@),
    {
        // Nothing is done if the volume is unlocked already.
        if encrypted.is_unlocked() {
            return no_actions();
        }
        let mut actions = no_actions();
        push_action(&mut actions, Action::Notify(Notice::NewEncrypted(encrypted.device.device.clone())));
        let policy = resolve(&encrypted.device.uuid, &self.config);
        let more = match policy.credential {
            CredentialSource::Keyfile(path) => actions_of_step(
                encrypted.device.object_path.as_str(),
                encrypted.unlock(&Some(path), &None),
            ),
            CredentialSource::Password(text) => actions_of_step(
                encrypted.device.object_path.as_str(),
                encrypted.unlock(&None, &Some(text)),
            ),
            CredentialSource::Interactive => {
                let mut ask = no_actions();
                push_action(
                    &mut ask,
                    Action::Prompt { object_path: encrypted.device.object_path.clone() },
                );
                ask
            },
        };
        append_actions(&mut actions, more);
        actions
    }

    /// Decides what is done about a filesystem that appeared.
    pub fn new_filesystem(&self, filesystem: &Filesystem) -> (actions: Vec<Action>)
        ensures
            actions.deep_view() == filesystem_actions(
                self@.config,
                self@.tracker,
                filesystem.device@,
            ),
    {
        // Nothing is done unless the drive is known and removable.
        let removable = match &filesystem.device.drive {
            Some(object_path) => match self.tracker.get_drive(object_path.as_str()) {
                Some(drive) => drive.removable,
                None => false,
            },
            None => false,
        };
        if !removable {
            return no_actions();
        }
        // Nothing is told or mounted if the filesystem is mounted already.
        let object_path = match filesystem.mount() {
            MountStep::Mounted(_) => {
                return no_actions();
            },
            MountStep::Call(object_path) => object_path,
        };
        let mut actions = no_actions();
        push_action(
            &mut actions,
            Action::Notify(Notice::NewFilesystem(filesystem.device.device.clone())),
        );
        let policy = resolve(&filesystem.device.uuid, &self.config);
        if policy.should_automount {
            push_action(
                &mut actions,
                Action::Mount(
                    MountRequest {
                        object_path,
                        device: filesystem.device.device.clone(),
                        hook: policy.hook,
                    },
                ),
            );
        }
        actions
    }

    /// Forgets the object at `object_path`. If it was a block device with a
    /// filesystem, the user is told that the filesystem is gone. An object
    /// that is not tracked changes nothing and asks for nothing.
    pub fn removed_object(&mut self, object_path: String) -> (actions: Vec<Action>)
        ensures
            (final(self)@, actions.deep_view()) == old(self)@.step(
                EventView::ObjectRemoved(object_path@),
            ),
    {
        let mut actions = no_actions();
        match self.tracker.remove(object_path.as_str()) {
            Some(device) => {
                match device.as_fs() {
                    Some(filesystem) => {
                        push_action(
                            &mut actions,
                            Action::Notify(Notice::UnmountSuccess(filesystem.device.device)),
                        );
                    },
                    None => {},
                }
            },
            None => {},
        }
        actions
    }

    /// Decides what is done once a mount request is answered.
    pub fn mount_finished(request: MountRequest, reply: Result<String, TransportError>) -> (actions:
        Vec<Action>)
        ensures
            actions.deep_view() == mount_finished_actions(
                request@,
                crate::action::service_reply(reply),
            ),
    {
        let mut actions = no_actions();
        match Filesystem::finish_mount(reply) {
            Ok(path) => {
                push_action(&mut actions, Action::Notify(Notice::MountSuccess(path)));
                match request.hook {
                    Some(hook) => {
                        push_action(&mut actions, Action::ProbeHook(hook));
                    },
                    None => {},
                }
            },
            Err(_) => {
                push_action(&mut actions, Action::Notify(Notice::MountFail(request.device)));
            },
        }
        actions
    }

    /// Decides what is done once it is known whether the hook at `path`
    /// exists.
    pub fn hook_probed(path: String, exists: bool) -> (actions: Vec<Action>)
        ensures
            actions.deep_view() == hook_probed_actions(path@, exists),
    {
        let mut actions = no_actions();
        if exists {
            push_action(&mut actions, Action::RunHook(path));
        }
        actions
    }

    /// Decides what is done once the keyfile for the volume at `object_path`
    /// was read, or could not be read.
    pub fn keyfile_read(object_path: String, contents: Result<Vec<u8>, String>) -> (actions: Vec<
        Action,
    >)
        ensures
            actions.deep_view() == step_actions(
                object_path@,
                keyfile_step(
                    object_path@,
                    crate::udisks2::devices::encrypted::keyfile_contents(contents),
                ),
            ),
    {
        actions_of_step(object_path.as_str(), Encrypted::with_keyfile(object_path.as_str(), contents))
    }

    /// Decides what is done once the user was asked for the password of the
    /// volume at `object_path`.
    pub fn password_entered(object_path: String, password: Option<String>) -> (actions: Vec<Action>)
        ensures
            actions.deep_view() == step_actions(
                object_path@,
                unlock_step(object_path@, None, password.deep_view()),
            ),
    {
        actions_of_step(
            object_path.as_str(),
            Encrypted::first_step(object_path.as_str(), &None, &password),
        )
    }

    /// Decides what is done once an unlock request is answered.
    pub fn unlock_finished(reply: Result<String, TransportError>) -> (actions: Vec<Action>)
        ensures
            actions.deep_view() == unlock_finished_actions(crate::action::service_reply(reply)),
    {
        let mut actions = no_actions();
        match Encrypted::finish_unlock(reply) {
            Ok(path) => {
                push_action(&mut actions, Action::Notify(Notice::DecryptSuccess(path)));
            },
            Err(e) => {
                push_action(&mut actions, Action::Notify(Notice::DecryptFail(e.message())));
            },
        }
        actions
    }

    /// Takes in every event of `events`, in order, and answers with all that
    /// they ask of the caller, in order.
    pub fn handle_all(&mut self, events: Vec<Event>) -> (actions: Vec<Action>)
        ensures
            (final(self)@, actions.deep_view()) == old(self)@.run(events.deep_view()),
    {
        let ghost all = events.deep_view();
        let mut queue = events;
        let mut actions = no_actions();
        let ghost mut done: int = 0;
        while queue.len() > 0
            invariant
                0 <= done <= all.len(),
                queue.deep_view() == all.skip(done),
                (self@, actions.deep_view()) == old(self)@.run(all.take(done)),
            decreases queue.len(),
        {
            let ghost rest = queue.deep_view();
            let ghost before = queue@;
            assert(rest.len() == queue.len());
            let event = queue.remove(0);
            assert(event@ == rest[0]);
            assert(all.take(done + 1).drop_last() =~= all.take(done));
            assert forall|j: int| 0 <= j < queue@.len() implies queue.deep_view()[j] == all.skip(
                done + 1,
            )[j] by {
                assert(rest[j + 1] == before[j + 1]@);
            }
            let more = self.handle(event);
            append_actions(&mut actions, more);
            proof {
                done = done + 1;
            }
        }
        assert(all.take(done) =~= all);
        actions
    }

    /// Takes in `event`, and answers with what it asks of the caller, in
    /// order.
    pub fn handle(&mut self, event: Event) -> (actions: Vec<Action>)
        ensures
            (final(self)@, actions.deep_view()) == old(self)@.step(event@),
    {
        match event {
            Event::DriveAdded(drive) => {
                self.new_drive(drive);
                no_actions()
            },
            Event::DeviceAdded(device) => self.new_device(device),
            Event::ObjectRemoved(object_path) => self.removed_object(object_path),
            Event::MountFinished { request, reply } => Self::mount_finished(request, reply),
            Event::HookProbed { path, exists } => Self::hook_probed(path, exists),
            Event::KeyfileRead { object_path, contents } => Self::keyfile_read(
                object_path,
                contents,
            ),
            Event::PasswordEntered { object_path, password } => Self::password_entered(
                object_path,
                password,
            ),
            Event::UnlockFinished { reply } => Self::unlock_finished(reply),
        }
    }
}

} // verus!
