//! What holds of the manager whatever the devices and the configuration
//! are.
use vstd::prelude::*;
use crate::action::{
    asks_to_mount,
    asks_to_unlock,
    notices_of,
    ActionView,
    EventView,
    MountRequestView,
};
use crate::config::ConfigView;
use crate::err::{MounterErrorView, TransportErrorView};
use crate::manager::{
    encrypted_actions,
    filesystem_actions,
    mount_eligible,
    step_actions,
    ManagerView,
};
use crate::notices::NoticeView;
use crate::policy::resolve_policy;
use crate::tracker::TrackerView;
use crate::udisks2::devices::block::BlockView;
use crate::udisks2::devices::encrypted::keyfile_step;
use crate::turn;
use crate::udisks2::listener::SignalView;
use crate::udisks2::raw::InterfaceMap;
use crate::udisks2::Interface;

verus! {

/// The notices among `actions` followed by `action` are those among
/// `actions`, followed by the notice of `action` if it is one.
pub proof fn lemma_notices_push(actions: Seq<ActionView>, action: ActionView)
    ensures
        notices_of(actions.push(action)) == match action {
            ActionView::Notify(notice) => notices_of(actions).push(notice),
            _ => notices_of(actions),
        },
{
    assert(actions.push(action).drop_last() =~= actions);
}

/// The notices among two lists of actions, one after the other, are the
/// notices among the first followed by those among the second.
pub proof fn lemma_notices_add(first: Seq<ActionView>, second: Seq<ActionView>)
    ensures
        notices_of(first + second) == notices_of(first) + notices_of(second),
    decreases second.len(),
{
    if second.len() > 0 {
        let front = second.drop_last();
        lemma_notices_add(first, front);
        assert((first + second).drop_last() =~= first + front);
    }
}

/// What the encrypted volume on a device asks for never includes a mount.
pub proof fn lemma_encrypted_never_mounts(config: ConfigView, device: BlockView)
    ensures
        !asks_to_mount(encrypted_actions(config, device)),
{
}

/// A filesystem that is mounted already is left alone: for a device with a
/// filesystem that is mounted somewhere, nothing is done about the
/// filesystem, and nothing that is done about the device is a mount.
pub proof fn mounted_filesystem_is_left_alone(manager: ManagerView, device: BlockView)
    requires
        device.has_interface(Interface::Filesystem),
        device.is_mounted(),
    ensures
        filesystem_actions(manager.config, manager.tracker.insert_device(device), device)
            == Seq::<ActionView>::empty(),
        !asks_to_mount(manager.step(EventView::DeviceAdded(device)).1),
{
    lemma_encrypted_never_mounts(manager.config, device);
}

/// A device with a filesystem that is mounted already asks for nothing at
/// all when it appears, neither a mount nor a notice, unless it is also an
/// encrypted volume that is still locked.
pub proof fn mounted_device_is_silent(manager: ManagerView, device: BlockView)
    requires
        device.has_interface(Interface::Filesystem),
        device.is_mounted(),
        !device.has_interface(Interface::Encrypted) || device.is_unlocked(),
    ensures
        manager.step(EventView::DeviceAdded(device)).1 == Seq::<ActionView>::empty(),
        notices_of(manager.step(EventView::DeviceAdded(device)).1) == Seq::<NoticeView>::empty(),
{
}

/// A volume that is unlocked already is left alone: nothing is done about
/// the volume, and nothing that is done about the device is an unlock.
pub proof fn unlocked_volume_is_left_alone(manager: ManagerView, device: BlockView)
    requires
        device.is_unlocked(),
    ensures
        encrypted_actions(manager.config, device) == Seq::<ActionView>::empty(),
        !asks_to_unlock(manager.step(EventView::DeviceAdded(device)).1),
{
}

/// Only filesystems on removable drives are handled: where the drive of a
/// device is not named, not tracked or not removable, nothing is done about
/// its filesystem.
pub proof fn fixed_drive_is_left_alone(config: ConfigView, tracker: TrackerView, device: BlockView)
    requires
        device.drive is None || tracker.get_drive(device.drive->0) is None || !tracker.get_drive(
            device.drive->0,
        )->0.removable,
    ensures
        filesystem_actions(config, tracker, device) == Seq::<ActionView>::empty(),
{
}

/// The settings of a volume go before the default: where they say whether
/// the volume is mounted automatically, the policy says the same, whatever
/// the default is.
pub proof fn override_goes_before_default(config: ConfigView, uuid: Seq<char>, automount: bool)
    requires
        config.overrides.contains_key(uuid),
        config.overrides[uuid].automount == Some(automount),
    ensures
        resolve_policy(Some(uuid), config).should_automount == automount,
{
}

/// A filesystem that appears unmounted on a removable drive is mounted
/// exactly if the settings of its volume say so, where they say anything,
/// whatever the default is.
pub proof fn override_decides_the_mount(
    manager: ManagerView,
    device: BlockView,
    uuid: Seq<char>,
    automount: bool,
)
    requires
        device.has_interface(Interface::Filesystem),
        !device.is_mounted(),
        mount_eligible(manager.tracker, device),
        device.uuid == Some(uuid),
        manager.config.overrides.contains_key(uuid),
        manager.config.overrides[uuid].automount == Some(automount),
    ensures
        asks_to_mount(manager.step(EventView::DeviceAdded(device)).1) == automount,
{
    let actions = manager.step(EventView::DeviceAdded(device)).1;
    lemma_encrypted_never_mounts(manager.config, device);
    if automount {
        assert(actions[1] is Mount);
    }
}

/// The keyfile goes before the password, and nothing comes after it: for a
/// locked volume whose settings name both a keyfile and a password, the
/// keyfile is read; and if it cannot be read, the user is told so and no
/// unlock is tried, with the password or otherwise.
pub proof fn keyfile_goes_before_password(
    config: ConfigView,
    device: BlockView,
    uuid: Seq<char>,
    keyfile: Seq<char>,
    password: Seq<char>,
    reason: Seq<char>,
)
    requires
        !device.is_unlocked(),
        device.uuid == Some(uuid),
        config.overrides.contains_key(uuid),
        config.overrides[uuid].keyfile == Some(keyfile),
        config.overrides[uuid].password == Some(password),
    ensures
        encrypted_actions(config, device) == seq![
            ActionView::Notify(NoticeView::NewEncrypted(device.device)),
            ActionView::ReadKeyfile { object_path: device.object_path, path: keyfile },
        ],
        step_actions(device.object_path, keyfile_step(device.object_path, Err(reason))) == seq![
            ActionView::Notify(
                NoticeView::DecryptFail(MounterErrorView::UnreadableKeyFile(reason).message()),
            ),
        ],
        !asks_to_unlock(encrypted_actions(config, device)),
        !asks_to_unlock(
            step_actions(device.object_path, keyfile_step(device.object_path, Err(reason))),
        ),
{
}

/// The notice that a mount request ends in: where the filesystem is
/// mounted on success, which device could not be mounted on failure.
pub open spec fn mount_notice(
    device: BlockView,
    reply: Result<Seq<char>, TransportErrorView>,
) -> NoticeView {
    match reply {
        Ok(path) => NoticeView::MountSuccess(path),
        Err(_) => NoticeView::MountFail(device.device),
    }
}

/// From the appearance of a filesystem to its removal the user is told
/// three things, in this order: that it is there, whether it was mounted,
/// and that it is gone.
///
/// This holds of a device with a filesystem that appears unmounted on a
/// removable drive, is to be mounted automatically, and is no locked
/// encrypted volume; `reply` is what the service answers to the mount
/// request.
pub proof fn added_then_removed(
    manager: ManagerView,
    device: BlockView,
    reply: Result<Seq<char>, TransportErrorView>,
)
    requires
        device.has_interface(Interface::Filesystem),
        !device.is_mounted(),
        mount_eligible(manager.tracker, device),
        resolve_policy(device.uuid, manager.config).should_automount,
        !device.has_interface(Interface::Encrypted) || device.is_unlocked(),
    ensures
        ({
            let request = MountRequestView {
                object_path: device.object_path,
                device: device.device,
                hook: resolve_policy(device.uuid, manager.config).hook,
            };
            let added = manager.step(EventView::DeviceAdded(device));
            let mounted = added.0.step(EventView::MountFinished { request, reply });
            let removed = mounted.0.step(EventView::ObjectRemoved(device.object_path));
            &&& added.1 == seq![
                ActionView::Notify(NoticeView::NewFilesystem(device.device)),
                ActionView::Mount(request),
            ]
            &&& notices_of(added.1 + mounted.1 + removed.1) == seq![
                NoticeView::NewFilesystem(device.device),
                mount_notice(device, reply),
                NoticeView::UnmountSuccess(device.device),
            ]
        }),
{
    let request = MountRequestView {
        object_path: device.object_path,
        device: device.device,
        hook: resolve_policy(device.uuid, manager.config).hook,
    };
    let added = manager.step(EventView::DeviceAdded(device));
    let mounted = added.0.step(EventView::MountFinished { request, reply });
    let removed = mounted.0.step(EventView::ObjectRemoved(device.object_path));
    let announce = ActionView::Notify(NoticeView::NewFilesystem(device.device));
    let told = ActionView::Notify(mount_notice(device, reply));
    let gone = ActionView::Notify(NoticeView::UnmountSuccess(device.device));
    let none = Seq::<ActionView>::empty();
    assert(added.1 =~= none.push(announce).push(ActionView::Mount(request)));
    lemma_notices_push(none, announce);
    lemma_notices_push(none.push(announce), ActionView::Mount(request));
    match (reply, request.hook) {
        (Ok(path), Some(hook)) => {
            assert(mounted.1 =~= none.push(told).push(ActionView::ProbeHook(hook)));
            lemma_notices_push(none, told);
            lemma_notices_push(none.push(told), ActionView::ProbeHook(hook));
        },
        _ => {
            lemma_notices_push(none, told);
        },
    }
    lemma_notices_push(none, gone);
    lemma_notices_add(added.1, mounted.1);
    lemma_notices_add(added.1 + mounted.1, removed.1);
}

/// The removal of an object that is not tracked changes nothing and asks
/// for nothing.
pub proof fn unknown_removal_is_silent(manager: ManagerView, object_path: Seq<char>)
    requires
        !manager.tracker.drives.contains_key(object_path),
        !manager.tracker.devices.contains_key(object_path),
    ensures
        manager.step(EventView::ObjectRemoved(object_path)).1 == Seq::<ActionView>::empty(),
        manager.step(EventView::ObjectRemoved(object_path)).0.config == manager.config,
        manager.step(EventView::ObjectRemoved(object_path)).0.tracker.drives
            == manager.tracker.drives,
        manager.step(EventView::ObjectRemoved(object_path)).0.tracker.devices
            == manager.tracker.devices,
{
}

/// Reading the objects of a snapshot keeps every record under its own
/// object path.
pub proof fn seed_keeps_records_in_place(
    tracker: TrackerView,
    snapshot: Seq<(Seq<char>, InterfaceMap)>,
)
    requires
        tracker.wf(),
    ensures
        tracker.seed(snapshot).wf(),
    decreases snapshot.len(),
{
    if snapshot.len() > 0 {
        seed_keeps_records_in_place(tracker, snapshot.drop_last());
    }
}

/// Every record is kept under its own object path, from the start and after
/// every event: the object path alone says which record an event is about.
pub proof fn records_stay_in_place(
    snapshot: Seq<(Seq<char>, InterfaceMap)>,
    manager: ManagerView,
    event: EventView,
)
    requires
        manager.tracker.wf(),
    ensures
        TrackerView::empty().wf(),
        TrackerView::empty().seed(snapshot).wf(),
        manager.step(event).0.tracker.wf(),
{
    seed_keeps_records_in_place(TrackerView::empty(), snapshot);
}

/// The removal of an object is idempotent: a second removal of the same
/// object changes nothing more and asks for nothing.
pub proof fn removal_is_idempotent(manager: ManagerView, object_path: Seq<char>)
    ensures
        ({
            let once = manager.step(EventView::ObjectRemoved(object_path));
            let twice = once.0.step(EventView::ObjectRemoved(object_path));
            &&& twice.1 == Seq::<ActionView>::empty()
            &&& twice.0.config == once.0.config
            &&& twice.0.tracker.drives == once.0.tracker.drives
            &&& twice.0.tracker.devices == once.0.tracker.devices
        }),
{
    let once = manager.step(EventView::ObjectRemoved(object_path));
    unknown_removal_is_silent(once.0, object_path);
}

/// Only a broken connection ends the daemon: a turn fails exactly on the
/// signal that the connection broke, and then with the one error that is
/// fatal. No device, whatever becomes of it, makes a turn fail.
pub proof fn only_a_broken_stream_ends_the_daemon(manager: ManagerView, signal: SignalView)
    ensures
        turn(manager, signal) is Err <==> signal is Failure,
        turn(manager, signal) matches Err(e) ==> e.is_fatal(),
{
}

} // verus!
