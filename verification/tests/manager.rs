use udman::action::{Action, Event, MountRequest};
use udman::config::{Config, FsSettings};
use udman::err::TransportError;
use udman::manager::Manager;
use udman::notices::Notice;
use udman::udisks2::devices::{Block, Credential, Drive, EncInfo, FsInfo};
use udman::udisks2::raw::{Interfaces, Properties, Value};
use udman::Interface;

fn config(automount: bool) -> Config {
    let mut config = Config::new();
    config.settings.automount = automount;
    config
}

fn settings() -> FsSettings {
    FsSettings { automount: None, run: None, password: None, keyfile: None }
}

fn drive(object_path: &str, removable: bool) -> Drive {
    Drive { object_path: object_path.to_string(), removable }
}

fn block(object_path: &str, device: &str) -> Block {
    Block {
        interfaces: vec![],
        object_path: object_path.to_string(),
        uuid: None,
        device: device.to_string(),
        preferred_device: device.to_string(),
        symlinks: None,
        device_number: None,
        label: None,
        fs_info: None,
        enc_info: None,
        drive: None,
        crypto_backing_device: None,
    }
}

fn filesystem(object_path: &str, device: &str, uuid: &str, drive: &str) -> Block {
    Block {
        interfaces: vec![Interface::Filesystem],
        uuid: Some(uuid.to_string()),
        fs_info: Some(FsInfo { mount_paths: None }),
        drive: Some(drive.to_string()),
        ..block(object_path, device)
    }
}

fn encrypted(object_path: &str, device: &str, uuid: &str) -> Block {
    Block {
        interfaces: vec![Interface::Encrypted],
        uuid: Some(uuid.to_string()),
        enc_info: Some(EncInfo { cleartext_device: None }),
        ..block(object_path, device)
    }
}

fn failure(message: Option<&str>) -> TransportError {
    TransportError {
        name: Some("org.freedesktop.UDisks2.Error.Failed".to_string()),
        message: message.map(|m| m.to_string()),
    }
}

fn request(object_path: &str, device: &str, hook: Option<&str>) -> MountRequest {
    MountRequest {
        object_path: object_path.to_string(),
        device: device.to_string(),
        hook: hook.map(|h| h.to_string()),
    }
}

fn notify_new_filesystem(device: &str) -> Action {
    Action::Notify(Notice::NewFilesystem(device.to_string()))
}

fn notify_new_encrypted(device: &str) -> Action {
    Action::Notify(Notice::NewEncrypted(device.to_string()))
}

#[test]
fn end_to_end_mount() {
    let mut manager = Manager::new(config(true), None);
    manager.new_drive(drive("/o/drive1", true));
    let device = Block {
        interfaces: vec![Interface::Filesystem],
        object_path: "/o/1".to_string(),
        uuid: Some("U1".to_string()),
        device: "/dev/sdb1".to_string(),
        preferred_device: String::new(),
        symlinks: None,
        device_number: None,
        label: None,
        fs_info: Some(FsInfo { mount_paths: None }),
        enc_info: None,
        drive: Some("/o/drive1".to_string()),
        crypto_backing_device: None,
    };
    let actions = manager.new_device(device);
    assert_eq!(
        actions,
        vec![
            Action::Notify(Notice::NewFilesystem("/dev/sdb1".to_string())),
            Action::Mount(MountRequest {
                object_path: "/o/1".to_string(),
                device: "/dev/sdb1".to_string(),
                hook: None,
            }),
        ]
    );
    let actions =
        Manager::mount_finished(request("/o/1", "/dev/sdb1", None), Ok("/media/x".to_string()));
    assert_eq!(actions, vec![Action::Notify(Notice::MountSuccess("/media/x".to_string()))]);
}

#[test]
fn mounted_filesystem_is_left_alone() {
    let mut manager = Manager::new(config(true), None);
    manager.new_drive(drive("/o/drive1", true));
    let mut device = filesystem("/o/1", "/dev/sdb1", "U1", "/o/drive1");
    device.fs_info = Some(FsInfo { mount_paths: Some(vec!["/media/x".to_string()]) });
    assert_eq!(manager.new_device(device), Vec::<Action>::new());
    assert!(manager.tracker().get_device("/o/1").is_some());
}

#[test]
fn filesystem_with_an_empty_list_of_mount_paths_is_unmounted() {
    let mut manager = Manager::new(config(false), None);
    manager.new_drive(drive("/o/drive1", true));
    let mut device = filesystem("/o/1", "/dev/sdb1", "U1", "/o/drive1");
    device.fs_info = Some(FsInfo { mount_paths: Some(vec![]) });
    assert_eq!(manager.new_device(device), vec![notify_new_filesystem("/dev/sdb1")]);
}

#[test]
fn filesystem_without_info_is_unmounted() {
    let mut manager = Manager::new(config(false), None);
    manager.new_drive(drive("/o/drive1", true));
    let mut device = filesystem("/o/1", "/dev/sdb1", "U1", "/o/drive1");
    device.fs_info = None;
    assert_eq!(manager.new_device(device), vec![notify_new_filesystem("/dev/sdb1")]);
}

#[test]
fn filesystem_on_an_unknown_drive_is_left_alone() {
    let mut manager = Manager::new(config(true), None);
    let device = filesystem("/o/1", "/dev/sdb1", "U1", "/o/drive1");
    assert_eq!(manager.new_device(device), Vec::<Action>::new());
}

#[test]
fn filesystem_without_a_drive_is_left_alone() {
    let mut manager = Manager::new(config(true), None);
    manager.new_drive(drive("/o/drive1", true));
    let mut device = filesystem("/o/1", "/dev/sdb1", "U1", "/o/drive1");
    device.drive = None;
    assert_eq!(manager.new_device(device), Vec::<Action>::new());
}

#[test]
fn filesystem_on_a_fixed_drive_is_left_alone() {
    let mut manager = Manager::new(config(true), None);
    manager.new_drive(drive("/o/drive1", false));
    let device = filesystem("/o/1", "/dev/sda1", "U1", "/o/drive1");
    assert_eq!(manager.new_device(device), Vec::<Action>::new());
}

#[test]
fn drive_is_replaced_by_a_later_one() {
    let mut manager = Manager::new(config(false), None);
    manager.new_drive(drive("/o/drive1", false));
    manager.new_drive(drive("/o/drive1", true));
    assert_eq!(manager.tracker().get_drive("/o/drive1"), Some(&drive("/o/drive1", true)));
    let device = filesystem("/o/1", "/dev/sdb1", "U1", "/o/drive1");
    assert_eq!(manager.new_device(device), vec![notify_new_filesystem("/dev/sdb1")]);
}

#[test]
fn override_turns_the_mount_on() {
    let mut config = config(false);
    config.set_uuid_settings("U1".to_string(), FsSettings { automount: Some(true), ..settings() });
    let mut manager = Manager::new(config, None);
    manager.new_drive(drive("/o/drive1", true));
    let actions = manager.new_device(filesystem("/o/1", "/dev/sdb1", "U1", "/o/drive1"));
    assert_eq!(
        actions,
        vec![
            notify_new_filesystem("/dev/sdb1"),
            Action::Mount(request("/o/1", "/dev/sdb1", None)),
        ]
    );
}

#[test]
fn override_turns_the_mount_off() {
    let mut config = config(true);
    config.set_uuid_settings("U1".to_string(), FsSettings { automount: Some(false), ..settings() });
    let mut manager = Manager::new(config, None);
    manager.new_drive(drive("/o/drive1", true));
    let actions = manager.new_device(filesystem("/o/1", "/dev/sdb1", "U1", "/o/drive1"));
    assert_eq!(actions, vec![notify_new_filesystem("/dev/sdb1")]);
}

#[test]
fn override_of_another_volume_does_not_count() {
    let mut config = config(false);
    config.set_uuid_settings("U2".to_string(), FsSettings { automount: Some(true), ..settings() });
    let mut manager = Manager::new(config, None);
    manager.new_drive(drive("/o/drive1", true));
    let actions = manager.new_device(filesystem("/o/1", "/dev/sdb1", "U1", "/o/drive1"));
    assert_eq!(actions, vec![notify_new_filesystem("/dev/sdb1")]);
}

#[test]
fn volume_without_uuid_follows_the_default() {
    let mut manager = Manager::new(config(true), None);
    manager.new_drive(drive("/o/drive1", true));
    let mut device = filesystem("/o/1", "/dev/sdb1", "U1", "/o/drive1");
    device.uuid = None;
    assert_eq!(
        manager.new_device(device),
        vec![
            notify_new_filesystem("/dev/sdb1"),
            Action::Mount(request("/o/1", "/dev/sdb1", None)),
        ]
    );
}

#[test]
fn hook_travels_with_the_mount_request() {
    let mut config = config(true);
    config.set_uuid_settings(
        "U1".to_string(),
        FsSettings { run: Some("/usr/local/bin/sync".to_string()), ..settings() },
    );
    let mut manager = Manager::new(config, None);
    manager.new_drive(drive("/o/drive1", true));
    let actions = manager.new_device(filesystem("/o/1", "/dev/sdb1", "U1", "/o/drive1"));
    assert_eq!(
        actions,
        vec![
            notify_new_filesystem("/dev/sdb1"),
            Action::Mount(request("/o/1", "/dev/sdb1", Some("/usr/local/bin/sync"))),
        ]
    );
    let actions = Manager::mount_finished(
        request("/o/1", "/dev/sdb1", Some("/usr/local/bin/sync")),
        Ok("/media/x".to_string()),
    );
    assert_eq!(
        actions,
        vec![
            Action::Notify(Notice::MountSuccess("/media/x".to_string())),
            Action::ProbeHook("/usr/local/bin/sync".to_string()),
        ]
    );
}

#[test]
fn hook_runs_only_if_it_exists() {
    assert_eq!(
        Manager::hook_probed("/usr/local/bin/sync".to_string(), true),
        vec![Action::RunHook("/usr/local/bin/sync".to_string())]
    );
    assert_eq!(Manager::hook_probed("/usr/local/bin/sync".to_string(), false), Vec::<Action>::new());
}

#[test]
fn failed_mount_names_the_device_and_runs_no_hook() {
    let actions = Manager::mount_finished(
        request("/o/1", "/dev/sdb1", Some("/usr/local/bin/sync")),
        Err(failure(Some("not authorized"))),
    );
    assert_eq!(actions, vec![Action::Notify(Notice::MountFail("/dev/sdb1".to_string()))]);
}

#[test]
fn added_then_removed_tells_three_things() {
    let mut manager = Manager::new(config(true), None);
    manager.new_drive(drive("/o/drive1", true));
    let mut told = Vec::new();
    for action in manager.new_device(filesystem("/o/1", "/dev/sdb1", "U1", "/o/drive1")) {
        match action {
            Action::Notify(notice) => told.push(notice),
            Action::Mount(request) => {
                for action in Manager::mount_finished(request, Err(failure(None))) {
                    match action {
                        Action::Notify(notice) => told.push(notice),
                        other => panic!("{:?}", other),
                    }
                }
            }
            other => panic!("{:?}", other),
        }
    }
    for action in manager.removed_object("/o/1".to_string()) {
        match action {
            Action::Notify(notice) => told.push(notice),
            other => panic!("{:?}", other),
        }
    }
    assert_eq!(
        told,
        vec![
            Notice::NewFilesystem("/dev/sdb1".to_string()),
            Notice::MountFail("/dev/sdb1".to_string()),
            Notice::UnmountSuccess("/dev/sdb1".to_string()),
        ]
    );
    assert!(manager.tracker().get_device("/o/1").is_none());
}

#[test]
fn removal_of_an_unknown_object_is_silent() {
    let mut manager = Manager::new(config(true), None);
    manager.new_drive(drive("/o/drive1", true));
    assert_eq!(manager.removed_object("/o/never".to_string()), Vec::<Action>::new());
    assert_eq!(manager.tracker().get_drive("/o/drive1"), Some(&drive("/o/drive1", true)));
}

#[test]
fn second_removal_is_silent() {
    let mut manager = Manager::new(config(false), None);
    manager.new_drive(drive("/o/drive1", true));
    manager.new_device(filesystem("/o/1", "/dev/sdb1", "U1", "/o/drive1"));
    assert_eq!(
        manager.removed_object("/o/1".to_string()),
        vec![Action::Notify(Notice::UnmountSuccess("/dev/sdb1".to_string()))]
    );
    assert_eq!(manager.removed_object("/o/1".to_string()), Vec::<Action>::new());
}

#[test]
fn removal_of_a_device_without_filesystem_is_silent() {
    let mut manager = Manager::new(config(false), None);
    manager.new_device(block("/o/1", "/dev/sdb"));
    assert!(manager.tracker().get_device("/o/1").is_some());
    assert_eq!(manager.removed_object("/o/1".to_string()), Vec::<Action>::new());
    assert!(manager.tracker().get_device("/o/1").is_none());
}

#[test]
fn removal_forgets_a_drive() {
    let mut manager = Manager::new(config(true), None);
    manager.new_drive(drive("/o/drive1", true));
    assert_eq!(manager.removed_object("/o/drive1".to_string()), Vec::<Action>::new());
    assert_eq!(manager.tracker().get_drive("/o/drive1"), None);
    let device = filesystem("/o/1", "/dev/sdb1", "U1", "/o/drive1");
    assert_eq!(manager.new_device(device), Vec::<Action>::new());
}

#[test]
fn removal_of_a_mounted_filesystem_is_told() {
    let mut manager = Manager::new(config(true), None);
    manager.new_drive(drive("/o/drive1", true));
    let mut device = filesystem("/o/1", "/dev/sdb1", "U1", "/o/drive1");
    device.fs_info = Some(FsInfo { mount_paths: Some(vec!["/media/x".to_string()]) });
    assert_eq!(manager.new_device(device), Vec::<Action>::new());
    assert_eq!(
        manager.removed_object("/o/1".to_string()),
        vec![Action::Notify(Notice::UnmountSuccess("/dev/sdb1".to_string()))]
    );
}

#[test]
fn unlocked_volume_is_left_alone() {
    let mut manager = Manager::new(config(true), None);
    let mut device = encrypted("/o/2", "/dev/sdc1", "U2");
    device.enc_info = Some(EncInfo { cleartext_device: Some("/o/clear".to_string()) });
    assert_eq!(manager.new_device(device), Vec::<Action>::new());
}

#[test]
fn volume_without_settings_asks_the_user() {
    let mut manager = Manager::new(config(true), None);
    assert_eq!(
        manager.new_device(encrypted("/o/2", "/dev/sdc1", "U2")),
        vec![
            notify_new_encrypted("/dev/sdc1"),
            Action::Prompt { object_path: "/o/2".to_string() },
        ]
    );
}

#[test]
fn volume_without_uuid_asks_the_user() {
    let mut config = config(true);
    config.set_uuid_settings(
        "U2".to_string(),
        FsSettings { password: Some("secret".to_string()), ..settings() },
    );
    let mut manager = Manager::new(config, None);
    let mut device = encrypted("/o/2", "/dev/sdc1", "U2");
    device.uuid = None;
    assert_eq!(
        manager.new_device(device),
        vec![
            notify_new_encrypted("/dev/sdc1"),
            Action::Prompt { object_path: "/o/2".to_string() },
        ]
    );
}

#[test]
fn volume_without_info_counts_as_locked() {
    let mut manager = Manager::new(config(true), None);
    let mut device = encrypted("/o/2", "/dev/sdc1", "U2");
    device.enc_info = None;
    assert_eq!(
        manager.new_device(device),
        vec![
            notify_new_encrypted("/dev/sdc1"),
            Action::Prompt { object_path: "/o/2".to_string() },
        ]
    );
}

#[test]
fn password_is_used_at_once() {
    let mut config = config(false);
    config.set_uuid_settings(
        "U2".to_string(),
        FsSettings { password: Some("secret".to_string()), ..settings() },
    );
    let mut manager = Manager::new(config, None);
    assert_eq!(
        manager.new_device(encrypted("/o/2", "/dev/sdc1", "U2")),
        vec![
            notify_new_encrypted("/dev/sdc1"),
            Action::Unlock {
                object_path: "/o/2".to_string(),
                credential: Credential::Passphrase("secret".to_string()),
            },
        ]
    );
}

#[test]
fn keyfile_goes_before_password() {
    let mut config = config(false);
    config.set_uuid_settings(
        "U2".to_string(),
        FsSettings {
            password: Some("secret".to_string()),
            keyfile: Some("/nonexistent/key".to_string()),
            ..settings()
        },
    );
    let mut manager = Manager::new(config, None);
    assert_eq!(
        manager.new_device(encrypted("/o/2", "/dev/sdc1", "U2")),
        vec![
            notify_new_encrypted("/dev/sdc1"),
            Action::ReadKeyfile {
                object_path: "/o/2".to_string(),
                path: "/nonexistent/key".to_string(),
            },
        ]
    );
    let actions = Manager::keyfile_read(
        "/o/2".to_string(),
        Err("No such file or directory (os error 2)".to_string()),
    );
    assert_eq!(
        actions,
        vec![Action::Notify(Notice::DecryptFail(
            "Couldn't read provided keyfile: No such file or directory (os error 2)".to_string()
        ))]
    );
}

#[test]
fn keyfile_contents_unlock() {
    assert_eq!(
        Manager::keyfile_read("/o/2".to_string(), Ok(vec![1, 2, 0, 255])),
        vec![Action::Unlock {
            object_path: "/o/2".to_string(),
            credential: Credential::KeyfileContents(vec![1, 2, 0, 255]),
        }]
    );
}

#[test]
fn entered_password_unlocks() {
    assert_eq!(
        Manager::password_entered("/o/2".to_string(), Some("typed".to_string())),
        vec![Action::Unlock {
            object_path: "/o/2".to_string(),
            credential: Credential::Passphrase("typed".to_string()),
        }]
    );
}

#[test]
fn no_password_entered_is_no_key() {
    assert_eq!(
        Manager::password_entered("/o/2".to_string(), None),
        vec![Action::Notify(Notice::DecryptFail("No key or password provided".to_string()))]
    );
}

#[test]
fn unlock_tells_the_cleartext_device() {
    assert_eq!(
        Manager::unlock_finished(Ok("/o/clear".to_string())),
        vec![Action::Notify(Notice::DecryptSuccess("/o/clear".to_string()))]
    );
}

#[test]
fn refused_unlock_tells_why() {
    assert_eq!(
        Manager::unlock_finished(Err(failure(Some("wrong passphrase")))),
        vec![Action::Notify(Notice::DecryptFail("Unlock Failed: wrong passphrase".to_string()))]
    );
    assert_eq!(
        Manager::unlock_finished(Err(failure(None))),
        vec![Action::Notify(Notice::DecryptFail("Unlock Failed: D-Bus error".to_string()))]
    );
}

#[test]
fn device_with_both_capabilities_gets_both() {
    let mut manager = Manager::new(config(true), None);
    manager.new_drive(drive("/o/drive1", true));
    let mut device = filesystem("/o/1", "/dev/sdb1", "U1", "/o/drive1");
    device.interfaces = vec![Interface::Filesystem, Interface::Encrypted];
    device.enc_info = Some(EncInfo { cleartext_device: None });
    assert_eq!(
        manager.new_device(device),
        vec![
            notify_new_filesystem("/dev/sdb1"),
            Action::Mount(request("/o/1", "/dev/sdb1", None)),
            notify_new_encrypted("/dev/sdb1"),
            Action::Prompt { object_path: "/o/1".to_string() },
        ]
    );
}

#[test]
fn mounted_filesystem_that_is_a_locked_volume_is_still_unlocked() {
    let mut manager = Manager::new(config(true), None);
    manager.new_drive(drive("/o/drive1", true));
    let mut device = filesystem("/o/1", "/dev/sdb1", "U1", "/o/drive1");
    device.interfaces = vec![Interface::Filesystem, Interface::Encrypted];
    device.fs_info = Some(FsInfo { mount_paths: Some(vec!["/media/x".to_string()]) });
    device.enc_info = Some(EncInfo { cleartext_device: None });
    assert_eq!(
        manager.new_device(device),
        vec![
            notify_new_encrypted("/dev/sdb1"),
            Action::Prompt { object_path: "/o/1".to_string() },
        ]
    );
}

#[test]
fn device_is_replaced_by_a_later_one() {
    let mut manager = Manager::new(config(false), None);
    manager.new_device(block("/o/1", "/dev/sdb"));
    manager.new_device(block("/o/1", "/dev/sdc"));
    assert_eq!(manager.tracker().get_device("/o/1"), Some(&block("/o/1", "/dev/sdc")));
}

#[test]
fn handle_goes_by_the_event() {
    let mut manager = Manager::new(config(true), None);
    assert_eq!(manager.handle(Event::DriveAdded(drive("/o/drive1", true))), Vec::<Action>::new());
    assert_eq!(
        manager.handle(Event::DeviceAdded(filesystem("/o/1", "/dev/sdb1", "U1", "/o/drive1"))),
        vec![
            notify_new_filesystem("/dev/sdb1"),
            Action::Mount(request("/o/1", "/dev/sdb1", None)),
        ]
    );
    assert_eq!(
        manager.handle(Event::MountFinished {
            request: request("/o/1", "/dev/sdb1", Some("/hook")),
            reply: Ok("/media/x".to_string()),
        }),
        vec![
            Action::Notify(Notice::MountSuccess("/media/x".to_string())),
            Action::ProbeHook("/hook".to_string()),
        ]
    );
    assert_eq!(
        manager.handle(Event::HookProbed { path: "/hook".to_string(), exists: true }),
        vec![Action::RunHook("/hook".to_string())]
    );
    assert_eq!(
        manager.handle(Event::KeyfileRead { object_path: "/o/2".to_string(), contents: Ok(vec![7]) }),
        vec![Action::Unlock {
            object_path: "/o/2".to_string(),
            credential: Credential::KeyfileContents(vec![7]),
        }]
    );
    assert_eq!(
        manager.handle(Event::PasswordEntered { object_path: "/o/2".to_string(), password: None }),
        vec![Action::Notify(Notice::DecryptFail("No key or password provided".to_string()))]
    );
    assert_eq!(
        manager.handle(Event::UnlockFinished { reply: Ok("/o/clear".to_string()) }),
        vec![Action::Notify(Notice::DecryptSuccess("/o/clear".to_string()))]
    );
    assert_eq!(
        manager.handle(Event::ObjectRemoved("/o/1".to_string())),
        vec![Action::Notify(Notice::UnmountSuccess("/dev/sdb1".to_string()))]
    );
}

#[test]
fn handle_all_goes_in_order() {
    let mut manager = Manager::new(config(false), None);
    let actions = manager.handle_all(vec![
        Event::DeviceAdded(filesystem("/o/1", "/dev/sdb1", "U1", "/o/drive1")),
        Event::DriveAdded(drive("/o/drive1", true)),
        Event::DeviceAdded(filesystem("/o/2", "/dev/sdb2", "U2", "/o/drive1")),
        Event::ObjectRemoved("/o/1".to_string()),
    ]);
    assert_eq!(
        actions,
        vec![
            notify_new_filesystem("/dev/sdb2"),
            Action::Notify(Notice::UnmountSuccess("/dev/sdb1".to_string())),
        ]
    );
    assert_eq!(manager.handle_all(vec![]), Vec::<Action>::new());
}

fn nothing() -> Value {
    Value { text: None, signed: None, unsigned: None, items: None }
}

fn bytes(b: &[u8]) -> Value {
    let items = b
        .iter()
        .map(|x| Value { unsigned: Some(*x as u64), signed: Some(*x as i64), ..nothing() })
        .collect();
    Value { items: Some(items), ..nothing() }
}

fn removable_stick(device: &[u8]) -> Interfaces {
    let mut drive = Properties::new();
    drive.insert("Removable".to_string(), Value { signed: Some(1), ..nothing() });
    let mut block = Properties::new();
    block.insert("Device".to_string(), bytes(device));
    block.insert("Drive".to_string(), Value { text: Some("/o/stick".to_string()), ..nothing() });
    let mut interfaces = Interfaces::new();
    interfaces.insert("org.freedesktop.UDisks2.Drive".to_string(), drive);
    interfaces.insert("org.freedesktop.UDisks2.Block".to_string(), block);
    interfaces.insert("org.freedesktop.UDisks2.Filesystem".to_string(), Properties::new());
    interfaces
}

#[test]
fn initial_state_is_tracked_and_nothing_is_done() {
    let snapshot = vec![
        ("/o/stick".to_string(), removable_stick(b"/dev/sdb\0")),
        ("/o/other".to_string(), Interfaces::new()),
    ];
    let mut manager = Manager::new(config(true), Some(snapshot));
    assert_eq!(manager.tracker().get_drive("/o/stick"), Some(&drive("/o/stick", true)));
    assert_eq!(manager.tracker().get_device("/o/stick").unwrap().device, "/dev/sdb");
    assert!(manager.tracker().get_drive("/o/other").is_none());
    assert!(manager.tracker().get_device("/o/other").is_none());
    assert!(manager.config().settings.automount);
    assert_eq!(
        manager.removed_object("/o/stick".to_string()),
        vec![Action::Notify(Notice::UnmountSuccess("/dev/sdb".to_string()))]
    );
}

#[test]
fn later_entry_of_the_initial_state_wins() {
    let snapshot = vec![
        ("/o/stick".to_string(), removable_stick(b"/dev/sdb\0")),
        ("/o/stick".to_string(), removable_stick(b"/dev/sdc\0")),
    ];
    let manager = Manager::new(config(true), Some(snapshot));
    assert_eq!(manager.tracker().get_device("/o/stick").unwrap().device, "/dev/sdc");
}

#[test]
fn manager_without_initial_state_tracks_nothing() {
    let manager = Manager::new(config(false), None);
    assert!(manager.tracker().get_drive("/o/stick").is_none());
    assert!(manager.tracker().get_device("/o/stick").is_none());
    assert!(!manager.config().settings.automount);
}
