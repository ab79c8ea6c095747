use udman::udisks2::devices::{Block, Drive, EncInfo, FsInfo};
use udman::udisks2::raw::{
    get_bool, get_byte_string, get_byte_strings, get_string, get_u64, Interfaces, Properties, Value,
};
use udman::Interface;

fn nothing() -> Value {
    Value { text: None, signed: None, unsigned: None, items: None }
}

fn text(s: &str) -> Value {
    Value { text: Some(s.to_string()), ..nothing() }
}

fn flag(b: bool) -> Value {
    let n = if b { 1 } else { 0 };
    Value { signed: Some(n), unsigned: Some(n as u64), ..nothing() }
}

fn number(n: u64) -> Value {
    Value { signed: Some(n as i64), unsigned: Some(n), ..nothing() }
}

fn bytes(b: &[u8]) -> Value {
    Value { items: Some(b.iter().map(|x| number(*x as u64)).collect()), ..nothing() }
}

fn list(items: Vec<Value>) -> Value {
    Value { items: Some(items), ..nothing() }
}

fn properties(entries: Vec<(&str, Value)>) -> Properties {
    let mut p = Properties::new();
    for (name, value) in entries {
        p.insert(name.to_string(), value);
    }
    p
}

fn interfaces(entries: Vec<(&str, Properties)>) -> Interfaces {
    let mut i = Interfaces::new();
    for (name, p) in entries {
        i.insert(name.to_string(), p);
    }
    i
}

const BLOCK: &str = "org.freedesktop.UDisks2.Block";
const DRIVE: &str = "org.freedesktop.UDisks2.Drive";
const FILESYSTEM: &str = "org.freedesktop.UDisks2.Filesystem";
const ENCRYPTED: &str = "org.freedesktop.UDisks2.Encrypted";

#[test]
fn string_is_read() {
    assert_eq!(get_string(&text("abc")), Some("abc".to_string()));
}

#[test]
fn empty_string_is_absent() {
    assert_eq!(get_string(&text("")), None);
}

#[test]
fn string_of_a_number_is_absent() {
    assert_eq!(get_string(&number(3)), None);
}

#[test]
fn number_is_read() {
    assert_eq!(get_u64(&number(2049)), Some(2049));
    assert_eq!(get_u64(&text("2049")), None);
}

#[test]
fn bool_is_any_integer_but_zero() {
    assert_eq!(get_bool(&flag(true)), Some(true));
    assert_eq!(get_bool(&flag(false)), Some(false));
    assert_eq!(get_bool(&Value { signed: Some(-7), ..nothing() }), Some(true));
    assert_eq!(get_bool(&text("true")), None);
}

#[test]
fn byte_string_loses_its_final_nul() {
    assert_eq!(get_byte_string(&bytes(b"/dev/sdb1\0")), Some("/dev/sdb1".to_string()));
}

#[test]
fn byte_string_without_nul_is_kept_whole() {
    assert_eq!(get_byte_string(&bytes(b"/dev/sdb1")), Some("/dev/sdb1".to_string()));
}

#[test]
fn byte_string_loses_one_nul_only() {
    assert_eq!(get_byte_string(&bytes(b"ab\0\0")), Some("ab\0".to_string()));
}

#[test]
fn empty_byte_string_is_the_empty_text() {
    assert_eq!(get_byte_string(&bytes(b"")), Some(String::new()));
    assert_eq!(get_byte_string(&bytes(b"\0")), Some(String::new()));
}

#[test]
fn byte_string_is_decoded_as_utf8() {
    assert_eq!(
        get_byte_string(&bytes(&[0x2f, 0xc3, 0xa9, 0xe2, 0x82, 0xac, 0x00])),
        Some("/\u{e9}\u{20ac}".to_string())
    );
}

#[test]
fn byte_string_that_is_no_utf8_is_absent() {
    assert_eq!(get_byte_string(&bytes(&[0x2f, 0xff, 0xfe])), None);
    assert_eq!(get_byte_string(&bytes(&[0xc3])), None);
}

#[test]
fn byte_string_of_no_list_is_absent() {
    assert_eq!(get_byte_string(&text("/dev/sdb1")), None);
}

#[test]
fn byte_string_takes_the_low_byte_and_skips_what_is_no_number() {
    let value = list(vec![number(0x141), text("x"), number(0x42)]);
    assert_eq!(get_byte_string(&value), Some("AB".to_string()));
}

#[test]
fn byte_strings_are_read_in_order() {
    let value = list(vec![bytes(b"/media/a\0"), bytes(b"/media/b\0")]);
    assert_eq!(
        get_byte_strings(&value),
        Some(vec!["/media/a".to_string(), "/media/b".to_string()])
    );
}

#[test]
fn byte_strings_leave_out_what_does_not_decode() {
    let value = list(vec![bytes(&[0xff]), bytes(b"/media/a\0"), text("no list")]);
    assert_eq!(get_byte_strings(&value), Some(vec!["/media/a".to_string()]));
}

#[test]
fn byte_strings_that_yield_nothing_are_absent() {
    assert_eq!(get_byte_strings(&list(vec![])), None);
    assert_eq!(get_byte_strings(&list(vec![bytes(&[0xff])])), None);
    assert_eq!(get_byte_strings(&number(1)), None);
}

#[test]
fn properties_keep_the_last_value() {
    let mut p = Properties::new();
    assert!(p.get("IdUUID").is_none());
    p.insert("IdUUID".to_string(), text("U1"));
    p.insert("IdUUID".to_string(), text("U2"));
    assert_eq!(p.get("IdUUID"), Some(&text("U2")));
    assert!(p.get("IdLabel").is_none());
}

#[test]
fn interfaces_are_found_by_name() {
    let i = interfaces(vec![(BLOCK, properties(vec![("IdUUID", text("U1"))]))]);
    assert!(i.get(DRIVE).is_none());
    assert_eq!(i.get(BLOCK).unwrap().get("IdUUID"), Some(&text("U1")));
}

#[test]
fn drive_is_read() {
    let i = interfaces(vec![(DRIVE, properties(vec![("Removable", flag(true))]))]);
    assert_eq!(
        Drive::new("/o/drive1", &i),
        Some(Drive { object_path: "/o/drive1".to_string(), removable: true })
    );
    let i = interfaces(vec![(DRIVE, properties(vec![("Removable", flag(false))]))]);
    assert_eq!(
        Drive::new("/o/drive2", &i),
        Some(Drive { object_path: "/o/drive2".to_string(), removable: false })
    );
}

#[test]
fn drive_needs_the_drive_interface() {
    let i = interfaces(vec![(BLOCK, properties(vec![("Removable", flag(true))]))]);
    assert_eq!(Drive::new("/o/drive1", &i), None);
}

#[test]
fn drive_needs_a_removable_flag() {
    let i = interfaces(vec![(DRIVE, properties(vec![("Vendor", text("ACME"))]))]);
    assert_eq!(Drive::new("/o/drive1", &i), None);
    let i = interfaces(vec![(DRIVE, properties(vec![("Removable", text("yes"))]))]);
    assert_eq!(Drive::new("/o/drive1", &i), None);
}

#[test]
fn block_needs_the_block_interface() {
    let i = interfaces(vec![(FILESYSTEM, properties(vec![]))]);
    assert_eq!(Block::new("/o/1", &i), None);
}

#[test]
fn plain_block_is_read() {
    let i = interfaces(vec![(
        BLOCK,
        properties(vec![
            ("IdUUID", text("U1")),
            ("IdLabel", text("stick")),
            ("Device", bytes(b"/dev/sdb1\0")),
            ("PreferredDevice", bytes(b"/dev/disk/by-label/stick\0")),
            ("Symlinks", list(vec![bytes(b"/dev/disk/by-uuid/U1\0")])),
            ("DeviceNumber", number(2065)),
            ("Drive", text("/o/drive1")),
            ("CryptoBackingDevice", text("/")),
            ("Size", number(1 << 30)),
        ]),
    )]);
    assert_eq!(
        Block::new("/o/1", &i),
        Some(Block {
            interfaces: vec![],
            object_path: "/o/1".to_string(),
            uuid: Some("U1".to_string()),
            device: "/dev/sdb1".to_string(),
            preferred_device: "/dev/disk/by-label/stick".to_string(),
            symlinks: Some(vec!["/dev/disk/by-uuid/U1".to_string()]),
            device_number: Some(2065),
            label: Some("stick".to_string()),
            fs_info: None,
            enc_info: None,
            drive: Some("/o/drive1".to_string()),
            crypto_backing_device: Some("/".to_string()),
        })
    );
}

#[test]
fn block_without_properties_is_empty() {
    let i = interfaces(vec![(BLOCK, properties(vec![]))]);
    assert_eq!(
        Block::new("/o/1", &i),
        Some(Block {
            interfaces: vec![],
            object_path: "/o/1".to_string(),
            uuid: None,
            device: String::new(),
            preferred_device: String::new(),
            symlinks: None,
            device_number: None,
            label: None,
            fs_info: None,
            enc_info: None,
            drive: None,
            crypto_backing_device: None,
        })
    );
}

#[test]
fn block_with_a_broken_device_node_is_no_block() {
    let i = interfaces(vec![(BLOCK, properties(vec![("Device", bytes(&[0xff, 0x00]))]))]);
    assert_eq!(Block::new("/o/1", &i), None);
    let i = interfaces(vec![(BLOCK, properties(vec![("Device", text("/dev/sdb1"))]))]);
    assert_eq!(Block::new("/o/1", &i), None);
    let i = interfaces(vec![(
        BLOCK,
        properties(vec![("Device", bytes(b"/dev/sdb1\0")), ("PreferredDevice", number(1))]),
    )]);
    assert_eq!(Block::new("/o/1", &i), None);
}

#[test]
fn block_of_other_types_reads_them_as_absent() {
    let i = interfaces(vec![(
        BLOCK,
        properties(vec![
            ("IdUUID", number(1)),
            ("IdLabel", bytes(b"stick")),
            ("Symlinks", text("/dev/x")),
            ("DeviceNumber", text("1")),
            ("Drive", text("")),
        ]),
    )]);
    let block = Block::new("/o/1", &i).unwrap();
    assert_eq!(block.uuid, None);
    assert_eq!(block.label, None);
    assert_eq!(block.symlinks, None);
    assert_eq!(block.device_number, None);
    assert_eq!(block.drive, None);
}

#[test]
fn filesystem_interface_gives_the_capability() {
    let i = interfaces(vec![
        (BLOCK, properties(vec![("Device", bytes(b"/dev/sdb1\0"))])),
        (FILESYSTEM, properties(vec![("MountPoints", list(vec![bytes(b"/media/x\0")]))])),
    ]);
    let block = Block::new("/o/1", &i).unwrap();
    assert_eq!(block.interfaces, vec![Interface::Filesystem]);
    assert_eq!(block.fs_info, Some(FsInfo { mount_paths: Some(vec!["/media/x".to_string()]) }));
    assert_eq!(block.enc_info, None);
    assert!(block.has_interface(Interface::Filesystem));
    assert!(!block.has_interface(Interface::Encrypted));
    assert!(block.as_fs().is_some());
    assert!(block.as_enc().is_none());
    assert_eq!(block.as_fs().unwrap().device, block);
}

#[test]
fn unmounted_filesystem_has_no_mount_paths() {
    let i = interfaces(vec![
        (BLOCK, properties(vec![])),
        (FILESYSTEM, properties(vec![("MountPoints", list(vec![]))])),
    ]);
    let block = Block::new("/o/1", &i).unwrap();
    assert_eq!(block.fs_info, Some(FsInfo { mount_paths: None }));
    let i = interfaces(vec![(BLOCK, properties(vec![])), (FILESYSTEM, properties(vec![]))]);
    let block = Block::new("/o/1", &i).unwrap();
    assert_eq!(block.fs_info, Some(FsInfo { mount_paths: None }));
}

#[test]
fn encrypted_interface_gives_the_capability() {
    let i = interfaces(vec![
        (BLOCK, properties(vec![])),
        (ENCRYPTED, properties(vec![("CleartextDevice", text("/o/clear"))])),
    ]);
    let block = Block::new("/o/1", &i).unwrap();
    assert_eq!(block.interfaces, vec![Interface::Encrypted]);
    assert_eq!(block.enc_info, Some(EncInfo { cleartext_device: Some("/o/clear".to_string()) }));
    assert!(block.as_enc().is_some());
    assert!(block.as_fs().is_none());
    assert_eq!(block.as_enc().unwrap().device, block);
}

#[test]
fn root_path_is_no_cleartext_device() {
    let i = interfaces(vec![
        (BLOCK, properties(vec![])),
        (ENCRYPTED, properties(vec![("CleartextDevice", text("/"))])),
    ]);
    let block = Block::new("/o/1", &i).unwrap();
    assert_eq!(block.enc_info, Some(EncInfo { cleartext_device: None }));
    let i = interfaces(vec![
        (BLOCK, properties(vec![])),
        (ENCRYPTED, properties(vec![("CleartextDevice", text(""))])),
    ]);
    let block = Block::new("/o/1", &i).unwrap();
    assert_eq!(block.enc_info, Some(EncInfo { cleartext_device: None }));
    let i = interfaces(vec![(BLOCK, properties(vec![])), (ENCRYPTED, properties(vec![]))]);
    let block = Block::new("/o/1", &i).unwrap();
    assert_eq!(block.enc_info, Some(EncInfo { cleartext_device: None }));
}

#[test]
fn both_capabilities_come_filesystem_first() {
    let i = interfaces(vec![
        (ENCRYPTED, properties(vec![])),
        (FILESYSTEM, properties(vec![])),
        (BLOCK, properties(vec![])),
    ]);
    let block = Block::new("/o/1", &i).unwrap();
    assert_eq!(block.interfaces, vec![Interface::Filesystem, Interface::Encrypted]);
}

#[test]
fn clone_of_a_block_is_equal() {
    let i = interfaces(vec![
        (
            BLOCK,
            properties(vec![
                ("IdUUID", text("U1")),
                ("Device", bytes(b"/dev/sdb1\0")),
                ("Symlinks", list(vec![bytes(b"/a\0"), bytes(b"/b\0")])),
            ]),
        ),
        (FILESYSTEM, properties(vec![("MountPoints", list(vec![bytes(b"/media/x\0")]))])),
        (ENCRYPTED, properties(vec![("CleartextDevice", text("/o/clear"))])),
    ]);
    let block = Block::new("/o/1", &i).unwrap();
    assert_eq!(block.clone(), block);
}
