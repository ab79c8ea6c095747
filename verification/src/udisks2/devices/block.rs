//! A block device: an addressable volume that may hold a filesystem, be an
//! encrypted container, or both.
use vstd::prelude::*;
use crate::text::{clone_opt_string, clone_opt_strings, is_root_path};
use crate::udisks2::devices::encrypted::Encrypted;
use crate::udisks2::devices::filesystem::Filesystem;
use crate::udisks2::raw::{
    byte_string_of,
    byte_strings_of,
    get_byte_string,
    get_byte_strings,
    get_string,
    get_u64,
    string_of,
    InterfaceMap,
    Interfaces,
    Properties,
    PropertyMap,
};
use crate::udisks2::Interface;

verus! {

/// What is known of the filesystem on a block device.
#[derive(Debug, PartialEq, Eq)]
pub struct FsInfo {
    /// Where the filesystem is mounted, if anywhere.
    pub mount_paths: Option<Vec<String>>,
}

/// An `FsInfo` with its paths as text.
pub ghost struct FsInfoView {
    pub mount_paths: Option<Seq<Seq<char>>>,
}

impl View for FsInfo {
    type V = FsInfoView;

    open spec fn view(&self) -> FsInfoView {
        FsInfoView { mount_paths: self.mount_paths.deep_view() }
    }
}

impl DeepView for FsInfo {
    type V = FsInfoView;

    open spec fn deep_view(&self) -> FsInfoView {
        self@
    }
}

impl Clone for FsInfo {
    fn clone(&self) -> (copy: Self)
        ensures
            copy@ == self@,
    {
        FsInfo { mount_paths: clone_opt_strings(&self.mount_paths) }
    }
}

/// What is known of the encryption of a block device.
#[derive(Debug, PartialEq, Eq)]
pub struct EncInfo {
    /// The object path of the unlocked device, if the volume is unlocked.
    pub cleartext_device: Option<String>,
}

/// An `EncInfo` with its path as text.
pub ghost struct EncInfoView {
    pub cleartext_device: Option<Seq<char>>,
}

impl View for EncInfo {
    type V = EncInfoView;

    open spec fn view(&self) -> EncInfoView {
        EncInfoView { cleartext_device: self.cleartext_device.deep_view() }
    }
}

impl DeepView for EncInfo {
    type V = EncInfoView;

    open spec fn deep_view(&self) -> EncInfoView {
        self@
    }
}

impl Clone for EncInfo {
    fn clone(&self) -> (copy: Self)
        ensures
            copy@ == self@,
    {
        EncInfo { cleartext_device: clone_opt_string(&self.cleartext_device) }
    }
}

/// A block device, known by its object path.
#[derive(Debug, PartialEq, Eq)]
pub struct Block {
    /// The capabilities of the device.
    pub interfaces: Vec<Interface>,
    pub object_path: String,
    /// The UUID of the volume, by which its settings are found.
    pub uuid: Option<String>,
    /// The device node, such as `/dev/sdb1`.
    pub device: String,
    pub preferred_device: String,
    pub symlinks: Option<Vec<String>>,
    pub device_number: Option<u64>,
    pub label: Option<String>,
    pub fs_info: Option<FsInfo>,
    pub enc_info: Option<EncInfo>,
    /// The object path of the drive that the device belongs to.
    pub drive: Option<String>,
    pub crypto_backing_device: Option<String>,
}

/// A `Block` with its strings as text.
pub ghost struct BlockView {
    pub interfaces: Seq<Interface>,
    pub object_path: Seq<char>,
    pub uuid: Option<Seq<char>>,
    pub device: Seq<char>,
    pub preferred_device: Seq<char>,
    pub symlinks: Option<Seq<Seq<char>>>,
    pub device_number: Option<u64>,
    pub label: Option<Seq<char>>,
    pub fs_info: Option<FsInfoView>,
    pub enc_info: Option<EncInfoView>,
    pub drive: Option<Seq<char>>,
    pub crypto_backing_device: Option<Seq<char>>,
}

impl View for Block {
    type V = BlockView;

    open spec fn view(&self) -> BlockView {
        BlockView {
            interfaces: self.interfaces@,
            object_path: self.object_path@,
            uuid: self.uuid.deep_view(),
            device: self.device@,
            preferred_device: self.preferred_device@,
            symlinks: self.symlinks.deep_view(),
            device_number: self.device_number,
            label: self.label.deep_view(),
            fs_info: self.fs_info.deep_view(),
            enc_info: self.enc_info.deep_view(),
            drive: self.drive.deep_view(),
            crypto_backing_device: self.crypto_backing_device.deep_view(),
        }
    }
}

impl DeepView for Block {
    type V = BlockView;

    open spec fn deep_view(&self) -> BlockView {
        self@
    }
}

impl BlockView {
    /// Whether the device has the capability `interface`.
    pub open spec fn has_interface(self, interface: Interface) -> bool {
        self.interfaces.contains(interface)
    }

    /// Whether the filesystem on the device is mounted somewhere.
    pub open spec fn is_mounted(self) -> bool {
        match self.fs_info {
            Some(info) => match info.mount_paths {
                Some(paths) => paths.len() > 0,
                None => false,
            },
            None => false,
        }
    }

    /// Whether the encrypted volume is unlocked.
    pub open spec fn is_unlocked(self) -> bool {
        match self.enc_info {
            Some(info) => info.cleartext_device is Some,
            None => false,
        }
    }
}

/// The name of the interface that every block device has.
pub open spec fn block_interface() -> Seq<char> {
    "org.freedesktop.UDisks2.Block"@
}

/// The name of the interface of a device that holds a filesystem.
pub open spec fn filesystem_interface() -> Seq<char> {
    "org.freedesktop.UDisks2.Filesystem"@
}

/// The name of the interface of an encrypted device.
pub open spec fn encrypted_interface() -> Seq<char> {
    "org.freedesktop.UDisks2.Encrypted"@
}

/// The string property `name`, if it is set to a string that is not empty.
pub open spec fn string_prop(properties: PropertyMap, name: Seq<char>) -> Option<Seq<char>> {
    if properties.contains_key(name) {
        string_of(properties[name])
    } else {
        None
    }
}

/// The property `name` as a device path. A property that is not set gives
/// the empty path; one that is set but is no byte string in UTF-8 gives
/// `None`.
pub open spec fn path_prop(properties: PropertyMap, name: Seq<char>) -> Option<Seq<char>> {
    if properties.contains_key(name) {
        byte_string_of(properties[name])
    } else {
        Some(Seq::empty())
    }
}

/// The property `name` as a list of byte strings, if it is set and yields
/// any.
pub open spec fn paths_prop(properties: PropertyMap, name: Seq<char>) -> Option<Seq<Seq<char>>> {
    if properties.contains_key(name) {
        byte_strings_of(properties[name])
    } else {
        None
    }
}

/// The property `name` as an unsigned integer, if it is set to one.
pub open spec fn number_prop(properties: PropertyMap, name: Seq<char>) -> Option<u64> {
    if properties.contains_key(name) {
        properties[name].unsigned
    } else {
        None
    }
}

/// The capabilities that the interfaces of an object give it, the filesystem
/// first.
pub open spec fn capabilities_of(interfaces: InterfaceMap) -> Seq<Interface> {
    let filesystem = if interfaces.contains_key(filesystem_interface()) {
        seq![Interface::Filesystem]
    } else {
        Seq::empty()
    };
    let encrypted = if interfaces.contains_key(encrypted_interface()) {
        seq![Interface::Encrypted]
    } else {
        Seq::empty()
    };
    filesystem + encrypted
}

/// What the filesystem interface, if the object has it, says of the
/// filesystem.
pub open spec fn fs_info_of(interfaces: InterfaceMap) -> Option<FsInfoView> {
    if interfaces.contains_key(filesystem_interface()) {
        Some(
            FsInfoView {
                mount_paths: paths_prop(interfaces[filesystem_interface()], "MountPoints"@),
            },
        )
    } else {
        None
    }
}

/// The unlocked device that the properties of an encrypted device name. The
/// root path `/` stands for none.
pub open spec fn cleartext_of(properties: PropertyMap) -> Option<Seq<char>> {
    match string_prop(properties, "CleartextDevice"@) {
        Some(path) => if path == seq!['/'] {
            None
        } else {
            Some(path)
        },
        None => None,
    }
}

/// What the encrypted interface, if the object has it, says of the volume.
pub open spec fn enc_info_of(interfaces: InterfaceMap) -> Option<EncInfoView> {
    if interfaces.contains_key(encrypted_interface()) {
        Some(EncInfoView { cleartext_device: cleartext_of(interfaces[encrypted_interface()]) })
    } else {
        None
    }
}

/// The block device that the object at `object_path` is, if it is one. It
/// must have the block interface, and its `Device` and `PreferredDevice`,
/// where they are set, must be byte strings in UTF-8. Every other property
/// that is missing or of another type is read as absent.
pub open spec fn block_of(object_path: Seq<char>, interfaces: InterfaceMap) -> Option<BlockView> {
    if !interfaces.contains_key(block_interface()) {
        None
    } else {
        let properties = interfaces[block_interface()];
        match (path_prop(properties, "Device"@), path_prop(properties, "PreferredDevice"@)) {
            (Some(device), Some(preferred_device)) => Some(
                BlockView {
                    interfaces: capabilities_of(interfaces),
                    object_path,
                    uuid: string_prop(properties, "IdUUID"@),
                    device,
                    preferred_device,
                    symlinks: paths_prop(properties, "Symlinks"@),
                    device_number: number_prop(properties, "DeviceNumber"@),
                    label: string_prop(properties, "IdLabel"@),
                    fs_info: fs_info_of(interfaces),
                    enc_info: enc_info_of(interfaces),
                    drive: string_prop(properties, "Drive"@),
                    crypto_backing_device: string_prop(properties, "CryptoBackingDevice"@),
                },
            ),
            _ => None,
        }
    }
}

/// Reads the string property `name`.
fn read_string(properties: &Properties, name: &str) -> (text: Option<String>)
    ensures
        text.deep_view() == string_prop(properties@, name@),
{
    match properties.get(name) {
        Some(value) => get_string(value),
        None => None,
    }
}

/// Reads the property `name` as a device path.
fn read_path(properties: &Properties, name: &str) -> (text: Option<String>)
    ensures
        text.deep_view() == path_prop(properties@, name@),
{
    match properties.get(name) {
        Some(value) => get_byte_string(value),
        None => Some(String::new()),
    }
}

/// Reads the property `name` as a list of byte strings.
fn read_paths(properties: &Properties, name: &str) -> (texts: Option<Vec<String>>)
    ensures
        texts.deep_view() == paths_prop(properties@, name@),
{
    match properties.get(name) {
        Some(value) => get_byte_strings(value),
        None => None,
    }
}

/// Reads the property `name` as an unsigned integer.
fn read_number(properties: &Properties, name: &str) -> (number: Option<u64>)
    ensures
        number == number_prop(properties@, name@),
{
    match properties.get(name) {
        Some(value) => get_u64(value),
        None => None,
    }
}

/// Reads what the filesystem interface says, if the object has it.
fn read_fs_info(interfaces: &Interfaces) -> (info: Option<FsInfo>)
    ensures
        info.deep_view() == fs_info_of(interfaces@),
{
    match interfaces.get("org.freedesktop.UDisks2.Filesystem") {
        Some(properties) => Some(FsInfo { mount_paths: read_paths(properties, "MountPoints") }),
        None => None,
    }
}

/// Reads what the encrypted interface says, if the object has it.
fn read_enc_info(interfaces: &Interfaces) -> (info: Option<EncInfo>)
    ensures
        info.deep_view() == enc_info_of(interfaces@),
{
    match interfaces.get("org.freedesktop.UDisks2.Encrypted") {
        Some(properties) => {
            let cleartext_device = match read_string(properties, "CleartextDevice") {
                Some(path) => if is_root_path(path.as_str()) {
                    None
                } else {
                    Some(path)
                },
                None => None,
            };
            Some(EncInfo { cleartext_device })
        },
        None => None,
    }
}

/// A copy of a list of capabilities.
fn clone_interfaces(list: &Vec<Interface>) -> (copy: Vec<Interface>)
    ensures
        copy@ == list@,
{
    let mut copy: Vec<Interface> = Vec::new();
    let mut i: usize = 0;
    while i < list.len()
        invariant
            i <= list.len(),
            copy@ == list@.take(i as int),
        decreases list.len() - i,
    {
        copy.push(list[i]);
        i += 1;
    }
    copy
}

impl Clone for Block {
    fn clone(&self) -> (copy: Self)
        ensures
            copy@ == self@,
    {
        let fs_info = match &self.fs_info {
            Some(info) => Some(info.clone()),
            None => None,
        };
        let enc_info = match &self.enc_info {
            Some(info) => Some(info.clone()),
            None => None,
        };
        Block {
            interfaces: clone_interfaces(&self.interfaces),
            object_path: self.object_path.clone(),
            uuid: clone_opt_string(&self.uuid),
            device: self.device.clone(),
            preferred_device: self.preferred_device.clone(),
            symlinks: clone_opt_strings(&self.symlinks),
            device_number: self.device_number,
            label: clone_opt_string(&self.label),
            fs_info,
            enc_info,
            drive: clone_opt_string(&self.drive),
            crypto_backing_device: clone_opt_string(&self.crypto_backing_device),
        }
    }
}

impl Block {
    /// Reads a block device from the interfaces of the object at
    /// `object_path`.
    pub fn new(object_path: &str, interfaces: &Interfaces) -> (block: Option<Block>)
        ensures
            block.deep_view() == block_of(object_path@, interfaces@),
    {
        let properties = match interfaces.get("org.freedesktop.UDisks2.Block") {
            Some(properties) => properties,
            None => {
                return None;
            },
        };
        let device = match read_path(properties, "Device") {
            Some(device) => device,
            None => {
                return None;
            },
        };
        let preferred_device = match read_path(properties, "PreferredDevice") {
            Some(preferred_device) => preferred_device,
            None => {
                return None;
            },
        };
        let fs_info = read_fs_info(interfaces);
        let enc_info = read_enc_info(interfaces);
        let mut capabilities: Vec<Interface> = Vec::new();
        if fs_info.is_some() {
            capabilities.push(Interface::Filesystem);
        }
        if enc_info.is_some() {
            capabilities.push(Interface::Encrypted);
        }
        assert(capabilities@ =~= capabilities_of(interfaces@));
        Some(
            Block {
                interfaces: capabilities,
                object_path: object_path.to_owned(),
                uuid: read_string(properties, "IdUUID"),
                device,
                preferred_device,
                symlinks: read_paths(properties, "Symlinks"),
                device_number: read_number(properties, "DeviceNumber"),
                label: read_string(properties, "IdLabel"),
                fs_info,
                enc_info,
                drive: read_string(properties, "Drive"),
                crypto_backing_device: read_string(properties, "CryptoBackingDevice"),
            },
        )
    }

    /// Whether the device has the capability `interface`.
    pub fn has_interface(&self, interface: Interface) -> (found: bool)
        ensures
            found == self@.has_interface(interface),
    {
        let mut i: usize = 0;
        while i < self.interfaces.len()
            invariant
                i <= self.interfaces.len(),
                forall|j: int| 0 <= j < i ==> self.interfaces@[j] != interface,
            decreases self.interfaces.len() - i,
        {
            if self.interfaces[i] == interface {
                return true;
            }
            i += 1;
        }
        false
    }

    /// The device in its role as a filesystem, if it holds one.
    pub fn as_fs(&self) -> (filesystem: Option<Filesystem>)
        ensures
            filesystem is Some <==> self@.has_interface(Interface::Filesystem),
            filesystem matches Some(fs) ==> fs.device@ == self@,
    {
        if self.has_interface(Interface::Filesystem) {
            Some(Filesystem { device: self.clone() })
        } else {
            None
        }
    }

    /// The device in its role as an encrypted volume, if it is one.
    pub fn as_enc(&self) -> (encrypted: Option<Encrypted>)
        ensures
            encrypted is Some <==> self@.has_interface(Interface::Encrypted),
            encrypted matches Some(enc) ==> enc.device@ == self@,
    {
        if self.has_interface(Interface::Encrypted) {
            Some(Encrypted { device: self.clone() })
        } else {
            None
        }
    }
}

} // verus!
