//! A drive: the physical or logical unit that block devices belong to.
use vstd::prelude::*;
use crate::udisks2::raw::{bool_of, get_bool, InterfaceMap, Interfaces};

verus! {

/// A drive, known by its object path.
#[derive(Debug, PartialEq, Eq)]
pub struct Drive {
    pub object_path: String,
    /// Whether the drive can be taken out of the machine.
    pub removable: bool,
}

/// A `Drive` with its object path as text.
pub ghost struct DriveView {
    pub object_path: Seq<char>,
    pub removable: bool,
}

impl View for Drive {
    type V = DriveView;

    open spec fn view(&self) -> DriveView {
        DriveView { object_path: self.object_path@, removable: self.removable }
    }
}

impl DeepView for Drive {
    type V = DriveView;

    open spec fn deep_view(&self) -> DriveView {
        self@
    }
}

impl Clone for Drive {
    fn clone(&self) -> (copy: Self)
        ensures
            copy@ == self@,
    {
        Drive { object_path: self.object_path.clone(), removable: self.removable }
    }
}

/// The name of the interface that every drive has.
pub open spec fn drive_interface() -> Seq<char> {
    "org.freedesktop.UDisks2.Drive"@
}

/// The drive that the object at `object_path` is, if it is one: it must
/// have the drive interface, and on it a `Removable` property that holds a
/// truth value.
pub open spec fn drive_of(object_path: Seq<char>, interfaces: InterfaceMap) -> Option<DriveView> {
    if interfaces.contains_key(drive_interface()) && interfaces[drive_interface()].contains_key(
        "Removable"@,
    ) {
        match bool_of(interfaces[drive_interface()]["Removable"@]) {
            Some(removable) => Some(DriveView { object_path, removable }),
            None => None,
        }
    } else {
        None
    }
}

impl Drive {
    /// Reads a drive from the interfaces of the object at `object_path`.
    pub fn new(object_path: &str, interfaces: &Interfaces) -> (drive: Option<Drive>)
        ensures
            drive.deep_view() == drive_of(object_path@, interfaces@),
    {
        match interfaces.get("org.freedesktop.UDisks2.Drive") {
            Some(properties) => match properties.get("Removable") {
                Some(value) => match get_bool(value) {
                    Some(removable) => Some(
                        Drive { object_path: object_path.to_owned(), removable },
                    ),
                    None => None,
                },
                None => None,
            },
            None => None,
        }
    }
}

} // verus!
