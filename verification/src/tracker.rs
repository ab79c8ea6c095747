//! The record of the drives and block devices that are present, each under
//! its object path.
use vstd::prelude::*;
use vstd::hash_map::StringHashMap;
use crate::udisks2::devices::block::{block_of, Block, BlockView};
use crate::udisks2::devices::drive::{drive_of, Drive, DriveView};
use crate::udisks2::raw::{InterfaceMap, Interfaces};

verus! {

/// The drives and block devices that are present.
pub struct Tracker {
    drives: StringHashMap<Drive>,
    devices: StringHashMap<Block>,
}

/// A `Tracker` as two maps from object path to record.
pub ghost struct TrackerView {
    pub drives: Map<Seq<char>, DriveView>,
    pub devices: Map<Seq<char>, BlockView>,
}

impl TrackerView {
    /// Whether every record is kept under its own object path.
    pub open spec fn wf(self) -> bool {
        &&& forall|object_path: Seq<char>| #[trigger]
            self.drives.contains_key(object_path) ==> self.drives[object_path].object_path
                == object_path
        &&& forall|object_path: Seq<char>| #[trigger]
            self.devices.contains_key(object_path) ==> self.devices[object_path].object_path
                == object_path
    }

    /// The tracker that holds nothing.
    pub open spec fn empty() -> TrackerView {
        TrackerView { drives: Map::empty(), devices: Map::empty() }
    }

    /// The tracker with `drive` under its object path, in place of any drive
    /// that was there.
    pub open spec fn insert_drive(self, drive: DriveView) -> TrackerView {
        TrackerView { drives: self.drives.insert(drive.object_path, drive), ..self }
    }

    /// The tracker with `device` under its object path, in place of any
    /// device that was there.
    pub open spec fn insert_device(self, device: BlockView) -> TrackerView {
        TrackerView { devices: self.devices.insert(device.object_path, device), ..self }
    }

    /// The drive at `object_path`, if one is tracked.
    pub open spec fn get_drive(self, object_path: Seq<char>) -> Option<DriveView> {
        if self.drives.contains_key(object_path) {
            Some(self.drives[object_path])
        } else {
            None
        }
    }

    /// The block device at `object_path`, if one is tracked.
    pub open spec fn get_device(self, object_path: Seq<char>) -> Option<BlockView> {
        if self.devices.contains_key(object_path) {
            Some(self.devices[object_path])
        } else {
            None
        }
    }

    /// The tracker without whatever was at `object_path`.
    pub open spec fn remove(self, object_path: Seq<char>) -> TrackerView {
        TrackerView {
            drives: self.drives.remove(object_path),
            devices: self.devices.remove(object_path),
        }
    }

    /// The tracker after the object at `object_path` was read from
    /// `interfaces`: it holds the drive and the block device that the object
    /// is, as far as it is either.
    pub open spec fn seed_entry(
        self,
        object_path: Seq<char>,
        interfaces: InterfaceMap,
    ) -> TrackerView {
        let with_drive = match drive_of(object_path, interfaces) {
            Some(drive) => self.insert_drive(drive),
            None => self,
        };
        match block_of(object_path, interfaces) {
            Some(device) => with_drive.insert_device(device),
            None => with_drive,
        }
    }

    /// The tracker after every object of `snapshot` was read, in order.
    pub open spec fn seed(self, snapshot: Seq<(Seq<char>, InterfaceMap)>) -> TrackerView
        decreases snapshot.len(),
    {
        if snapshot.len() == 0 {
            self
        } else {
            self.seed(snapshot.drop_last()).seed_entry(snapshot.last().0, snapshot.last().1)
        }
    }
}

/// A snapshot of the service's objects as text and maps.
pub open spec fn snapshot_view(snapshot: Seq<(String, Interfaces)>) -> Seq<
    (Seq<char>, InterfaceMap),
> {
    snapshot.map_values(|entry: (String, Interfaces)| (entry.0@, entry.1@))
}

impl View for Tracker {
    type V = TrackerView;

    closed spec fn view(&self) -> TrackerView {
        TrackerView {
            drives: self.drives@.map_values(|d: Drive| d@),
            devices: self.devices@.map_values(|b: Block| b@),
        }
    }
}

impl Tracker {
    /// A tracker that holds nothing.
    pub fn new() -> (tracker: Tracker)
        ensures
            tracker@ == TrackerView::empty(),
    {
        let tracker = Tracker { drives: StringHashMap::new(), devices: StringHashMap::new() };
        assert(tracker@.drives =~= Map::empty());
        assert(tracker@.devices =~= Map::empty());
        tracker
    }

    /// Loads the objects of `snapshot`, in order, without acting on any of
    /// them.
    pub fn seed(&mut self, snapshot: &Vec<(String, Interfaces)>)
        ensures
            final(self)@ == old(self)@.seed(snapshot_view(snapshot@)),
    {
        let ghost all = snapshot_view(snapshot@);
        let mut i: usize = 0;
        while i < snapshot.len()
            invariant
                i <= snapshot.len(),
                all == snapshot_view(snapshot@),
                self@ == old(self)@.seed(all.take(i as int)),
            decreases snapshot.len() - i,
        {
            assert(all.take(i + 1).drop_last() =~= all.take(i as int));
            let entry = &snapshot[i];
            match Drive::new(entry.0.as_str(), &entry.1) {
                Some(drive) => {
                    self.insert_drive(drive);
                },
                None => {},
            }
            match Block::new(entry.0.as_str(), &entry.1) {
                Some(device) => {
                    self.insert_device(device);
                },
                None => {},
            }
            i += 1;
        }
        assert(all.take(snapshot.len() as int) =~= all);
    }

    /// Stores `drive` under its object path, in place of any drive that was
    /// there.
    pub fn insert_drive(&mut self, drive: Drive)
        ensures
            final(self)@ == old(self)@.insert_drive(drive@),
    {
        let key = drive.object_path.clone();
        self.drives.insert(key, drive);
        assert(self@.drives =~= old(self)@.drives.insert(drive@.object_path, drive@));
    }

    /// Stores `device` under its object path, in place of any device that
    /// was there.
    pub fn insert_device(&mut self, device: Block)
        ensures
            final(self)@ == old(self)@.insert_device(device@),
    {
        let key = device.object_path.clone();
        self.devices.insert(key, device);
        assert(self@.devices =~= old(self)@.devices.insert(device@.object_path, device@));
    }

    /// The drive at `object_path`, if one is tracked.
    pub fn get_drive(&self, object_path: &str) -> (drive: Option<&Drive>)
        ensures
            drive.deep_view() == self@.get_drive(object_path@),
    {
        self.drives.get(object_path)
    }

    /// The block device at `object_path`, if one is tracked.
    pub fn get_device(&self, object_path: &str) -> (device: Option<&Block>)
        ensures
            device.deep_view() == self@.get_device(object_path@),
    {
        self.devices.get(object_path)
    }

    /// Forgets whatever is at `object_path`, and hands back the block device
    /// that was there, if there was one.
    pub fn remove(&mut self, object_path: &str) -> (removed: Option<Block>)
        ensures
            final(self)@ == old(self)@.remove(object_path@),
            removed.deep_view() == old(self)@.get_device(object_path@),
    {
        let removed = match self.devices.get(object_path) {
            Some(device) => Some(device.clone()),
            None => None,
        };
        self.devices.remove(object_path);
        self.drives.remove(object_path);
        assert(self@.drives =~= old(self)@.drives.remove(object_path@));
        assert(self@.devices =~= old(self)@.devices.remove(object_path@));
        removed
    }
}

} // verus!
