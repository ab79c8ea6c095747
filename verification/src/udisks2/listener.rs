//! The listener: it reads the signals of the disk service and turns them
//! into events for the kinds of event that are subscribed to.
use vstd::prelude::*;
use crate::action::{Event, EventView};
use crate::err::{MounterError, MounterErrorView, TransportError, TransportErrorView};
use crate::udisks2::devices::block::{block_of, Block};
use crate::udisks2::devices::drive::{drive_of, Drive};
use crate::udisks2::raw::{InterfaceMap, Interfaces};

verus! {

/// What the disk service sends, or the end of its sending.
pub enum Signal {
    /// An object appeared, or got more interfaces.
    InterfacesAdded { object_path: String, interfaces: Interfaces },
    /// An object went away, or lost the interfaces named in `removed`.
    InterfacesRemoved { object_path: String, removed: Vec<String> },
    /// The connection to the service broke.
    Failure(TransportError),
}

/// A `Signal` with its strings as text.
pub ghost enum SignalView {
    InterfacesAdded { object_path: Seq<char>, interfaces: InterfaceMap },
    InterfacesRemoved { object_path: Seq<char>, removed: Seq<Seq<char>> },
    Failure(TransportErrorView),
}

impl View for Signal {
    type V = SignalView;

    open spec fn view(&self) -> SignalView {
        match self {
            Signal::InterfacesAdded { object_path, interfaces } => SignalView::InterfacesAdded {
                object_path: object_path@,
                interfaces: interfaces@,
            },
            Signal::InterfacesRemoved { object_path, removed } => SignalView::InterfacesRemoved {
                object_path: object_path@,
                removed: removed.deep_view(),
            },
            Signal::Failure(e) => SignalView::Failure(e@),
        }
    }
}

/// Which kinds of event the listener passes on.
pub struct Listener {
    drive_added: bool,
    block_device_added: bool,
    object_removed: bool,
}

/// A `Listener` as the three subscriptions.
pub ghost struct ListenerView {
    pub drive_added: bool,
    pub block_device_added: bool,
    pub object_removed: bool,
}

impl ListenerView {
    /// The listener that passes on every kind of event.
    pub open spec fn all() -> ListenerView {
        ListenerView { drive_added: true, block_device_added: true, object_removed: true }
    }

    /// The events that `signal` stands for, in order, or the error that ends
    /// the listening.
    ///
    /// An object that appears gives an event for the drive that it is, if
    /// drives are subscribed to, then one for the block device that it is,
    /// if block devices are subscribed to. An object that goes away gives one
    /// event, if removals are subscribed to. A broken connection gives the
    /// error.
    pub open spec fn events(self, signal: SignalView) -> Result<Seq<EventView>, MounterErrorView> {
        match signal {
            SignalView::InterfacesAdded { object_path, interfaces } => {
                let drive = match drive_of(object_path, interfaces) {
                    Some(drive) if self.drive_added => seq![EventView::DriveAdded(drive)],
                    _ => Seq::empty(),
                };
                let device = match block_of(object_path, interfaces) {
                    Some(device) if self.block_device_added => seq![EventView::DeviceAdded(device)],
                    _ => Seq::empty(),
                };
                Ok(drive + device)
            },
            SignalView::InterfacesRemoved { object_path, removed } => Ok(
                if self.object_removed {
                    seq![EventView::ObjectRemoved(object_path)]
                } else {
                    Seq::empty()
                },
            ),
            SignalView::Failure(e) => Err(MounterErrorView::EventStreamFailure(e)),
        }
    }
}

impl View for Listener {
    type V = ListenerView;

    closed spec fn view(&self) -> ListenerView {
        ListenerView {
            drive_added: self.drive_added,
            block_device_added: self.block_device_added,
            object_removed: self.object_removed,
        }
    }
}

impl Listener {
    /// A listener that passes on nothing yet.
    pub fn new() -> (listener: Self)
        ensures
            listener@ == (ListenerView {
                drive_added: false,
                block_device_added: false,
                object_removed: false,
            }),
    {
        Listener { drive_added: false, block_device_added: false, object_removed: false }
    }

    /// Subscribes to drives that appear.
    pub fn drive_added(&mut self)
        ensures
            final(self)@ == (ListenerView { drive_added: true, ..old(self)@ }),
    {
        self.drive_added = true;
    }

    /// Subscribes to block devices that appear.
    pub fn block_device_added(&mut self)
        ensures
            final(self)@ == (ListenerView { block_device_added: true, ..old(self)@ }),
    {
        self.block_device_added = true;
    }

    /// Subscribes to objects that go away.
    pub fn object_removed(&mut self)
        ensures
            final(self)@ == (ListenerView { object_removed: true, ..old(self)@ }),
    {
        self.object_removed = true;
    }

    /// Turns one signal into the events it stands for, or into the error
    /// that ends the listening.
    pub fn run(&self, signal: Signal) -> (result: Result<Vec<Event>, MounterError>)
        ensures
            match self@.events(signal@) {
                Ok(events) => result is Ok && result->Ok_0.deep_view() == events,
                Err(e) => result is Err && result->Err_0@ == e,
            },
    {
        let mut events: Vec<Event> = Vec::new();
        match signal {
            Signal::InterfacesAdded { object_path, interfaces } => {
                if self.drive_added {
                    match Drive::new(object_path.as_str(), &interfaces) {
                        Some(drive) => {
                            events.push(Event::DriveAdded(drive));
                        },
                        None => {},
                    }
                }
                if self.block_device_added {
                    match Block::new(object_path.as_str(), &interfaces) {
                        Some(device) => {
                            events.push(Event::DeviceAdded(device));
                        },
                        None => {},
                    }
                }
                Ok(events)
            },
            Signal::InterfacesRemoved { object_path, removed } => {
                if self.object_removed {
                    events.push(Event::ObjectRemoved(object_path));
                }
                Ok(events)
            },
            Signal::Failure(e) => Err(MounterError::EventStreamFailure(e)),
        }
    }
}

} // verus!
