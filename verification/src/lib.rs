//! Automatic mounting and unlocking of removable storage: the device model,
//! the tracker of the devices that are present, the policy that decides what
//! is mounted or unlocked, and the notices sent to the user.
//!
//! The library decides and never acts: it takes events and answers with the
//! actions that the caller is to perform.
use vstd::prelude::*;

pub mod action;
pub mod config;
pub mod err;
pub mod guarantees;
pub mod manager;
pub mod notices;
pub mod notification;
pub mod notifications;
pub mod policy;
pub mod text;
pub mod tracker;
pub mod udisks2;

pub use action::{Action, Event, MountRequest};
pub use config::{Config, FsSettings, Settings};
pub use err::{MounterError, TransportError};
pub use manager::Manager;
pub use notices::Notice;
pub use udisks2::{Interface, Listener, Signal};

use action::ActionView;
use err::MounterErrorView;
use manager::ManagerView;
use udisks2::{ListenerView, SignalView};

verus! {

/// The manager after one signal of the disk service and what the signal asks
/// of the caller, or the error that ends the daemon.
///
/// The signal is read as a listener that is subscribed to everything reads
/// it, and the events go to the manager in order. A broken connection
/// changes nothing and gives the error.
pub open spec fn turn(manager: ManagerView, signal: SignalView) -> Result<
    (ManagerView, Seq<ActionView>),
    MounterErrorView,
> {
    match ListenerView::all().events(signal) {
        Ok(events) => Ok(manager.run(events)),
        Err(e) => Err(e),
    }
}

/// Runs one turn of the daemon: takes one signal of the disk service, lets
/// the manager handle what it stands for, and answers with the actions to
/// perform, in order. The daemon goes on for as long as the result is `Ok`.
pub fn run(manager: &mut Manager, signal: Signal) -> (result: Result<Vec<Action>, MounterError>)
    ensures
        match turn(old(manager)@, signal@) {
            Ok(after) => result is Ok && final(manager)@ == after.0
                && result->Ok_0.deep_view() == after.1,
            Err(e) => result is Err && result->Err_0@ == e && final(manager)@ == old(manager)@,
        },
{
    let mut udisks2_listener = Listener::new();
    udisks2_listener.drive_added();
    udisks2_listener.block_device_added();
    udisks2_listener.object_removed();
    match udisks2_listener.run(signal) {
        Ok(events) => Ok(manager.handle_all(events)),
        Err(e) => Err(e),
    }
}

} // verus!
