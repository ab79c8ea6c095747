//! The device model of the disk service: raw property bags as the service
//! publishes them, the typed drives and block devices read from them, and
//! the listener that turns the service's signals into events.
use vstd::prelude::*;

pub mod devices;
pub mod listener;
pub mod raw;

pub use listener::{Listener, ListenerView, Signal, SignalView};

verus! {

/// A capability of a block device beyond plain block access.
#[derive(Clone, Copy, Debug, PartialEq, Eq, Structural)]
pub enum Interface {
    /// The device holds a filesystem that can be mounted.
    Filesystem,
    /// The device is an encrypted volume that can be unlocked.
    Encrypted,
}

} // verus!
