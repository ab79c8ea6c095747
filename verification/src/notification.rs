//! Ready-made notifications for the common events, for callers that show
//! them without going through a `Notice`.
use vstd::prelude::*;
use crate::notifications::notification::{Notification, NotificationView};
use crate::text::join;

verus! {

/// A notification with `summary` and `body` and nothing else set.
fn plain(summary: &str, body: &str) -> (notification: Notification)
    ensures
        notification@ == NotificationView::plain(summary@, body@),
{
    let mut notification = Notification::default();
    notification.set_summary(summary);
    notification.set_body(body);
    notification
}

/// Tells of a new filesystem; `body` says which.
pub fn new_filesystem(body: &str) -> (notification: Notification)
    ensures
        notification@ == NotificationView::plain("New filesystem found"@, body@),
{
    plain("New filesystem found", body)
}

/// Tells of a new encrypted device; `body` says which.
pub fn new_encrypted(body: &str) -> (notification: Notification)
    ensures
        notification@ == NotificationView::plain("New encrypted device found"@, body@),
{
    plain("New encrypted device found", body)
}

/// Tells that a filesystem was mounted; `object_path` says which.
pub fn mounted(object_path: &str) -> (notification: Notification)
    ensures
        notification@ == NotificationView::plain("Filesystem mounted"@, object_path@),
{
    plain("Filesystem mounted", object_path)
}

/// Tells that a filesystem was unmounted; `object_path` says which.
pub fn unmounted(object_path: &str) -> (notification: Notification)
    ensures
        notification@ == NotificationView::plain("Filesystem unmounted"@, object_path@),
{
    plain("Filesystem unmounted", object_path)
}

/// Tells that a device was unlocked; `object_path` is that of the unlocked
/// device.
pub fn decrypted(object_path: &str) -> (notification: Notification)
    ensures
        notification@ == NotificationView::plain(
            "Device decrypted"@,
            "Cleartext device: "@ + object_path@,
        ),
{
    let body = join("Cleartext device: ", object_path);
    plain("Device decrypted", body.as_str())
}

/// Tells that `device` could not be mounted.
pub fn mount_failed(device: &str) -> (notification: Notification)
    ensures
        notification@ == NotificationView::plain("Mount failed"@, "Could not mount "@ + device@),
{
    let body = join("Could not mount ", device);
    plain("Mount failed", body.as_str())
}

/// Tells that something went wrong with an encrypted device; `device` says
/// what.
pub fn decryption_failed(device: &str) -> (notification: Notification)
    ensures
        notification@ == NotificationView::plain("Encrypted device error"@, device@),
{
    plain("Encrypted device error", device)
}

} // verus!
