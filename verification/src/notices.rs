//! The notices that tell the user what happened to a device.
use vstd::prelude::*;
use crate::notifications::notification::{Notification, NotificationView};
use crate::notifications::Notifiable;
use crate::text::join;

verus! {

/// Something that happened to a device. Each notice holds one string: a
/// device node, a mount path, an object path or the wording of an error.
#[derive(Debug, PartialEq, Eq)]
pub enum Notice {
    /// A filesystem appeared; holds its device node.
    NewFilesystem(String),
    /// An encrypted volume appeared; holds its device node.
    NewEncrypted(String),
    /// A filesystem was mounted; holds the mount path.
    MountSuccess(String),
    /// A filesystem could not be mounted; holds its device node.
    MountFail(String),
    /// A filesystem went away; holds its device node.
    UnmountSuccess(String),
    /// A volume was unlocked; holds the object path of the unlocked device.
    DecryptSuccess(String),
    /// A volume could not be unlocked; holds the wording of the error.
    DecryptFail(String),
}

/// A `Notice` with its string as text.
pub ghost enum NoticeView {
    NewFilesystem(Seq<char>),
    NewEncrypted(Seq<char>),
    MountSuccess(Seq<char>),
    MountFail(Seq<char>),
    UnmountSuccess(Seq<char>),
    DecryptSuccess(Seq<char>),
    DecryptFail(Seq<char>),
}

impl View for Notice {
    type V = NoticeView;

    open spec fn view(&self) -> NoticeView {
        match self {
            Notice::NewFilesystem(msg) => NoticeView::NewFilesystem(msg@),
            Notice::NewEncrypted(msg) => NoticeView::NewEncrypted(msg@),
            Notice::MountSuccess(msg) => NoticeView::MountSuccess(msg@),
            Notice::MountFail(msg) => NoticeView::MountFail(msg@),
            Notice::UnmountSuccess(msg) => NoticeView::UnmountSuccess(msg@),
            Notice::DecryptSuccess(msg) => NoticeView::DecryptSuccess(msg@),
            Notice::DecryptFail(msg) => NoticeView::DecryptFail(msg@),
        }
    }
}

impl DeepView for Notice {
    type V = NoticeView;

    open spec fn deep_view(&self) -> NoticeView {
        self@
    }
}

impl NoticeView {
    /// The headline under which the notice is shown.
    pub open spec fn summary(self) -> Seq<char> {
        match self {
            NoticeView::NewFilesystem(_) => "New filesystem found"@,
            NoticeView::NewEncrypted(_) => "New encrypted device found"@,
            NoticeView::MountSuccess(_) => "Filesystem mounted"@,
            NoticeView::MountFail(_) => "Failed to mount"@,
            NoticeView::UnmountSuccess(_) => "Filesystem unmounted"@,
            NoticeView::DecryptSuccess(_) => "Device decrypted"@,
            NoticeView::DecryptFail(_) => "Failed to decrypt"@,
        }
    }

    /// The text under the headline.
    pub open spec fn body(self) -> Seq<char> {
        match self {
            NoticeView::NewFilesystem(msg) => msg,
            NoticeView::NewEncrypted(msg) => msg,
            NoticeView::MountSuccess(msg) => msg,
            NoticeView::MountFail(msg) => msg,
            NoticeView::UnmountSuccess(msg) => msg,
            NoticeView::DecryptSuccess(msg) => "Cleartext device: "@ + msg,
            NoticeView::DecryptFail(msg) => msg,
        }
    }
}

impl Clone for Notice {
    fn clone(&self) -> (copy: Self)
        ensures
            copy@ == self@,
    {
        match self {
            Notice::NewFilesystem(msg) => Notice::NewFilesystem(msg.clone()),
            Notice::NewEncrypted(msg) => Notice::NewEncrypted(msg.clone()),
            Notice::MountSuccess(msg) => Notice::MountSuccess(msg.clone()),
            Notice::MountFail(msg) => Notice::MountFail(msg.clone()),
            Notice::UnmountSuccess(msg) => Notice::UnmountSuccess(msg.clone()),
            Notice::DecryptSuccess(msg) => Notice::DecryptSuccess(msg.clone()),
            Notice::DecryptFail(msg) => Notice::DecryptFail(msg.clone()),
        }
    }
}

impl Notifiable for Notice {
    open spec fn rendered(&self) -> NotificationView {
        NotificationView::plain(self@.summary(), self@.body())
    }

    /// The notification that shows the notice: its headline and text, and
    /// nothing else set.
    fn as_notification(self) -> (notification: Notification) {
        let mut notification = Notification::default();
        match self {
            Notice::NewFilesystem(msg) => {
                notification.set_summary("New filesystem found");
                notification.set_body(msg.as_str());
            },
            Notice::NewEncrypted(msg) => {
                notification.set_summary("New encrypted device found");
                notification.set_body(msg.as_str());
            },
            Notice::MountSuccess(msg) => {
                notification.set_summary("Filesystem mounted");
                notification.set_body(msg.as_str());
            },
            Notice::MountFail(msg) => {
                notification.set_summary("Failed to mount");
                notification.set_body(msg.as_str());
            },
            Notice::UnmountSuccess(msg) => {
                notification.set_summary("Filesystem unmounted");
                notification.set_body(msg.as_str());
            },
            Notice::DecryptSuccess(msg) => {
                notification.set_summary("Device decrypted");
                let body = join("Cleartext device: ", msg.as_str());
                notification.set_body(body.as_str());
            },
            Notice::DecryptFail(msg) => {
                notification.set_summary("Failed to decrypt");
                notification.set_body(msg.as_str());
            },
        };
        notification
    }
}

} // verus!
