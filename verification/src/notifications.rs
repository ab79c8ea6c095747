//! Desktop notifications: what one holds, and the record of those delivered.
use vstd::prelude::*;
use crate::err::{TransportError, TransportErrorView};
use crate::text::join;

pub mod notification;

pub use notification::{Notification, NotificationView};

verus! {

/// Something that can be shown as a desktop notification.
pub trait Notifiable: Sized {
    /// What the value looks like as a notification.
    spec fn rendered(&self) -> NotificationView;

    /// Turns the value into the notification that shows it.
    fn as_notification(self) -> (notification: Notification)
        ensures
            notification@ == self.rendered(),
    ;
}

/// A notification could not be delivered; holds what the bus reported.
#[derive(Debug, PartialEq, Eq)]
pub struct NotifierError(pub TransportError);

/// A `NotifierError` with its details as text.
pub ghost struct NotifierErrorView {
    pub cause: TransportErrorView,
}

impl NotifierErrorView {
    /// The wording of the error.
    pub open spec fn message(self) -> Seq<char> {
        "Notifier error: "@ + self.cause.display()
    }
}

impl View for NotifierError {
    type V = NotifierErrorView;

    open spec fn view(&self) -> NotifierErrorView {
        NotifierErrorView { cause: self.0@ }
    }
}

impl DeepView for NotifierError {
    type V = NotifierErrorView;

    open spec fn deep_view(&self) -> NotifierErrorView {
        self@
    }
}

impl NotifierError {
    /// The wording of the error, as shown to the user.
    pub fn message(&self) -> (text: String)
        ensures
            text@ == self@.message(),
    {
        let cause = self.0.display();
        join("Notifier error: ", cause.as_str())
    }
}

impl NotifierError {
    /// The failure of the bus that lies under the error.
    pub fn source(&self) -> (cause: Option<&TransportError>)
        ensures
            cause.deep_view() == Some(self@.cause),
    {
        Some(&self.0)
    }
}

impl From<TransportError> for NotifierError {
    fn from(err: TransportError) -> (error: NotifierError) {
        NotifierError(err)
    }
}

impl vstd::std_specs::convert::FromSpecImpl<TransportError> for NotifierError {
    open spec fn obeys_from_spec() -> bool {
        true
    }

    open spec fn from_spec(err: TransportError) -> NotifierError {
        NotifierError(err)
    }
}

/// The record of the notifications that were delivered, oldest first.
pub struct Notifier {
    history: Vec<Notification>,
}

impl View for Notifier {
    type V = Seq<NotificationView>;

    closed spec fn view(&self) -> Seq<NotificationView> {
        self.history.deep_view()
    }
}

/// The id under which the last notification of `history` was delivered, if
/// there is a last one and it has an id.
pub open spec fn last_id(history: Seq<NotificationView>) -> Option<u32> {
    if history.len() > 0 {
        history.last().notification_id
    } else {
        None
    }
}

/// The notification that takes the place of the last one of `history`: what
/// `rendered` shows, marked as replacing that one. `None` where there is no
/// last notification with an id.
pub open spec fn replacement(
    history: Seq<NotificationView>,
    rendered: NotificationView,
) -> Option<NotificationView> {
    match last_id(history) {
        Some(id) => Some(NotificationView { replaces_id: id, ..rendered }),
        None => None,
    }
}

impl Notifier {
    /// Starts a record with the notification that shows `notifiable`, once
    /// it was sent and `reply` came back: the id that the notification
    /// service gave it, or the failure. On failure there is no record.
    pub fn notify<N: Notifiable>(notifiable: N, reply: Result<u32, TransportError>) -> (result:
        Result<Notifier, NotifierError>)
        ensures
            match reply {
                Ok(id) => result is Ok && result->Ok_0@ == seq![
                    NotificationView { notification_id: Some(id), ..notifiable.rendered() },
                ],
                Err(e) => result is Err && result->Err_0@.cause == e@,
            },
    {
        let mut notification = notifiable.as_notification();
        match notification.send(reply) {
            Ok(()) => {
                let mut history: Vec<Notification> = Vec::new();
                history.push(notification);
                let notifier = Notifier { history };
                Ok(notifier)
            },
            Err(e) => Err(NotifierError(e)),
        }
    }

    /// The last notification of the record, if there is one.
    pub fn last(&self) -> (notification: Option<&Notification>)
        ensures
            notification.deep_view() == if self@.len() > 0 {
                Some(self@.last())
            } else {
                None
            },
    {
        let n = self.history.len();
        if n > 0 {
            Some(&self.history[n - 1])
        } else {
            None
        }
    }

    /// The notification to send in order to replace the last one with what
    /// shows `replacement`. `None` where there is nothing to replace.
    pub fn replacement_for_last<N: Notifiable>(&self, replacement: N) -> (notification: Option<
        Notification,
    >)
        ensures
            notification.deep_view() == self::replacement(self@, replacement.rendered()),
    {
        let last = match self.last() {
            Some(last_notification) => last_notification.get_notification_id(),
            None => None,
        };
        match last {
            Some(last_notification_id) => {
                let mut notification = replacement.as_notification();
                notification.set_replaces_id(last_notification_id);
                Some(notification)
            },
            None => None,
        }
    }

    /// Records that the last notification was replaced with what shows
    /// `replacement`, once that was sent and `reply` came back. Where there
    /// was nothing to replace, nothing was sent: the record stays as it is
    /// and `reply` is not looked at. On failure the record stays as it is
    /// too.
    pub fn replace_last<N: Notifiable>(
        &mut self,
        replacement: N,
        reply: Result<u32, TransportError>,
    ) -> (result: Result<(), NotifierError>)
        ensures
            match (self::replacement(old(self)@, replacement.rendered()), reply) {
                (Some(sent), Ok(id)) => result is Ok && final(self)@ == old(self)@.push(
                    NotificationView { notification_id: Some(id), ..sent },
                ),
                (Some(_), Err(e)) => result is Err && result->Err_0@.cause == e@ && final(self)@
                    == old(self)@,
                (None, _) => result is Ok && final(self)@ == old(self)@,
            },
    {
        match self.replacement_for_last(replacement) {
            Some(sent) => {
                let mut sent = sent;
                match sent.send(reply) {
                    Ok(()) => {
                        self.history.push(sent);
                        Ok(())
                    },
                    Err(e) => Err(NotifierError(e)),
                }
            },
            None => Ok(()),
        }
    }
}

} // verus!
