//! One desktop notification.
use vstd::prelude::*;
use crate::err::TransportError;
use crate::text::clone_strings;

verus! {

/// A desktop notification: what is shown, and how.
#[derive(Debug, PartialEq, Eq)]
pub struct Notification {
    notification_id: Option<u32>,
    app_name: String,
    replaces_id: u32,
    app_icon: String,
    summary: String,
    body: String,
    actions: Vec<String>,
    expire_timeout: i32,
}

/// A `Notification` with its strings as text.
pub ghost struct NotificationView {
    /// The id under which the notification was delivered, once it was.
    pub notification_id: Option<u32>,
    pub app_name: Seq<char>,
    /// The id of the notification that this one takes the place of, or 0.
    pub replaces_id: u32,
    pub app_icon: Seq<char>,
    pub summary: Seq<char>,
    pub body: Seq<char>,
    pub actions: Seq<Seq<char>>,
    pub expire_timeout: i32,
}

impl NotificationView {
    /// The notification with `summary` and `body` and nothing else set.
    pub open spec fn plain(summary: Seq<char>, body: Seq<char>) -> NotificationView {
        NotificationView {
            notification_id: None,
            app_name: Seq::empty(),
            replaces_id: 0,
            app_icon: Seq::empty(),
            summary,
            body,
            actions: Seq::empty(),
            expire_timeout: 0,
        }
    }
}

impl View for Notification {
    type V = NotificationView;

    closed spec fn view(&self) -> NotificationView {
        NotificationView {
            notification_id: self.notification_id,
            app_name: self.app_name@,
            replaces_id: self.replaces_id,
            app_icon: self.app_icon@,
            summary: self.summary@,
            body: self.body@,
            actions: self.actions.deep_view(),
            expire_timeout: self.expire_timeout,
        }
    }
}

impl DeepView for Notification {
    type V = NotificationView;

    open spec fn deep_view(&self) -> NotificationView {
        self@
    }
}

impl Default for Notification {
    /// The empty notification.
    fn default() -> (notification: Self)
        ensures
            notification@ == NotificationView::plain(Seq::empty(), Seq::empty()),
    {
        let notification = Notification {
            notification_id: None,
            app_name: String::new(),
            replaces_id: 0,
            app_icon: String::new(),
            summary: String::new(),
            body: String::new(),
            actions: Vec::new(),
            expire_timeout: 0,
        };
        assert(notification.actions.deep_view() =~= Seq::<Seq<char>>::empty());
        notification
    }
}

impl Clone for Notification {
    fn clone(&self) -> (copy: Self)
        ensures
            copy@ == self@,
    {
        let actions = clone_strings(&self.actions);
        Notification {
            notification_id: self.notification_id,
            app_name: self.app_name.clone(),
            replaces_id: self.replaces_id,
            app_icon: self.app_icon.clone(),
            summary: self.summary.clone(),
            body: self.body.clone(),
            actions,
            expire_timeout: self.expire_timeout,
        }
    }
}

impl Notification {
    /// Sets the name of the application that sends the notification.
    pub fn set_app_name(&mut self, app_name: &str)
        ensures
            final(self)@ == (NotificationView { app_name: app_name@, ..old(self)@ }),
    {
        self.app_name = app_name.to_owned();
    }

    /// Sets the id of the notification that this one takes the place of.
    pub fn set_replaces_id(&mut self, replaces_id: u32)
        ensures
            final(self)@ == (NotificationView { replaces_id, ..old(self)@ }),
    {
        self.replaces_id = replaces_id;
    }

    /// Sets the icon that is shown with the notification.
    pub fn set_app_icon(&mut self, app_icon: &str)
        ensures
            final(self)@ == (NotificationView { app_icon: app_icon@, ..old(self)@ }),
    {
        self.app_icon = app_icon.to_owned();
    }

    /// Sets the headline.
    pub fn set_summary(&mut self, summary: &str)
        ensures
            final(self)@ == (NotificationView { summary: summary@, ..old(self)@ }),
    {
        self.summary = summary.to_owned();
    }

    /// Sets the text under the headline.
    pub fn set_body(&mut self, body: &str)
        ensures
            final(self)@ == (NotificationView { body: body@, ..old(self)@ }),
    {
        self.body = body.to_owned();
    }

    /// Sets after how many milliseconds the notification goes away.
    pub fn set_expire_timeout(&mut self, expire_timeout: i32)
        ensures
            final(self)@ == (NotificationView { expire_timeout, ..old(self)@ }),
    {
        self.expire_timeout = expire_timeout;
    }

    /// The id under which the notification was delivered, once it was.
    pub fn get_notification_id(&self) -> (id: Option<u32>)
        ensures
            id == self@.notification_id,
    {
        self.notification_id
    }

    /// The name of the application that sends the notification.
    pub fn get_app_name(&self) -> (app_name: &str)
        ensures
            app_name@ == self@.app_name,
    {
        self.app_name.as_str()
    }

    /// The id of the notification that this one takes the place of, or 0.
    pub fn get_replaces_id(&self) -> (id: u32)
        ensures
            id == self@.replaces_id,
    {
        self.replaces_id
    }

    /// The icon that is shown with the notification.
    pub fn get_app_icon(&self) -> (app_icon: &str)
        ensures
            app_icon@ == self@.app_icon,
    {
        self.app_icon.as_str()
    }

    /// The headline.
    pub fn get_summary(&self) -> (summary: &str)
        ensures
            summary@ == self@.summary,
    {
        self.summary.as_str()
    }

    /// The text under the headline.
    pub fn get_body(&self) -> (body: &str)
        ensures
            body@ == self@.body,
    {
        self.body.as_str()
    }

    /// The actions that the notification offers.
    pub fn get_actions(&self) -> (actions: &Vec<String>)
        ensures
            actions.deep_view() == self@.actions,
    {
        &self.actions
    }

    /// After how many milliseconds the notification goes away.
    pub fn get_expire_timeout(&self) -> (expire_timeout: i32)
        ensures
            expire_timeout == self@.expire_timeout,
    {
        self.expire_timeout
    }

    /// Completes the sending of the notification with the reply of the
    /// notification service. On success the notification takes the id that
    /// the service gave it; on failure it stays as it was and the failure is
    /// handed back.
    pub fn send(&mut self, reply: Result<u32, TransportError>) -> (result: Result<
        (),
        TransportError,
    >)
        ensures
            match reply {
                Ok(id) => result is Ok && final(self)@ == (NotificationView {
                    notification_id: Some(id),
                    ..old(self)@
                }),
                Err(e) => result == Err::<(), TransportError>(e) && final(self)@ == old(self)@,
            },
    {
        match reply {
            Ok(id) => {
                self.notification_id = Some(id);
                Ok(())
            },
            Err(e) => Err(e),
        }
    }
}

} // verus!
