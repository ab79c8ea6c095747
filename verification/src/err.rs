//! What can go wrong while a device is handled, and how it is worded.
use vstd::prelude::*;
use crate::notifications::{NotifierError, NotifierErrorView};
use crate::text::{clone_opt_string, join};

verus! {

/// A failure reported by the message bus: the name of the error and the
/// message that came with it, either of which may be missing.
#[derive(Debug, PartialEq, Eq)]
pub struct TransportError {
    pub name: Option<String>,
    pub message: Option<String>,
}

/// The name and message of a `TransportError` as text.
pub ghost struct TransportErrorView {
    pub name: Option<Seq<char>>,
    pub message: Option<Seq<char>>,
}

impl View for TransportError {
    type V = TransportErrorView;

    open spec fn view(&self) -> TransportErrorView {
        TransportErrorView { name: self.name.deep_view(), message: self.message.deep_view() }
    }
}

impl DeepView for TransportError {
    type V = TransportErrorView;

    open spec fn deep_view(&self) -> TransportErrorView {
        self@
    }
}

impl TransportErrorView {
    /// The message, or a fixed wording where the bus gave none.
    pub open spec fn detail(self) -> Seq<char> {
        match self.message {
            Some(message) => message,
            None => "D-Bus error"@,
        }
    }

    /// The message, or nothing where the bus gave none.
    pub open spec fn display(self) -> Seq<char> {
        match self.message {
            Some(message) => message,
            None => Seq::empty(),
        }
    }
}

impl Clone for TransportError {
    fn clone(&self) -> (copy: Self)
        ensures
            copy@ == self@,
    {
        TransportError {
            name: clone_opt_string(&self.name),
            message: clone_opt_string(&self.message),
        }
    }
}

impl TransportError {
    /// The message, or `D-Bus error` where the bus gave none.
    pub fn detail(&self) -> (text: String)
        ensures
            text@ == self@.detail(),
    {
        match &self.message {
            Some(message) => message.clone(),
            None => "D-Bus error".to_owned(),
        }
    }

    /// The message, or the empty string where the bus gave none.
    pub fn display(&self) -> (text: String)
        ensures
            text@ == self@.display(),
    {
        match &self.message {
            Some(message) => message.clone(),
            None => String::new(),
        }
    }
}

/// A failure while handling one device, or of the event stream as a whole.
#[derive(Debug, PartialEq, Eq)]
pub enum MounterError {
    /// An encrypted device needs a key and none could be found.
    NoKeyProvided,
    /// The service refused to unlock the device.
    UnlockFailed(TransportError),
    /// The configured keyfile could not be read; holds the reason.
    UnreadableKeyFile(String),
    /// A notice could not be delivered.
    NotifierError(NotifierError),
    /// A mount request failed on the bus.
    TransportFailure(TransportError),
    /// The subscription to the service's signals broke.
    EventStreamFailure(TransportError),
}

/// A `MounterError` with its details as text.
pub ghost enum MounterErrorView {
    NoKeyProvided,
    UnlockFailed(TransportErrorView),
    UnreadableKeyFile(Seq<char>),
    NotifierError(NotifierErrorView),
    TransportFailure(TransportErrorView),
    EventStreamFailure(TransportErrorView),
}

impl View for MounterError {
    type V = MounterErrorView;

    open spec fn view(&self) -> MounterErrorView {
        match self {
            MounterError::NoKeyProvided => MounterErrorView::NoKeyProvided,
            MounterError::UnlockFailed(e) => MounterErrorView::UnlockFailed(e@),
            MounterError::UnreadableKeyFile(reason) => MounterErrorView::UnreadableKeyFile(reason@),
            MounterError::NotifierError(e) => MounterErrorView::NotifierError(e@),
            MounterError::TransportFailure(e) => MounterErrorView::TransportFailure(e@),
            MounterError::EventStreamFailure(e) => MounterErrorView::EventStreamFailure(e@),
        }
    }
}

impl DeepView for MounterError {
    type V = MounterErrorView;

    open spec fn deep_view(&self) -> MounterErrorView {
        self@
    }
}

impl MounterErrorView {
    /// The wording of the error.
    pub open spec fn message(self) -> Seq<char> {
        match self {
            MounterErrorView::NoKeyProvided => "No key or password provided"@,
            MounterErrorView::UnlockFailed(e) => "Unlock Failed: "@ + e.detail(),
            MounterErrorView::UnreadableKeyFile(reason) => "Couldn't read provided keyfile: "@
                + reason,
            MounterErrorView::NotifierError(e) => e.message(),
            MounterErrorView::TransportFailure(e) => "Transport failure: "@ + e.detail(),
            MounterErrorView::EventStreamFailure(e) => "Event stream failure: "@ + e.detail(),
        }
    }

    /// The failure of the bus that lies under the error, if one does.
    pub open spec fn source(self) -> Option<TransportErrorView> {
        match self {
            MounterErrorView::NoKeyProvided => None,
            MounterErrorView::UnlockFailed(e) => Some(e),
            MounterErrorView::UnreadableKeyFile(_) => None,
            MounterErrorView::NotifierError(e) => Some(e.cause),
            MounterErrorView::TransportFailure(e) => Some(e),
            MounterErrorView::EventStreamFailure(e) => Some(e),
        }
    }

    /// Whether the error ends the daemon. Only a broken event stream does;
    /// every other error concerns one device and is reported as a notice.
    pub open spec fn is_fatal(self) -> bool {
        self is EventStreamFailure
    }
}

/// A result of the library as text: the value, or the error with its details.
pub open spec fn outcome_view(outcome: Result<String, MounterError>) -> Result<
    Seq<char>,
    MounterErrorView,
> {
    match outcome {
        Ok(value) => Ok(value@),
        Err(e) => Err(e@),
    }
}

impl MounterError {
    /// The wording of the error, as shown to the user.
    pub fn message(&self) -> (text: String)
        ensures
            text@ == self@.message(),
    {
        match self {
            MounterError::NoKeyProvided => "No key or password provided".to_owned(),
            MounterError::UnlockFailed(e) => {
                let detail = e.detail();
                join("Unlock Failed: ", detail.as_str())
            },
            MounterError::UnreadableKeyFile(reason) => join(
                "Couldn't read provided keyfile: ",
                reason.as_str(),
            ),
            MounterError::NotifierError(e) => e.message(),
            MounterError::TransportFailure(e) => {
                let detail = e.detail();
                join("Transport failure: ", detail.as_str())
            },
            MounterError::EventStreamFailure(e) => {
                let detail = e.detail();
                join("Event stream failure: ", detail.as_str())
            },
        }
    }

    /// The failure of the bus that lies under the error, if one does.
    pub fn source(&self) -> (cause: Option<&TransportError>)
        ensures
            cause.deep_view() == self@.source(),
    {
        match self {
            MounterError::NoKeyProvided => None,
            MounterError::UnlockFailed(e) => Some(e),
            MounterError::UnreadableKeyFile(_) => None,
            MounterError::NotifierError(e) => e.source(),
            MounterError::TransportFailure(e) => Some(e),
            MounterError::EventStreamFailure(e) => Some(e),
        }
    }

    /// Whether the error ends the daemon rather than the handling of one
    /// device.
    pub fn is_fatal(&self) -> (fatal: bool)
        ensures
            fatal == self@.is_fatal(),
    {
        match self {
            MounterError::EventStreamFailure(_) => true,
            _ => false,
        }
    }
}

impl From<NotifierError> for MounterError {
    fn from(err: NotifierError) -> (error: MounterError) {
        MounterError::NotifierError(err)
    }
}

impl vstd::std_specs::convert::FromSpecImpl<NotifierError> for MounterError {
    open spec fn obeys_from_spec() -> bool {
        true
    }

    open spec fn from_spec(err: NotifierError) -> MounterError {
        MounterError::NotifierError(err)
    }
}

} // verus!
