//! A block device in its role as an encrypted volume that can be unlocked.
use vstd::prelude::*;
use crate::err::{outcome_view, MounterError, MounterErrorView, TransportError};
use crate::text::clone_bytes;
use crate::udisks2::devices::block::Block;

verus! {

/// A block device that is an encrypted volume.
pub struct Encrypted {
    pub device: Block,
}

/// The secret that unlocks a volume.
#[derive(Debug, PartialEq, Eq)]
pub enum Credential {
    Passphrase(String),
    KeyfileContents(Vec<u8>),
}

/// A `Credential` as text or bytes.
pub ghost enum CredentialView {
    Passphrase(Seq<char>),
    KeyfileContents(Seq<u8>),
}

impl View for Credential {
    type V = CredentialView;

    open spec fn view(&self) -> CredentialView {
        match self {
            Credential::Passphrase(text) => CredentialView::Passphrase(text@),
            Credential::KeyfileContents(bytes) => CredentialView::KeyfileContents(bytes@),
        }
    }
}

impl DeepView for Credential {
    type V = CredentialView;

    open spec fn deep_view(&self) -> CredentialView {
        self@
    }
}

impl Clone for Credential {
    fn clone(&self) -> (copy: Self)
        ensures
            copy@ == self@,
    {
        match self {
            Credential::Passphrase(text) => Credential::Passphrase(text.clone()),
            Credential::KeyfileContents(bytes) => Credential::KeyfileContents(clone_bytes(bytes)),
        }
    }
}

/// What to do next in order to have a volume unlocked.
#[derive(Debug, PartialEq, Eq)]
pub enum UnlockStep {
    /// Read the keyfile at this path.
    ReadKeyfile(String),
    /// Ask the service to unlock the object with the credential.
    Call { object_path: String, credential: Credential },
    /// Give up.
    Failed(MounterError),
}

/// An `UnlockStep` with its strings as text.
pub ghost enum UnlockStepView {
    ReadKeyfile(Seq<char>),
    Call { object_path: Seq<char>, credential: CredentialView },
    Failed(MounterErrorView),
}

impl View for UnlockStep {
    type V = UnlockStepView;

    open spec fn view(&self) -> UnlockStepView {
        match self {
            UnlockStep::ReadKeyfile(path) => UnlockStepView::ReadKeyfile(path@),
            UnlockStep::Call { object_path, credential } => UnlockStepView::Call {
                object_path: object_path@,
                credential: credential@,
            },
            UnlockStep::Failed(e) => UnlockStepView::Failed(e@),
        }
    }
}

impl DeepView for UnlockStep {
    type V = UnlockStepView;

    open spec fn deep_view(&self) -> UnlockStepView {
        self@
    }
}

/// The first step that unlocks the object at `object_path`. A keyfile goes
/// before a password: with a keyfile configured the password is not looked
/// at. With neither there is no key.
pub open spec fn unlock_step(
    object_path: Seq<char>,
    keyfile: Option<Seq<char>>,
    password: Option<Seq<char>>,
) -> UnlockStepView {
    match keyfile {
        Some(path) => UnlockStepView::ReadKeyfile(path),
        None => match password {
            Some(text) => UnlockStepView::Call {
                object_path,
                credential: CredentialView::Passphrase(text),
            },
            None => UnlockStepView::Failed(MounterErrorView::NoKeyProvided),
        },
    }
}

/// What was read from a keyfile: its bytes, or why it could not be read.
pub open spec fn keyfile_contents(contents: Result<Vec<u8>, String>) -> Result<Seq<u8>, Seq<char>> {
    match contents {
        Ok(bytes) => Ok(bytes@),
        Err(reason) => Err(reason@),
    }
}

/// The step after the keyfile was read: unlock with its contents, or give up
/// if it could not be read. There is no way from here to a password.
pub open spec fn keyfile_step(
    object_path: Seq<char>,
    contents: Result<Seq<u8>, Seq<char>>,
) -> UnlockStepView {
    match contents {
        Ok(bytes) => UnlockStepView::Call {
            object_path,
            credential: CredentialView::KeyfileContents(bytes),
        },
        Err(reason) => UnlockStepView::Failed(MounterErrorView::UnreadableKeyFile(reason)),
    }
}

/// What an unlock request came to: the object path of the unlocked device,
/// or the refusal.
pub open spec fn unlock_result(reply: Result<String, TransportError>) -> Result<
    Seq<char>,
    MounterErrorView,
> {
    match reply {
        Ok(path) => Ok(path@),
        Err(e) => Err(MounterErrorView::UnlockFailed(e@)),
    }
}

impl Encrypted {
    /// Whether the volume is unlocked already.
    pub fn is_unlocked(&self) -> (unlocked: bool)
        ensures
            unlocked == self.device@.is_unlocked(),
    {
        match &self.device.enc_info {
            Some(info) => info.cleartext_device.is_some(),
            None => false,
        }
    }

    /// The first step that unlocks the volume, with the keyfile and the
    /// password that are at hand. The caller performs the step: it hands
    /// what it read from a keyfile to `with_keyfile`, and the reply to an
    /// unlock request to `finish_unlock`.
    pub fn unlock(&self, keyfile: &Option<String>, password: &Option<String>) -> (step: UnlockStep)
        ensures
            step@ == unlock_step(
                self.device@.object_path,
                keyfile.deep_view(),
                password.deep_view(),
            ),
    {
        Self::first_step(self.device.object_path.as_str(), keyfile, password)
    }

    /// The first step that unlocks the object at `object_path`.
    pub fn first_step(
        object_path: &str,
        keyfile: &Option<String>,
        password: &Option<String>,
    ) -> (step: UnlockStep)
        ensures
            step@ == unlock_step(object_path@, keyfile.deep_view(), password.deep_view()),
    {
        match keyfile {
            Some(path) => UnlockStep::ReadKeyfile(path.clone()),
            None => match password {
                Some(text) => UnlockStep::Call {
                    object_path: object_path.to_owned(),
                    credential: Credential::Passphrase(text.clone()),
                },
                None => UnlockStep::Failed(MounterError::NoKeyProvided),
            },
        }
    }

    /// The step that follows the reading of the keyfile for the object at
    /// `object_path`.
    pub fn with_keyfile(object_path: &str, contents: Result<Vec<u8>, String>) -> (step: UnlockStep)
        ensures
            step@ == keyfile_step(object_path@, keyfile_contents(contents)),
    {
        match contents {
            Ok(bytes) => UnlockStep::Call {
                object_path: object_path.to_owned(),
                credential: Credential::KeyfileContents(bytes),
            },
            Err(reason) => UnlockStep::Failed(MounterError::UnreadableKeyFile(reason)),
        }
    }

    /// Turns the reply to an unlock request into the object path of the
    /// unlocked device or the error.
    pub fn finish_unlock(reply: Result<String, TransportError>) -> (result: Result<
        String,
        MounterError,
    >)
        ensures
            outcome_view(result) == unlock_result(reply),
    {
        match reply {
            Ok(path) => Ok(path),
            Err(e) => Err(MounterError::UnlockFailed(e)),
        }
    }
}

} // verus!
