//! The policy for one volume: the settings that hold for all volumes, and
//! over them the settings of the volume itself.
use vstd::prelude::*;
use crate::config::{Config, ConfigView};
use crate::text::clone_opt_string;

verus! {

/// Where the key that unlocks a volume comes from.
#[derive(Debug, PartialEq, Eq)]
pub enum CredentialSource {
    /// From the file at this path.
    Keyfile(String),
    /// It is this password.
    Password(String),
    /// The user is asked for it.
    Interactive,
}

/// A `CredentialSource` with its strings as text.
pub ghost enum CredentialSourceView {
    Keyfile(Seq<char>),
    Password(Seq<char>),
    Interactive,
}

impl View for CredentialSource {
    type V = CredentialSourceView;

    open spec fn view(&self) -> CredentialSourceView {
        match self {
            CredentialSource::Keyfile(path) => CredentialSourceView::Keyfile(path@),
            CredentialSource::Password(text) => CredentialSourceView::Password(text@),
            CredentialSource::Interactive => CredentialSourceView::Interactive,
        }
    }
}

impl DeepView for CredentialSource {
    type V = CredentialSourceView;

    open spec fn deep_view(&self) -> CredentialSourceView {
        self@
    }
}

/// What is to be done with one volume.
#[derive(Debug, PartialEq, Eq)]
pub struct EffectivePolicy {
    /// Whether its filesystem is mounted as soon as it appears.
    pub should_automount: bool,
    /// Where the key comes from if it is encrypted.
    pub credential: CredentialSource,
    /// A script to run once it is mounted.
    pub hook: Option<String>,
}

/// An `EffectivePolicy` with its strings as text.
pub ghost struct EffectivePolicyView {
    pub should_automount: bool,
    pub credential: CredentialSourceView,
    pub hook: Option<Seq<char>>,
}

impl View for EffectivePolicy {
    type V = EffectivePolicyView;

    open spec fn view(&self) -> EffectivePolicyView {
        EffectivePolicyView {
            should_automount: self.should_automount,
            credential: self.credential@,
            hook: self.hook.deep_view(),
        }
    }
}

impl DeepView for EffectivePolicy {
    type V = EffectivePolicyView;

    open spec fn deep_view(&self) -> EffectivePolicyView {
        self@
    }
}

/// The policy for the volume `uuid` under `config`.
///
/// A volume with settings of its own is mounted as they say, or as the
/// default says where they are silent; its key comes from the keyfile if one
/// is set, else from the password if one is set, else from the user; its
/// hook is the script they name. A volume without settings of its own, or
/// without a UUID, follows the default, has no hook, and its key comes from
/// the user.
pub open spec fn resolve_policy(uuid: Option<Seq<char>>, config: ConfigView) -> EffectivePolicyView {
    let own = match uuid {
        Some(uuid) => config.override_for(uuid),
        None => None,
    };
    match own {
        Some(settings) => EffectivePolicyView {
            should_automount: match settings.automount {
                Some(automount) => automount,
                None => config.automount,
            },
            credential: match settings.keyfile {
                Some(path) => CredentialSourceView::Keyfile(path),
                None => match settings.password {
                    Some(text) => CredentialSourceView::Password(text),
                    None => CredentialSourceView::Interactive,
                },
            },
            hook: settings.run,
        },
        None => EffectivePolicyView {
            should_automount: config.automount,
            credential: CredentialSourceView::Interactive,
            hook: None,
        },
    }
}

/// Works out the policy for the volume `uuid` under `config`.
pub fn resolve(uuid: &Option<String>, config: &Config) -> (policy: EffectivePolicy)
    ensures
        policy@ == resolve_policy(uuid.deep_view(), config@),
{
    let own = match uuid {
        Some(uuid) => config.get_uuid_settings(uuid.as_str()),
        None => None,
    };
    match own {
        Some(settings) => EffectivePolicy {
            should_automount: match settings.automount {
                Some(automount) => automount,
                None => config.settings.automount,
            },
            credential: match &settings.keyfile {
                Some(path) => CredentialSource::Keyfile(path.clone()),
                None => match &settings.password {
                    Some(text) => CredentialSource::Password(text.clone()),
                    None => CredentialSource::Interactive,
                },
            },
            hook: clone_opt_string(&settings.run),
        },
        None => EffectivePolicy {
            should_automount: config.settings.automount,
            credential: CredentialSource::Interactive,
            hook: None,
        },
    }
}

} // verus!
