//! Configuration records of the identity providers.

use vstd::prelude::*;

verus! {

/// The identity providers that a deployment can name.
///
/// The identifier is what configuration and stored identities refer to; it
/// is not the label shown to people.
#[derive(Debug, Clone, Copy, PartialEq, Eq, Hash, Structural)]
pub enum OAuthProviderId {
    Apple,
    Discord,
    GitHub,
    Google,
}

/// What a deployment configures for one provider. The record is read at
/// construction and never looked at again. It holds the client secret, and
/// so cannot be printed.
#[derive(Clone, PartialEq, Eq)]
pub struct OAuthProviderConfig {
    pub client_id: Option<String>,
    pub client_secret: Option<String>,
    /// A label to show in place of the provider's own.
    pub display_name: Option<String>,
}

/// A configuration record as a mathematical value.
pub struct OAuthProviderConfigView {
    pub client_id: Option<Seq<char>>,
    pub client_secret: Option<Seq<char>>,
    pub display_name: Option<Seq<char>>,
}

/// The characters of an optional string.
pub open spec fn text_of(field: Option<String>) -> Option<Seq<char>> {
    match field {
        Some(text) => Some(text@),
        None => None,
    }
}

impl View for OAuthProviderConfig {
    type V = OAuthProviderConfigView;

    open spec fn view(&self) -> OAuthProviderConfigView {
        OAuthProviderConfigView {
            client_id: text_of(self.client_id),
            client_secret: text_of(self.client_secret),
            display_name: text_of(self.display_name),
        }
    }
}

impl DeepView for OAuthProviderConfig {
    type V = OAuthProviderConfigView;

    open spec fn deep_view(&self) -> OAuthProviderConfigView {
        self@
    }
}

/// The value of a required field: `None` where the field is left out or
/// left empty.
pub open spec fn required(field: Option<Seq<char>>) -> Option<Seq<char>> {
    match field {
        Some(text) if text.len() > 0 => Some(text),
        _ => None,
    }
}

} // verus!
