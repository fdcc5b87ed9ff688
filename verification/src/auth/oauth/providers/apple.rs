//! Sign in with Apple.
//!
//! Apple has no endpoint that reports the current user. It puts the
//! person's claims into the identity token that comes with the code
//! exchange, and no claim may be trusted before that token's signature,
//! issuer, audience and expiry have been checked. Until the provider does
//! so, it lets nobody in.

use crate::auth::oauth::endpoint::{
    endpoint_text, is_endpoint, url_serialization, EndpointUrl,
};
use crate::auth::oauth::providers::{
    OAuthProviderConstructor, OAuthProviderError, OAuthProviderErrorView, OAuthProviderFactory,
};
use crate::auth::oauth::{
    scopes_view, settings_view, OAuthClientSettings, OAuthClientSettingsView, OAuthProvider, OAuthProviderView,
    OAuthUser, OAuthUserView,
};
use crate::auth::{AuthError, AuthErrorView};
use crate::config::proto::{
    required, OAuthProviderConfig, OAuthProviderConfigView, OAuthProviderId,
};
use vstd::prelude::*;

verus! {

/// The two addresses at which a provider is reached.
struct Endpoints {
    auth_url: EndpointUrl,
    token_url: EndpointUrl,
}

/// Apple as an identity provider.
pub struct AppleOAuthProvider {
    client_id: String,
    client_secret: String,
    /// The endpoints, parsed when the provider was made; `None` where the
    /// URL parser did not accept them.
    endpoints: Option<Endpoints>,
}

/// An Apple provider as a mathematical value.
pub struct AppleOAuthProviderView {
    pub client_id: Seq<char>,
    pub client_secret: Seq<char>,
    /// The authorization and the token endpoint.
    pub endpoints: Option<(Seq<char>, Seq<char>)>,
}

impl AppleOAuthProviderView {
    /// No credential is empty, and the endpoints, where the provider has
    /// them, are absolute URLs.
    pub open spec fn wf(self) -> bool {
        &&& self.client_id.len() > 0
        &&& self.client_secret.len() > 0
        &&& self.endpoints matches Some((auth_url, token_url)) ==> is_endpoint(auth_url)
            && is_endpoint(token_url)
    }
}

/// The pair of endpoints that two parsed addresses make: both, where each
/// was accepted, and none otherwise.
pub open spec fn endpoints_of(auth_url: Option<Seq<char>>, token_url: Option<Seq<char>>) -> Option<
    (Seq<char>, Seq<char>),
> {
    match (auth_url, token_url) {
        (Some(auth_url), Some(token_url)) => Some((auth_url, token_url)),
        _ => None,
    }
}

/// The Apple provider that a configuration record makes, given what the
/// URL parser made of the two endpoint addresses.
///
/// A client id and a client secret are required. A field that is left out
/// is named before a field that is there and empty; of two fields in the
/// same state, the client id is named first.
pub open spec fn apple_provider(
    config: OAuthProviderConfigView,
    auth_url: Option<Seq<char>>,
    token_url: Option<Seq<char>>,
) -> Result<AppleOAuthProviderView, OAuthProviderErrorView> {
    match (config.client_id, config.client_secret) {
        (None, _) => Err(OAuthProviderErrorView::Missing("Apple client id"@)),
        (Some(_), None) => Err(OAuthProviderErrorView::Missing("Apple client secret"@)),
        (Some(client_id), Some(client_secret)) => if client_id.len() == 0 {
            Err(OAuthProviderErrorView::Missing("Apple client id"@))
        } else if client_secret.len() == 0 {
            Err(OAuthProviderErrorView::Missing("Apple client secret"@))
        } else {
            Ok(
                AppleOAuthProviderView {
                    client_id,
                    client_secret,
                    endpoints: endpoints_of(auth_url, token_url),
                },
            )
        },
    }
}

/// Whether the characters of `field` stand in `message` from the place
/// `at` on.
pub open spec fn stands_at(message: Seq<char>, field: Seq<char>, at: int) -> bool {
    &&& 0 <= at
    &&& at + field.len() <= message.len()
    &&& message.subrange(at, at + field.len()) == field
}

/// Whether a message names a field: the field's name stands in it.
pub open spec fn names_field(message: Seq<char>, field: Seq<char>) -> bool {
    exists|at: int| stands_at(message, field, at)
}

/// The error that names the client id, and no other field.
pub open spec fn names_client_id(r: Result<AppleOAuthProviderView, OAuthProviderErrorView>) -> bool {
    &&& r matches Err(OAuthProviderErrorView::Missing(field))
    &&& names_field(field, "client id"@)
    &&& !names_field(field, "client secret"@)
}

/// The error that names the client secret, and no other field.
pub open spec fn names_client_secret(
    r: Result<AppleOAuthProviderView, OAuthProviderErrorView>,
) -> bool {
    &&& r matches Err(OAuthProviderErrorView::Missing(field))
    &&& names_field(field, "client secret"@)
    &&& !names_field(field, "client id"@)
}

/// A record without a client id is refused with an error that names the
/// client id; one with a client id and without a client secret, with an
/// error that names the client secret, whatever the client id holds.
/// Where both are there, an empty client id is named, and after it an
/// empty client secret; a record that holds both makes a provider. What
/// the URL parser makes of the endpoints changes none of this.
pub proof fn construction_checks_required_fields(
    config: OAuthProviderConfigView,
    auth_url: Option<Seq<char>>,
    token_url: Option<Seq<char>>,
)
    ensures
        config.client_id is None ==> names_client_id(
            apple_provider(config, auth_url, token_url),
        ),
        config.client_id is Some && config.client_secret is None ==> names_client_secret(
            apple_provider(config, auth_url, token_url),
        ),
        config.client_id is Some && config.client_secret is Some && required(config.client_id)
            is None ==> names_client_id(apple_provider(config, auth_url, token_url)),
        required(config.client_id) is Some && config.client_secret is Some && required(
            config.client_secret,
        ) is None ==> names_client_secret(apple_provider(config, auth_url, token_url)),
        required(config.client_id) is Some && required(config.client_secret) is Some
            ==> apple_provider(config, auth_url, token_url) is Ok,
{
    let id = "Apple client id"@;
    let secret = "Apple client secret"@;
    reveal_strlit("Apple client id");
    reveal_strlit("client id");
    reveal_strlit("Apple client secret");
    reveal_strlit("client secret");
    assert(id.subrange(6, 15) =~= "client id"@);
    assert(stands_at(id, "client id"@, 6));
    assert(secret.subrange(6, 19) =~= "client secret"@);
    assert(stands_at(secret, "client secret"@, 6));
    assert forall|at: int| !stands_at(id, "client secret"@, at) by {
        if 0 <= at && at + 13 <= 15 {
            assert(id.subrange(at, at + 13)[0] == id[at]);
        }
    }
    assert forall|at: int| !stands_at(secret, "client id"@, at) by {
        if 0 <= at && at + 9 <= 19 {
            assert(secret.subrange(at, at + 9)[0] == secret[at]);
            assert(secret.subrange(at, at + 9)[7] == secret[at + 7]);
        }
    }
}

/// The settings of an Apple provider: complete where it has its
/// endpoints, and otherwise none.
pub open spec fn apple_settings(provider: AppleOAuthProviderView) -> Result<
    OAuthClientSettingsView,
    AuthErrorView,
> {
    match provider.endpoints {
        Some((auth_url, token_url)) => Ok(
            OAuthClientSettingsView {
                auth_url,
                token_url,
                client_id: provider.client_id,
                client_secret: provider.client_secret,
            },
        ),
        None => Err(AuthErrorView::Internal("Apple endpoints"@)),
    }
}

/// Apple's entry among the kinds of provider.
pub open spec fn apple_factory() -> OAuthProviderFactory {
    OAuthProviderFactory {
        id: OAuthProviderId::Apple,
        factory_name: AppleOAuthProvider::NAME,
        factory_display_name: AppleOAuthProvider::DISPLAY_NAME,
        factory: OAuthProviderConstructor::Apple,
    }
}

/// The scopes that Apple is asked for, in this order.
pub open spec fn apple_scopes() -> Seq<Seq<char>> {
    seq!["name"@, "email"@]
}

/// What an Apple provider answers: its names, its settings and scopes,
/// and to every access token that it lets nobody in.
pub open spec fn apple_description(provider: AppleOAuthProviderView) -> OAuthProviderView {
    OAuthProviderView {
        id: OAuthProviderId::Apple,
        name: AppleOAuthProvider::NAME@,
        display_name: AppleOAuthProvider::DISPLAY_NAME@,
        settings: apple_settings(provider),
        scopes: apple_scopes(),
        user: |access_token: Seq<char>| Err(AuthErrorView::Unauthorized),
    }
}

/// The view of what a constructor returned.
pub open spec fn provider_view(r: Result<AppleOAuthProvider, OAuthProviderError>) -> Result<
    AppleOAuthProviderView,
    OAuthProviderErrorView,
> {
    match r {
        Ok(provider) => Ok(provider@),
        Err(e) => Err(e@),
    }
}

impl View for AppleOAuthProvider {
    type V = AppleOAuthProviderView;

    closed spec fn view(&self) -> AppleOAuthProviderView {
        AppleOAuthProviderView {
            client_id: self.client_id@,
            client_secret: self.client_secret@,
            endpoints: match self.endpoints {
                Some(endpoints) => Some((endpoints.auth_url@, endpoints.token_url@)),
                None => None,
            },
        }
    }
}

impl AppleOAuthProvider {
    pub const NAME: &'static str = "apple";

    pub const DISPLAY_NAME: &'static str = "Apple";

    pub const AUTH_URL: &'static str = "https://appleid.apple.com/auth/authorize";

    pub const TOKEN_URL: &'static str = "https://appleid.apple.com/auth/token";

    #[verifier::type_invariant]
    spec fn inv(self) -> bool {
        self@.wf()
    }

    /// Makes the provider from its configuration and from what the URL
    /// parser made of the two endpoint addresses.
    pub fn with_endpoints(
        config: &OAuthProviderConfig,
        auth_url: Option<EndpointUrl>,
        token_url: Option<EndpointUrl>,
    ) -> (r: Result<Self, OAuthProviderError>)
        ensures
            provider_view(r) == apple_provider(
                config@,
                endpoint_text(auth_url),
                endpoint_text(token_url),
            ),
            r matches Ok(provider) ==> provider@.wf(),
    {
        let Some(client_id) = config.client_id.clone() else {
            return Err(OAuthProviderError::Missing("Apple client id".to_string()));
        };
        let Some(client_secret) = config.client_secret.clone() else {
            return Err(OAuthProviderError::Missing("Apple client secret".to_string()));
        };
        if client_id.as_str().is_empty() {
            return Err(OAuthProviderError::Missing("Apple client id".to_string()));
        }
        if client_secret.as_str().is_empty() {
            return Err(OAuthProviderError::Missing("Apple client secret".to_string()));
        }
        let endpoints = match (auth_url, token_url) {
            (Some(auth_url), Some(token_url)) => {
                proof {
                    use_type_invariant(&auth_url);
                    use_type_invariant(&token_url);
                }
                Some(Endpoints { auth_url, token_url })
            },
            _ => None,
        };
        Ok(Self { client_id, client_secret, endpoints })
    }

    /// Makes the provider from its configuration.
    ///
    /// Succeeds exactly where the record holds a client id and a client
    /// secret, neither of them empty. The endpoint addresses are parsed
    /// here, once.
    pub fn new(config: &OAuthProviderConfig) -> (r: Result<Self, OAuthProviderError>)
        ensures
            provider_view(r) == apple_provider(
                config@,
                required(url_serialization(Self::AUTH_URL@)),
                required(url_serialization(Self::TOKEN_URL@)),
            ),
            r matches Ok(provider) ==> provider@.wf(),
    {
        Self::with_endpoints(
            config,
            EndpointUrl::parse(Self::AUTH_URL),
            EndpointUrl::parse(Self::TOKEN_URL),
        )
    }

    /// The entry under which Apple stands among the providers that this
    /// library knows: its identifier, its two names, and its constructor.
    pub fn factory() -> (r: OAuthProviderFactory)
        ensures
            r == apple_factory(),
            r.wf(),
    {
        OAuthProviderFactory {
            id: OAuthProviderId::Apple,
            factory_name: Self::NAME,
            factory_display_name: Self::DISPLAY_NAME,
            factory: OAuthProviderConstructor::Apple,
        }
    }
}

impl OAuthProvider for AppleOAuthProvider {
    open spec fn spec_name(&self) -> Seq<char> {
        Self::NAME@
    }

    open spec fn spec_provider(&self) -> OAuthProviderId {
        OAuthProviderId::Apple
    }

    open spec fn spec_display_name(&self) -> Seq<char> {
        Self::DISPLAY_NAME@
    }

    open spec fn spec_settings(&self) -> Result<OAuthClientSettingsView, AuthErrorView> {
        apple_settings(self@)
    }

    open spec fn spec_oauth_scopes(&self) -> Seq<Seq<char>> {
        apple_scopes()
    }

    open spec fn spec_get_user(&self, access_token: Seq<char>) -> Result<
        OAuthUserView,
        AuthErrorView,
    > {
        Err(AuthErrorView::Unauthorized)
    }

    fn name(&self) -> (r: &'static str)
        ensures
            r@ == "apple"@,
    {
        proof {
            reveal_strlit("apple");
        }
        Self::NAME
    }

    fn provider(&self) -> (r: OAuthProviderId)
        ensures
            r == OAuthProviderId::Apple,
    {
        OAuthProviderId::Apple
    }

    fn display_name(&self) -> (r: &'static str)
        ensures
            r@ == "Apple"@,
    {
        Self::DISPLAY_NAME
    }

    /// The settings, complete where the endpoint addresses were accepted
    /// when the provider was made.
    fn settings(&self) -> (r: Result<OAuthClientSettings, AuthError>)
        ensures
            settings_view(r) == apple_settings(self@),
    {
        proof {
            use_type_invariant(self);
        }
        match &self.endpoints {
            Some(endpoints) => Ok(
                OAuthClientSettings {
                    auth_url: endpoints.auth_url.clone(),
                    token_url: endpoints.token_url.clone(),
                    client_id: self.client_id.clone(),
                    client_secret: self.client_secret.clone(),
                },
            ),
            None => Err(AuthError::Internal("Apple endpoints".to_string())),
        }
    }

    /// Apple is asked for the name and for the address, in this order.
    fn oauth_scopes(&self) -> (r: Vec<&'static str>)
        ensures
            r@.len() == 2,
            r@[0]@ == "name"@,
            r@[1]@ == "email"@,
    {
        let scopes = vec!["name", "email"];
        assert(scopes_view(scopes@) =~= apple_scopes());
        scopes
    }

    /// Lets nobody in, whatever the token.
    fn get_user(&self, access_token: String) -> (r: Result<OAuthUser, AuthError>)
        ensures
            r == Err::<OAuthUser, AuthError>(AuthError::Unauthorized),
    {
        Err(AuthError::Unauthorized)
    }
}

} // verus!
