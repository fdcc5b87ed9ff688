//! The contract that every identity provider meets, and the values that
//! pass through it.

use crate::auth::oauth::endpoint::{is_endpoint, EndpointUrl};
use crate::auth::{AuthError, AuthErrorView};
use crate::config::proto::OAuthProviderId;
use vstd::prelude::*;

pub mod endpoint;
pub mod providers;

verus! {

/// Where a provider is reached and how the deployment names itself there.
///
/// The settings hold the client secret, and so cannot be printed.
#[derive(Clone, PartialEq, Eq)]
pub struct OAuthClientSettings {
    pub auth_url: EndpointUrl,
    pub token_url: EndpointUrl,
    pub client_id: String,
    pub client_secret: String,
}

/// Client settings as a mathematical value.
pub struct OAuthClientSettingsView {
    pub auth_url: Seq<char>,
    pub token_url: Seq<char>,
    pub client_id: Seq<char>,
    pub client_secret: Seq<char>,
}

impl View for OAuthClientSettings {
    type V = OAuthClientSettingsView;

    open spec fn view(&self) -> OAuthClientSettingsView {
        OAuthClientSettingsView {
            auth_url: self.auth_url@,
            token_url: self.token_url@,
            client_id: self.client_id@,
            client_secret: self.client_secret@,
        }
    }
}

impl OAuthClientSettingsView {
    /// Settings are complete: the two addresses are absolute URLs, and no
    /// credential is empty.
    pub open spec fn wf(self) -> bool {
        &&& is_endpoint(self.auth_url)
        &&& is_endpoint(self.token_url)
        &&& self.client_id.len() > 0
        &&& self.client_secret.len() > 0
    }
}

/// Who logged in, in the same form for every provider.
#[derive(Debug, Clone, PartialEq, Eq)]
pub struct OAuthUser {
    /// The provider's own identifier of the person, the same at every login.
    pub provider_user_id: String,
    pub provider_id: OAuthProviderId,
    pub email: String,
    /// Whether the provider vouches for the address.
    pub verified: bool,
    pub avatar: Option<String>,
}

/// An identity as a mathematical value.
pub struct OAuthUserView {
    pub provider_user_id: Seq<char>,
    pub provider_id: OAuthProviderId,
    pub email: Seq<char>,
    pub verified: bool,
    pub avatar: Option<Seq<char>>,
}

impl View for OAuthUser {
    type V = OAuthUserView;

    open spec fn view(&self) -> OAuthUserView {
        OAuthUserView {
            provider_user_id: self.provider_user_id@,
            provider_id: self.provider_id,
            email: self.email@,
            verified: self.verified,
            avatar: match self.avatar {
                Some(url) => Some(url@),
                None => None,
            },
        }
    }
}

impl OAuthUserView {
    /// An identity is whole: the person's identifier is there.
    pub open spec fn wf(self) -> bool {
        self.provider_user_id.len() > 0
    }
}

/// What a provider's endpoint for the current user reported, once the
/// answer has been read.
#[derive(Debug, Clone, PartialEq, Eq)]
pub struct OAuthUserInfo {
    pub id: String,
    pub email: String,
    /// Whether the provider vouches for the address; `None` where the
    /// answer does not say.
    pub verified: Option<bool>,
    /// Where the person's picture is, if the provider has one.
    pub avatar: Option<String>,
}

/// A provider's report as a mathematical value.
pub struct OAuthUserInfoView {
    pub id: Seq<char>,
    pub email: Seq<char>,
    pub verified: Option<bool>,
    pub avatar: Option<Seq<char>>,
}

impl View for OAuthUserInfo {
    type V = OAuthUserInfoView;

    open spec fn view(&self) -> OAuthUserInfoView {
        OAuthUserInfoView {
            id: self.id@,
            email: self.email@,
            verified: self.verified,
            avatar: match self.avatar {
                Some(url) => Some(url@),
                None => None,
            },
        }
    }
}

/// The identity that a provider's report amounts to.
///
/// A report without the person's identifier is not an answer of the
/// expected shape. A report that does not vouch for the address is turned
/// down: no identity with `verified` unset ever comes of one.
pub open spec fn identity_of(provider_id: OAuthProviderId, info: OAuthUserInfoView) -> Result<
    OAuthUserView,
    AuthErrorView,
> {
    if info.id.len() == 0 {
        Err(AuthErrorView::FailedDependency("user id"@))
    } else if info.verified != Some(true) {
        Err(AuthErrorView::Unauthorized)
    } else {
        Ok(
            OAuthUserView {
                provider_user_id: info.id,
                provider_id,
                email: info.email,
                verified: true,
                avatar: info.avatar,
            },
        )
    }
}

impl OAuthUser {
    /// Turns what a provider reported of the current user into an
    /// identity, for providers that answer an access token with such a
    /// report.
    pub fn from_user_info(provider_id: OAuthProviderId, info: OAuthUserInfo) -> (r: Result<
        OAuthUser,
        AuthError,
    >)
        ensures
            user_view(r) == identity_of(provider_id, info@),
            r matches Ok(user) ==> user@.wf() && user.verified,
    {
        if info.id.as_str().is_empty() {
            return Err(AuthError::FailedDependency("user id".to_string()));
        }
        match info.verified {
            Some(true) => Ok(
                OAuthUser {
                    provider_user_id: info.id,
                    provider_id,
                    email: info.email,
                    verified: true,
                    avatar: info.avatar,
                },
            ),
            _ => Err(AuthError::Unauthorized),
        }
    }
}

/// The view of what `settings` returned.
pub open spec fn settings_view(r: Result<OAuthClientSettings, AuthError>) -> Result<
    OAuthClientSettingsView,
    AuthErrorView,
> {
    match r {
        Ok(settings) => Ok(settings@),
        Err(e) => Err(e@),
    }
}

/// The view of what `get_user` returned.
pub open spec fn user_view(r: Result<OAuthUser, AuthError>) -> Result<OAuthUserView, AuthErrorView> {
    match r {
        Ok(user) => Ok(user@),
        Err(e) => Err(e@),
    }
}

/// The characters of each of a list of scopes, in order.
pub open spec fn scopes_view(scopes: Seq<&'static str>) -> Seq<Seq<char>> {
    Seq::new(scopes.len(), |i: int| scopes[i]@)
}

/// No character is an upper-case ASCII letter.
pub open spec fn is_lowercase(name: Seq<char>) -> bool {
    forall|i: int| 0 <= i < name.len() ==> !('A' <= #[trigger] name[i] <= 'Z')
}

/// What every identity provider offers.
///
/// The first five operations describe the provider and touch nothing; each
/// returns the same value however often it is called. `get_user` is the one
/// operation that stands for work with the provider. It borrows the
/// provider without changing it, so that calls do not affect one another.
pub trait OAuthProvider: Send + Sync {
    /// The provider's machine name.
    spec fn spec_name(&self) -> Seq<char>;

    /// The provider's identifier.
    spec fn spec_provider(&self) -> OAuthProviderId;

    /// The label shown to people.
    spec fn spec_display_name(&self) -> Seq<char>;

    /// The provider's settings, or why it has none.
    spec fn spec_settings(&self) -> Result<OAuthClientSettingsView, AuthErrorView>;

    /// The scopes to ask the provider for, in order.
    spec fn spec_oauth_scopes(&self) -> Seq<Seq<char>>;

    /// What the provider makes of an access token.
    spec fn spec_get_user(&self, access_token: Seq<char>) -> Result<OAuthUserView, AuthErrorView>;

    /// The machine name: the key under which the provider is configured
    /// and routed to.
    fn name(&self) -> (r: &'static str)
        ensures
            r@ == self.spec_name(),
            is_lowercase(r@),
    ;

    fn provider(&self) -> (r: OAuthProviderId)
        ensures
            r == self.spec_provider(),
    ;

    fn display_name(&self) -> (r: &'static str)
        ensures
            r@ == self.spec_display_name(),
    ;

    /// The endpoints and credentials, complete or not at all.
    fn settings(&self) -> (r: Result<OAuthClientSettings, AuthError>)
        ensures
            settings_view(r) == self.spec_settings(),
            r matches Ok(settings) ==> settings@.wf(),
    ;

    /// The scopes that the authorization request asks for, in this order.
    fn oauth_scopes(&self) -> (r: Vec<&'static str>)
        ensures
            scopes_view(r@) == self.spec_oauth_scopes(),
    ;

    /// Exchanges an access token for the identity of the person who logged
    /// in. An identity that comes back is whole and is this provider's.
    fn get_user(&self, access_token: String) -> (r: Result<OAuthUser, AuthError>)
        ensures
            user_view(r) == self.spec_get_user(access_token@),
            r matches Ok(user) ==> user@.wf() && user.provider_id == self.spec_provider(),
    ;
}

/// A provider's settings are the same however often they are asked for:
/// any two answers of `settings` on one provider are equal.
pub proof fn settings_are_stable<P: OAuthProvider + ?Sized>(
    provider: &P,
    first: Result<OAuthClientSettings, AuthError>,
    second: Result<OAuthClientSettings, AuthError>,
)
    requires
        call_ensures(P::settings, (provider,), first),
        call_ensures(P::settings, (provider,), second),
    ensures
        settings_view(first) == settings_view(second),
{
}

/// A provider's scopes are the same, and in the same order, however often
/// they are asked for: any two answers of `oauth_scopes` on one provider
/// are equal.
pub proof fn oauth_scopes_are_stable<P: OAuthProvider + ?Sized>(
    provider: &P,
    first: Vec<&'static str>,
    second: Vec<&'static str>,
)
    requires
        call_ensures(P::oauth_scopes, (provider,), first),
        call_ensures(P::oauth_scopes, (provider,), second),
    ensures
        scopes_view(first@) == scopes_view(second@),
{
}

/// Calls of `get_user` on one provider do not affect one another: what
/// comes of a token depends on the provider and on that token alone,
/// whatever other tokens the provider is asked about.
pub proof fn get_user_calls_are_independent<P: OAuthProvider + ?Sized>(
    provider: &P,
    access_token: String,
    first: Result<OAuthUser, AuthError>,
    again: String,
    second: Result<OAuthUser, AuthError>,
)
    requires
        call_ensures(P::get_user, (provider, access_token), first),
        call_ensures(P::get_user, (provider, again), second),
        access_token@ == again@,
    ensures
        user_view(first) == user_view(second),
{
}

/// A report that does not vouch for the address never makes an identity,
/// and an identity made from a report is whole and vouched for.
pub proof fn unverified_report_gives_no_identity(provider_id: OAuthProviderId, info: OAuthUserInfoView)
    ensures
        info.verified != Some(true) ==> identity_of(provider_id, info) is Err,
        identity_of(provider_id, info) matches Ok(user) ==> user.verified && user.wf()
            && user.provider_id == provider_id,
{
}

/// What a provider answers, whatever its kind: what it says of itself,
/// and what it makes of each access token.
pub struct OAuthProviderView {
    pub id: OAuthProviderId,
    pub name: Seq<char>,
    pub display_name: Seq<char>,
    pub settings: Result<OAuthClientSettingsView, AuthErrorView>,
    pub scopes: Seq<Seq<char>>,
    pub user: spec_fn(Seq<char>) -> Result<OAuthUserView, AuthErrorView>,
}

/// What a provider answers.
pub open spec fn description<P: OAuthProvider + ?Sized>(provider: &P) -> OAuthProviderView {
    OAuthProviderView {
        id: provider.spec_provider(),
        name: provider.spec_name(),
        display_name: provider.spec_display_name(),
        settings: provider.spec_settings(),
        scopes: provider.spec_oauth_scopes(),
        user: |access_token: Seq<char>| provider.spec_get_user(access_token),
    }
}

/// A provider of any kind, held for what the contract offers.
pub struct OAuthProviderHandle {
    pub provider: Box<dyn OAuthProvider>,
}

impl OAuthProvider for OAuthProviderHandle {
    open spec fn spec_name(&self) -> Seq<char> {
        self.provider.spec_name()
    }

    open spec fn spec_provider(&self) -> OAuthProviderId {
        self.provider.spec_provider()
    }

    open spec fn spec_display_name(&self) -> Seq<char> {
        self.provider.spec_display_name()
    }

    open spec fn spec_settings(&self) -> Result<OAuthClientSettingsView, AuthErrorView> {
        self.provider.spec_settings()
    }

    open spec fn spec_oauth_scopes(&self) -> Seq<Seq<char>> {
        self.provider.spec_oauth_scopes()
    }

    open spec fn spec_get_user(&self, access_token: Seq<char>) -> Result<
        OAuthUserView,
        AuthErrorView,
    > {
        self.provider.spec_get_user(access_token)
    }

    fn name(&self) -> (r: &'static str) {
        self.provider.name()
    }

    fn provider(&self) -> (r: OAuthProviderId) {
        self.provider.provider()
    }

    fn display_name(&self) -> (r: &'static str) {
        self.provider.display_name()
    }

    fn settings(&self) -> (r: Result<OAuthClientSettings, AuthError>) {
        self.provider.settings()
    }

    fn oauth_scopes(&self) -> (r: Vec<&'static str>) {
        self.provider.oauth_scopes()
    }

    fn get_user(&self, access_token: String) -> (r: Result<OAuthUser, AuthError>) {
        self.provider.get_user(access_token)
    }
}

} // verus!
