//! The providers that this library knows, and the table of those that a
//! deployment has configured.

use crate::auth::oauth::endpoint::url_serialization;
use crate::auth::oauth::providers::apple::{
    apple_description, apple_factory, apple_provider, AppleOAuthProvider,
};
use crate::auth::oauth::{description, OAuthProvider, OAuthProviderHandle, OAuthProviderView};
use crate::config::proto::{
    required, OAuthProviderConfig, OAuthProviderConfigView, OAuthProviderId,
};
use crate::search::{
    first_index, is_first, lemma_first_index, lemma_first_index_is, lemma_first_index_none,
};
use crate::text::str_equal;
use vstd::prelude::*;

pub mod apple;

verus! {

/// Why a provider could not be set up from its configuration.
#[derive(Debug, Clone, PartialEq, Eq)]
pub enum OAuthProviderError {
    /// A required field is left out or empty. The text names the field,
    /// never its value.
    Missing(String),
    /// No provider of this machine name is known.
    NotFound(String),
    /// A provider of this machine name is configured already.
    Duplicate(String),
}

/// An `OAuthProviderError` as a mathematical value.
pub enum OAuthProviderErrorView {
    Missing(Seq<char>),
    NotFound(Seq<char>),
    Duplicate(Seq<char>),
}

impl View for OAuthProviderError {
    type V = OAuthProviderErrorView;

    open spec fn view(&self) -> OAuthProviderErrorView {
        match self {
            OAuthProviderError::Missing(field) => OAuthProviderErrorView::Missing(field@),
            OAuthProviderError::NotFound(name) => OAuthProviderErrorView::NotFound(name@),
            OAuthProviderError::Duplicate(name) => OAuthProviderErrorView::Duplicate(name@),
        }
    }
}

impl DeepView for OAuthProviderError {
    type V = OAuthProviderErrorView;

    open spec fn deep_view(&self) -> OAuthProviderErrorView {
        self@
    }
}

/// How a provider is asked for: by its identifier or by its machine name.
#[derive(Debug, Clone, Copy, PartialEq, Eq)]
pub enum ProviderKey<'a> {
    Id(OAuthProviderId),
    Name(&'a str),
}

/// A key as a mathematical value.
pub enum ProviderKeyView {
    Id(OAuthProviderId),
    Name(Seq<char>),
}

impl<'a> View for ProviderKey<'a> {
    type V = ProviderKeyView;

    open spec fn view(&self) -> ProviderKeyView {
        match self {
            ProviderKey::Id(id) => ProviderKeyView::Id(*id),
            ProviderKey::Name(name) => ProviderKeyView::Name(name@),
        }
    }
}

/// The constructors that this library has, one for each provider that it
/// implements.
#[derive(Debug, Clone, Copy, PartialEq, Eq, Structural)]
pub enum OAuthProviderConstructor {
    Apple,
}

/// One kind of provider: what it is called, and how one is made.
#[derive(Debug, Clone, Copy, PartialEq, Eq)]
pub struct OAuthProviderFactory {
    pub id: OAuthProviderId,
    pub factory_name: &'static str,
    pub factory_display_name: &'static str,
    pub factory: OAuthProviderConstructor,
}

/// What the provider that a constructor makes from a configuration record
/// answers, or why the constructor makes none.
pub open spec fn constructed(
    constructor: OAuthProviderConstructor,
    config: OAuthProviderConfigView,
) -> Result<OAuthProviderView, OAuthProviderErrorView> {
    match constructor {
        OAuthProviderConstructor::Apple => match apple_provider(
            config,
            required(url_serialization(AppleOAuthProvider::AUTH_URL@)),
            required(url_serialization(AppleOAuthProvider::TOKEN_URL@)),
        ) {
            Ok(provider) => Ok(apple_description(provider)),
            Err(e) => Err(e),
        },
    }
}

impl OAuthProviderFactory {
    /// The entry says of its kind what every provider of the kind says of
    /// itself: the identifier and the two names are those of the
    /// providers that the constructor makes.
    pub open spec fn wf(&self) -> bool {
        forall|config: OAuthProviderConfigView|
            (#[trigger] constructed(self.factory, config)) matches Ok(provider) ==> {
                &&& provider.id == self.id
                &&& provider.name == self.factory_name@
                &&& provider.display_name == self.factory_display_name@
            }
    }

    /// Makes a provider of this kind from a configuration record.
    ///
    /// The record is checked here and nowhere else: where a required field
    /// is left out or empty, no provider is made and the error names the
    /// field.
    /// `_name` is the key under which the record was found; no kind of
    /// provider known so far has a use for it.
    pub fn construct(&self, _name: &str, config: &OAuthProviderConfig) -> (r: Result<
        OAuthProviderHandle,
        OAuthProviderError,
    >)
        ensures
            match r {
                Ok(provider) => constructed(self.factory, config@) == Ok::<
                    OAuthProviderView,
                    OAuthProviderErrorView,
                >(description(&provider)),
                Err(e) => constructed(self.factory, config@) == Err::<
                    OAuthProviderView,
                    OAuthProviderErrorView,
                >(e@),
            },
    {
        match self.factory {
            OAuthProviderConstructor::Apple => {
                let provider = AppleOAuthProvider::new(config)?;
                let handle = OAuthProviderHandle { provider: Box::new(provider) };
                proof {
                    assert(description(&handle).user =~= apple_description(provider@).user);
                }
                Ok(handle)
            },
        }
    }
}

/// The kinds of provider that this library knows, one entry each.
pub open spec fn known_factories_view() -> Seq<OAuthProviderFactory> {
    seq![apple_factory()]
}

/// No two entries share an identifier, and no two a machine name.
pub open spec fn distinct_factories(factories: Seq<OAuthProviderFactory>) -> bool {
    forall|i: int, j: int|
        0 <= i < j < factories.len() ==> (#[trigger] factories[i]).id != (
        #[trigger] factories[j]).id && factories[i].factory_name@ != factories[j].factory_name@
}

/// Whether a kind of provider goes by a key.
pub open spec fn factory_has_key(factory: OAuthProviderFactory, key: ProviderKeyView) -> bool {
    match key {
        ProviderKeyView::Id(id) => factory.id == id,
        ProviderKeyView::Name(name) => factory.factory_name@ == name,
    }
}

/// The kinds of provider that this library knows. The table is put
/// together by asking each kind for its entry; that no two entries
/// collide is proved, and need not be looked for when the table is used.
pub fn known_factories() -> (r: Vec<OAuthProviderFactory>)
    ensures
        r@ == known_factories_view(),
        distinct_factories(r@),
        forall|i: int| 0 <= i < r@.len() ==> (#[trigger] r@[i]).wf(),
{
    let mut factories: Vec<OAuthProviderFactory> = Vec::new();
    factories.push(AppleOAuthProvider::factory());
    factories
}

/// The place in `factories` of the first entry that goes by `key`.
pub open spec fn factory_index(factories: Seq<OAuthProviderFactory>, key: ProviderKeyView) -> Option<
    int,
> {
    first_index(factories, |factory: OAuthProviderFactory| factory_has_key(factory, key))
}

/// Among kinds with distinct keys, every kind is found where it stands,
/// by its identifier and by its machine name alike.
pub proof fn factories_are_found_by_both_keys(factories: Seq<OAuthProviderFactory>, i: int)
    requires
        distinct_factories(factories),
        0 <= i < factories.len(),
    ensures
        factory_index(factories, ProviderKeyView::Id(factories[i].id)) == Some(i),
        factory_index(factories, ProviderKeyView::Name(factories[i].factory_name@)) == Some(i),
{
    let by_id = |factory: OAuthProviderFactory|
        factory_has_key(factory, ProviderKeyView::Id(factories[i].id));
    let by_name = |factory: OAuthProviderFactory|
        factory_has_key(factory, ProviderKeyView::Name(factories[i].factory_name@));
    assert(is_first(factories, by_id, i));
    assert(is_first(factories, by_name, i));
    lemma_first_index_is(factories, by_id, i);
    lemma_first_index_is(factories, by_name, i);
}

/// Finds the kind of provider that goes by `key`: the first such entry of
/// `factories`.
pub fn find_factory<'a>(factories: &'a Vec<OAuthProviderFactory>, key: ProviderKey) -> (r: Option<
    &'a OAuthProviderFactory,
>)
    ensures
        match r {
            Some(factory) => factory_index(factories@, key@) matches Some(i) && *factory
                == factories@[i],
            None => factory_index(factories@, key@) is None,
        },
{
    let ghost pred = |factory: OAuthProviderFactory| factory_has_key(factory, key@);
    let mut i: usize = 0;
    while i < factories.len()
        invariant
            i <= factories@.len(),
            pred == |factory: OAuthProviderFactory| factory_has_key(factory, key@),
            forall|j: int| 0 <= j < i ==> !pred(#[trigger] factories@[j]),
        decreases factories@.len() - i,
    {
        let found = match key {
            ProviderKey::Id(id) => factories[i].id == id,
            ProviderKey::Name(name) => str_equal(factories[i].factory_name, name),
        };
        if found {
            proof {
                assert(is_first(factories@, pred, i as int));
                lemma_first_index_is(factories@, pred, i as int);
            }
            return Some(&factories[i]);
        }
        i += 1;
    }
    proof {
        lemma_first_index_none(factories@, pred);
    }
    None
}

/// Whether a provider goes by a key.
pub open spec fn has_key(provider: OAuthProviderView, key: ProviderKeyView) -> bool {
    match key {
        ProviderKeyView::Id(id) => provider.id == id,
        ProviderKeyView::Name(name) => provider.name == name,
    }
}

/// No two providers share an identifier, and no two a machine name.
pub open spec fn distinct_keys(providers: Seq<OAuthProviderView>) -> bool {
    forall|i: int, j: int|
        0 <= i < j < providers.len() ==> (#[trigger] providers[i]).id != (
        #[trigger] providers[j]).id && providers[i].name != providers[j].name
}

/// The place in `providers` of the provider that goes by `key`.
pub open spec fn provider_index(providers: Seq<OAuthProviderView>, key: ProviderKeyView) -> Option<
    int,
> {
    first_index(providers, |provider: OAuthProviderView| has_key(provider, key))
}

/// Whether a provider's identifier or machine name is taken in `providers`.
pub open spec fn collides(providers: Seq<OAuthProviderView>, provider: OAuthProviderView) -> bool {
    provider_index(providers, ProviderKeyView::Id(provider.id)) is Some || provider_index(
        providers,
        ProviderKeyView::Name(provider.name),
    ) is Some
}

/// In a table with distinct keys, every provider is found where it
/// stands, by its identifier and by its machine name alike.
pub proof fn lemma_found_by_both_keys(providers: Seq<OAuthProviderView>, i: int)
    requires
        distinct_keys(providers),
        0 <= i < providers.len(),
    ensures
        provider_index(providers, ProviderKeyView::Id(providers[i].id)) == Some(i),
        provider_index(providers, ProviderKeyView::Name(providers[i].name)) == Some(i),
{
    let by_id = |provider: OAuthProviderView|
        has_key(provider, ProviderKeyView::Id(providers[i].id));
    let by_name = |provider: OAuthProviderView|
        has_key(provider, ProviderKeyView::Name(providers[i].name));
    assert(is_first(providers, by_id, i));
    assert(is_first(providers, by_name, i));
    lemma_first_index_is(providers, by_id, i);
    lemma_first_index_is(providers, by_name, i);
}

/// What comes of one entry of the configuration, given the providers that
/// the entries before it have made: the provider to add, or the reason
/// why none is added.
///
/// The entry's key is the machine name of the kind of provider that it
/// configures.
pub open spec fn admitted(
    factories: Seq<OAuthProviderFactory>,
    providers: Seq<OAuthProviderView>,
    name: Seq<char>,
    config: OAuthProviderConfigView,
) -> Result<OAuthProviderView, OAuthProviderErrorView> {
    match factory_index(factories, ProviderKeyView::Name(name)) {
        None => Err(OAuthProviderErrorView::NotFound(name)),
        Some(i) => match constructed(factories[i].factory, config) {
            Err(e) => Err(e),
            Ok(provider) => if collides(providers, provider) {
                Err(OAuthProviderErrorView::Duplicate(provider.name))
            } else {
                Ok(provider)
            },
        },
    }
}

/// The providers that a configuration makes, in the order of its entries,
/// and the errors of the entries that made none. An entry that fails
/// keeps no other entry from its provider.
pub open spec fn registered(
    factories: Seq<OAuthProviderFactory>,
    configs: Seq<(Seq<char>, OAuthProviderConfigView)>,
) -> (Seq<OAuthProviderView>, Seq<OAuthProviderErrorView>)
    decreases configs.len(),
{
    if configs.len() == 0 {
        (Seq::empty(), Seq::empty())
    } else {
        let (providers, errors) = registered(factories, configs.drop_last());
        match admitted(factories, providers, configs.last().0, configs.last().1) {
            Ok(provider) => (providers.push(provider), errors),
            Err(e) => (providers, errors.push(e)),
        }
    }
}

/// A configuration without entries makes no provider and no error.
pub proof fn lemma_registered_none(factories: Seq<OAuthProviderFactory>)
    ensures
        registered(factories, Seq::empty()) == (
            Seq::<OAuthProviderView>::empty(),
            Seq::<OAuthProviderErrorView>::empty(),
        ),
{
}

/// One more entry at the end of a configuration adds its provider, or
/// else its error, to what the entries before it have made.
pub proof fn lemma_registered_push(
    factories: Seq<OAuthProviderFactory>,
    configs: Seq<(Seq<char>, OAuthProviderConfigView)>,
    name: Seq<char>,
    config: OAuthProviderConfigView,
)
    ensures
        registered(factories, configs.push((name, config))) == match admitted(
            factories,
            registered(factories, configs).0,
            name,
            config,
        ) {
            Ok(provider) => (
                registered(factories, configs).0.push(provider),
                registered(factories, configs).1,
            ),
            Err(e) => (registered(factories, configs).0, registered(factories, configs).1.push(e)),
        },
{
    let all = configs.push((name, config));
    assert(all.drop_last() =~= configs);
    assert(all.last() == (name, config));
}

/// What each of a row of providers answers.
pub open spec fn descriptions(providers: Seq<OAuthProviderHandle>) -> Seq<OAuthProviderView> {
    Seq::new(providers.len(), |i: int| description(&providers[i]))
}

/// The place in `providers` of the first provider that goes by `key`.
fn find_provider(providers: &Vec<OAuthProviderHandle>, key: ProviderKey) -> (r: Option<usize>)
    ensures
        match r {
            Some(i) => i < providers@.len() && provider_index(descriptions(providers@), key@)
                == Some(i as int),
            None => provider_index(descriptions(providers@), key@) is None,
        },
{
    let ghost entries = descriptions(providers@);
    let ghost pred = |provider: OAuthProviderView| has_key(provider, key@);
    let mut i: usize = 0;
    while i < providers.len()
        invariant
            i <= providers@.len(),
            entries == descriptions(providers@),
            pred == |provider: OAuthProviderView| has_key(provider, key@),
            forall|j: int| 0 <= j < i ==> !pred(#[trigger] entries[j]),
        decreases providers@.len() - i,
    {
        let provider = &providers[i];
        let found = match key {
            ProviderKey::Id(id) => provider.provider() == id,
            ProviderKey::Name(name) => str_equal(provider.name(), name),
        };
        assert(entries[i as int] == description(provider));
        if found {
            proof {
                assert(is_first(entries, pred, i as int));
                lemma_first_index_is(entries, pred, i as int);
            }
            return Some(i);
        }
        i += 1;
    }
    proof {
        lemma_first_index_none(entries, pred);
    }
    None
}

/// One line of the list of providers that a deployment offers.
#[derive(Debug, Clone, Copy, PartialEq, Eq)]
pub struct RegisteredProvider {
    pub id: OAuthProviderId,
    pub machine_name: &'static str,
    pub display_name: &'static str,
}

/// The providers that a deployment has configured, each to be found by
/// its identifier and by its machine name.
///
/// The table is made once, when the deployment starts, and cannot be
/// changed afterwards.
pub struct OAuthProviderRegistry {
    providers: Vec<OAuthProviderHandle>,
}

impl View for OAuthProviderRegistry {
    type V = Seq<OAuthProviderView>;

    closed spec fn view(&self) -> Seq<OAuthProviderView> {
        descriptions(self.providers@)
    }
}

impl OAuthProviderRegistry {
    #[verifier::type_invariant]
    spec fn inv(self) -> bool {
        distinct_keys(self@)
    }

    /// Every key leads to one provider at most.
    pub open spec fn wf(&self) -> bool {
        distinct_keys(self@)
    }

    /// What the provider that goes by `key` answers.
    pub open spec fn spec_get_provider(&self, key: ProviderKeyView) -> Option<OAuthProviderView> {
        match provider_index(self@, key) {
            Some(i) => Some(self@[i]),
            None => None,
        }
    }

    /// Looking a provider up by its machine name and by its identifier
    /// leads to the same provider, and so to the same settings: whatever
    /// one key finds, the other key of what was found finds too.
    pub proof fn lookups_agree(&self, key: ProviderKeyView)
        requires
            self.wf(),
        ensures
            match self.spec_get_provider(key) {
                Some(provider) => {
                    &&& has_key(provider, key)
                    &&& self.spec_get_provider(ProviderKeyView::Id(provider.id)) == Some(provider)
                    &&& self.spec_get_provider(ProviderKeyView::Name(provider.name)) == Some(
                        provider,
                    )
                },
                None => forall|i: int| 0 <= i < self@.len() ==> !has_key(#[trigger] self@[i], key),
            },
    {
        lemma_first_index(self@, |provider: OAuthProviderView| has_key(provider, key));
        if let Some(i) = provider_index(self@, key) {
            lemma_found_by_both_keys(self@, i);
        }
    }

    /// Makes the table for a configuration, from the kinds of provider in
    /// `factories`.
    ///
    /// The entries are taken in order. Each names a kind of provider by
    /// its machine name and holds the record to make one from. An entry
    /// that names no kind, whose record is refused, or whose provider
    /// would take a key that is taken, adds its error to the list that is
    /// returned beside the table, and the table is made without it.
    pub fn with_factories(
        factories: &Vec<OAuthProviderFactory>,
        configs: &Vec<(String, OAuthProviderConfig)>,
    ) -> (r: (Self, Vec<OAuthProviderError>))
        ensures
            r.0.wf(),
            (r.0@, r.1.deep_view()) == registered(factories@, configs.deep_view()),
    {
        let mut providers: Vec<OAuthProviderHandle> = Vec::new();
        let mut errors: Vec<OAuthProviderError> = Vec::new();
        let mut i: usize = 0;
        proof {
            lemma_registered_none(factories@);
            assert(configs.deep_view().take(0) =~= Seq::empty());
            assert(descriptions(providers@) =~= Seq::empty());
            assert(errors.deep_view() =~= Seq::empty());
        }
        while i < configs.len()
            invariant
                i <= configs@.len(),
                configs.deep_view().len() == configs@.len(),
                distinct_keys(descriptions(providers@)),
                (descriptions(providers@), errors.deep_view()) == registered(
                    factories@,
                    configs.deep_view().take(i as int),
                ),
            decreases configs@.len() - i,
        {
            let ghost before = descriptions(providers@);
            let ghost errors_before = errors.deep_view();
            let name = configs[i].0.as_str();
            let config = &configs[i].1;
            proof {
                let done = configs.deep_view().take(i as int);
                assert(configs.deep_view().take(i + 1) =~= done.push((name@, config@)));
                lemma_registered_push(factories@, done, name@, config@);
            }
            match find_factory(factories, ProviderKey::Name(name)) {
                None => {
                    errors.push(OAuthProviderError::NotFound(name.to_string()));
                    proof {
                        assert(errors.deep_view() =~= errors_before.push(
                            OAuthProviderErrorView::NotFound(name@),
                        ));
                    }
                },
                Some(factory) => match factory.construct(name, config) {
                    Err(e) => {
                        errors.push(e);
                        proof {
                            assert(errors.deep_view() =~= errors_before.push(e@));
                        }
                    },
                    Ok(provider) => {
                        let id = provider.provider();
                        let machine_name = provider.name();
                        let taken = find_provider(&providers, ProviderKey::Id(id)).is_some()
                            || find_provider(&providers, ProviderKey::Name(machine_name)).is_some();
                        if taken {
                            errors.push(OAuthProviderError::Duplicate(machine_name.to_string()));
                            proof {
                                assert(errors.deep_view() =~= errors_before.push(
                                    OAuthProviderErrorView::Duplicate(machine_name@),
                                ));
                            }
                        } else {
                            proof {
                                lemma_first_index(
                                    before,
                                    |entry: OAuthProviderView|
                                        has_key(entry, ProviderKeyView::Id(id)),
                                );
                                lemma_first_index(
                                    before,
                                    |entry: OAuthProviderView|
                                        has_key(entry, ProviderKeyView::Name(machine_name@)),
                                );
                            }
                            providers.push(provider);
                            proof {
                                assert(descriptions(providers@) =~= before.push(
                                    description(&provider),
                                ));
                            }
                        }
                    },
                },
            }
            i += 1;
        }
        proof {
            assert(configs.deep_view().take(i as int) =~= configs.deep_view());
        }
        (OAuthProviderRegistry { providers }, errors)
    }

    /// Makes the table for a configuration, from the kinds of provider
    /// that this library knows.
    pub fn from_config(configs: &Vec<(String, OAuthProviderConfig)>) -> (r: (
        Self,
        Vec<OAuthProviderError>,
    ))
        ensures
            r.0.wf(),
            (r.0@, r.1.deep_view()) == registered(known_factories_view(), configs.deep_view()),
    {
        let factories = known_factories();
        Self::with_factories(&factories, configs)
    }

    /// The provider that goes by `key`, if one is configured.
    pub fn get_provider<'a>(&'a self, key: ProviderKey) -> (r: Option<&'a OAuthProviderHandle>)
        ensures
            self.wf(),
            match r {
                Some(provider) => self.spec_get_provider(key@) == Some(description(provider)),
                None => self.spec_get_provider(key@) is None,
            },
    {
        proof {
            use_type_invariant(self);
        }
        match find_provider(&self.providers, key) {
            Some(i) => Some(&self.providers[i]),
            None => None,
        }
    }

    /// The configured providers, in the order in which they were
    /// registered: what a login page has to show.
    pub fn list_registered_providers(&self) -> (r: Vec<RegisteredProvider>)
        ensures
            r@.len() == self@.len(),
            forall|i: int|
                0 <= i < r@.len() ==> {
                    &&& (#[trigger] r@[i]).id == self@[i].id
                    &&& r@[i].machine_name@ == self@[i].name
                    &&& r@[i].display_name@ == self@[i].display_name
                },
    {
        let mut list: Vec<RegisteredProvider> = Vec::new();
        let mut i: usize = 0;
        while i < self.providers.len()
            invariant
                i <= self.providers@.len(),
                self@.len() == self.providers@.len(),
                list@.len() == i,
                forall|j: int|
                    0 <= j < i ==> {
                        &&& (#[trigger] list@[j]).id == self@[j].id
                        &&& list@[j].machine_name@ == self@[j].name
                        &&& list@[j].display_name@ == self@[j].display_name
                    },
            decreases self.providers@.len() - i,
        {
            let provider = &self.providers[i];
            assert(self@[i as int] == description(provider));
            list.push(
                RegisteredProvider {
                    id: provider.provider(),
                    machine_name: provider.name(),
                    display_name: provider.display_name(),
                },
            );
            i += 1;
        }
        list
    }
}

} // verus!
