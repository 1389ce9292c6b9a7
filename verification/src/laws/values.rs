//! What callers observe of the values that a channel is configured with. Each law
//! relates the results of calls to each other and to the arguments of those calls.

use std::sync::Arc;

use vstd::prelude::*;

use crate::bootstrap::{
    bootstrap_source, BootstrapConfig, BootstrapError, BootstrapSource, CertProviderConfig,
};
use crate::config::XdsChannelConfig;
use crate::error::{BuildError, CertProviderError};
use crate::instances::{share, InstanceMap};
use crate::route::{RouteConfigMetadata, RouteDecision, TypedMetadata};
use crate::uri::{XdsUri, XdsUriError};

verus! {

/// Every value can be asked for and set: nothing is asked of a call of a URI, a bootstrap, a
/// map or a configuration.
pub proof fn law_every_value_can_be_used<C: ?Sized, V>(
    text: &str,
    uri: XdsUri,
    bootstrap: BootstrapConfig,
    loaded: Result<BootstrapConfig, BootstrapError>,
    map: InstanceMap<V>,
    name: String,
    value: V,
    config: XdsChannelConfig<C>,
    creds: Arc<C>,
)
    ensures
        call_requires(XdsUri::parse, (text,)),
        call_requires(XdsUri::to_string, (&uri,)),
        call_requires(InstanceMap::<V>::insert, (map, name, value)),
        call_requires(InstanceMap::<V>::get, (&map, text)),
        call_requires(InstanceMap::<V>::names, (&map,)),
        call_requires(XdsChannelConfig::<C>::new, (uri,)),
        call_requires(XdsChannelConfig::<C>::with_bootstrap, (config, bootstrap)),
        call_requires(XdsChannelConfig::<C>::with_bootstrap_from_env, (config, loaded)),
        call_requires(XdsChannelConfig::<C>::with_call_credentials, (config, creds)),
{
}

/// Parsing accepts exactly the texts that begin with `xds:///` and go on, and gives what
/// follows as the target. Of the two errors, the one speaks of another beginning, the
/// other of a text that ends there.
pub proof fn law_parsing_reads_what_follows_the_scheme(
    text: &str,
    parsed: Result<XdsUri, XdsUriError>,
)
    requires
        call_ensures(XdsUri::parse, (text,), parsed),
    ensures
        ({
            let scheme = seq!['x', 'd', 's', ':', '/', '/', '/'];
            match parsed {
                Ok(uri) => text@ == scheme + uri.target@ && uri.target@.len() > 0,
                Err(XdsUriError::NotXds) => forall|rest: Seq<char>| text@ != #[trigger] (scheme
                    + rest),
                Err(XdsUriError::MissingTarget) => text@ == scheme,
            }
        }),
{
    reveal_strlit("xds:///");
    let scheme = seq!['x', 'd', 's', ':', '/', '/', '/'];
    assert("xds:///"@ =~= scheme);
    assert forall|rest: Seq<char>| #[trigger] (scheme + rest).take(7) == scheme by {
        assert((scheme + rest).take(7) =~= scheme);
    }
}

/// A URI is written as `xds:///` and its target.
pub proof fn law_uri_is_written_with_its_scheme(uri: XdsUri, written: String)
    requires
        call_ensures(XdsUri::to_string, (&uri,), written),
    ensures
        written@ == seq!['x', 'd', 's', ':', '/', '/', '/'] + uri.target@,
{
    reveal_strlit("xds:///");
    assert("xds:///"@ =~= seq!['x', 'd', 's', ':', '/', '/', '/']);
}

/// A clone of a URI has its target.
pub proof fn law_cloned_uri_is_the_same(uri: XdsUri, copy: XdsUri)
    requires
        call_ensures(XdsUri::clone, (&uri,), copy),
    ensures
        copy.target@ == uri.target@,
{
}

/// The file that one variable names comes before the text that the other holds; without
/// either there is no bootstrap.
pub proof fn law_file_comes_before_inline_text(
    file: Option<String>,
    inline: Option<String>,
    source: Result<BootstrapSource, BootstrapError>,
)
    requires
        call_ensures(bootstrap_source, (file, inline), source),
    ensures
        file matches Some(path) ==> source == Ok::<BootstrapSource, BootstrapError>(
            BootstrapSource::File(path),
        ),
        file is None ==> (inline matches Some(text) ==> source == Ok::<
            BootstrapSource,
            BootstrapError,
        >(BootstrapSource::Inline(text))),
        file is None && inline is None ==> source == Err::<BootstrapSource, BootstrapError>(
            BootstrapError::NotSet,
        ),
{
}

/// A bootstrap configuration gives back what it was made of.
pub proof fn law_bootstrap_gives_back_what_it_was_made_of(
    server_uri: String,
    use_tls: bool,
    certificate_providers: InstanceMap<CertProviderConfig>,
    node: String,
    made: BootstrapConfig,
    server: &str,
    tls: bool,
    instances: &InstanceMap<CertProviderConfig>,
    described: &str,
)
    requires
        call_ensures(
            BootstrapConfig::new,
            (server_uri, use_tls, certificate_providers, node),
            made,
        ),
        call_ensures(BootstrapConfig::server_uri, (&made,), server),
        call_ensures(BootstrapConfig::use_tls, (&made,), tls),
        call_ensures(BootstrapConfig::certificate_providers, (&made,), instances),
        call_ensures(BootstrapConfig::node, (&made,), described),
    ensures
        server@ == server_uri@,
        tls == use_tls,
        instances@ == certificate_providers@,
        described@ == node@,
{
}

/// A bootstrap configuration and its clone give the same answers.
pub proof fn law_cloned_bootstrap_answers_alike(
    bootstrap: BootstrapConfig,
    copy: BootstrapConfig,
    server: (&str, &str),
    tls: (bool, bool),
    instances: (&InstanceMap<CertProviderConfig>, &InstanceMap<CertProviderConfig>),
    described: (&str, &str),
)
    requires
        call_ensures(BootstrapConfig::clone, (&bootstrap,), copy),
        call_ensures(BootstrapConfig::server_uri, (&bootstrap,), server.0),
        call_ensures(BootstrapConfig::server_uri, (&copy,), server.1),
        call_ensures(BootstrapConfig::use_tls, (&bootstrap,), tls.0),
        call_ensures(BootstrapConfig::use_tls, (&copy,), tls.1),
        call_ensures(BootstrapConfig::certificate_providers, (&bootstrap,), instances.0),
        call_ensures(BootstrapConfig::certificate_providers, (&copy,), instances.1),
        call_ensures(BootstrapConfig::node, (&bootstrap,), described.0),
        call_ensures(BootstrapConfig::node, (&copy,), described.1),
    ensures
        server.0@ == server.1@,
        tls.0 == tls.1,
        instances.0@ == instances.1@,
        described.0@ == described.1@,
{
}

/// A clone of a provider's configuration has its plugin and its text.
pub proof fn law_cloned_provider_config_is_the_same(
    config: CertProviderConfig,
    copy: CertProviderConfig,
)
    requires
        call_ensures(CertProviderConfig::clone, (&config,), copy),
    ensures
        copy.plugin_name@ == config.plugin_name@,
        copy.config@ == config.config@,
{
}

/// A bootstrap error is told in its own words, or by the two variables where neither is
/// set; a build error names the part that failed before it.
pub proof fn law_errors_are_told_in_words(
    cause: BootstrapError,
    provider: CertProviderError,
    told: String,
    bootstrap_told: String,
    provider_told: String,
)
    requires
        call_ensures(BootstrapError::message, (&cause,), told),
        call_ensures(BuildError::message, (&BuildError::Bootstrap(cause),), bootstrap_told),
        call_ensures(BuildError::message, (&BuildError::CertProvider(provider),), provider_told),
    ensures
        told@ == match cause {
            BootstrapError::NotSet =>
                "neither GRPC_XDS_BOOTSTRAP nor GRPC_XDS_BOOTSTRAP_CONFIG is set"@,
            BootstrapError::Load(reason) => reason@,
            BootstrapError::Validation(reason) => reason@,
        },
        bootstrap_told@ == "bootstrap: "@ + told@,
        provider_told@ == "certificate provider: "@ + provider.reason@,
{
}

/// Causes become build errors of their own kind, unchanged.
pub proof fn law_causes_become_build_errors(
    cause: BootstrapError,
    provider: CertProviderError,
    from_cause: BuildError,
    from_provider: BuildError,
)
    requires
        call_ensures(<BuildError as From<BootstrapError>>::from, (cause,), from_cause),
        call_ensures(<BuildError as From<CertProviderError>>::from, (provider,), from_provider),
    ensures
        from_cause == BuildError::Bootstrap(cause),
        from_provider == BuildError::CertProvider(provider),
{
}

/// Another handle on an optional value is there where the value is, and is that value.
pub proof fn law_shared_handle_is_the_same<T: ?Sized>(
    handle: Option<Arc<T>>,
    other: Option<Arc<T>>,
)
    requires
        call_ensures(share::<T>, (&handle,), other),
    ensures
        other == handle,
{
}

/// A new map has no instance under any name, and lists no name.
pub proof fn law_new_map_has_nothing<V>(
    made: InstanceMap<V>,
    name: &str,
    found: Option<&V>,
    names: Vec<String>,
)
    requires
        call_ensures(InstanceMap::<V>::new, (), made),
        call_ensures(InstanceMap::<V>::get, (&made, name), found),
        call_ensures(InstanceMap::<V>::names, (&made,), names),
    ensures
        found is None,
        names@.len() == 0,
{
    if names@.len() > 0 {
        assert(made@.dom().contains(names@[0]@));
    }
}

/// After an instance is put under a name, it is found under that name, and under every
/// other name is found what was found before.
pub proof fn law_inserted_instance_is_found<V>(
    map: InstanceMap<V>,
    name: String,
    value: V,
    after: InstanceMap<V>,
    asked: &str,
    found_before: Option<&V>,
    found_after: Option<&V>,
)
    requires
        call_ensures(InstanceMap::<V>::insert, (map, name, value), after),
        call_ensures(InstanceMap::<V>::get, (&map, asked), found_before),
        call_ensures(InstanceMap::<V>::get, (&after, asked), found_after),
    ensures
        asked@ == name@ ==> found_after == Some(&value),
        asked@ != name@ ==> found_after == found_before,
{
}

/// The names that a map lists are those under which something is found, each once.
pub proof fn law_listed_names_are_those_found<V>(
    map: InstanceMap<V>,
    names: Vec<String>,
    asked: &str,
    found: Option<&V>,
)
    requires
        call_ensures(InstanceMap::<V>::names, (&map,), names),
        call_ensures(InstanceMap::<V>::get, (&map, asked), found),
    ensures
        found is Some <==> exists|i: int| 0 <= i < names@.len() && #[trigger] names@[i]@ == asked@,
        forall|i: int, j: int|
            0 <= i < names@.len() && 0 <= j < names@.len() && #[trigger] names@[i]@
                == #[trigger] names@[j]@ ==> i == j,
{
    assert forall|i: int, j: int|
        0 <= i < names@.len() && 0 <= j < names@.len() && #[trigger] names@[i]@
            == #[trigger] names@[j]@ implies i == j by {
        if i < j {
            assert(names@[i]@ != names@[j]@);
        }
        if j < i {
            assert(names@[j]@ != names@[i]@);
        }
    }
}

/// Maps with one view find the same under every name, and what is found is what the view
/// has there.
pub proof fn law_view_is_what_is_found<V>(
    map: InstanceMap<V>,
    other: InstanceMap<V>,
    asked: &str,
    found: Option<&V>,
    found_in_other: Option<&V>,
)
    requires
        call_ensures(InstanceMap::<V>::get, (&map, asked), found),
        call_ensures(InstanceMap::<V>::get, (&other, asked), found_in_other),
    ensures
        found is Some <==> map@.dom().contains(asked@),
        found matches Some(value) ==> *value == map@[asked@],
        map@ == other@ ==> found == found_in_other,
{
}

/// A map that shares the instances of another finds the same under every name.
pub proof fn law_shared_map_finds_the_same<T: ?Sized>(
    map: InstanceMap<Arc<T>>,
    other: InstanceMap<Arc<T>>,
    asked: &str,
    found: Option<&Arc<T>>,
    found_in_other: Option<&Arc<T>>,
)
    requires
        call_ensures(InstanceMap::<Arc<T>>::share, (&map,), other),
        call_ensures(InstanceMap::<Arc<T>>::get, (&map, asked), found),
        call_ensures(InstanceMap::<Arc<T>>::get, (&other, asked), found_in_other),
    ensures
        found == found_in_other,
{
}

/// A clone of a map finds something under the same names, and each time a clone of what
/// the map finds.
pub proof fn law_cloned_map_finds_clones<V: Clone>(
    map: InstanceMap<V>,
    copy: InstanceMap<V>,
    asked: &str,
    found: Option<&V>,
    found_in_copy: Option<&V>,
)
    requires
        call_ensures(InstanceMap::<V>::clone, (&map,), copy),
        call_ensures(InstanceMap::<V>::get, (&map, asked), found),
        call_ensures(InstanceMap::<V>::get, (&copy, asked), found_in_copy),
    ensures
        match (found, found_in_copy) {
            (Some(a), Some(b)) => cloned::<V>(*a, *b),
            (None, None) => true,
            _ => false,
        },
{
    assert(map@.dom().contains(asked@) <==> copy@.dom().contains(asked@));
}

/// A new configuration has the given target, and neither bootstrap nor credentials.
pub proof fn law_new_config_has_the_target_alone<C: ?Sized>(
    uri: XdsUri,
    made: XdsChannelConfig<C>,
    target: &XdsUri,
    bootstrap: Option<&BootstrapConfig>,
    creds: Option<Arc<C>>,
)
    requires
        call_ensures(XdsChannelConfig::<C>::new, (uri,), made),
        call_ensures(XdsChannelConfig::<C>::target_uri, (&made,), target),
        call_ensures(XdsChannelConfig::<C>::bootstrap, (&made,), bootstrap),
        call_ensures(XdsChannelConfig::<C>::call_creds, (&made,), creds),
    ensures
        target.target@ == uri.target@,
        bootstrap is None,
        creds is None,
{
}

/// After a bootstrap is set, the configuration has one that says the same, and the target
/// and the credentials that it had.
pub proof fn law_set_bootstrap_is_given_back<C: ?Sized>(
    config: XdsChannelConfig<C>,
    bootstrap: BootstrapConfig,
    after: XdsChannelConfig<C>,
    set: Option<&BootstrapConfig>,
    target: (&XdsUri, &XdsUri),
    creds: (Option<Arc<C>>, Option<Arc<C>>),
)
    requires
        call_ensures(XdsChannelConfig::<C>::with_bootstrap, (config, bootstrap), after),
        call_ensures(XdsChannelConfig::<C>::bootstrap, (&after,), set),
        call_ensures(XdsChannelConfig::<C>::target_uri, (&config,), target.0),
        call_ensures(XdsChannelConfig::<C>::target_uri, (&after,), target.1),
        call_ensures(XdsChannelConfig::<C>::call_creds, (&config,), creds.0),
        call_ensures(XdsChannelConfig::<C>::call_creds, (&after,), creds.1),
    ensures
        set is Some,
        set->0@ == bootstrap@,
        target.1.target@ == target.0.target@,
        creds.1 == creds.0,
{
}

/// A bootstrap that was loaded eagerly is set as one that is given: the configuration has
/// it, and the target and the credentials that it had. Where the load failed there is no
/// configuration, but the error of the load.
pub proof fn law_loaded_bootstrap_is_given_back<C: ?Sized>(
    config: XdsChannelConfig<C>,
    loaded: Result<BootstrapConfig, BootstrapError>,
    result: Result<XdsChannelConfig<C>, BootstrapError>,
    set: Option<&BootstrapConfig>,
    target: (&XdsUri, &XdsUri),
    creds: (Option<Arc<C>>, Option<Arc<C>>),
)
    requires
        call_ensures(XdsChannelConfig::<C>::with_bootstrap_from_env, (config, loaded), result),
        result matches Ok(after) ==> {
            &&& call_ensures(XdsChannelConfig::<C>::bootstrap, (&after,), set)
            &&& call_ensures(XdsChannelConfig::<C>::target_uri, (&after,), target.1)
            &&& call_ensures(XdsChannelConfig::<C>::call_creds, (&after,), creds.1)
        },
        call_ensures(XdsChannelConfig::<C>::target_uri, (&config,), target.0),
        call_ensures(XdsChannelConfig::<C>::call_creds, (&config,), creds.0),
    ensures
        loaded matches Ok(bootstrap) ==> {
            &&& result is Ok
            &&& set is Some
            &&& set->0@ == bootstrap@
            &&& target.1.target@ == target.0.target@
            &&& creds.1 == creds.0
        },
        loaded matches Err(error) ==> result == Err::<XdsChannelConfig<C>, BootstrapError>(error),
{
}

/// After credentials are set, the configuration has them, and the target and the bootstrap
/// that it had.
pub proof fn law_set_credentials_are_given_back<C: ?Sized>(
    config: XdsChannelConfig<C>,
    creds: Arc<C>,
    after: XdsChannelConfig<C>,
    set: Option<Arc<C>>,
    target: (&XdsUri, &XdsUri),
    bootstrap: (Option<&BootstrapConfig>, Option<&BootstrapConfig>),
)
    requires
        call_ensures(XdsChannelConfig::<C>::with_call_credentials, (config, creds), after),
        call_ensures(XdsChannelConfig::<C>::call_creds, (&after,), set),
        call_ensures(XdsChannelConfig::<C>::target_uri, (&config,), target.0),
        call_ensures(XdsChannelConfig::<C>::target_uri, (&after,), target.1),
        call_ensures(XdsChannelConfig::<C>::bootstrap, (&config,), bootstrap.0),
        call_ensures(XdsChannelConfig::<C>::bootstrap, (&after,), bootstrap.1),
    ensures
        set == Some(creds),
        target.1.target@ == target.0.target@,
        match bootstrap {
            (Some(before), Some(now)) => now@ == before@,
            (None, None) => true,
            _ => false,
        },
{
}

/// A configuration and its clone give the same answers.
pub proof fn law_cloned_config_answers_alike<C: ?Sized>(
    config: XdsChannelConfig<C>,
    copy: XdsChannelConfig<C>,
    target: (&XdsUri, &XdsUri),
    bootstrap: (Option<&BootstrapConfig>, Option<&BootstrapConfig>),
    creds: (Option<Arc<C>>, Option<Arc<C>>),
)
    requires
        call_ensures(XdsChannelConfig::<C>::clone, (&config,), copy),
        call_ensures(XdsChannelConfig::<C>::target_uri, (&config,), target.0),
        call_ensures(XdsChannelConfig::<C>::target_uri, (&copy,), target.1),
        call_ensures(XdsChannelConfig::<C>::bootstrap, (&config,), bootstrap.0),
        call_ensures(XdsChannelConfig::<C>::bootstrap, (&copy,), bootstrap.1),
        call_ensures(XdsChannelConfig::<C>::call_creds, (&config,), creds.0),
        call_ensures(XdsChannelConfig::<C>::call_creds, (&copy,), creds.1),
    ensures
        target.1.target@ == target.0.target@,
        match bootstrap {
            (Some(a), Some(b)) => b@ == a@,
            (None, None) => true,
            _ => false,
        },
        creds.1 == creds.0,
{
}

/// The view of a configuration is what its answers say.
pub proof fn law_config_view_is_what_is_answered<C: ?Sized>(
    config: XdsChannelConfig<C>,
    target: &XdsUri,
    bootstrap: Option<&BootstrapConfig>,
    creds: Option<Arc<C>>,
)
    requires
        call_ensures(XdsChannelConfig::<C>::target_uri, (&config,), target),
        call_ensures(XdsChannelConfig::<C>::bootstrap, (&config,), bootstrap),
        call_ensures(XdsChannelConfig::<C>::call_creds, (&config,), creds),
    ensures
        config@.target == target.target@,
        config@.bootstrap is Some <==> bootstrap is Some,
        bootstrap matches Some(set) ==> config@.bootstrap->0 == set@,
        config@.call_creds == creds,
{
}

/// The view of a bootstrap configuration is what its answers say.
pub proof fn law_bootstrap_view_is_what_is_answered(
    bootstrap: BootstrapConfig,
    server: &str,
    tls: bool,
    instances: &InstanceMap<CertProviderConfig>,
    described: &str,
)
    requires
        call_ensures(BootstrapConfig::server_uri, (&bootstrap,), server),
        call_ensures(BootstrapConfig::use_tls, (&bootstrap,), tls),
        call_ensures(BootstrapConfig::certificate_providers, (&bootstrap,), instances),
        call_ensures(BootstrapConfig::node, (&bootstrap,), described),
    ensures
        bootstrap@.server_uri == server@,
        bootstrap@.use_tls == tls,
        bootstrap@.certificate_providers == instances@,
        bootstrap@.node == described@,
{
}

/// Metadata of a route configuration has, of each kind, the entries it was made of.
pub proof fn law_metadata_has_its_entries(
    untyped: InstanceMap<Vec<u8>>,
    typed: InstanceMap<TypedMetadata>,
    made: RouteConfigMetadata,
    name: &str,
    untyped_entry: (Option<&Vec<u8>>, Option<&Vec<u8>>),
    typed_entry: (Option<&TypedMetadata>, Option<&TypedMetadata>),
)
    requires
        call_ensures(RouteConfigMetadata::new, (untyped, typed), made),
        call_ensures(InstanceMap::<Vec<u8>>::get, (&untyped, name), untyped_entry.0),
        call_ensures(RouteConfigMetadata::filter_metadata, (&made, name), untyped_entry.1),
        call_ensures(InstanceMap::<TypedMetadata>::get, (&typed, name), typed_entry.0),
        call_ensures(RouteConfigMetadata::typed_filter_metadata, (&made, name), typed_entry.1),
    ensures
        untyped_entry.1 == untyped_entry.0,
        typed_entry.1 == typed_entry.0,
{
}

/// A clone of a decision names the same cluster and has the same hash.
pub proof fn law_cloned_decision_is_the_same(decision: RouteDecision, copy: RouteDecision)
    requires
        call_ensures(RouteDecision::clone, (&decision,), copy),
    ensures
        copy.cluster@ == decision.cluster@,
        copy.request_hash == decision.request_hash,
{
}

} // verus!
