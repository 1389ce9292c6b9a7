//! What callers observe of building a channel. Each law relates the results of calls to
//! each other and to the arguments of those calls.

use std::sync::Arc;

use vstd::prelude::*;

use crate::bootstrap::{BootstrapConfig, BootstrapError, CertProviderConfig};
use crate::channel::{
    accept_bootstrap, accepts, build_decision, decides, outcomes_of, registers, reports,
    resolve_providers, resolved, wires, BuildOutcomes, BuilderSummary, ChannelPlan, PlanView,
    ProviderSource, TlsSupport, XdsChannel, XdsChannelBuilder,
};
use crate::config::XdsChannelConfig;
use crate::error::{BuildError, CertProviderError};
use crate::instances::InstanceMap;
use crate::route::{
    PreRouteInterceptor, RouteConfigSnapshot, RouteInput, RouteRequest, RoutingCall,
    XdsRoutingService,
};
use crate::uri::XdsUri;

verus! {

/// Every builder can be set up and asked: nothing is asked of a call that accepts a
/// bootstrap, resolves names, registers with a builder, or reads off it.
pub proof fn law_every_builder_can_be_set_up<C: ?Sized, M: ?Sized, P: ?Sized, A, G, N>(
    loaded: Result<BootstrapConfig, BootstrapError>,
    tls: TlsSupport,
    instances: InstanceMap<CertProviderConfig>,
    registered: InstanceMap<Arc<P>>,
    config: XdsChannelConfig<C>,
    builder: XdsChannelBuilder<C, M, P>,
    recorder: Arc<M>,
    hooked: (XdsChannelBuilder<C, M, P>, Arc<dyn PreRouteInterceptor>),
    instance_name: A,
    provider: Arc<P>,
    bootstrap: BootstrapConfig,
    registry: Option<G>,
    node: N,
    label: &str,
) where A: Into<String>
    ensures
        call_requires(accept_bootstrap, (loaded, tls)),
        call_requires(resolve_providers::<P>, (&instances, &registered)),
        call_requires(XdsChannelBuilder::<C, M, P>::new, (config,)),
        call_requires(
            XdsChannelBuilder::<C, M, P>::with_metrics_recorder,
            (builder, recorder),
        ),
        call_requires(XdsChannelBuilder::<C, M, P>::with_pre_route_interceptor, hooked),
        call_requires(
            XdsChannelBuilder::<C, M, P>::with_certificate_provider::<A>,
            (builder, instance_name, provider),
        ),
        call_requires(XdsChannelBuilder::<C, M, P>::summary, (&builder, tls, label, label)),
        call_requires(XdsChannelBuilder::<C, M, P>::authority, (&builder,)),
        call_requires(
            XdsChannelBuilder::<C, M, P>::channel_plan::<G, N>,
            (&builder, &bootstrap, registry, node),
        ),
{
}

/// A bootstrap is accepted, as it is, if it does not ask for TLS or a TLS backend is built
/// in, and refused for want of TLS otherwise; a load that failed is reported as it is.
pub proof fn law_bootstrap_is_refused_only_for_want_of_tls(
    loaded: Result<BootstrapConfig, BootstrapError>,
    tls: TlsSupport,
    result: Result<BootstrapConfig, BuildError>,
    asks_for_tls: bool,
)
    requires
        call_ensures(accept_bootstrap, (loaded, tls), result),
        loaded matches Ok(bootstrap) ==> call_ensures(
            BootstrapConfig::use_tls,
            (&bootstrap,),
            asks_for_tls,
        ),
    ensures
        loaded matches Ok(bootstrap) ==> {
            &&& result is Ok <==> tls.backend || !asks_for_tls
            &&& result is Ok ==> result->Ok_0 == bootstrap
            &&& result is Err ==> result->Err_0 is Bootstrap
                && result->Err_0->Bootstrap_0 is Validation
            &&& result is Err ==> result->Err_0->Bootstrap_0->Validation_0@
                == "TLS requested by bootstrap but no TLS feature enabled (enable tls-ring or tls-aws-lc)"@
        },
        loaded matches Err(cause) ==> result == Err::<BootstrapConfig, BuildError>(
            BuildError::Bootstrap(cause),
        ),
{
}

/// Each name resolves to the registered provider, where one is found under it, and then
/// along with what the bootstrap has there; otherwise to what the bootstrap has, if it has
/// anything.
pub proof fn law_names_resolve_to_the_registered_first<P: ?Sized>(
    bootstrap: InstanceMap<CertProviderConfig>,
    registered: InstanceMap<Arc<P>>,
    sources: InstanceMap<ProviderSource<P>>,
    name: &str,
    configured: Option<&CertProviderConfig>,
    ours: Option<&Arc<P>>,
    found: Option<&ProviderSource<P>>,
)
    requires
        call_ensures(resolve_providers::<P>, (&bootstrap, &registered), sources),
        call_ensures(InstanceMap::<CertProviderConfig>::get, (&bootstrap, name), configured),
        call_ensures(InstanceMap::<Arc<P>>::get, (&registered, name), ours),
        call_ensures(InstanceMap::<ProviderSource<P>>::get, (&sources, name), found),
    ensures
        match (ours, configured) {
            (Some(provider), Some(config)) => found is Some && *found->0
                == ProviderSource::<P>::Registered {
                provider: *provider,
                shadowed: Some(*config),
            },
            (Some(provider), None) => found is Some && *found->0
                == ProviderSource::<P>::Registered { provider: *provider, shadowed: None },
            (None, Some(config)) => found is Some && *found->0
                == ProviderSource::<P>::Bootstrap(*config),
            (None, None) => found is None,
        },
{
}

/// A new builder has the given configuration, whose target is its authority, and neither
/// recorder nor hook nor certificate providers.
pub proof fn law_new_builder_has_the_config_alone<C: ?Sized, M: ?Sized, P: ?Sized>(
    config: XdsChannelConfig<C>,
    made: XdsChannelBuilder<C, M, P>,
    target: &XdsUri,
    recorder: Option<Arc<M>>,
    hook: Option<Arc<dyn PreRouteInterceptor>>,
    authority: Arc<str>,
    shown: BuilderSummary<'_, C>,
    tls: TlsSupport,
    label: &str,
    other_label: &str,
)
    requires
        call_ensures(XdsChannelBuilder::<C, M, P>::new, (config,), made),
        call_ensures(XdsChannelConfig::<C>::target_uri, (&config,), target),
        call_ensures(XdsChannelBuilder::<C, M, P>::recorder, (&made,), recorder),
        call_ensures(XdsChannelBuilder::<C, M, P>::pre_route, (&made,), hook),
        call_ensures(XdsChannelBuilder::<C, M, P>::authority, (&made,), authority),
        call_ensures(
            XdsChannelBuilder::<C, M, P>::summary,
            (&made, tls, label, other_label),
            shown,
        ),
    ensures
        recorder is None,
        hook is None,
        authority@ == target.target@,
        made@.cert_providers == Map::<Seq<char>, Arc<P>>::empty(),
        *made@.config == config,
        *shown.config == config,
        shown.recorder@ == "None"@,
        shown.pre_route@ == "None"@,
        shown.cert_providers is Some <==> tls.certificate_providers,
        shown.cert_providers matches Some(names) ==> names@.len() == 0,
{
    if let Some(names) = shown.cert_providers {
        if names@.len() > 0 {
            assert(made@.cert_providers.dom().contains(names@[0]@));
        }
    }
}

/// The view of a builder is what its answers say.
pub proof fn law_builder_view_is_what_is_answered<C: ?Sized, M: ?Sized, P: ?Sized>(
    builder: XdsChannelBuilder<C, M, P>,
    recorder: Option<Arc<M>>,
    hook: Option<Arc<dyn PreRouteInterceptor>>,
    authority: Arc<str>,
    shown: BuilderSummary<'_, C>,
    tls: TlsSupport,
    label: &str,
    other_label: &str,
)
    requires
        call_ensures(XdsChannelBuilder::<C, M, P>::recorder, (&builder,), recorder),
        call_ensures(XdsChannelBuilder::<C, M, P>::pre_route, (&builder,), hook),
        call_ensures(XdsChannelBuilder::<C, M, P>::authority, (&builder,), authority),
        call_ensures(
            XdsChannelBuilder::<C, M, P>::summary,
            (&builder, tls, label, other_label),
            shown,
        ),
    ensures
        builder@.recorder == recorder,
        builder@.pre_route == hook,
        builder@.config@.target == authority@,
        *builder@.config == *shown.config,
        shown.recorder@ == if recorder is Some {
            label@
        } else {
            "None"@
        },
        shown.pre_route@ == if hook is Some {
            other_label@
        } else {
            "None"@
        },
        shown.cert_providers is Some <==> tls.certificate_providers,
        shown.cert_providers matches Some(names) ==> {
            &&& forall|name: Seq<char>| #[trigger]
                builder@.cert_providers.dom().contains(name) <==> exists|i: int|
                    0 <= i < names@.len() && #[trigger] names@[i]@ == name
            &&& forall|i: int, j: int|
                0 <= i < j < names@.len() ==> #[trigger] names@[i]@ != #[trigger] names@[j]@
        },
{
}

/// After a recorder is set, the builder has it, and is otherwise as it was.
pub proof fn law_set_recorder_is_given_back<C: ?Sized, M: ?Sized, P: ?Sized>(
    builder: XdsChannelBuilder<C, M, P>,
    given: Arc<M>,
    after: XdsChannelBuilder<C, M, P>,
    recorder: (Option<Arc<M>>, Option<Arc<M>>),
    hook: (Option<Arc<dyn PreRouteInterceptor>>, Option<Arc<dyn PreRouteInterceptor>>),
    authority: (Arc<str>, Arc<str>),
)
    requires
        call_ensures(
            XdsChannelBuilder::<C, M, P>::with_metrics_recorder,
            (builder, given),
            after,
        ),
        call_ensures(XdsChannelBuilder::<C, M, P>::recorder, (&builder,), recorder.0),
        call_ensures(XdsChannelBuilder::<C, M, P>::pre_route, (&builder,), hook.0),
        call_ensures(XdsChannelBuilder::<C, M, P>::authority, (&builder,), authority.0),
        call_ensures(XdsChannelBuilder::<C, M, P>::recorder, (&after,), recorder.1),
        call_ensures(XdsChannelBuilder::<C, M, P>::pre_route, (&after,), hook.1),
        call_ensures(XdsChannelBuilder::<C, M, P>::authority, (&after,), authority.1),
    ensures
        recorder.1 == Some(given),
        hook.1 == hook.0,
        authority.1@ == authority.0@,
        after@.config == builder@.config,
        after@.cert_providers == builder@.cert_providers,
{
}

/// Setting up metrics for a meter needs no more than that the recorder can be made for it,
/// and leaves a builder that has what was made, and is otherwise as it was.
pub proof fn law_meter_gets_its_recorder<C: ?Sized, M: ?Sized, P: ?Sized, E, F>(
    builder: XdsChannelBuilder<C, M, P>,
    meter: E,
    recorder_for: F,
    after: XdsChannelBuilder<C, M, P>,
    recorder: (Option<Arc<M>>, Option<Arc<M>>),
    hook: (Option<Arc<dyn PreRouteInterceptor>>, Option<Arc<dyn PreRouteInterceptor>>),
    authority: (Arc<str>, Arc<str>),
) where F: FnOnce(E) -> Arc<M>
    requires
        call_requires(recorder_for, (meter,)),
        call_ensures(
            XdsChannelBuilder::<C, M, P>::with_otel_metrics::<E, F>,
            (builder, meter, recorder_for),
            after,
        ),
        call_ensures(XdsChannelBuilder::<C, M, P>::recorder, (&builder,), recorder.0),
        call_ensures(XdsChannelBuilder::<C, M, P>::pre_route, (&builder,), hook.0),
        call_ensures(XdsChannelBuilder::<C, M, P>::authority, (&builder,), authority.0),
        call_ensures(XdsChannelBuilder::<C, M, P>::recorder, (&after,), recorder.1),
        call_ensures(XdsChannelBuilder::<C, M, P>::pre_route, (&after,), hook.1),
        call_ensures(XdsChannelBuilder::<C, M, P>::authority, (&after,), authority.1),
    ensures
        call_requires(
            XdsChannelBuilder::<C, M, P>::with_otel_metrics::<E, F>,
            (builder, meter, recorder_for),
        ),
        recorder.1 is Some,
        call_ensures(recorder_for, (meter,), recorder.1->0),
        hook.1 == hook.0,
        authority.1@ == authority.0@,
        after@.config == builder@.config,
        after@.cert_providers == builder@.cert_providers,
{
}

/// After a hook is registered, the builder has it, and is otherwise as it was.
pub proof fn law_registered_hook_is_given_back<C: ?Sized, M: ?Sized, P: ?Sized>(
    given: (XdsChannelBuilder<C, M, P>, Arc<dyn PreRouteInterceptor>),
    after: XdsChannelBuilder<C, M, P>,
    recorder: (Option<Arc<M>>, Option<Arc<M>>),
    hook: (Option<Arc<dyn PreRouteInterceptor>>, Option<Arc<dyn PreRouteInterceptor>>),
    authority: (Arc<str>, Arc<str>),
)
    requires
        call_ensures(XdsChannelBuilder::<C, M, P>::with_pre_route_interceptor, given, after),
        call_ensures(XdsChannelBuilder::<C, M, P>::recorder, (&given.0,), recorder.0),
        call_ensures(XdsChannelBuilder::<C, M, P>::pre_route, (&given.0,), hook.0),
        call_ensures(XdsChannelBuilder::<C, M, P>::authority, (&given.0,), authority.0),
        call_ensures(XdsChannelBuilder::<C, M, P>::recorder, (&after,), recorder.1),
        call_ensures(XdsChannelBuilder::<C, M, P>::pre_route, (&after,), hook.1),
        call_ensures(XdsChannelBuilder::<C, M, P>::authority, (&after,), authority.1),
    ensures
        hook.1 is Some,
        hook.1->0 == given.1,
        recorder.1 == recorder.0,
        authority.1@ == authority.0@,
        after@.config == given.0@.config,
        after@.cert_providers == given.0@.cert_providers,
{
}

/// After a provider is registered, the builder has it under that name, every other
/// provider that it had, and is otherwise as it was.
pub proof fn law_registered_provider_is_kept<C: ?Sized, M: ?Sized, P: ?Sized>(
    builder: XdsChannelBuilder<C, M, P>,
    name: String,
    provider: Arc<P>,
    after: XdsChannelBuilder<C, M, P>,
    recorder: (Option<Arc<M>>, Option<Arc<M>>),
    hook: (Option<Arc<dyn PreRouteInterceptor>>, Option<Arc<dyn PreRouteInterceptor>>),
    authority: (Arc<str>, Arc<str>),
)
    requires
        call_ensures(
            XdsChannelBuilder::<C, M, P>::with_provider_named,
            (builder, name, provider),
            after,
        ),
        call_ensures(XdsChannelBuilder::<C, M, P>::recorder, (&builder,), recorder.0),
        call_ensures(XdsChannelBuilder::<C, M, P>::pre_route, (&builder,), hook.0),
        call_ensures(XdsChannelBuilder::<C, M, P>::authority, (&builder,), authority.0),
        call_ensures(XdsChannelBuilder::<C, M, P>::recorder, (&after,), recorder.1),
        call_ensures(XdsChannelBuilder::<C, M, P>::pre_route, (&after,), hook.1),
        call_ensures(XdsChannelBuilder::<C, M, P>::authority, (&after,), authority.1),
    ensures
        after@.cert_providers == builder@.cert_providers.insert(name@, provider),
        recorder.1 == recorder.0,
        hook.1 == hook.0,
        authority.1@ == authority.0@,
        after@.config == builder@.config,
{
}

/// As [`law_registered_provider_is_kept`], under the name that the conversion gives, which
/// is handed back.
pub proof fn law_provider_is_kept_under_the_converted_name<C: ?Sized, M: ?Sized, P: ?Sized, A>(
    builder: XdsChannelBuilder<C, M, P>,
    instance_name: A,
    provider: Arc<P>,
    after: XdsChannelBuilder<C, M, P>,
    recorder: (Option<Arc<M>>, Option<Arc<M>>),
    hook: (Option<Arc<dyn PreRouteInterceptor>>, Option<Arc<dyn PreRouteInterceptor>>),
    authority: (Arc<str>, Arc<str>),
) -> (name: String) where A: Into<String>
    requires
        call_ensures(
            XdsChannelBuilder::<C, M, P>::with_certificate_provider::<A>,
            (builder, instance_name, provider),
            after,
        ),
        call_ensures(XdsChannelBuilder::<C, M, P>::recorder, (&builder,), recorder.0),
        call_ensures(XdsChannelBuilder::<C, M, P>::pre_route, (&builder,), hook.0),
        call_ensures(XdsChannelBuilder::<C, M, P>::authority, (&builder,), authority.0),
        call_ensures(XdsChannelBuilder::<C, M, P>::recorder, (&after,), recorder.1),
        call_ensures(XdsChannelBuilder::<C, M, P>::pre_route, (&after,), hook.1),
        call_ensures(XdsChannelBuilder::<C, M, P>::authority, (&after,), authority.1),
    ensures
        call_ensures(A::into, (instance_name,), name),
        after@.cert_providers == builder@.cert_providers.insert(name@, provider),
        recorder.1 == recorder.0,
        hook.1 == hook.0,
        authority.1@ == authority.0@,
        after@.config == builder@.config,
{
    choose|name: String| #[trigger]
        call_ensures(A::into, (instance_name,), name) && after@.cert_providers
            == builder@.cert_providers.insert(name@, provider)
}

/// A builder and its clone give the same answers, and have the same configuration and the
/// same certificate providers.
pub proof fn law_cloned_builder_answers_alike<C: ?Sized, M: ?Sized, P: ?Sized>(
    builder: XdsChannelBuilder<C, M, P>,
    copy: XdsChannelBuilder<C, M, P>,
    recorder: (Option<Arc<M>>, Option<Arc<M>>),
    hook: (Option<Arc<dyn PreRouteInterceptor>>, Option<Arc<dyn PreRouteInterceptor>>),
    authority: (Arc<str>, Arc<str>),
)
    requires
        call_ensures(XdsChannelBuilder::<C, M, P>::clone, (&builder,), copy),
        call_ensures(XdsChannelBuilder::<C, M, P>::recorder, (&builder,), recorder.0),
        call_ensures(XdsChannelBuilder::<C, M, P>::pre_route, (&builder,), hook.0),
        call_ensures(XdsChannelBuilder::<C, M, P>::authority, (&builder,), authority.0),
        call_ensures(XdsChannelBuilder::<C, M, P>::recorder, (&copy,), recorder.1),
        call_ensures(XdsChannelBuilder::<C, M, P>::pre_route, (&copy,), hook.1),
        call_ensures(XdsChannelBuilder::<C, M, P>::authority, (&copy,), authority.1),
    ensures
        recorder.1 == recorder.0,
        hook.1 == hook.0,
        authority.1@ == authority.0@,
        copy@.config == builder@.config,
        copy@.cert_providers == builder@.cert_providers,
{
}

/// A channel gives back the configuration that it was built from; its clone has the same,
/// keeps the same alive, and goes to a clone of its service.
pub proof fn law_cloned_channel_shares<S: Clone, C: ?Sized, T>(
    channel: XdsChannel<S, C, T>,
    copy: XdsChannel<S, C, T>,
    config: (&XdsChannelConfig<C>, &XdsChannelConfig<C>),
)
    requires
        call_ensures(XdsChannel::<S, C, T>::clone, (&channel,), copy),
        call_ensures(XdsChannel::<S, C, T>::config, (&channel,), config.0),
        call_ensures(XdsChannel::<S, C, T>::config, (&copy,), config.1),
    ensures
        *config.0 == *channel.built_from(),
        *config.1 == *config.0,
        copy.keeps_alive() == channel.keeps_alive(),
        cloned::<S>(channel.forwards_to(), copy.forwards_to()),
{
}

/// Through a channel its inner service can be changed, and nothing else of it.
pub proof fn law_only_the_inner_service_is_lent<S, C: ?Sized, T>(
    channel: &mut XdsChannel<S, C, T>,
    inner: &mut S,
)
    requires
        call_ensures(XdsChannel::<S, C, T>::inner_mut, (channel,), inner),
    ensures
        *old(inner) == old(channel).forwards_to(),
        final(channel).forwards_to() == *final(inner),
        final(channel).built_from() == old(channel).built_from(),
        final(channel).keeps_alive() == old(channel).keeps_alive(),
{
}

/// A plan says what the bootstrap, the configuration and the builder say: the server and
/// its transport are the bootstrap's, the listener is the authority and the reported target
/// its URI, and credentials and recorder are there where they were set.
pub proof fn law_plan_says_what_was_configured<C: ?Sized, M: ?Sized, P: ?Sized, G, N>(
    builder: XdsChannelBuilder<C, M, P>,
    bootstrap: BootstrapConfig,
    registry: Option<G>,
    node: N,
    plan: ChannelPlan<C, M, G, N>,
    server: &str,
    asks_for_tls: bool,
    authority: Arc<str>,
    recorder: Option<Arc<M>>,
)
    requires
        call_ensures(
            XdsChannelBuilder::<C, M, P>::channel_plan::<G, N>,
            (&builder, &bootstrap, registry, node),
            plan,
        ),
        call_ensures(BootstrapConfig::server_uri, (&bootstrap,), server),
        call_ensures(BootstrapConfig::use_tls, (&bootstrap,), asks_for_tls),
        call_ensures(XdsChannelBuilder::<C, M, P>::authority, (&builder,), authority),
        call_ensures(XdsChannelBuilder::<C, M, P>::recorder, (&builder,), recorder),
    ensures
        plan.server_uri@ == server@,
        plan.tls == asks_for_tls,
        plan.listener_name@ == authority@,
        plan.target@ == seq!['x', 'd', 's', ':', '/', '/', '/'] + authority@,
        plan.recorder == recorder,
        plan.call_creds == builder@.config@.call_creds,
        plan.registry == registry,
        plan.node == node,
{
    reveal_strlit("xds:///");
    assert("xds:///"@ =~= seq!['x', 'd', 's', ':', '/', '/', '/']);
}

/// Planning comes to what its steps came to, and each step is given what is its own:
/// the bootstrap is the configured one or else what `load` gave; its server and transport
/// are those of the plan, and a transport that asks for TLS is taken only with a backend;
/// where certificate providers are available, the registry is what `init` made of sources
/// in which every name that is registered or in the bootstrap, and no other, stands for the
/// registered provider or else for the bootstrap's instance; and the node is what `convert`
/// made of the bootstrap's description. An error is that of a step which was reached and
/// failed, or tells of the missing backend for a bootstrap that asks for TLS. What
/// was taken on the way, as far as it was reached, is handed back: the bootstrap, the
/// sources and the description.
pub proof fn law_planning_comes_to_what_its_steps_did<C: ?Sized, M: ?Sized, P: ?Sized, G, N, L, I, K>(
    builder: XdsChannelBuilder<C, M, P>,
    tls: TlsSupport,
    load: L,
    init: I,
    convert: K,
    result: Result<ChannelPlan<C, M, G, N>, BuildError>,
) -> (taken: (
    Option<BootstrapConfig>,
    Option<InstanceMap<ProviderSource<P>>>,
    Option<String>,
)) where
    L: FnOnce() -> Result<BootstrapConfig, BootstrapError>,
    I: FnOnce(InstanceMap<ProviderSource<P>>) -> Result<G, CertProviderError>,
    K: FnOnce(String) -> Result<N, BootstrapError>,

    requires
        call_ensures(
            XdsChannelBuilder::<C, M, P>::plan_grpc_channel::<G, N, L, I, K>,
            (&builder, tls, load, init, convert),
            result,
        ),
    ensures
        taken.0 matches Some(bootstrap) ==> match builder@.config@.bootstrap {
            Some(set) => bootstrap@ == set,
            None => call_ensures(load, (), Ok(bootstrap)),
        },
        taken.1 matches Some(sources) ==> {
            &&& tls.certificate_providers
            &&& taken.0 is Some
            &&& taken.0->0@.use_tls ==> tls.backend
            &&& forall|name: Seq<char>| #[trigger]
                sources@.dom().contains(name) <==> builder@.cert_providers.dom().contains(name)
                    || taken.0->0@.certificate_providers.dom().contains(name)
            &&& forall|name: Seq<char>|
                builder@.cert_providers.dom().contains(name) ==> #[trigger] sources@[name]
                    == ProviderSource::<P>::Registered {
                    provider: builder@.cert_providers[name],
                    shadowed: if taken.0->0@.certificate_providers.dom().contains(name) {
                        Some(taken.0->0@.certificate_providers[name])
                    } else {
                        None
                    },
                }
            &&& forall|name: Seq<char>|
                !builder@.cert_providers.dom().contains(name)
                    && taken.0->0@.certificate_providers.dom().contains(name) ==> #[trigger] sources@[name]
                    == ProviderSource::<P>::Bootstrap(taken.0->0@.certificate_providers[name])
        },
        taken.2 matches Some(text) ==> {
            &&& taken.0 is Some
            &&& taken.0->0@.use_tls ==> tls.backend
            &&& text@ == taken.0->0@.node
            &&& tls.certificate_providers ==> taken.1 is Some && exists|ready: G| #[trigger]
                call_ensures(init, (taken.1->0,), Ok(ready))
        },
        result matches Ok(plan) ==> {
            &&& taken.0 is Some
            &&& plan.tls == taken.0->0@.use_tls
            &&& plan.server_uri@ == taken.0->0@.server_uri
            &&& plan.listener_name@ == builder@.config@.target
            &&& plan.target@ == seq!['x', 'd', 's', ':', '/', '/', '/'] + builder@.config@.target
            &&& plan.call_creds == builder@.config@.call_creds
            &&& plan.recorder == builder@.recorder
            &&& plan.registry is Some <==> tls.certificate_providers
            &&& tls.certificate_providers ==> taken.1 is Some && call_ensures(
                init,
                (taken.1->0,),
                Ok(plan.registry->0),
            )
            &&& taken.2 is Some
            &&& call_ensures(convert, (taken.2->0,), Ok(plan.node))
        },
        result matches Err(error) ==> {
            ||| {
                &&& taken.0 is None && builder@.config@.bootstrap is None && error is Bootstrap
                &&& call_ensures(
                    load,
                    (),
                    Err::<BootstrapConfig, BootstrapError>(error->Bootstrap_0),
                )
            }
            ||| {
                &&& taken.0 is Some && taken.1 is None && taken.2 is None
                &&& taken.0->0@.use_tls && !tls.backend
                &&& error is Bootstrap && error->Bootstrap_0 is Validation
                &&& error->Bootstrap_0->Validation_0@
                    == "TLS requested by bootstrap but no TLS feature enabled (enable tls-ring or tls-aws-lc)"@
            }
            ||| {
                &&& taken.1 is Some && taken.2 is None && error is CertProvider
                &&& call_ensures(
                    init,
                    (taken.1->0,),
                    Err::<G, CertProviderError>(error->CertProvider_0),
                )
            }
            ||| {
                &&& taken.2 is Some && error is Bootstrap
                &&& call_ensures(
                    convert,
                    (taken.2->0,),
                    Err::<N, BootstrapError>(error->Bootstrap_0),
                )
            }
        },
{
    reveal_strlit("xds:///");
    assert("xds:///"@ =~= seq!['x', 'd', 's', ':', '/', '/', '/']);
    let outcomes = choose|outcomes: BuildOutcomes<G, N>| #[trigger]
        outcomes_of(builder@, tls, load, init, convert, outcomes) && match build_decision(
            builder@,
            tls,
            outcomes,
        ) {
            Ok(decided) => result is Ok && result->Ok_0@ == decided,
            Err(failure) => result is Err && reports(result->Err_0, failure),
        };
    let bootstrap = outcomes.loaded->Ok_0;
    let sources = choose|sources: InstanceMap<ProviderSource<P>>| #[trigger]
        call_ensures(init, (sources,), outcomes.registry->0) && sources@ == resolved(
            bootstrap@.certificate_providers,
            builder@.cert_providers,
        );
    let text = choose|text: String| #[trigger]
        call_ensures(convert, (text,), outcomes.node->0) && text@ == bootstrap@.node;
    if outcomes.registry matches Some(Ok(_)) {
        assert(call_ensures(init, (sources,), Ok(outcomes.registry->0->Ok_0)));
    }
    let taken = (
        if outcomes.loaded is Ok {
            Some(bootstrap)
        } else {
            None
        },
        if outcomes.registry is Some {
            Some(sources)
        } else {
            None
        },
        if outcomes.node is Some {
            Some(text)
        } else {
            None
        },
    );
    taken
}

/// Planning asks of its steps only that each can be taken where its turn comes, with what
/// it is then given: of `load` only without a configured bootstrap, of `init` only where
/// certificate providers are available, of `init` and `convert` only for a bootstrap whose
/// transport is available, and of `convert` only after `init` went well.
pub proof fn law_planning_asks_for_the_steps_in_turn<C: ?Sized, M: ?Sized, P: ?Sized, G, N, L, I, K>(
    builder: XdsChannelBuilder<C, M, P>,
    tls: TlsSupport,
    load: L,
    init: I,
    convert: K,
) where
    L: FnOnce() -> Result<BootstrapConfig, BootstrapError>,
    I: FnOnce(InstanceMap<ProviderSource<P>>) -> Result<G, CertProviderError>,
    K: FnOnce(String) -> Result<N, BootstrapError>,

    requires
        builder@.config@.bootstrap is None ==> call_requires(load, ()),
        forall|bootstrap: BootstrapConfig, sources: InstanceMap<ProviderSource<P>>|
            #![trigger bootstrap@, call_requires(init, (sources,))]
            tls.certificate_providers && (bootstrap@.use_tls ==> tls.backend) && {
                &&& match builder@.config@.bootstrap {
                    Some(set) => bootstrap@ == set,
                    None => call_ensures(load, (), Ok(bootstrap)),
                }
                &&& forall|name: Seq<char>| #[trigger]
                    sources@.dom().contains(name) <==> builder@.cert_providers.dom().contains(name)
                        || bootstrap@.certificate_providers.dom().contains(name)
                &&& forall|name: Seq<char>|
                    builder@.cert_providers.dom().contains(name) ==> #[trigger] sources@[name]
                        == ProviderSource::<P>::Registered {
                        provider: builder@.cert_providers[name],
                        shadowed: if bootstrap@.certificate_providers.dom().contains(name) {
                            Some(bootstrap@.certificate_providers[name])
                        } else {
                            None
                        },
                    }
                &&& forall|name: Seq<char>|
                    !builder@.cert_providers.dom().contains(name)
                        && bootstrap@.certificate_providers.dom().contains(name) ==> #[trigger] sources@[name]
                        == ProviderSource::<P>::Bootstrap(bootstrap@.certificate_providers[name])
            } ==> call_requires(init, (sources,)),
        forall|bootstrap: BootstrapConfig, sources: InstanceMap<ProviderSource<P>>, text: String|
            #![trigger bootstrap@, sources@, call_requires(convert, (text,))]
            (bootstrap@.use_tls ==> tls.backend) && text@ == bootstrap@.node && {
                &&& match builder@.config@.bootstrap {
                    Some(set) => bootstrap@ == set,
                    None => call_ensures(load, (), Ok(bootstrap)),
                }
                &&& tls.certificate_providers ==> {
                    &&& forall|name: Seq<char>| #[trigger]
                        sources@.dom().contains(name) <==> builder@.cert_providers.dom().contains(name)
                            || bootstrap@.certificate_providers.dom().contains(name)
                    &&& forall|name: Seq<char>|
                        builder@.cert_providers.dom().contains(name) ==> #[trigger] sources@[name]
                            == ProviderSource::<P>::Registered {
                            provider: builder@.cert_providers[name],
                            shadowed: if bootstrap@.certificate_providers.dom().contains(name) {
                                Some(bootstrap@.certificate_providers[name])
                            } else {
                                None
                            },
                        }
                    &&& forall|name: Seq<char>|
                        !builder@.cert_providers.dom().contains(name)
                            && bootstrap@.certificate_providers.dom().contains(name) ==> #[trigger] sources@[name]
                            == ProviderSource::<P>::Bootstrap(bootstrap@.certificate_providers[name])
                    &&& exists|ready: G| #[trigger] call_ensures(init, (sources,), Ok(ready))
                }
            } ==> call_requires(convert, (text,)),
    ensures
        call_requires(
            XdsChannelBuilder::<C, M, P>::plan_grpc_channel::<G, N, L, I, K>,
            (&builder, tls, load, init, convert),
        ),
{
    assert forall|bootstrap: BootstrapConfig, sources: InstanceMap<ProviderSource<P>>|
        #![trigger accepts(builder@, tls, load, bootstrap), call_requires(init, (sources,))]
        tls.certificate_providers && accepts(builder@, tls, load, bootstrap) && sources@
            == resolved(
            bootstrap@.certificate_providers,
            builder@.cert_providers,
        ) implies call_requires(init, (sources,)) by {
        let seen = bootstrap@;
    }
    assert forall|
        bootstrap: BootstrapConfig,
        registry: Option<Result<G, CertProviderError>>,
        text: String,
    |
        #![trigger registers(builder@, tls, init, bootstrap, registry), call_requires(convert, (text,))]
        accepts(builder@, tls, load, bootstrap) && registers(
            builder@,
            tls,
            init,
            bootstrap,
            registry,
        ) && !(registry matches Some(Err(_))) && text@ == bootstrap@.node implies call_requires(
        convert,
        (text,),
    ) by {
        if tls.certificate_providers {
            let sources = choose|sources: InstanceMap<ProviderSource<P>>| #[trigger]
                call_ensures(init, (sources,), registry->0) && sources@ == resolved(
                    bootstrap@.certificate_providers,
                    builder@.cert_providers,
                );
            assert(call_ensures(init, (sources,), Ok(registry->0->Ok_0)));
            let seen = (bootstrap@, sources@);
        } else {
            let sources: InstanceMap<ProviderSource<P>> = arbitrary();
            let seen = (bootstrap@, sources@);
        }
    }
}

/// Where a bootstrap does not ask for TLS, or a TLS backend is built in, and the steps can
/// only go well, planning comes to a plan; where every bootstrap to start from asks for TLS
/// and no backend is built in, it comes to an error.
pub proof fn law_planning_succeeds_where_the_steps_do<C: ?Sized, M: ?Sized, P: ?Sized, G, N, L, I, K>(
    builder: XdsChannelBuilder<C, M, P>,
    tls: TlsSupport,
    load: L,
    init: I,
    convert: K,
    result: Result<ChannelPlan<C, M, G, N>, BuildError>,
) where
    L: FnOnce() -> Result<BootstrapConfig, BootstrapError>,
    I: FnOnce(InstanceMap<ProviderSource<P>>) -> Result<G, CertProviderError>,
    K: FnOnce(String) -> Result<N, BootstrapError>,

    requires
        call_ensures(
            XdsChannelBuilder::<C, M, P>::plan_grpc_channel::<G, N, L, I, K>,
            (&builder, tls, load, init, convert),
            result,
        ),
        builder@.config@.bootstrap is None ==> forall|
            loaded: Result<BootstrapConfig, BootstrapError>,
        | #[trigger] call_ensures(load, (), loaded) ==> loaded is Ok,
    ensures
        ({
            &&& match builder@.config@.bootstrap {
                Some(set) => tls.backend || !set.use_tls,
                None => forall|bootstrap: BootstrapConfig| #[trigger]
                    call_ensures(load, (), Ok(bootstrap)) ==> tls.backend || !bootstrap@.use_tls,
            }
            &&& tls.certificate_providers ==> forall|
                sources: InstanceMap<ProviderSource<P>>,
                made: Result<G, CertProviderError>,
            | #[trigger] call_ensures(init, (sources,), made) ==> made is Ok
            &&& forall|text: String, made: Result<N, BootstrapError>| #[trigger]
                call_ensures(convert, (text,), made) ==> made is Ok
        }) ==> result is Ok,
        (match builder@.config@.bootstrap {
            Some(set) => !tls.backend && set.use_tls,
            None => forall|bootstrap: BootstrapConfig| #[trigger]
                call_ensures(load, (), Ok(bootstrap)) ==> !tls.backend && bootstrap@.use_tls,
        }) ==> result is Err,
{
    let taken = law_planning_comes_to_what_its_steps_did(
        builder,
        tls,
        load,
        init,
        convert,
        result,
    );
}

/// A build comes to what its steps came to, as planning does, and connects as planned:
/// the bootstrap is the configured one or else what `load` gave; its server and transport
/// are those of the plan, and a transport that asks for TLS is taken only with a backend;
/// where certificate providers are available, the registry is what `init` made of sources
/// in which every name that is registered or in the bootstrap, and no other, stands for the
/// registered provider or else for the bootstrap's instance; and the node is what `convert`
/// made of the bootstrap's description. An error is that of a step which was reached and
/// failed, or tells of the missing backend for a bootstrap that asks for TLS. A
/// channel routes with the router that `connect` gave, the registered hook and the target,
/// around what `connect` gave for retries and made of a default policy, has the
/// configuration of the builder and keeps alive what `connect` gave. What was taken and made
/// on the way is handed back.
pub proof fn law_tonic_build_wires_what_was_connected<
    C: ?Sized,
    M: ?Sized,
    P: ?Sized,
    G,
    N,
    R: ?Sized,
    Q,
    S,
    T,
    L,
    I,
    K,
    O,
    F,
>(
    builder: XdsChannelBuilder<C, M, P>,
    tls: TlsSupport,
    load: L,
    init: I,
    convert: K,
    connect: O,
    result: Result<XdsChannel<XdsRoutingService<S, R>, C, T>, BuildError>,
) -> (taken: (
    Option<BootstrapConfig>,
    Option<InstanceMap<ProviderSource<P>>>,
    Option<String>,
    ChannelPlan<C, M, G, N>,
    (Arc<R>, T, F),
    Q,
)) where
    Q: Default,
    L: FnOnce() -> Result<BootstrapConfig, BootstrapError>,
    I: FnOnce(InstanceMap<ProviderSource<P>>) -> Result<G, CertProviderError>,
    K: FnOnce(String) -> Result<N, BootstrapError>,
    O: FnOnce(ChannelPlan<C, M, G, N>) -> (Arc<R>, T, F),
    F: FnOnce(Q) -> S,

    requires
        call_ensures(
            XdsChannelBuilder::<C, M, P>::build_tonic_grpc_channel::<G, N, R, Q, S, T, L, I, K, O, F>,
            (&builder, tls, load, init, convert, connect),
            result,
        ),
    ensures
        taken.0 matches Some(bootstrap) ==> match builder@.config@.bootstrap {
            Some(set) => bootstrap@ == set,
            None => call_ensures(load, (), Ok(bootstrap)),
        },
        taken.1 matches Some(sources) ==> {
            &&& tls.certificate_providers
            &&& taken.0 is Some
            &&& taken.0->0@.use_tls ==> tls.backend
            &&& forall|name: Seq<char>| #[trigger]
                sources@.dom().contains(name) <==> builder@.cert_providers.dom().contains(name)
                    || taken.0->0@.certificate_providers.dom().contains(name)
            &&& forall|name: Seq<char>|
                builder@.cert_providers.dom().contains(name) ==> #[trigger] sources@[name]
                    == ProviderSource::<P>::Registered {
                    provider: builder@.cert_providers[name],
                    shadowed: if taken.0->0@.certificate_providers.dom().contains(name) {
                        Some(taken.0->0@.certificate_providers[name])
                    } else {
                        None
                    },
                }
            &&& forall|name: Seq<char>|
                !builder@.cert_providers.dom().contains(name)
                    && taken.0->0@.certificate_providers.dom().contains(name) ==> #[trigger] sources@[name]
                    == ProviderSource::<P>::Bootstrap(taken.0->0@.certificate_providers[name])
        },
        taken.2 matches Some(text) ==> {
            &&& taken.0 is Some
            &&& taken.0->0@.use_tls ==> tls.backend
            &&& text@ == taken.0->0@.node
            &&& tls.certificate_providers ==> taken.1 is Some && exists|ready: G| #[trigger]
                call_ensures(init, (taken.1->0,), Ok(ready))
        },
        result matches Ok(channel) ==> {
            &&& taken.0 is Some
            &&& taken.3.tls == taken.0->0@.use_tls
            &&& taken.3.server_uri@ == taken.0->0@.server_uri
            &&& taken.3.listener_name@ == builder@.config@.target
            &&& taken.3.target@ == seq!['x', 'd', 's', ':', '/', '/', '/'] + builder@.config@.target
            &&& taken.3.call_creds == builder@.config@.call_creds
            &&& taken.3.recorder == builder@.recorder
            &&& taken.3.registry is Some <==> tls.certificate_providers
            &&& tls.certificate_providers ==> taken.1 is Some && call_ensures(
                init,
                (taken.1->0,),
                Ok(taken.3.registry->0),
            )
            &&& taken.2 is Some
            &&& call_ensures(convert, (taken.2->0,), Ok(taken.3.node))
            &&& call_ensures(connect, (taken.3,), taken.4)
            &&& channel.forwards_to().routing().router == taken.4.0
            &&& channel.forwards_to().routing().interceptor == builder@.pre_route
            &&& channel.forwards_to().routing().authority == builder@.config@.target
            &&& call_ensures(Q::default, (), taken.5)
            &&& call_ensures(taken.4.2, (taken.5,), channel.forwards_to().forwards_to())
            &&& channel.keeps_alive() is Some
            &&& *channel.keeps_alive()->0 == taken.4.1
            &&& channel.built_from() == builder@.config
        },
        result matches Err(error) ==> {
            ||| {
                &&& taken.0 is None && builder@.config@.bootstrap is None && error is Bootstrap
                &&& call_ensures(
                    load,
                    (),
                    Err::<BootstrapConfig, BootstrapError>(error->Bootstrap_0),
                )
            }
            ||| {
                &&& taken.0 is Some && taken.1 is None && taken.2 is None
                &&& taken.0->0@.use_tls && !tls.backend
                &&& error is Bootstrap && error->Bootstrap_0 is Validation
                &&& error->Bootstrap_0->Validation_0@
                    == "TLS requested by bootstrap but no TLS feature enabled (enable tls-ring or tls-aws-lc)"@
            }
            ||| {
                &&& taken.1 is Some && taken.2 is None && error is CertProvider
                &&& call_ensures(
                    init,
                    (taken.1->0,),
                    Err::<G, CertProviderError>(error->CertProvider_0),
                )
            }
            ||| {
                &&& taken.2 is Some && error is Bootstrap
                &&& call_ensures(
                    convert,
                    (taken.2->0,),
                    Err::<N, BootstrapError>(error->Bootstrap_0),
                )
            }
        },
{
    reveal_strlit("xds:///");
    assert("xds:///"@ =~= seq!['x', 'd', 's', ':', '/', '/', '/']);
    let outcomes = choose|outcomes: BuildOutcomes<G, N>| #[trigger]
        outcomes_of(builder@, tls, load, init, convert, outcomes) && match build_decision(
            builder@,
            tls,
            outcomes,
        ) {
            Ok(decided) => result is Ok && exists|
                plan: ChannelPlan<C, M, G, N>,
                parts: (Arc<R>, T, F),
            | #[trigger]
                call_ensures(connect, (plan,), parts) && plan@ == decided && wires(
                    builder@,
                    parts.0,
                    parts.1,
                    parts.2,
                    result->Ok_0,
                ),
            Err(failure) => result is Err && reports(result->Err_0, failure),
        };
    let bootstrap = outcomes.loaded->Ok_0;
    let sources = choose|sources: InstanceMap<ProviderSource<P>>| #[trigger]
        call_ensures(init, (sources,), outcomes.registry->0) && sources@ == resolved(
            bootstrap@.certificate_providers,
            builder@.cert_providers,
        );
    let text = choose|text: String| #[trigger]
        call_ensures(convert, (text,), outcomes.node->0) && text@ == bootstrap@.node;
    if outcomes.registry matches Some(Ok(_)) {
        assert(call_ensures(init, (sources,), Ok(outcomes.registry->0->Ok_0)));
    }
    let decided = build_decision(builder@, tls, outcomes)->Ok_0;
    let (plan, parts) = choose|plan: ChannelPlan<C, M, G, N>, parts: (Arc<R>, T, F)| #[trigger]
        call_ensures(connect, (plan,), parts) && plan@ == decided && wires(
            builder@,
            parts.0,
            parts.1,
            parts.2,
            result->Ok_0,
        );
    let policy = choose|policy: Q| #[trigger]
        call_ensures(parts.2, (policy,), result->Ok_0.forwards_to().forwards_to())
            && call_ensures(Q::default, (), policy);
    let taken = (
        if outcomes.loaded is Ok {
            Some(bootstrap)
        } else {
            None
        },
        if outcomes.registry is Some {
            Some(sources)
        } else {
            None
        },
        if outcomes.node is Some {
            Some(text)
        } else {
            None
        },
    );
    (taken.0, taken.1, taken.2, plan, parts, policy)
}

/// A build asks of its steps what planning asks of them, and of connecting only that it
/// can be done for a plan that says what was configured and holds what the steps made.
pub proof fn law_tonic_build_asks_for_the_steps_in_turn<
    C: ?Sized,
    M: ?Sized,
    P: ?Sized,
    G,
    N,
    R: ?Sized,
    Q,
    S,
    T,
    L,
    I,
    K,
    O,
    F,
>(
    builder: XdsChannelBuilder<C, M, P>,
    tls: TlsSupport,
    load: L,
    init: I,
    convert: K,
    connect: O,
) where
    Q: Default,
    L: FnOnce() -> Result<BootstrapConfig, BootstrapError>,
    I: FnOnce(InstanceMap<ProviderSource<P>>) -> Result<G, CertProviderError>,
    K: FnOnce(String) -> Result<N, BootstrapError>,
    O: FnOnce(ChannelPlan<C, M, G, N>) -> (Arc<R>, T, F),
    F: FnOnce(Q) -> S,

    requires
        builder@.config@.bootstrap is None ==> call_requires(load, ()),
        forall|bootstrap: BootstrapConfig, sources: InstanceMap<ProviderSource<P>>|
            #![trigger bootstrap@, call_requires(init, (sources,))]
            tls.certificate_providers && (bootstrap@.use_tls ==> tls.backend) && {
                &&& match builder@.config@.bootstrap {
                    Some(set) => bootstrap@ == set,
                    None => call_ensures(load, (), Ok(bootstrap)),
                }
                &&& forall|name: Seq<char>| #[trigger]
                    sources@.dom().contains(name) <==> builder@.cert_providers.dom().contains(name)
                        || bootstrap@.certificate_providers.dom().contains(name)
                &&& forall|name: Seq<char>|
                    builder@.cert_providers.dom().contains(name) ==> #[trigger] sources@[name]
                        == ProviderSource::<P>::Registered {
                        provider: builder@.cert_providers[name],
                        shadowed: if bootstrap@.certificate_providers.dom().contains(name) {
                            Some(bootstrap@.certificate_providers[name])
                        } else {
                            None
                        },
                    }
                &&& forall|name: Seq<char>|
                    !builder@.cert_providers.dom().contains(name)
                        && bootstrap@.certificate_providers.dom().contains(name) ==> #[trigger] sources@[name]
                        == ProviderSource::<P>::Bootstrap(bootstrap@.certificate_providers[name])
            } ==> call_requires(init, (sources,)),
        forall|bootstrap: BootstrapConfig, sources: InstanceMap<ProviderSource<P>>, text: String|
            #![trigger bootstrap@, sources@, call_requires(convert, (text,))]
            (bootstrap@.use_tls ==> tls.backend) && text@ == bootstrap@.node && {
                &&& match builder@.config@.bootstrap {
                    Some(set) => bootstrap@ == set,
                    None => call_ensures(load, (), Ok(bootstrap)),
                }
                &&& tls.certificate_providers ==> {
                    &&& forall|name: Seq<char>| #[trigger]
                        sources@.dom().contains(name) <==> builder@.cert_providers.dom().contains(name)
                            || bootstrap@.certificate_providers.dom().contains(name)
                    &&& forall|name: Seq<char>|
                        builder@.cert_providers.dom().contains(name) ==> #[trigger] sources@[name]
                            == ProviderSource::<P>::Registered {
                            provider: builder@.cert_providers[name],
                            shadowed: if bootstrap@.certificate_providers.dom().contains(name) {
                                Some(bootstrap@.certificate_providers[name])
                            } else {
                                None
                            },
                        }
                    &&& forall|name: Seq<char>|
                        !builder@.cert_providers.dom().contains(name)
                            && bootstrap@.certificate_providers.dom().contains(name) ==> #[trigger] sources@[name]
                            == ProviderSource::<P>::Bootstrap(bootstrap@.certificate_providers[name])
                    &&& exists|ready: G| #[trigger] call_ensures(init, (sources,), Ok(ready))
                }
            } ==> call_requires(convert, (text,)),
        forall|
            bootstrap: BootstrapConfig,
            sources: InstanceMap<ProviderSource<P>>,
            text: String,
            plan: ChannelPlan<C, M, G, N>,
        |
            #![trigger bootstrap@, sources@, text@, call_requires(connect, (plan,))]
            {
                &&& match builder@.config@.bootstrap {
                    Some(set) => bootstrap@ == set,
                    None => call_ensures(load, (), Ok(bootstrap)),
                }
                &&& bootstrap@.use_tls ==> tls.backend
                &&& plan.tls == bootstrap@.use_tls
                &&& plan.server_uri@ == bootstrap@.server_uri
                &&& plan.listener_name@ == builder@.config@.target
                &&& plan.target@ == seq!['x', 'd', 's', ':', '/', '/', '/'] + builder@.config@.target
                &&& plan.call_creds == builder@.config@.call_creds
                &&& plan.recorder == builder@.recorder
                &&& tls.certificate_providers <==> plan.registry is Some
                &&& tls.certificate_providers ==> {
                    &&& forall|name: Seq<char>| #[trigger]
                        sources@.dom().contains(name) <==> builder@.cert_providers.dom().contains(name)
                            || bootstrap@.certificate_providers.dom().contains(name)
                    &&& forall|name: Seq<char>|
                        builder@.cert_providers.dom().contains(name) ==> #[trigger] sources@[name]
                            == ProviderSource::<P>::Registered {
                            provider: builder@.cert_providers[name],
                            shadowed: if bootstrap@.certificate_providers.dom().contains(name) {
                                Some(bootstrap@.certificate_providers[name])
                            } else {
                                None
                            },
                        }
                    &&& forall|name: Seq<char>|
                        !builder@.cert_providers.dom().contains(name)
                            && bootstrap@.certificate_providers.dom().contains(name) ==> #[trigger] sources@[name]
                            == ProviderSource::<P>::Bootstrap(bootstrap@.certificate_providers[name])
                    &&& call_ensures(init, (sources,), Ok(plan.registry->0))
                }
                &&& text@ == bootstrap@.node
                &&& call_ensures(convert, (text,), Ok(plan.node))
            } ==> call_requires(connect, (plan,)),
        forall|plan: ChannelPlan<C, M, G, N>, parts: (Arc<R>, T, F), policy: Q| #[trigger]
            call_ensures(connect, (plan,), parts) && call_ensures(Q::default, (), policy)
                ==> #[trigger] call_requires(parts.2, (policy,)),
    ensures
        call_requires(
            XdsChannelBuilder::<C, M, P>::build_tonic_grpc_channel::<G, N, R, Q, S, T, L, I, K, O, F>,
            (&builder, tls, load, init, convert, connect),
        ),
{
    reveal_strlit("xds:///");
    assert("xds:///"@ =~= seq!['x', 'd', 's', ':', '/', '/', '/']);
    assert forall|bootstrap: BootstrapConfig, sources: InstanceMap<ProviderSource<P>>|
        #![trigger accepts(builder@, tls, load, bootstrap), call_requires(init, (sources,))]
        tls.certificate_providers && accepts(builder@, tls, load, bootstrap) && sources@
            == resolved(
            bootstrap@.certificate_providers,
            builder@.cert_providers,
        ) implies call_requires(init, (sources,)) by {
        let seen = bootstrap@;
    }
    assert forall|
        bootstrap: BootstrapConfig,
        registry: Option<Result<G, CertProviderError>>,
        text: String,
    |
        #![trigger registers(builder@, tls, init, bootstrap, registry), call_requires(convert, (text,))]
        accepts(builder@, tls, load, bootstrap) && registers(
            builder@,
            tls,
            init,
            bootstrap,
            registry,
        ) && !(registry matches Some(Err(_))) && text@ == bootstrap@.node implies call_requires(
        convert,
        (text,),
    ) by {
        if tls.certificate_providers {
            let sources = choose|sources: InstanceMap<ProviderSource<P>>| #[trigger]
                call_ensures(init, (sources,), registry->0) && sources@ == resolved(
                    bootstrap@.certificate_providers,
                    builder@.cert_providers,
                );
            assert(call_ensures(init, (sources,), Ok(registry->0->Ok_0)));
            let seen = (bootstrap@, sources@);
        } else {
            let sources: InstanceMap<ProviderSource<P>> = arbitrary();
            let seen = (bootstrap@, sources@);
        }
    }
    assert forall|plan: ChannelPlan<C, M, G, N>|
        decides(builder@, tls, load, init, convert, plan@) implies #[trigger] call_requires(
        connect,
        (plan,),
    ) by {
        let outcomes = choose|outcomes: BuildOutcomes<G, N>| #[trigger]
            outcomes_of(builder@, tls, load, init, convert, outcomes) && build_decision(
                builder@,
                tls,
                outcomes,
            ) is Ok && build_decision(builder@, tls, outcomes)->Ok_0 == plan@;
        let bootstrap = outcomes.loaded->Ok_0;
        let sources = choose|sources: InstanceMap<ProviderSource<P>>| #[trigger]
            call_ensures(init, (sources,), outcomes.registry->0) && sources@ == resolved(
                bootstrap@.certificate_providers,
                builder@.cert_providers,
            );
        let text = choose|text: String| #[trigger]
            call_ensures(convert, (text,), outcomes.node->0) && text@ == bootstrap@.node;
        let seen = (bootstrap@, sources@, text@);
    }
}

/// The build that callers see comes to what its steps came to, and connects as planned:
/// the bootstrap is the configured one or else what `load` gave; its server and transport
/// are those of the plan, and a transport that asks for TLS is taken only with a backend;
/// where certificate providers are available, the registry is what `init` made of sources
/// in which every name that is registered or in the bootstrap, and no other, stands for the
/// registered provider or else for the bootstrap's instance; and the node is what `convert`
/// made of the bootstrap's description. An error is that of a step which was reached and
/// failed, or tells of the missing backend for a bootstrap that asks for TLS. A
/// channel routes with the router that `connect` gave, the registered hook and the target,
/// around what `connect` gave for retries and made of a default policy, has the
/// configuration of the builder and keeps alive what `connect` gave. What was taken and made
/// on the way is handed back.
pub proof fn law_grpc_build_wires_what_was_connected<
    C: ?Sized,
    M: ?Sized,
    P: ?Sized,
    G,
    N,
    R: ?Sized,
    Q,
    S,
    T,
    L,
    I,
    K,
    O,
    F,
>(
    builder: XdsChannelBuilder<C, M, P>,
    tls: TlsSupport,
    load: L,
    init: I,
    convert: K,
    connect: O,
    result: Result<XdsChannel<XdsRoutingService<S, R>, C, T>, BuildError>,
) -> (taken: (
    Option<BootstrapConfig>,
    Option<InstanceMap<ProviderSource<P>>>,
    Option<String>,
    ChannelPlan<C, M, G, N>,
    (Arc<R>, T, F),
    Q,
)) where
    Q: Default,
    L: FnOnce() -> Result<BootstrapConfig, BootstrapError>,
    I: FnOnce(InstanceMap<ProviderSource<P>>) -> Result<G, CertProviderError>,
    K: FnOnce(String) -> Result<N, BootstrapError>,
    O: FnOnce(ChannelPlan<C, M, G, N>) -> (Arc<R>, T, F),
    F: FnOnce(Q) -> S,

    requires
        call_ensures(
            XdsChannelBuilder::<C, M, P>::build_grpc_channel::<G, N, R, Q, S, T, L, I, K, O, F>,
            (&builder, tls, load, init, convert, connect),
            result,
        ),
    ensures
        taken.0 matches Some(bootstrap) ==> match builder@.config@.bootstrap {
            Some(set) => bootstrap@ == set,
            None => call_ensures(load, (), Ok(bootstrap)),
        },
        taken.1 matches Some(sources) ==> {
            &&& tls.certificate_providers
            &&& taken.0 is Some
            &&& taken.0->0@.use_tls ==> tls.backend
            &&& forall|name: Seq<char>| #[trigger]
                sources@.dom().contains(name) <==> builder@.cert_providers.dom().contains(name)
                    || taken.0->0@.certificate_providers.dom().contains(name)
            &&& forall|name: Seq<char>|
                builder@.cert_providers.dom().contains(name) ==> #[trigger] sources@[name]
                    == ProviderSource::<P>::Registered {
                    provider: builder@.cert_providers[name],
                    shadowed: if taken.0->0@.certificate_providers.dom().contains(name) {
                        Some(taken.0->0@.certificate_providers[name])
                    } else {
                        None
                    },
                }
            &&& forall|name: Seq<char>|
                !builder@.cert_providers.dom().contains(name)
                    && taken.0->0@.certificate_providers.dom().contains(name) ==> #[trigger] sources@[name]
                    == ProviderSource::<P>::Bootstrap(taken.0->0@.certificate_providers[name])
        },
        taken.2 matches Some(text) ==> {
            &&& taken.0 is Some
            &&& taken.0->0@.use_tls ==> tls.backend
            &&& text@ == taken.0->0@.node
            &&& tls.certificate_providers ==> taken.1 is Some && exists|ready: G| #[trigger]
                call_ensures(init, (taken.1->0,), Ok(ready))
        },
        result matches Ok(channel) ==> {
            &&& taken.0 is Some
            &&& taken.3.tls == taken.0->0@.use_tls
            &&& taken.3.server_uri@ == taken.0->0@.server_uri
            &&& taken.3.listener_name@ == builder@.config@.target
            &&& taken.3.target@ == seq!['x', 'd', 's', ':', '/', '/', '/'] + builder@.config@.target
            &&& taken.3.call_creds == builder@.config@.call_creds
            &&& taken.3.recorder == builder@.recorder
            &&& taken.3.registry is Some <==> tls.certificate_providers
            &&& tls.certificate_providers ==> taken.1 is Some && call_ensures(
                init,
                (taken.1->0,),
                Ok(taken.3.registry->0),
            )
            &&& taken.2 is Some
            &&& call_ensures(convert, (taken.2->0,), Ok(taken.3.node))
            &&& call_ensures(connect, (taken.3,), taken.4)
            &&& channel.forwards_to().routing().router == taken.4.0
            &&& channel.forwards_to().routing().interceptor == builder@.pre_route
            &&& channel.forwards_to().routing().authority == builder@.config@.target
            &&& call_ensures(Q::default, (), taken.5)
            &&& call_ensures(taken.4.2, (taken.5,), channel.forwards_to().forwards_to())
            &&& channel.keeps_alive() is Some
            &&& *channel.keeps_alive()->0 == taken.4.1
            &&& channel.built_from() == builder@.config
        },
        result matches Err(error) ==> {
            ||| {
                &&& taken.0 is None && builder@.config@.bootstrap is None && error is Bootstrap
                &&& call_ensures(
                    load,
                    (),
                    Err::<BootstrapConfig, BootstrapError>(error->Bootstrap_0),
                )
            }
            ||| {
                &&& taken.0 is Some && taken.1 is None && taken.2 is None
                &&& taken.0->0@.use_tls && !tls.backend
                &&& error is Bootstrap && error->Bootstrap_0 is Validation
                &&& error->Bootstrap_0->Validation_0@
                    == "TLS requested by bootstrap but no TLS feature enabled (enable tls-ring or tls-aws-lc)"@
            }
            ||| {
                &&& taken.1 is Some && taken.2 is None && error is CertProvider
                &&& call_ensures(
                    init,
                    (taken.1->0,),
                    Err::<G, CertProviderError>(error->CertProvider_0),
                )
            }
            ||| {
                &&& taken.2 is Some && error is Bootstrap
                &&& call_ensures(
                    convert,
                    (taken.2->0,),
                    Err::<N, BootstrapError>(error->Bootstrap_0),
                )
            }
        },
{
    reveal_strlit("xds:///");
    assert("xds:///"@ =~= seq!['x', 'd', 's', ':', '/', '/', '/']);
    let outcomes = choose|outcomes: BuildOutcomes<G, N>| #[trigger]
        outcomes_of(builder@, tls, load, init, convert, outcomes) && match build_decision(
            builder@,
            tls,
            outcomes,
        ) {
            Ok(decided) => result is Ok && exists|
                plan: ChannelPlan<C, M, G, N>,
                parts: (Arc<R>, T, F),
            | #[trigger]
                call_ensures(connect, (plan,), parts) && plan@ == decided && wires(
                    builder@,
                    parts.0,
                    parts.1,
                    parts.2,
                    result->Ok_0,
                ),
            Err(failure) => result is Err && reports(result->Err_0, failure),
        };
    let bootstrap = outcomes.loaded->Ok_0;
    let sources = choose|sources: InstanceMap<ProviderSource<P>>| #[trigger]
        call_ensures(init, (sources,), outcomes.registry->0) && sources@ == resolved(
            bootstrap@.certificate_providers,
            builder@.cert_providers,
        );
    let text = choose|text: String| #[trigger]
        call_ensures(convert, (text,), outcomes.node->0) && text@ == bootstrap@.node;
    if outcomes.registry matches Some(Ok(_)) {
        assert(call_ensures(init, (sources,), Ok(outcomes.registry->0->Ok_0)));
    }
    let decided = build_decision(builder@, tls, outcomes)->Ok_0;
    let (plan, parts) = choose|plan: ChannelPlan<C, M, G, N>, parts: (Arc<R>, T, F)| #[trigger]
        call_ensures(connect, (plan,), parts) && plan@ == decided && wires(
            builder@,
            parts.0,
            parts.1,
            parts.2,
            result->Ok_0,
        );
    let policy = choose|policy: Q| #[trigger]
        call_ensures(parts.2, (policy,), result->Ok_0.forwards_to().forwards_to())
            && call_ensures(Q::default, (), policy);
    let taken = (
        if outcomes.loaded is Ok {
            Some(bootstrap)
        } else {
            None
        },
        if outcomes.registry is Some {
            Some(sources)
        } else {
            None
        },
        if outcomes.node is Some {
            Some(text)
        } else {
            None
        },
    );
    (taken.0, taken.1, taken.2, plan, parts, policy)
}

/// As [`law_tonic_build_asks_for_the_steps_in_turn`], for the build that callers see.
pub proof fn law_grpc_build_asks_for_the_steps_in_turn<
    C: ?Sized,
    M: ?Sized,
    P: ?Sized,
    G,
    N,
    R: ?Sized,
    Q,
    S,
    T,
    L,
    I,
    K,
    O,
    F,
>(
    builder: XdsChannelBuilder<C, M, P>,
    tls: TlsSupport,
    load: L,
    init: I,
    convert: K,
    connect: O,
) where
    Q: Default,
    L: FnOnce() -> Result<BootstrapConfig, BootstrapError>,
    I: FnOnce(InstanceMap<ProviderSource<P>>) -> Result<G, CertProviderError>,
    K: FnOnce(String) -> Result<N, BootstrapError>,
    O: FnOnce(ChannelPlan<C, M, G, N>) -> (Arc<R>, T, F),
    F: FnOnce(Q) -> S,

    requires
        builder@.config@.bootstrap is None ==> call_requires(load, ()),
        forall|bootstrap: BootstrapConfig, sources: InstanceMap<ProviderSource<P>>|
            #![trigger bootstrap@, call_requires(init, (sources,))]
            tls.certificate_providers && (bootstrap@.use_tls ==> tls.backend) && {
                &&& match builder@.config@.bootstrap {
                    Some(set) => bootstrap@ == set,
                    None => call_ensures(load, (), Ok(bootstrap)),
                }
                &&& forall|name: Seq<char>| #[trigger]
                    sources@.dom().contains(name) <==> builder@.cert_providers.dom().contains(name)
                        || bootstrap@.certificate_providers.dom().contains(name)
                &&& forall|name: Seq<char>|
                    builder@.cert_providers.dom().contains(name) ==> #[trigger] sources@[name]
                        == ProviderSource::<P>::Registered {
                        provider: builder@.cert_providers[name],
                        shadowed: if bootstrap@.certificate_providers.dom().contains(name) {
                            Some(bootstrap@.certificate_providers[name])
                        } else {
                            None
                        },
                    }
                &&& forall|name: Seq<char>|
                    !builder@.cert_providers.dom().contains(name)
                        && bootstrap@.certificate_providers.dom().contains(name) ==> #[trigger] sources@[name]
                        == ProviderSource::<P>::Bootstrap(bootstrap@.certificate_providers[name])
            } ==> call_requires(init, (sources,)),
        forall|bootstrap: BootstrapConfig, sources: InstanceMap<ProviderSource<P>>, text: String|
            #![trigger bootstrap@, sources@, call_requires(convert, (text,))]
            (bootstrap@.use_tls ==> tls.backend) && text@ == bootstrap@.node && {
                &&& match builder@.config@.bootstrap {
                    Some(set) => bootstrap@ == set,
                    None => call_ensures(load, (), Ok(bootstrap)),
                }
                &&& tls.certificate_providers ==> {
                    &&& forall|name: Seq<char>| #[trigger]
                        sources@.dom().contains(name) <==> builder@.cert_providers.dom().contains(name)
                            || bootstrap@.certificate_providers.dom().contains(name)
                    &&& forall|name: Seq<char>|
                        builder@.cert_providers.dom().contains(name) ==> #[trigger] sources@[name]
                            == ProviderSource::<P>::Registered {
                            provider: builder@.cert_providers[name],
                            shadowed: if bootstrap@.certificate_providers.dom().contains(name) {
                                Some(bootstrap@.certificate_providers[name])
                            } else {
                                None
                            },
                        }
                    &&& forall|name: Seq<char>|
                        !builder@.cert_providers.dom().contains(name)
                            && bootstrap@.certificate_providers.dom().contains(name) ==> #[trigger] sources@[name]
                            == ProviderSource::<P>::Bootstrap(bootstrap@.certificate_providers[name])
                    &&& exists|ready: G| #[trigger] call_ensures(init, (sources,), Ok(ready))
                }
            } ==> call_requires(convert, (text,)),
        forall|
            bootstrap: BootstrapConfig,
            sources: InstanceMap<ProviderSource<P>>,
            text: String,
            plan: ChannelPlan<C, M, G, N>,
        |
            #![trigger bootstrap@, sources@, text@, call_requires(connect, (plan,))]
            {
                &&& match builder@.config@.bootstrap {
                    Some(set) => bootstrap@ == set,
                    None => call_ensures(load, (), Ok(bootstrap)),
                }
                &&& bootstrap@.use_tls ==> tls.backend
                &&& plan.tls == bootstrap@.use_tls
                &&& plan.server_uri@ == bootstrap@.server_uri
                &&& plan.listener_name@ == builder@.config@.target
                &&& plan.target@ == seq!['x', 'd', 's', ':', '/', '/', '/'] + builder@.config@.target
                &&& plan.call_creds == builder@.config@.call_creds
                &&& plan.recorder == builder@.recorder
                &&& tls.certificate_providers <==> plan.registry is Some
                &&& tls.certificate_providers ==> {
                    &&& forall|name: Seq<char>| #[trigger]
                        sources@.dom().contains(name) <==> builder@.cert_providers.dom().contains(name)
                            || bootstrap@.certificate_providers.dom().contains(name)
                    &&& forall|name: Seq<char>|
                        builder@.cert_providers.dom().contains(name) ==> #[trigger] sources@[name]
                            == ProviderSource::<P>::Registered {
                            provider: builder@.cert_providers[name],
                            shadowed: if bootstrap@.certificate_providers.dom().contains(name) {
                                Some(bootstrap@.certificate_providers[name])
                            } else {
                                None
                            },
                        }
                    &&& forall|name: Seq<char>|
                        !builder@.cert_providers.dom().contains(name)
                            && bootstrap@.certificate_providers.dom().contains(name) ==> #[trigger] sources@[name]
                            == ProviderSource::<P>::Bootstrap(bootstrap@.certificate_providers[name])
                    &&& call_ensures(init, (sources,), Ok(plan.registry->0))
                }
                &&& text@ == bootstrap@.node
                &&& call_ensures(convert, (text,), Ok(plan.node))
            } ==> call_requires(connect, (plan,)),
        forall|plan: ChannelPlan<C, M, G, N>, parts: (Arc<R>, T, F), policy: Q| #[trigger]
            call_ensures(connect, (plan,), parts) && call_ensures(Q::default, (), policy)
                ==> #[trigger] call_requires(parts.2, (policy,)),
    ensures
        call_requires(
            XdsChannelBuilder::<C, M, P>::build_grpc_channel::<G, N, R, Q, S, T, L, I, K, O, F>,
            (&builder, tls, load, init, convert, connect),
        ),
{
    reveal_strlit("xds:///");
    assert("xds:///"@ =~= seq!['x', 'd', 's', ':', '/', '/', '/']);
    assert forall|bootstrap: BootstrapConfig, sources: InstanceMap<ProviderSource<P>>|
        #![trigger accepts(builder@, tls, load, bootstrap), call_requires(init, (sources,))]
        tls.certificate_providers && accepts(builder@, tls, load, bootstrap) && sources@
            == resolved(
            bootstrap@.certificate_providers,
            builder@.cert_providers,
        ) implies call_requires(init, (sources,)) by {
        let seen = bootstrap@;
    }
    assert forall|
        bootstrap: BootstrapConfig,
        registry: Option<Result<G, CertProviderError>>,
        text: String,
    |
        #![trigger registers(builder@, tls, init, bootstrap, registry), call_requires(convert, (text,))]
        accepts(builder@, tls, load, bootstrap) && registers(
            builder@,
            tls,
            init,
            bootstrap,
            registry,
        ) && !(registry matches Some(Err(_))) && text@ == bootstrap@.node implies call_requires(
        convert,
        (text,),
    ) by {
        if tls.certificate_providers {
            let sources = choose|sources: InstanceMap<ProviderSource<P>>| #[trigger]
                call_ensures(init, (sources,), registry->0) && sources@ == resolved(
                    bootstrap@.certificate_providers,
                    builder@.cert_providers,
                );
            assert(call_ensures(init, (sources,), Ok(registry->0->Ok_0)));
            let seen = (bootstrap@, sources@);
        } else {
            let sources: InstanceMap<ProviderSource<P>> = arbitrary();
            let seen = (bootstrap@, sources@);
        }
    }
    assert forall|plan: ChannelPlan<C, M, G, N>|
        decides(builder@, tls, load, init, convert, plan@) implies #[trigger] call_requires(
        connect,
        (plan,),
    ) by {
        let outcomes = choose|outcomes: BuildOutcomes<G, N>| #[trigger]
            outcomes_of(builder@, tls, load, init, convert, outcomes) && build_decision(
                builder@,
                tls,
                outcomes,
            ) is Ok && build_decision(builder@, tls, outcomes)->Ok_0 == plan@;
        let bootstrap = outcomes.loaded->Ok_0;
        let sources = choose|sources: InstanceMap<ProviderSource<P>>| #[trigger]
            call_ensures(init, (sources,), outcomes.registry->0) && sources@ == resolved(
                bootstrap@.certificate_providers,
                builder@.cert_providers,
            );
        let text = choose|text: String| #[trigger]
            call_ensures(convert, (text,), outcomes.node->0) && text@ == bootstrap@.node;
        let seen = (bootstrap@, sources@, text@);
    }
}

/// A channel that is wired from a cache routes with the given router, the registered hook
/// and the target, around what `retried` made of a default policy, which is handed back; it
/// has the configuration of the builder and keeps the resources alive. The hook that runs
/// on its requests is the registered one. Wiring asks only that `retried` takes a default
/// policy.
pub proof fn law_channel_from_cache_routes_with_the_registered_hook<
    B,
    C: ?Sized,
    M: ?Sized,
    P: ?Sized,
    R: ?Sized,
    Q,
    S,
    T,
    F,
>(
    builder: XdsChannelBuilder<C, M, P>,
    router: Arc<R>,
    resources: T,
    retried: F,
    channel: XdsChannel<XdsRoutingService<S, R>, C, T>,
    snapshot: Option<Arc<RouteConfigSnapshot>>,
    request: RouteRequest<B>,
    call: RoutingCall<B>,
    input: RouteInput<'_>,
) -> (policy: Q) where Q: Default, F: FnOnce(Q) -> S
    requires
        forall|given: Q|
            call_ensures(Q::default, (), given) ==> #[trigger] call_requires(retried, (given,)),
        call_ensures(
            XdsChannelBuilder::<C, M, P>::build_from_cache::<R, Q, S, T, F>,
            (&builder, router, resources, retried),
            channel,
        ),
        call_ensures(
            XdsRoutingService::<S, R>::begin_with::<B>,
            (&channel.forwards_to(), snapshot, request),
            call,
        ),
        call_ensures(RoutingCall::<B>::input, (&call,), input),
    ensures
        call_requires(
            XdsChannelBuilder::<C, M, P>::build_from_cache::<R, Q, S, T, F>,
            (&builder, router, resources, retried),
        ),
        channel.forwards_to().routing().router == router,
        channel.forwards_to().routing().interceptor == builder@.pre_route,
        channel.forwards_to().routing().authority == builder@.config@.target,
        call_ensures(Q::default, (), policy),
        call_ensures(retried, (policy,), channel.forwards_to().forwards_to()),
        channel.built_from() == builder@.config,
        channel.keeps_alive() is Some,
        *channel.keeps_alive()->0 == resources,
        input.authority@ == builder@.config@.target,
        snapshot is Some <==> input.snapshot is Some,
        snapshot matches Some(given) ==> *input.snapshot->0 == *given,
        match (builder@.pre_route, snapshot) {
            (Some(hook), Some(given)) => hook.rewrites(
                request.headers,
                given.metadata,
                *input.headers,
            ),
            _ => *input.headers == request.headers,
        },
{
    choose|policy: Q| #[trigger]
        call_ensures(retried, (policy,), channel.forwards_to().forwards_to()) && call_ensures(
            Q::default,
            (),
            policy,
        )
}

/// A channel that is built from parts routes with the given router, the given hook, even
/// where another or none is registered, and the target, around what `retried` made of the
/// given policy; it has the configuration of the builder and keeps nothing alive. The hook
/// that runs on its requests is the given one. Building asks only that `retried` takes the
/// given policy.
pub proof fn law_channel_from_parts_routes_with_the_given_hook<
    B,
    C: ?Sized,
    M: ?Sized,
    P: ?Sized,
    R: ?Sized,
    Q,
    S,
    T,
    F,
>(
    builder: XdsChannelBuilder<C, M, P>,
    router: Arc<R>,
    retry_policy: Q,
    interceptor: Option<Arc<dyn PreRouteInterceptor>>,
    retried: F,
    channel: XdsChannel<XdsRoutingService<S, R>, C, T>,
    snapshot: Option<Arc<RouteConfigSnapshot>>,
    request: RouteRequest<B>,
    call: RoutingCall<B>,
    input: RouteInput<'_>,
) where F: FnOnce(Q) -> S
    requires
        call_requires(retried, (retry_policy,)),
        call_ensures(
            XdsChannelBuilder::<C, M, P>::build_grpc_channel_from_parts::<R, Q, S, T, F>,
            (&builder, router, retry_policy, interceptor, retried),
            channel,
        ),
        call_ensures(
            XdsRoutingService::<S, R>::begin_with::<B>,
            (&channel.forwards_to(), snapshot, request),
            call,
        ),
        call_ensures(RoutingCall::<B>::input, (&call,), input),
    ensures
        call_requires(
            XdsChannelBuilder::<C, M, P>::build_grpc_channel_from_parts::<R, Q, S, T, F>,
            (&builder, router, retry_policy, interceptor, retried),
        ),
        channel.forwards_to().routing().router == router,
        channel.forwards_to().routing().interceptor == interceptor,
        channel.forwards_to().routing().authority == builder@.config@.target,
        call_ensures(retried, (retry_policy,), channel.forwards_to().forwards_to()),
        channel.built_from() == builder@.config,
        channel.keeps_alive() is None,
        input.authority@ == builder@.config@.target,
        snapshot is Some <==> input.snapshot is Some,
        snapshot matches Some(given) ==> *input.snapshot->0 == *given,
        match (interceptor, snapshot) {
            (Some(hook), Some(given)) => hook.rewrites(
                request.headers,
                given.metadata,
                *input.headers,
            ),
            _ => *input.headers == request.headers,
        },
{
}

/// From the start: a plan for a target, with a bootstrap that was made of a server, a
/// transport, certificate provider instances and a description of the node, and with
/// nothing else set, has that server and that transport, the target as its listener, no
/// credentials and no recorder. Its registry was made of the bootstrap's instances, all of
/// them and nothing else, and its node of that description. The environment has no part in
/// it. The sources and the description are handed back.
pub proof fn law_plan_from_the_start<C: ?Sized, M: ?Sized, P: ?Sized, G, N, L, I, K>(
    uri: XdsUri,
    server_uri: String,
    use_tls: bool,
    certificate_providers: InstanceMap<CertProviderConfig>,
    node: String,
    bootstrap: BootstrapConfig,
    empty_config: XdsChannelConfig<C>,
    config: XdsChannelConfig<C>,
    builder: XdsChannelBuilder<C, M, P>,
    tls: TlsSupport,
    load: L,
    init: I,
    convert: K,
    plan: ChannelPlan<C, M, G, N>,
) -> (taken: (InstanceMap<ProviderSource<P>>, String)) where
    L: FnOnce() -> Result<BootstrapConfig, BootstrapError>,
    I: FnOnce(InstanceMap<ProviderSource<P>>) -> Result<G, CertProviderError>,
    K: FnOnce(String) -> Result<N, BootstrapError>,

    requires
        call_ensures(
            BootstrapConfig::new,
            (server_uri, use_tls, certificate_providers, node),
            bootstrap,
        ),
        call_ensures(XdsChannelConfig::<C>::new, (uri,), empty_config),
        call_ensures(XdsChannelConfig::<C>::with_bootstrap, (empty_config, bootstrap), config),
        call_ensures(XdsChannelBuilder::<C, M, P>::new, (config,), builder),
        call_ensures(
            XdsChannelBuilder::<C, M, P>::plan_grpc_channel::<G, N, L, I, K>,
            (&builder, tls, load, init, convert),
            Ok(plan),
        ),
    ensures
        plan.server_uri@ == server_uri@,
        plan.tls == use_tls,
        use_tls ==> tls.backend,
        plan.listener_name@ == uri.target@,
        plan.target@ == seq!['x', 'd', 's', ':', '/', '/', '/'] + uri.target@,
        plan.call_creds is None,
        plan.recorder is None,
        plan.registry is Some <==> tls.certificate_providers,
        tls.certificate_providers ==> {
            &&& call_ensures(init, (taken.0,), Ok(plan.registry->0))
            &&& taken.0@.dom() == certificate_providers@.dom()
            &&& forall|name: Seq<char>|
                certificate_providers@.dom().contains(name) ==> #[trigger] taken.0@[name]
                    == ProviderSource::<P>::Bootstrap(certificate_providers@[name])
        },
        taken.1@ == node@,
        call_ensures(convert, (taken.1,), Ok(plan.node)),
{
    let taken = law_planning_comes_to_what_its_steps_did(
        builder,
        tls,
        load,
        init,
        convert,
        Ok(plan),
    );
    assert(tls.certificate_providers ==> taken.1->0@.dom() =~= certificate_providers@.dom());
    (taken.1->0, taken.2->0)
}

} // verus!
