//! What holds of routing and of building a channel as a whole.

pub mod building;
pub mod routing;
pub mod values;

use std::sync::Arc;

use vstd::prelude::*;

use crate::bootstrap::{BootstrapConfig, BootstrapError, CertProviderConfig};
use crate::channel::{
    accepts, build_decision, builds, connect_ready, decides, loads, outcomes_of, plans,
    registered_under, registers, reports, resolve_providers, resolved, stack_routing, steps_ready,
    transport_available, wires, BuildFailure, BuildOutcomes, BuilderView, ChannelPlan, PlanView,
    ProviderSource, TlsSupport, XdsChannel, XdsChannelBuilder,
};
use crate::config::{ConfigView, XdsChannelConfig};
use crate::error::{BuildError, CertProviderError};
use crate::instances::InstanceMap;
use crate::route::{
    asks, completes, prepares, PreRouteInterceptor, RouteConfigSnapshot, RouteDecision, RouteInput,
    RouteRequest, Router, RoutingCall, RoutingView, Unconfigured, XdsRoutingService,
};
use crate::uri::XDS_PREFIX;

verus! {

/// Whatever a request's URI, method or body, it is routed by the authority that the
/// layer was configured with.
pub proof fn law_authority_is_the_layers<B, R: ?Sized>(
    routing: RoutingView<R>,
    request: RouteRequest<B>,
    call: RoutingCall<B>,
    input: RouteInput<'_>,
)
    requires
        prepares(routing, request, call),
        asks(call, input),
    ensures
        input.authority@ == routing.authority,
{
}

/// The hook and the router observe the same snapshot, and the router matches on the
/// headers as the hook left them: what the router is asked about are headers that the
/// hook made of the request's under the metadata of the very snapshot that the router
/// is asked to route against.
pub proof fn law_hook_and_router_see_one_snapshot<B, R: ?Sized>(
    routing: RoutingView<R>,
    request: RouteRequest<B>,
    call: RoutingCall<B>,
    input: RouteInput<'_>,
)
    requires
        prepares(routing, request, call),
        asks(call, input),
    ensures
        match (routing.interceptor, input.snapshot) {
            (Some(hook), Some(seen)) => hook.rewrites(
                request.headers,
                seen.metadata,
                *input.headers,
            ),
            _ => *input.headers == request.headers,
        },
{
}

/// A hook influences routing through the headers alone: of two hooks that leave the
/// same headers under the same snapshot, the router is asked the same, and a request
/// that is forwarded has the same headers, the same decision, the same other extensions
/// and the same method, URI, version and body.
pub proof fn law_hook_acts_through_headers_alone<B, R: ?Sized, E>(
    routing: RoutingView<R>,
    other: RoutingView<R>,
    request: RouteRequest<B>,
    call: RoutingCall<B>,
    other_call: RoutingCall<B>,
    input: RouteInput<'_>,
    other_input: RouteInput<'_>,
    decision: RouteDecision,
    result: Result<RouteRequest<B>, E>,
    other_result: Result<RouteRequest<B>, E>,
)
    requires
        other.authority == routing.authority,
        prepares(routing, request, call),
        prepares(other, request, other_call),
        other_call.snapshot() == call.snapshot(),
        other_call.request().headers == call.request().headers,
        asks(call, input),
        asks(other_call, other_input),
        completes(call, Ok(decision), result),
        completes(other_call, Ok(decision), other_result),
    ensures
        other_input.authority@ == input.authority@,
        *other_input.headers == *input.headers,
        match (other_input.snapshot, input.snapshot) {
            (Some(a), Some(b)) => *a == *b,
            (None, None) => true,
            _ => false,
        },
        result is Ok && other_result is Ok,
        other_result->Ok_0.headers == result->Ok_0.headers,
        other_result->Ok_0.rest == result->Ok_0.rest,
        other_result->Ok_0.decision() == result->Ok_0.decision(),
        other_result->Ok_0.others() == result->Ok_0.others(),
{
}

/// A request that the router decides on is forwarded with that decision attached, with
/// the headers that the router saw, and otherwise as it came: its method, URI, version
/// and body, and its extensions of every other type, are those of the request.
pub proof fn law_decided_request_is_forwarded<B, R: ?Sized, E>(
    routing: RoutingView<R>,
    request: RouteRequest<B>,
    call: RoutingCall<B>,
    input: RouteInput<'_>,
    decision: RouteDecision,
    result: Result<RouteRequest<B>, E>,
)
    requires
        prepares(routing, request, call),
        asks(call, input),
        completes(call, Ok(decision), result),
    ensures
        result matches Ok(forwarded) && {
            &&& forwarded.decision() == Some((decision.cluster@, decision.request_hash))
            &&& forwarded.headers == *input.headers
            &&& forwarded.rest == request.rest
            &&& forwarded.others() == request.others()
        },
{
}

/// A request that the router refuses is answered with the router's error and is not
/// forwarded.
pub proof fn law_refused_request_is_not_forwarded<B, E>(
    call: RoutingCall<B>,
    error: E,
    result: Result<RouteRequest<B>, E>,
)
    requires
        completes(call, Err(error), result),
    ensures
        result == Err::<RouteRequest<B>, E>(error),
{
}

/// Without a hook, or without a snapshot, a routed request keeps its headers.
pub proof fn law_headers_kept_without_hook_or_snapshot<B, R: ?Sized, E>(
    routing: RoutingView<R>,
    request: RouteRequest<B>,
    call: RoutingCall<B>,
    decision: RouteDecision,
    result: Result<RouteRequest<B>, E>,
)
    requires
        routing.interceptor is None || call.snapshot() is None,
        prepares(routing, request, call),
        completes(call, Ok(decision), result),
    ensures
        result matches Ok(forwarded) && forwarded.headers == request.headers,
{
}

/// A router that keeps the default has no snapshot, whatever state it is in.
pub proof fn law_snapshot_defaults_to_none<T: Send + Sync + 'static>(
    router: Unconfigured<T>,
    snapshot: Option<Arc<RouteConfigSnapshot>>,
)
    requires
        call_ensures(<Unconfigured<T> as Router>::snapshot, (&router,), snapshot),
    ensures
        snapshot is None,
{
}

/// The settings of a configuration are independent: bootstrap and credentials may be set
/// in either order, and neither setting changes the target or the other.
pub proof fn law_config_settings_are_independent<C: ?Sized>(
    config: XdsChannelConfig<C>,
    bootstrap: BootstrapConfig,
    creds: Arc<C>,
    with_bootstrap: XdsChannelConfig<C>,
    bootstrap_first: XdsChannelConfig<C>,
    with_creds: XdsChannelConfig<C>,
    creds_first: XdsChannelConfig<C>,
)
    requires
        call_ensures(XdsChannelConfig::<C>::with_bootstrap, (config, bootstrap), with_bootstrap),
        call_ensures(
            XdsChannelConfig::<C>::with_call_credentials,
            (with_bootstrap, creds),
            bootstrap_first,
        ),
        call_ensures(XdsChannelConfig::<C>::with_call_credentials, (config, creds), with_creds),
        call_ensures(XdsChannelConfig::<C>::with_bootstrap, (with_creds, bootstrap), creds_first),
    ensures
        bootstrap_first@ == creds_first@,
        bootstrap_first@.target == config@.target,
        bootstrap_first@.bootstrap == Some(bootstrap@),
        bootstrap_first@.call_creds == Some(creds),
        with_bootstrap@.call_creds == config@.call_creds,
        with_creds@.bootstrap == config@.bootstrap,
{
}

/// Of two bootstraps that are set, and of two credentials, the later counts: the
/// configuration is as if the earlier had not been set.
pub proof fn law_later_setting_counts<C: ?Sized>(
    config: XdsChannelConfig<C>,
    bootstrap: BootstrapConfig,
    later_bootstrap: BootstrapConfig,
    creds: Arc<C>,
    later_creds: Arc<C>,
    once: XdsChannelConfig<C>,
    twice: XdsChannelConfig<C>,
    alone: XdsChannelConfig<C>,
)
    ensures
        call_ensures(XdsChannelConfig::<C>::with_bootstrap, (config, bootstrap), once)
            && call_ensures(XdsChannelConfig::<C>::with_bootstrap, (once, later_bootstrap), twice)
            && call_ensures(XdsChannelConfig::<C>::with_bootstrap, (config, later_bootstrap), alone)
            ==> twice@ == alone@,
        call_ensures(XdsChannelConfig::<C>::with_call_credentials, (config, creds), once)
            && call_ensures(
            XdsChannelConfig::<C>::with_call_credentials,
            (once, later_creds),
            twice,
        ) && call_ensures(XdsChannelConfig::<C>::with_call_credentials, (config, later_creds), alone)
            ==> twice@ == alone@,
{
}

/// Loading eagerly at config time sets what was loaded as setting it directly does, and
/// an error of that load is handed back as it is.
pub proof fn law_eager_load_sets_the_bootstrap<C: ?Sized>(
    config: XdsChannelConfig<C>,
    loaded: Result<BootstrapConfig, BootstrapError>,
    result: Result<XdsChannelConfig<C>, BootstrapError>,
    set: XdsChannelConfig<C>,
)
    requires
        call_ensures(XdsChannelConfig::<C>::with_bootstrap_from_env, (config, loaded), result),
    ensures
        match loaded {
            Ok(bootstrap) => result is Ok && (call_ensures(
                XdsChannelConfig::<C>::with_bootstrap,
                (config, bootstrap),
                set,
            ) ==> result->Ok_0@ == set@),
            Err(error) => result == Err::<XdsChannelConfig<C>, BootstrapError>(error),
        },
{
}

/// Where a bootstrap is configured the environment is not consulted: a build asks
/// nothing of `load`, not even that it can be called, and comes to the same whatever
/// loading would give.
pub proof fn law_configured_bootstrap_needs_no_environment<
    C: ?Sized,
    M: ?Sized,
    P: ?Sized,
    G,
    N,
    L,
    O,
    I,
    K,
>(
    builder: BuilderView<C, M, P>,
    tls: TlsSupport,
    load: L,
    other_load: O,
    init: I,
    convert: K,
    outcomes: BuildOutcomes<G, N>,
) where
    O: FnOnce() -> Result<BootstrapConfig, BootstrapError>,
    L: FnOnce() -> Result<BootstrapConfig, BootstrapError>,
    I: FnOnce(InstanceMap<ProviderSource<P>>) -> Result<G, CertProviderError>,
    K: FnOnce(String) -> Result<N, BootstrapError>,

    requires
        builder.config@.bootstrap is Some,
    ensures
        steps_ready(builder, tls, load, init, convert) == steps_ready(
            builder,
            tls,
            other_load,
            init,
            convert,
        ),
        outcomes_of(builder, tls, load, init, convert, outcomes) == outcomes_of(
            builder,
            tls,
            other_load,
            init,
            convert,
            outcomes,
        ),
        outcomes_of(builder, tls, load, init, convert, outcomes) ==> outcomes.loaded is Ok,
{
    assert forall|bootstrap: BootstrapConfig| #[trigger]
        accepts(builder, tls, load, bootstrap) == accepts(
            builder,
            tls,
            other_load,
            bootstrap,
        ) by {}
    assert forall|bootstrap: BootstrapConfig| #[trigger]
        accepts(builder, tls, other_load, bootstrap) == accepts(
            builder,
            tls,
            load,
            bootstrap,
        ) by {}
}

/// A bootstrap that was loaded at config time serves a build as one that the build
/// loads. With configurations that agree on all but the bootstrap, of which one holds
/// what `load` gives and the other leaves loading to the build, planning comes to the
/// same, and asks the same of the later steps and of connecting.
pub proof fn law_eager_and_lazy_load_agree<
    C: ?Sized,
    M: ?Sized,
    P: ?Sized,
    G,
    N,
    L,
    E,
    I,
    K,
>(
    eager: BuilderView<C, M, P>,
    lazy: BuilderView<C, M, P>,
    tls: TlsSupport,
    load: L,
    unused: E,
    init: I,
    convert: K,
    given: BootstrapConfig,
    result: Result<ChannelPlan<C, M, G, N>, BuildError>,
) where
    E: FnOnce() -> Result<BootstrapConfig, BootstrapError>,
    L: FnOnce() -> Result<BootstrapConfig, BootstrapError>,
    I: FnOnce(InstanceMap<ProviderSource<P>>) -> Result<G, CertProviderError>,
    K: FnOnce(String) -> Result<N, BootstrapError>,

    requires
        lazy.config@.bootstrap is None,
        eager.config@ == (ConfigView { bootstrap: Some(given@), ..lazy.config@ }),
        eager == (BuilderView { config: eager.config, ..lazy }),
        call_ensures(load, (), Ok(given)),
        forall|loaded: Result<BootstrapConfig, BootstrapError>| #[trigger]
            call_ensures(load, (), loaded) ==> loaded is Ok && loaded->Ok_0@ == given@,
    ensures
        plans(eager, tls, unused, init, convert, result) == plans(
            lazy,
            tls,
            load,
            init,
            convert,
            result,
        ),
        forall|decided: PlanView<C, M, G, N>|
            decides(eager, tls, unused, init, convert, decided) == #[trigger] decides(
                lazy,
                tls,
                load,
                init,
                convert,
                decided,
            ),
        steps_ready(lazy, tls, load, init, convert) == (call_requires(load, ()) && steps_ready(
            eager,
            tls,
            unused,
            init,
            convert,
        )),
{
    lemma_eager_outcomes_are_lazy::<C, M, P, G, N, L, E, I, K>(
        eager,
        lazy,
        tls,
        load,
        unused,
        init,
        convert,
        given,
    );
    if steps_ready(lazy, tls, load, init, convert) {
        assert forall|bootstrap: BootstrapConfig, sources: InstanceMap<ProviderSource<P>>|
            #![trigger accepts(eager, tls, unused, bootstrap), call_requires(init, (sources,))]
            tls.certificate_providers && accepts(eager, tls, unused, bootstrap) && sources@
                == resolved(
                bootstrap@.certificate_providers,
                eager.cert_providers,
            ) implies call_requires(init, (sources,)) by {
            assert(accepts(lazy, tls, load, given));
        }
        assert forall|
            bootstrap: BootstrapConfig,
            registry: Option<Result<G, CertProviderError>>,
            text: String,
        |
            #![trigger registers(eager, tls, init, bootstrap, registry), call_requires(convert, (text,))]
            accepts(eager, tls, unused, bootstrap) && registers(
                eager,
                tls,
                init,
                bootstrap,
                registry,
            ) && !(registry matches Some(Err(_))) && text@
                == bootstrap@.node implies call_requires(convert, (text,)) by {
            assert(registers(lazy, tls, init, given, registry));
        }
    }
    if call_requires(load, ()) && steps_ready(eager, tls, unused, init, convert) {
        assert forall|bootstrap: BootstrapConfig, sources: InstanceMap<ProviderSource<P>>|
            #![trigger accepts(lazy, tls, load, bootstrap), call_requires(init, (sources,))]
            tls.certificate_providers && accepts(lazy, tls, load, bootstrap) && sources@ == resolved(
                bootstrap@.certificate_providers,
                lazy.cert_providers,
            ) implies call_requires(init, (sources,)) by {
            assert(accepts(eager, tls, unused, bootstrap));
        }
        assert forall|
            bootstrap: BootstrapConfig,
            registry: Option<Result<G, CertProviderError>>,
            text: String,
        |
            #![trigger registers(lazy, tls, init, bootstrap, registry), call_requires(convert, (text,))]
            accepts(lazy, tls, load, bootstrap) && registers(
                lazy,
                tls,
                init,
                bootstrap,
                registry,
            ) && !(registry matches Some(Err(_))) && text@
                == bootstrap@.node implies call_requires(convert, (text,)) by {
            assert(registers(eager, tls, init, bootstrap, registry));
        }
    }
}

/// Whether a lazy and an eager build came to the same: to one error, or to channels that
/// differ in the configuration of their builders alone.
pub open spec fn same_but_config<C: ?Sized, M: ?Sized, P: ?Sized, S, T>(
    eager: BuilderView<C, M, P>,
    lazy: BuilderView<C, M, P>,
    from_eager: Result<XdsChannel<S, C, T>, BuildError>,
    from_lazy: Result<XdsChannel<S, C, T>, BuildError>,
) -> bool {
    match (from_eager, from_lazy) {
        (Ok(a), Ok(b)) => {
            &&& a.built_from() == eager.config
            &&& b.built_from() == lazy.config
            &&& a.forwards_to() == b.forwards_to()
            &&& a.keeps_alive() == b.keeps_alive()
        },
        (Err(a), Err(b)) => a == b,
        _ => false,
    }
}

/// A build over a bootstrap that was loaded at config time may come to exactly what a
/// build that loads it may come to, and asks the same of connecting.
pub proof fn law_eager_and_lazy_builds_agree<
    C: ?Sized,
    M: ?Sized,
    P: ?Sized,
    G,
    N,
    R: ?Sized,
    Q,
    S,
    T,
    L,
    E,
    I,
    K,
    O,
    F,
>(
    eager: BuilderView<C, M, P>,
    lazy: BuilderView<C, M, P>,
    tls: TlsSupport,
    load: L,
    unused: E,
    init: I,
    convert: K,
    connect: O,
    given: BootstrapConfig,
    from_eager: Result<XdsChannel<XdsRoutingService<S, R>, C, T>, BuildError>,
    from_lazy: Result<XdsChannel<XdsRoutingService<S, R>, C, T>, BuildError>,
) where
    Q: Default,
    E: FnOnce() -> Result<BootstrapConfig, BootstrapError>,
    L: FnOnce() -> Result<BootstrapConfig, BootstrapError>,
    I: FnOnce(InstanceMap<ProviderSource<P>>) -> Result<G, CertProviderError>,
    K: FnOnce(String) -> Result<N, BootstrapError>,
    O: FnOnce(ChannelPlan<C, M, G, N>) -> (Arc<R>, T, F),
    F: FnOnce(Q) -> S,

    requires
        lazy.config@.bootstrap is None,
        eager.config@ == (ConfigView { bootstrap: Some(given@), ..lazy.config@ }),
        eager == (BuilderView { config: eager.config, ..lazy }),
        call_ensures(load, (), Ok(given)),
        forall|loaded: Result<BootstrapConfig, BootstrapError>| #[trigger]
            call_ensures(load, (), loaded) ==> loaded is Ok && loaded->Ok_0@ == given@,
        same_but_config(eager, lazy, from_eager, from_lazy),
    ensures
        builds(eager, tls, unused, init, convert, connect, from_eager) == builds(
            lazy,
            tls,
            load,
            init,
            convert,
            connect,
            from_lazy,
        ),
        connect_ready(eager, tls, unused, init, convert, connect) == connect_ready(
            lazy,
            tls,
            load,
            init,
            convert,
            connect,
        ),
{
    lemma_eager_outcomes_are_lazy::<C, M, P, G, N, L, E, I, K>(
        eager,
        lazy,
        tls,
        load,
        unused,
        init,
        convert,
        given,
    );
}

/// The outcomes of a lazy build are those of an eager one, and for each outcome of an
/// eager build there is one of a lazy build, with a bootstrap that says the same, that
/// leads to the same decision.
proof fn lemma_eager_outcomes_are_lazy<C: ?Sized, M: ?Sized, P: ?Sized, G, N, L, E, I, K>(
    eager: BuilderView<C, M, P>,
    lazy: BuilderView<C, M, P>,
    tls: TlsSupport,
    load: L,
    unused: E,
    init: I,
    convert: K,
    given: BootstrapConfig,
) where
    E: FnOnce() -> Result<BootstrapConfig, BootstrapError>,
    L: FnOnce() -> Result<BootstrapConfig, BootstrapError>,
    I: FnOnce(InstanceMap<ProviderSource<P>>) -> Result<G, CertProviderError>,
    K: FnOnce(String) -> Result<N, BootstrapError>,

    requires
        lazy.config@.bootstrap is None,
        eager.config@ == (ConfigView { bootstrap: Some(given@), ..lazy.config@ }),
        eager == (BuilderView { config: eager.config, ..lazy }),
        call_ensures(load, (), Ok(given)),
        forall|loaded: Result<BootstrapConfig, BootstrapError>| #[trigger]
            call_ensures(load, (), loaded) ==> loaded is Ok && loaded->Ok_0@ == given@,
    ensures
        forall|outcomes: BuildOutcomes<G, N>| #[trigger]
            outcomes_of(lazy, tls, load, init, convert, outcomes) ==> outcomes_of(
                eager,
                tls,
                unused,
                init,
                convert,
                outcomes,
            ) && build_decision(eager, tls, outcomes) == build_decision(lazy, tls, outcomes),
        forall|outcomes: BuildOutcomes<G, N>| #[trigger]
            outcomes_of(eager, tls, unused, init, convert, outcomes) ==> {
                let served = BuildOutcomes::<G, N> { loaded: Ok(given), ..outcomes };
                outcomes_of(lazy, tls, load, init, convert, served) && build_decision(
                    lazy,
                    tls,
                    served,
                ) == build_decision(eager, tls, outcomes)
            },
{
}

/// Where no bootstrap is configured and loading can only fail with one error, building
/// can only fail with that error.
pub proof fn law_load_error_is_the_builds<
    C: ?Sized,
    M: ?Sized,
    P: ?Sized,
    G,
    N,
    R: ?Sized,
    Q,
    S,
    T,
    L,
    I,
    K,
    O,
    F,
>(
    builder: BuilderView<C, M, P>,
    tls: TlsSupport,
    load: L,
    init: I,
    convert: K,
    connect: O,
    error: BootstrapError,
    result: Result<XdsChannel<XdsRoutingService<S, R>, C, T>, BuildError>,
) where
    Q: Default,
    L: FnOnce() -> Result<BootstrapConfig, BootstrapError>,
    I: FnOnce(InstanceMap<ProviderSource<P>>) -> Result<G, CertProviderError>,
    K: FnOnce(String) -> Result<N, BootstrapError>,
    O: FnOnce(ChannelPlan<C, M, G, N>) -> (Arc<R>, T, F),
    F: FnOnce(Q) -> S,

    requires
        builder.config@.bootstrap is None,
        forall|loaded: Result<BootstrapConfig, BootstrapError>| #[trigger]
            call_ensures(load, (), loaded) ==> loaded == Err::<BootstrapConfig, BootstrapError>(
                error,
            ),
        builds(builder, tls, load, init, convert, connect, result),
    ensures
        result is Err,
        result->Err_0 == BuildError::Bootstrap(error),
{
    let outcomes = choose|outcomes: BuildOutcomes<G, N>| #[trigger]
        outcomes_of(builder, tls, load, init, convert, outcomes) && match build_decision(
            builder,
            tls,
            outcomes,
        ) {
            Ok(decided) => result is Ok,
            Err(failure) => result is Err && reports(result->Err_0, failure),
        };
}

/// A bootstrap that asks for TLS where no TLS backend is built in ends the build with a
/// validation error, whether it was configured or loaded; no certificate provider is
/// initialized, and the node's description is not used.
pub proof fn law_unavailable_tls_ends_the_build<C: ?Sized, M: ?Sized, P: ?Sized, G, N, L, I, K>(
    builder: BuilderView<C, M, P>,
    tls: TlsSupport,
    load: L,
    init: I,
    convert: K,
    outcomes: BuildOutcomes<G, N>,
    error: BuildError,
) where
    L: FnOnce() -> Result<BootstrapConfig, BootstrapError>,
    I: FnOnce(InstanceMap<ProviderSource<P>>) -> Result<G, CertProviderError>,
    K: FnOnce(String) -> Result<N, BootstrapError>,

    requires
        outcomes_of(builder, tls, load, init, convert, outcomes),
        outcomes.loaded matches Ok(bootstrap) && bootstrap@.use_tls,
        !tls.backend,
        reports(error, BuildFailure::TlsUnavailable),
    ensures
        outcomes.registry is None,
        outcomes.node is None,
        build_decision(builder, tls, outcomes) == Err::<
            PlanView<C, M, G, N>,
            BuildFailure,
        >(BuildFailure::TlsUnavailable),
        error matches BuildError::Bootstrap(cause) && cause is Validation,
{
}

/// Where every bootstrap that a build can start from asks for TLS, and no TLS backend is
/// built in, the build asks nothing of the steps after loading, nor of connecting, not
/// even that they can be called: whatever they are, none of them is taken.
pub proof fn law_unavailable_tls_starts_nothing<
    C: ?Sized,
    M: ?Sized,
    P: ?Sized,
    G,
    N,
    R: ?Sized,
    Q,
    S,
    T,
    L,
    I,
    K,
    O,
    F,
>(
    builder: BuilderView<C, M, P>,
    tls: TlsSupport,
    load: L,
    init: I,
    convert: K,
    connect: O,
) where
    Q: Default,
    L: FnOnce() -> Result<BootstrapConfig, BootstrapError>,
    I: FnOnce(InstanceMap<ProviderSource<P>>) -> Result<G, CertProviderError>,
    K: FnOnce(String) -> Result<N, BootstrapError>,
    O: FnOnce(ChannelPlan<C, M, G, N>) -> (Arc<R>, T, F),
    F: FnOnce(Q) -> S,

    requires
        !tls.backend,
        builder.config@.bootstrap is None ==> call_requires(load, ()),
        forall|bootstrap: BootstrapConfig| #[trigger]
            loads(builder, load, Ok(bootstrap)) ==> bootstrap@.use_tls,
    ensures
        steps_ready(builder, tls, load, init, convert),
        connect_ready(builder, tls, load, init, convert, connect),
{
    assert forall|decided: PlanView<C, M, G, N>| !#[trigger] decides(
        builder,
        tls,
        load,
        init,
        convert,
        decided,
    ) by {}
}

/// Where the certificate providers cannot come up, the build asks nothing of the step
/// after them: it is not taken.
pub proof fn law_failed_providers_end_the_build<
    C: ?Sized,
    M: ?Sized,
    P: ?Sized,
    G,
    N,
    L,
    I,
    K,
    O,
>(
    builder: BuilderView<C, M, P>,
    tls: TlsSupport,
    load: L,
    init: I,
    convert: K,
    other_convert: O,
) where
    O: FnOnce(String) -> Result<N, BootstrapError>,
    L: FnOnce() -> Result<BootstrapConfig, BootstrapError>,
    I: FnOnce(InstanceMap<ProviderSource<P>>) -> Result<G, CertProviderError>,
    K: FnOnce(String) -> Result<N, BootstrapError>,

    requires
        forall|bootstrap: BootstrapConfig, registry: Option<Result<G, CertProviderError>>|
            accepts(builder, tls, load, bootstrap) && #[trigger] registers(
                builder,
                tls,
                init,
                bootstrap,
                registry,
            ) ==> (registry matches Some(Err(_))),
    ensures
        steps_ready(builder, tls, load, init, convert) == steps_ready(
            builder,
            tls,
            load,
            init,
            other_convert,
        ),
{
}

/// A build that fails starts nothing: where the steps can lead to no plan, the build
/// fails, and asks nothing of connecting, not even that it can be called.
pub proof fn law_failed_build_starts_nothing<
    C: ?Sized,
    M: ?Sized,
    P: ?Sized,
    G,
    N,
    R: ?Sized,
    Q,
    S,
    T,
    L,
    I,
    K,
    O,
    F,
>(
    builder: BuilderView<C, M, P>,
    tls: TlsSupport,
    load: L,
    init: I,
    convert: K,
    connect: O,
    result: Result<XdsChannel<XdsRoutingService<S, R>, C, T>, BuildError>,
) where
    Q: Default,
    L: FnOnce() -> Result<BootstrapConfig, BootstrapError>,
    I: FnOnce(InstanceMap<ProviderSource<P>>) -> Result<G, CertProviderError>,
    K: FnOnce(String) -> Result<N, BootstrapError>,
    O: FnOnce(ChannelPlan<C, M, G, N>) -> (Arc<R>, T, F),
    F: FnOnce(Q) -> S,

    requires
        forall|decided: PlanView<C, M, G, N>| !#[trigger] decides(
            builder,
            tls,
            load,
            init,
            convert,
            decided,
        ),
    ensures
        connect_ready(builder, tls, load, init, convert, connect),
        builds(builder, tls, load, init, convert, connect, result) ==> result is Err,
{
    if builds(builder, tls, load, init, convert, connect, result) && result is Ok {
        let outcomes = choose|outcomes: BuildOutcomes<G, N>| #[trigger]
            outcomes_of(builder, tls, load, init, convert, outcomes) && build_decision(
                builder,
                tls,
                outcomes,
            ) is Ok;
        assert(decides(
            builder,
            tls,
            load,
            init,
            convert,
            build_decision(builder, tls, outcomes)->Ok_0,
        ));
    }
}

/// Whether the steps of a build give the same each time: for the same arguments, a
/// bootstrap that says the same, or the same error, and a step goes well either always
/// or never.
pub open spec fn steps_repeat<P: ?Sized, G, N, L, I, K>(load: L, init: I, convert: K) -> bool where
    L: FnOnce() -> Result<BootstrapConfig, BootstrapError>,
    I: FnOnce(InstanceMap<ProviderSource<P>>) -> Result<G, CertProviderError>,
    K: FnOnce(String) -> Result<N, BootstrapError>,
 {
    &&& forall|
        a: Result<BootstrapConfig, BootstrapError>,
        b: Result<BootstrapConfig, BootstrapError>,
    | #[trigger]
        call_ensures(load, (), a) && #[trigger] call_ensures(load, (), b) ==> match (a, b) {
            (Ok(one), Ok(two)) => one@ == two@,
            (Err(one), Err(two)) => one == two,
            _ => false,
        }
    &&& forall|
        sources: InstanceMap<ProviderSource<P>>,
        a: Result<G, CertProviderError>,
        again: InstanceMap<ProviderSource<P>>,
        b: Result<G, CertProviderError>,
    | #[trigger]
        call_ensures(init, (sources,), a) && #[trigger] call_ensures(init, (again,), b) && sources@
            == again@ ==> match (a, b) {
            (Ok(_), Ok(_)) => true,
            (Err(one), Err(two)) => one == two,
            _ => false,
        }
    &&& forall|
        text: String,
        a: Result<N, BootstrapError>,
        again: String,
        b: Result<N, BootstrapError>,
    | #[trigger]
        call_ensures(convert, (text,), a) && #[trigger] call_ensures(convert, (again,), b) && text@
            == again@ ==> match (a, b) {
            (Ok(_), Ok(_)) => true,
            (Err(one), Err(two)) => one == two,
            _ => false,
        }
}

/// A builder can be used again: where the steps give the same each time, building twice
/// succeeds twice, with channels that route by one authority with one hook and have one
/// configuration, or fails twice, with errors of one kind and in the same words.
pub proof fn law_repeated_builds_agree<
    C: ?Sized,
    M: ?Sized,
    P: ?Sized,
    G,
    N,
    R: ?Sized,
    Q,
    S,
    T,
    L,
    I,
    K,
    O,
    F,
>(
    builder: BuilderView<C, M, P>,
    tls: TlsSupport,
    load: L,
    init: I,
    convert: K,
    connect: O,
    first: Result<XdsChannel<XdsRoutingService<S, R>, C, T>, BuildError>,
    second: Result<XdsChannel<XdsRoutingService<S, R>, C, T>, BuildError>,
) where
    Q: Default,
    L: FnOnce() -> Result<BootstrapConfig, BootstrapError>,
    I: FnOnce(InstanceMap<ProviderSource<P>>) -> Result<G, CertProviderError>,
    K: FnOnce(String) -> Result<N, BootstrapError>,
    O: FnOnce(ChannelPlan<C, M, G, N>) -> (Arc<R>, T, F),
    F: FnOnce(Q) -> S,

    requires
        steps_repeat(load, init, convert),
        builds(builder, tls, load, init, convert, connect, first),
        builds(builder, tls, load, init, convert, connect, second),
    ensures
        match (first, second) {
            (Ok(a), Ok(b)) => {
                &&& a.forwards_to().routing().authority == b.forwards_to().routing().authority
                &&& a.forwards_to().routing().interceptor == b.forwards_to().routing().interceptor
                &&& a.built_from() == b.built_from()
            },
            (Err(a), Err(b)) => (a is Bootstrap <==> b is Bootstrap) && a.text() == b.text(),
            _ => false,
        },
{
    let one = choose|outcomes: BuildOutcomes<G, N>| #[trigger]
        outcomes_of(builder, tls, load, init, convert, outcomes) && match build_decision(
            builder,
            tls,
            outcomes,
        ) {
            Ok(decided) => first is Ok,
            Err(failure) => first is Err && reports(first->Err_0, failure),
        };
    let two = choose|outcomes: BuildOutcomes<G, N>| #[trigger]
        outcomes_of(builder, tls, load, init, convert, outcomes) && match build_decision(
            builder,
            tls,
            outcomes,
        ) {
            Ok(decided) => second is Ok,
            Err(failure) => second is Err && reports(second->Err_0, failure),
        };
}

/// A channel that was built routes by its target, with the registered hook and the
/// router that connecting gave, keeps alive what connecting gave, and has the
/// configuration of its builder; and it was connected as a plan says whose listener is
/// the authority that requests are routed by.
pub proof fn law_built_channel_is_the_planned_one<
    C: ?Sized,
    M: ?Sized,
    P: ?Sized,
    G,
    N,
    R: ?Sized,
    Q,
    S,
    T,
    L,
    I,
    K,
    O,
    F,
>(
    builder: BuilderView<C, M, P>,
    tls: TlsSupport,
    load: L,
    init: I,
    convert: K,
    connect: O,
    channel: XdsChannel<XdsRoutingService<S, R>, C, T>,
) -> (made: (ChannelPlan<C, M, G, N>, (Arc<R>, T, F))) where
    Q: Default,
    L: FnOnce() -> Result<BootstrapConfig, BootstrapError>,
    I: FnOnce(InstanceMap<ProviderSource<P>>) -> Result<G, CertProviderError>,
    K: FnOnce(String) -> Result<N, BootstrapError>,
    O: FnOnce(ChannelPlan<C, M, G, N>) -> (Arc<R>, T, F),
    F: FnOnce(Q) -> S,

    requires
        builds(builder, tls, load, init, convert, connect, Ok(channel)),
    ensures
        decides(builder, tls, load, init, convert, made.0@),
        call_ensures(connect, (made.0,), made.1),
        made.0.listener_name@ == channel.forwards_to().routing().authority,
        channel.forwards_to().routing().authority == builder.config@.target,
        channel.forwards_to().routing().interceptor == builder.pre_route,
        channel.forwards_to().routing().router == made.1.0,
        channel.keeps_alive() is Some,
        *channel.keeps_alive()->0 == made.1.1,
        channel.built_from() == builder.config,
{
    let result: Result<XdsChannel<XdsRoutingService<S, R>, C, T>, BuildError> = Ok(channel);
    let outcomes = choose|outcomes: BuildOutcomes<G, N>| #[trigger]
        outcomes_of(builder, tls, load, init, convert, outcomes) && match build_decision(
            builder,
            tls,
            outcomes,
        ) {
            Ok(decided) => exists|plan: ChannelPlan<C, M, G, N>, parts: (Arc<R>, T, F)| #[trigger]
                call_ensures(connect, (plan,), parts) && plan@ == decided && wires(
                    builder,
                    parts.0,
                    parts.1,
                    parts.2,
                    channel,
                ),
            Err(failure) => false,
        };
    let decided = build_decision(builder, tls, outcomes)->Ok_0;
    choose|plan: ChannelPlan<C, M, G, N>, parts: (Arc<R>, T, F)| #[trigger]
        call_ensures(connect, (plan,), parts) && plan@ == decided && wires(
            builder,
            parts.0,
            parts.1,
            parts.2,
            channel,
        )
}

/// A build fails exactly where one of its steps does: it comes to a plan if and only if
/// the bootstrap is there, the transport is available, the certificate providers came up
/// where they are available, and the node's description could be used.
pub proof fn law_build_succeeds_iff_every_step_does<
    C: ?Sized,
    M: ?Sized,
    P: ?Sized,
    G,
    N,
    L,
    I,
    K,
>(
    builder: BuilderView<C, M, P>,
    tls: TlsSupport,
    load: L,
    init: I,
    convert: K,
    outcomes: BuildOutcomes<G, N>,
) where
    L: FnOnce() -> Result<BootstrapConfig, BootstrapError>,
    I: FnOnce(InstanceMap<ProviderSource<P>>) -> Result<G, CertProviderError>,
    K: FnOnce(String) -> Result<N, BootstrapError>,

    requires
        outcomes_of(builder, tls, load, init, convert, outcomes),
    ensures
        build_decision(builder, tls, outcomes) is Ok <==> {
            &&& (outcomes.loaded matches Ok(bootstrap) && transport_available(bootstrap@, tls))
            &&& (tls.certificate_providers ==> (outcomes.registry matches Some(Ok(_))))
            &&& (outcomes.node matches Some(Ok(_)))
        },
{
}

/// The channel watches the listener that its requests are routed by: the listener's
/// name is the authority of the routing layer, and the reported target is its URI.
pub proof fn law_listener_is_the_authority<C: ?Sized, M: ?Sized, P: ?Sized, R: ?Sized, G, N>(
    builder: BuilderView<C, M, P>,
    tls: TlsSupport,
    outcomes: BuildOutcomes<G, N>,
    router: Arc<R>,
    interceptor: Option<Arc<dyn PreRouteInterceptor>>,
)
    requires
        build_decision(builder, tls, outcomes) is Ok,
    ensures
        build_decision(builder, tls, outcomes)->Ok_0.listener_name == stack_routing(
            builder,
            router,
            interceptor,
        ).authority,
        build_decision(builder, tls, outcomes)->Ok_0.target == XDS_PREFIX@ + stack_routing(
            builder,
            router,
            interceptor,
        ).authority,
{
}

/// The plan attaches credentials and a metrics recorder exactly where they were set;
/// without a recorder no metrics are emitted.
pub proof fn law_plan_carries_what_was_set<C: ?Sized, M: ?Sized, P: ?Sized, G, N>(
    builder: BuilderView<C, M, P>,
    tls: TlsSupport,
    outcomes: BuildOutcomes<G, N>,
)
    requires
        build_decision(builder, tls, outcomes) is Ok,
    ensures
        build_decision(builder, tls, outcomes)->Ok_0.call_creds == builder.config@.call_creds,
        build_decision(builder, tls, outcomes)->Ok_0.recorder == builder.recorder,
{
}

/// A provider registered under a name shadows whatever the bootstrap or an earlier
/// registration has under that name, and leaves every other name as it was: the registry
/// that a channel is connected with was made of sources in which that name resolves to
/// that provider, and every other name to what it resolves to without the registration.
/// The name, the bootstrap and those sources are handed back.
pub proof fn law_registered_provider_shadows<C: ?Sized, M: ?Sized, P: ?Sized, A, G, N, L, I, K>(
    builder: XdsChannelBuilder<C, M, P>,
    instance_name: A,
    provider: Arc<P>,
    after: XdsChannelBuilder<C, M, P>,
    tls: TlsSupport,
    load: L,
    init: I,
    convert: K,
    decided: PlanView<C, M, G, N>,
) -> (made_of: (String, BootstrapConfig, InstanceMap<ProviderSource<P>>)) where
    A: Into<String>,
    L: FnOnce() -> Result<BootstrapConfig, BootstrapError>,
    I: FnOnce(InstanceMap<ProviderSource<P>>) -> Result<G, CertProviderError>,
    K: FnOnce(String) -> Result<N, BootstrapError>,

    requires
        call_ensures(
            XdsChannelBuilder::<C, M, P>::with_certificate_provider::<A>,
            (builder, instance_name, provider),
            after,
        ),
        tls.certificate_providers,
        decides(after@, tls, load, init, convert, decided),
    ensures
        call_ensures(A::into, (instance_name,), made_of.0),
        accepts(after@, tls, load, made_of.1),
        decided.registry is Some,
        call_ensures(init, (made_of.2,), Ok(decided.registry->0)),
        made_of.2@.dom().contains(made_of.0@),
        made_of.2@[made_of.0@] matches ProviderSource::Registered { provider: found, .. } && found
            == provider,
        forall|other: Seq<char>|
            other != made_of.0@ ==> {
                let without = resolved(made_of.1@.certificate_providers, builder@.cert_providers);
                &&& #[trigger] made_of.2@.dom().contains(other) <==> without.dom().contains(other)
                &&& without.dom().contains(other) ==> made_of.2@[other] == without[other]
            },
{
    let name = choose|name: String| #[trigger]
        call_ensures(A::into, (instance_name,), name) && after@ == registered_under(
            builder@,
            name@,
            provider,
        );
    let outcomes = choose|outcomes: BuildOutcomes<G, N>| #[trigger]
        outcomes_of(after@, tls, load, init, convert, outcomes) && build_decision(
            after@,
            tls,
            outcomes,
        ) == Ok::<PlanView<C, M, G, N>, BuildFailure>(decided);
    let bootstrap = outcomes.loaded->Ok_0;
    let sources = choose|sources: InstanceMap<ProviderSource<P>>| #[trigger]
        call_ensures(init, (sources,), outcomes.registry->0) && sources@ == resolved(
            bootstrap@.certificate_providers,
            after@.cert_providers,
        );
    (name, bootstrap, sources)
}

/// A name that is not registered resolves to the bootstrap's instance, where it has one:
/// without a registration the bootstrap's instances are all that there is.
pub proof fn law_unregistered_names_are_the_bootstraps<P: ?Sized>(
    bootstrap: InstanceMap<CertProviderConfig>,
    registered: InstanceMap<Arc<P>>,
    sources: InstanceMap<ProviderSource<P>>,
    name: Seq<char>,
)
    requires
        call_ensures(resolve_providers::<P>, (&bootstrap, &registered), sources),
        !registered@.dom().contains(name),
    ensures
        sources@.dom().contains(name) <==> bootstrap@.dom().contains(name),
        sources@.dom().contains(name) ==> sources@[name] == ProviderSource::<P>::Bootstrap(
            bootstrap@[name],
        ),
{
}

/// Registrations under different names may be made in either order.
pub proof fn law_registration_order<C: ?Sized, M: ?Sized, P: ?Sized>(
    builder: XdsChannelBuilder<C, M, P>,
    a: String,
    b: String,
    first: Arc<P>,
    second: Arc<P>,
    with_a: XdsChannelBuilder<C, M, P>,
    a_then_b: XdsChannelBuilder<C, M, P>,
    with_b: XdsChannelBuilder<C, M, P>,
    b_then_a: XdsChannelBuilder<C, M, P>,
)
    requires
        a@ != b@,
        call_ensures(
            XdsChannelBuilder::<C, M, P>::with_provider_named,
            (builder, a, first),
            with_a,
        ),
        call_ensures(
            XdsChannelBuilder::<C, M, P>::with_provider_named,
            (with_a, b, second),
            a_then_b,
        ),
        call_ensures(
            XdsChannelBuilder::<C, M, P>::with_provider_named,
            (builder, b, second),
            with_b,
        ),
        call_ensures(
            XdsChannelBuilder::<C, M, P>::with_provider_named,
            (with_b, a, first),
            b_then_a,
        ),
    ensures
        a_then_b@ == b_then_a@,
{
    assert(a_then_b@.cert_providers =~= b_then_a@.cert_providers);
}

/// Of two registrations under one name the later counts: the builder is as if the earlier
/// had not been made.
pub proof fn law_later_registration_counts<C: ?Sized, M: ?Sized, P: ?Sized>(
    builder: XdsChannelBuilder<C, M, P>,
    name: String,
    earlier: Arc<P>,
    later: Arc<P>,
    once: XdsChannelBuilder<C, M, P>,
    twice: XdsChannelBuilder<C, M, P>,
    alone: XdsChannelBuilder<C, M, P>,
)
    requires
        call_ensures(
            XdsChannelBuilder::<C, M, P>::with_provider_named,
            (builder, name, earlier),
            once,
        ),
        call_ensures(
            XdsChannelBuilder::<C, M, P>::with_provider_named,
            (once, name, later),
            twice,
        ),
        call_ensures(
            XdsChannelBuilder::<C, M, P>::with_provider_named,
            (builder, name, later),
            alone,
        ),
    ensures
        twice@ == alone@,
{
    assert(twice@.cert_providers =~= alone@.cert_providers);
}

} // verus!
