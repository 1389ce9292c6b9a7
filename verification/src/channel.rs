//! The builder of a channel and the channel itself.

use std::sync::Arc;

use vstd::prelude::*;

use crate::bootstrap::{BootstrapConfig, BootstrapError, BootstrapView, CertProviderConfig};
use crate::config::XdsChannelConfig;
use crate::error::{BuildError, CertProviderError};
use crate::instances::{lists_once, share, InstanceMap};
use crate::route::{PreRouteInterceptor, RoutingView, XdsRoutingLayer, XdsRoutingService};
use crate::uri::XDS_PREFIX;

verus! {

/// Calls `Arc::<str>::from` on a string slice: a new shared string with the same
/// characters.
#[verifier::external_body]
fn shared_str(text: &str) -> (r: Arc<str>)
    ensures
        r@ == text@,
{
    Arc::from(text)
}

/// Why a bootstrap that asks for TLS is refused where no TLS backend is built in.
pub const TLS_UNAVAILABLE: &'static str =
    "TLS requested by bootstrap but no TLS feature enabled (enable tls-ring or tls-aws-lc)";

/// What is built in of TLS.
#[derive(Clone, Copy, Debug)]
pub struct TlsSupport {
    /// Whether the transport has a TLS backend.
    pub backend: bool,
    /// Whether certificate providers are available.
    pub certificate_providers: bool,
}

/// An xDS-capable channel around the service `S`, which routes requests according to
/// the xDS configuration that it fetches from the management server. `T` holds the
/// background tasks that must live as long as the channel.
pub struct XdsChannel<S, C: ?Sized, T> {
    config: Arc<XdsChannelConfig<C>>,
    inner: S,
    /// Keeps background tasks alive. `None` when built from parts.
    resources: Option<Arc<T>>,
}

impl<S, C: ?Sized, T> XdsChannel<S, C, T> {
    /// The configuration that the channel was built from.
    pub closed spec fn built_from(self) -> Arc<XdsChannelConfig<C>> {
        self.config
    }

    /// The service that requests go to.
    pub closed spec fn forwards_to(self) -> S {
        self.inner
    }

    /// What the channel keeps alive.
    pub closed spec fn keeps_alive(self) -> Option<Arc<T>> {
        self.resources
    }

    /// The configuration that the channel was built from.
    pub fn config(&self) -> (r: &XdsChannelConfig<C>)
        ensures
            *r == *self.built_from(),
    {
        &self.config
    }

    /// The service that requests go to.
    pub fn inner_mut(&mut self) -> (r: &mut S)
        ensures
            *r == old(self).forwards_to(),
            final(self).forwards_to() == *final(r),
            final(self).built_from() == old(self).built_from(),
            final(self).keeps_alive() == old(self).keeps_alive(),
    {
        &mut self.inner
    }
}

impl<S: Clone, C: ?Sized, T> Clone for XdsChannel<S, C, T> {
    /// A channel around a clone of the service, which shares the configuration and
    /// the background tasks.
    fn clone(&self) -> (r: Self)
        ensures
            r.built_from() == self.built_from(),
            cloned::<S>(self.forwards_to(), r.forwards_to()),
            r.keeps_alive() == self.keeps_alive(),
    {
        XdsChannel {
            config: self.config.clone(),
            inner: self.inner.clone(),
            resources: share(&self.resources),
        }
    }
}

/// Builder for creating an [`XdsChannel`]. `C` is the type of the call credentials,
/// `M` that of the metrics recorder and `P` that of the certificate providers.
pub struct XdsChannelBuilder<C: ?Sized, M: ?Sized, P: ?Sized> {
    config: Arc<XdsChannelConfig<C>>,
    recorder: Option<Arc<M>>,
    pre_route: Option<Arc<dyn PreRouteInterceptor>>,
    cert_providers: InstanceMap<Arc<P>>,
}

/// A builder as plain values.
#[verifier::reject_recursive_types(C)]
#[verifier::reject_recursive_types(M)]
#[verifier::reject_recursive_types(P)]
pub struct BuilderView<C: ?Sized, M: ?Sized, P: ?Sized> {
    pub config: Arc<XdsChannelConfig<C>>,
    pub recorder: Option<Arc<M>>,
    pub pre_route: Option<Arc<dyn PreRouteInterceptor>>,
    pub cert_providers: Map<Seq<char>, Arc<P>>,
}

impl<C: ?Sized, M: ?Sized, P: ?Sized> View for XdsChannelBuilder<C, M, P> {
    type V = BuilderView<C, M, P>;

    closed spec fn view(&self) -> BuilderView<C, M, P> {
        BuilderView {
            config: self.config,
            recorder: self.recorder,
            pre_route: self.pre_route,
            cert_providers: self.cert_providers@,
        }
    }
}

/// Everything that connecting to the management server and assembling the channel
/// depends on.
pub struct ChannelPlan<C: ?Sized, M: ?Sized, G, N> {
    /// The listener resource to watch.
    pub listener_name: String,
    /// The management server to connect to.
    pub server_uri: String,
    /// Whether the transport uses TLS.
    pub tls: bool,
    /// The call credentials to attach to the stream.
    pub call_creds: Option<Arc<C>>,
    /// The target that the client reports.
    pub target: String,
    /// The backend that receives the client's metrics; without one none are emitted.
    pub recorder: Option<Arc<M>>,
    /// The certificate providers, where they are available.
    pub registry: Option<G>,
    /// What the client says of the node it runs on.
    pub node: N,
}

/// A plan as plain values.
#[verifier::reject_recursive_types(C)]
#[verifier::reject_recursive_types(M)]
pub struct PlanView<C: ?Sized, M: ?Sized, G, N> {
    pub listener_name: Seq<char>,
    pub server_uri: Seq<char>,
    pub tls: bool,
    pub call_creds: Option<Arc<C>>,
    pub target: Seq<char>,
    pub recorder: Option<Arc<M>>,
    pub registry: Option<G>,
    pub node: N,
}

impl<C: ?Sized, M: ?Sized, G, N> View for ChannelPlan<C, M, G, N> {
    type V = PlanView<C, M, G, N>;

    open spec fn view(&self) -> PlanView<C, M, G, N> {
        PlanView {
            listener_name: self.listener_name@,
            server_uri: self.server_uri@,
            tls: self.tls,
            call_creds: self.call_creds,
            target: self.target@,
            recorder: self.recorder,
            registry: self.registry,
            node: self.node,
        }
    }
}

/// The step of a build that failed.
pub enum BuildFailure {
    /// The bootstrap configuration could not be loaded.
    Load(BootstrapError),
    /// The bootstrap asks for TLS, and no TLS backend is built in.
    TlsUnavailable,
    /// A certificate provider could not be initialized.
    Providers(CertProviderError),
    /// The description of the node could not be used.
    Node(BootstrapError),
}

/// Whether `error` is how `failure` is reported.
pub open spec fn reports(error: BuildError, failure: BuildFailure) -> bool {
    match failure {
        BuildFailure::Load(cause) => error == BuildError::Bootstrap(cause),
        BuildFailure::TlsUnavailable => error matches BuildError::Bootstrap(cause)
            && cause matches BootstrapError::Validation(reason) && reason@ == TLS_UNAVAILABLE@,
        BuildFailure::Providers(cause) => error == BuildError::CertProvider(cause),
        BuildFailure::Node(cause) => error == BuildError::Bootstrap(cause),
    }
}

/// What the steps of a build that are done elsewhere came to. `None` stands for a step
/// that is not taken.
#[verifier::reject_recursive_types(G)]
#[verifier::reject_recursive_types(N)]
pub struct BuildOutcomes<G, N> {
    pub loaded: Result<BootstrapConfig, BootstrapError>,
    pub registry: Option<Result<G, CertProviderError>>,
    pub node: Option<Result<N, BootstrapError>>,
}

/// Whether the transport can reach the server as the bootstrap asks.
pub open spec fn transport_available(bootstrap: BootstrapView, tls: TlsSupport) -> bool {
    bootstrap.use_tls ==> tls.backend
}

/// What a build comes to: the first step that failed, or the plan.
pub open spec fn build_decision<C: ?Sized, M: ?Sized, P: ?Sized, G, N>(
    builder: BuilderView<C, M, P>,
    tls: TlsSupport,
    outcomes: BuildOutcomes<G, N>,
) -> Result<PlanView<C, M, G, N>, BuildFailure> {
    match (outcomes.loaded, outcomes.registry, outcomes.node) {
        (Err(cause), _, _) => Err(BuildFailure::Load(cause)),
        (Ok(bootstrap), _, _) if !transport_available(bootstrap@, tls) => Err(
            BuildFailure::TlsUnavailable,
        ),
        (_, Some(Err(cause)), _) => Err(BuildFailure::Providers(cause)),
        (_, _, Some(Err(cause))) => Err(BuildFailure::Node(cause)),
        (Ok(bootstrap), registry, node) => Ok(
            PlanView {
                listener_name: builder.config@.target,
                server_uri: bootstrap@.server_uri,
                tls: bootstrap@.use_tls,
                call_creds: builder.config@.call_creds,
                target: XDS_PREFIX@ + builder.config@.target,
                recorder: builder.recorder,
                registry: match registry {
                    Some(Ok(ready)) => Some(ready),
                    _ => None,
                },
                node: node->0->Ok_0,
            },
        ),
    }
}

/// Whether `loaded` is the bootstrap that a build starts from: the configured one, or
/// else what `load` gave.
pub open spec fn loads<C: ?Sized, M: ?Sized, P: ?Sized, L>(
    builder: BuilderView<C, M, P>,
    load: L,
    loaded: Result<BootstrapConfig, BootstrapError>,
) -> bool where L: FnOnce() -> Result<BootstrapConfig, BootstrapError> {
    match builder.config@.bootstrap {
        Some(set) => loaded matches Ok(bootstrap) && bootstrap@ == set,
        None => call_ensures(load, (), loaded),
    }
}

/// Whether a build may go on with `bootstrap`.
pub open spec fn accepts<C: ?Sized, M: ?Sized, P: ?Sized, L>(
    builder: BuilderView<C, M, P>,
    tls: TlsSupport,
    load: L,
    bootstrap: BootstrapConfig,
) -> bool where L: FnOnce() -> Result<BootstrapConfig, BootstrapError> {
    loads(builder, load, Ok(bootstrap)) && transport_available(bootstrap@, tls)
}

/// Whether `registry` is what became of the certificate providers: where they are
/// available, what `init` made of the sources that their names resolve to.
pub open spec fn registers<C: ?Sized, M: ?Sized, P: ?Sized, G, I>(
    builder: BuilderView<C, M, P>,
    tls: TlsSupport,
    init: I,
    bootstrap: BootstrapConfig,
    registry: Option<Result<G, CertProviderError>>,
) -> bool where
    I: FnOnce(InstanceMap<ProviderSource<P>>) -> Result<G, CertProviderError>,
 {
    match registry {
        Some(made) => tls.certificate_providers && exists|sources: InstanceMap<ProviderSource<P>>|
            #[trigger]
            call_ensures(init, (sources,), made) && sources@ == resolved(
                bootstrap@.certificate_providers,
                builder.cert_providers,
            ),
        None => !tls.certificate_providers,
    }
}

/// Whether `outcomes` are what the given steps came to, in a build that takes each step
/// only after those before it went well: the bootstrap, the certificate providers, and
/// what `convert` made of the node's description.
pub open spec fn outcomes_of<C: ?Sized, M: ?Sized, P: ?Sized, G, N, L, I, K>(
    builder: BuilderView<C, M, P>,
    tls: TlsSupport,
    load: L,
    init: I,
    convert: K,
    outcomes: BuildOutcomes<G, N>,
) -> bool where
    L: FnOnce() -> Result<BootstrapConfig, BootstrapError>,
    I: FnOnce(InstanceMap<ProviderSource<P>>) -> Result<G, CertProviderError>,
    K: FnOnce(String) -> Result<N, BootstrapError>,
 {
    &&& loads(builder, load, outcomes.loaded)
    &&& match outcomes.loaded {
        Ok(bootstrap) if transport_available(bootstrap@, tls) => {
            &&& registers(builder, tls, init, bootstrap, outcomes.registry)
            &&& match outcomes.node {
                Some(made) => !(outcomes.registry matches Some(Err(_))) && exists|text: String|
                    #[trigger] call_ensures(convert, (text,), made) && text@ == bootstrap@.node,
                None => outcomes.registry matches Some(Err(_)),
            }
        },
        _ => outcomes.registry is None && outcomes.node is None,
    }
}

/// What a build needs of its steps: each can be taken where its turn comes, with what it
/// is then given. Of a step whose turn does not come nothing is needed: `load` where a
/// bootstrap is configured, `init` and `convert` without a bootstrap to go on with, `init`
/// where certificate providers are not available, `convert` after `init` failed.
pub open spec fn steps_ready<C: ?Sized, M: ?Sized, P: ?Sized, G, N, L, I, K>(
    builder: BuilderView<C, M, P>,
    tls: TlsSupport,
    load: L,
    init: I,
    convert: K,
) -> bool where
    L: FnOnce() -> Result<BootstrapConfig, BootstrapError>,
    I: FnOnce(InstanceMap<ProviderSource<P>>) -> Result<G, CertProviderError>,
    K: FnOnce(String) -> Result<N, BootstrapError>,
 {
    &&& builder.config@.bootstrap is None ==> call_requires(load, ())
    &&& forall|bootstrap: BootstrapConfig, sources: InstanceMap<ProviderSource<P>>|
        #![trigger accepts(builder, tls, load, bootstrap), call_requires(init, (sources,))]
        tls.certificate_providers && accepts(builder, tls, load, bootstrap) && sources@ == resolved(
            bootstrap@.certificate_providers,
            builder.cert_providers,
        ) ==> call_requires(init, (sources,))
    &&& forall|
        bootstrap: BootstrapConfig,
        registry: Option<Result<G, CertProviderError>>,
        text: String,
    |
        #![trigger registers(builder, tls, init, bootstrap, registry), call_requires(convert, (text,))]
        accepts(builder, tls, load, bootstrap) && registers(
            builder,
            tls,
            init,
            bootstrap,
            registry,
        ) && !(registry matches Some(Err(_))) && text@ == bootstrap@.node ==> call_requires(
            convert,
            (text,),
        )
}

/// Whether a build whose steps all go well may decide on this plan.
pub open spec fn decides<C: ?Sized, M: ?Sized, P: ?Sized, G, N, L, I, K>(
    builder: BuilderView<C, M, P>,
    tls: TlsSupport,
    load: L,
    init: I,
    convert: K,
    decided: PlanView<C, M, G, N>,
) -> bool where
    L: FnOnce() -> Result<BootstrapConfig, BootstrapError>,
    I: FnOnce(InstanceMap<ProviderSource<P>>) -> Result<G, CertProviderError>,
    K: FnOnce(String) -> Result<N, BootstrapError>,
 {
    exists|outcomes: BuildOutcomes<G, N>| #[trigger]
        outcomes_of(builder, tls, load, init, convert, outcomes) && build_decision(
            builder,
            tls,
            outcomes,
        ) == Ok::<PlanView<C, M, G, N>, BuildFailure>(decided)
}

/// Whether `result` is what planning with these steps may come to: the decided plan, or
/// the error that reports the step that failed.
pub open spec fn plans<C: ?Sized, M: ?Sized, P: ?Sized, G, N, L, I, K>(
    builder: BuilderView<C, M, P>,
    tls: TlsSupport,
    load: L,
    init: I,
    convert: K,
    result: Result<ChannelPlan<C, M, G, N>, BuildError>,
) -> bool where
    L: FnOnce() -> Result<BootstrapConfig, BootstrapError>,
    I: FnOnce(InstanceMap<ProviderSource<P>>) -> Result<G, CertProviderError>,
    K: FnOnce(String) -> Result<N, BootstrapError>,
 {
    exists|outcomes: BuildOutcomes<G, N>| #[trigger]
        outcomes_of(builder, tls, load, init, convert, outcomes) && match build_decision(
            builder,
            tls,
            outcomes,
        ) {
            Ok(decided) => result is Ok && result->Ok_0@ == decided,
            Err(failure) => result is Err && reports(result->Err_0, failure),
        }
}

/// What a build needs of connecting: it can be done for a plan that was decided on, and
/// what it then gives to put retries around can be called with a default policy. Where no
/// plan can be decided on, nothing is needed.
pub open spec fn connect_ready<
    C: ?Sized,
    M: ?Sized,
    P: ?Sized,
    G,
    N,
    R: ?Sized,
    Q,
    S,
    T,
    L,
    I,
    K,
    O,
    F,
>(
    builder: BuilderView<C, M, P>,
    tls: TlsSupport,
    load: L,
    init: I,
    convert: K,
    connect: O,
) -> bool where
    Q: Default,
    L: FnOnce() -> Result<BootstrapConfig, BootstrapError>,
    I: FnOnce(InstanceMap<ProviderSource<P>>) -> Result<G, CertProviderError>,
    K: FnOnce(String) -> Result<N, BootstrapError>,
    O: FnOnce(ChannelPlan<C, M, G, N>) -> (Arc<R>, T, F),
    F: FnOnce(Q) -> S,
 {
    &&& forall|plan: ChannelPlan<C, M, G, N>|
        decides(builder, tls, load, init, convert, plan@) ==> #[trigger] call_requires(
            connect,
            (plan,),
        )
    &&& forall|plan: ChannelPlan<C, M, G, N>, parts: (Arc<R>, T, F), policy: Q|
        decides(builder, tls, load, init, convert, plan@) && #[trigger] call_ensures(
            connect,
            (plan,),
            parts,
        ) && call_ensures(Q::default, (), policy) ==> #[trigger] call_requires(
            parts.2,
            (policy,),
        )
}

/// Whether `channel` is the wired channel of `builder`: it routes with the given router,
/// the registered hook and the target, around what `retried` makes of a default policy;
/// it has the builder's configuration, and keeps `resources` alive.
pub open spec fn wires<C: ?Sized, M: ?Sized, P: ?Sized, R: ?Sized, Q, S, T, F>(
    builder: BuilderView<C, M, P>,
    router: Arc<R>,
    resources: T,
    retried: F,
    channel: XdsChannel<XdsRoutingService<S, R>, C, T>,
) -> bool where Q: Default, F: FnOnce(Q) -> S {
    &&& channel.forwards_to().routing() == stack_routing(builder, router, builder.pre_route)
    &&& exists|policy: Q| #[trigger]
        call_ensures(retried, (policy,), channel.forwards_to().forwards_to()) && call_ensures(
            Q::default,
            (),
            policy,
        )
    &&& channel.built_from() == builder.config
    &&& channel.keeps_alive() is Some
    &&& *channel.keeps_alive()->0 == resources
}

/// Whether `result` is what a build with these steps may come to: the channel that was
/// wired of what `connect` made of the decided plan, or the error that reports the step
/// that failed.
pub open spec fn builds<
    C: ?Sized,
    M: ?Sized,
    P: ?Sized,
    G,
    N,
    R: ?Sized,
    Q,
    S,
    T,
    L,
    I,
    K,
    O,
    F,
>(
    builder: BuilderView<C, M, P>,
    tls: TlsSupport,
    load: L,
    init: I,
    convert: K,
    connect: O,
    result: Result<XdsChannel<XdsRoutingService<S, R>, C, T>, BuildError>,
) -> bool where
    Q: Default,
    L: FnOnce() -> Result<BootstrapConfig, BootstrapError>,
    I: FnOnce(InstanceMap<ProviderSource<P>>) -> Result<G, CertProviderError>,
    K: FnOnce(String) -> Result<N, BootstrapError>,
    O: FnOnce(ChannelPlan<C, M, G, N>) -> (Arc<R>, T, F),
    F: FnOnce(Q) -> S,
 {
    exists|outcomes: BuildOutcomes<G, N>| #[trigger]
        outcomes_of(builder, tls, load, init, convert, outcomes) && match build_decision(
            builder,
            tls,
            outcomes,
        ) {
            Ok(decided) => result is Ok && exists|
                plan: ChannelPlan<C, M, G, N>,
                parts: (Arc<R>, T, F),
            | #[trigger]
                call_ensures(connect, (plan,), parts) && plan@ == decided && wires(
                    builder,
                    parts.0,
                    parts.1,
                    parts.2,
                    result->Ok_0,
                ),
            Err(failure) => result is Err && reports(result->Err_0, failure),
        }
}

/// Takes the bootstrap that was obtained for a build: fails where it could not be
/// loaded, or where it asks for TLS and no TLS backend is built in.
pub fn accept_bootstrap(
    loaded: Result<BootstrapConfig, BootstrapError>,
    tls: TlsSupport,
) -> (r: Result<BootstrapConfig, BuildError>)
    ensures
        match loaded {
            Ok(bootstrap) => if transport_available(bootstrap@, tls) {
                r == Ok::<BootstrapConfig, BuildError>(bootstrap)
            } else {
                r matches Err(error) && reports(error, BuildFailure::TlsUnavailable)
            },
            Err(cause) => r matches Err(error) && reports(error, BuildFailure::Load(cause)),
        },
{
    match loaded {
        Ok(bootstrap) => {
            if bootstrap.use_tls() && !tls.backend {
                Err(BuildError::Bootstrap(BootstrapError::Validation(TLS_UNAVAILABLE.to_owned())))
            } else {
                Ok(bootstrap)
            }
        },
        Err(cause) => Err(BuildError::from(cause)),
    }
}

/// What a certificate provider instance name resolves to.
pub enum ProviderSource<P: ?Sized> {
    /// A provider that was registered with the builder.
    Registered {
        /// The provider.
        provider: Arc<P>,
        /// The instance of that name in the bootstrap, if it has one: it is not used.
        shadowed: Option<CertProviderConfig>,
    },
    /// An instance that the bootstrap configures.
    Bootstrap(CertProviderConfig),
}

/// What `name` resolves to, where it is registered or the bootstrap has it: the registered
/// provider, where there is one; otherwise the bootstrap's instance.
pub open spec fn source_of<P: ?Sized>(
    bootstrap: Map<Seq<char>, CertProviderConfig>,
    registered: Map<Seq<char>, Arc<P>>,
    name: Seq<char>,
) -> ProviderSource<P> {
    if registered.dom().contains(name) {
        ProviderSource::Registered {
            provider: registered[name],
            shadowed: if bootstrap.dom().contains(name) {
                Some(bootstrap[name])
            } else {
                None
            },
        }
    } else {
        ProviderSource::Bootstrap(bootstrap[name])
    }
}

/// What each instance name resolves to.
pub open spec fn resolved<P: ?Sized>(
    bootstrap: Map<Seq<char>, CertProviderConfig>,
    registered: Map<Seq<char>, Arc<P>>,
) -> Map<Seq<char>, ProviderSource<P>> {
    Map::new(
        |name: Seq<char>| registered.dom().contains(name) || bootstrap.dom().contains(name),
        |name: Seq<char>| source_of(bootstrap, registered, name),
    )
}

/// Whether `name` is one of the first `n` of `names`.
spec fn among(names: Seq<String>, n: int, name: Seq<char>) -> bool {
    exists|k: int| 0 <= k < n && #[trigger] names[k]@ == name
}

/// Resolves every certificate provider instance name. A registered provider shadows a
/// bootstrap instance of the same name.
pub fn resolve_providers<P: ?Sized>(
    bootstrap: &InstanceMap<CertProviderConfig>,
    registered: &InstanceMap<Arc<P>>,
) -> (r: InstanceMap<ProviderSource<P>>)
    ensures
        r@ == resolved(bootstrap@, registered@),
{
    let mut r: InstanceMap<ProviderSource<P>> = InstanceMap::new();
    let configured = bootstrap.names();
    let mut i: usize = 0;
    while i < configured.len()
        invariant
            lists_once(configured@, bootstrap@.dom()),
            0 <= i <= configured.len(),
            forall|name: Seq<char>| #[trigger]
                r@.dom().contains(name) <==> among(configured@, i as int, name),
            forall|name: Seq<char>| #[trigger]
                r@.dom().contains(name) ==> r@[name] == ProviderSource::<P>::Bootstrap(
                    bootstrap@[name],
                ),
        decreases configured.len() - i,
    {
        let name = configured[i].clone();
        if let Some(config) = bootstrap.get(name.as_str()) {
            r = r.insert(name, ProviderSource::Bootstrap(config.clone()));
        }
        assert forall|other: Seq<char>| #[trigger] r@.dom().contains(other) <==> among(
            configured@,
            i + 1,
            other,
        ) by {}
        i += 1;
    }
    let ours = registered.names();
    let mut j: usize = 0;
    while j < ours.len()
        invariant
            lists_once(ours@, registered@.dom()),
            0 <= j <= ours.len(),
            forall|name: Seq<char>| #[trigger]
                r@.dom().contains(name) <==> bootstrap@.dom().contains(name) || among(
                    ours@,
                    j as int,
                    name,
                ),
            forall|name: Seq<char>| #[trigger]
                r@.dom().contains(name) ==> r@[name] == if among(ours@, j as int, name) {
                    source_of(bootstrap@, registered@, name)
                } else {
                    ProviderSource::Bootstrap(bootstrap@[name])
                },
        decreases ours.len() - j,
    {
        let name = ours[j].clone();
        if let Some(provider) = registered.get(name.as_str()) {
            let shadowed = match bootstrap.get(name.as_str()) {
                Some(config) => Some(config.clone()),
                None => None,
            };
            r = r.insert(name, ProviderSource::Registered { provider: provider.clone(), shadowed });
        }
        assert forall|other: Seq<char>|
            among(ours@, j + 1, other) <==> (among(ours@, j as int, other) || other == name@) by {}
        assert forall|other: Seq<char>| #[trigger]
            r@.dom().contains(other) <==> bootstrap@.dom().contains(other) || among(
                ours@,
                j + 1,
                other,
            ) by {}
        j += 1;
    }
    r
}

/// What is shown of a builder for diagnostics.
pub struct BuilderSummary<'a, C: ?Sized> {
    /// The configuration.
    pub config: &'a XdsChannelConfig<C>,
    /// The type of the metrics recorder, or `None` in words.
    pub recorder: &'a str,
    /// The type of the pre-route interceptor, or `None` in words.
    pub pre_route: &'a str,
    /// The names of the registered certificate providers, where they are available.
    pub cert_providers: Option<Vec<String>>,
}

/// How a hook is shown: by its type, or as `None` where there is none.
pub open spec fn shown<T: ?Sized>(hook: Option<Arc<T>>, label: Seq<char>) -> Seq<char> {
    if hook is Some {
        label
    } else {
        "None"@
    }
}

impl<C: ?Sized, M: ?Sized, P: ?Sized> XdsChannelBuilder<C, M, P> {
    /// Creates a builder from a channel configuration.
    #[must_use]
    pub fn new(config: XdsChannelConfig<C>) -> (r: Self)
        ensures
            *r@.config == config,
            r@.recorder is None,
            r@.pre_route is None,
            r@.cert_providers == Map::<Seq<char>, Arc<P>>::empty(),
    {
        XdsChannelBuilder {
            config: Arc::new(config),
            recorder: None,
            pre_route: None,
            cert_providers: InstanceMap::new(),
        }
    }

    /// Sets the backend that receives the xDS client metrics.
    ///
    /// By default no recorder is configured and metric emission is skipped.
    #[must_use]
    pub fn with_metrics_recorder(self, recorder: Arc<M>) -> (r: Self)
        ensures
            r@ == (BuilderView { recorder: Some(recorder), ..self@ }),
    {
        XdsChannelBuilder { recorder: Some(recorder), ..self }
    }

    /// Emits the xDS client metrics through a meter, for which `recorder_for` makes
    /// the recorder.
    ///
    /// Convenience wrapper over
    /// [`with_metrics_recorder`](XdsChannelBuilder::with_metrics_recorder).
    #[must_use]
    pub fn with_otel_metrics<E, F>(self, meter: E, recorder_for: F) -> (r: Self) where
        F: FnOnce(E) -> Arc<M>,

        requires
            call_requires(recorder_for, (meter,)),
        ensures
            r@.recorder is Some,
            call_ensures(recorder_for, (meter,), r@.recorder->0),
            r@ == (BuilderView { recorder: r@.recorder, ..self@ }),
    {
        self.with_metrics_recorder(recorder_for(meter))
    }

    /// Registers a [`PreRouteInterceptor`] that runs before route selection.
    ///
    /// The routing layer takes a `RouteConfiguration` snapshot for each request;
    /// when an interceptor is registered, it is invoked inline against that
    /// snapshot before matching, and may mutate request headers (using the
    /// config's [`RouteConfigMetadata`](crate::route::RouteConfigMetadata)) so the
    /// router matches on the result. This enables config-driven request
    /// transformation such as computing a partition/shard key and injecting a
    /// routing header. The interceptor and the router observe the same snapshot.
    #[must_use]
    pub fn with_pre_route_interceptor(self, interceptor: Arc<dyn PreRouteInterceptor>) -> (r: Self)
        ensures
            r@.pre_route == Some(interceptor),
            r@.config == self@.config,
            r@.recorder == self@.recorder,
            r@.cert_providers == self@.cert_providers,
    {
        let pre_route = Some(interceptor);
        XdsChannelBuilder { pre_route, ..self }
    }

    /// Registers a custom certificate provider under an xDS certificate
    /// provider instance name, resolved by CDS `UpstreamTlsContext` references.
    /// Shadows a bootstrap `file_watcher` instance of the same name.
    ///
    /// The name is what the conversion gives, whatever that is.
    #[must_use]
    pub fn with_certificate_provider<A: Into<String>>(
        self,
        instance_name: A,
        provider: Arc<P>,
    ) -> (r: Self)
        ensures
            exists|name: String| #[trigger]
                call_ensures(A::into, (instance_name,), name) && r@ == registered_under(
                    self@,
                    name@,
                    provider,
                ),
    {
        let name = instance_name.into();
        self.with_provider_named(name, provider)
    }

    /// Registers a custom certificate provider under this very name. See
    /// [`with_certificate_provider`](XdsChannelBuilder::with_certificate_provider).
    #[must_use]
    pub fn with_provider_named(self, name: String, provider: Arc<P>) -> (r: Self)
        ensures
            r@ == registered_under(self@, name@, provider),
    {
        XdsChannelBuilder { cert_providers: self.cert_providers.insert(name, provider), ..self }
    }

    /// The metrics recorder, if one was set.
    pub fn recorder(&self) -> (r: Option<Arc<M>>)
        ensures
            r == self@.recorder,
    {
        share(&self.recorder)
    }

    /// The pre-route interceptor, if one was registered.
    pub fn pre_route(&self) -> (r: Option<Arc<dyn PreRouteInterceptor>>)
        ensures
            r == self@.pre_route,
    {
        share(&self.pre_route)
    }

    /// What is shown of the builder, given the names of the types of its recorder and
    /// of its interceptor.
    pub fn summary<'a>(
        &'a self,
        tls: TlsSupport,
        recorder_type: &'a str,
        pre_route_type: &'a str,
    ) -> (r: BuilderSummary<'a, C>)
        ensures
            *r.config == *self@.config,
            r.recorder@ == shown(self@.recorder, recorder_type@),
            r.pre_route@ == shown(self@.pre_route, pre_route_type@),
            match r.cert_providers {
                Some(names) => tls.certificate_providers && lists_once(
                    names@,
                    self@.cert_providers.dom(),
                ),
                None => !tls.certificate_providers,
            },
    {
        BuilderSummary {
            config: &self.config,
            recorder: if self.recorder.is_some() {
                recorder_type
            } else {
                "None"
            },
            pre_route: if self.pre_route.is_some() {
                pre_route_type
            } else {
                "None"
            },
            cert_providers: if tls.certificate_providers {
                Some(self.cert_providers.names())
            } else {
                None
            },
        }
    }

    /// Channel-level authority used as the routing key for matching against
    /// `VirtualHost.domains` in RDS.
    pub fn authority(&self) -> (r: Arc<str>)
        ensures
            r@ == self@.config@.target,
    {
        shared_str(self.config.target_uri().target.as_str())
    }

    /// The plan of a channel, once its bootstrap was accepted and its registry and
    /// node are there.
    pub fn channel_plan<G, N>(
        &self,
        bootstrap: &BootstrapConfig,
        registry: Option<G>,
        node: N,
    ) -> (r: ChannelPlan<C, M, G, N>)
        ensures
            r@ == (PlanView {
                listener_name: self@.config@.target,
                server_uri: bootstrap@.server_uri,
                tls: bootstrap@.use_tls,
                call_creds: self@.config@.call_creds,
                target: XDS_PREFIX@ + self@.config@.target,
                recorder: self@.recorder,
                registry,
                node,
            }),
    {
        ChannelPlan {
            listener_name: self.config.target_uri().target.clone(),
            server_uri: bootstrap.server_uri().to_owned(),
            tls: bootstrap.use_tls(),
            call_creds: self.config.call_creds(),
            target: self.config.target_uri().to_string(),
            recorder: share(&self.recorder),
            registry,
            node,
        }
    }

    /// Plans a channel. The bootstrap is the configured one; only where none is set,
    /// `load` gives it. `init` makes the certificate provider registry of the sources that
    /// the instance names resolve to, see [`resolve_providers`], and `convert` what the
    /// client says of its node.
    /// The first step that fails ends the planning with its error, and no later step is
    /// taken.
    pub fn plan_grpc_channel<G, N, L, I, K>(
        &self,
        tls: TlsSupport,
        load: L,
        init: I,
        convert: K,
    ) -> (r: Result<ChannelPlan<C, M, G, N>, BuildError>) where
        L: FnOnce() -> Result<BootstrapConfig, BootstrapError>,
        I: FnOnce(InstanceMap<ProviderSource<P>>) -> Result<G, CertProviderError>,
        K: FnOnce(String) -> Result<N, BootstrapError>,

        requires
            steps_ready(self@, tls, load, init, convert),
        ensures
            plans(self@, tls, load, init, convert, r),
    {
        let loaded = match self.config.bootstrap() {
            Some(set) => Ok(set.clone()),
            None => load(),
        };
        let ghost mut outcomes = BuildOutcomes::<G, N> { loaded, registry: None, node: None };
        let bootstrap = match accept_bootstrap(loaded, tls) {
            Ok(bootstrap) => bootstrap,
            Err(error) => {
                assert(outcomes_of(self@, tls, load, init, convert, outcomes));
                return Err(error);
            },
        };
        assert(accepts(self@, tls, load, bootstrap));
        let registry = if tls.certificate_providers {
            let made = init(
                resolve_providers(bootstrap.certificate_providers(), &self.cert_providers),
            );
            proof {
                outcomes = BuildOutcomes { registry: Some(made), ..outcomes };
            }
            match made {
                Ok(ready) => Some(ready),
                Err(cause) => {
                    assert(outcomes_of(self@, tls, load, init, convert, outcomes));
                    return Err(BuildError::from(cause));
                },
            }
        } else {
            None
        };
        assert(registers(self@, tls, init, bootstrap, outcomes.registry));
        let converted = convert(bootstrap.node().to_owned());
        proof {
            outcomes = BuildOutcomes { node: Some(converted), ..outcomes };
            assert(outcomes_of(self@, tls, load, init, convert, outcomes));
        }
        match converted {
            Ok(node) => Ok(self.channel_plan(&bootstrap, registry, node)),
            Err(cause) => Err(BuildError::from(cause)),
        }
    }

    /// Plans the channel, connects it as planned, and wires its service stack of what
    /// `connect` gives: the router, the resources to keep alive, and what puts retries
    /// around the load balancer. See [`XdsChannelBuilder::plan_grpc_channel`] for the
    /// steps of the plan; where one fails, nothing is connected: there is no plan to hand
    /// to `connect`, for a plan holds what `convert` made.
    pub fn build_tonic_grpc_channel<G, N, R: ?Sized, Q, S, T, L, I, K, O, F>(
        &self,
        tls: TlsSupport,
        load: L,
        init: I,
        convert: K,
        connect: O,
    ) -> (r: Result<XdsChannel<XdsRoutingService<S, R>, C, T>, BuildError>) where
        Q: Default,
        L: FnOnce() -> Result<BootstrapConfig, BootstrapError>,
        I: FnOnce(InstanceMap<ProviderSource<P>>) -> Result<G, CertProviderError>,
        K: FnOnce(String) -> Result<N, BootstrapError>,
        O: FnOnce(ChannelPlan<C, M, G, N>) -> (Arc<R>, T, F),
        F: FnOnce(Q) -> S,

        requires
            steps_ready(self@, tls, load, init, convert),
            connect_ready(self@, tls, load, init, convert, connect),
        ensures
            builds(self@, tls, load, init, convert, connect, r),
    {
        match self.plan_grpc_channel(tls, load, init, convert) {
            Ok(plan) => {
                let parts = connect(plan);
                Ok(self.build_from_cache(parts.0, parts.1, parts.2))
            },
            Err(error) => Err(error),
        }
    }

    /// Builds a channel. See [`XdsChannelBuilder::build_tonic_grpc_channel`] for the
    /// steps.
    pub fn build_grpc_channel<G, N, R: ?Sized, Q, S, T, L, I, K, O, F>(
        &self,
        tls: TlsSupport,
        load: L,
        init: I,
        convert: K,
        connect: O,
    ) -> (r: Result<XdsChannel<XdsRoutingService<S, R>, C, T>, BuildError>) where
        Q: Default,
        L: FnOnce() -> Result<BootstrapConfig, BootstrapError>,
        I: FnOnce(InstanceMap<ProviderSource<P>>) -> Result<G, CertProviderError>,
        K: FnOnce(String) -> Result<N, BootstrapError>,
        O: FnOnce(ChannelPlan<C, M, G, N>) -> (Arc<R>, T, F),
        F: FnOnce(Q) -> S,

        requires
            steps_ready(self@, tls, load, init, convert),
            connect_ready(self@, tls, load, init, convert, connect),
        ensures
            builds(self@, tls, load, init, convert, connect, r),
    {
        self.build_tonic_grpc_channel(tls, load, init, convert, connect)
    }

    /// Wires the service stack of a channel: routing goes around what `retried` makes of
    /// the default retry policy, which is the load balancer with retries around it. The
    /// channel keeps `resources` alive.
    pub fn build_from_cache<R: ?Sized, Q, S, T, F>(
        &self,
        router: Arc<R>,
        resources: T,
        retried: F,
    ) -> (r: XdsChannel<XdsRoutingService<S, R>, C, T>) where Q: Default, F: FnOnce(Q) -> S
        requires
            forall|policy: Q|
                call_ensures(Q::default, (), policy) ==> #[trigger] call_requires(
                    retried,
                    (policy,),
                ),
        ensures
            wires(self@, router, resources, retried, r),
    {
        let routing = XdsRoutingLayer::new(router, share(&self.pre_route), self.authority());
        let policy = Q::default();
        let inner = routing.layer(retried(policy));
        XdsChannel { config: self.config.clone(), inner, resources: Some(Arc::new(resources)) }
    }

    /// Wires the service stack of a channel from the given router, retry policy and
    /// optional pre-route interceptor, which takes the place of the registered one:
    /// routing goes around what `retried` makes of the policy. The channel keeps no
    /// background tasks alive.
    pub fn build_grpc_channel_from_parts<R: ?Sized, Q, S, T, F>(
        &self,
        router: Arc<R>,
        retry_policy: Q,
        interceptor: Option<Arc<dyn PreRouteInterceptor>>,
        retried: F,
    ) -> (r: XdsChannel<XdsRoutingService<S, R>, C, T>) where F: FnOnce(Q) -> S
        requires
            call_requires(retried, (retry_policy,)),
        ensures
            r.forwards_to().routing() == stack_routing(self@, router, interceptor),
            call_ensures(retried, (retry_policy,), r.forwards_to().forwards_to()),
            r.built_from() == self@.config,
            r.keeps_alive() is None,
    {
        let routing = XdsRoutingLayer::new(router, interceptor, self.authority());
        let inner = routing.layer(retried(retry_policy));
        XdsChannel { config: self.config.clone(), inner, resources: None }
    }
}

/// A builder with one more certificate provider, in the place of one under that name.
pub open spec fn registered_under<C: ?Sized, M: ?Sized, P: ?Sized>(
    builder: BuilderView<C, M, P>,
    name: Seq<char>,
    provider: Arc<P>,
) -> BuilderView<C, M, P> {
    BuilderView { cert_providers: builder.cert_providers.insert(name, provider), ..builder }
}

/// What a channel's routing layer routes with: the given router and hook, and the
/// channel's target as the authority.
pub open spec fn stack_routing<C: ?Sized, M: ?Sized, P: ?Sized, R: ?Sized>(
    builder: BuilderView<C, M, P>,
    router: Arc<R>,
    interceptor: Option<Arc<dyn PreRouteInterceptor>>,
) -> RoutingView<R> {
    RoutingView { router, interceptor, authority: builder.config@.target }
}

impl<C: ?Sized, M: ?Sized, P: ?Sized> Clone for XdsChannelBuilder<C, M, P> {
    fn clone(&self) -> (r: Self)
        ensures
            r@ == self@,
    {
        XdsChannelBuilder {
            config: self.config.clone(),
            recorder: share(&self.recorder),
            pre_route: share(&self.pre_route),
            cert_providers: self.cert_providers.share(),
        }
    }
}

} // verus!
