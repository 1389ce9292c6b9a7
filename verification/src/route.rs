//! Routing of requests to clusters: the decision, the hook that runs before it,
//! and the layer that runs both around an inner service.

use std::sync::Arc;

use vstd::prelude::*;

use crate::instances::{share, InstanceMap};

verus! {

/// The header multimap of the `http` crate, carried through unread.
#[verifier::external_type_specification]
#[verifier::external_body]
#[verifier::reject_recursive_types(T)]
pub struct ExHeaderMap<T>(http::HeaderMap<T>);

/// One header value of the `http` crate, carried through unread.
#[verifier::external_type_specification]
#[verifier::external_body]
pub struct ExHeaderValue(http::HeaderValue);

/// The type map of the `http` crate that requests carry.
#[verifier::external_type_specification]
#[verifier::external_body]
pub struct ExExtensions(http::Extensions);

/// The route decision that an extension map holds: the cluster's name and the
/// request hash, or `None` where the map holds no [`RouteDecision`].
pub uninterp spec fn held_decision(extensions: http::Extensions) -> Option<
    (Seq<char>, Option<u64>),
>;

/// What an extension map holds of every type but [`RouteDecision`]: for each type that
/// it holds, its value, both told apart by a number.
pub uninterp spec fn other_extensions(extensions: http::Extensions) -> Map<int, int>;

/// Calls `http::Extensions::insert` with a [`RouteDecision`]. Afterwards the map
/// holds that decision, and the call hands back the one that the map held before,
/// if there was one. What the map holds of other types stays as it was.
#[verifier::external_body]
fn insert_decision(extensions: &mut http::Extensions, decision: RouteDecision) -> (previous: Option<
    RouteDecision,
>)
    ensures
        held_decision(*final(extensions)) == Some(decision@),
        other_extensions(*final(extensions)) == other_extensions(*old(extensions)),
        match previous {
            Some(earlier) => held_decision(*old(extensions)) == Some(earlier@),
            None => held_decision(*old(extensions)) is None,
        },
{
    extensions.insert(decision)
}

/// Calls `http::Extensions::get` for a [`RouteDecision`]: the decision that the
/// map holds, or `None` where it holds none.
#[verifier::external_body]
fn get_decision(extensions: &http::Extensions) -> (decision: Option<&RouteDecision>)
    ensures
        match decision {
            Some(held) => held_decision(*extensions) == Some(held@),
            None => held_decision(*extensions) is None,
        },
{
    extensions.get::<RouteDecision>()
}

/// Metadata of a typed filter: the type of the message and its encoding.
#[derive(Debug)]
pub struct TypedMetadata {
    /// The type of the encoded message.
    pub type_url: String,
    /// The encoded message.
    pub value: Vec<u8>,
}

/// The metadata of a route configuration, by filter name. Each untyped entry is
/// an encoded structure.
pub struct RouteConfigMetadata {
    filter_metadata: InstanceMap<Vec<u8>>,
    typed_filter_metadata: InstanceMap<TypedMetadata>,
}

impl RouteConfigMetadata {
    /// The untyped entries.
    pub closed spec fn untyped(self) -> Map<Seq<char>, Vec<u8>> {
        self.filter_metadata@
    }

    /// The typed entries.
    pub closed spec fn typed(self) -> Map<Seq<char>, TypedMetadata> {
        self.typed_filter_metadata@
    }

    /// Metadata with the given entries.
    pub fn new(
        filter_metadata: InstanceMap<Vec<u8>>,
        typed_filter_metadata: InstanceMap<TypedMetadata>,
    ) -> (r: Self)
        ensures
            r.untyped() == filter_metadata@,
            r.typed() == typed_filter_metadata@,
    {
        RouteConfigMetadata { filter_metadata, typed_filter_metadata }
    }

    /// The untyped entry of the filter `name`.
    pub fn filter_metadata(&self, name: &str) -> (r: Option<&Vec<u8>>)
        ensures
            match r {
                Some(entry) => self.untyped().dom().contains(name@) && *entry
                    == self.untyped()[name@],
                None => !self.untyped().dom().contains(name@),
            },
    {
        self.filter_metadata.get(name)
    }

    /// The typed entry of the filter `name`.
    pub fn typed_filter_metadata(&self, name: &str) -> (r: Option<&TypedMetadata>)
        ensures
            match r {
                Some(entry) => self.typed().dom().contains(name@) && *entry == self.typed()[name@],
                None => !self.typed().dom().contains(name@),
            },
    {
        self.typed_filter_metadata.get(name)
    }
}

/// One consistent view of the route configuration.
pub struct RouteConfigSnapshot {
    /// Tells this view apart from earlier and later ones.
    pub version: u64,
    /// The metadata of the configuration.
    pub metadata: RouteConfigMetadata,
}

/// Represents the input for routing decisions.
pub struct RouteInput<'a> {
    /// The authority (host) that requests are routed by.
    pub authority: &'a str,
    /// The HTTP headers of the request. These can be used for header-based routing decisions.
    pub headers: &'a http::HeaderMap,
    /// The configuration snapshot to route against, if one was available.
    pub snapshot: Option<&'a RouteConfigSnapshot>,
}

/// Represents the routing decision made by the routing layer.
#[derive(Debug)]
pub struct RouteDecision {
    /// The name of the cluster to which the request should be routed.
    pub cluster: String,
    /// The request hash computed from the route's hash policies, consumed by the
    /// ring-hash picker. `None` when no hash policy produced a hash, in which case
    /// the picker falls back to a random hash.
    pub request_hash: Option<u64>,
}

impl View for RouteDecision {
    type V = (Seq<char>, Option<u64>);

    open spec fn view(&self) -> (Seq<char>, Option<u64>) {
        (self.cluster@, self.request_hash)
    }
}

impl Clone for RouteDecision {
    fn clone(&self) -> (r: Self)
        ensures
            r == *self,
    {
        RouteDecision { cluster: self.cluster.clone(), request_hash: self.request_hash }
    }
}

/// A hook that runs before xDS route selection.
///
/// The interceptor may mutate the request headers using the route
/// configuration's [`RouteConfigMetadata`]. Because it runs before routing, its
/// mutations are visible to route matching — enabling config-driven request
/// transformation (e.g. computing a partition/shard key and injecting a routing
/// header the router then matches on). It cannot otherwise influence routing.
pub trait PreRouteInterceptor: Send + Sync + 'static {
    /// The rewritings of the headers that this hook may perform. A hook that does not
    /// say may perform any.
    open spec fn rewrites(
        &self,
        before: http::HeaderMap,
        metadata: RouteConfigMetadata,
        after: http::HeaderMap,
    ) -> bool {
        true
    }

    /// Inspects and optionally mutates `headers` using the route-config `metadata`.
    fn on_request(&self, headers: &mut http::HeaderMap, metadata: &RouteConfigMetadata)
        ensures
            self.rewrites(*old(headers), *metadata, *final(headers)),
    ;
}

/// The part of a router that routing depends on without waiting for it.
pub trait Router: Send + Sync + 'static {
    /// The current route-config snapshot, if available. Its metadata feeds a
    /// [`PreRouteInterceptor`], and the request is routed against it. Defaults to
    /// `None` (e.g. for mock routers).
    fn snapshot(&self) -> (r: Option<Arc<RouteConfigSnapshot>>)
        default_ensures
            r is None,
    {
        None
    }
}

/// A router with some state and no configuration: it keeps the default snapshot.
pub struct Unconfigured<T> {
    /// The state of the router.
    pub state: T,
}

impl<T: Send + Sync + 'static> Router for Unconfigured<T> {

}

/// What routing reads and writes of a request.
pub struct RouteRequest<B> {
    /// The headers of the request.
    pub headers: http::HeaderMap,
    /// The extensions of the request.
    pub extensions: http::Extensions,
    /// Everything else: method, URI, version and body.
    pub rest: B,
}

impl<B> RouteRequest<B> {
    /// The decision attached to the request.
    pub open spec fn decision(self) -> Option<(Seq<char>, Option<u64>)> {
        held_decision(self.extensions)
    }

    /// What is attached to the request besides a decision.
    pub open spec fn others(self) -> Map<int, int> {
        other_extensions(self.extensions)
    }

    /// The decision that routing attached to this request, by which the load
    /// balancer finds the cluster. `None` before the request was routed.
    pub fn route_decision(&self) -> (r: Option<&RouteDecision>)
        ensures
            match r {
                Some(decision) => self.decision() == Some(decision@),
                None => self.decision() is None,
            },
    {
        get_decision(&self.extensions)
    }
}

/// What a routing layer hands to each service that it makes.
#[verifier::reject_recursive_types(R)]
pub struct RoutingView<R: ?Sized> {
    pub router: Arc<R>,
    pub interceptor: Option<Arc<dyn PreRouteInterceptor>>,
    pub authority: Seq<char>,
}

/// How the hook leaves the headers: where there are both a hook and a snapshot, as
/// one of the hook's own rewritings under the snapshot's metadata; otherwise as they were.
pub open spec fn headers_rewritten(
    interceptor: Option<Arc<dyn PreRouteInterceptor>>,
    snapshot: Option<Arc<RouteConfigSnapshot>>,
    before: http::HeaderMap,
    after: http::HeaderMap,
) -> bool {
    match (interceptor, snapshot) {
        (Some(hook), Some(seen)) => hook.rewrites(before, seen.metadata, after),
        _ => after == before,
    }
}

/// A request between its preparation and its route decision.
pub struct RoutingCall<B> {
    authority: Arc<str>,
    snapshot: Option<Arc<RouteConfigSnapshot>>,
    request: RouteRequest<B>,
}

impl<B> RoutingCall<B> {
    /// The authority that the request is routed by.
    pub closed spec fn authority(self) -> Seq<char> {
        self.authority@
    }

    /// The snapshot that the request is routed against.
    pub closed spec fn snapshot(self) -> Option<Arc<RouteConfigSnapshot>> {
        self.snapshot
    }

    /// The request as the hook left it.
    pub closed spec fn request(self) -> RouteRequest<B> {
        self.request
    }

    /// What the router is asked.
    pub fn input(&self) -> (r: RouteInput<'_>)
        ensures
            asks(*self, r),
    {
        RouteInput {
            authority: &self.authority,
            headers: &self.request.headers,
            snapshot: match &self.snapshot {
                Some(taken) => Some(&**taken),
                None => None,
            },
        }
    }

    /// Takes the router's answer. A decision is attached to the request, which is
    /// handed back to be forwarded; an error is handed back as it is, and there is
    /// no request to forward.
    pub fn complete<E>(self, routed: Result<RouteDecision, E>) -> (r: Result<RouteRequest<B>, E>)
        ensures
            completes(self, routed, r),
    {
        match routed {
            Ok(decision) => {
                let mut request = self.request;
                insert_decision(&mut request.extensions, decision);
                Ok(request)
            },
            Err(error) => Err(error),
        }
    }
}

/// Whether `call` is what becomes of `request` before it is routed: it is routed by the
/// layer's authority, the hook has rewritten its headers, and everything else of it is
/// as it was.
pub open spec fn prepares<B, R: ?Sized>(
    routing: RoutingView<R>,
    request: RouteRequest<B>,
    call: RoutingCall<B>,
) -> bool {
    &&& call.authority() == routing.authority
    &&& headers_rewritten(
        routing.interceptor,
        call.snapshot(),
        request.headers,
        call.request().headers,
    )
    &&& call.request().extensions == request.extensions
    &&& call.request().rest == request.rest
}

/// Whether `input` is what the router is asked for `call`.
pub open spec fn asks<B>(call: RoutingCall<B>, input: RouteInput<'_>) -> bool {
    &&& input.authority@ == call.authority()
    &&& *input.headers == call.request().headers
    &&& match input.snapshot {
        Some(seen) => call.snapshot() matches Some(taken) && *seen == *taken,
        None => call.snapshot() is None,
    }
}

/// Whether `result` is what becomes of `call` once it is routed: the request with the
/// decision attached, or the router's error.
pub open spec fn completes<B, E>(
    call: RoutingCall<B>,
    routed: Result<RouteDecision, E>,
    result: Result<RouteRequest<B>, E>,
) -> bool {
    match routed {
        Ok(decision) => result matches Ok(forwarded) && {
            &&& forwarded.decision() == Some(decision@)
            &&& forwarded.others() == call.request().others()
            &&& forwarded.headers == call.request().headers
            &&& forwarded.rest == call.request().rest
        },
        Err(error) => result == Err::<RouteRequest<B>, E>(error),
    }
}

/// Service for routing requests to the appropriate cluster.
/// Attaches routing decision as [`RouteDecision`] to the request extensions.
/// The [`RouteDecision`] will be used by the load balancer to identify the
/// cluster to which the request should be routed.
pub struct XdsRoutingService<S, R: ?Sized> {
    /// The inner service to which the request will be forwarded after routing decision is made.
    inner: S,
    /// The router used to make routing decisions based on the request.
    router: Arc<R>,
    /// Optional hook run before routing; may mutate request headers.
    interceptor: Option<Arc<dyn PreRouteInterceptor>>,
    /// Channel-level authority used as the routing key.
    authority: Arc<str>,
}

impl<S, R: ?Sized> XdsRoutingService<S, R> {
    /// What the service routes with.
    pub closed spec fn routing(self) -> RoutingView<R> {
        RoutingView {
            router: self.router,
            interceptor: self.interceptor,
            authority: self.authority@,
        }
    }

    /// The service that requests are forwarded to.
    pub closed spec fn forwards_to(self) -> S {
        self.inner
    }

    /// The service that requests are forwarded to.
    pub fn inner_mut(&mut self) -> (r: &mut S)
        ensures
            *r == old(self).forwards_to(),
            final(self).forwards_to() == *final(r),
            final(self).routing() == old(self).routing(),
    {
        &mut self.inner
    }

    /// The router that requests are routed by.
    pub fn router(&self) -> (r: &Arc<R>)
        ensures
            *r == self.routing().router,
    {
        &self.router
    }

    /// Prepares a request for routing under `snapshot`: the hook, where there is
    /// one, rewrites the headers, and everything else is left alone.
    pub fn begin_with<B>(
        &self,
        snapshot: Option<Arc<RouteConfigSnapshot>>,
        request: RouteRequest<B>,
    ) -> (r: RoutingCall<B>)
        ensures
            prepares(self.routing(), request, r),
            r.snapshot() == snapshot,
    {
        let mut request = request;
        if let Some(hook) = &self.interceptor {
            if let Some(taken) = &snapshot {
                hook.on_request(&mut request.headers, &taken.metadata);
            }
        }
        RoutingCall { authority: self.authority.clone(), snapshot, request }
    }
}

impl<S, R: Router + ?Sized> XdsRoutingService<S, R> {
    /// Prepares a request for routing under the router's current snapshot, which
    /// is taken once: the hook and the router see the same one.
    pub fn begin<B>(&self, request: RouteRequest<B>) -> (r: RoutingCall<B>)
        ensures
            prepares(self.routing(), request, r),
            call_ensures(R::snapshot, (&*self.routing().router,), r.snapshot()),
    {
        let snapshot = self.router.snapshot();
        self.begin_with(snapshot, request)
    }
}

impl<S: Clone, R: ?Sized> Clone for XdsRoutingService<S, R> {
    fn clone(&self) -> (r: Self)
        ensures
            r.routing() == self.routing(),
            cloned::<S>(self.forwards_to(), r.forwards_to()),
    {
        XdsRoutingService {
            inner: self.inner.clone(),
            router: self.router.clone(),
            interceptor: share(&self.interceptor),
            authority: self.authority.clone(),
        }
    }
}

/// Layer for routing requests to the appropriate cluster.
pub struct XdsRoutingLayer<R: ?Sized> {
    router: Arc<R>,
    interceptor: Option<Arc<dyn PreRouteInterceptor>>,
    authority: Arc<str>,
}

impl<R: ?Sized> View for XdsRoutingLayer<R> {
    type V = RoutingView<R>;

    closed spec fn view(&self) -> RoutingView<R> {
        RoutingView {
            router: self.router,
            interceptor: self.interceptor,
            authority: self.authority@,
        }
    }
}

impl<R: ?Sized> XdsRoutingLayer<R> {
    /// Creates a new `XdsRoutingLayer` with the given [`Router`], optional
    /// pre-route interceptor, and authority.
    ///
    /// `authority` is the routing key matched against `VirtualHost.domains`
    /// in RDS. It should be the endpoint portion of the xDS target.
    pub fn new(
        router: Arc<R>,
        interceptor: Option<Arc<dyn PreRouteInterceptor>>,
        authority: Arc<str>,
    ) -> (r: Self)
        ensures
            r@ == (RoutingView { router, interceptor, authority: authority@ }),
    {
        XdsRoutingLayer { router, interceptor, authority }
    }

    /// Wraps `service`: the result routes with this layer's router, hook and
    /// authority, and forwards to `service`.
    pub fn layer<S>(&self, service: S) -> (r: XdsRoutingService<S, R>)
        ensures
            r.routing() == self@,
            r.forwards_to() == service,
    {
        XdsRoutingService {
            inner: service,
            router: self.router.clone(),
            interceptor: share(&self.interceptor),
            authority: self.authority.clone(),
        }
    }
}

impl<R: ?Sized> Clone for XdsRoutingLayer<R> {
    fn clone(&self) -> (r: Self)
        ensures
            r@ == self@,
    {
        XdsRoutingLayer {
            router: self.router.clone(),
            interceptor: share(&self.interceptor),
            authority: self.authority.clone(),
        }
    }
}

} // verus!
