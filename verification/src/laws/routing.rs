//! What callers observe of routing. Each law relates the results of calls to each other
//! and to the arguments of those calls.

use std::sync::Arc;

use vstd::prelude::*;

use crate::route::{
    other_extensions, PreRouteInterceptor, RouteConfigSnapshot, RouteDecision, RouteInput,
    RouteRequest, Router, RoutingCall, XdsRoutingLayer, XdsRoutingService,
};

verus! {

/// A request is routed by the authority of the layer and against the very snapshot that
/// was given, which the router is shown exactly where there is one. Where the layer has a
/// hook and a snapshot was given, the hook has rewritten the headers that the router sees,
/// under the metadata of that snapshot; otherwise the router sees the request's headers.
pub proof fn law_request_is_routed_under_the_given_snapshot<B, S, R: ?Sized>(
    router: Arc<R>,
    interceptor: Option<Arc<dyn PreRouteInterceptor>>,
    authority: Arc<str>,
    layer: XdsRoutingLayer<R>,
    inner: S,
    service: XdsRoutingService<S, R>,
    snapshot: Option<Arc<RouteConfigSnapshot>>,
    request: RouteRequest<B>,
    call: RoutingCall<B>,
    input: RouteInput<'_>,
)
    requires
        call_ensures(XdsRoutingLayer::<R>::new, (router, interceptor, authority), layer),
        call_ensures(XdsRoutingLayer::<R>::layer::<S>, (&layer, inner), service),
        call_ensures(
            XdsRoutingService::<S, R>::begin_with::<B>,
            (&service, snapshot, request),
            call,
        ),
        call_ensures(RoutingCall::<B>::input, (&call,), input),
    ensures
        input.authority@ == authority@,
        snapshot is Some <==> input.snapshot is Some,
        snapshot matches Some(given) ==> *input.snapshot->0 == *given,
        match (interceptor, snapshot) {
            (Some(hook), Some(given)) => hook.rewrites(
                request.headers,
                given.metadata,
                *input.headers,
            ),
            _ => *input.headers == request.headers,
        },
{
}

/// As [`law_request_is_routed_under_the_given_snapshot`], for a clone of the layer and a
/// clone of the service that it makes.
pub proof fn law_clones_route_alike<B, S: Clone, R: ?Sized>(
    router: Arc<R>,
    interceptor: Option<Arc<dyn PreRouteInterceptor>>,
    authority: Arc<str>,
    layer: XdsRoutingLayer<R>,
    layer_copy: XdsRoutingLayer<R>,
    inner: S,
    service: XdsRoutingService<S, R>,
    service_copy: XdsRoutingService<S, R>,
    snapshot: Option<Arc<RouteConfigSnapshot>>,
    request: RouteRequest<B>,
    call: RoutingCall<B>,
    input: RouteInput<'_>,
    asked: &Arc<R>,
)
    requires
        call_ensures(XdsRoutingLayer::<R>::new, (router, interceptor, authority), layer),
        call_ensures(XdsRoutingLayer::<R>::clone, (&layer,), layer_copy),
        call_ensures(XdsRoutingLayer::<R>::layer::<S>, (&layer_copy, inner), service),
        call_ensures(XdsRoutingService::<S, R>::clone, (&service,), service_copy),
        call_ensures(
            XdsRoutingService::<S, R>::begin_with::<B>,
            (&service_copy, snapshot, request),
            call,
        ),
        call_ensures(RoutingCall::<B>::input, (&call,), input),
        call_ensures(XdsRoutingService::<S, R>::router, (&service_copy,), asked),
    ensures
        input.authority@ == authority@,
        snapshot is Some <==> input.snapshot is Some,
        snapshot matches Some(given) ==> *input.snapshot->0 == *given,
        match (interceptor, snapshot) {
            (Some(hook), Some(given)) => hook.rewrites(
                request.headers,
                given.metadata,
                *input.headers,
            ),
            _ => *input.headers == request.headers,
        },
        *asked == router,
        cloned::<S>(inner, service_copy.forwards_to()),
{
}

/// Every request can be routed, under every snapshot and with every answer of the router:
/// nothing is asked of a call of the layer, of its services, or of a request on its way.
pub proof fn law_every_request_can_be_routed<B, S, R: Router + ?Sized, E>(
    router: Arc<R>,
    interceptor: Option<Arc<dyn PreRouteInterceptor>>,
    authority: Arc<str>,
    layer: XdsRoutingLayer<R>,
    inner: S,
    service: XdsRoutingService<S, R>,
    snapshot: Option<Arc<RouteConfigSnapshot>>,
    request: RouteRequest<B>,
    call: RoutingCall<B>,
    routed: Result<RouteDecision, E>,
)
    ensures
        call_requires(XdsRoutingLayer::<R>::new, (router, interceptor, authority)),
        call_requires(XdsRoutingLayer::<R>::layer::<S>, (&layer, inner)),
        call_requires(
            XdsRoutingService::<S, R>::begin_with::<B>,
            (&service, snapshot, request),
        ),
        call_requires(XdsRoutingService::<S, R>::begin::<B>, (&service, request)),
        call_requires(RoutingCall::<B>::input, (&call,)),
        call_requires(RoutingCall::<B>::complete::<E>, (call, routed)),
        call_requires(RouteRequest::<B>::route_decision, (&request,)),
{
}

/// A service asks the router that its layer was given, and forwards to the service that
/// the layer was put around.
pub proof fn law_service_asks_the_layers_router<S, R: ?Sized>(
    router: Arc<R>,
    interceptor: Option<Arc<dyn PreRouteInterceptor>>,
    authority: Arc<str>,
    layer: XdsRoutingLayer<R>,
    inner: S,
    service: XdsRoutingService<S, R>,
    asked: &Arc<R>,
)
    requires
        call_ensures(XdsRoutingLayer::<R>::new, (router, interceptor, authority), layer),
        call_ensures(XdsRoutingLayer::<R>::layer::<S>, (&layer, inner), service),
        call_ensures(XdsRoutingService::<S, R>::router, (&service,), asked),
    ensures
        *asked == router,
        service.forwards_to() == inner,
{
}

/// Through a service the one that it forwards to can be changed, and nothing else of it: its
/// requests go on to be routed as before.
pub proof fn law_only_the_forwarded_to_is_lent<S, R: ?Sized>(
    service: &mut XdsRoutingService<S, R>,
    inner: &mut S,
)
    requires
        call_ensures(XdsRoutingService::<S, R>::inner_mut, (service,), inner),
    ensures
        *old(inner) == old(service).forwards_to(),
        final(service).forwards_to() == *final(inner),
        final(service).routing().router == old(service).routing().router,
        final(service).routing().interceptor == old(service).routing().interceptor,
        final(service).routing().authority == old(service).routing().authority,
{
}

/// What a service is said to route with is what its requests are routed with: authority,
/// hook and router.
pub proof fn law_service_routes_with_what_it_says<B, S, R: ?Sized>(
    service: XdsRoutingService<S, R>,
    snapshot: Option<Arc<RouteConfigSnapshot>>,
    request: RouteRequest<B>,
    call: RoutingCall<B>,
    input: RouteInput<'_>,
    asked: &Arc<R>,
)
    requires
        call_ensures(
            XdsRoutingService::<S, R>::begin_with::<B>,
            (&service, snapshot, request),
            call,
        ),
        call_ensures(RoutingCall::<B>::input, (&call,), input),
        call_ensures(XdsRoutingService::<S, R>::router, (&service,), asked),
    ensures
        input.authority@ == service.routing().authority,
        snapshot is Some <==> input.snapshot is Some,
        snapshot matches Some(given) ==> *input.snapshot->0 == *given,
        match (service.routing().interceptor, snapshot) {
            (Some(hook), Some(given)) => hook.rewrites(
                request.headers,
                given.metadata,
                *input.headers,
            ),
            _ => *input.headers == request.headers,
        },
        *asked == service.routing().router,
{
}

/// A request that is begun without a snapshot in hand is routed under one that its router
/// gave, which is handed back: the router is shown that one exactly where it gave one, and
/// the hook of the layer has rewritten the headers under its metadata.
pub proof fn law_request_is_routed_under_the_routers_snapshot<B, S, R: Router + ?Sized>(
    router: Arc<R>,
    interceptor: Option<Arc<dyn PreRouteInterceptor>>,
    authority: Arc<str>,
    layer: XdsRoutingLayer<R>,
    inner: S,
    service: XdsRoutingService<S, R>,
    request: RouteRequest<B>,
    call: RoutingCall<B>,
    input: RouteInput<'_>,
) -> (snapshot: Option<Arc<RouteConfigSnapshot>>)
    requires
        call_ensures(XdsRoutingLayer::<R>::new, (router, interceptor, authority), layer),
        call_ensures(XdsRoutingLayer::<R>::layer::<S>, (&layer, inner), service),
        call_ensures(XdsRoutingService::<S, R>::begin::<B>, (&service, request), call),
        call_ensures(RoutingCall::<B>::input, (&call,), input),
    ensures
        call_ensures(R::snapshot, (&*router,), snapshot),
        input.authority@ == authority@,
        snapshot is Some <==> input.snapshot is Some,
        snapshot matches Some(given) ==> *input.snapshot->0 == *given,
        match (interceptor, snapshot) {
            (Some(hook), Some(given)) => hook.rewrites(
                request.headers,
                given.metadata,
                *input.headers,
            ),
            _ => *input.headers == request.headers,
        },
{
    call.snapshot()
}

/// Where the router can only give one snapshot, a request is routed under that one.
pub proof fn law_request_is_routed_under_the_only_snapshot<B, S, R: Router + ?Sized>(
    router: Arc<R>,
    interceptor: Option<Arc<dyn PreRouteInterceptor>>,
    authority: Arc<str>,
    layer: XdsRoutingLayer<R>,
    inner: S,
    service: XdsRoutingService<S, R>,
    snapshot: Option<Arc<RouteConfigSnapshot>>,
    request: RouteRequest<B>,
    call: RoutingCall<B>,
    input: RouteInput<'_>,
)
    requires
        call_ensures(XdsRoutingLayer::<R>::new, (router, interceptor, authority), layer),
        call_ensures(XdsRoutingLayer::<R>::layer::<S>, (&layer, inner), service),
        call_ensures(XdsRoutingService::<S, R>::begin::<B>, (&service, request), call),
        call_ensures(RoutingCall::<B>::input, (&call,), input),
        forall|given: Option<Arc<RouteConfigSnapshot>>| #[trigger]
            call_ensures(R::snapshot, (&*router,), given) ==> given == snapshot,
    ensures
        input.authority@ == authority@,
        snapshot is Some <==> input.snapshot is Some,
        snapshot matches Some(given) ==> *input.snapshot->0 == *given,
        match (interceptor, snapshot) {
            (Some(hook), Some(given)) => hook.rewrites(
                request.headers,
                given.metadata,
                *input.headers,
            ),
            _ => *input.headers == request.headers,
        },
{
    assert(call_ensures(R::snapshot, (&*router,), call.snapshot()));
}

/// A request that the router decides on is forwarded with that decision, cluster and hash,
/// in the place of any that it came with; with the headers that the router saw; and with
/// its own method, URI, version, body and other extensions. A request that the router
/// refuses is answered with the router's error, and there is none to forward.
pub proof fn law_routed_request_is_forwarded_or_refused<B, S, R: ?Sized, E>(
    service: XdsRoutingService<S, R>,
    snapshot: Option<Arc<RouteConfigSnapshot>>,
    request: RouteRequest<B>,
    call: RoutingCall<B>,
    input: RouteInput<'_>,
    routed: Result<RouteDecision, E>,
    result: Result<RouteRequest<B>, E>,
    found: Option<&RouteDecision>,
)
    requires
        call_ensures(
            XdsRoutingService::<S, R>::begin_with::<B>,
            (&service, snapshot, request),
            call,
        ),
        call_ensures(RoutingCall::<B>::input, (&call,), input),
        call_ensures(RoutingCall::<B>::complete::<E>, (call, routed), result),
        result matches Ok(forwarded) ==> call_ensures(
            RouteRequest::<B>::route_decision,
            (&forwarded,),
            found,
        ),
    ensures
        match routed {
            Ok(decision) => {
                &&& result is Ok
                &&& found is Some
                &&& found->0.cluster@ == decision.cluster@
                &&& found->0.request_hash == decision.request_hash
                &&& result->Ok_0.headers == *input.headers
                &&& result->Ok_0.rest == request.rest
                &&& other_extensions(result->Ok_0.extensions) == other_extensions(
                    request.extensions,
                )
            },
            Err(error) => result is Err && result->Err_0 == error,
        },
{
}

/// As [`law_routed_request_is_forwarded_or_refused`], for a request that is begun under
/// the snapshot of the router.
pub proof fn law_begun_request_is_forwarded_or_refused<B, S, R: Router + ?Sized, E>(
    service: XdsRoutingService<S, R>,
    request: RouteRequest<B>,
    call: RoutingCall<B>,
    input: RouteInput<'_>,
    routed: Result<RouteDecision, E>,
    result: Result<RouteRequest<B>, E>,
    found: Option<&RouteDecision>,
)
    requires
        call_ensures(XdsRoutingService::<S, R>::begin::<B>, (&service, request), call),
        call_ensures(RoutingCall::<B>::input, (&call,), input),
        call_ensures(RoutingCall::<B>::complete::<E>, (call, routed), result),
        result matches Ok(forwarded) ==> call_ensures(
            RouteRequest::<B>::route_decision,
            (&forwarded,),
            found,
        ),
    ensures
        match routed {
            Ok(decision) => {
                &&& result is Ok
                &&& found is Some
                &&& found->0.cluster@ == decision.cluster@
                &&& found->0.request_hash == decision.request_hash
                &&& result->Ok_0.headers == *input.headers
                &&& result->Ok_0.rest == request.rest
                &&& other_extensions(result->Ok_0.extensions) == other_extensions(
                    request.extensions,
                )
            },
            Err(error) => result is Err && result->Err_0 == error,
        },
{
}

/// A hook acts through the headers alone: of two layers that differ in their hooks, and
/// whose hooks leave one request with the same headers, the router is asked the same, and
/// with one answer the same is forwarded.
pub proof fn law_hooks_that_leave_the_same_headers_route_alike<B, S, R: ?Sized, E>(
    router: Arc<R>,
    authority: Arc<str>,
    hooks: (Option<Arc<dyn PreRouteInterceptor>>, Option<Arc<dyn PreRouteInterceptor>>),
    layers: (XdsRoutingLayer<R>, XdsRoutingLayer<R>),
    inner: S,
    services: (XdsRoutingService<S, R>, XdsRoutingService<S, R>),
    snapshot: Option<Arc<RouteConfigSnapshot>>,
    request: RouteRequest<B>,
    calls: (RoutingCall<B>, RoutingCall<B>),
    inputs: (RouteInput<'_>, RouteInput<'_>),
    routed: Result<RouteDecision, E>,
    results: (Result<RouteRequest<B>, E>, Result<RouteRequest<B>, E>),
    found: (Option<&RouteDecision>, Option<&RouteDecision>),
)
    requires
        call_ensures(XdsRoutingLayer::<R>::new, (router, hooks.0, authority), layers.0),
        call_ensures(XdsRoutingLayer::<R>::new, (router, hooks.1, authority), layers.1),
        call_ensures(XdsRoutingLayer::<R>::layer::<S>, (&layers.0, inner), services.0),
        call_ensures(XdsRoutingLayer::<R>::layer::<S>, (&layers.1, inner), services.1),
        call_ensures(
            XdsRoutingService::<S, R>::begin_with::<B>,
            (&services.0, snapshot, request),
            calls.0,
        ),
        call_ensures(
            XdsRoutingService::<S, R>::begin_with::<B>,
            (&services.1, snapshot, request),
            calls.1,
        ),
        call_ensures(RoutingCall::<B>::input, (&calls.0,), inputs.0),
        call_ensures(RoutingCall::<B>::input, (&calls.1,), inputs.1),
        *inputs.0.headers == *inputs.1.headers,
        call_ensures(RoutingCall::<B>::complete::<E>, (calls.0, routed), results.0),
        call_ensures(RoutingCall::<B>::complete::<E>, (calls.1, routed), results.1),
        results.0 matches Ok(forwarded) ==> call_ensures(
            RouteRequest::<B>::route_decision,
            (&forwarded,),
            found.0,
        ),
        results.1 matches Ok(forwarded) ==> call_ensures(
            RouteRequest::<B>::route_decision,
            (&forwarded,),
            found.1,
        ),
    ensures
        inputs.0.authority@ == inputs.1.authority@,
        match (inputs.0.snapshot, inputs.1.snapshot) {
            (Some(a), Some(b)) => *a == *b,
            (None, None) => true,
            _ => false,
        },
        match (results.0, results.1) {
            (Ok(a), Ok(b)) => {
                &&& found.0 is Some && found.1 is Some
                &&& found.0->0.cluster@ == found.1->0.cluster@
                &&& found.0->0.request_hash == found.1->0.request_hash
                &&& a.headers == b.headers
                &&& a.rest == b.rest
                &&& other_extensions(a.extensions) == other_extensions(b.extensions)
            },
            (Err(a), Err(b)) => a == b,
            _ => false,
        },
{
}

/// Which decision is read off a request depends on its extensions alone.
pub proof fn law_decision_is_read_off_the_extensions<B, D>(
    request: RouteRequest<B>,
    other: RouteRequest<D>,
    found: Option<&RouteDecision>,
    found_in_other: Option<&RouteDecision>,
)
    requires
        request.extensions == other.extensions,
        call_ensures(RouteRequest::<B>::route_decision, (&request,), found),
        call_ensures(RouteRequest::<D>::route_decision, (&other,), found_in_other),
    ensures
        match (found, found_in_other) {
            (Some(a), Some(b)) => a.cluster@ == b.cluster@ && a.request_hash == b.request_hash,
            (None, None) => true,
            _ => false,
        },
{
}

} // verus!
