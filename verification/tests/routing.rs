use std::sync::{Arc, Mutex};

use http::{Extensions, HeaderMap, Request};
use xds_channel::instances::InstanceMap;
use xds_channel::route::{
    PreRouteInterceptor, RouteConfigMetadata, RouteConfigSnapshot, RouteDecision, RouteInput,
    RouteRequest, Router, RoutingCall, TypedMetadata, XdsRoutingLayer, XdsRoutingService,
};

/// A request as routing sees it; the rest is the URI.
fn head(request: Request<()>) -> RouteRequest<http::Uri> {
    let (parts, ()) = request.into_parts();
    RouteRequest {
        headers: parts.headers,
        extensions: parts.extensions,
        rest: parts.uri,
    }
}

fn decision(cluster: &str) -> RouteDecision {
    RouteDecision {
        cluster: cluster.to_string(),
        request_hash: None,
    }
}

/// Router that records the `authority` it was asked for.
struct CaptureAuthorityRouter {
    captured: Arc<Mutex<Option<String>>>,
}

impl Router for CaptureAuthorityRouter {}

impl CaptureAuthorityRouter {
    fn route(&self, input: &RouteInput<'_>) -> Result<RouteDecision, String> {
        *self.captured.lock().unwrap() = Some(input.authority.to_string());
        Ok(decision("test-cluster"))
    }
}

fn route_captured<S>(svc: &XdsRoutingService<S, CaptureAuthorityRouter>, request: Request<()>) {
    let call = svc.begin(head(request));
    let routed = svc.router().route(&call.input());
    let forwarded = call.complete(routed).unwrap();
    assert_eq!(forwarded.route_decision().unwrap().cluster, "test-cluster");
}

#[test]
fn uses_layer_authority_regardless_of_request_uri() {
    let captured = Arc::new(Mutex::new(None));
    let router = Arc::new(CaptureAuthorityRouter {
        captured: captured.clone(),
    });
    let layer = XdsRoutingLayer::new(router, None, Arc::from("greeter.svc:50051"));
    let svc = layer.layer(());

    // A request with no authority on the URI.
    let req = Request::builder()
        .uri("/pkg.Greeter/SayHello")
        .body(())
        .unwrap();
    route_captured(&svc.clone(), req);
    assert_eq!(
        captured.lock().unwrap().as_deref(),
        Some("greeter.svc:50051"),
    );

    // A request with a different authority on the URI: the layer must still use
    // its own configured authority.
    *captured.lock().unwrap() = None;
    let req = Request::builder()
        .uri("http://other.example:443/pkg.Greeter/SayHello")
        .body(())
        .unwrap();
    route_captured(&svc, req);
    assert_eq!(
        captured.lock().unwrap().as_deref(),
        Some("greeter.svc:50051"),
    );
}

fn partition_snapshot(version: u64) -> Arc<RouteConfigSnapshot> {
    let untyped = InstanceMap::new().insert("partitioning".to_string(), Vec::new());
    let typed = InstanceMap::new().insert(
        "partitioning-typed".to_string(),
        TypedMetadata {
            type_url: "type.example/Partitioning".to_string(),
            value: vec![1, 2, 3],
        },
    );
    Arc::new(RouteConfigSnapshot {
        version,
        metadata: RouteConfigMetadata::new(untyped, typed),
    })
}

/// Selects the cluster by the `x-partition` header.
struct PartitionRouter;

impl Router for PartitionRouter {
    fn snapshot(&self) -> Option<Arc<RouteConfigSnapshot>> {
        Some(partition_snapshot(7))
    }
}

impl PartitionRouter {
    fn route(&self, input: &RouteInput<'_>) -> Result<RouteDecision, String> {
        assert_eq!(input.snapshot.unwrap().version, 7);
        match input.headers.get("x-partition").and_then(|v| v.to_str().ok()) {
            Some("1") => Ok(decision("cluster-p1")),
            Some("2") => Ok(decision("cluster-p2")),
            _ => Err("no matching route".to_string()),
        }
    }
}

/// Reads the `hint` header, verifies metadata delivery, and injects the
/// partition header the router selects on.
struct PartitionInterceptor;

impl PreRouteInterceptor for PartitionInterceptor {
    fn on_request(&self, headers: &mut HeaderMap, metadata: &RouteConfigMetadata) {
        assert!(
            metadata.filter_metadata("partitioning").is_some(),
            "interceptor must see the untyped metadata",
        );
        let typed = metadata
            .typed_filter_metadata("partitioning-typed")
            .expect("interceptor must see the typed metadata");
        assert_eq!(typed.type_url, "type.example/Partitioning");
        assert_eq!(typed.value, [1, 2, 3]);
        let partition = match headers.get("hint").and_then(|v| v.to_str().ok()) {
            Some("a") => "1",
            _ => "2",
        };
        headers.insert("x-partition", partition.parse().unwrap());
    }
}

fn partition_of<S>(svc: &XdsRoutingService<S, PartitionRouter>, hint: &str) -> Option<String> {
    let req = Request::builder().header("hint", hint).body(()).unwrap();
    let call = svc.begin(head(req));
    let routed = svc.router().route(&call.input());
    let forwarded = call.complete(routed).unwrap();
    forwarded.route_decision().map(|d| d.cluster.clone())
}

#[test]
fn pre_route_interceptor_drives_partition_selection() {
    let interceptor: Arc<dyn PreRouteInterceptor> = Arc::new(PartitionInterceptor);
    let svc = XdsRoutingLayer::new(Arc::new(PartitionRouter), Some(interceptor), Arc::from("svc"))
        .layer(());

    // hint "a" -> partition 1 -> cluster-p1
    assert_eq!(partition_of(&svc, "a").as_deref(), Some("cluster-p1"));

    // hint "b" -> partition 2 -> cluster-p2
    assert_eq!(partition_of(&svc, "b").as_deref(), Some("cluster-p2"));
}

#[test]
fn refused_request_is_answered_with_the_routers_error() {
    let svc = XdsRoutingLayer::new(Arc::new(PartitionRouter), None, Arc::from("svc")).layer(());
    let call = svc.begin(head(Request::builder().header("hint", "a").body(()).unwrap()));
    // No interceptor: the headers are those of the request.
    assert!(call.input().headers.get("x-partition").is_none());
    assert_eq!(call.input().headers.get("hint").unwrap(), "a");
    let routed = svc.router().route(&call.input());
    let refused: Result<RouteRequest<http::Uri>, String> = call.complete(routed);
    assert_eq!(refused.err().as_deref(), Some("no matching route"));
}

#[test]
fn interceptor_does_not_run_without_a_snapshot() {
    let captured = Arc::new(Mutex::new(None));
    let interceptor: Arc<dyn PreRouteInterceptor> = Arc::new(PartitionInterceptor);
    let svc = XdsRoutingLayer::new(
        Arc::new(CaptureAuthorityRouter { captured }),
        Some(interceptor),
        Arc::from("svc"),
    )
    .layer(());
    let call = svc.begin(head(Request::builder().header("hint", "a").body(()).unwrap()));
    assert!(call.input().snapshot.is_none());
    assert!(call.input().headers.get("x-partition").is_none());
}

#[test]
fn begin_with_runs_the_interceptor_under_the_given_snapshot() {
    let captured = Arc::new(Mutex::new(None));
    let interceptor: Arc<dyn PreRouteInterceptor> = Arc::new(PartitionInterceptor);
    let svc = XdsRoutingLayer::new(
        Arc::new(CaptureAuthorityRouter { captured }),
        Some(interceptor),
        Arc::from("svc"),
    )
    .layer(());
    let req = Request::builder().header("hint", "b").body(()).unwrap();
    let call: RoutingCall<http::Uri> = svc.begin_with(Some(partition_snapshot(3)), head(req));
    assert_eq!(call.input().snapshot.unwrap().version, 3);
    assert_eq!(call.input().headers.get("x-partition").unwrap(), "2");
    assert_eq!(call.input().authority, "svc");
}

#[test]
fn decision_is_attached_and_the_rest_is_kept() {
    let svc = XdsRoutingLayer::new(Arc::new(PartitionRouter), None, Arc::from("svc")).layer(());
    let mut extensions = Extensions::new();
    extensions.insert(5i32);
    let request = RouteRequest {
        headers: HeaderMap::new(),
        extensions,
        rest: "body",
    };
    assert!(request.route_decision().is_none());
    let call = svc.begin(request);
    let routed: Result<RouteDecision, String> = Ok(RouteDecision {
        cluster: "c".to_string(),
        request_hash: Some(42),
    });
    let forwarded = call.complete(routed).unwrap();
    assert_eq!(forwarded.rest, "body");
    assert_eq!(forwarded.extensions.get::<i32>(), Some(&5));
    let attached = forwarded.route_decision().unwrap();
    assert_eq!(attached.cluster, "c");
    assert_eq!(attached.request_hash, Some(42));
    assert_eq!(
        forwarded.extensions.get::<RouteDecision>().unwrap().cluster,
        "c"
    );

    // A second decision replaces the first.
    let call = svc.begin(forwarded);
    let routed: Result<RouteDecision, String> = Ok(decision("d").clone());
    let forwarded = call.complete(routed).unwrap();
    assert_eq!(forwarded.route_decision().unwrap().cluster, "d");
    assert_eq!(forwarded.route_decision().unwrap().request_hash, None);
}

#[test]
fn layers_and_services_are_shared_by_clones() {
    let layer = XdsRoutingLayer::new(Arc::new(PartitionRouter), None, Arc::from("svc"));
    let mut svc = layer.clone().layer(1u32);
    *svc.inner_mut() = 2;
    let mut copy = svc.clone();
    assert_eq!(*copy.inner_mut(), 2);
    assert!(Arc::ptr_eq(svc.router(), copy.router()));
    let call = copy.begin(head(Request::new(())));
    assert_eq!(call.input().authority, "svc");
}

#[test]
fn metadata_is_found_by_filter_name() {
    let snapshot = partition_snapshot(1);
    assert!(snapshot.metadata.filter_metadata("partitioning").is_some());
    assert!(snapshot.metadata.filter_metadata("partitioning-typed").is_none());
    assert!(snapshot.metadata.typed_filter_metadata("partitioning").is_none());
}

/// Sets the partition without looking at anything.
struct FixedPartition;

impl PreRouteInterceptor for FixedPartition {
    fn on_request(&self, headers: &mut HeaderMap, _metadata: &RouteConfigMetadata) {
        headers.insert("x-partition", "1".parse().unwrap());
    }
}

#[test]
fn interceptors_that_leave_the_same_headers_route_the_same() {
    let hooks: [Arc<dyn PreRouteInterceptor>; 2] =
        [Arc::new(PartitionInterceptor), Arc::new(FixedPartition)];
    for hook in hooks {
        let svc = XdsRoutingLayer::new(Arc::new(PartitionRouter), Some(hook), Arc::from("svc"))
            .layer(());
        let req = Request::builder().uri("/p").header("hint", "a").body(()).unwrap();
        let call = svc.begin(head(req));
        assert_eq!(call.input().authority, "svc");
        assert_eq!(call.input().headers.len(), 2);
        assert_eq!(call.input().headers.get("x-partition").unwrap(), "1");
        let routed = svc.router().route(&call.input());
        let forwarded = call.complete(routed).unwrap();
        assert_eq!(forwarded.rest, "/p");
        assert_eq!(forwarded.route_decision().unwrap().cluster, "cluster-p1");
    }
}
