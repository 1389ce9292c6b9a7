use std::sync::Arc;

use xds_channel::bootstrap::{
    bootstrap_source, BootstrapConfig, BootstrapError, BootstrapSource, CertProviderConfig,
};
use xds_channel::channel::{
    accept_bootstrap, resolve_providers, ChannelPlan, ProviderSource, TlsSupport, XdsChannel,
    XdsChannelBuilder, TLS_UNAVAILABLE,
};
use xds_channel::config::XdsChannelConfig;
use xds_channel::error::{BuildError, CertProviderError};
use xds_channel::instances::InstanceMap;
use xds_channel::route::{
    PreRouteInterceptor, RouteConfigMetadata, RouteConfigSnapshot, RouteRequest, Router,
    Unconfigured, XdsRoutingService,
};
use xds_channel::uri::{XdsUri, XdsUriError};

#[derive(Debug)]
struct DummyCreds;

#[derive(Debug, PartialEq)]
struct Recorder(&'static str);

#[derive(Debug, PartialEq)]
struct Provider(&'static str);

type Builder = XdsChannelBuilder<DummyCreds, Recorder, Provider>;
type Plan = ChannelPlan<DummyCreds, Recorder, String, String>;

const FULL: TlsSupport = TlsSupport {
    backend: true,
    certificate_providers: true,
};
const NONE: TlsSupport = TlsSupport {
    backend: false,
    certificate_providers: false,
};

struct Hook;

impl PreRouteInterceptor for Hook {
    fn on_request(&self, headers: &mut http::HeaderMap, _metadata: &RouteConfigMetadata) {
        headers.clear();
    }
}

struct NoRoutes;

impl Router for NoRoutes {}

fn test_config() -> XdsChannelConfig<DummyCreds> {
    XdsChannelConfig::new(XdsUri::parse("xds:///test-service").unwrap())
}

fn bootstrap(server_uri: &str, use_tls: bool) -> BootstrapConfig {
    let providers = InstanceMap::new().insert(
        "default".to_string(),
        CertProviderConfig {
            plugin_name: "file_watcher".to_string(),
            config: "{}".to_string(),
        },
    );
    BootstrapConfig::new(server_uri.to_string(), use_tls, providers, "node-1".to_string())
}

type Channel = XdsChannel<XdsRoutingService<u32, NoRoutes>, DummyCreds, &'static str>;

/// The names of `sources` in order, each with what it resolves to.
fn listed(sources: &InstanceMap<ProviderSource<Provider>>) -> String {
    let mut names = sources.names();
    names.sort();
    let shown: Vec<String> = names
        .iter()
        .map(|name| match sources.get(name).unwrap() {
            ProviderSource::Registered {
                provider,
                shadowed: None,
            } => format!("{name}={}", provider.0),
            ProviderSource::Registered {
                provider,
                shadowed: Some(config),
            } => format!("{name}={}/{}", provider.0, config.plugin_name),
            ProviderSource::Bootstrap(config) => format!("{name}={}", config.plugin_name),
        })
        .collect();
    shown.join(",")
}

/// Builds with steps that go well, except those that `fail` names, and hands back the
/// channel and what it was connected by.
fn build(
    builder: &Builder,
    tls: TlsSupport,
    fail: &[&str],
) -> (Result<(Channel, Plan), BuildError>, String) {
    let log = std::cell::RefCell::new(Vec::new());
    let planned = std::cell::RefCell::new(None);
    let result = builder.build_grpc_channel(
        tls,
        || {
            log.borrow_mut().push("load".to_string());
            if fail.contains(&"load") {
                Err(BootstrapError::Load("no file".to_string()))
            } else {
                Ok(bootstrap("env.example:443", fail.contains(&"tls")))
            }
        },
        |sources: InstanceMap<ProviderSource<Provider>>| {
            log.borrow_mut().push(format!("init({})", listed(&sources)));
            if fail.contains(&"init") {
                Err(CertProviderError {
                    reason: "no such plugin".to_string(),
                })
            } else {
                Ok("registry".to_string())
            }
        },
        |text: String| {
            log.borrow_mut().push(format!("convert({text})"));
            if fail.contains(&"convert") {
                Err(BootstrapError::Validation("bad node".to_string()))
            } else {
                Ok(format!("<{text}>"))
            }
        },
        |plan: Plan| {
            log.borrow_mut().push("connect".to_string());
            *planned.borrow_mut() = Some(plan);
            (Arc::new(NoRoutes), "resources", |policy: u32| policy + 10)
        },
    );
    let result = result.map(|channel| (channel, planned.take().unwrap()));
    let steps = log.borrow().join(" ");
    (result, steps)
}

#[test]
fn config_stores_call_credentials() {
    let config = XdsChannelConfig::new(XdsUri::parse("xds:///svc").unwrap())
        .with_call_credentials(std::sync::Arc::new(DummyCreds));
    assert!(config.call_creds().is_some());
}

#[test]
fn new_config_holds_the_target_alone() {
    let config = test_config();
    assert_eq!(config.target_uri().target, "test-service");
    assert!(config.bootstrap().is_none());
    assert!(config.call_creds().is_none());
}

#[test]
fn the_last_bootstrap_counts() {
    let config = test_config()
        .with_bootstrap(bootstrap("a", false))
        .with_call_credentials(Arc::new(DummyCreds))
        .with_bootstrap(bootstrap("b", true))
        .clone();
    assert_eq!(config.bootstrap().unwrap().server_uri(), "b");
    assert!(config.bootstrap().unwrap().use_tls());
    assert_eq!(config.bootstrap().unwrap().node(), "node-1");
    assert!(config.call_creds().is_some());
    assert_eq!(config.target_uri().target, "test-service");
}

#[test]
fn eager_load_sets_the_bootstrap_or_surfaces_the_error() {
    let config = test_config()
        .with_bootstrap_from_env(Ok(bootstrap("env", false)))
        .unwrap();
    assert_eq!(config.bootstrap().unwrap().server_uri(), "env");
    let failed = test_config().with_bootstrap_from_env(Err(BootstrapError::NotSet));
    assert!(matches!(failed, Err(BootstrapError::NotSet)));
}

#[test]
fn file_variable_comes_before_the_inline_one() {
    let path = || Some("/etc/bootstrap.json".to_string());
    let text = || Some("{}".to_string());
    assert!(matches!(
        bootstrap_source(path(), text()),
        Ok(BootstrapSource::File(p)) if p == "/etc/bootstrap.json"
    ));
    assert!(matches!(
        bootstrap_source(path(), None),
        Ok(BootstrapSource::File(p)) if p == "/etc/bootstrap.json"
    ));
    assert!(matches!(
        bootstrap_source(None, text()),
        Ok(BootstrapSource::Inline(t)) if t == "{}"
    ));
    assert!(matches!(
        bootstrap_source(None, None),
        Err(BootstrapError::NotSet)
    ));
}

#[test]
fn uri_is_read_and_written() {
    let uri = XdsUri::parse("xds:///greeter.svc:50051").unwrap();
    assert_eq!(uri.target, "greeter.svc:50051");
    assert_eq!(uri.to_string(), "xds:///greeter.svc:50051");
    assert_eq!(XdsUri::parse(&uri.clone().to_string()).unwrap().target, uri.target);
    assert!(matches!(XdsUri::parse("dns:///svc"), Err(XdsUriError::NotXds)));
    assert!(matches!(XdsUri::parse("xds://"), Err(XdsUriError::NotXds)));
    assert!(matches!(XdsUri::parse(""), Err(XdsUriError::NotXds)));
    assert!(matches!(
        XdsUri::parse("xds:///"),
        Err(XdsUriError::MissingTarget)
    ));
}

#[test]
fn configured_bootstrap_needs_no_environment() {
    let builder = Builder::new(
        test_config()
            .with_bootstrap(bootstrap("mgmt.example:443", true))
            .with_call_credentials(Arc::new(DummyCreds)),
    )
    .with_metrics_recorder(Arc::new(Recorder("r")))
    .with_certificate_provider("mine", Arc::new(Provider("p")));
    let (result, steps) = build(&builder, FULL, &[]);
    let (mut channel, plan) = result.ok().unwrap();
    assert_eq!(steps, "init(default=file_watcher,mine=p) convert(node-1) connect");
    assert_eq!(channel.config().target_uri().target, "test-service");
    assert_eq!(*channel.inner_mut().inner_mut(), 10);
    assert!(header_survives(&mut channel));
    assert_eq!(plan.listener_name, "test-service");
    assert_eq!(plan.server_uri, "mgmt.example:443");
    assert!(plan.tls);
    assert!(plan.call_creds.is_some());
    assert_eq!(plan.target, "xds:///test-service");
    assert_eq!(plan.recorder.as_deref(), Some(&Recorder("r")));
    assert_eq!(plan.registry.as_deref(), Some("registry"));
    assert_eq!(plan.node, "<node-1>");
}

#[test]
fn environment_is_the_fallback() {
    let builder = Builder::new(test_config());
    let (result, steps) = build(&builder, NONE, &[]);
    let (_, plan) = result.ok().unwrap();
    assert_eq!(steps, "load convert(node-1) connect");
    assert_eq!(plan.server_uri, "env.example:443");
    assert!(!plan.tls);
    assert!(plan.call_creds.is_none());
    assert!(plan.recorder.is_none());
    assert!(plan.registry.is_none());
}

#[test]
fn eager_and_lazy_load_lead_to_the_same_plan() {
    let lazy = Builder::new(test_config());
    let eager = Builder::new(
        test_config()
            .with_bootstrap_from_env(Ok(bootstrap("env.example:443", false)))
            .unwrap(),
    );
    let (from_lazy, lazy_steps) = build(&lazy, FULL, &[]);
    let (from_eager, eager_steps) = build(&eager, FULL, &[]);
    assert_eq!(lazy_steps, format!("load {eager_steps}"));
    let (a, b) = (from_lazy.ok().unwrap().1, from_eager.ok().unwrap().1);
    assert_eq!(a.server_uri, b.server_uri);
    assert_eq!(a.listener_name, b.listener_name);
    assert_eq!(a.target, b.target);
    assert_eq!(a.tls, b.tls);
    assert_eq!(a.registry, b.registry);
    assert_eq!(a.node, b.node);
    assert_eq!(a.listener_name, &*lazy.authority());
}

#[test]
fn the_first_failing_step_ends_the_build() {
    let builder = Builder::new(test_config());

    let (result, steps) = build(&builder, FULL, &["load", "init", "convert"]);
    let error = result.err().unwrap();
    assert!(matches!(&error, BuildError::Bootstrap(BootstrapError::Load(_))));
    assert_eq!(error.message(), "bootstrap: no file");
    assert_eq!(steps, "load");

    let partial = TlsSupport {
        backend: false,
        certificate_providers: true,
    };
    let (result, steps) = build(&builder, partial, &["tls", "init", "convert"]);
    let error = result.err().unwrap();
    assert!(matches!(
        &error,
        BuildError::Bootstrap(BootstrapError::Validation(_))
    ));
    assert_eq!(
        error.message(),
        "bootstrap: TLS requested by bootstrap but no TLS feature enabled (enable tls-ring or tls-aws-lc)"
    );
    assert_eq!(steps, "load");

    let (result, steps) = build(&builder, FULL, &["init", "convert"]);
    let error = result.err().unwrap();
    assert!(matches!(&error, BuildError::CertProvider(_)));
    assert_eq!(error.message(), "certificate provider: no such plugin");
    assert_eq!(steps, "load init(default=file_watcher)");

    let (result, steps) = build(&builder, FULL, &["convert"]);
    let error = result.err().unwrap();
    assert_eq!(error.message(), "bootstrap: bad node");
    assert_eq!(steps, "load init(default=file_watcher) convert(node-1)");
}

#[test]
fn a_builder_builds_again() {
    let builder = Builder::new(test_config()).with_pre_route_interceptor(Arc::new(Hook));
    let (first, first_steps) = build(&builder, FULL, &[]);
    let (second, second_steps) = build(&builder, FULL, &[]);
    assert_eq!(first_steps, second_steps);
    let (mut one, one_plan) = first.ok().unwrap();
    let (mut two, two_plan) = second.ok().unwrap();
    assert_eq!(one_plan.server_uri, two_plan.server_uri);
    assert!(!header_survives(&mut one));
    assert!(!header_survives(&mut two));
    *one.inner_mut().inner_mut() = 1;
    assert_eq!(*two.inner_mut().inner_mut(), 10);

    let (first, _) = build(&builder, FULL, &["init"]);
    let (second, _) = build(&builder, FULL, &["init"]);
    assert_eq!(
        first.err().unwrap().message(),
        second.err().unwrap().message()
    );
}

#[test]
fn a_failing_build_connects_nothing() {
    let lazy = Builder::new(test_config());
    let eager = Builder::new(test_config().with_bootstrap(bootstrap("s", true)));
    for (builder, tls, fail) in [
        (&lazy, FULL, "load"),
        (&lazy, NONE, "tls"),
        (&lazy, FULL, "init"),
        (&lazy, NONE, "convert"),
        (&eager, NONE, ""),
    ] {
        let (result, steps) = build(builder, tls, &[fail]);
        assert!(result.is_err());
        assert!(!steps.contains("connect"));
    }
}

#[test]
fn a_plan_is_made_without_connecting() {
    let plan = Builder::new(test_config())
        .plan_grpc_channel(
            NONE,
            || Ok(bootstrap("env.example:443", false)),
            |_| Ok(0u8),
            Ok::<String, BootstrapError>,
        )
        .ok()
        .unwrap();
    assert_eq!(plan.target, "xds:///test-service");
    assert_eq!(plan.node, "node-1");
    assert!(plan.registry.is_none());
}

#[test]
fn bootstrap_is_accepted_unless_tls_is_missing() {
    assert!(accept_bootstrap(Ok(bootstrap("s", false)), NONE).is_ok());
    assert!(accept_bootstrap(Ok(bootstrap("s", true)), FULL).is_ok());
    match accept_bootstrap(Ok(bootstrap("s", true)), NONE) {
        Err(BuildError::Bootstrap(BootstrapError::Validation(reason))) => {
            assert_eq!(reason, TLS_UNAVAILABLE)
        }
        _ => panic!("TLS must be refused"),
    }
}

#[test]
fn not_set_is_reported_in_words() {
    assert_eq!(
        BuildError::from(BootstrapError::NotSet).message(),
        "bootstrap: neither GRPC_XDS_BOOTSTRAP nor GRPC_XDS_BOOTSTRAP_CONFIG is set"
    );
}

#[test]
fn registered_provider_shadows_the_bootstrap_instance() {
    let configured = bootstrap("s", false);
    let none = InstanceMap::<Arc<Provider>>::new();
    let ours = InstanceMap::new()
        .insert("default".to_string(), Arc::new(Provider("first")))
        .insert("mine".to_string(), Arc::new(Provider("third")))
        .insert("default".to_string(), Arc::new(Provider("second")));
    let from_bootstrap = configured.certificate_providers();
    assert_eq!(
        listed(&resolve_providers(from_bootstrap, &ours)),
        "default=second/file_watcher,mine=third"
    );
    assert_eq!(
        listed(&resolve_providers(from_bootstrap, &none)),
        "default=file_watcher"
    );
    assert_eq!(
        listed(&resolve_providers(&InstanceMap::new(), &ours)),
        "default=second,mine=third"
    );
    assert_eq!(listed(&resolve_providers(&InstanceMap::new(), &none)), "");
}

#[test]
fn a_build_starts_the_shadowing_provider() {
    let builder = Builder::new(test_config().with_bootstrap(bootstrap("s", false)))
        .with_certificate_provider("default", Arc::new(Provider("first")))
        .with_certificate_provider("default", Arc::new(Provider("second")));
    let (result, steps) = build(&builder, FULL, &[]);
    assert!(result.is_ok());
    assert_eq!(
        steps,
        "init(default=second/file_watcher) convert(node-1) connect"
    );
}

#[test]
fn registrations_under_two_names_commute() {
    let register = |names: [&'static str; 2]| {
        let mut builder = Builder::new(test_config().with_bootstrap(bootstrap("s", false)));
        for name in names {
            builder = builder.with_provider_named(name.to_string(), Arc::new(Provider(name)));
        }
        build(&builder, FULL, &[]).1
    };
    assert_eq!(register(["a", "b"]), register(["b", "a"]));
}

#[test]
fn settings_commute() {
    let one = test_config()
        .with_bootstrap(bootstrap("b", true))
        .with_call_credentials(Arc::new(DummyCreds));
    let other = test_config()
        .with_call_credentials(Arc::new(DummyCreds))
        .with_bootstrap(bootstrap("b", true));
    assert_eq!(format!("{one:?}"), format!("{other:?}"));
}

#[test]
fn otel_metrics_install_the_recorder_of_the_meter() {
    let builder = Builder::new(test_config())
        .with_otel_metrics("meter", |meter| Arc::new(Recorder(meter)));
    assert_eq!(builder.recorder().as_deref(), Some(&Recorder("meter")));
    assert!(builder.pre_route().is_none());
}

#[test]
fn summary_names_what_is_set() {
    let builder = Builder::new(test_config());
    let shown = builder.summary(NONE, "R", "I");
    assert_eq!(shown.recorder, "None");
    assert_eq!(shown.pre_route, "None");
    assert!(shown.cert_providers.is_none());
    assert_eq!(shown.config.target_uri().target, "test-service");

    let builder = builder
        .with_metrics_recorder(Arc::new(Recorder("r")))
        .with_pre_route_interceptor(Arc::new(Hook))
        .with_certificate_provider("a".to_string(), Arc::new(Provider("1")))
        .with_provider_named("b".to_string(), Arc::new(Provider("2")))
        .clone();
    let shown = builder.summary(FULL, "R", "I");
    assert_eq!(shown.recorder, "R");
    assert_eq!(shown.pre_route, "I");
    let mut names = shown.cert_providers.unwrap();
    names.sort();
    assert_eq!(names, ["a", "b"]);
}

#[test]
fn a_router_has_no_snapshot_unless_it_says_so() {
    assert!(NoRoutes.snapshot().is_none());
    assert!(Unconfigured { state: 7 }.snapshot().is_none());
}

/// Runs the hook of a channel on one header and says whether it is still there.
fn header_survives<T>(
    channel: &mut XdsChannel<XdsRoutingService<u32, NoRoutes>, DummyCreds, T>,
) -> bool {
    let mut headers = http::HeaderMap::new();
    headers.insert("hint", "a".parse().unwrap());
    let request = RouteRequest {
        headers,
        extensions: http::Extensions::new(),
        rest: (),
    };
    let snapshot = Arc::new(RouteConfigSnapshot {
        version: 1,
        metadata: RouteConfigMetadata::new(InstanceMap::new(), InstanceMap::new()),
    });
    let call = channel.inner_mut().begin_with(Some(snapshot), request);
    assert_eq!(call.input().authority, "test-service");
    let kept = call.input().headers.contains_key("hint");
    kept
}

#[test]
fn test_build_from_cache_smoke() {
    let builder = Builder::new(test_config());
    assert_eq!(&*builder.authority(), "test-service");
    let mut channel =
        builder.build_from_cache(Arc::new(NoRoutes), "resources", |retry: u32| retry + 10);
    assert!(header_survives(&mut channel));
    assert_eq!(*channel.inner_mut().inner_mut(), 10);
    assert_eq!(channel.config().target_uri().target, "test-service");
    let mut copy = channel.clone();
    *copy.inner_mut().inner_mut() = 1;
    assert_eq!(*channel.inner_mut().inner_mut(), 10);
    assert_eq!(copy.config().target_uri().target, "test-service");
}

#[test]
fn channel_from_cache_runs_the_registered_hook() {
    let builder = Builder::new(test_config()).with_pre_route_interceptor(Arc::new(Hook));
    let mut channel =
        builder.build_from_cache(Arc::new(NoRoutes), "resources", |retry: u32| retry + 10);
    assert!(!header_survives(&mut channel));
}

#[test]
fn channel_from_parts_takes_the_given_hook_and_policy() {
    let builder = Builder::new(test_config()).with_pre_route_interceptor(Arc::new(Hook));
    let mut channel: XdsChannel<_, _, ()> =
        builder.build_grpc_channel_from_parts(Arc::new(NoRoutes), 3u32, None, |retry: u32| {
            retry + 10
        });
    assert!(header_survives(&mut channel));
    assert_eq!(*channel.inner_mut().inner_mut(), 13);
}
