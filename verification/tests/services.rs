use casbin::{CoreApi, MgmtApi};
use common::registry::{watch_step, WatchResponse, WatchStep};
use common::cli::{Deploy, DoubanWeb};
use common::config::layer::LayerConfig;
use common::config::middleware::MiddlewareConfig;
use common::config::service::{GrpcServiceConf, ServiceConfig};
use common::config::Config;
use common::config::service::{ServiceConf, DEFAULT_CONCURRENCY_LIMIT, DEFAULT_TIMEOUT};
use common::config::{config_source, config_source_supported, domain_config_file, parse_config_type, ConfigFormat, ConfigSource, Register};
use common::discover::{instance_key, new_instance_key, EtcdDiscoverConf};
use common::infra::{Del, Get, Put, SetTo};
use common::middleware::{role_mapping_verdict, role_subject, EnforceOutcome, EtcdConf, Verdict};
use common::registry::{
    endpoint_change, initial_changes, service_key_text, watch_change, EndpointChange, EtcdRegistry, EtcdRegistryOption,
    WatchEvent, DEFAULT_GRANT_TTL, DEFAULT_KEEP_ALIVE_INTERVAL,
};

fn service() -> ServiceConf {
    ServiceConf::new(
        "auth".to_string(),
        "0.0.0.0:3000".to_string(),
        "http://127.0.0.1:3000".to_string(),
    )
}

#[test]
fn etcd_endpoints_are_split() {
    let c = EtcdConf::from_endpoints("127.0.0.1:2379|127.0.0.1:2380");
    assert_eq!(c.endpoints, vec!["127.0.0.1:2379".to_string(), "127.0.0.1:2380".to_string()]);
    assert!(c.user.is_none());
    assert!(c.keep_alive_while_idle);
}

#[test]
fn service_defaults() {
    let s = service();
    assert_eq!(s.timeout, DEFAULT_TIMEOUT);
    assert_eq!(s.concurrency_limit, DEFAULT_CONCURRENCY_LIMIT);
    assert!(!s.load_shed);
}

#[test]
fn registration_of_a_service() {
    let r = EtcdRegistry::register(EtcdConf::from_endpoints("127.0.0.1:2379"), service());
    assert!(r.registers());
    let g = r.registration("douban");
    assert_eq!(g.key, "douban:auth");
    assert_eq!(g.value, "http://127.0.0.1:3000");
    assert_eq!(g.grant_ttl, DEFAULT_GRANT_TTL);
    assert_eq!(g.keep_alive_interval, DEFAULT_KEEP_ALIVE_INTERVAL);
    let d = EtcdRegistry::discover(EtcdConf::from_endpoints("127.0.0.1:2379"));
    assert!(!d.registers());
    assert_eq!(service_key_text("a", "b"), "a:b");
}

#[test]
fn registry_option_setters() {
    let o = EtcdRegistryOption::register(EtcdConf::from_endpoints("e"), service())
        .grant_ttl(90)
        .keep_alive_interval(30);
    let r = EtcdRegistry::new(o);
    let g = r.registration("d");
    assert_eq!(g.grant_ttl, 90);
    assert_eq!(g.keep_alive_interval, 30);
    assert_eq!(r.etcd().endpoints, vec!["e".to_string()]);
    let o = EtcdRegistryOption::discover(EtcdConf::from_endpoints("e")).grant_ttl(90);
    match o {
        EtcdRegistryOption::Discover { .. } => {}
        _ => panic!("a discovering option stays one"),
    }
}

#[test]
fn watched_changes() {
    match endpoint_change(
        WatchEvent::Put { key: "d:auth".to_string(), value: "http://h:1".to_string() },
        true,
    ) {
        Some(EndpointChange::Insert(k, v)) => {
            assert_eq!(k, "d:auth");
            assert_eq!(v, "http://h:1");
        }
        other => panic!("unexpected {:?}", other),
    }
    assert!(endpoint_change(
        WatchEvent::Put { key: "d:auth".to_string(), value: "::".to_string() },
        false
    )
    .is_none());
    match endpoint_change(WatchEvent::Delete { key: "d:auth".to_string() }, false) {
        Some(EndpointChange::Remove(k)) => assert_eq!(k, "d:auth"),
        other => panic!("unexpected {:?}", other),
    }
}

#[test]
fn instance_keys() {
    assert_eq!(instance_key("auth", 7), "auth:7");
    assert_eq!(instance_key("auth", u32::MAX), "auth:4294967295");
    let k = new_instance_key("auth");
    let id = k.strip_prefix("auth:").unwrap();
    assert!(id.parse::<u32>().is_ok());
    let d = EtcdDiscoverConf::new(EtcdConf::from_endpoints("e"), service());
    assert_eq!(d.grant_ttl, 61);
    assert_eq!(d.keep_alive_interval, 20);
}

#[test]
fn role_mapping() {
    assert_eq!(role_mapping_verdict(EnforceOutcome::Allowed, 401), Verdict::Forward);
    assert_eq!(role_mapping_verdict(EnforceOutcome::Denied, 403), Verdict::Answer(403));
    assert_eq!(role_mapping_verdict(EnforceOutcome::Failed, 401), Verdict::Answer(500));
    assert_eq!(role_subject(Some("alice".to_string())), "alice");
    assert_eq!(role_subject(None), "");
}

#[test]
fn config_names() {
    assert_eq!(parse_config_type("TOML"), ConfigFormat::Toml);
    assert_eq!(parse_config_type("json"), ConfigFormat::Json);
    assert_eq!(parse_config_type("yml"), ConfigFormat::Yaml);
    assert_eq!(config_source("File"), ConfigSource::File);
    assert_eq!(config_source("APOLLO"), ConfigSource::Apollo);
    assert!(config_source_supported("file"));
    assert!(!config_source_supported("etcd"));
    assert_eq!(domain_config_file("auth", "yml"), "auth.yml");
}

#[test]
fn registers_build_anew() {
    let r = Register::factory(|c: &u32| *c + 1);
    assert_eq!(r.register(&1), 2);
    assert_eq!(r.register(&41), 42);
}

#[test]
fn command_arguments() {
    assert_eq!(*Get::<u8, u32>::new(5).dst(), 5);
    assert_eq!(*SetTo::<u8>::new(6).dst(), 6);
    assert_eq!(*Del::<u8>::new(7).dst(), 7);
    assert_eq!(*Put::<u8>::new(8).dst(), 8);
}

#[test]
fn deploy_needs_a_service() {
    assert!(Deploy::new(None, vec![]).is_none());
    let d = Deploy::new(Some("/tmp/deploy".to_string()), vec!["auth".to_string()]).unwrap();
    assert_eq!(d.service, vec!["auth".to_string()]);
    match DoubanWeb::Deploy(d) {
        DoubanWeb::Deploy(d) => assert_eq!(d.path.as_deref(), Some("/tmp/deploy")),
        DoubanWeb::Update(_) => panic!("not an update"),
    }
}

#[test]
fn layer_test() {
    let config = <Config as LayerConfig>::CookieAuth::default();
    assert_eq!(config.max_age, 172800);
    assert_eq!(config.cookie_name, "x-token");
    assert_eq!(config.path, "/");
}

struct MyConfig {
    service_conf: <Config as ServiceConfig>::GrpcService,
    redis: <Config as MiddlewareConfig>::Redis,
}

#[test]
fn config_test() {
    let conf = MyConfig {
        service_conf: GrpcServiceConf { service: service(), health_check: false },
        redis: common::middleware::RedisConf {
            dsn: common::middleware::DEFAULT_REDIS_DSN.to_string(),
        },
    };
    let dsn = Register::factory(|c: &MyConfig| c.redis.dsn.clone());
    assert_eq!(dsn.register(&conf), "redis://127.0.0.1/");
    let name = Register::factory(|c: &MyConfig| c.service_conf.service.name.clone());
    assert_eq!(name.register(&conf), "auth");
}

#[test]
fn redis_address_defaults() {
    assert_eq!(common::middleware::default_dsn(None), "redis://127.0.0.1/");
    assert_eq!(common::middleware::default_dsn(Some("redis://r:6379/".to_string())), "redis://r:6379/");
}

#[test]
fn watched_values_must_be_endpoints() {
    match watch_change(WatchEvent::Put { key: "d:a".to_string(), value: "http://h:1".to_string() }) {
        Some(EndpointChange::Insert(k, v)) => {
            assert_eq!(k, "d:a");
            assert_eq!(v, "http://h:1");
        }
        other => panic!("unexpected {:?}", other),
    }
    assert!(watch_change(WatchEvent::Put { key: "d:a".to_string(), value: "not an uri".to_string() })
        .is_none());
    match watch_change(WatchEvent::Delete { key: "d:a".to_string() }) {
        Some(EndpointChange::Remove(k)) => assert_eq!(k, "d:a"),
        other => panic!("unexpected {:?}", other),
    }
}

#[test]
fn initial_pairs_keep_their_order() {
    let pairs = vec![
        ("d:a".to_string(), "http://a:1".to_string()),
        ("d:b".to_string(), "bad value".to_string()),
        ("d:c".to_string(), "http://c:3".to_string()),
    ];
    let changes = initial_changes(pairs);
    assert_eq!(changes.len(), 2);
    match (&changes[0], &changes[1]) {
        (EndpointChange::Insert(k1, v1), EndpointChange::Insert(k2, v2)) => {
            assert_eq!((k1.as_str(), v1.as_str()), ("d:a", "http://a:1"));
            assert_eq!((k2.as_str(), v2.as_str()), ("d:c", "http://c:3"));
        }
        other => panic!("unexpected {:?}", other),
    }
}

#[test]
fn enforcer_answers_become_verdicts() {
    assert_eq!(common::middleware::answer_verdict(Some(true), 401), Verdict::Forward);
    assert_eq!(common::middleware::answer_verdict(Some(false), 401), Verdict::Answer(401));
    assert_eq!(common::middleware::answer_verdict(None, 403), Verdict::Answer(500));
}

fn enforcer() -> casbin::Enforcer {
    let model = "[request_definition]\nr = sub, obj, act\n\n[policy_definition]\np = sub, obj, act\n\n[policy_effect]\ne = some(where (p.eft == allow))\n\n[matchers]\nm = r.sub == p.sub && r.obj == p.obj && r.act == p.act\n";
    let rt = tokio::runtime::Runtime::new().unwrap();
    rt.block_on(async {
        let m = casbin::DefaultModel::from_str(model).await.unwrap();
        let mut e = casbin::Enforcer::new(m, casbin::MemoryAdapter::default()).await.unwrap();
        e.add_policy(vec!["alice".to_string(), "/movies".to_string(), "GET".to_string()])
            .await
            .unwrap();
        e
    })
}

#[test]
fn enforcer_is_asked_with_subject_path_and_method() {
    let e = enforcer();
    let allowed = common::middleware::enforce_request(&e, Some("alice".to_string()), "/movies", "GET", 401);
    assert_eq!(allowed, Verdict::Forward);
    let wrong_method =
        common::middleware::enforce_request(&e, Some("alice".to_string()), "/movies", "POST", 401);
    assert_eq!(wrong_method, Verdict::Answer(401));
    let nobody = common::middleware::enforce_request(&e, None, "/movies", "GET", 403);
    assert_eq!(nobody, Verdict::Answer(403));
}

#[test]
fn watch_answers_are_forwarded_until_canceled() {
    let resp = WatchResponse {
        canceled: false,
        events: vec![
            WatchEvent::Put { key: "d:a".to_string(), value: "http://a:1".to_string() },
            WatchEvent::Put { key: "d:b".to_string(), value: "bad value".to_string() },
            WatchEvent::Delete { key: "d:c".to_string() },
        ],
    };
    match watch_step(resp) {
        WatchStep::Forward(changes) => {
            assert_eq!(changes.len(), 2);
            assert!(matches!(&changes[0], EndpointChange::Insert(k, v) if k == "d:a" && v == "http://a:1"));
            assert!(matches!(&changes[1], EndpointChange::Remove(k) if k == "d:c"));
        }
        WatchStep::Stop => panic!("not canceled"),
    }
    let canceled = WatchResponse {
        canceled: true,
        events: vec![WatchEvent::Delete { key: "d:c".to_string() }],
    };
    assert!(matches!(watch_step(canceled), WatchStep::Stop));
}
