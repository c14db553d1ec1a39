use twelve_factor::monitoring::{
    alive_response, beacon_plan, health_response, metrics_endpoint, metrics_response, route_for,
};
use twelve_factor::{ApplicationBuilder, BeaconRoute, MonitoringConfig};

#[test]
fn alive_endpoint_is_ok_and_non_empty() {
    let r = alive_response();
    assert_eq!(r.status, 200);
    assert!(!r.body.is_empty());
    assert_eq!(r.body, "alive and running".to_string());
}

#[test]
fn health_endpoint_is_ok_and_non_empty() {
    let r = health_response();
    assert_eq!(r.status, 200);
    assert!(!r.body.is_empty());
}

#[test]
fn routes_map_to_fixed_paths() {
    assert_eq!(route_for(&"/alive.txt".to_string()), Some(BeaconRoute::Alive));
    assert_eq!(route_for(&"/healthcheck".to_string()), Some(BeaconRoute::Health));
    assert_eq!(route_for(&"/prometheus/metrics".to_string()), Some(BeaconRoute::Metrics));
    assert_eq!(route_for(&"/elsewhere".to_string()), None);
}

#[test]
fn metrics_reply_mirrors_encoding_outcome() {
    let ok = metrics_response(Some("payload".to_string()));
    assert_eq!(ok.status, 200);
    assert_eq!(ok.body, "payload".to_string());
    let failed = metrics_response(None);
    assert_eq!(failed.status, 500);
    assert!(failed.body.is_empty());
}

#[test]
fn beacon_plan_joins_address_and_port() {
    let config = MonitoringConfig {
        enabled: true,
        bind_addr: "0.0.0.0".to_string(),
        bind_port: "9080".to_string(),
    };
    let plan = beacon_plan(&config).unwrap();
    assert_eq!(plan.bind, "0.0.0.0:9080".to_string());
}

#[test]
fn disabled_beacon_has_no_plan() {
    let config = MonitoringConfig {
        enabled: false,
        bind_addr: "0.0.0.0".to_string(),
        bind_port: "9080".to_string(),
    };
    assert!(beacon_plan(&config).is_none());
}

#[test]
fn testmetrics() {
    let app = ApplicationBuilder::default().build(vec![], vec![]).unwrap().0;
    assert!(app.configuration.get_value_str(b"anything").is_err());
    let opts = prometheus::Opts::new("test_couter", "Test counter")
        .const_label("label", "one")
        .const_label("label_two", "two");
    let counter = prometheus::IntCounter::with_opts(opts).unwrap();
    prometheus::default_registry().register(Box::new(counter.clone())).unwrap();
    counter.inc();
    counter.inc();
    let reply = metrics_endpoint();
    assert_eq!(reply.status, 200);
    assert!(reply.body.contains("test_couter"));
    assert!(reply.body.contains("2"));
}
