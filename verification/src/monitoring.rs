use vstd::prelude::*;

use crate::tree::{find_key, spec_find, ConfigTable, ConfigValue};
use vstd::string::StringExecFns;
use vstd::utf8::encode_utf8;

verus! {

/// How the beacon should be set up, extracted from the tree under the
/// top-level key `monitoring`.
#[derive(Debug, PartialEq, Eq)]
pub struct MonitoringConfig {
    pub enabled: bool,
    pub bind_addr: String,
    pub bind_port: String,
}

/// The built-in monitoring fallback: enabled, on every interface, port
/// 9080.
pub open spec fn is_default_monitoring(mc: MonitoringConfig) -> bool {
    &&& mc.enabled == true
    &&& mc.bind_addr@ == "0.0.0.0"@
    &&& mc.bind_port@ == "9080"@
}

impl Default for MonitoringConfig {
    fn default() -> (r: MonitoringConfig)
        ensures
            is_default_monitoring(r),
    {
        MonitoringConfig {
            enabled: true,
            bind_addr: "0.0.0.0".to_owned(),
            bind_port: "9080".to_owned(),
        }
    }
}

/// The byte key of the monitoring subtree.
pub open spec fn key_monitoring() -> Seq<u8> {
    encode_utf8("monitoring"@)
}

/// The `monitoring` subtree decodes: all three fields present with
/// their types.
pub open spec fn monitoring_table_ok(t: ConfigTable) -> bool {
    &&& spec_find(t, encode_utf8("enabled"@)) matches Some(v) && v is Bool
    &&& spec_find(t, encode_utf8("bind_addr"@)) matches Some(v) && v is Str
    &&& spec_find(t, encode_utf8("bind_port"@)) matches Some(v) && v is Str
}

/// `mc` holds exactly what the `monitoring` subtree `t` says.
pub open spec fn monitoring_decode_ok(t: ConfigTable, mc: MonitoringConfig) -> bool {
    &&& spec_find(t, encode_utf8("enabled"@)) == Some(ConfigValue::Bool(mc.enabled))
    &&& spec_find(t, encode_utf8("bind_addr"@)) == Some(ConfigValue::Str(mc.bind_addr))
    &&& spec_find(t, encode_utf8("bind_port"@)) == Some(ConfigValue::Str(mc.bind_port))
}

/// Decodes the `monitoring` subtree `t`; fails exactly where the
/// schema does not fit.
pub fn decode_monitoring(t: &ConfigTable) -> (r: Option<MonitoringConfig>)
    ensures
        r is Some <==> monitoring_table_ok(*t),
        (r matches Some(mc) ==> monitoring_decode_ok(*t, mc)),
{
    let enabled: bool = match find_key(t, "enabled") {
        Some(ConfigValue::Bool(b)) => *b,
        _ => {
            return None;
        },
    };
    let bind_addr: String = match find_key(t, "bind_addr") {
        Some(ConfigValue::Str(s)) => s.clone(),
        _ => {
            return None;
        },
    };
    let bind_port: String = match find_key(t, "bind_port") {
        Some(ConfigValue::Str(s)) => s.clone(),
        _ => {
            return None;
        },
    };
    Some(MonitoringConfig { enabled, bind_addr, bind_port })
}

/// Where the beacon listens: the address and port joined by a colon.
#[derive(Debug, PartialEq, Eq)]
pub struct BeaconPlan {
    pub bind: String,
}

/// `r` is the plan that `cfg` calls for: none when the beacon is
/// disabled.
pub open spec fn beacon_plan_ok(cfg: MonitoringConfig, r: Option<BeaconPlan>) -> bool {
    match r {
        Some(p) => cfg.enabled && p.bind@ == cfg.bind_addr@ + ":"@ + cfg.bind_port@,
        None => !cfg.enabled,
    }
}

/// Turns a monitoring configuration into a start plan.
pub fn beacon_plan(config: &MonitoringConfig) -> (r: Option<BeaconPlan>)
    ensures
        beacon_plan_ok(*config, r),
        r is Some <==> config.enabled,
{
    if !config.enabled {
        return None;
    }
    let mut bind = config.bind_addr.clone();
    bind.append(":");
    bind.append(config.bind_port.as_str());
    Some(BeaconPlan { bind })
}

/// One fixed route of the beacon.
#[derive(Debug, PartialEq, Eq)]
pub enum BeaconRoute {
    Alive,
    Health,
    Metrics,
}

/// The route serving a request path, if any.
pub fn route_for(path: &String) -> (r: Option<BeaconRoute>)
    ensures
        r == (if path@ == "/alive.txt"@ {
            Some(BeaconRoute::Alive)
        } else if path@ == "/healthcheck"@ {
            Some(BeaconRoute::Health)
        } else if path@ == "/prometheus/metrics"@ {
            Some(BeaconRoute::Metrics)
        } else {
            None::<BeaconRoute>
        }),
{
    let alive: String = "/alive.txt".to_owned();
    let health: String = "/healthcheck".to_owned();
    let metrics: String = "/prometheus/metrics".to_owned();
    if *path == alive {
        Some(BeaconRoute::Alive)
    } else if *path == health {
        Some(BeaconRoute::Health)
    } else if *path == metrics {
        Some(BeaconRoute::Metrics)
    } else {
        None
    }
}

/// One plain-text reply of the beacon; its content length is its
/// body's length.
#[derive(Debug, PartialEq, Eq)]
pub struct HttpReply {
    pub status: u16,
    pub body: String,
}

/// The liveness reply: success, with a fixed non-empty marker.
pub fn alive_response() -> (r: HttpReply)
    ensures
        r.status == 200,
        r.body@ == "alive and running"@,
        r.body@.len() > 0,
{
    proof {
        reveal_strlit("alive and running");
    }
    HttpReply { status: 200, body: "alive and running".to_owned() }
}

/// The health reply: success, with a fixed non-empty marker.
pub fn health_response() -> (r: HttpReply)
    ensures
        r.status == 200,
        r.body@ == "This is the default healthcheck"@,
        r.body@.len() > 0,
{
    proof {
        reveal_strlit("This is the default healthcheck");
    }
    HttpReply { status: 200, body: "This is the default healthcheck".to_owned() }
}

/// The metrics reply for an encoding outcome: the encoded text on
/// success, an empty server-error reply on failure.
pub fn metrics_response(encoded: Option<String>) -> (r: HttpReply)
    ensures
        (match encoded {
            Some(s) => r.status == 200 && r.body == s,
            None => r.status == 500 && r.body@.len() == 0,
        }),
{
    match encoded {
        Some(s) => HttpReply { status: 200, body: s },
        None => HttpReply { status: 500, body: String::new() },
    }
}

/// Relies on prometheus::gather and prometheus::TextEncoder::encode:
/// encodes the default registry's current metric families in the text
/// exposition format. The outcome depends on the process's registry,
/// so nothing is promised of it.
#[verifier::external_body]
fn gather_metrics_text() -> (r: Option<String>) {
    let families = prometheus::gather();
    let encoder = prometheus::TextEncoder::new();
    let mut buffer: Vec<u8> = Vec::new();
    if prometheus::Encoder::encode(&encoder, &families, &mut buffer).is_err() {
        return None;
    }
    match String::from_utf8(buffer) {
        Ok(s) => Some(s),
        Err(_) => None,
    }
}

/// The metrics reply: the registry's current metrics as text with
/// success, or an empty server-error reply where encoding fails.
pub fn metrics_endpoint() -> (r: HttpReply)
    ensures
        r.status == 200 || r.status == 500,
        r.status == 500 ==> r.body@.len() == 0,
{
    metrics_response(gather_metrics_text())
}

} // verus!
