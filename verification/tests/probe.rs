use prometheus_client::encoding::{EncodeMetric, MetricEncoder};
use prometheus_client::metrics::family::Family;
use prometheus_client::metrics::gauge::Gauge;
use prometheus_client::metrics::MetricType;
use shelly_exporter::error::ProbeError;
use shelly_exporter::http::Reply;
use shelly_exporter::probe::{
    encoded_action, handle, record_status, respond_metrics, step, ProbeAction, ProbeEvent,
};
use shelly_exporter::prometheus::{init_prometheus_sate, Metric, PrometheusState};
use shelly_exporter::shelly::{Meters, Relays, Shelly};
use std::sync::atomic::AtomicU64;

type WattFamily = Family<Vec<(String, String)>, Gauge<f64, AtomicU64>>;

/// The registry together with the two watt families that the embedding
/// program keeps.
struct Exporter {
    core: PrometheusState,
    power: WattFamily,
    total: WattFamily,
}

fn exporter() -> Exporter {
    let mut core = init_prometheus_sate();
    let power = WattFamily::default();
    let total = WattFamily::default();
    core.registry.register(Metric::Power.name(), Metric::Power.help(), power.clone());
    core.registry.register(Metric::TotalPower.name(), Metric::TotalPower.help(), total.clone());
    Exporter { core, power, total }
}

/// Runs one request to its reply, answering every fetch with `fetched`.
fn serve(
    exporter: &mut Exporter,
    path: &str,
    query: Option<&str>,
    fetched: Result<Shelly, ProbeError>,
) -> (Reply, Option<ProbeError>) {
    let mut fetched = Some(fetched);
    let mut event =
        ProbeEvent::Request { path: path.to_string(), query: query.map(str::to_string) };
    loop {
        event = match step(&mut exporter.core, event) {
            ProbeAction::Fetch { target, url } => {
                assert_eq!(url, format!("http://{}/status", target));
                ProbeEvent::Fetched { target, outcome: fetched.take().unwrap() }
            }
            ProbeAction::Publish { label, power, total } => {
                let set = label.to_label_set();
                exporter.power.get_or_create(&set).set(f64::from_bits(power));
                exporter.total.get_or_create(&set).set(f64::from_bits(total));
                ProbeEvent::Published
            }
            ProbeAction::Respond { reply, diagnostic } => return (reply, diagnostic),
        };
    }
}

fn status(uptime: u64, ison: bool, power: f64, total: f64, is_valid: bool) -> Shelly {
    Shelly {
        uptime,
        relays: vec![Relays { ison }],
        meters: vec![Meters { power: power.to_bits(), total: total.to_bits(), is_valid }],
        ram_total: 50_000,
        ram_free: 38_000,
        fs_size: 233_681,
        fs_free: 150_000,
    }
}

fn count_lines(text: &str, line: &str) -> usize {
    text.lines().filter(|l| *l == line).count()
}

fn count_series(text: &str) -> usize {
    text.lines().filter(|l| !l.starts_with('#')).count()
}

#[test]
fn well_formed_status_is_exposed() {
    let mut exporter = exporter();
    let (reply, diagnostic) = serve(
        &mut exporter,
        "/probe",
        Some("target=10.0.0.5"),
        Ok(status(86400, true, 12.5, 340.2, true)),
    );
    assert_eq!(reply.status, 200);
    assert_eq!(diagnostic, None);
    assert_eq!(
        reply.content_type.as_deref(),
        Some("application/openmetrics-text; version=1.0.0; charset=utf-8")
    );
    let body = reply.body;
    assert_eq!(count_lines(&body, "shelly_power_w{target=\"10.0.0.5\"} 12.5"), 1);
    assert_eq!(count_lines(&body, "shelly_relay_ison{target=\"10.0.0.5\"} 1"), 1);
    assert_eq!(count_lines(&body, "shelly_power_is_valid{target=\"10.0.0.5\"} 1"), 1);
    assert_eq!(count_lines(&body, "shelly_uptime{target=\"10.0.0.5\"} 86400"), 1);
    assert_eq!(count_lines(&body, "shelly_power_total_w{target=\"10.0.0.5\"} 340.2"), 1);
    assert_eq!(count_series(&body), 5);
    assert_eq!(body.lines().filter(|l| l.starts_with("# HELP ")).count(), 5);
    assert_eq!(body.lines().filter(|l| l.starts_with("# TYPE ")).count(), 5);
    assert!(body.ends_with("# EOF\n"));
}

#[test]
fn probing_a_target_again_overwrites_its_series() {
    let mut exporter = exporter();
    serve(
        &mut exporter,
        "/probe",
        Some("target=10.0.0.5"),
        Ok(status(100, true, 12.5, 340.2, true)),
    );
    let (reply, _) = serve(
        &mut exporter,
        "/probe",
        Some("target=10.0.0.5"),
        Ok(status(160, false, 0.0, 340.5, false)),
    );
    let body = reply.body;
    assert_eq!(count_series(&body), 5);
    assert_eq!(count_lines(&body, "shelly_power_w{target=\"10.0.0.5\"} 0.0"), 1);
    assert_eq!(count_lines(&body, "shelly_relay_ison{target=\"10.0.0.5\"} 0"), 1);
    assert_eq!(count_lines(&body, "shelly_power_is_valid{target=\"10.0.0.5\"} 0"), 1);
    assert_eq!(count_lines(&body, "shelly_uptime{target=\"10.0.0.5\"} 160"), 1);
    assert_eq!(count_lines(&body, "shelly_power_total_w{target=\"10.0.0.5\"} 340.5"), 1);
}

#[test]
fn probing_two_targets_keeps_their_series_apart() {
    let mut exporter = exporter();
    serve(&mut exporter, "/probe", Some("target=a"), Ok(status(100, true, 1.5, 10.0, true)));
    let (reply, _) =
        serve(&mut exporter, "/probe", Some("target=b"), Ok(status(200, false, 2.5, 20.0, true)));
    let body = reply.body;
    assert_eq!(count_series(&body), 10);
    assert_eq!(count_lines(&body, "shelly_uptime{target=\"a\"} 100"), 1);
    assert_eq!(count_lines(&body, "shelly_uptime{target=\"b\"} 200"), 1);
    assert_eq!(count_lines(&body, "shelly_power_w{target=\"a\"} 1.5"), 1);
    assert_eq!(count_lines(&body, "shelly_power_w{target=\"b\"} 2.5"), 1);

    let (reply, _) =
        serve(&mut exporter, "/probe", Some("target=b"), Ok(status(260, true, 3.5, 21.0, false)));
    let body = reply.body;
    assert_eq!(count_series(&body), 10);
    assert_eq!(count_lines(&body, "shelly_uptime{target=\"a\"} 100"), 1);
    assert_eq!(count_lines(&body, "shelly_relay_ison{target=\"a\"} 1"), 1);
    assert_eq!(count_lines(&body, "shelly_power_is_valid{target=\"a\"} 1"), 1);
    assert_eq!(count_lines(&body, "shelly_power_w{target=\"a\"} 1.5"), 1);
    assert_eq!(count_lines(&body, "shelly_power_total_w{target=\"a\"} 10.0"), 1);
    assert_eq!(count_lines(&body, "shelly_uptime{target=\"b\"} 260"), 1);
    assert_eq!(count_lines(&body, "shelly_relay_ison{target=\"b\"} 1"), 1);
    assert_eq!(count_lines(&body, "shelly_power_is_valid{target=\"b\"} 0"), 1);
    assert_eq!(count_lines(&body, "shelly_power_w{target=\"b\"} 3.5"), 1);
    assert_eq!(count_lines(&body, "shelly_power_total_w{target=\"b\"} 21.0"), 1);
}

#[test]
fn failed_fetch_is_500_and_leaves_the_registry_alone() {
    let mut exporter = exporter();
    serve(&mut exporter, "/probe", Some("target=a"), Ok(status(100, true, 1.5, 10.0, true)));
    let before = exporter.core.encode().unwrap();

    let (reply, diagnostic) =
        serve(&mut exporter, "/probe", Some("target=a"), Err(ProbeError::FetchFailed));
    assert_eq!(reply.status, 500);
    assert_eq!(reply.body, "Internal Server Error");
    assert_eq!(reply.content_type, None);
    assert_eq!(diagnostic, Some(ProbeError::FetchFailed));
    assert_eq!(exporter.core.encode().unwrap(), before);

    let (reply, diagnostic) =
        serve(&mut exporter, "/probe", Some("target=b"), Err(ProbeError::DecodeFailed));
    assert_eq!(reply.status, 500);
    assert_eq!(reply.body, "Internal Server Error");
    assert_eq!(diagnostic, Some(ProbeError::DecodeFailed));
    assert_eq!(exporter.core.encode().unwrap(), before);
}

#[test]
fn empty_meters_or_relays_are_500() {
    let mut exporter = exporter();
    let before = exporter.core.encode().unwrap();

    let mut no_meters = status(100, true, 1.5, 10.0, true);
    no_meters.meters.clear();
    let (reply, diagnostic) = serve(&mut exporter, "/probe", Some("target=a"), Ok(no_meters));
    assert_eq!(reply.status, 500);
    assert_eq!(reply.body, "Internal Server Error");
    assert_eq!(diagnostic, Some(ProbeError::MalformedStatus));

    let mut no_relays = status(100, true, 1.5, 10.0, true);
    no_relays.relays.clear();
    let (reply, diagnostic) = serve(&mut exporter, "/probe", Some("target=a"), Ok(no_relays));
    assert_eq!(reply.status, 500);
    assert_eq!(reply.body, "Internal Server Error");
    assert_eq!(diagnostic, Some(ProbeError::MalformedStatus));

    assert_eq!(exporter.core.encode().unwrap(), before);
}

#[test]
fn uptime_out_of_range_is_500() {
    let mut exporter = exporter();
    let before = exporter.core.encode().unwrap();
    let (reply, diagnostic) = serve(
        &mut exporter,
        "/probe",
        Some("target=a"),
        Ok(status(u64::MAX, true, 1.5, 10.0, true)),
    );
    assert_eq!(reply.status, 500);
    assert_eq!(diagnostic, Some(ProbeError::MalformedStatus));
    assert_eq!(exporter.core.encode().unwrap(), before);
}

#[test]
fn record_status_hands_the_watt_readings_back() {
    let mut state = init_prometheus_sate();
    let action = record_status(&mut state, "a", Ok(status(5, true, 12.5, 340.2, true)));
    match action {
        ProbeAction::Publish { label, power, total } => {
            assert_eq!(label.target, "a");
            assert_eq!(power, 12.5f64.to_bits());
            assert_eq!(total, 340.2f64.to_bits());
        }
        other => panic!("unexpected action {:?}", other),
    }
}

#[test]
fn respond_metrics_returns_the_encoding_verbatim() {
    let mut state = init_prometheus_sate();
    record_status(&mut state, "a", Ok(status(5, true, 12.5, 340.2, true)));
    match respond_metrics(&state) {
        ProbeAction::Respond { reply, diagnostic } => {
            assert_eq!(reply.status, 200);
            assert_eq!(
                reply.content_type.as_deref(),
                Some("application/openmetrics-text; version=1.0.0; charset=utf-8")
            );
            assert_eq!(reply.body, state.encode().unwrap());
            assert_eq!(count_lines(&reply.body, "shelly_uptime{target=\"a\"} 5"), 1);
            assert_eq!(diagnostic, None);
        }
        other => panic!("unexpected action {:?}", other),
    }
}

#[test]
fn response_body_covers_every_target_probed_so_far() {
    let mut exporter = exporter();
    serve(&mut exporter, "/probe", Some("target=a"), Ok(status(1, true, 1.0, 1.0, true)));
    serve(&mut exporter, "/probe", Some("target=b"), Ok(status(2, true, 2.0, 2.0, true)));
    let (reply, _) =
        serve(&mut exporter, "/probe", Some("target=c"), Ok(status(3, true, 3.0, 3.0, true)));
    assert_eq!(count_series(&reply.body), 15);
    assert_eq!(reply.body, exporter.core.encode().unwrap());
}

#[test]
fn step_agrees_with_the_single_decisions() {
    let mut state = init_prometheus_sate();
    let request = ProbeEvent::Request {
        path: "/probe".to_string(),
        query: Some("x=1&target=plug.lan".to_string()),
    };
    assert_eq!(step(&mut state, request), handle("/probe", Some("x=1&target=plug.lan")));

    let banner = ProbeEvent::Request { path: "/".to_string(), query: None };
    assert_eq!(step(&mut state, banner), handle("/", None));

    let mut other = init_prometheus_sate();
    let fetched = ProbeEvent::Fetched {
        target: "plug.lan".to_string(),
        outcome: Ok(status(9, true, 1.0, 2.0, false)),
    };
    assert_eq!(
        step(&mut state, fetched),
        record_status(&mut other, "plug.lan", Ok(status(9, true, 1.0, 2.0, false)))
    );
    assert_eq!(state.encode().unwrap(), other.encode().unwrap());
    assert_eq!(step(&mut state, ProbeEvent::Published), respond_metrics(&other));
}

#[test]
fn probe_without_parameters_never_fetches() {
    let mut exporter = exporter();
    let before = exporter.core.encode().unwrap();
    let (reply, diagnostic) =
        serve(&mut exporter, "/probe", None, Err(ProbeError::FetchFailed));
    assert_eq!(reply.status, 422);
    assert_eq!(reply.body, "Missing query string");
    assert_eq!(diagnostic, None);
    let (reply, diagnostic) =
        serve(&mut exporter, "/probe", Some("module=x"), Err(ProbeError::FetchFailed));
    assert_eq!(reply.status, 422);
    assert_eq!(reply.body, "Missing target parameter");
    assert_eq!(diagnostic, None);
    assert_eq!(exporter.core.encode().unwrap(), before);
}

/// A metric of the caller's that cannot be written out.
#[derive(Debug)]
struct Broken;

impl EncodeMetric for Broken {
    fn encode(&self, _encoder: MetricEncoder) -> Result<(), std::fmt::Error> {
        Err(std::fmt::Error)
    }

    fn metric_type(&self) -> MetricType {
        MetricType::Unknown
    }
}

#[test]
fn encoded_action_wraps_text_and_failure() {
    match encoded_action(Ok("x\n# EOF\n".to_string())) {
        ProbeAction::Respond { reply, diagnostic } => {
            assert_eq!(reply.status, 200);
            assert_eq!(reply.body, "x\n# EOF\n");
            assert_eq!(diagnostic, None);
        }
        other => panic!("unexpected action {:?}", other),
    }
    match encoded_action(Err(ProbeError::EncodeFailed)) {
        ProbeAction::Respond { reply, diagnostic } => {
            assert_eq!(reply.status, 500);
            assert_eq!(reply.body, "Internal Server Error");
            assert_eq!(reply.content_type, None);
            assert_eq!(diagnostic, Some(ProbeError::EncodeFailed));
        }
        other => panic!("unexpected action {:?}", other),
    }
}

#[test]
fn failing_metric_of_the_caller_is_500() {
    let mut exporter = exporter();
    exporter.core.registry.register("broken", "Cannot be written", Broken);
    assert_eq!(exporter.core.encode(), Err(ProbeError::EncodeFailed));
    let (reply, diagnostic) = serve(
        &mut exporter,
        "/probe",
        Some("target=a"),
        Ok(status(1, true, 1.0, 1.0, true)),
    );
    assert_eq!(reply.status, 500);
    assert_eq!(reply.body, "Internal Server Error");
    assert_eq!(reply.content_type, None);
    assert_eq!(diagnostic, Some(ProbeError::EncodeFailed));
}

#[test]
fn body_introduces_each_family_once() {
    let mut exporter = exporter();
    serve(&mut exporter, "/probe", Some("target=a"), Ok(status(1, true, 1.0, 1.0, true)));
    let (reply, _) =
        serve(&mut exporter, "/probe", Some("target=b"), Ok(status(2, true, 2.0, 2.0, true)));
    let body = reply.body;
    for header in [
        "# HELP shelly_uptime Time the device has been running in seconds.\n# TYPE shelly_uptime gauge\n",
        "# HELP shelly_relay_ison Is the relay on or off.\n# TYPE shelly_relay_ison gauge\n",
        "# HELP shelly_power_is_valid Whether power metering self-checks OK.\n# TYPE shelly_power_is_valid gauge\n",
    ] {
        assert_eq!(body.matches(header).count(), 1);
    }
}
