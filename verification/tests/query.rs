use shelly_exporter::error::ProbeError;
use shelly_exporter::probe::{probe_shelly_plug, ProbeAction};
use shelly_exporter::query::{extract_target, find_param};
use shelly_exporter::shelly::status_url;

fn pairs(items: &[(&str, &str)]) -> Vec<(String, String)> {
    items.iter().map(|(k, v)| (k.to_string(), v.to_string())).collect()
}

#[test]
fn missing_query_string_is_rejected() {
    assert_eq!(extract_target(None), Err(ProbeError::MissingQuery));
}

#[test]
fn probe_without_query_is_422_with_exact_message() {
    match probe_shelly_plug(None) {
        ProbeAction::Respond { reply, diagnostic } => {
            assert_eq!(reply.status, 422);
            assert_eq!(reply.body, "Missing query string");
            assert_eq!(reply.content_type, None);
            assert_eq!(diagnostic, None);
        }
        other => panic!("unexpected action {:?}", other),
    }
}

#[test]
fn probe_without_target_is_422_with_exact_message() {
    for query in ["", "foo=bar", "Target=10.0.0.5", "targets=1&x=2", "&&", "=10.0.0.5"] {
        match probe_shelly_plug(Some(query)) {
            ProbeAction::Respond { reply, diagnostic } => {
                assert_eq!(reply.status, 422);
                assert_eq!(reply.body, "Missing target parameter");
                assert_eq!(reply.content_type, None);
                assert_eq!(diagnostic, None);
            }
            other => panic!("unexpected action {:?} for {:?}", other, query),
        }
    }
}

#[test]
fn missing_target_is_rejected() {
    assert_eq!(extract_target(Some("")), Err(ProbeError::MissingTarget));
    assert_eq!(extract_target(Some("module=shelly")), Err(ProbeError::MissingTarget));
}

#[test]
fn target_is_read_from_the_query() {
    assert_eq!(extract_target(Some("target=10.0.0.5")), Ok("10.0.0.5".to_string()));
    assert_eq!(
        extract_target(Some("module=plug&target=plug.lan:8080&x=1")),
        Ok("plug.lan:8080".to_string())
    );
}

#[test]
fn target_is_decoded() {
    assert_eq!(extract_target(Some("target=a%20b")), Ok("a b".to_string()));
    assert_eq!(extract_target(Some("target=a+b")), Ok("a b".to_string()));
    assert_eq!(extract_target(Some("target=%5B%3A%3A1%5D%3A80")), Ok("[::1]:80".to_string()));
    assert_eq!(extract_target(Some("t%61rget=x")), Ok("x".to_string()));
}

#[test]
fn last_target_wins() {
    assert_eq!(extract_target(Some("target=a&target=b")), Ok("b".to_string()));
    assert_eq!(extract_target(Some("target=a&x=1&target=")), Ok(String::new()));
}

#[test]
fn target_without_value_is_empty() {
    assert_eq!(extract_target(Some("target")), Ok(String::new()));
    assert_eq!(
        probe_shelly_plug(Some("target")),
        ProbeAction::Fetch { target: String::new(), url: "http:///status".to_string() }
    );
}

#[test]
fn find_param_takes_the_last_pair_of_the_name() {
    let decoded = pairs(&[("a", "1"), ("b", "2"), ("a", "3"), ("c", "4")]);
    assert_eq!(find_param(&decoded, "a"), Some("3".to_string()));
    assert_eq!(find_param(&decoded, "b"), Some("2".to_string()));
    assert_eq!(find_param(&decoded, "c"), Some("4".to_string()));
    assert_eq!(find_param(&decoded, "d"), None);
    assert_eq!(find_param(&decoded, "A"), None);
    assert_eq!(find_param(&Vec::new(), "a"), None);
}

#[test]
fn status_url_uses_the_target_verbatim() {
    assert_eq!(status_url("10.0.0.5"), "http://10.0.0.5/status");
    assert_eq!(status_url("plug.lan:8080"), "http://plug.lan:8080/status");
    assert_eq!(status_url(""), "http:///status");
    assert_eq!(status_url("Plug/"), "http://Plug//status");
}

#[test]
fn probe_asks_for_the_status_of_the_target() {
    assert_eq!(
        probe_shelly_plug(Some("target=192.168.1.20%3A81")),
        ProbeAction::Fetch {
            target: "192.168.1.20:81".to_string(),
            url: "http://192.168.1.20:81/status".to_string(),
        }
    );
}
