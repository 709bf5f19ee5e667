use shelly_exporter::error::ProbeError;
use shelly_exporter::shelly::{map_status, Meters, Relays, Sample, Shelly};

fn status(uptime: u64, relays: Vec<Relays>, meters: Vec<Meters>) -> Shelly {
    Shelly {
        uptime,
        relays,
        meters,
        ram_total: 50_000,
        ram_free: 38_000,
        fs_size: 233_681,
        fs_free: 150_000,
    }
}

fn meter(power: f64, total: f64, is_valid: bool) -> Meters {
    Meters { power: power.to_bits(), total: total.to_bits(), is_valid }
}

#[test]
fn maps_first_relay_and_first_meter() {
    let s = status(86400, vec![Relays { ison: true }], vec![meter(12.5, 340.2, true)]);
    assert_eq!(
        map_status(&s),
        Ok(Sample {
            power: 12.5f64.to_bits(),
            uptime: 86400,
            relay_ison: 1,
            is_valid: 1,
            total: 340.2f64.to_bits(),
        })
    );
}

#[test]
fn maps_false_flags_to_zero() {
    let s = status(0, vec![Relays { ison: false }], vec![meter(0.0, 0.0, false)]);
    assert_eq!(
        map_status(&s),
        Ok(Sample { power: 0, uptime: 0, relay_ison: 0, is_valid: 0, total: 0 })
    );
}

#[test]
fn ignores_further_relays_and_meters() {
    let s = status(
        7,
        vec![Relays { ison: false }, Relays { ison: true }],
        vec![meter(1.0, 2.0, true), meter(3.0, 4.0, false)],
    );
    let sample = map_status(&s).unwrap();
    assert_eq!(sample.relay_ison, 0);
    assert_eq!(sample.is_valid, 1);
    assert_eq!(f64::from_bits(sample.power), 1.0);
    assert_eq!(f64::from_bits(sample.total), 2.0);
    assert_eq!(sample.uptime, 7);
}

#[test]
fn empty_relays_are_malformed() {
    let s = status(1, vec![], vec![meter(1.0, 2.0, true)]);
    assert_eq!(map_status(&s), Err(ProbeError::MalformedStatus));
}

#[test]
fn empty_meters_are_malformed() {
    let s = status(1, vec![Relays { ison: true }], vec![]);
    assert_eq!(map_status(&s), Err(ProbeError::MalformedStatus));
}

#[test]
fn uptime_beyond_the_gauge_is_malformed() {
    let edge = status(i64::MAX as u64, vec![Relays { ison: true }], vec![meter(1.0, 2.0, true)]);
    assert_eq!(map_status(&edge).unwrap().uptime, i64::MAX);

    let over =
        status(i64::MAX as u64 + 1, vec![Relays { ison: true }], vec![meter(1.0, 2.0, true)]);
    assert_eq!(map_status(&over), Err(ProbeError::MalformedStatus));

    let max = status(u64::MAX, vec![Relays { ison: true }], vec![meter(1.0, 2.0, true)]);
    assert_eq!(map_status(&max), Err(ProbeError::MalformedStatus));
}
