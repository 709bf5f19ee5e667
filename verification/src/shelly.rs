//! The status record of a Shelly plug and its mapping onto gauge samples.

use crate::error::ProbeError;
use vstd::prelude::*;
use vstd::string::StringExecFns;

verus! {

/// One power meter of the device.
///
/// The two watt readings are IEEE-754 binary64 numbers carried as their bit
/// patterns: the exporter hands them through to the gauges and never computes
/// with them.
#[derive(Clone, Copy, Debug, PartialEq, Eq, Structural)]
pub struct Meters {
    /// Instantaneous power in watts, as the bits of a binary64 number.
    pub power: u64,
    /// Total consumption since the last power cycle, as the bits of a
    /// binary64 number.
    pub total: u64,
    /// Whether the meter's self-check passed.
    pub is_valid: bool,
}

/// One relay of the device.
#[derive(Clone, Copy, Debug, PartialEq, Eq, Structural)]
pub struct Relays {
    /// Whether the relay is switched on.
    pub ison: bool,
}

/// The decoded answer of a device's `/status` endpoint.
#[derive(Clone, Debug, PartialEq, Eq)]
pub struct Shelly {
    /// Seconds since the device started.
    pub uptime: u64,
    /// The relays, in the order in which the device lists them.
    pub relays: Vec<Relays>,
    /// The meters, in the order in which the device lists them.
    pub meters: Vec<Meters>,
    pub ram_total: u64,
    pub ram_free: u64,
    pub fs_size: u64,
    pub fs_free: u64,
}

/// The five gauge values that one probe records for its target.
#[derive(Clone, Copy, Debug, PartialEq, Eq, Structural)]
pub struct Sample {
    /// `shelly_power_w`, as the bits of a binary64 number.
    pub power: u64,
    /// `shelly_uptime`, in seconds.
    pub uptime: i64,
    /// `shelly_relay_ison`, 1 for on and 0 for off.
    pub relay_ison: i64,
    /// `shelly_power_is_valid`, 1 for valid and 0 for not.
    pub is_valid: i64,
    /// `shelly_power_total_w`, as the bits of a binary64 number.
    pub total: u64,
}

/// The gauge value of a boolean: 1 for true, 0 for false.
pub open spec fn flag(b: bool) -> i64 {
    if b {
        1
    } else {
        0
    }
}

impl Shelly {
    /// A status can be mapped onto the gauges when it has a first relay and a
    /// first meter and its uptime fits the signed 64-bit uptime gauge.
    pub open spec fn is_mappable(&self) -> bool {
        &&& self.relays@.len() > 0
        &&& self.meters@.len() > 0
        &&& self.uptime <= i64::MAX
    }

    /// The sample of a mappable status: uptime as it is, and the first relay
    /// and the first meter; further relays and meters are not looked at.
    pub open spec fn spec_sample(&self) -> Sample
        recommends
            self.is_mappable(),
    {
        Sample {
            power: self.meters@[0].power,
            uptime: self.uptime as i64,
            relay_ison: flag(self.relays@[0].ison),
            is_valid: flag(self.meters@[0].is_valid),
            total: self.meters@[0].total,
        }
    }
}

/// Maps a decoded status onto the values of the five gauges.
///
/// Fails with [`ProbeError::MalformedStatus`] exactly when the status is not
/// mappable: it lists no relay or no meter, or its uptime exceeds what the
/// uptime gauge can hold.
pub fn map_status(status: &Shelly) -> (sample: Result<Sample, ProbeError>)
    ensures
        status.is_mappable() ==> sample == Ok::<Sample, ProbeError>(status.spec_sample()),
        !status.is_mappable() ==> sample == Err::<Sample, ProbeError>(
            ProbeError::MalformedStatus,
        ),
{
    if status.relays.len() == 0 || status.meters.len() == 0 {
        return Err(ProbeError::MalformedStatus);
    }
    if status.uptime > 0x7fff_ffff_ffff_ffff {
        return Err(ProbeError::MalformedStatus);
    }
    let relay = &status.relays[0];
    let meter = &status.meters[0];
    Ok(
        Sample {
            power: meter.power,
            uptime: status.uptime as i64,
            relay_ison: if relay.ison {
                1
            } else {
                0
            },
            is_valid: if meter.is_valid {
                1
            } else {
                0
            },
            total: meter.total,
        },
    )
}

/// The address of a target's status endpoint. The target is used verbatim.
pub open spec fn spec_status_url(target: Seq<char>) -> Seq<char> {
    "http://"@ + target + "/status"@
}

/// Builds the address that is fetched for a probe of `target`, without
/// validating or normalising the target in any way.
pub fn status_url(target: &str) -> (url: String)
    ensures
        url@ == spec_status_url(target@),
{
    String::from_str("http://").concat(target).concat("/status")
}

} // verus!
