//! Verified core of a probe-style metrics exporter for Shelly smart plugs.
//!
//! Every inbound request is one probe: the target device named in the query
//! string is asked for its status, selected fields of the answer are recorded
//! as gauge samples keyed by the target, and the whole metric registry is
//! returned in the OpenMetrics text format.
//!
//! The crate holds the decisions of that pipeline. Network transfer and JSON
//! decoding are left to the embedding program, which performs each
//! [`probe::ProbeAction`] it is handed and reports the outcome back.

pub mod error;
pub mod http;
pub mod probe;
pub mod prometheus;
pub mod query;
pub mod shelly;
pub mod text;
