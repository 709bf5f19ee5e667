//! The metric registry: gauge families keyed by the probed target.
//!
//! The families and the registry are those of the `prometheus_client` crate.
//! What they hold is described here by uninterpreted functions, and every
//! statement about the crate's behaviour is confined to the private wrappers
//! of this module, each of which says in its documentation what it takes on
//! trust.
//!
//! The two watt-valued families hold floating-point samples and are kept by
//! the embedding program, which adds them to [`PrometheusState::registry`]
//! under the names and help texts of [`Metric::Power`] and
//! [`Metric::TotalPower`], after the three families registered here. What is
//! stated of the encoded text holds for a state that is well formed
//! ([`PrometheusState::wf`]), which further metrics do not disturb. That the
//! encoding succeeds is stated for a registry that holds the three families
//! and nothing else ([`PrometheusState::is_closed`]): with a metric of
//! another kind in it, whether it succeeds is that metric's to decide.

use crate::error::ProbeError;
use crate::shelly::Sample;
use crate::text::{decimal_text, ends_with, has_line, has_text};
use prometheus_client::encoding::text::encode;
use prometheus_client::metrics::family::Family;
use prometheus_client::metrics::gauge::Gauge;
use prometheus_client::registry::Registry;
use vstd::prelude::*;
use vstd::string::StringExecFns;

verus! {

/// The label set of a series: the probed target, compared as an exact string.
#[derive(Clone, Debug, Hash, PartialEq, Eq)]
pub struct Labels {
    pub target: String,
}

impl View for Labels {
    type V = Seq<char>;

    open spec fn view(&self) -> Seq<char> {
        self.target@
    }
}

/// The name of the one label that every series carries.
pub open spec fn label_name() -> Seq<char> {
    "target"@
}

/// The label set of the series of `target`, as (name, value) pairs.
pub open spec fn target_labels(target: Seq<char>) -> Seq<(Seq<char>, Seq<char>)> {
    seq![(label_name(), target)]
}

impl Labels {
    /// Lists the labels as the (name, value) pairs by which a family is keyed.
    pub fn to_label_set(&self) -> (set: Vec<(String, String)>)
        ensures
            set.deep_view() == target_labels(self@),
    {
        let mut set: Vec<(String, String)> = Vec::new();
        set.push((String::from_str("target"), self.target.clone()));
        assert(set.deep_view() =~= target_labels(self@));
        set
    }
}

/// The five metrics of the exporter.
#[derive(Clone, Copy, Debug, PartialEq, Eq, Structural)]
pub enum Metric {
    Power,
    Uptime,
    RelayIson,
    IsValid,
    TotalPower,
}

impl Metric {
    /// The name under which the metric is exposed.
    pub open spec fn spec_name(self) -> Seq<char> {
        match self {
            Metric::Power => "shelly_power_w"@,
            Metric::Uptime => "shelly_uptime"@,
            Metric::RelayIson => "shelly_relay_ison"@,
            Metric::IsValid => "shelly_power_is_valid"@,
            Metric::TotalPower => "shelly_power_total_w"@,
        }
    }

    /// The help text with which the metric is registered.
    pub open spec fn spec_help(self) -> Seq<char> {
        match self {
            Metric::Power => "The power value in this instant."@,
            Metric::Uptime => "Time the device has been running in seconds"@,
            Metric::RelayIson => "Is the relay on or off"@,
            Metric::IsValid => "Whether power metering self-checks OK"@,
            Metric::TotalPower => "Total power consumption in watts since last power cycle"@,
        }
    }

    /// What a registry lists for the metric once it is registered: its name,
    /// and its help text closed by a full stop.
    pub open spec fn descriptor(self) -> (Seq<char>, Seq<char>) {
        (self.spec_name(), self.spec_help().push('.'))
    }

    /// Returns the name under which the metric is exposed.
    pub fn name(&self) -> (text: &'static str)
        ensures
            text@ == self.spec_name(),
    {
        match self {
            Metric::Power => "shelly_power_w",
            Metric::Uptime => "shelly_uptime",
            Metric::RelayIson => "shelly_relay_ison",
            Metric::IsValid => "shelly_power_is_valid",
            Metric::TotalPower => "shelly_power_total_w",
        }
    }

    /// Returns the help text with which the metric is registered.
    pub fn help(&self) -> (text: &'static str)
        ensures
            text@ == self.spec_help(),
    {
        match self {
            Metric::Power => "The power value in this instant.",
            Metric::Uptime => "Time the device has been running in seconds",
            Metric::RelayIson => "Is the relay on or off",
            Metric::IsValid => "Whether power metering self-checks OK",
            Metric::TotalPower => "Total power consumption in watts since last power cycle",
        }
    }
}

/// The registry of `prometheus_client`, taken as an opaque value.
#[verifier::external_type_specification]
#[verifier::external_body]
pub struct ExRegistry(Registry);

/// A family of integer gauges of `prometheus_client`, keyed by label sets
/// given as (name, value) pairs. The family is opaque to the verifier: what
/// it holds is named by [`family_values`], and only the wrappers below say
/// how a call changes it.
#[verifier::external_body]
pub struct GaugeFamily {
    inner: Family<Vec<(String, String)>, Gauge>,
}

/// The current value of every series of a family, by label set.
pub uninterp spec fn family_values(family: GaugeFamily) -> Map<Seq<(Seq<char>, Seq<char>)>, i64>;

/// The storage of a family: the one map of series that the handle shares
/// with every handle cloned from it. Nothing is said of what the number is,
/// only of when two of them are the same.
pub uninterp spec fn family_storage(family: GaugeFamily) -> int;

/// The descriptors of the metrics registered directly with a registry, in
/// the order of their registration: the name under which each is exposed,
/// and its help text.
pub uninterp spec fn registry_metrics(registry: Registry) -> Seq<(Seq<char>, Seq<char>)>;

/// The storage behind each metric registered directly with a registry, in
/// the order of their registration.
pub uninterp spec fn registry_storage(registry: Registry) -> Seq<int>;

/// True of a registry that has no prefix, no constant labels, no collector
/// and no sub-registry: all that it exposes are the metrics registered
/// directly with it, each under its own name and labels alone.
pub uninterp spec fn registry_is_bare(registry: Registry) -> bool;

/// The line that closes every complete OpenMetrics exposition.
pub open spec fn eof_marker() -> Seq<char> {
    "# EOF\n"@
}

/// The two lines that introduce a family of gauges: its name with its help
/// text, and its name with its type.
pub open spec fn header_block(name: Seq<char>, help: Seq<char>) -> Seq<char> {
    "# HELP "@ + name + " "@ + help + "\n# TYPE "@ + name + " gauge\n"@
}

/// The line of a series with one label: the metric's name, the label with
/// its value between double quotes, and the sample.
pub open spec fn sample_line(
    name: Seq<char>,
    label: Seq<char>,
    label_value: Seq<char>,
    sample: Seq<char>,
) -> Seq<char> {
    name + "{"@ + label + "=\""@ + label_value + "\"} "@ + sample + "\n"@
}

/// True when `text` has, for each metric that is registered with the
/// storage of a family, the two lines that introduce it.
pub open spec fn lists_header(
    text: Seq<char>,
    metrics: Seq<(Seq<char>, Seq<char>)>,
    storages: Seq<int>,
    storage: int,
) -> bool {
    forall|i: int|
        0 <= i < metrics.len() && i < storages.len() && #[trigger] storages[i] == storage
            ==> has_text(text, header_block(metrics[i].0, metrics[i].1))
}

/// True when `text` has the line of every single-label series of a family,
/// under the name of each metric that is registered with the family's
/// storage. `rendered` gives the text of each series' sample.
pub open spec fn lists_series(
    text: Seq<char>,
    metrics: Seq<(Seq<char>, Seq<char>)>,
    storages: Seq<int>,
    storage: int,
    rendered: Map<Seq<(Seq<char>, Seq<char>)>, Seq<char>>,
) -> bool {
    forall|i: int, labels: Seq<(Seq<char>, Seq<char>)>|
        0 <= i < metrics.len() && i < storages.len() && #[trigger] storages[i] == storage
            && #[trigger] rendered.contains_key(labels) && labels.len() == 1 ==> has_line(
            text,
            sample_line(metrics[i].0, labels[0].0, labels[0].1, rendered[labels]),
        )
}

/// True when every one of `storages` is one of the three given.
pub open spec fn only_storages(storages: Seq<int>, a: int, b: int, c: int) -> bool {
    forall|i: int|
        0 <= i < storages.len() ==> (#[trigger] storages[i]) == a || storages[i] == b
            || storages[i] == c
}

/// Creates a family with `Family::default`, which starts with an empty map
/// of series.
#[verifier::external_body]
fn family_new() -> (family: GaugeFamily)
    ensures
        family_values(family) == (Map::<Seq<(Seq<char>, Seq<char>)>, i64>::empty()),
{
    GaugeFamily { inner: Family::default() }
}

/// Sets one series with `Family::get_or_create` followed by `Gauge::set`.
/// The first looks the label set up by equality and inserts a zeroed gauge
/// where there is none; the second stores the value in that gauge. Together
/// they leave every other series as it was, and the handle keeps pointing
/// to the same storage.
#[verifier::external_body]
fn family_set(family: &mut GaugeFamily, labels: &Vec<(String, String)>, value: i64)
    ensures
        family_values(*final(family)) == family_values(*old(family)).insert(
            labels.deep_view(),
            value,
        ),
        family_storage(*final(family)) == family_storage(*old(family)),
{
    family.inner.get_or_create(labels).set(value);
}

/// Creates a registry with `Registry::default`, which has no metric, no
/// prefix, no constant labels, no collector and no sub-registry.
#[verifier::external_body]
fn registry_new() -> (registry: Registry)
    ensures
        registry_metrics(registry) == Seq::<(Seq<char>, Seq<char>)>::empty(),
        registry_storage(registry) == Seq::<int>::empty(),
        registry_is_bare(registry),
{
    Registry::default()
}

/// Registers a clone of the family's handle with `Registry::register`. The
/// clone shares the family's storage. The metric is appended without a unit,
/// under the given name and under the help text with a full stop added to
/// it; nothing else of the registry is touched.
#[verifier::external_body]
fn registry_register(registry: &mut Registry, name: &str, help: &str, family: &GaugeFamily)
    ensures
        registry_metrics(*final(registry)) == registry_metrics(*old(registry)).push(
            (name@, help@.push('.')),
        ),
        registry_storage(*final(registry)) == registry_storage(*old(registry)).push(
            family_storage(*family),
        ),
        registry_is_bare(*final(registry)) == registry_is_bare(*old(registry)),
{
    registry.register(name, help, family.inner.clone());
}

/// The series of a family by target: the value under each label set that
/// consists of the target label alone.
pub open spec fn by_target(values: Map<Seq<(Seq<char>, Seq<char>)>, i64>) -> Map<Seq<char>, i64> {
    Map::new(
        |target: Seq<char>| values.contains_key(target_labels(target)),
        |target: Seq<char>| values[target_labels(target)],
    )
}

/// Two targets with the same label set are the same target.
pub proof fn lemma_target_labels_injective(a: Seq<char>, b: Seq<char>)
    requires
        target_labels(a) == target_labels(b),
    ensures
        a == b,
{
    assert(target_labels(a)[0] == target_labels(b)[0]);
}

/// Setting the series of a target changes the family, seen by target, at
/// that target and nowhere else.
pub proof fn lemma_by_target_insert(
    values: Map<Seq<(Seq<char>, Seq<char>)>, i64>,
    target: Seq<char>,
    value: i64,
)
    ensures
        by_target(values.insert(target_labels(target), value)) == by_target(values).insert(
            target,
            value,
        ),
{
    let after = by_target(values.insert(target_labels(target), value));
    let expected = by_target(values).insert(target, value);
    assert forall|t: Seq<char>| target_labels(t) == target_labels(target) implies t == target by {
        lemma_target_labels_injective(t, target);
    }
    assert(after =~= expected);
}

/// The registry and the integer-valued gauge families of the exporter.
pub struct PrometheusState {
    pub registry: Registry,
    pub uptime_metric: GaugeFamily,
    pub relay_ison_metric: GaugeFamily,
    pub is_valid_metric: GaugeFamily,
}

/// What a [`PrometheusState`] holds: all the series of each family, by
/// label set, and the descriptors of the registered metrics.
pub struct MetricsView {
    pub uptime_series: Map<Seq<(Seq<char>, Seq<char>)>, i64>,
    pub relay_ison_series: Map<Seq<(Seq<char>, Seq<char>)>, i64>,
    pub is_valid_series: Map<Seq<(Seq<char>, Seq<char>)>, i64>,
    pub registered: Seq<(Seq<char>, Seq<char>)>,
}

impl MetricsView {
    /// The state right after initialisation: the three families registered
    /// in a fixed order, and no series in any of them.
    pub open spec fn initial() -> MetricsView {
        MetricsView {
            uptime_series: Map::empty(),
            relay_ison_series: Map::empty(),
            is_valid_series: Map::empty(),
            registered: seq![
                Metric::Uptime.descriptor(),
                Metric::RelayIson.descriptor(),
                Metric::IsValid.descriptor(),
            ],
        }
    }

    /// The state after the sample of one probe of `target` is recorded: the
    /// target's series in each family holds the sample's value, created where
    /// it did not exist; nothing else changes.
    pub open spec fn record(self, target: Seq<char>, sample: Sample) -> MetricsView {
        MetricsView {
            uptime_series: self.uptime_series.insert(target_labels(target), sample.uptime),
            relay_ison_series: self.relay_ison_series.insert(
                target_labels(target),
                sample.relay_ison,
            ),
            is_valid_series: self.is_valid_series.insert(target_labels(target), sample.is_valid),
            registered: self.registered,
        }
    }

    /// The recorded uptime of every target.
    pub open spec fn uptime(self) -> Map<Seq<char>, i64> {
        by_target(self.uptime_series)
    }

    /// The recorded relay state of every target.
    pub open spec fn relay_ison(self) -> Map<Seq<char>, i64> {
        by_target(self.relay_ison_series)
    }

    /// The recorded meter validity of every target.
    pub open spec fn is_valid(self) -> Map<Seq<char>, i64> {
        by_target(self.is_valid_series)
    }

    /// The targets that have a series in every family.
    pub open spec fn targets(self) -> Set<Seq<char>> {
        self.uptime().dom().intersect(self.relay_ison().dom()).intersect(self.is_valid().dom())
    }

    /// True when `text` exposes what the families hold: the two lines that
    /// introduce each family, and for every target with a series in a family
    /// the line of that series under the family's name, with the recorded
    /// value.
    pub open spec fn exposed_in(self, text: Seq<char>) -> bool {
        &&& has_text(text, metric_header(Metric::Uptime))
        &&& has_text(text, metric_header(Metric::RelayIson))
        &&& has_text(text, metric_header(Metric::IsValid))
        &&& forall|target: Seq<char>| #[trigger]
            self.uptime().contains_key(target) ==> has_line(
                text,
                series_line(Metric::Uptime, target, self.uptime()[target]),
            )
        &&& forall|target: Seq<char>| #[trigger]
            self.relay_ison().contains_key(target) ==> has_line(
                text,
                series_line(Metric::RelayIson, target, self.relay_ison()[target]),
            )
        &&& forall|target: Seq<char>| #[trigger]
            self.is_valid().contains_key(target) ==> has_line(
                text,
                series_line(Metric::IsValid, target, self.is_valid()[target]),
            )
    }
}

/// The two lines that introduce the family of `metric`:
/// `# HELP <name> <help>.` and `# TYPE <name> gauge`.
pub open spec fn metric_header(metric: Metric) -> Seq<char> {
    header_block(metric.descriptor().0, metric.descriptor().1)
}

/// The line of the series of `target` in the family of `metric`:
/// `<name>{target="<target>"} <value>`, closed by a newline.
pub open spec fn series_line(metric: Metric, target: Seq<char>, value: i64) -> Seq<char> {
    sample_line(metric.spec_name(), label_name(), target, decimal_text(value))
}

/// Recording a sample changes what is recorded by target at that target
/// and nowhere else.
pub proof fn lemma_record_by_target(metrics: MetricsView, target: Seq<char>, sample: Sample)
    ensures
        metrics.record(target, sample).uptime() == metrics.uptime().insert(
            target,
            sample.uptime,
        ),
        metrics.record(target, sample).relay_ison() == metrics.relay_ison().insert(
            target,
            sample.relay_ison,
        ),
        metrics.record(target, sample).is_valid() == metrics.is_valid().insert(
            target,
            sample.is_valid,
        ),
{
    lemma_by_target_insert(metrics.uptime_series, target, sample.uptime);
    lemma_by_target_insert(metrics.relay_ison_series, target, sample.relay_ison);
    lemma_by_target_insert(metrics.is_valid_series, target, sample.is_valid);
}

/// Probing a target again overwrites its series: the state is the one that
/// the second sample alone would have left, and no family gains a series.
pub proof fn lemma_record_overwrites(
    metrics: MetricsView,
    target: Seq<char>,
    first: Sample,
    second: Sample,
)
    ensures
        metrics.record(target, first).record(target, second) == metrics.record(target, second),
        metrics.record(target, first).record(target, second).uptime_series.dom()
            == metrics.record(target, first).uptime_series.dom(),
        metrics.record(target, first).record(target, second).relay_ison_series.dom()
            == metrics.record(target, first).relay_ison_series.dom(),
        metrics.record(target, first).record(target, second).is_valid_series.dom()
            == metrics.record(target, first).is_valid_series.dom(),
        metrics.record(target, first).record(target, second).uptime()[target] == second.uptime,
        metrics.record(target, first).record(target, second).relay_ison()[target]
            == second.relay_ison,
        metrics.record(target, first).record(target, second).is_valid()[target]
            == second.is_valid,
{
    let once = metrics.record(target, first);
    let twice = once.record(target, second);
    let direct = metrics.record(target, second);
    assert(twice.uptime_series =~= direct.uptime_series);
    assert(twice.relay_ison_series =~= direct.relay_ison_series);
    assert(twice.is_valid_series =~= direct.is_valid_series);
    assert(twice.uptime_series.dom() =~= once.uptime_series.dom());
    assert(twice.relay_ison_series.dom() =~= once.relay_ison_series.dom());
    assert(twice.is_valid_series.dom() =~= once.is_valid_series.dom());
}

/// Recording a sample for one target leaves the series of every other
/// target as it was: present or absent as before, and with the same value.
pub proof fn lemma_record_independent(
    metrics: MetricsView,
    target: Seq<char>,
    sample: Sample,
    other: Seq<char>,
)
    requires
        other != target,
    ensures
        metrics.record(target, sample).uptime().contains_key(other)
            == metrics.uptime().contains_key(other),
        metrics.record(target, sample).relay_ison().contains_key(other)
            == metrics.relay_ison().contains_key(other),
        metrics.record(target, sample).is_valid().contains_key(other)
            == metrics.is_valid().contains_key(other),
        metrics.record(target, sample).uptime()[other] == metrics.uptime()[other],
        metrics.record(target, sample).relay_ison()[other] == metrics.relay_ison()[other],
        metrics.record(target, sample).is_valid()[other] == metrics.is_valid()[other],
{
    lemma_record_by_target(metrics, target, sample);
}

/// The registry never shrinks: recording a sample keeps every series that
/// was there, and the target of the sample has a series in every family
/// afterwards.
pub proof fn lemma_record_keeps_targets(metrics: MetricsView, target: Seq<char>, sample: Sample)
    ensures
        metrics.uptime_series.dom().subset_of(metrics.record(target, sample).uptime_series.dom()),
        metrics.relay_ison_series.dom().subset_of(
            metrics.record(target, sample).relay_ison_series.dom(),
        ),
        metrics.is_valid_series.dom().subset_of(
            metrics.record(target, sample).is_valid_series.dom(),
        ),
        metrics.targets().subset_of(metrics.record(target, sample).targets()),
        metrics.record(target, sample).targets().contains(target),
        metrics.record(target, sample).registered == metrics.registered,
{
    lemma_record_by_target(metrics, target, sample);
}

/// After two distinct targets are probed, each has its own series holding
/// its own sample, in whichever order the probes came.
pub proof fn lemma_distinct_targets(
    metrics: MetricsView,
    a: Seq<char>,
    sample_a: Sample,
    b: Seq<char>,
    sample_b: Sample,
)
    requires
        a != b,
    ensures
        metrics.record(a, sample_a).record(b, sample_b) == metrics.record(b, sample_b).record(
            a,
            sample_a,
        ),
        metrics.record(a, sample_a).record(b, sample_b).targets().contains(a),
        metrics.record(a, sample_a).record(b, sample_b).targets().contains(b),
        metrics.record(a, sample_a).record(b, sample_b).uptime()[a] == sample_a.uptime,
        metrics.record(a, sample_a).record(b, sample_b).uptime()[b] == sample_b.uptime,
        metrics.record(a, sample_a).record(b, sample_b).relay_ison()[a] == sample_a.relay_ison,
        metrics.record(a, sample_a).record(b, sample_b).relay_ison()[b] == sample_b.relay_ison,
        metrics.record(a, sample_a).record(b, sample_b).is_valid()[a] == sample_a.is_valid,
        metrics.record(a, sample_a).record(b, sample_b).is_valid()[b] == sample_b.is_valid,
{
    let first = metrics.record(a, sample_a);
    let ab = first.record(b, sample_b);
    let ba = metrics.record(b, sample_b).record(a, sample_a);
    if target_labels(a) == target_labels(b) {
        lemma_target_labels_injective(a, b);
    }
    assert(ab.uptime_series =~= ba.uptime_series);
    assert(ab.relay_ison_series =~= ba.relay_ison_series);
    assert(ab.is_valid_series =~= ba.is_valid_series);
    lemma_record_by_target(metrics, a, sample_a);
    lemma_record_by_target(first, b, sample_b);
}

/// A text that exposes the state after a probe has the three lines of the
/// probed target with the values of its sample, and still has the line of
/// every other target with the value it had before.
pub proof fn lemma_probe_is_exposed(
    metrics: MetricsView,
    target: Seq<char>,
    sample: Sample,
    text: Seq<char>,
)
    requires
        metrics.record(target, sample).exposed_in(text),
    ensures
        has_line(text, series_line(Metric::Uptime, target, sample.uptime)),
        has_line(text, series_line(Metric::RelayIson, target, sample.relay_ison)),
        has_line(text, series_line(Metric::IsValid, target, sample.is_valid)),
        forall|other: Seq<char>|
            other != target && #[trigger] metrics.uptime().contains_key(other) ==> has_line(
                text,
                series_line(Metric::Uptime, other, metrics.uptime()[other]),
            ),
        forall|other: Seq<char>|
            other != target && #[trigger] metrics.relay_ison().contains_key(other) ==> has_line(
                text,
                series_line(Metric::RelayIson, other, metrics.relay_ison()[other]),
            ),
        forall|other: Seq<char>|
            other != target && #[trigger] metrics.is_valid().contains_key(other) ==> has_line(
                text,
                series_line(Metric::IsValid, other, metrics.is_valid()[other]),
            ),
{
    let after = metrics.record(target, sample);
    lemma_record_by_target(metrics, target, sample);
    assert(after.uptime().contains_key(target));
    assert(after.relay_ison().contains_key(target));
    assert(after.is_valid().contains_key(target));
    assert forall|other: Seq<char>|
        other != target && #[trigger] metrics.uptime().contains_key(other) implies has_line(
        text,
        series_line(Metric::Uptime, other, metrics.uptime()[other]),
    ) by {
        assert(after.uptime().contains_key(other));
    }
    assert forall|other: Seq<char>|
        other != target && #[trigger] metrics.relay_ison().contains_key(other) implies has_line(
        text,
        series_line(Metric::RelayIson, other, metrics.relay_ison()[other]),
    ) by {
        assert(after.relay_ison().contains_key(other));
    }
    assert forall|other: Seq<char>|
        other != target && #[trigger] metrics.is_valid().contains_key(other) implies has_line(
        text,
        series_line(Metric::IsValid, other, metrics.is_valid()[other]),
    ) by {
        assert(after.is_valid().contains_key(other));
    }
}

/// A text that exposes the state after a target was probed twice has the
/// target's lines with the values of the second sample.
pub proof fn lemma_second_probe_is_exposed(
    metrics: MetricsView,
    target: Seq<char>,
    first: Sample,
    second: Sample,
    text: Seq<char>,
)
    requires
        metrics.record(target, first).record(target, second).exposed_in(text),
    ensures
        has_line(text, series_line(Metric::Uptime, target, second.uptime)),
        has_line(text, series_line(Metric::RelayIson, target, second.relay_ison)),
        has_line(text, series_line(Metric::IsValid, target, second.is_valid)),
{
    lemma_probe_is_exposed(metrics.record(target, first), target, second, text);
}

/// A text that exposes the state after two distinct targets were probed has
/// the lines of both, each with the values of its own sample.
pub proof fn lemma_both_targets_exposed(
    metrics: MetricsView,
    a: Seq<char>,
    sample_a: Sample,
    b: Seq<char>,
    sample_b: Sample,
    text: Seq<char>,
)
    requires
        a != b,
        metrics.record(a, sample_a).record(b, sample_b).exposed_in(text),
    ensures
        has_line(text, series_line(Metric::Uptime, a, sample_a.uptime)),
        has_line(text, series_line(Metric::RelayIson, a, sample_a.relay_ison)),
        has_line(text, series_line(Metric::IsValid, a, sample_a.is_valid)),
        has_line(text, series_line(Metric::Uptime, b, sample_b.uptime)),
        has_line(text, series_line(Metric::RelayIson, b, sample_b.relay_ison)),
        has_line(text, series_line(Metric::IsValid, b, sample_b.is_valid)),
{
    let first = metrics.record(a, sample_a);
    lemma_record_by_target(metrics, a, sample_a);
    lemma_probe_is_exposed(first, b, sample_b, text);
    assert(first.uptime().contains_key(a));
    assert(first.relay_ison().contains_key(a));
    assert(first.is_valid().contains_key(a));
}

impl PrometheusState {
    /// The registry exposes the three families: it is bare, and its first
    /// three metrics are the uptime, relay and validity families under
    /// their own descriptors. Metrics registered after them do not matter.
    pub open spec fn wf(&self) -> bool {
        let metrics = registry_metrics(self.registry);
        let storages = registry_storage(self.registry);
        &&& registry_is_bare(self.registry)
        &&& metrics.len() >= 3
        &&& storages.len() >= 3
        &&& metrics[0] == Metric::Uptime.descriptor()
        &&& metrics[1] == Metric::RelayIson.descriptor()
        &&& metrics[2] == Metric::IsValid.descriptor()
        &&& storages[0] == family_storage(self.uptime_metric)
        &&& storages[1] == family_storage(self.relay_ison_metric)
        &&& storages[2] == family_storage(self.is_valid_metric)
    }

    /// The state is well formed and its registry holds the three families
    /// and nothing else.
    pub open spec fn is_closed(&self) -> bool {
        &&& self.wf()
        &&& registry_metrics(self.registry).len() == 3
        &&& registry_storage(self.registry).len() == 3
    }
}

/// Writes the registry out with `prometheus_client::encoding::text::encode`
/// into an empty buffer, and gives the text where the encoder succeeds.
///
/// Taken on trust, for the three families of the state:
/// - The encoder fails only where a metric or the writer fails. A family of
///   gauges fails only where the writer does, and a `String` never does. So
///   a bare registry whose metrics all have the storage of one of the three
///   families is written out successfully.
/// - A text that was written out ends with the end-of-file marker, which
///   `encode` writes last.
/// - In a text that was written out of a bare registry, each metric that
///   has the storage of a family is introduced by its `# HELP` and `# TYPE`
///   lines, and has one line for every series of that family: the metric's
///   name, the label set between braces with each value between double
///   quotes and unescaped, a space, and the sample in decimal. The latter is
///   stated for the series with a single label.
///
/// The order of the lines of a family is that of a hash map and is not
/// described; nor is it stated that the text has no further lines.
#[verifier::external_body]
fn registry_encode(state: &PrometheusState) -> (text: Option<String>)
    ensures
        (registry_is_bare(state.registry) && only_storages(
            registry_storage(state.registry),
            family_storage(state.uptime_metric),
            family_storage(state.relay_ison_metric),
            family_storage(state.is_valid_metric),
        )) ==> text is Some,
        text is Some ==> ends_with(text->Some_0@, eof_marker()),
        (text is Some && registry_is_bare(state.registry)) ==> lists_header(
            text->Some_0@,
            registry_metrics(state.registry),
            registry_storage(state.registry),
            family_storage(state.uptime_metric),
        ) && lists_series(
            text->Some_0@,
            registry_metrics(state.registry),
            registry_storage(state.registry),
            family_storage(state.uptime_metric),
            family_values(state.uptime_metric).map_values(|v: i64| decimal_text(v)),
        ),
        (text is Some && registry_is_bare(state.registry)) ==> lists_header(
            text->Some_0@,
            registry_metrics(state.registry),
            registry_storage(state.registry),
            family_storage(state.relay_ison_metric),
        ) && lists_series(
            text->Some_0@,
            registry_metrics(state.registry),
            registry_storage(state.registry),
            family_storage(state.relay_ison_metric),
            family_values(state.relay_ison_metric).map_values(|v: i64| decimal_text(v)),
        ),
        (text is Some && registry_is_bare(state.registry)) ==> lists_header(
            text->Some_0@,
            registry_metrics(state.registry),
            registry_storage(state.registry),
            family_storage(state.is_valid_metric),
        ) && lists_series(
            text->Some_0@,
            registry_metrics(state.registry),
            registry_storage(state.registry),
            family_storage(state.is_valid_metric),
            family_values(state.is_valid_metric).map_values(|v: i64| decimal_text(v)),
        ),
{
    let mut buffer = String::new();
    match encode(&mut buffer, &state.registry) {
        Ok(()) => Some(buffer),
        Err(_) => None,
    }
}

/// A text that lists the series of a family under the name of `metric`
/// has the line of every target of the family.
proof fn lemma_lists_by_target(
    text: Seq<char>,
    metrics: Seq<(Seq<char>, Seq<char>)>,
    storages: Seq<int>,
    at: int,
    metric: Metric,
    values: Map<Seq<(Seq<char>, Seq<char>)>, i64>,
)
    requires
        0 <= at < metrics.len(),
        at < storages.len(),
        metrics[at] == metric.descriptor(),
        lists_header(text, metrics, storages, storages[at]),
        lists_series(
            text,
            metrics,
            storages,
            storages[at],
            values.map_values(|v: i64| decimal_text(v)),
        ),
    ensures
        has_text(text, metric_header(metric)),
        forall|target: Seq<char>| #[trigger]
            by_target(values).contains_key(target) ==> has_line(
                text,
                series_line(metric, target, by_target(values)[target]),
            ),
{
    let rendered = values.map_values(|v: i64| decimal_text(v));
    assert(storages[at] == storages[at]);
    assert forall|target: Seq<char>| #[trigger]
        by_target(values).contains_key(target) implies has_line(
        text,
        series_line(metric, target, by_target(values)[target]),
    ) by {
        let labels = target_labels(target);
        assert(values.contains_key(labels));
        assert(rendered.contains_key(labels));
        assert(rendered[labels] == decimal_text(values[labels]));
        assert(storages[at] == storages[at]);
        assert(labels.len() == 1);
        assert(labels[0] == (label_name(), target));
    }
}

impl View for PrometheusState {
    type V = MetricsView;

    open spec fn view(&self) -> MetricsView {
        MetricsView {
            uptime_series: family_values(self.uptime_metric),
            relay_ison_series: family_values(self.relay_ison_metric),
            is_valid_series: family_values(self.is_valid_metric),
            registered: registry_metrics(self.registry),
        }
    }
}

/// Creates the registry of the exporter: the uptime, relay and validity
/// families, registered in this order under their names and help texts, with
/// no series yet.
pub fn init_prometheus_sate() -> (state: PrometheusState)
    ensures
        state@ == MetricsView::initial(),
        state.is_closed(),
{
    let mut registry = registry_new();
    let uptime_metric = family_new();
    let relay_ison_metric = family_new();
    let is_valid_metric = family_new();
    registry_register(&mut registry, Metric::Uptime.name(), Metric::Uptime.help(), &uptime_metric);
    registry_register(
        &mut registry,
        Metric::RelayIson.name(),
        Metric::RelayIson.help(),
        &relay_ison_metric,
    );
    registry_register(
        &mut registry,
        Metric::IsValid.name(),
        Metric::IsValid.help(),
        &is_valid_metric,
    );
    let state = PrometheusState { registry, uptime_metric, relay_ison_metric, is_valid_metric };
    proof {
        assert(state@.registered =~= MetricsView::initial().registered);
    }
    state
}

impl PrometheusState {
    /// Records the integer-valued part of a sample under the series of
    /// `label`, creating each series where the target is new and overwriting
    /// it where it is not. Every other series stays as it is.
    pub fn record(&mut self, label: &Labels, sample: &Sample)
        ensures
            final(self)@ == old(self)@.record(label@, *sample),
            final(self).wf() == old(self).wf(),
            final(self).is_closed() == old(self).is_closed(),
    {
        let set = label.to_label_set();
        family_set(&mut self.uptime_metric, &set, sample.uptime);
        family_set(&mut self.relay_ison_metric, &set, sample.relay_ison);
        family_set(&mut self.is_valid_metric, &set, sample.is_valid);
    }

    /// Writes the whole registry, with the series of every target probed so
    /// far, in the OpenMetrics text format. The registry is left as it is.
    ///
    /// A registry that holds the three families and nothing else is always
    /// written out. With further metrics in it the encoding fails with
    /// [`ProbeError::EncodeFailed`] where one of them fails. A text that was
    /// written out is a completed exposition, and for a state that is well
    /// formed it introduces the three families and has the line of every
    /// series of theirs. In which order the lines of a family come is not
    /// determined.
    pub fn encode(&self) -> (text: Result<String, ProbeError>)
        ensures
            self.is_closed() ==> text is Ok,
            text matches Ok(t) ==> ends_with(t@, eof_marker()) && (self.wf()
                ==> self@.exposed_in(t@)),
            text matches Err(e) ==> e == ProbeError::EncodeFailed,
    {
        proof {
            if self.is_closed() {
                let storages = registry_storage(self.registry);
                assert(only_storages(
                    storages,
                    family_storage(self.uptime_metric),
                    family_storage(self.relay_ison_metric),
                    family_storage(self.is_valid_metric),
                )) by {
                    assert forall|i: int| 0 <= i < storages.len() implies (#[trigger] storages[i])
                        == family_storage(self.uptime_metric) || storages[i] == family_storage(
                        self.relay_ison_metric,
                    ) || storages[i] == family_storage(self.is_valid_metric) by {
                        assert(i == 0 || i == 1 || i == 2);
                    }
                }
            }
        }
        match registry_encode(self) {
            None => Err(ProbeError::EncodeFailed),
            Some(text) => {
                proof {
                    if self.wf() {
                        let metrics = registry_metrics(self.registry);
                        let storages = registry_storage(self.registry);
                        lemma_lists_by_target(
                            text@,
                            metrics,
                            storages,
                            0,
                            Metric::Uptime,
                            family_values(self.uptime_metric),
                        );
                        lemma_lists_by_target(
                            text@,
                            metrics,
                            storages,
                            1,
                            Metric::RelayIson,
                            family_values(self.relay_ison_metric),
                        );
                        lemma_lists_by_target(
                            text@,
                            metrics,
                            storages,
                            2,
                            Metric::IsValid,
                            family_values(self.is_valid_metric),
                        );
                    }
                }
                Ok(text)
            },
        }
    }
}

} // verus!
