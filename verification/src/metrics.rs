//! Counters of the reconciler: how many reconciles ran, how many failed and
//! why, and the measurement of how long one took.

use crate::document::Document;
use crate::error::{ControllerError, ControllerErrorView, LocoErrorExt};
use prometheus_client::metrics::counter::Counter;
use prometheus_client::metrics::family::Family;
use prometheus_client::registry::Registry;
use std::time::{Duration, Instant};
use vstd::arithmetic::power::pow;
use vstd::prelude::*;

verus! {

/// Prefix of every metric name of the controller.
pub const METRIC_PREFIX: &'static str = "doc_ctrl_reconcile";

/// The line that ends an exposition of metrics.
pub const EXPOSITION_END: &'static str = "# EOF\n";

/// `prometheus_client`'s counter, opaque.
#[verifier::external_type_specification]
#[verifier::external_body]
#[verifier::reject_recursive_types(N)]
#[verifier::reject_recursive_types(A)]
pub struct ExCounter<N, A>(Counter<N, A>);

/// `prometheus_client`'s registry of metrics, opaque.
#[verifier::external_type_specification]
#[verifier::external_body]
pub struct ExRegistry(Registry);

/// `std::time::Instant`, opaque.
#[verifier::external_type_specification]
#[verifier::external_body]
pub struct ExInstant(Instant);

/// A set of labels: names with their values, in order.
pub type LabelSet = Seq<(Seq<char>, Seq<char>)>;

/// The counters of failures, one for each label set: a `Family` of
/// `prometheus_client`, opaque.
#[verifier::external_body]
pub struct FailureFamily {
    inner: Family<Vec<(String, String)>, Counter>,
}

/// The number that a counter shows.
pub uninterp spec fn counter_value(counter: Counter) -> u64;

/// The counters that a family holds, each by its label set.
pub uninterp spec fn family_counts(family: FailureFamily) -> Map<LabelSet, u64>;

/// The names under which a registry shows its metrics, in the order in
/// which they were registered, without its prefix.
pub uninterp spec fn registered_names(registry: Registry) -> Seq<Seq<char>>;

/// The prefix that a registry puts before every name, if it has one.
pub uninterp spec fn registry_prefix(registry: Registry) -> Option<Seq<char>>;

/// A family that holds no counter.
pub open spec fn no_counts() -> Map<LabelSet, u64> {
    Map::empty()
}

/// A counter one step on. It wraps round at the end of its range.
pub open spec fn bump(value: u64) -> u64 {
    if value == u64::MAX {
        0
    } else {
        (value + 1) as u64
    }
}

/// What a family shows for `labels`: nothing counted where it holds no
/// counter for them.
pub open spec fn count_of(counts: Map<LabelSet, u64>, labels: LabelSet) -> u64 {
    if counts.contains_key(labels) {
        counts[labels]
    } else {
        0
    }
}

/// `Counter::default`: a new counter shows 0.
#[verifier::external_body]
fn counter_new() -> (counter: Counter)
    ensures
        counter_value(counter) == 0,
{
    Counter::default()
}

/// `Counter::inc`: the counter goes one step on, wrapping, and the call
/// returns what it showed before.
#[verifier::external_body]
fn counter_inc(counter: &mut Counter) -> (previous: u64)
    ensures
        previous == counter_value(*old(counter)),
        counter_value(*final(counter)) == bump(counter_value(*old(counter))),
{
    counter.inc()
}

/// `Counter::get`: what the counter shows.
#[verifier::external_body]
fn counter_get(counter: &Counter) -> (value: u64)
    ensures
        value == counter_value(*counter),
{
    counter.get()
}

/// `Family::default`: a new family holds no counter.
#[verifier::external_body]
fn family_new() -> (family: FailureFamily)
    ensures
        family_counts(family) == no_counts(),
{
    FailureFamily { inner: Family::default() }
}

/// `Family::get_or_create` and `Counter::inc` on what it returns: the
/// counter for `labels`, made at 0 where the family held none, goes one step
/// on. The other counters stay. The call returns what the counter showed
/// before.
#[verifier::external_body]
fn family_inc(family: &mut FailureFamily, labels: &Vec<(String, String)>) -> (previous: u64)
    ensures
        previous == count_of(family_counts(*old(family)), labels.deep_view()),
        family_counts(*final(family)) == family_counts(*old(family)).insert(
            labels.deep_view(),
            bump(count_of(family_counts(*old(family)), labels.deep_view())),
        ),
{
    family.inner.get_or_create(labels).inc()
}

/// `Family::get` and `Counter::get` on what it returns: what the counter
/// for `labels` shows, if the family holds one.
#[verifier::external_body]
fn family_get(family: &FailureFamily, labels: &Vec<(String, String)>) -> (value: Option<u64>)
    ensures
        value == (if family_counts(*family).contains_key(labels.deep_view()) {
            Some(family_counts(*family)[labels.deep_view()])
        } else {
            None
        }),
{
    match family.inner.get(labels) {
        Some(counter) => Some(counter.get()),
        None => None,
    }
}

/// `Registry::with_prefix`: a registry with the prefix `prefix` that shows
/// nothing yet.
#[verifier::external_body]
fn registry_with_prefix(prefix: &str) -> (registry: Registry)
    ensures
        registry_prefix(registry) == Some(prefix@),
        registered_names(registry).len() == 0,
{
    Registry::with_prefix(prefix)
}

/// `Registry::register` with a counter: the registry shows the counter under
/// `name`, after what it showed before, and keeps its prefix.
#[verifier::external_body]
fn register_counter(registry: &mut Registry, name: &str, help: &str, counter: &Counter)
    ensures
        registered_names(*final(registry)) == registered_names(*old(registry)).push(name@),
        registry_prefix(*final(registry)) == registry_prefix(*old(registry)),
{
    registry.register(name, help, counter.clone())
}

/// `Registry::register` with a family: the registry shows the family's
/// counters under `name`, after what it showed before, and keeps its prefix.
#[verifier::external_body]
fn register_family(registry: &mut Registry, name: &str, help: &str, family: &FailureFamily)
    ensures
        registered_names(*final(registry)) == registered_names(*old(registry)).push(name@),
        registry_prefix(*final(registry)) == registry_prefix(*old(registry)),
{
    registry.register(name, help, family.inner.clone())
}

/// A whole exposition: text that ends with the line that marks the end.
pub open spec fn is_exposition(text: Seq<char>) -> bool {
    EXPOSITION_END@.is_suffix_of(text)
}

/// `prometheus_client::encoding::text::encode` into an empty `String`: the
/// registry's metrics in the text exposition format, unless a metric failed
/// to write itself. The text ends with the end marker, which `encode`
/// writes last. What stands before it depends on what the registry shows,
/// on what the metrics count at the time of the call, and on the order in
/// which a family hands out its counters.
#[verifier::external_body]
fn encode_text(registry: &Registry) -> (text: Option<String>)
    ensures
        text matches Some(exposition) ==> is_exposition(exposition@),
{
    let mut buffer = String::new();
    match prometheus_client::encoding::text::encode(&mut buffer, registry) {
        Ok(()) => Some(buffer),
        Err(_) => None,
    }
}

/// `Instant::now`: the reading of the monotonic clock.
#[verifier::external_body]
fn instant_now() -> (now: Instant) {
    Instant::now()
}

/// `Instant::elapsed`: the time that went by since `start`.
#[verifier::external_body]
fn instant_elapsed(start: &Instant) -> (elapsed: Duration) {
    start.elapsed()
}

/// `Duration::as_millis`: the whole milliseconds of a duration.
#[verifier::external_body]
fn duration_millis(duration: &Duration) -> (millis: u128) {
    duration.as_millis()
}

/// The hexadecimal digit of `value`, in lower case.
pub open spec fn hex_digit(value: int) -> char {
    "0123456789abcdef"@[value]
}

/// A trace id as text: its 32 hexadecimal digits in lower case, leading
/// zeros included.
pub open spec fn trace_id_text(id: u128) -> Seq<char> {
    Seq::new(32, |i: int| hex_digit((id as int / pow(16, (31 - i) as nat)) % 16))
}

/// `TraceId::from` and its `to_string`: the id's 32 hexadecimal digits in
/// lower case.
#[verifier::external_body]
fn trace_id_string(id: u128) -> (text: String)
    ensures
        text@ == trace_id_text(id),
{
    opentelemetry::trace::TraceId::from(id).to_string()
}

/// The trace that a duration sample points to.
#[derive(Clone, Debug, PartialEq, Eq, Hash, Default)]
pub struct TraceLabel {
    pub trace_id: String,
}

/// The label of the trace `id`, where the id is valid: not zero.
pub open spec fn trace_label(id: u128) -> Option<Seq<char>> {
    if id == 0 {
        None
    } else {
        Some(trace_id_text(id))
    }
}

impl TraceLabel {
    /// The label of the trace `id`. The id 0 stands for no trace and has
    /// none.
    pub fn try_from(id: u128) -> (label: Result<TraceLabel, ControllerError>)
        ensures
            id != 0 ==> label is Ok && label->Ok_0.trace_id@ == trace_id_text(id),
            id == 0 ==> label is Err && label->Err_0@ == (ControllerErrorView::Wrapped {
                message: "invalid trace id"@,
            }),
    {
        if id == 0 {
            Err(ControllerError::Wrapped { message: String::from_str("invalid trace id") })
        } else {
            Ok(TraceLabel { trace_id: trace_id_string(id) })
        }
    }
}

/// The labels of a failure: the object's name and the failure's cause.
#[derive(Clone, Debug, PartialEq, Eq, Hash)]
pub struct ErrorLabels {
    pub instance: String,
    pub error: String,
}

/// The label set of a failure of the object `instance` with the cause
/// `error`.
pub open spec fn failure_labels(instance: Seq<char>, error: Seq<char>) -> LabelSet {
    seq![("instance"@, instance), ("error"@, error)]
}

impl ErrorLabels {
    /// The labels as the failure counters are keyed by them.
    pub fn label_set(&self) -> (labels: Vec<(String, String)>)
        ensures
            labels.deep_view() == failure_labels(self.instance@, self.error@),
    {
        let mut labels: Vec<(String, String)> = Vec::new();
        labels.push((String::from_str("instance"), self.instance.clone()));
        labels.push((String::from_str("error"), self.error.clone()));
        assert(labels.deep_view() =~= failure_labels(self.instance@, self.error@));
        labels
    }
}

/// How long a reconcile took, and the trace that the sample points to.
#[derive(Clone, Debug, PartialEq, Eq)]
pub struct Observation {
    pub millis: u128,
    pub exemplar: Option<TraceLabel>,
}

/// The text of a sample's trace label, if it has one.
pub open spec fn label_text(label: Option<TraceLabel>) -> Option<Seq<char>> {
    match label {
        Some(label) => Some(label.trace_id@),
        None => None,
    }
}

/// A running measurement of one reconcile.
pub struct ReconcileMeasurer {
    start: Instant,
    labels: Option<TraceLabel>,
}

impl ReconcileMeasurer {
    /// The trace that the sample will point to.
    pub closed spec fn labels(&self) -> Option<Seq<char>> {
        label_text(self.labels)
    }

    /// Ends the measurement: the time since its start, with the trace it
    /// points to. It can end once only, since the call uses the measurement
    /// up.
    pub fn finish(self) -> (observation: Observation)
        ensures
            label_text(observation.exemplar) == self.labels(),
    {
        let elapsed = instant_elapsed(&self.start);
        let millis = duration_millis(&elapsed);
        Observation { millis, exemplar: self.labels }
    }
}

/// The counters of the reconciler.
pub struct ReconcileMetrics {
    runs: Counter,
    failures: FailureFamily,
}

impl ReconcileMetrics {
    /// How many reconciles began.
    pub closed spec fn runs_count(&self) -> u64 {
        counter_value(self.runs)
    }

    /// How many failures were counted, by label set.
    pub closed spec fn failure_counts(&self) -> Map<LabelSet, u64> {
        family_counts(self.failures)
    }

    /// How many failures of the object `instance` with the cause `error`
    /// were counted.
    pub open spec fn failure_count(&self, instance: Seq<char>, error: Seq<char>) -> u64 {
        count_of(self.failure_counts(), failure_labels(instance, error))
    }

    /// Counters that have counted nothing and that no registry shows.
    pub fn new() -> (metrics: ReconcileMetrics)
        ensures
            metrics.runs_count() == 0,
            metrics.failure_counts() == no_counts(),
    {
        ReconcileMetrics { runs: counter_new(), failures: family_new() }
    }

    /// Makes the registry show the counters, as `failures` and `runs`, after
    /// what it shows already.
    pub fn register(self, r: &mut Registry) -> (metrics: ReconcileMetrics)
        ensures
            metrics == self,
            registered_names(*final(r)) == registered_names(*old(r)).push("failures"@).push(
                "runs"@,
            ),
            registry_prefix(*final(r)) == registry_prefix(*old(r)),
    {
        register_family(r, "failures", "reconciliation errors", &self.failures);
        register_counter(r, "runs", "reconciliations", &self.runs);
        self
    }

    /// Counts one failure of `doc` with the cause of `e`.
    pub fn set_failure(&mut self, doc: &Document, e: &ControllerError)
        ensures
            final(self).runs_count() == old(self).runs_count(),
            final(self).failure_counts() == old(self).failure_counts().insert(
                failure_labels(doc@.name, e@.label()),
                bump(old(self).failure_count(doc@.name, e@.label())),
            ),
    {
        let labels = ErrorLabels { instance: doc.metadata.name.clone(), error: e.metric_label() };
        let key = labels.label_set();
        family_inc(&mut self.failures, &key);
    }

    /// Counts one reconcile and starts to measure it. The measurement will
    /// point to the trace `trace_id` where that is valid.
    pub fn count_and_measure(&mut self, trace_id: u128) -> (measurer: ReconcileMeasurer)
        ensures
            final(self).runs_count() == bump(old(self).runs_count()),
            final(self).failure_counts() == old(self).failure_counts(),
            measurer.labels() == trace_label(trace_id),
    {
        counter_inc(&mut self.runs);
        let labels = match TraceLabel::try_from(trace_id) {
            Ok(label) => Some(label),
            Err(_) => None,
        };
        ReconcileMeasurer { start: instant_now(), labels }
    }

    /// How many reconciles began.
    pub fn runs(&self) -> (count: u64)
        ensures
            count == self.runs_count(),
    {
        counter_get(&self.runs)
    }

    /// How many failures of the object `instance` with the cause `error`
    /// were counted.
    pub fn failures_of(&self, instance: &str, error: &str) -> (count: u64)
        ensures
            count == self.failure_count(instance@, error@),
    {
        let labels = ErrorLabels {
            instance: String::from_str(instance),
            error: String::from_str(error),
        };
        let key = labels.label_set();
        match family_get(&self.failures, &key) {
            Some(count) => count,
            None => 0,
        }
    }
}

impl Default for ReconcileMetrics {
    /// Counters that have counted nothing and that no registry shows.
    fn default() -> (metrics: ReconcileMetrics)
        ensures
            metrics.runs_count() == 0,
            metrics.failure_counts() == no_counts(),
    {
        ReconcileMetrics::new()
    }
}

/// The counters together with the registry that shows them.
pub struct Metrics {
    pub reconcile: ReconcileMetrics,
    pub registry: Registry,
}

impl Metrics {
    /// New counters, shown by `registry` after what it shows already.
    pub fn with_registry(registry: Registry) -> (metrics: Metrics)
        ensures
            metrics.reconcile.runs_count() == 0,
            metrics.reconcile.failure_counts() == no_counts(),
            registered_names(metrics.registry) == registered_names(registry).push(
                "failures"@,
            ).push("runs"@),
            registry_prefix(metrics.registry) == registry_prefix(registry),
    {
        let mut registry = registry;
        let reconcile = ReconcileMetrics::new().register(&mut registry);
        Metrics { reconcile, registry }
    }

    /// The metrics that the registry shows, as they stand at the time of
    /// the call, in the text exposition format: a whole exposition, up to and
    /// with its end marker. There is none where a metric failed to write
    /// itself.
    pub fn encode(&self) -> (text: Option<String>)
        ensures
            text matches Some(exposition) ==> is_exposition(exposition@),
    {
        encode_text(&self.registry)
    }
}

impl Default for Metrics {
    /// New counters in a registry of their own, under the controller's
    /// prefix.
    fn default() -> (metrics: Metrics)
        ensures
            metrics.reconcile.runs_count() == 0,
            metrics.reconcile.failure_counts() == no_counts(),
            registered_names(metrics.registry) == seq!["failures"@, "runs"@],
            registry_prefix(metrics.registry) == Some(METRIC_PREFIX@),
    {
        let registry = registry_with_prefix(METRIC_PREFIX);
        let metrics = Metrics::with_registry(registry);
        assert(registered_names(metrics.registry) =~= seq!["failures"@, "runs"@]);
        metrics
    }
}

} // verus!
