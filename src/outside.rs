//! The parts of the `prometheus` crate that this library calls, and what it
//! relies on of each.

use vstd::prelude::*;

use crate::labels::StaticLabels;
use crate::rules::{desc_valid, MetricDesc};
use crate::text::texts;

verus! {

#[verifier::external_type_specification]
#[verifier::external_body]
pub struct ExRegistry(prometheus::Registry);

#[verifier::external_type_specification]
#[verifier::external_body]
pub struct ExPrometheusError(prometheus::Error);

#[verifier::external_type_specification]
#[verifier::external_body]
pub struct ExMetricFamily(prometheus::proto::MetricFamily);

/// The children of an integer counter vector, one per combination of label
/// values. (Held here because the vector's builder type is not nameable.)
#[verifier::external_body]
pub struct CounterCells {
    vec: prometheus::IntCounterVec,
}

/// The children of an integer gauge vector, one per combination of label
/// values.
#[verifier::external_body]
pub struct GaugeCells {
    vec: prometheus::IntGaugeVec,
}

/// The children of a histogram vector, one per combination of label values.
/// Observations are floating-point values: callers observe through `vec`.
#[verifier::external_body]
pub struct HistogramCells {
    pub vec: prometheus::HistogramVec,
}

/// What a counter vector was made with.
pub uninterp spec fn counter_desc(c: CounterCells) -> MetricDesc;

/// What a gauge vector was made with.
pub uninterp spec fn gauge_desc(g: GaugeCells) -> MetricDesc;

/// What a histogram vector was made with.
pub uninterp spec fn histogram_desc(h: HistogramCells) -> MetricDesc;

/// The name a metric family carries.
pub uninterp spec fn family_name_of(f: prometheus::proto::MetricFamily) -> Seq<char>;

/// Whether a metric family is of the untyped kind.
pub uninterp spec fn family_untyped(f: prometheus::proto::MetricFamily) -> bool;

/// Whether a metric family holds at least one metric.
pub uninterp spec fn family_has_metrics(f: prometheus::proto::MetricFamily) -> bool;

/// What `TextEncoder::encode_to_string` writes for a list of families.
pub uninterp spec fn text_of(families: Seq<prometheus::proto::MetricFamily>) -> Seq<char>;

/// The description handed to the registry for a metric.
pub open spec fn desc_of(
    name: Seq<char>,
    help: Seq<char>,
    labels: Seq<Seq<char>>,
    const_labels: Map<Seq<char>, Seq<char>>,
) -> MetricDesc {
    MetricDesc { name, help, labels, const_labels }
}

/// How an attempt to register a collector ended.
#[derive(Clone, Copy, Debug, PartialEq, Eq, Structural)]
pub enum RegisterOutcome {
    /// The registry accepted the collector.
    Registered,
    /// A collector with the same descriptors is registered already.
    AlreadyRegistered,
    /// The registry refused the collector for another reason.
    Refused,
}

/// Relies on `prometheus::default_registry`: the process-wide registry.
#[verifier::external_body]
pub(crate) fn default_registry() -> (r: &'static prometheus::Registry) {
    prometheus::default_registry()
}

/// Relies on `Opts::new`, `Opts::const_labels` and `GenericCounterVec::new`:
/// creation checks only the descriptor (`Desc::new`: non-empty help, valid
/// name, valid constant keys, valid and distinct label names), and the
/// vector keeps what it was made with.
#[verifier::external_body]
pub(crate) fn new_counter_cells(
    name: &str,
    help: &str,
    labels: &Vec<String>,
    const_labels: &StaticLabels,
) -> (r: Result<CounterCells, prometheus::Error>)
    ensures
        r is Ok <==> desc_valid(desc_of(name@, help@, texts(labels@), const_labels.view())),
        r is Ok ==> counter_desc(r->Ok_0) == desc_of(name@, help@, texts(labels@), const_labels.view()),
{
    let opts = prometheus::Opts::new(name, help).const_labels(const_labels.entries.iter().cloned().collect());
    let names: Vec<&str> = labels.iter().map(|l| l.as_str()).collect();
    prometheus::IntCounterVec::new(opts, &names).map(|vec| CounterCells { vec })
}

/// Relies on `Opts::new`, `Opts::const_labels` and `GenericGaugeVec::new`:
/// creation checks only the descriptor (`Desc::new`: non-empty help, valid
/// name, valid constant keys, valid and distinct label names), and the
/// vector keeps what it was made with.
#[verifier::external_body]
pub(crate) fn new_gauge_cells(
    name: &str,
    help: &str,
    labels: &Vec<String>,
    const_labels: &StaticLabels,
) -> (r: Result<GaugeCells, prometheus::Error>)
    ensures
        r is Ok <==> desc_valid(desc_of(name@, help@, texts(labels@), const_labels.view())),
        r is Ok ==> gauge_desc(r->Ok_0) == desc_of(name@, help@, texts(labels@), const_labels.view()),
{
    let opts = prometheus::Opts::new(name, help).const_labels(const_labels.entries.iter().cloned().collect());
    let names: Vec<&str> = labels.iter().map(|l| l.as_str()).collect();
    prometheus::IntGaugeVec::new(opts, &names).map(|vec| GaugeCells { vec })
}

/// Relies on `HistogramOpts::new`, `HistogramOpts::const_labels` and
/// `HistogramVec::new` (default buckets): creation checks only the
/// descriptor (`Desc::new`), and the vector keeps what it was made with.
#[verifier::external_body]
pub(crate) fn new_histogram_cells(
    name: &str,
    help: &str,
    labels: &Vec<String>,
    const_labels: &StaticLabels,
) -> (r: Result<HistogramCells, prometheus::Error>)
    ensures
        r is Ok <==> desc_valid(desc_of(name@, help@, texts(labels@), const_labels.view())),
        r is Ok ==> histogram_desc(r->Ok_0) == desc_of(name@, help@, texts(labels@), const_labels.view()),
{
    let opts = prometheus::HistogramOpts::new(name, help).const_labels(const_labels.entries.iter().cloned().collect());
    let names: Vec<&str> = labels.iter().map(|l| l.as_str()).collect();
    prometheus::HistogramVec::new(opts, &names).map(|vec| HistogramCells { vec })
}

/// Relies on `Registry::register` with a handle that shares the counter's
/// state; `Error::AlreadyReg` is told apart from the other errors.
#[verifier::external_body]
pub(crate) fn register_counter(registry: &prometheus::Registry, c: &CounterCells) -> (r:
    RegisterOutcome) {
    match registry.register(Box::new(c.vec.clone())) {
        Ok(()) => RegisterOutcome::Registered,
        Err(prometheus::Error::AlreadyReg) => RegisterOutcome::AlreadyRegistered,
        Err(_) => RegisterOutcome::Refused,
    }
}

/// Relies on `Registry::register` with a handle that shares the gauge's
/// state; `Error::AlreadyReg` is told apart from the other errors.
#[verifier::external_body]
pub(crate) fn register_gauge(registry: &prometheus::Registry, g: &GaugeCells) -> (r:
    RegisterOutcome) {
    match registry.register(Box::new(g.vec.clone())) {
        Ok(()) => RegisterOutcome::Registered,
        Err(prometheus::Error::AlreadyReg) => RegisterOutcome::AlreadyRegistered,
        Err(_) => RegisterOutcome::Refused,
    }
}

/// Relies on `Registry::register` with a handle that shares the histogram's
/// state; `Error::AlreadyReg` is told apart from the other errors.
#[verifier::external_body]
pub(crate) fn register_histogram(registry: &prometheus::Registry, h: &HistogramCells) -> (r:
    RegisterOutcome) {
    match registry.register(Box::new(h.vec.clone())) {
        Ok(()) => RegisterOutcome::Registered,
        Err(prometheus::Error::AlreadyReg) => RegisterOutcome::AlreadyRegistered,
        Err(_) => RegisterOutcome::Refused,
    }
}

/// Relies on `MetricVec::with_label_values` and `GenericCounter::inc`: with as
/// many values as label names the lookup does not fail.
#[verifier::external_body]
pub(crate) fn counter_inc(c: &CounterCells, values: &Vec<String>)
    requires
        values@.len() == counter_desc(*c).labels.len(),
{
    c.vec.with_label_values(values).inc()
}

/// Relies on `MetricVec::with_label_values` and `GenericCounter::inc_by`
/// (which adds with wrap-around on `u64`).
#[verifier::external_body]
pub(crate) fn counter_inc_by(c: &CounterCells, values: &Vec<String>, amount: u64)
    requires
        values@.len() == counter_desc(*c).labels.len(),
{
    c.vec.with_label_values(values).inc_by(amount)
}

/// Relies on `MetricVec::with_label_values` and `GenericCounter::reset`.
#[verifier::external_body]
pub(crate) fn counter_reset(c: &CounterCells, values: &Vec<String>)
    requires
        values@.len() == counter_desc(*c).labels.len(),
{
    c.vec.with_label_values(values).reset()
}

/// Relies on `MetricVec::with_label_values` and `GenericGauge::inc`.
#[verifier::external_body]
pub(crate) fn gauge_inc(g: &GaugeCells, values: &Vec<String>)
    requires
        values@.len() == gauge_desc(*g).labels.len(),
{
    g.vec.with_label_values(values).inc()
}

/// Relies on `MetricVec::with_label_values` and `GenericGauge::dec`.
#[verifier::external_body]
pub(crate) fn gauge_dec(g: &GaugeCells, values: &Vec<String>)
    requires
        values@.len() == gauge_desc(*g).labels.len(),
{
    g.vec.with_label_values(values).dec()
}

/// Relies on `MetricVec::with_label_values` and `GenericGauge::add` (which
/// adds with wrap-around on `i64`).
#[verifier::external_body]
pub(crate) fn gauge_add(g: &GaugeCells, values: &Vec<String>, amount: i64)
    requires
        values@.len() == gauge_desc(*g).labels.len(),
{
    g.vec.with_label_values(values).add(amount)
}

/// Relies on `MetricVec::with_label_values` and `GenericGauge::sub` (which
/// subtracts with wrap-around on `i64`).
#[verifier::external_body]
pub(crate) fn gauge_sub(g: &GaugeCells, values: &Vec<String>, amount: i64)
    requires
        values@.len() == gauge_desc(*g).labels.len(),
{
    g.vec.with_label_values(values).sub(amount)
}

/// Relies on `MetricVec::with_label_values` and `GenericGauge::set`.
#[verifier::external_body]
pub(crate) fn gauge_set(g: &GaugeCells, values: &Vec<String>, value: i64)
    requires
        values@.len() == gauge_desc(*g).labels.len(),
{
    g.vec.with_label_values(values).set(value)
}

/// Relies on `Registry::gather`: a snapshot of the registered families,
/// sorted by name, with families that hold no metric left out; the
/// registry itself is not changed.
#[verifier::external_body]
pub(crate) fn gather(registry: &prometheus::Registry) -> (r: Vec<prometheus::proto::MetricFamily>)
    ensures
        forall|i: int| 0 <= i < r@.len() ==> family_has_metrics(#[trigger] r@[i]),
{
    registry.gather()
}

/// Relies on `MetricFamily::name`: the family's name field.
#[verifier::external_body]
pub(crate) fn family_name(family: &prometheus::proto::MetricFamily) -> (r: String)
    ensures
        r@ == family_name_of(*family),
{
    family.name().to_string()
}

/// Relies on `MetricFamily::set_name`: it replaces the name field and
/// nothing else.
#[verifier::external_body]
pub(crate) fn set_family_name(family: &mut prometheus::proto::MetricFamily, name: String)
    ensures
        family_name_of(*final(family)) == name@,
        family_untyped(*final(family)) == family_untyped(*old(family)),
        family_has_metrics(*final(family)) == family_has_metrics(*old(family)),
{
    family.set_name(name)
}

/// Relies on `MetricFamily::get_field_type`: tells `MetricType::UNTYPED`
/// apart from the other kinds.
#[verifier::external_body]
pub(crate) fn is_untyped(family: &prometheus::proto::MetricFamily) -> (r: bool)
    ensures
        r == family_untyped(*family),
{
    matches!(family.get_field_type(), prometheus::proto::MetricType::UNTYPED)
}

/// Relies on `TextEncoder::encode_to_string`: the text exposition format,
/// a function of the families alone. It does not handle untyped families,
/// and it refuses a family with an empty name or without metrics.
#[verifier::external_body]
pub(crate) fn encode_text(families: &Vec<prometheus::proto::MetricFamily>) -> (r: Result<
    String,
    prometheus::Error,
>)
    requires
        forall|i: int| 0 <= i < families@.len() ==> !family_untyped(#[trigger] families@[i]),
    ensures
        r is Ok <==> forall|i: int|
            0 <= i < families@.len() ==> family_name_of(#[trigger] families@[i]).len() > 0
                && family_has_metrics(families@[i]),
        r is Ok ==> r->Ok_0@ == text_of(families@),
{
    prometheus::TextEncoder::new().encode_to_string(families)
}

} // verus!
