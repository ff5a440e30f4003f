//! The builder that binds a schema to a registry and static labels, the
//! bundle of registered metrics it produces, and the per-kind accessors.

use vstd::prelude::*;

use crate::binding::{first_position, LabelBinding};
use crate::kind::MetricKind;
use crate::labels::StaticLabels;
use crate::metric::{Counter, Gauge, Histogram, MetricError};
use crate::outside::{default_registry, desc_of, histogram_desc, HistogramCells};
use crate::rules::{desc_valid, histogram_desc_valid, MetricDesc};
use crate::schema::{metric_models, MetricModel, MetricsSchema, ResolvedMetric};
use crate::text::{same_text, texts};

verus! {

/// A registered metric of one of the kinds.
pub enum MetricHandle {
    Counter(Counter),
    Gauge(Gauge),
    Histogram(Histogram),
}

impl MetricHandle {
    /// The kind of the metric.
    pub open spec fn kind(&self) -> MetricKind {
        match self {
            MetricHandle::Counter(_) => MetricKind::Counter,
            MetricHandle::Gauge(_) => MetricKind::Gauge,
            MetricHandle::Histogram(_) => MetricKind::Histogram,
        }
    }

    /// What the family was made with.
    pub open spec fn desc(&self) -> MetricDesc {
        match self {
            MetricHandle::Counter(c) => c.desc(),
            MetricHandle::Gauge(g) => g.desc(),
            MetricHandle::Histogram(h) => h.desc(),
        }
    }

    /// The number of label values its operations take.
    pub open spec fn arity(&self) -> nat {
        match self {
            MetricHandle::Counter(c) => c.arity(),
            MetricHandle::Gauge(g) => g.arity(),
            MetricHandle::Histogram(h) => h.arity(),
        }
    }
}

/// A resolved metric together with its registered family.
pub struct BoundMetric {
    resolved: ResolvedMetric,
    handle: MetricHandle,
}

/// The identifiers of a sequence of metric models.
pub open spec fn identifiers(ms: Seq<MetricModel>) -> Seq<Seq<char>> {
    ms.map_values(|m: MetricModel| m.identifier)
}

/// What the metric `m` is made with under the static labels `consts`.
pub open spec fn desc_for(m: MetricModel, consts: Map<Seq<char>, Seq<char>>) -> MetricDesc {
    desc_of(m.full_name, m.help, m.labels, consts)
}

/// The registry's rules accept the metric `m` under the static labels
/// `consts`. Among them: the help text is not empty, so a metric with
/// neither help nor documentation is refused.
pub open spec fn accepted(m: MetricModel, consts: Map<Seq<char>, Seq<char>>) -> bool {
    if m.kind == MetricKind::Histogram {
        histogram_desc_valid(desc_for(m, consts))
    } else {
        desc_valid(desc_for(m, consts))
    }
}

/// Why a build stopped.
#[derive(Clone, Copy, Debug, PartialEq, Eq, Structural)]
pub struct BuildError {
    /// The position of the metric in the schema.
    pub index: usize,
    /// What went wrong with it.
    pub error: MetricError,
}

/// Why an accessor could not be made.
#[derive(Clone, Copy, Debug, PartialEq, Eq, Structural)]
pub enum AccessError {
    /// No metric has that identifier.
    UnknownMetric,
    /// The metric is of another kind.
    WrongKind,
    /// The number of label values differs from the number of label names.
    LabelCount,
}

/// The registered metrics of one build, in schema order.
pub struct Metrics {
    entries: Vec<BoundMetric>,
}

impl Metrics {
    #[verifier::type_invariant]
    spec fn inv(&self) -> bool {
        forall|i: int|
            0 <= i < self.entries@.len() ==> {
                &&& (#[trigger] self.entries@[i]).handle.kind() == self.entries@[i].resolved.kind
                &&& self.entries@[i].handle.arity() == self.entries@[i].resolved.labels@.len()
            }
    }

    /// The resolved metrics, in schema order.
    pub closed spec fn models(&self) -> Seq<MetricModel> {
        self.entries@.map_values(|b: BoundMetric| b.resolved@)
    }

    /// What each family was made with, in schema order.
    pub closed spec fn descs(&self) -> Seq<MetricDesc> {
        self.entries@.map_values(|b: BoundMetric| b.handle.desc())
    }

    /// Position of the metric called `identifier`.
    fn find(&self, identifier: &str) -> (r: Option<usize>)
        ensures
            match r {
                Some(i) => first_position(identifiers(self.models()), identifier@) == Some(
                    i as int,
                ),
                None => first_position(identifiers(self.models()), identifier@) is None,
            },
    {
        let ghost ids = identifiers(self.models());
        let mut i: usize = 0;
        while i < self.entries.len()
            invariant
                i <= self.entries@.len(),
                ids == identifiers(self.models()),
                ids.len() == self.entries@.len(),
                forall|j: int| 0 <= j < i ==> ids[j] != identifier@,
            decreases self.entries@.len() - i,
        {
            if same_text(self.entries[i].resolved.identifier.as_str(), identifier) {
                proof {
                    assert(ids[i as int] == identifier@);
                    let c = choose|c: int|
                        0 <= c < ids.len() && ids[c] == identifier@ && forall|j: int|
                            0 <= j < c ==> ids[j] != identifier@;
                    if c < i {
                        assert(ids[c] != identifier@);
                    } else if c > i {
                        assert(ids[i as int] != identifier@);
                    }
                }
                return Some(i);
            }
            i = i + 1;
        }
        proof {
            assert(!exists|c: int|
                0 <= c < ids.len() && ids[c] == identifier@ && forall|j: int|
                    0 <= j < c ==> ids[j] != identifier@) by {
                assert forall|c: int| 0 <= c < ids.len() implies ids[c] != identifier@ by {}
            }
        }
        None
    }

    /// The resolved metric at `index`.
    pub fn resolved(&self, index: usize) -> (r: &ResolvedMetric)
        requires
            index < self.models().len(),
        ensures
            r@ == self.models()[index as int],
    {
        &self.entries[index].resolved
    }

    /// The number of metrics.
    pub fn len(&self) -> (r: usize)
        ensures
            r == self.models().len(),
    {
        self.entries.len()
    }
}

/// Binds a schema to a registry and static labels.
pub struct MetricsBuilder<'a> {
    schema: &'a MetricsSchema,
    registry: Option<&'a prometheus::Registry>,
    labels: StaticLabels,
}

impl MetricsSchema {
    /// A builder on the process-wide default registry (no registry given),
    /// with no static labels.
    pub fn builder(&self) -> (r: MetricsBuilder<'_>)
        ensures
            r.schema() == self,
            r.registry() is None,
            r.static_labels() == Map::<Seq<char>, Seq<char>>::empty(),
    {
        MetricsBuilder { schema: self, registry: None, labels: StaticLabels::new() }
    }
}

impl MetricsSchema {
    /// Build on the process-wide default registry with no static labels.
    pub fn build_default(&self) -> (r: Result<Metrics, BuildError>)
        ensures
            r is Ok ==> r->Ok_0.models() == self.metrics_view(),
            r is Err ==> r->Err_0.index < self.metrics_view().len(),
    {
        self.builder().build()
    }
}

impl<'a> MetricsBuilder<'a> {
    /// The schema being built.
    pub closed spec fn schema(&self) -> &'a MetricsSchema {
        self.schema
    }

    /// The registry the metrics go into; none given means the process-wide
    /// default registry.
    pub closed spec fn registry(&self) -> Option<&'a prometheus::Registry> {
        self.registry
    }

    /// The static labels given to every metric.
    pub closed spec fn static_labels(&self) -> Map<Seq<char>, Seq<char>> {
        self.labels.view()
    }

    /// Register into `registry` instead.
    pub fn with_registry(self, registry: &'a prometheus::Registry) -> (r: MetricsBuilder<'a>)
        ensures
            r.registry() == Some(registry),
            r.schema() == self.schema(),
            r.static_labels() == self.static_labels(),
    {
        MetricsBuilder { schema: self.schema, registry: Some(registry), labels: self.labels }
    }

    /// Give every metric the static label `key` with `value`, replacing an
    /// earlier value of `key`.
    pub fn with_label(self, key: String, value: String) -> (r: MetricsBuilder<'a>)
        ensures
            r.static_labels() == self.static_labels().insert(key@, value@),
            r.registry() == self.registry(),
            r.schema() == self.schema(),
    {
        MetricsBuilder {
            schema: self.schema,
            registry: self.registry,
            labels: self.labels.insert(key, value),
        }
    }

    /// Create and register every metric of the schema, in order, each with
    /// its full name, help text, label names and the static labels. A metric
    /// whose identity is registered already is accepted (the registered one
    /// keeps its state); a metric the registry's rules refuse stops the
    /// build with `Invalid`, any other refusal with `Refused`.
    pub fn build(self) -> (r: Result<Metrics, BuildError>)
        ensures
            r is Ok ==> {
                &&& r->Ok_0.models() == self.schema().metrics_view()
                &&& r->Ok_0.descs().len() == self.schema().metrics_view().len()
                &&& forall|i: int|
                    0 <= i < self.schema().metrics_view().len() ==> r->Ok_0.descs()[i]
                        == desc_for(#[trigger] self.schema().metrics_view()[i], self.static_labels())
            },
            r is Err ==> {
                let e = r->Err_0;
                let ms = self.schema().metrics_view();
                &&& e.index < ms.len()
                &&& forall|j: int| 0 <= j < e.index ==> accepted(#[trigger] ms[j], self.static_labels())
                &&& (e.error == MetricError::Invalid <==> !accepted(ms[e.index as int], self.static_labels()))
            },
            (forall|i: int|
                0 <= i < self.schema().metrics_view().len() ==> accepted(
                    #[trigger] self.schema().metrics_view()[i],
                    self.static_labels(),
                )) ==> r is Ok || r->Err_0.error == MetricError::Refused,
    {
        let registry = match self.registry {
            Some(r) => r,
            None => default_registry(),
        };
        let ghost consts = self.static_labels();
        let metrics = self.schema.metrics();
        let mut entries: Vec<BoundMetric> = Vec::new();
        let mut i: usize = 0;
        while i < metrics.len()
            invariant
                i <= metrics@.len(),
                metric_models(metrics@) == self.schema().metrics_view(),
                consts == self.labels.view(),
                entries@.len() == i,
                forall|j: int|
                    0 <= j < i ==> {
                        &&& (#[trigger] entries@[j]).resolved@ == metrics@[j]@
                        &&& entries@[j].handle.kind() == entries@[j].resolved.kind
                        &&& entries@[j].handle.arity() == entries@[j].resolved.labels@.len()
                        &&& entries@[j].handle.desc() == desc_for(metrics@[j]@, consts)
                        &&& accepted(metrics@[j]@, consts)
                    },
            decreases metrics@.len() - i,
        {
            let m = &metrics[i];
            proof {
                assert(metric_models(metrics@)[i as int] == m@);
            }
            let handle = match m.kind {
                MetricKind::Counter => match Counter::new(
                    registry,
                    m.full_name.as_str(),
                    m.help.as_str(),
                    &m.labels,
                    &self.labels,
                ) {
                    Ok(c) => MetricHandle::Counter(c),
                    Err(e) => {
                        proof {
                            lemma_prefix_accepted(metric_models(metrics@), entries@, metrics@, consts, i as int);
                        }
                        return Err(BuildError { index: i, error: e });
                    },
                },
                MetricKind::Gauge => match Gauge::new(
                    registry,
                    m.full_name.as_str(),
                    m.help.as_str(),
                    &m.labels,
                    &self.labels,
                ) {
                    Ok(g) => MetricHandle::Gauge(g),
                    Err(e) => {
                        proof {
                            lemma_prefix_accepted(metric_models(metrics@), entries@, metrics@, consts, i as int);
                        }
                        return Err(BuildError { index: i, error: e });
                    },
                },
                MetricKind::Histogram => match Histogram::new(
                    registry,
                    m.full_name.as_str(),
                    m.help.as_str(),
                    &m.labels,
                    &self.labels,
                ) {
                    Ok(h) => MetricHandle::Histogram(h),
                    Err(e) => {
                        proof {
                            lemma_prefix_accepted(metric_models(metrics@), entries@, metrics@, consts, i as int);
                        }
                        return Err(BuildError { index: i, error: e });
                    },
                },
            };
            let resolved = ResolvedMetric {
                identifier: m.identifier.clone(),
                kind: m.kind,
                full_name: m.full_name.clone(),
                help: m.help.clone(),
                labels: crate::text::copy_texts(&m.labels),
            };
            let ghost before = entries@;
            let bound = BoundMetric { resolved, handle };
            proof {
                assert(bound.resolved@ =~= metrics@[i as int]@);
                assert(bound.handle.kind() == bound.resolved.kind);
                assert(bound.handle.arity() == bound.resolved.labels@.len());
                assert(bound.handle.desc() == desc_for(metrics@[i as int]@, consts));
                assert(accepted(metrics@[i as int]@, consts));
            }
            entries.push(bound);
            proof {
                assert(forall|j: int| 0 <= j < i ==> entries@[j] == before[j]);
            }
            i = i + 1;
        }
        let out = Metrics { entries };
        proof {
            assert(out.models() =~= metric_models(metrics@));
            assert forall|k: int| 0 <= k < metrics@.len() implies out.descs()[k] == desc_for(
                #[trigger] self.schema().metrics_view()[k],
                self.static_labels(),
            ) by {
                assert(out.entries@[k].handle.desc() == desc_for(metrics@[k]@, consts));
                assert(metric_models(metrics@)[k] == metrics@[k]@);
            }
        }
        Ok(out)
    }
}

/// Every metric before position `i` was accepted.
proof fn lemma_prefix_accepted(
    ms: Seq<MetricModel>,
    entries: Seq<BoundMetric>,
    metrics: Seq<ResolvedMetric>,
    consts: Map<Seq<char>, Seq<char>>,
    i: int,
)
    requires
        ms == metric_models(metrics),
        0 <= i <= metrics.len(),
        forall|j: int| 0 <= j < i ==> (#[trigger] entries[j]).resolved@ == metrics[j]@ && accepted(metrics[j]@, consts),
    ensures
        forall|j: int| 0 <= j < i ==> accepted(#[trigger] ms[j], consts),
{
    assert forall|j: int| 0 <= j < i implies accepted(#[trigger] ms[j], consts) by {
        assert(entries[j].resolved@ == metrics[j]@);
    }
}

/// Where the metric called `id` of kind `kind` stands among `ms`.
pub open spec fn locate_spec(ms: Seq<MetricModel>, id: Seq<char>, kind: MetricKind) -> Result<
    int,
    AccessError,
> {
    match first_position(identifiers(ms), id) {
        None => Err(AccessError::UnknownMetric),
        Some(i) => if ms[i].kind != kind {
            Err(AccessError::WrongKind)
        } else {
            Ok(i)
        },
    }
}

/// What an accessor made positionally from `values` is bound to: the
/// metric's label names, and `values` in their order.
pub open spec fn positional_spec(
    ms: Seq<MetricModel>,
    id: Seq<char>,
    kind: MetricKind,
    values: Seq<Seq<char>>,
) -> Result<(Seq<Seq<char>>, Seq<Seq<char>>), AccessError> {
    match locate_spec(ms, id, kind) {
        Err(e) => Err(e),
        Ok(i) => if values.len() != ms[i].labels.len() {
            Err(AccessError::LabelCount)
        } else {
            Ok((ms[i].labels, values))
        },
    }
}

/// What an accessor made in fluent style starts bound to: the metric's
/// label names, each with the empty string.
pub open spec fn fluent_spec(ms: Seq<MetricModel>, id: Seq<char>, kind: MetricKind) -> Result<
    (Seq<Seq<char>>, Seq<Seq<char>>),
    AccessError,
> {
    match locate_spec(ms, id, kind) {
        Err(e) => Err(e),
        Ok(i) => Ok((ms[i].labels, Seq::new(ms[i].labels.len(), |j: int| Seq::<char>::empty()))),
    }
}

/// The label names and values an accessor holds, as a pair.
pub open spec fn bound_pair<'a>(b: LabelBinding<'a>) -> (Seq<Seq<char>>, Seq<Seq<char>>) {
    (b.names(), b.values())
}

/// Operations on one counter of a family, selected by label values.
pub struct CounterAccessor<'a> {
    counter: &'a Counter,
    binding: LabelBinding<'a>,
}

/// Operations on one gauge of a family, selected by label values.
pub struct GaugeAccessor<'a> {
    gauge: &'a Gauge,
    binding: LabelBinding<'a>,
}

/// One histogram of a family, selected by label values.
pub struct HistogramAccessor<'a> {
    histogram: &'a Histogram,
    binding: LabelBinding<'a>,
}

impl<'a> CounterAccessor<'a> {
    #[verifier::type_invariant]
    spec fn inv(&self) -> bool {
        self.binding.names().len() == self.counter.arity()
    }

    /// The label names and the values bound to them.
    pub closed spec fn bound(&self) -> (Seq<Seq<char>>, Seq<Seq<char>>) {
        bound_pair(self.binding)
    }

    /// Bind `value` to the label called `name`; an undeclared name changes
    /// nothing.
    pub fn label(self, name: &str, value: String) -> (r: CounterAccessor<'a>)
        ensures
            r.bound().0 == self.bound().0,
            match first_position(self.bound().0, name@) {
                Some(k) => r.bound().1 == self.bound().1.update(k, value@),
                None => r.bound().1 == self.bound().1,
            },
    {
        proof {
            use_type_invariant(&self);
        }
        CounterAccessor { counter: self.counter, binding: self.binding.set(name, value) }
    }

    /// The values the counter is looked up by, in label-name order.
    pub fn label_values(&self) -> (r: &Vec<String>)
        ensures
            texts(r@) == self.bound().1,
            r@.len() == self.bound().0.len(),
    {
        self.binding.as_values()
    }

    /// Increment by one.
    pub fn inc(&self) {
        proof {
            use_type_invariant(self);
        }
        self.counter.inc(self.binding.as_values())
    }

    /// Increment by `value`.
    pub fn inc_by(&self, value: u64) {
        proof {
            use_type_invariant(self);
        }
        self.counter.inc_by(self.binding.as_values(), value)
    }

    /// Reset to zero.
    pub fn reset(&self) {
        proof {
            use_type_invariant(self);
        }
        self.counter.reset(self.binding.as_values())
    }
}

impl<'a> GaugeAccessor<'a> {
    #[verifier::type_invariant]
    spec fn inv(&self) -> bool {
        self.binding.names().len() == self.gauge.arity()
    }

    /// The label names and the values bound to them.
    pub closed spec fn bound(&self) -> (Seq<Seq<char>>, Seq<Seq<char>>) {
        bound_pair(self.binding)
    }

    /// Bind `value` to the label called `name`; an undeclared name changes
    /// nothing.
    pub fn label(self, name: &str, value: String) -> (r: GaugeAccessor<'a>)
        ensures
            r.bound().0 == self.bound().0,
            match first_position(self.bound().0, name@) {
                Some(k) => r.bound().1 == self.bound().1.update(k, value@),
                None => r.bound().1 == self.bound().1,
            },
    {
        proof {
            use_type_invariant(&self);
        }
        GaugeAccessor { gauge: self.gauge, binding: self.binding.set(name, value) }
    }

    /// The values the gauge is looked up by, in label-name order.
    pub fn label_values(&self) -> (r: &Vec<String>)
        ensures
            texts(r@) == self.bound().1,
            r@.len() == self.bound().0.len(),
    {
        self.binding.as_values()
    }

    /// Increment by one.
    pub fn inc(&self) {
        proof {
            use_type_invariant(self);
        }
        self.gauge.inc(self.binding.as_values())
    }

    /// Decrement by one.
    pub fn dec(&self) {
        proof {
            use_type_invariant(self);
        }
        self.gauge.dec(self.binding.as_values())
    }

    /// Add `value`.
    pub fn add(&self, value: i64) {
        proof {
            use_type_invariant(self);
        }
        self.gauge.add(self.binding.as_values(), value)
    }

    /// Subtract `value`.
    pub fn sub(&self, value: i64) {
        proof {
            use_type_invariant(self);
        }
        self.gauge.sub(self.binding.as_values(), value)
    }

    /// Set to `value`.
    pub fn set(&self, value: i64) {
        proof {
            use_type_invariant(self);
        }
        self.gauge.set(self.binding.as_values(), value)
    }
}

impl<'a> HistogramAccessor<'a> {
    #[verifier::type_invariant]
    spec fn inv(&self) -> bool {
        self.binding.names().len() == self.histogram.arity()
    }

    /// The label names and the values bound to them.
    pub closed spec fn bound(&self) -> (Seq<Seq<char>>, Seq<Seq<char>>) {
        bound_pair(self.binding)
    }

    /// Bind `value` to the label called `name`; an undeclared name changes
    /// nothing.
    pub fn label(self, name: &str, value: String) -> (r: HistogramAccessor<'a>)
        ensures
            r.bound().0 == self.bound().0,
            match first_position(self.bound().0, name@) {
                Some(k) => r.bound().1 == self.bound().1.update(k, value@),
                None => r.bound().1 == self.bound().1,
            },
    {
        proof {
            use_type_invariant(&self);
        }
        HistogramAccessor { histogram: self.histogram, binding: self.binding.set(name, value) }
    }

    /// The values the histogram is looked up by, in label-name order; as
    /// many as the histogram vector has label names.
    pub fn label_values(&self) -> (r: &Vec<String>)
        ensures
            texts(r@) == self.bound().1,
            r@.len() == histogram_desc(*self.cells_view()).labels.len(),
    {
        proof {
            use_type_invariant(self);
        }
        self.binding.as_values()
    }

    /// The histogram vector.
    pub closed spec fn cells_view(&self) -> &HistogramCells {
        self.histogram.cells_view()
    }

    /// The histogram vector, through which floating-point values are observed.
    pub fn cells(&self) -> (r: &HistogramCells)
        ensures
            r == self.cells_view(),
    {
        self.histogram.cells()
    }
}

impl Metrics {
    /// Position of the metric called `identifier`, if it is of kind `kind`.
    fn locate(&self, identifier: &str, kind: MetricKind) -> (r: Result<usize, AccessError>)
        ensures
            match r {
                Ok(i) => locate_spec(self.models(), identifier@, kind) == Ok::<int, AccessError>(
                    i as int,
                ),
                Err(e) => locate_spec(self.models(), identifier@, kind) == Err::<int, AccessError>(
                    e,
                ),
            },
    {
        match self.find(identifier) {
            None => Err(AccessError::UnknownMetric),
            Some(i) => {
                proof {
                    assert(self.models().len() == self.entries@.len());
                    assert(self.models()[i as int] == self.entries@[i as int].resolved@);
                    assert(identifiers(self.models())[i as int] == self.models()[i as int].identifier);
                }
                let found = self.entries[i].resolved.kind;
                proof {
                    assert(found == self.models()[i as int].kind);
                    assert(first_position(identifiers(self.models()), identifier@) == Some(i as int));
                }
                if found == kind {
                    Ok(i)
                } else {
                    Err(AccessError::WrongKind)
                }
            },
        }
    }

    /// The counter called `identifier`, with its label values given in
    /// declaration order.
    pub fn counter(&self, identifier: &str, values: Vec<String>) -> (r: Result<
        CounterAccessor<'_>,
        AccessError,
    >)
        ensures
            match positional_spec(self.models(), identifier@, MetricKind::Counter, texts(values@)) {
                Ok(p) => r is Ok && r->Ok_0.bound() == p,
                Err(e) => r is Err && r->Err_0 == e,
            },
    {
        proof {
            use_type_invariant(self);
        }
        let i = match self.locate(identifier, MetricKind::Counter) {
            Ok(i) => i,
            Err(e) => {
                return Err(e);
            },
        };
        let entry = &self.entries[i];
        proof {
            assert(self.entries@[i as int].handle.kind() == self.entries@[i as int].resolved.kind);
            assert(self.models()[i as int] == self.entries@[i as int].resolved@);
        }
        match &entry.handle {
            MetricHandle::Counter(c) => match LabelBinding::positional(&entry.resolved.labels, values) {
                Some(binding) => Ok(CounterAccessor { counter: c, binding }),
                None => Err(AccessError::LabelCount),
            },
            _ => Err(AccessError::WrongKind),
        }
    }

    /// The counter called `identifier`, with every label unset (empty); set
    /// labels by name with [`CounterAccessor::label`].
    pub fn counter_fluent(&self, identifier: &str) -> (r: Result<CounterAccessor<'_>, AccessError>)
        ensures
            match fluent_spec(self.models(), identifier@, MetricKind::Counter) {
                Ok(p) => r is Ok && r->Ok_0.bound() == p,
                Err(e) => r is Err && r->Err_0 == e,
            },
    {
        proof {
            use_type_invariant(self);
        }
        let i = match self.locate(identifier, MetricKind::Counter) {
            Ok(i) => i,
            Err(e) => {
                return Err(e);
            },
        };
        let entry = &self.entries[i];
        proof {
            assert(self.entries@[i as int].handle.kind() == self.entries@[i as int].resolved.kind);
            assert(self.models()[i as int] == self.entries@[i as int].resolved@);
        }
        match &entry.handle {
            MetricHandle::Counter(c) => {
                let binding = LabelBinding::unset(&entry.resolved.labels);
                proof {
                    assert(binding.values() =~= Seq::new(
                        entry.resolved.labels@.len(),
                        |j: int| Seq::<char>::empty(),
                    ));
                }
                Ok(CounterAccessor { counter: c, binding })
            },
            _ => Err(AccessError::WrongKind),
        }
    }

    /// The gauge called `identifier`, with its label values given in
    /// declaration order.
    pub fn gauge(&self, identifier: &str, values: Vec<String>) -> (r: Result<
        GaugeAccessor<'_>,
        AccessError,
    >)
        ensures
            match positional_spec(self.models(), identifier@, MetricKind::Gauge, texts(values@)) {
                Ok(p) => r is Ok && r->Ok_0.bound() == p,
                Err(e) => r is Err && r->Err_0 == e,
            },
    {
        proof {
            use_type_invariant(self);
        }
        let i = match self.locate(identifier, MetricKind::Gauge) {
            Ok(i) => i,
            Err(e) => {
                return Err(e);
            },
        };
        let entry = &self.entries[i];
        proof {
            assert(self.entries@[i as int].handle.kind() == self.entries@[i as int].resolved.kind);
            assert(self.models()[i as int] == self.entries@[i as int].resolved@);
        }
        match &entry.handle {
            MetricHandle::Gauge(g) => match LabelBinding::positional(&entry.resolved.labels, values) {
                Some(binding) => Ok(GaugeAccessor { gauge: g, binding }),
                None => Err(AccessError::LabelCount),
            },
            _ => Err(AccessError::WrongKind),
        }
    }

    /// The gauge called `identifier`, with every label unset (empty); set
    /// labels by name with [`GaugeAccessor::label`].
    pub fn gauge_fluent(&self, identifier: &str) -> (r: Result<GaugeAccessor<'_>, AccessError>)
        ensures
            match fluent_spec(self.models(), identifier@, MetricKind::Gauge) {
                Ok(p) => r is Ok && r->Ok_0.bound() == p,
                Err(e) => r is Err && r->Err_0 == e,
            },
    {
        proof {
            use_type_invariant(self);
        }
        let i = match self.locate(identifier, MetricKind::Gauge) {
            Ok(i) => i,
            Err(e) => {
                return Err(e);
            },
        };
        let entry = &self.entries[i];
        proof {
            assert(self.entries@[i as int].handle.kind() == self.entries@[i as int].resolved.kind);
            assert(self.models()[i as int] == self.entries@[i as int].resolved@);
        }
        match &entry.handle {
            MetricHandle::Gauge(g) => {
                let binding = LabelBinding::unset(&entry.resolved.labels);
                proof {
                    assert(binding.values() =~= Seq::new(
                        entry.resolved.labels@.len(),
                        |j: int| Seq::<char>::empty(),
                    ));
                }
                Ok(GaugeAccessor { gauge: g, binding })
            },
            _ => Err(AccessError::WrongKind),
        }
    }

    /// The histogram called `identifier`, with its label values given in
    /// declaration order.
    pub fn histogram(&self, identifier: &str, values: Vec<String>) -> (r: Result<
        HistogramAccessor<'_>,
        AccessError,
    >)
        ensures
            match positional_spec(
                self.models(),
                identifier@,
                MetricKind::Histogram,
                texts(values@),
            ) {
                Ok(p) => r is Ok && r->Ok_0.bound() == p,
                Err(e) => r is Err && r->Err_0 == e,
            },
    {
        proof {
            use_type_invariant(self);
        }
        let i = match self.locate(identifier, MetricKind::Histogram) {
            Ok(i) => i,
            Err(e) => {
                return Err(e);
            },
        };
        let entry = &self.entries[i];
        proof {
            assert(self.entries@[i as int].handle.kind() == self.entries@[i as int].resolved.kind);
            assert(self.models()[i as int] == self.entries@[i as int].resolved@);
        }
        match &entry.handle {
            MetricHandle::Histogram(h) => match LabelBinding::positional(
                &entry.resolved.labels,
                values,
            ) {
                Some(binding) => Ok(HistogramAccessor { histogram: h, binding }),
                None => Err(AccessError::LabelCount),
            },
            _ => Err(AccessError::WrongKind),
        }
    }

    /// The histogram called `identifier`, with every label unset (empty);
    /// set labels by name with [`HistogramAccessor::label`].
    pub fn histogram_fluent(&self, identifier: &str) -> (r: Result<
        HistogramAccessor<'_>,
        AccessError,
    >)
        ensures
            match fluent_spec(self.models(), identifier@, MetricKind::Histogram) {
                Ok(p) => r is Ok && r->Ok_0.bound() == p,
                Err(e) => r is Err && r->Err_0 == e,
            },
    {
        proof {
            use_type_invariant(self);
        }
        let i = match self.locate(identifier, MetricKind::Histogram) {
            Ok(i) => i,
            Err(e) => {
                return Err(e);
            },
        };
        let entry = &self.entries[i];
        proof {
            assert(self.entries@[i as int].handle.kind() == self.entries@[i as int].resolved.kind);
            assert(self.models()[i as int] == self.entries@[i as int].resolved@);
        }
        match &entry.handle {
            MetricHandle::Histogram(h) => {
                let binding = LabelBinding::unset(&entry.resolved.labels);
                proof {
                    assert(binding.values() =~= Seq::new(
                        entry.resolved.labels@.len(),
                        |j: int| Seq::<char>::empty(),
                    ));
                }
                Ok(HistogramAccessor { histogram: h, binding })
            },
            _ => Err(AccessError::WrongKind),
        }
    }
}

} // verus!
