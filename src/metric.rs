//! The metric kinds as registered families of time series, one per
//! combination of dynamic label values, and the registration policy.

use vstd::prelude::*;

use crate::labels::StaticLabels;
use crate::binding::find_text;
use crate::outside::{
    counter_desc, counter_inc, counter_inc_by, counter_reset, desc_of, gauge_add, gauge_dec,
    gauge_desc, gauge_inc, gauge_set, gauge_sub, histogram_desc, new_counter_cells,
    new_gauge_cells, new_histogram_cells, register_counter, register_gauge, register_histogram,
    CounterCells, GaugeCells, HistogramCells, RegisterOutcome,
};
use crate::rules::{bucket_label, desc_valid, histogram_desc_valid, MetricDesc};
use crate::text::texts;

verus! {

/// How a metric came to be registered.
#[derive(Clone, Copy, Debug, PartialEq, Eq, Structural)]
pub enum Registration {
    /// The registry took the new metric.
    Registered,
    /// The registry holds a metric of the same identity already, and keeps
    /// it with whatever it has accumulated; the new metric stays unregistered.
    KeptExisting,
}

/// Why a metric could not be set up.
#[derive(Clone, Copy, Debug, PartialEq, Eq, Structural)]
pub enum MetricError {
    /// The name, help text or label names are not accepted by the registry's
    /// naming rules.
    Invalid,
    /// The registry refused the metric for a reason other than a metric of
    /// the same identity being registered already.
    Refused,
}

/// The conflict policy: an identical metric being registered already is
/// accepted and the existing one kept; any other refusal is fatal.
pub fn settle_registration(outcome: RegisterOutcome) -> (r: Result<Registration, MetricError>)
    ensures
        outcome == RegisterOutcome::Registered ==> r == Ok::<Registration, MetricError>(
            Registration::Registered,
        ),
        outcome == RegisterOutcome::AlreadyRegistered ==> r == Ok::<Registration, MetricError>(
            Registration::KeptExisting,
        ),
        outcome == RegisterOutcome::Refused ==> r == Err::<Registration, MetricError>(
            MetricError::Refused,
        ),
{
    match outcome {
        RegisterOutcome::Registered => Ok(Registration::Registered),
        RegisterOutcome::AlreadyRegistered => Ok(Registration::KeptExisting),
        RegisterOutcome::Refused => Err(MetricError::Refused),
    }
}

/// A counter family: `u64` counters, one per combination of label values.
pub struct Counter {
    cells: CounterCells,
}

impl Counter {
    /// What the family was made with.
    pub closed spec fn desc(&self) -> MetricDesc {
        counter_desc(self.cells)
    }

    /// The number of label values each operation takes.
    pub open spec fn arity(&self) -> nat {
        self.desc().labels.len()
    }

    /// Create a counter family and register it.
    pub fn new(
        registry: &prometheus::Registry,
        name: &str,
        help: &str,
        labels: &Vec<String>,
        const_labels: &StaticLabels,
    ) -> (r: Result<Counter, MetricError>)
        ensures
            r is Ok ==> r->Ok_0.desc() == desc_of(
                name@,
                help@,
                texts(labels@),
                const_labels.view(),
            ),
            r == Err::<Counter, MetricError>(MetricError::Invalid) <==> !desc_valid(
                desc_of(name@, help@, texts(labels@), const_labels.view()),
            ),
            desc_valid(desc_of(name@, help@, texts(labels@), const_labels.view())) ==> r is Ok || r
                == Err::<Counter, MetricError>(MetricError::Refused),
    {
        let cells = match new_counter_cells(name, help, labels, const_labels) {
            Ok(c) => c,
            Err(_) => {
                return Err(MetricError::Invalid);
            },
        };
        match settle_registration(register_counter(registry, &cells)) {
            Ok(_) => Ok(Counter { cells }),
            Err(e) => Err(e),
        }
    }

    /// Increment the counter for `labels` by one.
    pub fn inc(&self, labels: &Vec<String>)
        requires
            labels@.len() == self.arity(),
    {
        counter_inc(&self.cells, labels)
    }

    /// Increment the counter for `labels` by `value`.
    pub fn inc_by(&self, labels: &Vec<String>, value: u64)
        requires
            labels@.len() == self.arity(),
    {
        counter_inc_by(&self.cells, labels, value)
    }

    /// Reset the counter for `labels` to zero.
    pub fn reset(&self, labels: &Vec<String>)
        requires
            labels@.len() == self.arity(),
    {
        counter_reset(&self.cells, labels)
    }
}

/// A gauge family: `i64` gauges, one per combination of label values.
pub struct Gauge {
    cells: GaugeCells,
}

impl Gauge {
    /// What the family was made with.
    pub closed spec fn desc(&self) -> MetricDesc {
        gauge_desc(self.cells)
    }

    /// The number of label values each operation takes.
    pub open spec fn arity(&self) -> nat {
        self.desc().labels.len()
    }

    /// Create a gauge family and register it.
    pub fn new(
        registry: &prometheus::Registry,
        name: &str,
        help: &str,
        labels: &Vec<String>,
        const_labels: &StaticLabels,
    ) -> (r: Result<Gauge, MetricError>)
        ensures
            r is Ok ==> r->Ok_0.desc() == desc_of(
                name@,
                help@,
                texts(labels@),
                const_labels.view(),
            ),
            r == Err::<Gauge, MetricError>(MetricError::Invalid) <==> !desc_valid(
                desc_of(name@, help@, texts(labels@), const_labels.view()),
            ),
            desc_valid(desc_of(name@, help@, texts(labels@), const_labels.view())) ==> r is Ok || r
                == Err::<Gauge, MetricError>(MetricError::Refused),
    {
        let cells = match new_gauge_cells(name, help, labels, const_labels) {
            Ok(g) => g,
            Err(_) => {
                return Err(MetricError::Invalid);
            },
        };
        match settle_registration(register_gauge(registry, &cells)) {
            Ok(_) => Ok(Gauge { cells }),
            Err(e) => Err(e),
        }
    }

    /// Increment the gauge for `labels` by one.
    pub fn inc(&self, labels: &Vec<String>)
        requires
            labels@.len() == self.arity(),
    {
        gauge_inc(&self.cells, labels)
    }

    /// Decrement the gauge for `labels` by one.
    pub fn dec(&self, labels: &Vec<String>)
        requires
            labels@.len() == self.arity(),
    {
        gauge_dec(&self.cells, labels)
    }

    /// Add `value` to the gauge for `labels`.
    pub fn add(&self, labels: &Vec<String>, value: i64)
        requires
            labels@.len() == self.arity(),
    {
        gauge_add(&self.cells, labels, value)
    }

    /// Subtract `value` from the gauge for `labels`.
    pub fn sub(&self, labels: &Vec<String>, value: i64)
        requires
            labels@.len() == self.arity(),
    {
        gauge_sub(&self.cells, labels, value)
    }

    /// Set the gauge for `labels` to `value`.
    pub fn set(&self, labels: &Vec<String>, value: i64)
        requires
            labels@.len() == self.arity(),
    {
        gauge_set(&self.cells, labels, value)
    }
}

/// A histogram family with the default buckets, one histogram per
/// combination of label values.
pub struct Histogram {
    cells: HistogramCells,
}

impl Histogram {
    /// What the family was made with.
    pub open spec fn desc(&self) -> MetricDesc {
        histogram_desc(*self.cells_view())
    }

    /// The number of label values each operation takes.
    pub open spec fn arity(&self) -> nat {
        self.desc().labels.len()
    }

    /// Create a histogram family and register it.
    pub fn new(
        registry: &prometheus::Registry,
        name: &str,
        help: &str,
        labels: &Vec<String>,
        const_labels: &StaticLabels,
    ) -> (r: Result<Histogram, MetricError>)
        ensures
            r is Ok ==> r->Ok_0.desc() == desc_of(
                name@,
                help@,
                texts(labels@),
                const_labels.view(),
            ),
            r == Err::<Histogram, MetricError>(MetricError::Invalid) <==> !histogram_desc_valid(
                desc_of(name@, help@, texts(labels@), const_labels.view()),
            ),
            histogram_desc_valid(desc_of(name@, help@, texts(labels@), const_labels.view())) ==> r is Ok || r
                == Err::<Histogram, MetricError>(MetricError::Refused),
    {
        let hit = find_text(labels, "le");
        if let Some(i) = hit {
            proof {
                assert(texts(labels@)[i as int] == bucket_label());
            }
            return Err(MetricError::Invalid);
        }
        if const_labels.contains_key("le") {
            return Err(MetricError::Invalid);
        }
        proof {
            assert(!texts(labels@).contains(bucket_label()));
        }
        let cells = match new_histogram_cells(name, help, labels, const_labels) {
            Ok(h) => h,
            Err(_) => {
                return Err(MetricError::Invalid);
            },
        };
        match settle_registration(register_histogram(registry, &cells)) {
            Ok(_) => Ok(Histogram { cells }),
            Err(e) => Err(e),
        }
    }

    /// The underlying histogram vector.
    pub closed spec fn cells_view(&self) -> &HistogramCells {
        &self.cells
    }

    /// The underlying histogram vector, through which floating-point values
    /// are observed.
    pub fn cells(&self) -> (r: &HistogramCells)
        ensures
            r == self.cells_view(),
            histogram_desc(*r) == self.desc(),
    {
        &self.cells
    }
}

} // verus!
