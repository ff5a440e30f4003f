//! The closed set of metric kinds and the operations each one offers.

use vstd::prelude::*;

use crate::text::same_text;

verus! {

/// The kind of a declared metric. Every kind counts in integers: counters
/// in `u64`, gauges in `i64`; a histogram observes values.
#[derive(Clone, Copy, Debug, PartialEq, Eq, Structural)]
pub enum MetricKind {
    /// Monotonic: increment by one or by an amount, reset to zero.
    Counter,
    /// Up and down: increment, decrement, add, subtract, set.
    Gauge,
    /// Distribution of observed values over buckets.
    Histogram,
}

/// The type name that declares a metric of kind `k`.
pub open spec fn kind_name(k: MetricKind) -> Seq<char> {
    match k {
        MetricKind::Counter => "Counter"@,
        MetricKind::Gauge => "Gauge"@,
        MetricKind::Histogram => "Histogram"@,
    }
}

/// The kind whose type name is `name`, if any. `IntCounter` and `IntGauge`
/// name the integer counter and gauge as well.
pub open spec fn kind_of_name(name: Seq<char>) -> Option<MetricKind> {
    if name == "Counter"@ || name == "IntCounter"@ {
        Some(MetricKind::Counter)
    } else if name == "Gauge"@ || name == "IntGauge"@ {
        Some(MetricKind::Gauge)
    } else if name == "Histogram"@ {
        Some(MetricKind::Histogram)
    } else {
        None
    }
}

impl MetricKind {
    /// The kind declared by a field whose type is named `name` (the last
    /// segment of its path, without generic arguments).
    pub fn from_type(name: &str) -> (r: Option<MetricKind>)
        ensures
            r == kind_of_name(name@),
    {
        if same_text(name, "Counter") || same_text(name, "IntCounter") {
            Some(MetricKind::Counter)
        } else if same_text(name, "Gauge") || same_text(name, "IntGauge") {
            Some(MetricKind::Gauge)
        } else if same_text(name, "Histogram") {
            Some(MetricKind::Histogram)
        } else {
            None
        }
    }

    /// The type name of this kind.
    pub fn as_str(&self) -> (r: &'static str)
        ensures
            r@ == kind_name(*self),
    {
        match self {
            MetricKind::Counter => "Counter",
            MetricKind::Gauge => "Gauge",
            MetricKind::Histogram => "Histogram",
        }
    }
}

} // verus!
