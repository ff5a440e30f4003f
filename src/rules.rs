//! The registry's rules for what a metric may be made with, and the
//! description a metric is made with.

use vstd::prelude::*;

use crate::text::all_distinct;

verus! {

/// What a metric family is made with: its full name, help text, variable
/// label names in order, and constant labels.
pub struct MetricDesc {
    pub name: Seq<char>,
    pub help: Seq<char>,
    pub labels: Seq<Seq<char>>,
    pub const_labels: Map<Seq<char>, Seq<char>>,
}

/// An ASCII letter.
pub open spec fn ascii_letter(c: char) -> bool {
    ('a' <= c && c <= 'z') || ('A' <= c && c <= 'Z')
}

/// An ASCII digit.
pub open spec fn ascii_digit(c: char) -> bool {
    '0' <= c && c <= '9'
}

/// A character that may start a name: a letter, `_`, and `:` where allowed.
pub open spec fn name_start(c: char, colon: bool) -> bool {
    ascii_letter(c) || c == '_' || (colon && c == ':')
}

/// `[a-zA-Z_:][a-zA-Z0-9_:]*` with `colon`, `[a-zA-Z_][a-zA-Z0-9_]*` without.
pub open spec fn valid_ident(s: Seq<char>, colon: bool) -> bool {
    &&& s.len() > 0
    &&& name_start(s[0], colon)
    &&& forall|i: int| 1 <= i < s.len() ==> name_start(#[trigger] s[i], colon) || ascii_digit(s[i])
}

/// A valid metric name.
pub open spec fn valid_metric_name(s: Seq<char>) -> bool {
    valid_ident(s, true)
}

/// A valid label name.
pub open spec fn valid_label_name(s: Seq<char>) -> bool {
    valid_ident(s, false)
}

/// The registry accepts a counter or gauge made with `d`: non-empty help, a
/// valid name, valid constant label keys, and valid, distinct label names.
pub open spec fn desc_valid(d: MetricDesc) -> bool {
    &&& d.help.len() > 0
    &&& valid_metric_name(d.name)
    &&& forall|k: Seq<char>| #[trigger] d.const_labels.contains_key(k) ==> valid_label_name(k)
    &&& forall|i: int| 0 <= i < d.labels.len() ==> valid_label_name(#[trigger] d.labels[i])
    &&& all_distinct(d.labels)
}

/// The label name that histograms reserve for bucket bounds.
pub open spec fn bucket_label() -> Seq<char> {
    "le"@
}

/// The registry accepts a histogram made with `d`, and every histogram of
/// its family can be made: as for `desc_valid`, and no variable or constant
/// label is called `le`.
pub open spec fn histogram_desc_valid(d: MetricDesc) -> bool {
    &&& desc_valid(d)
    &&& !d.labels.contains(bucket_label())
    &&& !d.const_labels.contains_key(bucket_label())
}

} // verus!
