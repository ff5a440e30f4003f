//! The schema: declared metric fields, and their resolution into registry
//! entries (full name, help text, labels, kind).

use vstd::prelude::*;

use crate::binding::find_text;
use crate::rules::bucket_label;
use crate::kind::{kind_name, kind_of_name, MetricKind};
use crate::naming::{pascal_of, snake_to_pascal};
use crate::text::{
    all_distinct, copy_texts, has_duplicate, join_text, opt_text, same_text, texts,
    trim_text,
    trimmed,
};

verus! {

/// The text placed between the scope and a metric's name.
pub open spec fn separator() -> Seq<char> {
    "_"@
}

/// One declared metric field.
pub struct MetricFieldSpec {
    /// The field's identifier, unique within its schema.
    pub identifier: String,
    /// The name of the field's declared type: `Counter`, `Gauge` or `Histogram`.
    pub ty: String,
    /// The dynamic label names, in the order in which values are bound.
    pub labels: Vec<String>,
    /// A name that replaces the identifier in the metric's name.
    pub rename: Option<String>,
    /// Explicit help text; takes precedence over `doc`.
    pub help: Option<String>,
    /// Documentation text attached to the field.
    pub doc: Option<String>,
}

/// The mathematical content of a [`MetricFieldSpec`].
pub struct FieldModel {
    pub identifier: Seq<char>,
    pub ty: Seq<char>,
    pub labels: Seq<Seq<char>>,
    pub rename: Option<Seq<char>>,
    pub help: Option<Seq<char>>,
    pub doc: Option<Seq<char>>,
}

impl View for MetricFieldSpec {
    type V = FieldModel;

    open spec fn view(&self) -> FieldModel {
        FieldModel {
            identifier: self.identifier@,
            ty: self.ty@,
            labels: texts(self.labels@),
            rename: opt_text(self.rename),
            help: opt_text(self.help),
            doc: opt_text(self.doc),
        }
    }
}

/// A field resolved against its schema's scope.
pub struct ResolvedMetric {
    /// The identifier of the declaring field.
    pub identifier: String,
    /// The metric's kind.
    pub kind: MetricKind,
    /// `scope + "_" + (rename or identifier)`.
    pub full_name: String,
    /// The help text.
    pub help: String,
    /// The dynamic label names, in declaration order.
    pub labels: Vec<String>,
}

/// The mathematical content of a [`ResolvedMetric`].
pub struct MetricModel {
    pub identifier: Seq<char>,
    pub kind: MetricKind,
    pub full_name: Seq<char>,
    pub help: Seq<char>,
    pub labels: Seq<Seq<char>>,
}

impl View for ResolvedMetric {
    type V = MetricModel;

    open spec fn view(&self) -> MetricModel {
        MetricModel {
            identifier: self.identifier@,
            kind: self.kind,
            full_name: self.full_name@,
            help: self.help@,
            labels: texts(self.labels@),
        }
    }
}

/// Why a single field cannot be resolved.
#[derive(Clone, Copy, Debug, PartialEq, Eq, Structural)]
pub enum FieldError {
    /// The declared type names no supported metric kind.
    UnsupportedKind,
    /// A label name occurs twice in the field's label list.
    DuplicateLabel,
    /// A histogram declares the label `le`, which holds its bucket bounds.
    ReservedLabel,
}

/// Why a schema cannot be processed.
#[derive(Clone, Copy, Debug, PartialEq, Eq, Structural)]
pub enum SchemaError {
    /// The schema declares no scope.
    MissingScope,
    /// The field at `index` cannot be resolved.
    Field { index: usize, error: FieldError },
    /// The field at `index` has the identifier of an earlier field.
    DuplicateIdentifier { index: usize },
}

/// The name under which a field's metric is known inside its scope.
pub open spec fn metric_name_of(f: FieldModel) -> Seq<char> {
    match f.rename {
        Some(r) => r,
        None => f.identifier,
    }
}

/// The full name of a field's metric.
pub open spec fn full_name_of(scope: Seq<char>, f: FieldModel) -> Seq<char> {
    scope + separator() + metric_name_of(f)
}

/// Help text: explicit help, else the trimmed documentation, else empty.
pub open spec fn help_of(help: Option<Seq<char>>, doc: Option<Seq<char>>) -> Seq<char> {
    match help {
        Some(h) => h,
        None => match doc {
            Some(d) => trimmed(d),
            None => Seq::empty(),
        },
    }
}

/// What a field resolves to under `scope`.
pub open spec fn resolve_spec(scope: Seq<char>, f: FieldModel) -> Result<MetricModel, FieldError> {
    match kind_of_name(f.ty) {
        None => Err(FieldError::UnsupportedKind),
        Some(k) => if !all_distinct(f.labels) {
            Err(FieldError::DuplicateLabel)
        } else if k == MetricKind::Histogram && f.labels.contains(bucket_label()) {
            Err(FieldError::ReservedLabel)
        } else {
            Ok(
                MetricModel {
                    identifier: f.identifier,
                    kind: k,
                    full_name: full_name_of(scope, f),
                    help: help_of(f.help, f.doc),
                    labels: f.labels,
                },
            )
        },
    }
}

/// What a list of fields resolves to under `scope`: every field in order,
/// or the error of the first field that fails (a field fails first of all
/// when an earlier field has its identifier).
pub open spec fn resolve_all(scope: Seq<char>, fields: Seq<FieldModel>) -> Result<
    Seq<MetricModel>,
    SchemaError,
>
    decreases fields.len(),
{
    if fields.len() == 0 {
        Ok(Seq::empty())
    } else {
        match resolve_all(scope, fields.drop_last()) {
            Err(e) => Err(e),
            Ok(ms) => if exists|j: int|
                0 <= j < fields.len() - 1 && fields[j].identifier == fields.last().identifier {
                Err(SchemaError::DuplicateIdentifier { index: (fields.len() - 1) as usize })
            } else {
                match resolve_spec(scope, fields.last()) {
                    Err(fe) => Err(
                        SchemaError::Field { index: (fields.len() - 1) as usize, error: fe },
                    ),
                    Ok(m) => Ok(ms.push(m)),
                }
            },
        }
    }
}

/// `parts` with `sep` between each two neighbours.
pub open spec fn joined(parts: Seq<Seq<char>>, sep: Seq<char>) -> Seq<char>
    decreases parts.len(),
{
    if parts.len() == 0 {
        Seq::empty()
    } else if parts.len() == 1 {
        parts[0]
    } else {
        joined(parts.drop_last(), sep) + sep + parts.last()
    }
}

/// The strings of `parts` with `sep` between each two neighbours.
pub fn join_all(parts: &Vec<String>, sep: &str) -> (r: String)
    ensures
        r@ == joined(texts(parts@), sep@),
{
    let ghost ps = texts(parts@);
    let mut out = String::new();
    let mut i: usize = 0;
    while i < parts.len()
        invariant
            i <= parts@.len(),
            ps == texts(parts@),
            out@ == joined(ps.take(i as int), sep@),
        decreases parts@.len() - i,
    {
        proof {
            assert(ps.take(i + 1).drop_last() =~= ps.take(i as int));
        }
        if i == 0 {
            out = parts[0].clone();
        } else {
            let with_sep = crate::text::join_text(out.as_str(), sep);
            out = crate::text::join_text(with_sep.as_str(), parts[i].as_str());
        }
        i = i + 1;
    }
    proof {
        assert(ps.take(parts@.len() as int) =~= ps);
    }
    out
}

impl ResolvedMetric {
    /// The name of the accessor type of this metric: its identifier in
    /// PascalCase followed by `Accessor`.
    pub fn accessor_name(&self) -> (r: String)
        ensures
            r@ == pascal_of(self.identifier@) + "Accessor"@,
    {
        let base = snake_to_pascal(self.identifier.as_str());
        join_text(base.as_str(), "Accessor")
    }

    /// A description of the metric: its help text, kind and label names.
    pub fn describe(&self) -> (r: String)
        ensures
            r@ == self.help@ + "\n* Metric type: "@ + kind_name(self.kind) + "\n* Labels: "@
                + joined(texts(self.labels@), ", "@),
    {
        let a = join_text(self.help.as_str(), "\n* Metric type: ");
        let b = join_text(a.as_str(), self.kind.as_str());
        let c = join_text(b.as_str(), "\n* Labels: ");
        let labels = join_all(&self.labels, ", ");
        join_text(c.as_str(), labels.as_str())
    }
}

/// The views of a sequence of resolved metrics.
pub open spec fn metric_models(v: Seq<ResolvedMetric>) -> Seq<MetricModel> {
    v.map_values(|m: ResolvedMetric| m@)
}

/// The views of a sequence of field declarations.
pub open spec fn field_models(v: Seq<MetricFieldSpec>) -> Seq<FieldModel> {
    v.map_values(|f: MetricFieldSpec| f@)
}

/// Help text from an explicit help string and a documentation string.
pub fn resolve_help(help: &Option<String>, doc: &Option<String>) -> (r: String)
    ensures
        r@ == help_of(opt_text(*help), opt_text(*doc)),
{
    match help {
        Some(h) => h.clone(),
        None => match doc {
            Some(d) => trim_text(d.as_str()),
            None => String::new(),
        },
    }
}

impl MetricFieldSpec {
    /// A field with no labels, rename, help or documentation.
    pub fn new(identifier: &str, ty: &str) -> (r: MetricFieldSpec)
        ensures
            r@ == (FieldModel {
                identifier: identifier@,
                ty: ty@,
                labels: Seq::empty(),
                rename: None,
                help: None,
                doc: None,
            }),
    {
        let r = MetricFieldSpec {
            identifier: String::from_str(identifier),
            ty: String::from_str(ty),
            labels: Vec::new(),
            rename: None,
            help: None,
            doc: None,
        };
        proof {
            assert(r@.labels =~= Seq::<Seq<char>>::empty());
        }
        r
    }

    /// The same field with label `name` appended to its labels.
    pub fn with_label(self, name: &str) -> (r: MetricFieldSpec)
        ensures
            r@ == (FieldModel { labels: self@.labels.push(name@), ..self@ }),
    {
        let mut labels = self.labels;
        labels.push(String::from_str(name));
        let r = MetricFieldSpec { labels, ..self };
        proof {
            assert(r@.labels =~= self@.labels.push(name@));
        }
        r
    }

    /// The same field, named `name` instead of its identifier.
    pub fn with_rename(self, name: &str) -> (r: MetricFieldSpec)
        ensures
            r@ == (FieldModel { rename: Some(name@), ..self@ }),
    {
        MetricFieldSpec { rename: Some(String::from_str(name)), ..self }
    }

    /// The same field with explicit help text.
    pub fn with_help(self, help: &str) -> (r: MetricFieldSpec)
        ensures
            r@ == (FieldModel { help: Some(help@), ..self@ }),
    {
        MetricFieldSpec { help: Some(String::from_str(help)), ..self }
    }

    /// The same field with documentation text.
    pub fn with_doc(self, doc: &str) -> (r: MetricFieldSpec)
        ensures
            r@ == (FieldModel { doc: Some(doc@), ..self@ }),
    {
        MetricFieldSpec { doc: Some(String::from_str(doc)), ..self }
    }

    /// The full metric name: `scope + "_" + (rename or identifier)`.
    pub fn full_name(&self, scope: &str) -> (r: String)
        ensures
            r@ == full_name_of(scope@, self@),
    {
        let with_sep = join_text(scope, "_");
        match &self.rename {
            Some(name) => join_text(with_sep.as_str(), name.as_str()),
            None => join_text(with_sep.as_str(), self.identifier.as_str()),
        }
    }

    /// Resolve this field under `scope`.
    pub fn resolve(&self, scope: &str) -> (r: Result<ResolvedMetric, FieldError>)
        ensures
            match resolve_spec(scope@, self@) {
                Ok(m) => r is Ok && r->Ok_0@ == m,
                Err(e) => r == Err::<ResolvedMetric, FieldError>(e),
            },
    {
        let kind = match MetricKind::from_type(self.ty.as_str()) {
            Some(k) => k,
            None => {
                return Err(FieldError::UnsupportedKind);
            },
        };
        if has_duplicate(&self.labels) {
            return Err(FieldError::DuplicateLabel);
        }
        if kind == MetricKind::Histogram {
            if let Some(i) = find_text(&self.labels, "le") {
                proof {
                    assert(self@.labels[i as int] == bucket_label());
                }
                return Err(FieldError::ReservedLabel);
            }
        }
        let labels = copy_texts(&self.labels);
        Ok(
            ResolvedMetric {
                identifier: self.identifier.clone(),
                kind,
                full_name: self.full_name(scope),
                help: resolve_help(&self.help, &self.doc),
                labels,
            },
        )
    }
}

/// A schema whose fields are all resolved under one scope.
pub struct MetricsSchema {
    scope: String,
    metrics: Vec<ResolvedMetric>,
}

impl MetricsSchema {
    /// The scope that prefixes every metric name.
    pub closed spec fn scope_view(&self) -> Seq<char> {
        self.scope@
    }

    /// The resolved metrics, in declaration order.
    pub closed spec fn metrics_view(&self) -> Seq<MetricModel> {
        metric_models(self.metrics@)
    }

    /// Process a schema: a scope is required, and every field must resolve.
    pub fn new(scope: Option<String>, fields: Vec<MetricFieldSpec>) -> (r: Result<
        MetricsSchema,
        SchemaError,
    >)
        ensures
            scope is None ==> r == Err::<MetricsSchema, SchemaError>(SchemaError::MissingScope),
            scope is Some ==> match resolve_all(scope->Some_0@, field_models(fields@)) {
                Ok(ms) => r is Ok && r->Ok_0.scope_view() == scope->Some_0@
                    && r->Ok_0.metrics_view() == ms,
                Err(e) => r == Err::<MetricsSchema, SchemaError>(e),
            },
    {
        let name = match scope {
            Some(s) => s,
            None => {
                return Err(SchemaError::MissingScope);
            },
        };
        let ghost fm = field_models(fields@);
        let mut metrics: Vec<ResolvedMetric> = Vec::new();
        let mut i: usize = 0;
        proof {
            assert(fm.subrange(0, 0) =~= Seq::<FieldModel>::empty());
            assert(metric_models(metrics@) =~= Seq::<MetricModel>::empty());
        }
        while i < fields.len()
            invariant
                i <= fields@.len(),
                fm == field_models(fields@),
                scope == Some(name),
                resolve_all(name@, fm.subrange(0, i as int)) == Ok::<
                    Seq<MetricModel>,
                    SchemaError,
                >(metric_models(metrics@)),
            decreases fields@.len() - i,
        {
            proof {
                assert(fm.subrange(0, i + 1).drop_last() =~= fm.subrange(0, i as int));
                assert(fm.subrange(0, i + 1).last() == fields@[i as int]@);
                lemma_resolved_names(name@, fm.subrange(0, i as int));
                assert forall|k: int| 0 <= k < i implies metrics@[k].identifier@
                    == fm[k].identifier by {
                    assert(metric_models(metrics@)[k] == metrics@[k]@);
                    assert(fm.subrange(0, i as int)[k] == fm[k]);
                }
            }
            let mut j: usize = 0;
            while j < i
                invariant
                    i < fields@.len(),
                    j <= i,
                    metrics@.len() == i,
                    fm == field_models(fields@),
                    scope == Some(name),
                    resolve_all(name@, fm.subrange(0, i as int)) == Ok::<
                        Seq<MetricModel>,
                        SchemaError,
                    >(metric_models(metrics@)),
                    forall|k: int| 0 <= k < i ==> metrics@[k].identifier@ == fm[k].identifier,
                    forall|k: int| 0 <= k < j ==> fm[k].identifier != fm[i as int].identifier,
                decreases i - j,
            {
                if same_text(metrics[j].identifier.as_str(), fields[i].identifier.as_str()) {
                    proof {
                        let sub = fm.subrange(0, i + 1);
                        assert(sub.drop_last() =~= fm.subrange(0, i as int));
                        assert(fields@[i as int]@ == fm[i as int]);
                        assert(sub[j as int].identifier == sub.last().identifier);
                        assert(resolve_all(name@, sub) == Err::<Seq<MetricModel>, SchemaError>(
                            SchemaError::DuplicateIdentifier { index: i },
                        ));
                        lemma_first_error_stays(name@, fm, i + 1);
                    }
                    return Err(SchemaError::DuplicateIdentifier { index: i });
                }
                j = j + 1;
            }
            proof {
                let sub = fm.subrange(0, i + 1);
                assert(!exists|k: int| 0 <= k < sub.len() - 1 && sub[k].identifier == sub.last().identifier);
            }
            match fields[i].resolve(name.as_str()) {
                Ok(m) => {
                    let ghost before = metrics@;
                    metrics.push(m);
                    proof {
                        assert(metric_models(metrics@) =~= metric_models(before).push(m@));
                    }
                },
                Err(e) => {
                    proof {
                        assert(resolve_all(name@, fm.subrange(0, i + 1)) == Err::<
                            Seq<MetricModel>,
                            SchemaError,
                        >(SchemaError::Field { index: i, error: e }));
                        lemma_first_error_stays(name@, fm, i + 1);
                    }
                    return Err(SchemaError::Field { index: i, error: e });
                },
            }
            i = i + 1;
        }
        proof {
            assert(fm.subrange(0, fields@.len() as int) =~= fm);
        }
        Ok(MetricsSchema { scope: name, metrics })
    }

    /// The scope of this schema.
    pub fn scope(&self) -> (r: &str)
        ensures
            r@ == self.scope_view(),
    {
        self.scope.as_str()
    }

    /// The resolved metrics, in declaration order.
    pub fn metrics(&self) -> (r: &Vec<ResolvedMetric>)
        ensures
            metric_models(r@) == self.metrics_view(),
    {
        &self.metrics
    }
}

/// Every metric resolved from a schema is named `scope + "_" + (rename or
/// identifier)` of its field, keeps the field's identifier and label names
/// in order, and takes help text from the explicit help, else the trimmed
/// documentation, else nothing.
pub proof fn lemma_resolved_names(scope: Seq<char>, fields: Seq<FieldModel>)
    requires
        resolve_all(scope, fields) is Ok,
    ensures
        ({
            let ms = resolve_all(scope, fields)->Ok_0;
            &&& ms.len() == fields.len()
            &&& forall|i: int|
                0 <= i < fields.len() ==> {
                    &&& (#[trigger] ms[i]).full_name == scope + separator() + match fields[i].rename {
                        Some(r) => r,
                        None => fields[i].identifier,
                    }
                    &&& ms[i].identifier == fields[i].identifier
                    &&& ms[i].labels == fields[i].labels
                    &&& ms[i].help == help_of(fields[i].help, fields[i].doc)
                }
        }),
    decreases fields.len(),
{
    if fields.len() > 0 {
        lemma_resolved_names(scope, fields.drop_last());
    }
}

/// Once a prefix of the fields fails, every longer prefix fails the same way.
proof fn lemma_first_error_stays(scope: Seq<char>, fields: Seq<FieldModel>, k: int)
    requires
        0 <= k <= fields.len(),
        resolve_all(scope, fields.subrange(0, k)) is Err,
    ensures
        resolve_all(scope, fields) == resolve_all(scope, fields.subrange(0, k)),
    decreases fields.len() - k,
{
    if k < fields.len() {
        assert(fields.subrange(0, k + 1).drop_last() =~= fields.subrange(0, k));
        lemma_first_error_stays(scope, fields, k + 1);
    } else {
        assert(fields.subrange(0, k) =~= fields);
    }
}

} // verus!
