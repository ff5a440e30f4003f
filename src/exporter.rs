//! The exposition service's decisions: its configuration, the validation of
//! the served path, and what is answered to a request for a given path.
//! Listening and answering over HTTP happen outside this library.

use vstd::prelude::*;

use crate::outside::{
    encode_text, family_has_metrics, family_name, family_name_of, family_untyped, gather, is_untyped, set_family_name,
    text_of,
};
use crate::text::{join_text, opt_text, same_text};

verus! {

#[verifier::external_type_specification]
#[verifier::external_body]
pub struct ExIoError(std::io::Error);

/// Why the exporter cannot be installed.
#[derive(Debug)]
pub enum ExporterError {
    /// The listener could not be bound.
    BindError(std::io::Error),
    /// The configured path is empty, does not start with `/`, or ends with `/`.
    InvalidPath(String),
}

impl ExporterError {
    /// A message that describes the error.
    pub fn message(&self) -> (r: String)
        ensures
            match self {
                ExporterError::InvalidPath(p) => r@ == "Invalid path: "@ + p@,
                ExporterError::BindError(_) => r@.len() >= "Failed to bind to address: "@.len()
                    && r@.take("Failed to bind to address: "@.len() as int) == "Failed to bind to address: "@,
            },
    {
        match self {
            ExporterError::InvalidPath(p) => join_text("Invalid path: ", p.as_str()),
            ExporterError::BindError(e) => {
                let text = io_error_text(e);
                let r = join_text("Failed to bind to address: ", text.as_str());
                proof {
                    assert(r@.take("Failed to bind to address: "@.len() as int) =~= "Failed to bind to address: "@);
                }
                r
            },
        }
    }
}

/// Relies on `std::io::Error`'s `Display`: the error's text.
#[verifier::external_body]
fn io_error_text(e: &std::io::Error) -> (r: String) {
    format!("{}", e)
}

/// The path served when none is configured.
pub open spec fn default_path() -> Seq<char> {
    "/"@
}

/// The address listened on when none is configured.
pub open spec fn default_address() -> Seq<char> {
    "0.0.0.0:9090"@
}

/// A configured path is served only if it is non-empty, starts with `/` and
/// does not end with `/`.
pub open spec fn valid_path(p: Seq<char>) -> bool {
    p.len() > 0 && p[0] == '/' && p.last() != '/'
}

/// The name a family is served under: `prefix + "_" + name` when a global
/// prefix is configured, else `name`.
pub open spec fn served_name(prefix: Option<Seq<char>>, name: Seq<char>) -> Seq<char> {
    match prefix {
        Some(p) => p + "_"@ + name,
        None => name,
    }
}

/// Configuration of the exposition service.
pub struct ExporterBuilder {
    registry: Option<prometheus::Registry>,
    address: String,
    path: Option<String>,
    global_prefix: Option<String>,
}

/// A validated configuration, ready to be served.
pub struct ExporterConfig {
    /// The address to listen on.
    pub address: String,
    /// The path that metrics are served at.
    pub path: String,
    /// The prefix given to every served family name.
    pub global_prefix: Option<String>,
    /// The registry gathered on each request; none means the process-wide
    /// default registry.
    pub registry: Option<prometheus::Registry>,
}

/// What a request is answered with.
pub enum Scrape {
    /// The request's path is not the configured one.
    NotFound,
    /// The text exposition of every gathered family.
    Metrics(String),
    /// A gathered family is untyped, which the text format does not encode.
    UntypedFamily,
    /// The encoder refused the gathered families.
    EncodeFailed,
}

impl Default for ExporterBuilder {
    fn default() -> (r: ExporterBuilder)
        ensures
            r.address_view() == default_address(),
            r.path_view() is None,
            r.prefix_view() is None,
            !r.has_registry(),
    {
        ExporterBuilder::new()
    }
}

impl ExporterBuilder {
    /// The configured address.
    pub closed spec fn address_view(&self) -> Seq<char> {
        self.address@
    }

    /// The configured path, if any.
    pub closed spec fn path_view(&self) -> Option<Seq<char>> {
        opt_text(self.path)
    }

    /// The configured global prefix, if any.
    pub closed spec fn prefix_view(&self) -> Option<Seq<char>> {
        opt_text(self.global_prefix)
    }

    /// Whether an explicit registry is configured.
    pub closed spec fn has_registry(&self) -> bool {
        self.registry is Some
    }

    /// The explicitly configured registry, if any.
    pub closed spec fn registry_view(&self) -> Option<prometheus::Registry> {
        self.registry
    }

    /// The default configuration: the wildcard address on port 9090, the root
    /// path, no prefix and the process-wide registry.
    pub fn new() -> (r: ExporterBuilder)
        ensures
            r.address_view() == default_address(),
            r.path_view() is None,
            r.prefix_view() is None,
            !r.has_registry(),
    {
        ExporterBuilder {
            registry: None,
            address: String::from_str("0.0.0.0:9090"),
            path: None,
            global_prefix: None,
        }
    }

    /// Listen on `address` (`host:port`).
    pub fn with_address(self, address: String) -> (r: ExporterBuilder)
        ensures
            r.address_view() == address@,
            r.path_view() == self.path_view(),
            r.prefix_view() == self.prefix_view(),
            r.has_registry() == self.has_registry(),
    {
        ExporterBuilder { address, ..self }
    }

    /// Serve metrics at `path`.
    pub fn with_path(self, path: String) -> (r: ExporterBuilder)
        ensures
            r.path_view() == Some(path@),
            r.address_view() == self.address_view(),
            r.prefix_view() == self.prefix_view(),
            r.has_registry() == self.has_registry(),
    {
        ExporterBuilder { path: Some(path), ..self }
    }

    /// Prefix every served family name with `global_prefix` and `_`.
    pub fn with_global_prefix(self, global_prefix: String) -> (r: ExporterBuilder)
        ensures
            r.prefix_view() == Some(global_prefix@),
            r.address_view() == self.address_view(),
            r.path_view() == self.path_view(),
            r.has_registry() == self.has_registry(),
    {
        ExporterBuilder { global_prefix: Some(global_prefix), ..self }
    }

    /// Serve `registry` instead of the process-wide one.
    pub fn with_registry(self, registry: prometheus::Registry) -> (r: ExporterBuilder)
        ensures
            r.has_registry(),
            r.address_view() == self.address_view(),
            r.path_view() == self.path_view(),
            r.prefix_view() == self.prefix_view(),
    {
        ExporterBuilder { registry: Some(registry), ..self }
    }

    /// The path to serve: the configured one if it is valid, `/` if none is
    /// configured.
    pub fn path(&self) -> (r: Result<String, ExporterError>)
        ensures
            match self.path_view() {
                None => r is Ok && r->Ok_0@ == default_path(),
                Some(p) => if valid_path(p) {
                    r is Ok && r->Ok_0@ == p
                } else {
                    r is Err && (r->Err_0 matches ExporterError::InvalidPath(q) && q@ == p)
                },
            },
    {
        match &self.path {
            None => Ok(String::from_str("/")),
            Some(p) => {
                let n = p.as_str().unicode_len();
                if n == 0 {
                    return Err(ExporterError::InvalidPath(p.clone()));
                }
                if p.as_str().get_char(0) != '/' {
                    return Err(ExporterError::InvalidPath(p.clone()));
                }
                if p.as_str().get_char(n - 1) == '/' {
                    return Err(ExporterError::InvalidPath(p.clone()));
                }
                Ok(p.clone())
            },
        }
    }

    /// Validate the configuration: everything `install` needs before it
    /// binds the listener.
    pub fn into_config(self) -> (r: Result<ExporterConfig, ExporterError>)
        ensures
            match self.path_view() {
                None => r is Ok && r->Ok_0.path@ == default_path(),
                Some(p) => if valid_path(p) {
                    r is Ok && r->Ok_0.path@ == p
                } else {
                    r is Err && (r->Err_0 matches ExporterError::InvalidPath(q) && q@ == p)
                },
            },
            r is Ok ==> r->Ok_0.address@ == self.address_view() && opt_text(
                r->Ok_0.global_prefix,
            ) == self.prefix_view() && r->Ok_0.registry == self.registry_view(),
    {
        let path = match self.path() {
            Ok(p) => p,
            Err(e) => {
                return Err(e);
            },
        };
        Ok(
            ExporterConfig {
                address: self.address,
                path,
                global_prefix: self.global_prefix,
                registry: self.registry,
            },
        )
    }
}

/// A family name as served.
pub fn prefixed_name(prefix: &Option<String>, name: &str) -> (r: String)
    ensures
        r@ == served_name(opt_text(*prefix), name@),
{
    match prefix {
        Some(p) => {
            let with_sep = join_text(p.as_str(), "_");
            join_text(with_sep.as_str(), name)
        },
        None => String::from_str(name),
    }
}

/// With a global prefix `p`, every served name begins with `p + "_"` and
/// ends with the registered name; without one the registered name is served.
pub proof fn lemma_served_name(prefix: Option<Seq<char>>, name: Seq<char>)
    ensures
        match prefix {
            Some(p) => {
                &&& served_name(prefix, name).take(p.len() + 1 as int) == p + "_"@
                &&& served_name(prefix, name).skip(p.len() + 1 as int) == name
            },
            None => served_name(prefix, name) == name,
        },
{
    if let Some(p) = prefix {
        reveal_strlit("_");
        assert(served_name(prefix, name).take(p.len() + 1 as int) =~= p + "_"@);
        assert(served_name(prefix, name).skip(p.len() + 1 as int) =~= name);
    }
}

/// `served` are `gathered` in the same order, each under its served name.
pub open spec fn served_families(
    gathered: Seq<prometheus::proto::MetricFamily>,
    served: Seq<prometheus::proto::MetricFamily>,
    prefix: Option<Seq<char>>,
) -> bool {
    &&& served.len() == gathered.len()
    &&& forall|i: int|
        0 <= i < gathered.len() ==> family_name_of(#[trigger] served[i]) == served_name(
            prefix,
            family_name_of(gathered[i]),
        ) && family_untyped(served[i]) == family_untyped(gathered[i]) && family_has_metrics(
            served[i],
        ) == family_has_metrics(gathered[i])
}

/// The text encoder accepts family `f` once it is served under `prefix`.
pub open spec fn encodable(prefix: Option<Seq<char>>, f: prometheus::proto::MetricFamily) -> bool {
    served_name(prefix, family_name_of(f)).len() > 0 && family_has_metrics(f)
}

/// Give every family its served name, keeping the order.
pub fn rename_families(
    families: Vec<prometheus::proto::MetricFamily>,
    global_prefix: &Option<String>,
) -> (r: Vec<prometheus::proto::MetricFamily>)
    ensures
        served_families(families@, r@, opt_text(*global_prefix)),
{
    let ghost given = families@;
    let mut rest = families;
    let mut renamed: Vec<prometheus::proto::MetricFamily> = Vec::new();
    let n = rest.len();
    let mut i: usize = 0;
    while i < n
        invariant
            n == given.len(),
            i <= n,
            rest@ == given.subrange(i as int, n as int),
            renamed@.len() == i,
            forall|j: int|
                0 <= j < i ==> family_name_of(#[trigger] renamed@[j]) == served_name(
                    opt_text(*global_prefix),
                    family_name_of(given[j]),
                ) && family_untyped(renamed@[j]) == family_untyped(given[j])
                    && family_has_metrics(renamed@[j]) == family_has_metrics(given[j]),
        decreases n - i,
    {
        let mut family = rest.remove(0);
        proof {
            assert(family == given[i as int]);
        }
        let name = family_name(&family);
        set_family_name(&mut family, prefixed_name(global_prefix, name.as_str()));
        renamed.push(family);
        proof {
            assert(rest@ =~= given.subrange(i + 1, n as int));
        }
        i = i + 1;
    }
    renamed
}

/// Whether some family is untyped.
fn any_untyped(families: &Vec<prometheus::proto::MetricFamily>) -> (r: bool)
    ensures
        r == exists|i: int| 0 <= i < families@.len() && family_untyped(#[trigger] families@[i]),
{
    let mut i: usize = 0;
    while i < families.len()
        invariant
            i <= families@.len(),
            forall|j: int| 0 <= j < i ==> !family_untyped(#[trigger] families@[j]),
        decreases families@.len() - i,
    {
        if is_untyped(&families[i]) {
            return true;
        }
        i = i + 1;
    }
    false
}

/// Answer with the gathered `families`: every family under its served name,
/// encoded as text, unless a family is untyped.
pub fn render(families: Vec<prometheus::proto::MetricFamily>, global_prefix: &Option<String>) -> (r:
    Scrape)
    ensures
        !(r is NotFound),
        r is UntypedFamily <==> exists|i: int|
            0 <= i < families@.len() && family_untyped(#[trigger] families@[i]),
        r is EncodeFailed <==> !(r is UntypedFamily) && exists|i: int|
            0 <= i < families@.len() && !encodable(opt_text(*global_prefix), #[trigger] families@[i]),
        r matches Scrape::Metrics(b) ==> exists|s: Seq<prometheus::proto::MetricFamily>|
            served_families(families@, s, opt_text(*global_prefix)) && b@ == text_of(s),
{
    if any_untyped(&families) {
        return Scrape::UntypedFamily;
    }
    let ghost given = families@;
    let served = rename_families(families, global_prefix);
    proof {
        assert forall|i: int| 0 <= i < served@.len() implies !family_untyped(#[trigger] served@[i]) by {
            assert(!family_untyped(given[i]));
        }
        assert forall|i: int| 0 <= i < served@.len() implies (family_name_of(#[trigger] served@[i]).len() > 0
            && family_has_metrics(served@[i])) == encodable(opt_text(*global_prefix), given[i]) by {}
    }
    match encode_text(&served) {
        Ok(body) => {
            proof {
                assert forall|i: int| 0 <= i < given.len() implies encodable(
                    opt_text(*global_prefix),
                    #[trigger] given[i],
                ) by {
                    assert(family_name_of(served@[i]).len() > 0 && family_has_metrics(served@[i]));
                }
            }
            Scrape::Metrics(body)
        },
        Err(_) => {
            proof {
                let i = choose|i: int|
                    0 <= i < served@.len() && !(family_name_of(#[trigger] served@[i]).len() > 0
                        && family_has_metrics(served@[i]));
                assert(!encodable(opt_text(*global_prefix), given[i]));
            }
            Scrape::EncodeFailed
        },
    }
}

/// Answer a request for `request_path`: not found unless it is the served
/// path; otherwise the registry is gathered (it keeps its own names) and the
/// families are answered as `render` does.
pub fn scrape(
    registry: &prometheus::Registry,
    request_path: &str,
    path: &str,
    global_prefix: &Option<String>,
) -> (r: Scrape)
    ensures
        request_path@ != path@ <==> r is NotFound,
        global_prefix is Some ==> !(r is EncodeFailed),
        r matches Scrape::Metrics(b) ==> exists|
            g: Seq<prometheus::proto::MetricFamily>,
            s: Seq<prometheus::proto::MetricFamily>,
        | served_families(g, s, opt_text(*global_prefix)) && b@ == text_of(s),
{
    if !same_text(request_path, path) {
        return Scrape::NotFound;
    }
    let families = gather(registry);
    let ghost g = families@;
    let r = render(families, global_prefix);
    proof {
        if global_prefix is Some {
            assert forall|i: int| 0 <= i < g.len() implies encodable(opt_text(*global_prefix), #[trigger] g[i]) by {
                reveal_strlit("_");
            }
        }
        if r is Metrics {
            let b = r->Metrics_0;
            let s = choose|s: Seq<prometheus::proto::MetricFamily>|
                served_families(g, s, opt_text(*global_prefix)) && b@ == text_of(s);
            assert(served_families(g, s, opt_text(*global_prefix)) && b@ == text_of(s));
        }
    }
    r
}

} // verus!
