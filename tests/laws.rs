use prometric::bundle::{AccessError, BuildError, Metrics};
use prometheus::proto::{Metric, MetricFamily, MetricType};
use prometric::exporter::{prefixed_name, render, scrape, ExporterBuilder, ExporterError, Scrape};
use prometric::kind::MetricKind;
use prometric::labels::StaticLabels;
use prometric::metric::{settle_registration, MetricError, Registration};
use prometric::naming::{snake_to_pascal, to_screaming_snake};
use prometric::outside::RegisterOutcome;
use prometric::process::frequency_bounds;
use prometric::schema::{resolve_help, FieldError, MetricFieldSpec, MetricsSchema, SchemaError};

fn s(x: &str) -> String {
    x.to_string()
}

fn requests_schema() -> MetricsSchema {
    let fields = vec![MetricFieldSpec::new("requests", "Counter")
        .with_label("method")
        .with_help("Requests served.")];
    MetricsSchema::new(Some(s("app")), fields).unwrap()
}

fn body_of(registry: &prometheus::Registry) -> String {
    match scrape(registry, "/", "/", &None) {
        Scrape::Metrics(body) => body,
        _ => panic!("no exposition"),
    }
}

fn sample_value(body: &str, prefix: &str) -> String {
    body.lines()
        .find(|l| l.starts_with(prefix))
        .map(|l| l.rsplit(' ').next().unwrap().to_string())
        .unwrap_or_default()
}

#[test]
fn scenario_requests_counter() {
    let registry = prometheus::Registry::new();
    let schema = requests_schema();
    let metrics = schema
        .builder()
        .with_registry(&registry)
        .with_label(s("host"), s("localhost"))
        .build()
        .unwrap();
    for _ in 0..3 {
        metrics.counter("requests", vec![s("GET")]).unwrap().inc();
    }
    let body = body_of(&registry);
    assert!(body.contains("app_requests{host=\"localhost\",method=\"GET\"} 3"));
}

#[test]
fn full_name_uses_rename_or_identifier() {
    let fields = vec![
        MetricFieldSpec::new("http_requests", "Counter").with_rename("http_requests_total"),
        MetricFieldSpec::new("errors", "Gauge"),
    ];
    let schema = MetricsSchema::new(Some(s("svc")), fields).unwrap();
    assert_eq!(schema.scope(), "svc");
    assert_eq!(schema.metrics()[0].full_name, "svc_http_requests_total");
    assert_eq!(schema.metrics()[0].identifier, "http_requests");
    assert_eq!(schema.metrics()[1].full_name, "svc_errors");
    assert_eq!(schema.metrics()[1].kind, MetricKind::Gauge);
}

#[test]
fn help_precedence_and_trimming() {
    assert_eq!(resolve_help(&Some(s("explicit")), &Some(s("doc"))), "explicit");
    assert_eq!(resolve_help(&None, &Some(s("  documented text \n"))), "documented text");
    assert_eq!(resolve_help(&None, &None), "");
    let field = MetricFieldSpec::new("x", "Counter").with_doc("  The x count.  ");
    assert_eq!(field.resolve("app").ok().unwrap().help, "The x count.");
}

#[test]
fn schema_errors() {
    let fields = vec![MetricFieldSpec::new("a", "Counter")];
    assert_eq!(MetricsSchema::new(None, fields).err(), Some(SchemaError::MissingScope));

    let fields = vec![MetricFieldSpec::new("a", "Counter"), MetricFieldSpec::new("b", "Summary")];
    assert_eq!(
        MetricsSchema::new(Some(s("app")), fields).err(),
        Some(SchemaError::Field { index: 1, error: FieldError::UnsupportedKind })
    );

    let fields = vec![MetricFieldSpec::new("a", "Gauge").with_label("x").with_label("x")];
    assert_eq!(
        MetricsSchema::new(Some(s("app")), fields).err(),
        Some(SchemaError::Field { index: 0, error: FieldError::DuplicateLabel })
    );
}

#[test]
fn kinds_from_type_names() {
    assert_eq!(MetricKind::from_type("Counter"), Some(MetricKind::Counter));
    assert_eq!(MetricKind::from_type("Gauge"), Some(MetricKind::Gauge));
    assert_eq!(MetricKind::from_type("Histogram"), Some(MetricKind::Histogram));
    assert_eq!(MetricKind::from_type("IntCounter"), Some(MetricKind::Counter));
    assert_eq!(MetricKind::from_type("IntGauge"), Some(MetricKind::Gauge));
    assert_eq!(MetricKind::from_type("Summary"), None);
    assert_eq!(MetricKind::from_type("counter"), None);
    assert_eq!(MetricKind::Histogram.as_str(), "Histogram");
    assert_eq!(MetricKind::Counter.as_str(), "Counter");
}

#[test]
fn positional_and_fluent_label_values() {
    let fields = vec![MetricFieldSpec::new("hits", "Counter")
        .with_label("method")
        .with_label("path")
        .with_help("Hits.")];
    let schema = MetricsSchema::new(Some(s("app")), fields).unwrap();
    let registry = prometheus::Registry::new();
    let metrics = schema.builder().with_registry(&registry).build().unwrap();

    let positional = metrics.counter("hits", vec![s("GET"), s("/a")]).unwrap();
    assert_eq!(positional.label_values(), &vec![s("GET"), s("/a")]);

    let fluent = metrics.counter_fluent("hits").unwrap().label("path", s("/a"));
    assert_eq!(fluent.label_values(), &vec![s(""), s("/a")]);
    let fluent = fluent.label("method", s("GET")).label("unknown", s("x"));
    assert_eq!(fluent.label_values(), &vec![s("GET"), s("/a")]);

    fluent.inc();
    positional.inc_by(4);
    metrics.counter_fluent("hits").unwrap().inc();
    let body = body_of(&registry);
    assert!(body.contains("app_hits{method=\"GET\",path=\"/a\"} 5"));
    assert!(body.contains("app_hits{method=\"\",path=\"\"} 1"));
}

#[test]
fn access_errors() {
    let registry = prometheus::Registry::new();
    let schema = requests_schema();
    let metrics: Metrics = schema.builder().with_registry(&registry).build().unwrap();
    assert_eq!(metrics.counter("nope", vec![]).err(), Some(AccessError::UnknownMetric));
    assert_eq!(metrics.gauge("requests", vec![s("GET")]).err(), Some(AccessError::WrongKind));
    assert_eq!(metrics.histogram_fluent("requests").err(), Some(AccessError::WrongKind));
    assert_eq!(metrics.counter("requests", vec![]).err(), Some(AccessError::LabelCount));
    assert_eq!(
        metrics.counter("requests", vec![s("a"), s("b")]).err(),
        Some(AccessError::LabelCount)
    );
    assert_eq!(metrics.len(), 1);
    assert_eq!(metrics.resolved(0).full_name, "app_requests");
}

#[test]
fn second_build_keeps_counter_state() {
    let registry = prometheus::Registry::new();
    let schema = requests_schema();
    let first = schema.builder().with_registry(&registry).build().unwrap();
    first.counter("requests", vec![s("GET")]).unwrap().inc();
    first.counter("requests", vec![s("GET")]).unwrap().inc();

    let second = schema.builder().with_registry(&registry).build().unwrap();
    assert!(body_of(&registry).contains("app_requests{method=\"GET\"} 2"));

    first.counter("requests", vec![s("GET")]).unwrap().inc();
    second.counter("requests", vec![s("GET")]).unwrap().inc_by(10);
    assert!(body_of(&registry).contains("app_requests{method=\"GET\"} 3"));
}

#[test]
fn distinct_label_combinations_give_distinct_samples() {
    let registry = prometheus::Registry::new();
    let schema = requests_schema();
    let metrics = schema.builder().with_registry(&registry).build().unwrap();
    for m in ["GET", "POST", "PUT"] {
        metrics.counter("requests", vec![s(m)]).unwrap().inc();
    }
    let body = body_of(&registry);
    let samples: Vec<&str> = body.lines().filter(|l| l.starts_with("app_requests{")).collect();
    assert_eq!(samples.len(), 3);
    assert!(samples.contains(&"app_requests{method=\"GET\"} 1"));
    assert!(samples.contains(&"app_requests{method=\"POST\"} 1"));
    assert!(samples.contains(&"app_requests{method=\"PUT\"} 1"));
}

#[test]
fn histogram_counts_and_sum() {
    let registry = prometheus::Registry::new();
    let fields = vec![MetricFieldSpec::new("latency", "Histogram").with_help("Latency.")];
    let schema = MetricsSchema::new(Some(s("app")), fields).unwrap();
    let metrics = schema.builder().with_registry(&registry).build().unwrap();
    let acc = metrics.histogram("latency", vec![]).unwrap();
    for v in [0.5_f64, 1.0, 2.0] {
        acc.cells().vec.with_label_values(acc.label_values()).observe(v);
    }
    let body = body_of(&registry);
    assert_eq!(sample_value(&body, "app_latency_count"), "3");
    assert_eq!(sample_value(&body, "app_latency_sum"), "3.5");
    let buckets: Vec<u64> = body
        .lines()
        .filter(|l| l.starts_with("app_latency_bucket"))
        .map(|l| l.rsplit(' ').next().unwrap().parse().unwrap())
        .collect();
    assert!(!buckets.is_empty());
    assert!(buckets.windows(2).all(|w| w[0] <= w[1]));
    assert_eq!(*buckets.last().unwrap(), 3);
}

#[test]
fn gauge_operations() {
    let registry = prometheus::Registry::new();
    let fields = vec![MetricFieldSpec::new("users", "Gauge").with_help("Users.")];
    let schema = MetricsSchema::new(Some(s("app")), fields).unwrap();
    let metrics = schema.builder().with_registry(&registry).build().unwrap();
    let g = metrics.gauge("users", vec![]).unwrap();
    g.set(10);
    g.inc();
    g.add(5);
    g.sub(3);
    g.dec();
    assert_eq!(sample_value(&body_of(&registry), "app_users "), "12");
    let c = metrics.counter("users", vec![]);
    assert!(c.is_err());
}

#[test]
fn counter_reset() {
    let registry = prometheus::Registry::new();
    let metrics = requests_schema().builder().with_registry(&registry).build().unwrap();
    let c = metrics.counter("requests", vec![s("GET")]).unwrap();
    c.inc_by(7);
    c.reset();
    c.inc();
    assert!(body_of(&registry).contains("app_requests{method=\"GET\"} 1"));
}

#[test]
fn build_errors() {
    let registry = prometheus::Registry::new();
    let fields = vec![MetricFieldSpec::new("quiet", "Counter")];
    let schema = MetricsSchema::new(Some(s("app")), fields).unwrap();
    assert_eq!(
        schema.builder().with_registry(&registry).build().err(),
        Some(BuildError { index: 0, error: MetricError::Invalid })
    );

    let a = MetricsSchema::new(
        Some(s("app")),
        vec![MetricFieldSpec::new("x", "Counter").with_label("a").with_help("X.")],
    )
    .unwrap();
    let b = MetricsSchema::new(
        Some(s("app")),
        vec![MetricFieldSpec::new("x", "Counter").with_label("b").with_help("X.")],
    )
    .unwrap();
    a.builder().with_registry(&registry).with_label(s("host"), s("one")).build().unwrap();
    assert_eq!(
        b.builder().with_registry(&registry).with_label(s("host"), s("two")).build().err(),
        Some(BuildError { index: 0, error: MetricError::Refused })
    );
}

#[test]
fn registration_policy() {
    assert_eq!(settle_registration(RegisterOutcome::Registered), Ok(Registration::Registered));
    assert_eq!(
        settle_registration(RegisterOutcome::AlreadyRegistered),
        Ok(Registration::KeptExisting)
    );
    assert_eq!(settle_registration(RegisterOutcome::Refused), Err(MetricError::Refused));
}

#[test]
fn static_labels_overwrite() {
    let registry = prometheus::Registry::new();
    let metrics = requests_schema()
        .builder()
        .with_registry(&registry)
        .with_label(s("host"), s("a"))
        .with_label(s("zone"), s("z"))
        .with_label(s("host"), s("b"))
        .build()
        .unwrap();
    metrics.counter("requests", vec![s("GET")]).unwrap().inc();
    assert!(body_of(&registry).contains("app_requests{host=\"b\",method=\"GET\",zone=\"z\"} 1"));

    let labels = StaticLabels::new().insert(s("k"), s("1")).insert(s("k"), s("2"));
    assert_eq!(labels.pairs(), &vec![(s("k"), s("2"))]);
}

#[test]
fn exposition_path_matching() {
    let registry = prometheus::Registry::new();
    let metrics = requests_schema().builder().with_registry(&registry).build().unwrap();
    metrics.counter("requests", vec![s("GET")]).unwrap().inc();
    assert!(matches!(scrape(&registry, "/other", "/metrics", &None), Scrape::NotFound));
    assert!(matches!(scrape(&registry, "/", "/metrics", &None), Scrape::NotFound));
    match scrape(&registry, "/metrics", "/metrics", &None) {
        Scrape::Metrics(body) => assert!(body.contains("app_requests")),
        _ => panic!("expected metrics"),
    }
}

#[test]
fn global_prefix_rewrite() {
    let registry = prometheus::Registry::new();
    let metrics = requests_schema().builder().with_registry(&registry).build().unwrap();
    metrics.counter("requests", vec![s("GET")]).unwrap().inc();
    match scrape(&registry, "/", "/", &Some(s("edge"))) {
        Scrape::Metrics(body) => {
            assert!(body.contains("edge_app_requests{method=\"GET\"} 1"));
            assert!(!body.lines().any(|l| l.starts_with("app_requests")));
        }
        _ => panic!("expected metrics"),
    }
    let names: Vec<String> = registry.gather().iter().map(|f| f.name().to_string()).collect();
    assert_eq!(names, vec![s("app_requests")]);
    assert_eq!(prefixed_name(&Some(s("p")), "m"), "p_m");
    assert_eq!(prefixed_name(&None, "m"), "m");
}

#[test]
fn exporter_paths() {
    assert_eq!(ExporterBuilder::new().path().ok(), Some(s("/")));
    assert_eq!(ExporterBuilder::new().with_path(s("/metrics")).path().ok(), Some(s("/metrics")));
    for bad in ["", "metrics", "/metrics/", "/"] {
        match ExporterBuilder::new().with_path(s(bad)).path() {
            Err(ExporterError::InvalidPath(p)) => assert_eq!(p, bad),
            _ => panic!("path {bad:?} should be refused"),
        }
    }
    let config = ExporterBuilder::new()
        .with_address(s("127.0.0.1:9100"))
        .with_global_prefix(s("app"))
        .into_config()
        .ok()
        .unwrap();
    assert_eq!(config.address, "127.0.0.1:9100");
    assert_eq!(config.path, "/");
    assert_eq!(config.global_prefix, Some(s("app")));
    assert!(config.registry.is_none());
    assert!(ExporterBuilder::new().with_path(s("x")).into_config().is_err());
}

#[test]
fn case_conversions() {
    assert_eq!(snake_to_pascal("http_requests_total"), "HttpRequestsTotal");
    assert_eq!(snake_to_pascal("foo-bar baz"), "FooBarBaz");
    assert_eq!(snake_to_pascal("ABC_def"), "AbcDef");
    assert_eq!(snake_to_pascal(""), "");
    assert_eq!(to_screaming_snake("httpRequestsTotal"), "HTTP_REQUESTS_TOTAL");
    assert_eq!(to_screaming_snake("fooBar"), "FOO_BAR");
    assert_eq!(to_screaming_snake("ABC"), "ABC");
    assert_eq!(to_screaming_snake("already_snake"), "ALREADY_SNAKE");
}

#[test]
fn cpu_frequency_bounds() {
    assert_eq!(frequency_bounds(&vec![]), None);
    assert_eq!(frequency_bounds(&vec![2400, 1200, 3600, 2000]), Some((1200, 3600)));
    assert_eq!(frequency_bounds(&vec![5]), Some((5, 5)));
}


#[test]
fn duplicate_identifiers_are_refused() {
    let fields = vec![
        MetricFieldSpec::new("a", "Counter"),
        MetricFieldSpec::new("b", "Gauge"),
        MetricFieldSpec::new("a", "Gauge").with_rename("other"),
    ];
    assert_eq!(
        MetricsSchema::new(Some(s("app")), fields).err(),
        Some(SchemaError::DuplicateIdentifier { index: 2 })
    );
}

#[test]
fn metric_descriptions() {
    let fields = vec![MetricFieldSpec::new("http_requests", "Counter")
        .with_label("method")
        .with_label("path")
        .with_help("Requests.")];
    let schema = MetricsSchema::new(Some(s("app")), fields).unwrap();
    let m = &schema.metrics()[0];
    assert_eq!(m.accessor_name(), "HttpRequestsAccessor");
    assert_eq!(m.describe(), "Requests.\n* Metric type: Counter\n* Labels: method, path");
}

#[test]
fn exporter_error_messages() {
    assert_eq!(ExporterError::InvalidPath(s("x/")).message(), "Invalid path: x/");
    let e = ExporterError::BindError(std::io::Error::new(std::io::ErrorKind::Other, "busy"));
    assert_eq!(e.message(), "Failed to bind to address: busy");
}

#[test]
fn default_registry_build() {
    let fields = vec![MetricFieldSpec::new("default_built", "Counter").with_help("Built.")];
    let schema = MetricsSchema::new(Some(s("dflt")), fields).unwrap();
    let metrics = schema.build_default().unwrap();
    metrics.counter("default_built", vec![]).unwrap().inc();
    assert!(body_of(prometheus::default_registry()).contains("dflt_default_built 1"));
}

#[test]
fn reserved_and_invalid_names() {
    let fields = vec![MetricFieldSpec::new("lat", "Histogram").with_label("le").with_help("L.")];
    assert_eq!(
        MetricsSchema::new(Some(s("app")), fields).err(),
        Some(SchemaError::Field { index: 0, error: FieldError::ReservedLabel })
    );
    let fields = vec![MetricFieldSpec::new("le_ok", "Counter").with_label("le").with_help("C.")];
    assert!(MetricsSchema::new(Some(s("app")), fields).is_ok());

    let registry = prometheus::Registry::new();
    let fields = vec![MetricFieldSpec::new("lat", "Histogram").with_help("L.")];
    let schema = MetricsSchema::new(Some(s("app")), fields).unwrap();
    assert_eq!(
        schema.builder().with_registry(&registry).with_label(s("le"), s("1")).build().err(),
        Some(BuildError { index: 0, error: MetricError::Invalid })
    );

    let fields = vec![
        MetricFieldSpec::new("good", "Counter").with_help("G."),
        MetricFieldSpec::new("bad", "Gauge").with_rename("bad-name").with_help("B."),
    ];
    let schema = MetricsSchema::new(Some(s("app")), fields).unwrap();
    assert_eq!(
        schema.builder().with_registry(&registry).build().err(),
        Some(BuildError { index: 1, error: MetricError::Invalid })
    );
    let fields = vec![MetricFieldSpec::new("x", "Counter").with_label("1st").with_help("X.")];
    let schema = MetricsSchema::new(Some(s("app")), fields).unwrap();
    assert_eq!(
        schema.builder().with_registry(&registry).build().err(),
        Some(BuildError { index: 0, error: MetricError::Invalid })
    );
}

#[test]
fn ascii_screaming_snake() {
    assert_eq!(to_screaming_snake("a1B_c"), "A1B_C");
    assert_eq!(to_screaming_snake("aB"), "A_B");
    assert_eq!(to_screaming_snake("HTTPServer"), "HTTPSERVER");
}

#[test]
fn render_families() {

    let registry = prometheus::Registry::new();
    let metrics = requests_schema().builder().with_registry(&registry).build().unwrap();
    metrics.counter("requests", vec![s("GET")]).unwrap().inc();
    match render(registry.gather(), &Some(s("p"))) {
        Scrape::Metrics(body) => assert!(body.contains("p_app_requests{method=\"GET\"} 1")),
        _ => panic!("expected metrics"),
    }

    let mut untyped = MetricFamily::default();
    untyped.set_name(s("raw"));
    untyped.set_field_type(MetricType::UNTYPED);
    untyped.set_metric(vec![Metric::default()]);
    assert!(matches!(render(vec![untyped], &None), Scrape::UntypedFamily));

    let mut empty = MetricFamily::default();
    empty.set_name(s("nothing"));
    empty.set_field_type(MetricType::COUNTER);
    assert!(matches!(render(vec![empty], &None), Scrape::EncodeFailed));
}
