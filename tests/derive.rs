use prometric::bundle::Metrics;
use prometric::exporter::{scrape, Scrape};
use prometric::schema::{MetricFieldSpec, MetricsSchema};

fn app_schema() -> MetricsSchema {
    let fields = vec![
        MetricFieldSpec::new("http_requests", "Counter")
            .with_doc(" The total number of HTTP requests.")
            .with_rename("http_requests_total")
            .with_label("method")
            .with_label("path"),
        MetricFieldSpec::new("http_requests_duration", "Histogram")
            .with_doc(" The duration of HTTP requests.")
            .with_label("method")
            .with_label("path"),
        MetricFieldSpec::new("current_users", "Gauge")
            .with_doc(" This doc comment will be overwritten by the `help` attribute.")
            .with_rename("current_active_users")
            .with_label("service")
            .with_help("The current number of active users."),
        MetricFieldSpec::new("errors", "Counter").with_doc(" The total number of errors."),
    ];
    MetricsSchema::new(Some("app".to_string()), fields).unwrap()
}

fn observe(metrics: &Metrics, id: &str, labels: Vec<String>, value: f64) {
    let acc = metrics.histogram(id, labels).unwrap();
    acc.cells().vec.with_label_values(acc.label_values()).observe(value);
}

fn text_of(registry: &prometheus::Registry) -> String {
    match scrape(registry, "/", "/", &None) {
        Scrape::Metrics(body) => body,
        _ => panic!("no exposition"),
    }
}

fn s(x: &str) -> String {
    x.to_string()
}

#[test]
fn test_macro() {
    let schema = app_schema();
    let registry = prometheus::default_registry();
    let app_metrics = schema
        .builder()
        .with_registry(registry)
        .with_label(s("host"), s("localhost"))
        .with_label(s("port"), s("8080"))
        .build()
        .unwrap();

    app_metrics.counter("errors", vec![]).unwrap().inc();
    app_metrics.counter("http_requests", vec![s("GET"), s("/")]).unwrap().inc();
    app_metrics.counter("http_requests", vec![s("GET"), s("/")]).unwrap().inc();
    app_metrics.counter("http_requests", vec![s("POST"), s("/")]).unwrap().inc_by(2);
    app_metrics.gauge("current_users", vec![s("service-1")]).unwrap().set(10);
    app_metrics.gauge("current_users", vec![s("service-1")]).unwrap().set(20);

    let duration = std::time::Duration::from_secs(1);
    observe(&app_metrics, "http_requests_duration", vec![s("GET"), s("/")], duration.as_secs_f64());

    let output = text_of(registry);
    println!("\n=== Prometheus Metrics Output ===\n{}", output);

    assert!(output.contains("app_errors"));
    assert!(output.contains("app_current_active_users"));
    assert!(output.contains("app_http_requests_duration"));
    assert!(output.contains("app_http_requests_total"));
    assert!(output.contains("The current number of active users."));
}

#[test]
fn test_double_registration_success() {
    let schema = app_schema();
    let registry = prometheus::Registry::new();
    schema.builder().with_registry(&registry).with_label(s("host"), s("localhost")).build().unwrap();

    schema.builder().with_registry(&registry).with_label(s("host"), s("0.0.0.0")).build().unwrap();
}

#[test]
fn it_works() {
    let fields = vec![
        MetricFieldSpec::new("http_requests_total", "IntCounter")
            .with_doc(" The total number of HTTP requests.")
            .with_rename("http_requests_total")
            .with_label("method")
            .with_label("path"),
        MetricFieldSpec::new("http_requests_duration", "Histogram")
            .with_doc(" The duration of HTTP requests.")
            .with_label("method")
            .with_label("path"),
        MetricFieldSpec::new("current_users", "IntGauge")
            .with_doc(" The current number of active users.")
            .with_rename("current_users")
            .with_label("service"),
    ];
    let schema = MetricsSchema::new(Some(s("app")), fields).unwrap();
    let registry = prometheus::default_registry();
    let app_metrics = schema
        .builder()
        .with_registry(registry)
        .with_label(s("host"), s("localhost"))
        .with_label(s("port"), s("8080"))
        .build()
        .unwrap();

    app_metrics
        .counter_fluent("http_requests_total")
        .unwrap()
        .label("method", s("GET"))
        .label("path", s("/"))
        .inc();

    app_metrics.counter_fluent("http_requests_total").unwrap().label("method", s("GET")).inc();

    app_metrics.counter_fluent("http_requests_total").unwrap().label("method", s("POST")).inc_by(2);

    app_metrics.gauge_fluent("current_users").unwrap().label("service", s("service-1")).set(10);
    app_metrics.gauge_fluent("current_users").unwrap().set(20);

    let duration = std::time::Duration::from_secs(1);
    let acc = app_metrics
        .histogram_fluent("http_requests_duration")
        .unwrap()
        .label("method", s("GET"))
        .label("path", s("/"));
    acc.cells().vec.with_label_values(acc.label_values()).observe(duration.as_secs_f64());

    let output = text_of(registry);
    println!("\n=== Prometheus Metrics Output ===\n{}", output);
}
