use shortlink::metrics::{route_label, MetricsCollector};

#[test]
fn every_request_to_a_route_is_counted() {
    let mut c = MetricsCollector::new();
    let m = 3u64;
    for i in 0..m {
        c.observe(String::from("GET"), String::from("/api/links/{code}"), 307, 100 + i);
    }
    c.observe(String::from("POST"), String::from("/api/links/"), 201, 900);

    assert_eq!(c.counter("GET", "/api/links/{code}", 307), m);
    assert_eq!(c.duration_count("GET", "/api/links/{code}", 307), m);
    assert_eq!(c.counter("POST", "/api/links/", 201), 1);
    assert_eq!(c.duration_count("POST", "/api/links/", 201), 1);
}

#[test]
fn labels_are_distinguished() {
    let mut c = MetricsCollector::new();
    c.observe(String::from("GET"), String::from("/x"), 200, 10);
    c.observe(String::from("GET"), String::from("/x"), 404, 10);
    c.observe(String::from("POST"), String::from("/x"), 200, 10);
    assert_eq!(c.counter("GET", "/x", 200), 1);
    assert_eq!(c.counter("GET", "/x", 404), 1);
    assert_eq!(c.counter("POST", "/x", 200), 1);
    assert_eq!(c.counter("GET", "/y", 200), 0);
    assert_eq!(c.counter("PUT", "/x", 200), 0);
}

#[test]
fn counters_never_decrease() {
    let mut c = MetricsCollector::new();
    let mut last = 0u64;
    for _ in 0..10 {
        c.observe(String::from("GET"), String::from("/mono"), 200, 5);
        let now = c.counter("GET", "/mono", 200);
        assert!(now >= last);
        assert_eq!(now, last + 1);
        last = now;
    }
}

#[test]
fn snapshot_reports_counter_and_histogram_lines() {
    let mut c = MetricsCollector::new();
    c.observe(String::from("GET"), String::from("/x"), 200, 1500);
    c.observe(String::from("GET"), String::from("/x"), 200, 2500);
    let text = c.render();
    let expected = "http_requests_total{method=\"GET\",path=\"/x\",status=\"200\"} 2\nhttp_requests_duration_micros_count{method=\"GET\",path=\"/x\",status=\"200\"} 2\n";
    assert_eq!(text, expected);
}

#[test]
fn empty_collector_renders_nothing_and_counts_zero() {
    let c = MetricsCollector::new();
    assert_eq!(c.render(), "");
    assert_eq!(c.counter("GET", "/", 200), 0);
    assert_eq!(c.duration_count("GET", "/", 200), 0);
}

#[test]
fn route_label_prefers_matched_template() {
    let label = route_label(
        Some(String::from("/api/links/{code}")),
        String::from("/api/links/promo"),
    );
    assert_eq!(label, "/api/links/{code}");
}

#[test]
fn route_label_falls_back_to_raw_path() {
    let label = route_label(None, String::from("/nothing/matched"));
    assert_eq!(label, "/nothing/matched");
}

#[test]
fn snapshot_lists_label_sets_in_first_observation_order() {
    let mut c = MetricsCollector::new();
    c.observe(String::from("POST"), String::from("/api/links/"), 201, 700);
    c.observe(String::from("GET"), String::from("/api/links/{code}"), 307, 90);
    c.observe(String::from("POST"), String::from("/api/links/"), 201, 800);
    let text = c.render();
    let expected = "http_requests_total{method=\"POST\",path=\"/api/links/\",status=\"201\"} 2\nhttp_requests_duration_micros_count{method=\"POST\",path=\"/api/links/\",status=\"201\"} 2\nhttp_requests_total{method=\"GET\",path=\"/api/links/{code}\",status=\"307\"} 1\nhttp_requests_duration_micros_count{method=\"GET\",path=\"/api/links/{code}\",status=\"307\"} 1\n";
    assert_eq!(text, expected);
}
