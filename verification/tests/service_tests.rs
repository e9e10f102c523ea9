use hugo_server::algolia::{add_records_batch, algolia_headers, batch_url, clear_url, Record};
use hugo_server::config::AlgoliaConfig;
use hugo_server::log_filter::{filter_directive, is_metric_field_name, shows_in_logs};

fn algolia(app: &str, key: &str) -> AlgoliaConfig {
    AlgoliaConfig {
        records_file_name: "algolia.json".to_string(),
        application_id: app.to_string(),
        api_key: key.to_string(),
        index_name: "blog".to_string(),
    }
}

#[test]
fn algolia_endpoints() {
    let c = algolia("ABC123", "secret");
    assert_eq!(clear_url(&c), "https://ABC123.algolia.net/1/indexes/blog/clear");
    assert_eq!(batch_url(&c), "https://ABC123.algolia.net/1/indexes/blog/batch");
}

#[test]
fn algolia_headers_carry_the_credentials() {
    let h = algolia_headers(&algolia("ABC123", "secret")).ok().unwrap();
    let pairs: Vec<(String, String)> = h.into_iter().map(|h| (h.name, h.value)).collect();
    assert_eq!(
        pairs,
        vec![
            ("accept".to_string(), "application/json".to_string()),
            ("x-algolia-application-id".to_string(), "ABC123".to_string()),
            ("x-algolia-api-key".to_string(), "secret".to_string()),
        ]
    );
}

#[test]
fn control_characters_in_credentials_are_refused() {
    assert!(algolia_headers(&algolia("ABC\n123", "secret")).is_err());
    assert!(algolia_headers(&algolia("ABC123", "sec\u{7f}ret")).is_err());
    assert!(algolia_headers(&algolia("ABC123", "tab\tok")).is_ok());
}

fn record(id: &str) -> Record {
    Record {
        object_id: id.to_string(),
        permalink: format!("https://blog.example.com/{id}/"),
        title: id.to_uppercase(),
        content: "text".to_string(),
        date: "2024-01-01".to_string(),
        updated: "2024-01-02".to_string(),
    }
}

#[test]
fn every_record_is_added_in_order() {
    let b = add_records_batch(vec![record("a"), record("b"), record("c")]);
    assert_eq!(b.requests.len(), 3);
    let ids: Vec<&str> = b.requests.iter().map(|r| r.body.object_id.as_str()).collect();
    assert_eq!(ids, vec!["a", "b", "c"]);
    assert!(b.requests.iter().all(|r| r.action == "addObject"));
    assert!(add_records_batch(Vec::new()).requests.is_empty());
}

#[test]
fn log_filter_directive() {
    assert_eq!(filter_directive(true, "info", "hugo_server"), "none");
    assert_eq!(
        filter_directive(false, "debug", "hugo_server"),
        "hugo_server=debug,blog_server=debug,file_server=debug,tower_http=debug,axum::rejection=trace"
    );
}

#[test]
fn metric_fields_are_kept_out_of_logs() {
    assert!(is_metric_field_name("gauge.cpu"));
    assert!(is_metric_field_name("monotonic_counter.requests"));
    assert!(is_metric_field_name("counter.x"));
    assert!(is_metric_field_name("histogram.latency"));
    assert!(!is_metric_field_name("message"));
    assert!(!is_metric_field_name("gauge"));
    assert!(!shows_in_logs(true, &["gauge.cpu"]));
    assert!(shows_in_logs(true, &["gauge.cpu", "message"]));
    assert!(!shows_in_logs(true, &[]));
    assert!(shows_in_logs(false, &["gauge.cpu"]));
}
