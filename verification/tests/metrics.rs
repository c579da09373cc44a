use json_validator::envelope::{JsonResponse, Rendering};
use json_validator::metrics::{metrics, AppMetrics};

fn success() -> JsonResponse {
    JsonResponse::rendered("null".to_string())
}

fn failure() -> JsonResponse {
    JsonResponse::empty_input()
}

#[test]
fn new_counters_are_zero() {
    let counters = AppMetrics::new();
    assert_eq!(counters.requests_total, 0);
    assert_eq!(counters.format_requests, 0);
    assert_eq!(counters.minify_requests, 0);
    assert_eq!(counters.errors_total, 0);
}

#[test]
fn record_counts_by_kind_and_by_failure() {
    let mut counters = AppMetrics::new();
    counters.record(Rendering::Pretty, &success());
    assert_eq!(
        counters,
        AppMetrics { requests_total: 1, format_requests: 1, minify_requests: 0, errors_total: 0 }
    );
    counters.record(Rendering::Compact, &failure());
    assert_eq!(
        counters,
        AppMetrics { requests_total: 2, format_requests: 1, minify_requests: 1, errors_total: 1 }
    );
    counters.record(Rendering::Pretty, &JsonResponse::invalid("x"));
    counters.record(Rendering::Pretty, &JsonResponse::unrendered(Rendering::Pretty, "x"));
    counters.record(Rendering::Compact, &success());
    assert_eq!(
        counters,
        AppMetrics { requests_total: 5, format_requests: 3, minify_requests: 2, errors_total: 3 }
    );
}

#[test]
fn counters_never_decrease_while_below_the_maximum() {
    let mut counters = AppMetrics::new();
    for step in 0..200u32 {
        let before = counters;
        let kind = if step % 3 == 0 { Rendering::Compact } else { Rendering::Pretty };
        let response = if step % 5 == 0 { failure() } else { success() };
        counters.record(kind, &response);
        assert!(counters.requests_total > before.requests_total);
        assert!(counters.format_requests >= before.format_requests);
        assert!(counters.minify_requests >= before.minify_requests);
        assert!(counters.errors_total >= before.errors_total);
    }
    assert_eq!(
        counters,
        AppMetrics {
            requests_total: 200,
            format_requests: 133,
            minify_requests: 67,
            errors_total: 40,
        }
    );
}

#[test]
fn counters_wrap_at_the_maximum() {
    let mut counters = AppMetrics {
        requests_total: u64::MAX,
        format_requests: u64::MAX - 1,
        minify_requests: u64::MAX,
        errors_total: u64::MAX,
    };
    counters.record(Rendering::Pretty, &failure());
    assert_eq!(
        counters,
        AppMetrics {
            requests_total: 0,
            format_requests: u64::MAX,
            minify_requests: u64::MAX,
            errors_total: 0,
        }
    );
    counters.record(Rendering::Compact, &success());
    assert_eq!(
        counters,
        AppMetrics {
            requests_total: 1,
            format_requests: u64::MAX,
            minify_requests: 0,
            errors_total: 0,
        }
    );
}

#[test]
fn exposition_of_fresh_counters() {
    assert_eq!(
        metrics(&AppMetrics::new()),
        "# HELP requests_total Total number of requests\n\
         # TYPE requests_total counter\n\
         requests_total 0\n\
         # HELP format_requests_total Total number of format requests\n\
         # TYPE format_requests_total counter\n\
         format_requests_total 0\n\
         # HELP minify_requests_total Total number of minify requests\n\
         # TYPE minify_requests_total counter\n\
         minify_requests_total 0\n\
         # HELP errors_total Total number of errors\n\
         # TYPE errors_total counter\n\
         errors_total 0\n"
    );
}

#[test]
fn exposition_shows_each_value_in_decimal() {
    let counters = AppMetrics {
        requests_total: u64::MAX,
        format_requests: 1205,
        minify_requests: 10,
        errors_total: 7,
    };
    let expected = format!(
        "# HELP requests_total Total number of requests\n\
         # TYPE requests_total counter\n\
         requests_total {}\n\
         # HELP format_requests_total Total number of format requests\n\
         # TYPE format_requests_total counter\n\
         format_requests_total {}\n\
         # HELP minify_requests_total Total number of minify requests\n\
         # TYPE minify_requests_total counter\n\
         minify_requests_total {}\n\
         # HELP errors_total Total number of errors\n\
         # TYPE errors_total counter\n\
         errors_total {}\n",
        18446744073709551615u64, 1205, 10, 7
    );
    assert_eq!(metrics(&counters), expected);
}

#[test]
fn exposition_has_three_lines_per_counter() {
    let text = metrics(&AppMetrics::new());
    let lines: Vec<&str> = text.lines().collect();
    assert_eq!(lines.len(), 12);
    for block in lines.chunks(3) {
        let name = block[2].split(' ').next().unwrap();
        assert!(block[0].starts_with(&format!("# HELP {} ", name)));
        assert_eq!(block[1], format!("# TYPE {} counter", name));
        assert_eq!(block[2], format!("{} 0", name));
    }
}
