use http_profiler::profile_result::ProfileResult;
use http_profiler::profile_result::Sample;
use http_profiler::status_code::StatusCode;

fn sample(time_ms: usize, byte_count: usize, status: StatusCode) -> Sample {
    Sample { time_ms, byte_count, status }
}

#[test]
fn aggregates_three_samples() {
    let samples = vec![
        sample(5, 10, StatusCode::Okay),
        sample(1, 20, StatusCode::NotFound),
        sample(3, 30, StatusCode::Okay),
    ];
    let r = ProfileResult::from_samples("http://example.com".to_string(), &samples);
    assert_eq!(r.url, "http://example.com".to_string());
    assert_eq!(r.num_requests, 3);
    assert_eq!(r.fastest_time_ms, 1);
    assert_eq!(r.slowest_time_ms, 5);
    assert_eq!(r.mean_time_ms, 3);
    assert_eq!(r.median_time_ms, 3);
    assert_eq!(r.success_count, 2);
    assert_eq!(r.smallest_response_bytes, 10);
    assert_eq!(r.largest_response_bytes, 30);
    assert_eq!(r.error_codes, vec![StatusCode::NotFound]);
}

#[test]
fn median_is_upper_middle_for_even_counts() {
    let samples = vec![
        sample(4, 1, StatusCode::Okay),
        sample(1, 1, StatusCode::Okay),
        sample(3, 1, StatusCode::Okay),
        sample(2, 1, StatusCode::Okay),
    ];
    let r = ProfileResult::from_samples("u".to_string(), &samples);
    assert_eq!(r.median_time_ms, 3);
    assert_eq!(r.mean_time_ms, 2);
}

#[test]
fn single_sample_times_coincide() {
    let samples = vec![sample(7, 42, StatusCode::NotFound)];
    let r = ProfileResult::from_samples("u".to_string(), &samples);
    assert_eq!(r.num_requests, 1);
    assert_eq!(r.fastest_time_ms, 7);
    assert_eq!(r.slowest_time_ms, 7);
    assert_eq!(r.mean_time_ms, 7);
    assert_eq!(r.median_time_ms, 7);
    assert_eq!(r.success_count, 0);
    assert_eq!(r.error_codes, vec![StatusCode::NotFound]);
}

#[test]
fn all_successes_give_full_ratio_and_no_error_codes() {
    let mut samples = Vec::new();
    for i in 0..10 {
        samples.push(sample(i + 1, 100, StatusCode::Okay));
    }
    let r = ProfileResult::from_samples("http://example.com/links".to_string(), &samples);
    assert_eq!(r.num_requests, 10);
    assert_eq!(r.success_count, 10);
    assert!(r.error_codes.is_empty());
    let ratio = r.success_count as f64 / r.num_requests as f64;
    assert!(ratio == 1.0);
}

#[test]
fn success_ratio_is_exact() {
    let samples = vec![
        sample(1, 1, StatusCode::Okay),
        sample(2, 1, StatusCode::BadGateway),
        sample(3, 1, StatusCode::NotFound),
        sample(4, 1, StatusCode::ServiceUnavailable),
    ];
    let r = ProfileResult::from_samples("u".to_string(), &samples);
    assert_eq!(r.success_count, 1);
    let ratio = r.success_count as f64 / r.num_requests as f64;
    assert!(ratio == 0.25);
    assert_eq!(
        r.error_codes,
        vec![StatusCode::BadGateway, StatusCode::NotFound, StatusCode::ServiceUnavailable]
    );
}

#[test]
fn time_order_holds_on_a_spread() {
    let samples = vec![
        sample(9, 5, StatusCode::Okay),
        sample(2, 8, StatusCode::Okay),
        sample(6, 2, StatusCode::Okay),
        sample(2, 9, StatusCode::Okay),
        sample(11, 4, StatusCode::Okay),
    ];
    let r = ProfileResult::from_samples("u".to_string(), &samples);
    assert!(r.fastest_time_ms <= r.median_time_ms);
    assert!(r.median_time_ms <= r.slowest_time_ms);
    assert!(r.fastest_time_ms <= r.mean_time_ms);
    assert!(r.mean_time_ms <= r.slowest_time_ms);
    assert_eq!(r.fastest_time_ms, 2);
    assert_eq!(r.slowest_time_ms, 11);
    assert_eq!(r.median_time_ms, 6);
    assert_eq!(r.mean_time_ms, 6);
    assert_eq!(r.smallest_response_bytes, 2);
    assert_eq!(r.largest_response_bytes, 9);
}
