use ezytutor::service::health::HealthState;
use ezytutor::text::usize_to_string;

#[test]
fn decimal_rendering_is_exact() {
    assert_eq!(usize_to_string(0), "0");
    assert_eq!(usize_to_string(7), "7");
    assert_eq!(usize_to_string(10), "10");
    assert_eq!(usize_to_string(105), "105");
    assert_eq!(usize_to_string(98765), "98765");
    assert_eq!(usize_to_string(usize::MAX), usize::MAX.to_string());
}

#[test]
fn health_response_reports_count_before_increment() {
    let mut state = HealthState {
        health_check_response: "I'm good. You've already asked me".to_string(),
        visit_count: 0,
    };
    assert_eq!(state.health_check_handler(), "I'm good. You've already asked me 0 times");
    assert_eq!(state.health_check_handler(), "I'm good. You've already asked me 1 times");
    assert_eq!(state.visit_count, 2);
}

#[test]
fn health_counter_counts_every_call() {
    let mut state = HealthState {
        health_check_response: "ok".to_string(),
        visit_count: 0,
    };
    for _ in 0..100 {
        state.health_check_handler();
    }
    assert_eq!(state.visit_count, 100);
}
