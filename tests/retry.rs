use nuccore_fetch::retry::{attempts_against, Retrier, RetryClass, Step};

#[test]
fn not_found_is_not_retried() {
    assert_eq!(attempts_against(&vec![404, 200, 200], 3), 1);
}

#[test]
fn repeated_unavailable_exhausts_budget() {
    assert_eq!(attempts_against(&vec![503; 10], 3), 4);
    assert_eq!(attempts_against(&vec![503; 10], 0), 1);
    assert_eq!(attempts_against(&vec![500; 10], 5), 6);
}

#[test]
fn transient_then_success_stops_at_success() {
    assert_eq!(attempts_against(&vec![503, 502, 200], 3), 3);
    assert_eq!(attempts_against(&vec![429, 200], 3), 2);
    assert_eq!(attempts_against(&vec![408, 404], 3), 2);
}

#[test]
fn success_and_redirect_are_final() {
    assert_eq!(attempts_against(&vec![200, 503], 3), 1);
    assert_eq!(attempts_against(&vec![301, 503], 3), 1);
}

#[test]
fn retrier_waits_until_budget_is_spent() {
    let mut r = Retrier::new(2);
    assert!(matches!(r.on_status(503), Step::Wait(_)));
    assert_eq!(r.attempts(), 1);
    assert!(matches!(r.on_status(500), Step::Wait(_)));
    assert_eq!(r.on_status(502), Step::Finish);
    assert_eq!(r.attempts(), 3);
}

#[test]
fn retrier_stops_on_out_of_range_status() {
    let mut r = Retrier::new(3);
    assert_eq!(r.on_status(50), Step::Finish);
    let mut r = Retrier::new(3);
    assert_eq!(r.on_status(1200), Step::Finish);
}

#[test]
fn retrier_by_class() {
    let mut r = Retrier::new(1);
    assert_eq!(r.on_class(RetryClass::Done), Step::Finish);
    let mut r = Retrier::new(1);
    assert_eq!(r.on_class(RetryClass::Fatal), Step::Finish);
    let mut r = Retrier::new(1);
    assert!(matches!(r.on_class(RetryClass::Transient), Step::Wait(_)));
    assert_eq!(r.on_class(RetryClass::Transient), Step::Finish);
}

#[test]
fn middleware_failure_is_not_retried() {
    let e = reqwest_middleware::Error::middleware(std::io::Error::new(
        std::io::ErrorKind::Other,
        "broken",
    ));
    let mut r = Retrier::new(3);
    assert_eq!(r.on_failure(&e), Step::Finish);
    assert_eq!(r.attempts(), 1);
}
