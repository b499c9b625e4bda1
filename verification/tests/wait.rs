use bryndza::element::attributes::Attributes;
use bryndza::element::element::{Element, Rectangle};
use bryndza::error::BryndzaError;
use bryndza::units::{Millis, Permille};
use bryndza::wait::conditions::WaitConditions;
use bryndza::wait::strategy::WaitStrategy;
use bryndza::wait::{next_attempt, on_attempt, timeout_message, WaitDecision};

fn ms(millis: u64) -> Millis {
    Millis::from_millis(millis)
}

fn failed() -> Result<u8, BryndzaError> {
    Err(BryndzaError::element_not_found("id='x'"))
}

fn element(pairs: &[(&str, &str)], visible: bool, enabled: bool) -> Element {
    let mut attributes = Attributes::new();
    for (name, value) in pairs {
        attributes.insert(name.to_string(), value.to_string());
    }
    Element::new("e".to_string(), attributes, Rectangle::new(0, 0, 1, 1), visible, enabled)
}

fn not_yet<T>(verdict: Result<T, BryndzaError>) -> String {
    match verdict {
        Err(BryndzaError::Timeout { duration, condition }) => {
            assert_eq!(duration, ms(0));
            condition
        }
        _ => panic!("the verdict should have been a timeout of no duration"),
    }
}

#[test]
fn a_success_ends_the_wait_with_its_value() {
    let strategy = WaitStrategy::default();
    for elapsed in [0, 999, 1000, 5000] {
        match on_attempt(ms(1000), &strategy, 1, Ok(42u8), ms(elapsed)) {
            WaitDecision::Succeeded(value) => assert_eq!(value, 42),
            _ => panic!("the wait should have succeeded"),
        }
    }
}

#[test]
fn a_failure_at_the_deadline_times_out() {
    let strategy = WaitStrategy::default();
    match on_attempt(ms(1000), &strategy, 7, failed(), ms(1000)) {
        WaitDecision::TimedOut(BryndzaError::Timeout { duration, condition }) => {
            assert_eq!(duration, ms(1000));
            assert_eq!(condition, "Condition not met after 7 attempts");
        }
        _ => panic!("the wait should have timed out"),
    }
    assert!(matches!(
        on_attempt(ms(1000), &strategy, 1, failed(), ms(4000)),
        WaitDecision::TimedOut(BryndzaError::Timeout { .. })
    ));
    assert!(matches!(
        on_attempt(ms(0), &strategy, 1, failed(), ms(0)),
        WaitDecision::TimedOut(BryndzaError::Timeout { .. })
    ));
}

#[test]
fn a_failure_before_the_deadline_pauses_for_the_interval() {
    let strategy = WaitStrategy::fixed_interval(ms(100));
    match on_attempt(ms(1000), &strategy, 1, failed(), ms(0)) {
        WaitDecision::RetryAfter(pause) => assert_eq!(pause, ms(100)),
        _ => panic!("the wait should have paused"),
    }
    match on_attempt(ms(1000), &strategy, 3, failed(), ms(899)) {
        WaitDecision::RetryAfter(pause) => assert_eq!(pause, ms(100)),
        _ => panic!("the wait should have paused"),
    }
}

#[test]
fn a_pause_that_would_reach_the_deadline_is_skipped() {
    let strategy = WaitStrategy::fixed_interval(ms(100));
    assert!(matches!(
        on_attempt(ms(1000), &strategy, 3, failed(), ms(900)),
        WaitDecision::RetryNow
    ));
    assert!(matches!(
        on_attempt(ms(1000), &strategy, 3, failed(), ms(999)),
        WaitDecision::RetryNow
    ));
    let long = WaitStrategy::fixed_interval(ms(u64::MAX));
    assert!(matches!(on_attempt(ms(u64::MAX), &long, 3, failed(), ms(5)), WaitDecision::RetryNow));
}

#[test]
fn a_pause_is_never_shorter_than_a_millisecond() {
    let strategy = WaitStrategy::fixed_interval(ms(0));
    match on_attempt(ms(1000), &strategy, 1, failed(), ms(10)) {
        WaitDecision::RetryAfter(pause) => assert_eq!(pause, ms(1)),
        _ => panic!("the wait should have paused"),
    }
    assert!(matches!(
        on_attempt(ms(1000), &strategy, 1, failed(), ms(999)),
        WaitDecision::RetryNow
    ));
}

#[test]
fn the_pause_follows_the_strategy() {
    let strategy = WaitStrategy::exponential_backoff(ms(100), ms(2000), Permille::new(2000));
    let mut pauses = Vec::new();
    let mut attempt = 1;
    while attempt <= 6 {
        match on_attempt(ms(60000), &strategy, attempt, failed(), ms(0)) {
            WaitDecision::RetryAfter(pause) => pauses.push(pause.as_millis()),
            _ => panic!("the wait should have paused"),
        }
        attempt = next_attempt(attempt);
    }
    assert_eq!(pauses, vec![100, 200, 400, 800, 1600, 2000]);
}

#[test]
fn a_wait_stops_at_the_first_success() {
    // What each attempt shows: whether the condition holds, and the clock.
    let observations = [(false, 0), (false, 150), (true, 300), (true, 450)];
    let strategy = WaitStrategy::fixed_interval(ms(100));
    let mut attempt = 1;
    let mut tried = 0;
    let mut result = None;
    for (holds, elapsed) in observations {
        tried += 1;
        let outcome = if holds { Ok(tried) } else { failed().map(|_| 0) };
        match on_attempt(ms(1000), &strategy, attempt, outcome, ms(elapsed)) {
            WaitDecision::Succeeded(value) => {
                result = Some(value);
                break;
            }
            WaitDecision::TimedOut(_) => panic!("the wait should not have timed out"),
            WaitDecision::RetryNow | WaitDecision::RetryAfter(_) => {}
        }
        attempt = next_attempt(attempt);
    }
    assert_eq!(result, Some(3));
    assert_eq!(tried, 3);
}

#[test]
fn a_wait_times_out_even_if_the_condition_would_hold_later() {
    let observations = [(false, 0), (false, 1200), (true, 1300)];
    let strategy = WaitStrategy::fixed_interval(ms(100));
    let mut attempt = 1;
    let mut tried = 0;
    let mut message = None;
    for (holds, elapsed) in observations {
        tried += 1;
        let outcome = if holds { Ok(1u8) } else { failed() };
        match on_attempt(ms(1000), &strategy, attempt, outcome, ms(elapsed)) {
            WaitDecision::Succeeded(_) => panic!("the wait should not have succeeded"),
            WaitDecision::TimedOut(BryndzaError::Timeout { duration, condition }) => {
                assert_eq!(duration, ms(1000));
                message = Some(condition);
                break;
            }
            WaitDecision::TimedOut(_) => panic!("the error should have been a timeout"),
            WaitDecision::RetryNow | WaitDecision::RetryAfter(_) => {}
        }
        attempt = next_attempt(attempt);
    }
    assert_eq!(tried, 2);
    assert_eq!(message, Some("Condition not met after 2 attempts".to_string()));
}

#[test]
fn attempts_count_up_and_stop_at_the_largest_number() {
    assert_eq!(next_attempt(1), 2);
    assert_eq!(next_attempt(u32::MAX - 1), u32::MAX);
    assert_eq!(next_attempt(u32::MAX), u32::MAX);
    assert_eq!(timeout_message(1), "Condition not met after 1 attempts");
    assert_eq!(timeout_message(u32::MAX), "Condition not met after 4294967295 attempts");
}

#[test]
fn present_passes_the_search_on() {
    assert!(WaitConditions::element_present(Ok(element(&[], false, false))).is_ok());
    assert!(matches!(
        WaitConditions::element_present(Err(BryndzaError::element_not_found("x"))),
        Err(BryndzaError::ElementNotFound { .. })
    ));
}

#[test]
fn visible_and_clickable() {
    assert!(WaitConditions::element_visible(Ok(element(&[], true, false))).is_ok());
    match WaitConditions::element_visible(Ok(element(&[], false, true))) {
        Err(BryndzaError::ElementNotInteractable { reason }) => {
            assert_eq!(reason, "Element not visible")
        }
        _ => panic!("the element should not have been visible"),
    }
    assert!(matches!(
        WaitConditions::element_visible(Err(BryndzaError::session("s"))),
        Err(BryndzaError::SessionError { .. })
    ));
    assert!(WaitConditions::element_clickable(Ok(element(&[], true, true))).is_ok());
    for (visible, enabled) in [(true, false), (false, true), (false, false)] {
        match WaitConditions::element_clickable(Ok(element(&[], visible, enabled))) {
            Err(BryndzaError::ElementNotInteractable { reason }) => {
                assert_eq!(reason, "Element not clickable")
            }
            _ => panic!("the element should not have been clickable"),
        }
    }
    assert!(matches!(
        WaitConditions::element_clickable(Err(BryndzaError::element_not_found("x"))),
        Err(BryndzaError::ElementNotFound { .. })
    ));
}

#[test]
fn not_present_and_not_visible() {
    assert!(WaitConditions::element_not_present(Err(BryndzaError::element_not_found("x"))).is_ok());
    assert_eq!(
        not_yet(WaitConditions::element_not_present(Ok(element(&[], false, false)))),
        "Element still present"
    );
    assert!(matches!(
        WaitConditions::element_not_present(Err(BryndzaError::connection("c"))),
        Err(BryndzaError::ConnectionError { .. })
    ));
    assert!(WaitConditions::element_not_visible(Err(BryndzaError::element_not_found("x"))).is_ok());
    assert!(WaitConditions::element_not_visible(Ok(element(&[], false, true))).is_ok());
    assert_eq!(
        not_yet(WaitConditions::element_not_visible(Ok(element(&[], true, true)))),
        "Element still visible"
    );
    assert!(matches!(
        WaitConditions::element_not_visible(Err(BryndzaError::connection("c"))),
        Err(BryndzaError::ConnectionError { .. })
    ));
}

#[test]
fn text_contains_and_equals() {
    let hello = || Ok(element(&[("text", "Hello world")], true, true));
    assert!(WaitConditions::element_text_contains(hello(), "lo wo").is_ok());
    assert!(WaitConditions::element_text_contains(hello(), "").is_ok());
    assert_eq!(
        not_yet(WaitConditions::element_text_contains(hello(), "bye")),
        "Element text 'Hello world' does not contain 'bye'"
    );
    assert_eq!(
        not_yet(WaitConditions::element_text_contains(Ok(element(&[], true, true)), "x")),
        "Element has no text content"
    );
    assert!(matches!(
        WaitConditions::element_text_contains(Err(BryndzaError::element_not_found("x")), "x"),
        Err(BryndzaError::ElementNotFound { .. })
    ));
    assert!(WaitConditions::element_text_equals(hello(), "Hello world").is_ok());
    assert_eq!(
        not_yet(WaitConditions::element_text_equals(hello(), "Hello")),
        "Element text 'Hello world' does not equal 'Hello'"
    );
    assert_eq!(
        not_yet(WaitConditions::element_text_equals(Ok(element(&[], true, true)), "x")),
        "Element has no text content"
    );
    assert!(matches!(
        WaitConditions::element_text_equals(Err(BryndzaError::element_not_found("x")), "x"),
        Err(BryndzaError::ElementNotFound { .. })
    ));
}

#[test]
fn attribute_equals() {
    let one = || Ok(element(&[("state", "on")], true, true));
    assert!(WaitConditions::element_attribute_equals(one(), "state", "on").is_ok());
    assert_eq!(
        not_yet(WaitConditions::element_attribute_equals(one(), "state", "off")),
        "Attribute 'state' value 'on' does not equal 'off'"
    );
    assert_eq!(
        not_yet(WaitConditions::element_attribute_equals(one(), "State", "on")),
        "Element does not have attribute 'State'"
    );
    assert!(matches!(
        WaitConditions::element_attribute_equals(Err(BryndzaError::session("s")), "a", "b"),
        Err(BryndzaError::SessionError { .. })
    ));
}

#[test]
fn counts() {
    let two = || Ok(vec![element(&[], true, true), element(&[], true, true)]);
    assert_eq!(WaitConditions::element_count_equals(two(), 2).unwrap().len(), 2);
    assert_eq!(
        not_yet(WaitConditions::element_count_equals(two(), 3)),
        "Expected 3 elements, found 2"
    );
    assert_eq!(
        not_yet(WaitConditions::element_count_equals(Ok(vec![]), 1)),
        "Expected 1 elements, found 0"
    );
    assert!(WaitConditions::element_count_equals(Ok(vec![]), 0).unwrap().is_empty());
    assert_eq!(WaitConditions::element_count_at_least(two(), 2).unwrap().len(), 2);
    assert_eq!(WaitConditions::element_count_at_least(two(), 0).unwrap().len(), 2);
    assert_eq!(
        not_yet(WaitConditions::element_count_at_least(two(), 3)),
        "Expected at least 3 elements, found 2"
    );
    assert!(matches!(
        WaitConditions::element_count_equals(Err(BryndzaError::session("s")), 2),
        Err(BryndzaError::SessionError { .. })
    ));
    assert!(matches!(
        WaitConditions::element_count_at_least(Err(BryndzaError::session("s")), 2),
        Err(BryndzaError::SessionError { .. })
    ));
}

#[test]
fn custom_condition() {
    assert!(WaitConditions::custom_condition(Ok(true)).is_ok());
    assert_eq!(not_yet(WaitConditions::custom_condition(Ok(false))), "Custom condition not met");
    assert!(matches!(
        WaitConditions::custom_condition(Err(BryndzaError::configuration("c"))),
        Err(BryndzaError::ConfigurationError { .. })
    ));
}
