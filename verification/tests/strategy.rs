use bryndza::units::{Millis, Permille};
use bryndza::wait::scaling::scale_capped;
use bryndza::wait::strategy::{fibonacci, WaitStrategy, WaitStrategyType};

#[test]
fn test_fixed_interval_strategy() {
    let strategy = WaitStrategy::fixed_interval(Millis::from_millis(500));

    assert_eq!(
        strategy.next_interval(1, Millis::from_secs(0), Millis::from_secs(10)),
        Millis::from_millis(500)
    );

    assert_eq!(
        strategy.next_interval(5, Millis::from_secs(2), Millis::from_secs(10)),
        Millis::from_millis(500)
    );
}

#[test]
fn test_exponential_backoff_strategy() {
    let strategy = WaitStrategy::exponential_backoff(
        Millis::from_millis(100),
        Millis::from_millis(2000),
        Permille::new(2000),
    );

    assert_eq!(
        strategy.next_interval(1, Millis::from_secs(0), Millis::from_secs(10)),
        Millis::from_millis(100)
    );

    assert_eq!(
        strategy.next_interval(2, Millis::from_secs(0), Millis::from_secs(10)),
        Millis::from_millis(200)
    );

    assert_eq!(
        strategy.next_interval(3, Millis::from_secs(0), Millis::from_secs(10)),
        Millis::from_millis(400)
    );

    // Should cap at max_interval
    assert_eq!(
        strategy.next_interval(10, Millis::from_secs(0), Millis::from_secs(60)),
        Millis::from_millis(2000)
    );
}

#[test]
fn test_fibonacci_sequence() {
    assert_eq!(fibonacci(0), 0);
    assert_eq!(fibonacci(1), 1);
    assert_eq!(fibonacci(2), 1);
    assert_eq!(fibonacci(3), 2);
    assert_eq!(fibonacci(4), 3);
    assert_eq!(fibonacci(5), 5);
    assert_eq!(fibonacci(6), 8);
    assert_eq!(fibonacci(7), 13);
}

#[test]
fn test_fibonacci_backoff_strategy() {
    let strategy = WaitStrategy::fibonacci_backoff(
        Millis::from_millis(50),
        Millis::from_millis(1000),
    );

    assert_eq!(
        strategy.next_interval(1, Millis::from_secs(0), Millis::from_secs(10)),
        Millis::from_millis(50) // 50 * 1
    );

    assert_eq!(
        strategy.next_interval(2, Millis::from_secs(0), Millis::from_secs(10)),
        Millis::from_millis(50) // 50 * 1
    );

    assert_eq!(
        strategy.next_interval(3, Millis::from_secs(0), Millis::from_secs(10)),
        Millis::from_millis(100) // 50 * 2
    );

    assert_eq!(
        strategy.next_interval(4, Millis::from_secs(0), Millis::from_secs(10)),
        Millis::from_millis(150) // 50 * 3
    );

    assert_eq!(
        strategy.next_interval(5, Millis::from_secs(0), Millis::from_secs(10)),
        Millis::from_millis(250) // 50 * 5
    );
}

#[test]
fn fibonacci_reaches_the_last_value_that_fits() {
    assert_eq!(fibonacci(93), 12200160415121876738);
    assert_eq!(fibonacci(92), 7540113804746346429);
}

#[test]
fn fibonacci_backoff_is_capped_for_every_later_attempt() {
    let strategy =
        WaitStrategy::fibonacci_backoff(Millis::from_millis(50), Millis::from_millis(1000));
    let zero = Millis::from_millis(0);
    assert_eq!(strategy.next_interval(8, zero, zero), Millis::from_millis(1000));
    assert_eq!(strategy.next_interval(94, zero, zero), Millis::from_millis(1000));
    assert_eq!(strategy.next_interval(u32::MAX, zero, zero), Millis::from_millis(1000));
}

#[test]
fn fibonacci_backoff_of_nothing_is_nothing() {
    let strategy =
        WaitStrategy::fibonacci_backoff(Millis::from_millis(0), Millis::from_millis(1000));
    let zero = Millis::from_millis(0);
    assert_eq!(strategy.next_interval(200, zero, zero), Millis::from_millis(0));
}

#[test]
fn linear_backoff_grows_by_the_initial_interval() {
    let strategy = WaitStrategy::linear_backoff(Millis::from_millis(100), Millis::from_millis(450));
    let zero = Millis::from_millis(0);
    assert_eq!(strategy.next_interval(1, zero, zero), Millis::from_millis(100));
    assert_eq!(strategy.next_interval(2, zero, zero), Millis::from_millis(200));
    assert_eq!(strategy.next_interval(4, zero, zero), Millis::from_millis(400));
    assert_eq!(strategy.next_interval(5, zero, zero), Millis::from_millis(450));
    assert_eq!(strategy.next_interval(u32::MAX, zero, zero), Millis::from_millis(450));
}

#[test]
fn linear_backoff_does_not_overflow() {
    let strategy =
        WaitStrategy::linear_backoff(Millis::from_millis(u64::MAX), Millis::from_millis(u64::MAX));
    let zero = Millis::from_millis(0);
    assert_eq!(strategy.next_interval(u32::MAX, zero, zero), Millis::from_millis(u64::MAX));
}

#[test]
fn fixed_interval_is_not_capped() {
    let strategy = WaitStrategy {
        initial_interval: Millis::from_millis(700),
        max_interval: Millis::from_millis(100),
        backoff_multiplier: Permille::new(1000),
        strategy_type: WaitStrategyType::FixedInterval,
    };
    let zero = Millis::from_millis(0);
    assert_eq!(strategy.next_interval(3, zero, zero), Millis::from_millis(700));
}

#[test]
fn exponential_backoff_rounds_down_once() {
    // 100 * 1.5^4 = 506.25
    let strategy = WaitStrategy::exponential_backoff(
        Millis::from_millis(100),
        Millis::from_millis(100000),
        Permille::new(1500),
    );
    let zero = Millis::from_millis(0);
    assert_eq!(strategy.next_interval(1, zero, zero), Millis::from_millis(100));
    assert_eq!(strategy.next_interval(2, zero, zero), Millis::from_millis(150));
    assert_eq!(strategy.next_interval(3, zero, zero), Millis::from_millis(225));
    assert_eq!(strategy.next_interval(4, zero, zero), Millis::from_millis(337));
    assert_eq!(strategy.next_interval(5, zero, zero), Millis::from_millis(506));
    assert_eq!(strategy.next_interval(6, zero, zero), Millis::from_millis(759));
}

#[test]
fn exponential_backoff_plateaus_for_large_attempts() {
    let strategy = WaitStrategy::exponential_backoff(
        Millis::from_millis(100),
        Millis::from_millis(2000),
        Permille::new(2000),
    );
    let zero = Millis::from_millis(0);
    assert_eq!(strategy.next_interval(6, zero, zero), Millis::from_millis(2000));
    assert_eq!(strategy.next_interval(1000, zero, zero), Millis::from_millis(2000));
    assert_eq!(strategy.next_interval(u32::MAX, zero, zero), Millis::from_millis(2000));
}

#[test]
fn exponential_backoff_with_a_ratio_below_one_shrinks_to_nothing() {
    let strategy = WaitStrategy::exponential_backoff(
        Millis::from_millis(100),
        Millis::from_millis(2000),
        Permille::new(500),
    );
    let zero = Millis::from_millis(0);
    assert_eq!(strategy.next_interval(2, zero, zero), Millis::from_millis(50));
    assert_eq!(strategy.next_interval(3, zero, zero), Millis::from_millis(25));
    assert_eq!(strategy.next_interval(4, zero, zero), Millis::from_millis(12));
    assert_eq!(strategy.next_interval(8, zero, zero), Millis::from_millis(0));
    assert_eq!(strategy.next_interval(u32::MAX, zero, zero), Millis::from_millis(0));
}

#[test]
fn scaling_is_exact_beyond_one_machine_word() {
    // 3^50 / 2^50 = 637621500.21...; the powers of 1500 and 1000 are far
    // beyond 128 bits here.
    assert_eq!(scale_capped(1, 1500, 50, u64::MAX), 637621500);
    // 1.001^1000 = 2.7169239...
    assert_eq!(scale_capped(1_000_000_000, 1001, 1000, u64::MAX), 2716923932);
    assert_eq!(scale_capped(7, 1000, 123456, u64::MAX), 7);
    assert_eq!(scale_capped(7, 0, 3, u64::MAX), 0);
    assert_eq!(scale_capped(7, 0, 0, u64::MAX), 7);
    assert_eq!(scale_capped(u64::MAX, 4_000_000_000, 2, u64::MAX), u64::MAX);
    assert_eq!(scale_capped(9, 3000, 2, 50), 50);
    assert_eq!(scale_capped(9, 3000, 2, 81), 81);
    assert_eq!(scale_capped(9, 3000, 2, 100), 81);
}

#[test]
fn next_interval_is_the_same_for_the_same_inputs() {
    let strategy = WaitStrategy::exponential_backoff(
        Millis::from_millis(30),
        Millis::from_millis(5000),
        Permille::new(1700),
    );
    let first = strategy.next_interval(7, Millis::from_millis(1), Millis::from_millis(2));
    let second = strategy.next_interval(7, Millis::from_millis(900), Millis::from_millis(1000));
    assert_eq!(first, second);
}

#[test]
fn default_strategy_is_a_fixed_tenth_of_a_second() {
    let strategy = WaitStrategy::default();
    assert_eq!(strategy.strategy_type, WaitStrategyType::FixedInterval);
    assert_eq!(strategy.initial_interval, Millis::from_millis(100));
    assert_eq!(strategy.max_interval, Millis::from_millis(1000));
    assert_eq!(strategy.backoff_multiplier, Permille::new(1500));
    let zero = Millis::from_millis(0);
    assert_eq!(strategy.next_interval(9, zero, zero), Millis::from_millis(100));
}
