//! Backoff strategies: how long to pause between two attempts of a wait.
//!
//! | strategy | interval before the cap | cap |
//! |---|---|---|
//! | `FixedInterval` | the initial interval | none |
//! | `ExponentialBackoff` | initial × multiplier<sup>attempt − 1</sup> | the maximum interval |
//! | `LinearBackoff` | initial × attempt | the maximum interval |
//! | `FibonacciBackoff` | initial × fib(attempt) | the maximum interval |
//!
//! Intervals are whole milliseconds; the exponential product is rounded down
//! once, at the end.

use vstd::prelude::*;
use crate::units::{Millis, Permille};
use crate::wait::scaling::{at_most, lemma_scaled_exceeds, scale_capped, scaled};

verus! {

/// The kinds of backoff.
#[derive(Debug, Clone, Copy, PartialEq, Eq, Structural)]
pub enum WaitStrategyType {
    /// The same interval after every attempt.
    FixedInterval,
    /// The interval is multiplied by a constant after every attempt.
    ExponentialBackoff,
    /// The interval grows by the initial interval after every attempt.
    LinearBackoff,
    /// The interval follows the Fibonacci numbers.
    FibonacciBackoff,
}

/// How a wait spaces its attempts.
#[derive(Debug, Clone, Copy, PartialEq, Eq, Structural)]
pub struct WaitStrategy {
    /// The interval after the first attempt.
    pub initial_interval: Millis,
    /// The longest interval of a backoff.
    pub max_interval: Millis,
    /// The factor of an exponential backoff.
    pub backoff_multiplier: Permille,
    /// The kind of backoff.
    pub strategy_type: WaitStrategyType,
}

/// The Fibonacci numbers: 0, 1, 1, 2, 3, 5, 8, ...
pub open spec fn spec_fibonacci(n: nat) -> nat
    decreases n,
{
    if n == 0 {
        0
    } else if n == 1 {
        1
    } else {
        spec_fibonacci((n - 1) as nat) + spec_fibonacci((n - 2) as nat)
    }
}

proof fn lemma_fibonacci_grows(low: nat, high: nat)
    requires
        low <= high,
    ensures
        spec_fibonacci(low) <= spec_fibonacci(high),
    decreases high,
{
    if low < high {
        if high == 1 {
        } else {
            lemma_fibonacci_grows(low, (high - 1) as nat);
        }
    }
}

/// The `n`-th Fibonacci number, for every `n` whose number fits 64 bits
/// (that is, up to the 93rd).
pub fn fibonacci(n: u32) -> (value: u64)
    requires
        spec_fibonacci(n as nat) <= u64::MAX,
    ensures
        value == spec_fibonacci(n as nat),
{
    if n == 0 {
        return 0;
    }
    let mut previous: u64 = 0;
    let mut current: u64 = 1;
    let mut index: u32 = 1;
    while index < n
        invariant
            1 <= index <= n,
            previous == spec_fibonacci((index - 1) as nat),
            current == spec_fibonacci(index as nat),
            spec_fibonacci(n as nat) <= u64::MAX,
        decreases n - index,
    {
        proof {
            lemma_fibonacci_grows((index + 1) as nat, n as nat);
        }
        let next = previous + current;
        previous = current;
        current = next;
        index += 1;
    }
    current
}

/// `initial` times the `attempt`-th Fibonacci number, or `cap` where that is
/// smaller.
fn fibonacci_interval(initial: u64, attempt: u32, cap: u64) -> (interval: u64)
    ensures
        interval == at_most(initial as nat * spec_fibonacci(attempt as nat), cap as nat),
{
    if attempt == 0 || initial == 0 {
        proof {
            assert(initial * spec_fibonacci(attempt as nat) == 0) by (nonlinear_arith)
                requires
                    initial == 0 || spec_fibonacci(attempt as nat) == 0,
            ;
        }
        return 0;
    }
    let mut previous: u64 = 0;
    let mut current: u64 = 1;
    let mut index: u32 = 1;
    while index < attempt
        invariant
            1 <= index <= attempt,
            initial >= 1,
            previous == spec_fibonacci((index - 1) as nat),
            current == spec_fibonacci(index as nat),
        decreases attempt - index,
    {
        let next: u128 = previous as u128 + current as u128;
        if next > cap as u128 {
            proof {
                lemma_fibonacci_grows((index + 1) as nat, attempt as nat);
                assert(initial * spec_fibonacci(attempt as nat) > cap) by (nonlinear_arith)
                    requires
                        initial >= 1,
                        spec_fibonacci(attempt as nat) > cap,
                ;
            }
            return cap;
        }
        previous = current;
        current = next as u64;
        index += 1;
    }
    assert(initial as u128 * current as u128 <= 0xFFFF_FFFF_FFFF_FFFE_0000_0000_0000_0001u128)
        by (nonlinear_arith)
        requires
            initial <= 0xFFFF_FFFF_FFFF_FFFFu64,
            current <= 0xFFFF_FFFF_FFFF_FFFFu64,
    ;
    let product: u128 = initial as u128 * current as u128;
    if product <= cap as u128 {
        product as u64
    } else {
        cap
    }
}

impl WaitStrategy {
    /// The number of times that an exponential backoff has multiplied its
    /// interval when it is asked after the given attempt.
    pub open spec fn growth_steps(attempt: nat) -> nat {
        (attempt - 1) as nat
    }

    /// The interval to pause after the given attempt, in milliseconds.
    pub open spec fn spec_next_interval(self, attempt: nat) -> nat {
        let initial = self.initial_interval.millis as nat;
        let cap = self.max_interval.millis as nat;
        match self.strategy_type {
            WaitStrategyType::FixedInterval => initial,
            WaitStrategyType::ExponentialBackoff => at_most(
                scaled(
                    initial,
                    self.backoff_multiplier.thousandths as nat,
                    Self::growth_steps(attempt),
                ),
                cap,
            ),
            WaitStrategyType::LinearBackoff => at_most(initial * attempt, cap),
            WaitStrategyType::FibonacciBackoff => at_most(initial * spec_fibonacci(attempt), cap),
        }
    }

    /// The same interval after every attempt.
    pub fn fixed_interval(interval: Millis) -> (strategy: Self)
        ensures
            strategy == (WaitStrategy {
                initial_interval: interval,
                max_interval: interval,
                backoff_multiplier: Permille { thousandths: 1000 },
                strategy_type: WaitStrategyType::FixedInterval,
            }),
    {
        WaitStrategy {
            initial_interval: interval,
            max_interval: interval,
            backoff_multiplier: Permille::new(1000),
            strategy_type: WaitStrategyType::FixedInterval,
        }
    }

    /// An interval that starts at `initial_interval`, is multiplied by
    /// `multiplier` after every attempt and never exceeds `max_interval`.
    pub fn exponential_backoff(
        initial_interval: Millis,
        max_interval: Millis,
        multiplier: Permille,
    ) -> (strategy: Self)
        ensures
            strategy == (WaitStrategy {
                initial_interval,
                max_interval,
                backoff_multiplier: multiplier,
                strategy_type: WaitStrategyType::ExponentialBackoff,
            }),
    {
        WaitStrategy {
            initial_interval,
            max_interval,
            backoff_multiplier: multiplier,
            strategy_type: WaitStrategyType::ExponentialBackoff,
        }
    }

    /// An interval that starts at `initial_interval`, grows by as much after
    /// every attempt and never exceeds `max_interval`.
    pub fn linear_backoff(initial_interval: Millis, max_interval: Millis) -> (strategy: Self)
        ensures
            strategy == (WaitStrategy {
                initial_interval,
                max_interval,
                backoff_multiplier: Permille { thousandths: 1000 },
                strategy_type: WaitStrategyType::LinearBackoff,
            }),
    {
        WaitStrategy {
            initial_interval,
            max_interval,
            backoff_multiplier: Permille::new(1000),
            strategy_type: WaitStrategyType::LinearBackoff,
        }
    }

    /// An interval of `initial_interval` times the Fibonacci number of the
    /// attempt, which never exceeds `max_interval`.
    pub fn fibonacci_backoff(initial_interval: Millis, max_interval: Millis) -> (strategy: Self)
        ensures
            strategy == (WaitStrategy {
                initial_interval,
                max_interval,
                backoff_multiplier: Permille { thousandths: 1000 },
                strategy_type: WaitStrategyType::FibonacciBackoff,
            }),
    {
        WaitStrategy {
            initial_interval,
            max_interval,
            backoff_multiplier: Permille::new(1000),
            strategy_type: WaitStrategyType::FibonacciBackoff,
        }
    }

    /// The interval to pause after the given attempt; attempts count from
    /// one. The time that has passed and the deadline do not change it.
    pub fn next_interval(&self, attempt: u32, _elapsed: Millis, _timeout: Millis) -> (interval:
        Millis)
        requires
            attempt >= 1,
        ensures
            interval.millis == self.spec_next_interval(attempt as nat),
    {
        let initial = self.initial_interval.millis;
        let cap = self.max_interval.millis;
        let millis = match self.strategy_type {
            WaitStrategyType::FixedInterval => initial,
            WaitStrategyType::ExponentialBackoff => scale_capped(
                initial,
                self.backoff_multiplier.thousandths,
                attempt - 1,
                cap,
            ),
            WaitStrategyType::LinearBackoff => {
                assert(initial as u128 * attempt as u128 <= 0xFFFF_FFFF_FFFF_FFFF_0000_0000u128)
                    by (nonlinear_arith)
                    requires
                        initial <= 0xFFFF_FFFF_FFFF_FFFFu64,
                        attempt <= 0xFFFF_FFFFu32,
                ;
                let product: u128 = initial as u128 * attempt as u128;
                if product <= cap as u128 {
                    product as u64
                } else {
                    cap
                }
            },
            WaitStrategyType::FibonacciBackoff => fibonacci_interval(initial, attempt, cap),
        };
        Millis { millis }
    }
}

impl Default for WaitStrategy {
    /// A fixed interval of 100 milliseconds.
    fn default() -> (strategy: Self)
        ensures
            strategy == (WaitStrategy {
                initial_interval: Millis { millis: 100 },
                max_interval: Millis { millis: 1000 },
                backoff_multiplier: Permille { thousandths: 1500 },
                strategy_type: WaitStrategyType::FixedInterval,
            }),
    {
        WaitStrategy {
            initial_interval: Millis { millis: 100 },
            max_interval: Millis { millis: 1000 },
            backoff_multiplier: Permille { thousandths: 1500 },
            strategy_type: WaitStrategyType::FixedInterval,
        }
    }
}

/// The interval depends on nothing but the strategy and the number of the
/// attempt: the same strategy and attempt give the same interval, whatever
/// time has passed and whatever the deadline is.
pub proof fn lemma_next_interval_is_a_function(
    first: WaitStrategy,
    second: WaitStrategy,
    first_attempt: nat,
    second_attempt: nat,
)
    requires
        first == second,
        first_attempt == second_attempt,
    ensures
        first.spec_next_interval(first_attempt) == second.spec_next_interval(second_attempt),
{
}

/// The interval of a backoff never exceeds the maximum interval.
pub proof fn lemma_backoff_is_capped(strategy: WaitStrategy, attempt: nat)
    requires
        strategy.strategy_type != WaitStrategyType::FixedInterval,
    ensures
        strategy.spec_next_interval(attempt) <= strategy.max_interval.millis,
{
}

/// An exponential backoff with a multiplier above one and an initial
/// interval of at least a millisecond reaches the maximum interval and
/// stays there: from the attempt after a thousand times the maximum, in
/// milliseconds, at the latest.
pub proof fn lemma_exponential_backoff_plateaus(strategy: WaitStrategy, attempt: nat)
    requires
        strategy.strategy_type == WaitStrategyType::ExponentialBackoff,
        strategy.backoff_multiplier.thousandths > 1000,
        strategy.initial_interval.millis >= 1,
        attempt >= 1000 * strategy.max_interval.millis + 1,
    ensures
        strategy.spec_next_interval(attempt) == strategy.max_interval.millis,
{
    lemma_scaled_exceeds(
        strategy.initial_interval.millis as nat,
        strategy.backoff_multiplier.thousandths as nat,
        WaitStrategy::growth_steps(attempt),
        strategy.max_interval.millis as nat,
    );
}

} // verus!
