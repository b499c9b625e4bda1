//! Waiting: polling a condition until it holds or a deadline has passed.
//!
//! A wait is a loop around the condition: try it, and unless it held or the
//! deadline has passed, pause and try again. The caller owns the loop, the
//! clock and the pauses; what to do after each attempt is decided here, by
//! `on_attempt`. Attempts count from one.
//!
//! After a failed attempt the wait times out once the time that has passed
//! has reached the deadline; the error of the condition is dropped, and the
//! `Timeout` error carries the configured deadline and the number of
//! attempts. Before the deadline the strategy gives the next pause, which is
//! never shorter than one millisecond. A pause that would reach the deadline
//! is skipped: the condition is tried once more at once.

pub mod conditions;
pub mod scaling;
pub mod strategy;

use vstd::prelude::*;
use vstd::string::*;
use crate::error::BryndzaError;
use crate::text::{decimal, decimal_string};
use crate::units::Millis;
use crate::wait::strategy::WaitStrategy;

verus! {

/// The shortest pause between two attempts, in milliseconds.
pub const MINIMUM_PAUSE_MILLIS: u64 = 1;

/// What a wait does after one attempt.
#[derive(Debug)]
pub enum WaitDecision<T> {
    /// The condition held: the wait ends with its value.
    Succeeded(T),
    /// The deadline has passed: the wait ends with this `Timeout` error.
    TimedOut(BryndzaError),
    /// The condition is tried again at once.
    RetryNow,
    /// The condition is tried again after a pause.
    RetryAfter(Millis),
}

/// The kinds of decision, without the values that they carry.
pub enum WaitStep {
    Succeed,
    TimeOut,
    RetryNow,
    RetryAfter(nat),
}

/// The text of the `Timeout` error of a wait that gave up after `attempt`
/// attempts.
pub open spec fn spec_timeout_message(attempt: nat) -> Seq<char> {
    "Condition not met after "@ + decimal(attempt) + " attempts"@
}

/// The pause that follows a failed attempt before the deadline: the
/// strategy's interval, or the shortest pause where that is longer.
pub open spec fn spec_pause(strategy: WaitStrategy, attempt: nat) -> nat {
    let interval = strategy.spec_next_interval(attempt);
    if interval < MINIMUM_PAUSE_MILLIS as nat {
        MINIMUM_PAUSE_MILLIS as nat
    } else {
        interval
    }
}

/// What a wait does after the given attempt, which succeeded or failed
/// when `elapsed` had passed since the wait began.
pub open spec fn spec_step(
    timeout: Millis,
    strategy: WaitStrategy,
    attempt: nat,
    succeeded: bool,
    elapsed: Millis,
) -> WaitStep {
    if succeeded {
        WaitStep::Succeed
    } else if elapsed.millis >= timeout.millis {
        WaitStep::TimeOut
    } else if elapsed.millis + spec_pause(strategy, attempt) >= timeout.millis {
        WaitStep::RetryNow
    } else {
        WaitStep::RetryAfter(spec_pause(strategy, attempt))
    }
}

/// The number of the attempt that follows `attempt`. The count stops at
/// the largest number that it can hold.
pub open spec fn spec_next_attempt(attempt: nat) -> nat {
    if attempt < u32::MAX {
        attempt + 1
    } else {
        attempt
    }
}

/// Writes the text of the `Timeout` error of a wait that gave up after
/// `attempt` attempts.
pub fn timeout_message(attempt: u32) -> (text: String)
    ensures
        text@ == spec_timeout_message(attempt as nat),
{
    String::from_str("Condition not met after ").concat(
        decimal_string(attempt as u64).as_str(),
    ).concat(" attempts")
}

/// The number of the attempt that follows `attempt`.
pub fn next_attempt(attempt: u32) -> (next: u32)
    ensures
        next == spec_next_attempt(attempt as nat),
{
    if attempt < u32::MAX {
        attempt + 1
    } else {
        attempt
    }
}

/// Decides what a wait does after an attempt.
///
/// `attempt` is the number of the attempt, `outcome` what the condition
/// returned, and `elapsed` the time since the wait began, read after the
/// attempt.
pub fn on_attempt<T>(
    timeout: Millis,
    strategy: &WaitStrategy,
    attempt: u32,
    outcome: Result<T, BryndzaError>,
    elapsed: Millis,
) -> (decision: WaitDecision<T>)
    requires
        attempt >= 1,
    ensures
        match spec_step(timeout, *strategy, attempt as nat, outcome is Ok, elapsed) {
            WaitStep::Succeed => outcome matches Ok(value) && decision == WaitDecision::Succeeded(
                value,
            ),
            WaitStep::TimeOut => decision matches WaitDecision::TimedOut(
                BryndzaError::Timeout { duration, condition },
            ) && duration == timeout && condition@ == spec_timeout_message(attempt as nat),
            WaitStep::RetryNow => decision is RetryNow,
            WaitStep::RetryAfter(pause) => decision matches WaitDecision::RetryAfter(interval)
                && interval.millis == pause,
        },
{
    match outcome {
        Ok(value) => WaitDecision::Succeeded(value),
        Err(_) => {
            if elapsed.millis >= timeout.millis {
                WaitDecision::TimedOut(
                    BryndzaError::Timeout { duration: timeout, condition: timeout_message(attempt) },
                )
            } else {
                let interval = strategy.next_interval(attempt, elapsed, timeout).millis;
                let pause = if interval < MINIMUM_PAUSE_MILLIS {
                    MINIMUM_PAUSE_MILLIS
                } else {
                    interval
                };
                if pause >= timeout.millis - elapsed.millis {
                    WaitDecision::RetryNow
                } else {
                    WaitDecision::RetryAfter(Millis { millis: pause })
                }
            }
        },
    }
}

/// What one attempt of a wait showed: whether the condition held, and the
/// time since the wait began, read after the attempt.
pub struct Observation {
    pub succeeded: bool,
    pub elapsed: Millis,
}

/// The number of the attempt at position `index` of a wait.
pub open spec fn attempt_at(index: nat) -> nat
    decreases index,
{
    if index == 0 {
        1
    } else {
        spec_next_attempt(attempt_at((index - 1) as nat))
    }
}

/// How a wait goes whose attempts, from position `from` on, show
/// `observations`: the position of its last attempt and whether it
/// succeeded, or nothing if it is still going on after all of them.
pub open spec fn outcome_of(
    timeout: Millis,
    strategy: WaitStrategy,
    observations: Seq<Observation>,
    from: nat,
) -> Option<(nat, bool)>
    decreases observations.len() - from,
{
    if from >= observations.len() {
        None
    } else {
        match spec_step(
            timeout,
            strategy,
            attempt_at(from),
            observations[from as int].succeeded,
            observations[from as int].elapsed,
        ) {
            WaitStep::Succeed => Some((from, true)),
            WaitStep::TimeOut => Some((from, false)),
            WaitStep::RetryNow => outcome_of(timeout, strategy, observations, from + 1),
            WaitStep::RetryAfter(_) => outcome_of(timeout, strategy, observations, from + 1),
        }
    }
}

/// Whether every attempt before position `index` failed before the
/// deadline.
pub open spec fn failed_in_time_before(
    timeout: Millis,
    observations: Seq<Observation>,
    index: nat,
) -> bool {
    forall|k: int|
        0 <= k < index ==> !(#[trigger] observations[k]).succeeded && observations[k].elapsed.millis
            < timeout.millis
}

proof fn lemma_outcome_skips_failures(
    timeout: Millis,
    strategy: WaitStrategy,
    observations: Seq<Observation>,
    from: nat,
    index: nat,
)
    requires
        from <= index < observations.len(),
        failed_in_time_before(timeout, observations, index),
    ensures
        outcome_of(timeout, strategy, observations, from) == outcome_of(
            timeout,
            strategy,
            observations,
            index,
        ),
    decreases index - from,
{
    if from < index {
        assert(!observations[from as int].succeeded);
        lemma_outcome_skips_failures(timeout, strategy, observations, from + 1, index);
    }
}

/// A wait succeeds with the first attempt on which the condition holds,
/// provided that the attempts before it failed before the deadline; the
/// condition is not tried again, whatever it would have shown.
pub proof fn lemma_wait_ends_with_first_success(
    timeout: Millis,
    strategy: WaitStrategy,
    observations: Seq<Observation>,
    index: nat,
)
    requires
        index < observations.len(),
        observations[index as int].succeeded,
        failed_in_time_before(timeout, observations, index),
    ensures
        outcome_of(timeout, strategy, observations, 0) == Some((index, true)),
{
    lemma_outcome_skips_failures(timeout, strategy, observations, 0, index);
}

/// A wait times out with the first failed attempt after which the deadline
/// has passed, even if the condition would have held on a later attempt.
pub proof fn lemma_wait_times_out_at_deadline(
    timeout: Millis,
    strategy: WaitStrategy,
    observations: Seq<Observation>,
    index: nat,
)
    requires
        index < observations.len(),
        !observations[index as int].succeeded,
        observations[index as int].elapsed.millis >= timeout.millis,
        failed_in_time_before(timeout, observations, index),
    ensures
        outcome_of(timeout, strategy, observations, 0) == Some((index, false)),
{
    lemma_outcome_skips_failures(timeout, strategy, observations, 0, index);
}

/// A wait goes on for as long as its attempts fail before the deadline.
pub proof fn lemma_wait_goes_on_before_deadline(
    timeout: Millis,
    strategy: WaitStrategy,
    observations: Seq<Observation>,
)
    requires
        failed_in_time_before(timeout, observations, observations.len()),
    ensures
        outcome_of(timeout, strategy, observations, 0) is None,
{
    lemma_outcome_goes_on(timeout, strategy, observations, 0);
}

proof fn lemma_outcome_goes_on(
    timeout: Millis,
    strategy: WaitStrategy,
    observations: Seq<Observation>,
    from: nat,
)
    requires
        failed_in_time_before(timeout, observations, observations.len()),
    ensures
        outcome_of(timeout, strategy, observations, from) is None,
    decreases observations.len() - from,
{
    if from < observations.len() {
        assert(!observations[from as int].succeeded);
        lemma_outcome_goes_on(timeout, strategy, observations, from + 1);
    }
}

} // verus!
