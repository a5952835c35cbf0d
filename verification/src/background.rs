//! The background driver loop: what to do after each attempt to drive the
//! protocol engine.

use vstd::prelude::*;

use crate::ua::status_code::{StatusCode, BAD_DISCONNECT};

verus! {

/// What one pass of the loop met.
pub enum Iteration {
    /// The loop was cancelled from outside while it waited for its tick.
    Cancelled,
    /// The guard around the client handle was poisoned: the engine was not
    /// driven.
    Poisoned,
    /// The engine was driven, returned `status`, and took `time_taken`
    /// nanoseconds to do so.
    Driven { status: StatusCode, time_taken: u128 },
}

/// Why the loop ended.
#[derive(Clone, Copy, Debug, PartialEq, Eq, Structural)]
pub enum Termination {
    /// It was cancelled from outside.
    Cancelled,
    /// The guard around the client handle was poisoned.
    LockFailure,
    /// The engine reported that the connection is closed: the regular end.
    Disconnected,
    /// The engine reported another status that is not good.
    Failed(StatusCode),
}

/// What the loop does next.
#[derive(Clone, Copy, Debug, PartialEq, Eq, Structural)]
pub enum Step {
    /// Wait for the next tick and drive again. Where driving took longer
    /// than one period, `missed_cycles` is the number of whole periods that
    /// it took.
    Continue { missed_cycles: Option<u128> },
    /// Leave the loop.
    Terminate(Termination),
}

/// Number of whole periods of `cycle_time` that fit into `time_taken`, where
/// there is a period and driving took longer than it.
pub open spec fn missed_cycles_of(cycle_time: u128, time_taken: u128) -> Option<u128> {
    if cycle_time != 0 && time_taken > cycle_time {
        Some((time_taken / cycle_time) as u128)
    } else {
        None
    }
}

/// What the loop does after the given pass.
pub open spec fn step_of(cycle_time: u128, iteration: Iteration) -> Step {
    match iteration {
        Iteration::Cancelled => Step::Terminate(Termination::Cancelled),
        Iteration::Poisoned => Step::Terminate(Termination::LockFailure),
        Iteration::Driven { status, time_taken } => if status.good() {
            Step::Continue { missed_cycles: missed_cycles_of(cycle_time, time_taken) }
        } else if status.disconnect() {
            Step::Terminate(Termination::Disconnected)
        } else {
            Step::Terminate(Termination::Failed(status))
        },
    }
}

/// Number of whole periods that driving took, where it took longer than one.
pub fn missed_cycles(cycle_time: u128, time_taken: u128) -> (missed: Option<u128>)
    ensures
        missed == missed_cycles_of(cycle_time, time_taken),
{
    if cycle_time != 0 && time_taken > cycle_time {
        Some(time_taken / cycle_time)
    } else {
        None
    }
}

/// Decides what the loop does after one pass: it goes on after a good status,
/// reporting the cycles missed, and ends on cancellation, on a poisoned guard
/// and on any status that is not good, of which a closed connection is the
/// regular end.
pub fn background_task(cycle_time: u128, iteration: Iteration) -> (step: Step)
    ensures
        step == step_of(cycle_time, iteration),
{
    match iteration {
        Iteration::Cancelled => Step::Terminate(Termination::Cancelled),
        Iteration::Poisoned => Step::Terminate(Termination::LockFailure),
        Iteration::Driven { status, time_taken } => {
            if status.is_good() {
                Step::Continue { missed_cycles: missed_cycles(cycle_time, time_taken) }
            } else if status.into_raw() == BAD_DISCONNECT {
                Step::Terminate(Termination::Disconnected)
            } else {
                Step::Terminate(Termination::Failed(status))
            }
        },
    }
}

/// A pass that drove the engine with a good status, but took longer than the
/// period, does not end the loop: it goes on and reports the number of whole
/// periods that driving took, which is the quotient rounded down.
pub proof fn law_slow_pass_reports_missed_cycles(
    cycle_time: u128,
    status: StatusCode,
    time_taken: u128,
)
    requires
        cycle_time > 0,
        time_taken > cycle_time,
        status.good(),
    ensures
        step_of(cycle_time, Iteration::Driven { status, time_taken }) is Continue,
        step_of(cycle_time, Iteration::Driven { status, time_taken })->missed_cycles is Some,
        ({
            let missed = step_of(
                cycle_time,
                Iteration::Driven { status, time_taken },
            )->missed_cycles->0;
            &&& missed >= 1
            &&& missed * cycle_time <= time_taken < (missed + 1) * cycle_time
        }),
{
    let quotient = time_taken as int / cycle_time as int;
    assert(quotient * cycle_time <= time_taken < (quotient + 1) * cycle_time && quotient >= 1
        && quotient <= time_taken) by (nonlinear_arith)
        requires
            quotient == time_taken as int / cycle_time as int,
            cycle_time > 0,
            time_taken > cycle_time,
    ;
}

/// A pass within the period reports nothing missed.
pub proof fn law_timely_pass_reports_nothing(cycle_time: u128, status: StatusCode, time_taken: u128)
    requires
        time_taken <= cycle_time,
        status.good(),
    ensures
        step_of(cycle_time, Iteration::Driven { status, time_taken }) == (Step::Continue {
            missed_cycles: None,
        }),
{
}

/// The loop ends on exactly those passes that were cancelled, met a poisoned
/// guard, or drove the engine to a status that is not good; it ends
/// regularly on exactly those that drove it to a closed connection.
pub proof fn law_loop_ends_on_bad_status_only(cycle_time: u128, iteration: Iteration)
    ensures
        step_of(cycle_time, iteration) is Terminate <==> !(iteration is Driven
            && iteration->status.good()),
        step_of(cycle_time, iteration) == Step::Terminate(Termination::Disconnected)
            <==> iteration is Driven && iteration->status.disconnect(),
{
}

} // verus!
