//! The pace of a running game: how many steps are due, and when sound has
//! piled up.

use vstd::prelude::*;

verus! {

/// Nanoseconds in a microsecond.
pub const NANOSECONDS_PER_MICROSECOND: u32 = 1000;

/// How often queued sound may exceed the sound of one step before it is
/// dropped.
pub const AUDIO_BACKLOG_STEPS: usize = 10;

/// The whole microseconds in a step interval given in nanoseconds.
pub open spec fn step_micros(step_interval: u32) -> int {
    step_interval as int / NANOSECONDS_PER_MICROSECOND as int
}

/// The number of steps that a game should have made once `elapsed_micros`
/// microseconds have passed since it started, at one step each
/// `step_interval` nanoseconds. Both times count in whole microseconds.
pub fn expected_steps(elapsed_micros: u128, step_interval: u32) -> (steps: u128)
    requires
        step_interval >= NANOSECONDS_PER_MICROSECOND,
    ensures
        steps == elapsed_micros as int / step_micros(step_interval),
{
    elapsed_micros / ((step_interval / NANOSECONDS_PER_MICROSECOND) as u128)
}

/// The microseconds that have passed since the last step was due.
pub fn micros_into_step(elapsed_micros: u128, step_interval: u32) -> (micros: u128)
    requires
        step_interval >= NANOSECONDS_PER_MICROSECOND,
    ensures
        micros == elapsed_micros as int % step_micros(step_interval),
        micros < step_micros(step_interval),
{
    elapsed_micros % ((step_interval / NANOSECONDS_PER_MICROSECOND) as u128)
}

/// Whether the sound that waits to be played has run too far ahead: more
/// samples are queued than ten steps render. The queue is then dropped.
pub fn audio_backlog_exceeded(queued: usize, rendered: usize) -> (exceeded: bool)
    ensures
        exceeded == (queued > rendered * AUDIO_BACKLOG_STEPS),
{
    match rendered.checked_mul(AUDIO_BACKLOG_STEPS) {
        Some(limit) => queued > limit,
        None => false,
    }
}

} // verus!
