use vstd::prelude::*;

verus! {

/// Number of 100-nanosecond ticks in one millisecond.
pub const TICKS_PER_MILLISECOND: i64 = 10_000;

/// A span of time counted in 100-nanosecond ticks, the unit of the
/// composition engine's animation clock.
#[derive(Clone, Copy, PartialEq, Eq, Debug, Structural)]
pub struct TimeSpan {
    pub duration: i64,
}

/// Frames per second that keyframes are laid out for.
pub open spec fn refresh_rate_spec() -> u32 {
    60
}

/// The refresh rate that keyframes are spaced for: a fixed 60 frames per
/// second, since the monitor is not queried.
pub fn get_monitor_refresh_rate() -> (fps: u32)
    ensures
        fps == refresh_rate_spec(),
{
    60
}

/// Whether `ms` milliseconds can be counted in ticks without leaving `i64`.
pub open spec fn ms_fits_in_ticks(ms: int) -> bool {
    i64::MIN <= ms * TICKS_PER_MILLISECOND <= i64::MAX
}

/// Converts milliseconds to a tick-counted time span.
pub fn duration_ms(ms: i64) -> (span: TimeSpan)
    requires
        ms_fits_in_ticks(ms as int),
    ensures
        span == duration_ms_spec(ms as int),
        span.duration == ms * TICKS_PER_MILLISECOND,
{
    TimeSpan { duration: ms * TICKS_PER_MILLISECOND }
}

/// The span that `duration_ms` gives for `ms` milliseconds.
pub open spec fn duration_ms_spec(ms: int) -> TimeSpan {
    TimeSpan { duration: (ms * TICKS_PER_MILLISECOND) as i64 }
}

/// When two durations and their sum all fit, the span of the sum is the
/// sum of the spans.
pub proof fn lemma_duration_ms_additive(a: int, b: int)
    requires
        ms_fits_in_ticks(a),
        ms_fits_in_ticks(b),
        ms_fits_in_ticks(a + b),
    ensures
        duration_ms_spec(a + b).duration == duration_ms_spec(a).duration + duration_ms_spec(
            b,
        ).duration,
{
}

/// A millisecond is ten thousand ticks of 100 nanoseconds, and the
/// keyframes are laid out for 60 frames per second.
pub proof fn lemma_units(ms: int)
    ensures
        duration_ms_spec(ms).duration == (ms * 10_000) as i64,
        refresh_rate_spec() == 60,
{
}

} // verus!
