//! How a requested sleep is handed to the OS's 32-bit delay calls.

use vstd::prelude::*;

verus! {

/// Nanoseconds in a second.
pub const NANOS_PER_SEC: u128 = 1_000_000_000;

/// Nanoseconds in a microsecond.
pub const NANOS_PER_MICRO: u128 = 1_000;

/// Nanoseconds in a millisecond.
pub const NANOS_PER_MILLI: u128 = 1_000_000;

/// Sleeps shorter than this many nanoseconds (one hour) are delayed in
/// microseconds; longer ones in milliseconds, so that the count fits 32 bits.
pub const MICROS_LIMIT_NANOS: u128 = 3_600_000_000_000;

/// The longest sleep, in nanoseconds: `2^32` microseconds.
pub const MAX_SLEEP_NANOS: u128 = 4_294_967_296_000;

/// A delay call for the OS.
#[derive(Clone, Copy, Debug, PartialEq, Eq, Structural)]
pub enum Delay {
    /// Delay for this many microseconds.
    Micros(u32),
    /// Delay for this many milliseconds.
    Millis(u32),
}

/// The length of a duration in nanoseconds.
pub open spec fn total_nanos(secs: u64, nanos: u32) -> int {
    secs as int * NANOS_PER_SEC as int + nanos as int
}

/// The delay for a sleep of `secs` seconds and `nanos` nanoseconds, or `None`
/// where it is longer than the OS can be asked for.
pub open spec fn delay_for(secs: u64, nanos: u32) -> Option<Delay> {
    let t = total_nanos(secs, nanos);
    if t > MAX_SLEEP_NANOS {
        None
    } else if t < MICROS_LIMIT_NANOS {
        Some(Delay::Micros((t / NANOS_PER_MICRO as int) as u32))
    } else {
        Some(Delay::Millis((t / NANOS_PER_MILLI as int) as u32))
    }
}

/// Chooses the OS delay for a sleep of `secs` seconds plus `nanos`
/// nanoseconds: whole microseconds under one hour, whole milliseconds from
/// one hour on, and `None` beyond `2^32` microseconds, which the caller
/// must treat as a fatal request rather than truncate.
pub fn sleep_delay(secs: u64, nanos: u32) -> (r: Option<Delay>)
    requires
        nanos < NANOS_PER_SEC,
    ensures
        r == delay_for(secs, nanos),
        r is None <==> total_nanos(secs, nanos) > 4_294_967_296_000,
        r matches Some(Delay::Micros(us)) ==> us * NANOS_PER_MICRO <= total_nanos(secs, nanos)
            < (us + 1) * NANOS_PER_MICRO,
        r matches Some(Delay::Millis(ms)) ==> ms * NANOS_PER_MILLI <= total_nanos(secs, nanos)
            < (ms + 1) * NANOS_PER_MILLI,
{
    assert(secs as int * 1_000_000_000 <= 0xffff_ffff_ffff_ffff * 1_000_000_000) by (nonlinear_arith);
    let t: u128 = secs as u128 * NANOS_PER_SEC + nanos as u128;
    assert(t == total_nanos(secs, nanos));
    if t > MAX_SLEEP_NANOS {
        None
    } else if t < MICROS_LIMIT_NANOS {
        let us: u128 = t / NANOS_PER_MICRO;
        assert(us < 3_600_000_000);
        Some(Delay::Micros(us as u32))
    } else {
        let ms: u128 = t / NANOS_PER_MILLI;
        assert(ms <= 4_294_967);
        Some(Delay::Millis(ms as u32))
    }
}

} // verus!
