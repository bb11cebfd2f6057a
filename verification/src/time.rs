//! Durations in ticks of the Embassy time base, and the current time.
use vstd::prelude::*;

verus! {

/// Ticks per second of the Embassy time base.
pub const TICK_HZ: u64 = 1_000_000;

/// A span of time.
#[derive(Clone, Copy, Debug, PartialEq, Eq, Structural)]
pub struct Duration {
    pub ticks: u64,
}

/// `embassy_time::Duration::from_secs`: that many seconds, in ticks of 1 MHz.
#[verifier::external_body]
fn embassy_from_secs(secs: u64) -> (ticks: u64)
    requires
        secs * 1_000_000 <= u64::MAX,
    ensures
        ticks == secs * 1_000_000,
{
    embassy_time::Duration::from_secs(secs).as_ticks()
}

/// `embassy_time::Duration::from_millis`: that many milliseconds, in ticks of 1 MHz.
#[verifier::external_body]
fn embassy_from_millis(millis: u64) -> (ticks: u64)
    requires
        millis * 1_000 <= u64::MAX,
    ensures
        ticks == millis * 1_000,
{
    embassy_time::Duration::from_millis(millis).as_ticks()
}

/// `embassy_time::Duration::from_micros`: that many microseconds, in ticks of 1 MHz.
#[verifier::external_body]
fn embassy_from_micros(micros: u64) -> (ticks: u64)
    requires
        micros < u64::MAX,
    ensures
        ticks == micros,
{
    embassy_time::Duration::from_micros(micros).as_ticks()
}

/// `embassy_time::Duration::from_hz`: the period of a rate, rounded to the nearest tick and
/// never zero.
#[verifier::external_body]
fn embassy_from_hz(hz: u64) -> (ticks: u64)
    requires
        hz > 0,
    ensures
        ticks == if hz >= 1_000_000 { 1int } else { (1_000_000 + hz as int / 2) / (hz as int) },
{
    embassy_time::Duration::from_hz(hz).as_ticks()
}

/// `embassy_time::Duration::as_millis`: whole milliseconds in a number of 1 MHz ticks.
#[verifier::external_body]
fn embassy_as_millis(ticks: u64) -> (millis: u64)
    ensures
        millis == ticks / 1_000,
{
    embassy_time::Duration::from_ticks(ticks).as_millis()
}

/// `embassy_time::Instant::now`: the ticks since boot. Nothing is claimed of the reading.
#[verifier::external_body]
fn embassy_now_ticks() -> (ticks: u64)
{
    embassy_time::Instant::now().as_ticks()
}

/// Whether Embassy's timer can show this tick: it is one that a reading of it may give.
pub closed spec fn shown_by_timer(ticks: u64) -> bool {
    call_ensures(embassy_now_ticks, (), ticks)
}

/// Reads Embassy's timer.
pub(crate) fn timer_ticks() -> (ticks: u64)
    ensures
        shown_by_timer(ticks),
{
    embassy_now_ticks()
}

/// `embassy_time::Instant::as_micros`: a number of 1 MHz ticks since boot, in microseconds.
#[verifier::external_body]
pub(crate) fn embassy_instant_as_micros(ticks: u64) -> (micros: u64)
    ensures
        micros == ticks,
{
    embassy_time::Instant::from_ticks(ticks).as_micros()
}

impl Duration {
    pub fn from_secs(secs: u64) -> (d: Duration)
        requires
            secs * TICK_HZ <= u64::MAX,
        ensures
            d.ticks == secs * TICK_HZ,
    {
        Duration { ticks: embassy_from_secs(secs) }
    }

    pub fn from_millis(millis: u64) -> (d: Duration)
        requires
            millis * 1_000 <= u64::MAX,
        ensures
            d.ticks == millis * 1_000,
    {
        Duration { ticks: embassy_from_millis(millis) }
    }

    pub fn from_micros(micros: u64) -> (d: Duration)
        requires
            micros < u64::MAX,
        ensures
            d.ticks == micros,
    {
        Duration { ticks: embassy_from_micros(micros) }
    }

    /// The period of a rate in hertz.
    pub fn from_hz(hz: u64) -> (d: Duration)
        requires
            hz > 0,
        ensures
            d.ticks == hz_period(hz as int),
    {
        Duration { ticks: embassy_from_hz(hz) }
    }

    pub fn as_ticks(&self) -> (ticks: u64)
        ensures
            ticks == self.ticks,
    {
        self.ticks
    }

    /// Whole milliseconds, rounding down.
    pub fn as_millis(&self) -> (millis: u64)
        ensures
            millis == self.ticks / 1_000,
    {
        embassy_as_millis(self.ticks)
    }
}

/// The period of `hz` in ticks, to the nearest tick and at least one.
pub open spec fn hz_period(hz: int) -> int {
    if hz >= TICK_HZ {
        1
    } else {
        (TICK_HZ + hz / 2) / hz
    }
}

/// `a + b`, capped.
pub open spec fn sat_add_u64(a: int, b: int) -> int {
    if a + b > u64::MAX { u64::MAX as int } else { a + b }
}

/// `a - b`, never below zero.
pub open spec fn sat_sub_u64(a: int, b: int) -> int {
    if a > b { a - b } else { 0 }
}

/// `a * b`, capped.
pub open spec fn sat_mul_u64(a: int, b: int) -> int {
    if a * b > u64::MAX { u64::MAX as int } else { a * b }
}

/// The product, capped at the largest `u64`.
pub(crate) fn saturating_mul_u64(a: u64, b: u64) -> (r: u64)
    ensures
        r == sat_mul_u64(a as int, b as int),
{
    match a.checked_mul(b) {
        Some(p) => p,
        None => u64::MAX,
    }
}

/// The period of a rate is the nearest number of microseconds: the rate times the period misses
/// a second by at most half the rate, and by less where it falls short. From a megahertz on it is one microsecond.
pub proof fn law_period_is_nearest(hz: int)
    requires
        0 < hz,
    ensures
        hz >= 1_000_000 ==> hz_period(hz) == 1,
        hz < 1_000_000 ==> -hz < 2 * (hz_period(hz) * hz - 1_000_000) <= hz,
{
    if hz < 1_000_000 {
        let q = hz_period(hz);
        let n = 1_000_000 + hz / 2;
        assert(q * hz <= n < q * hz + hz) by (nonlinear_arith)
            requires
                q == n / hz,
                hz > 0,
                n >= 0,
        ;
    }
}

/// Saturating arithmetic gives the exact result wherever it fits, and the nearest limit where it
/// does not.
pub proof fn law_saturation_is_exact_within_limits(a: int, b: int)
    requires
        0 <= a <= u64::MAX,
        0 <= b <= u64::MAX,
    ensures
        a + b <= 0xffff_ffff_ffff_ffff ==> sat_add_u64(a, b) == a + b,
        a + b > 0xffff_ffff_ffff_ffff ==> sat_add_u64(a, b) == 0xffff_ffff_ffff_ffff,
        b <= a ==> sat_sub_u64(a, b) == a - b,
        a < b ==> sat_sub_u64(a, b) == 0,
        a * b <= 0xffff_ffff_ffff_ffff ==> sat_mul_u64(a, b) == a * b,
        a * b > 0xffff_ffff_ffff_ffff ==> sat_mul_u64(a, b) == 0xffff_ffff_ffff_ffff,
{
}

} // verus!
