//! Timeouts: the conversion between a C `timeval` and a `Duration`.
use std::time::Duration;
use vstd::prelude::*;

verus! {

/// The whole seconds of a duration, as `Duration::as_secs` reports them.
pub uninterp spec fn duration_secs(d: Duration) -> u64;

/// The nanoseconds past the whole seconds of a duration, as
/// `Duration::subsec_nanos` reports them.
pub uninterp spec fn duration_subsec_nanos(d: Duration) -> u32;

/// The length of a duration in nanoseconds.
pub open spec fn duration_total_nanos(d: Duration) -> int {
    duration_secs(d) * 1_000_000_000 + duration_subsec_nanos(d)
}

/// The length of `Duration::MAX` in nanoseconds.
pub open spec fn max_total_nanos() -> int {
    u64::MAX * 1_000_000_000 + 999_999_999
}

/// A duration whose fractional part is below one second, as every duration
/// that `std` builds is.
pub open spec fn is_normal(d: Duration) -> bool {
    duration_subsec_nanos(d) < 1_000_000_000
}

/// `n` nanoseconds, capped at the length of `Duration::MAX`.
pub open spec fn saturate(n: int) -> int {
    if n <= max_total_nanos() {
        n
    } else {
        max_total_nanos()
    }
}

/// `Duration::from_secs`: a duration of `secs` whole seconds and no fraction.
#[verifier::external_body]
fn duration_from_secs(secs: u64) -> (d: Duration)
    ensures
        duration_secs(d) == secs,
        duration_subsec_nanos(d) == 0,
{
    Duration::from_secs(secs)
}

/// `Duration::from_micros`: `micros` microseconds, split into whole seconds
/// and the nanoseconds of the remaining microseconds.
#[verifier::external_body]
fn duration_from_micros(micros: u64) -> (d: Duration)
    ensures
        duration_secs(d) == micros / 1_000_000,
        duration_subsec_nanos(d) == (micros % 1_000_000) * 1000,
{
    Duration::from_micros(micros)
}

/// `Duration::saturating_add`: the sum of two durations, or
/// `Duration::MAX` where the sum does not fit.
#[verifier::external_body]
fn duration_saturating_add(a: Duration, b: Duration) -> (d: Duration)
    ensures
        is_normal(d),
        duration_total_nanos(d) == saturate(duration_total_nanos(a) + duration_total_nanos(b)),
{
    a.saturating_add(b)
}

/// `Duration::as_secs`: the whole seconds of the duration.
#[verifier::external_body]
fn duration_as_secs(d: &Duration) -> (secs: u64)
    ensures
        secs == duration_secs(*d),
{
    d.as_secs()
}

/// `Duration::subsec_micros`: the fractional part of the duration in whole
/// microseconds, always below one million.
#[verifier::external_body]
fn duration_subsec_micros(d: &Duration) -> (micros: u32)
    ensures
        micros == duration_subsec_nanos(*d) / 1000,
        micros < 1_000_000,
{
    d.subsec_micros()
}

/// A C `struct timeval`: seconds and microseconds.
#[derive(Clone, Copy, Debug, PartialEq, Eq, Structural)]
pub struct Timeval {
    pub tv_sec: i64,
    pub tv_usec: i64,
}

/// The nanoseconds that a `timeval` stands for when both fields are read as
/// unsigned numbers.
pub open spec fn timeval_total_nanos(tv: Timeval) -> int {
    (tv.tv_sec as u64) * 1_000_000_000 + (tv.tv_usec as u64) * 1000
}

/// The `timeval` that `to_timeval` gives for a duration.
pub open spec fn timeval_of(d: Duration) -> Timeval {
    Timeval {
        tv_sec: duration_secs(d) as i64,
        tv_usec: (duration_subsec_nanos(d) / 1000) as i64,
    }
}

/// Converts a duration into a `timeval`: the whole seconds (wrapping into
/// the signed field) and the whole microseconds of the fraction.
pub fn to_timeval(duration: Duration) -> (tv: Timeval)
    ensures
        tv == timeval_of(duration),
        0 <= tv.tv_usec < 1_000_000,
        tv.tv_sec == duration_secs(duration) as i64,
        tv.tv_usec == duration_subsec_nanos(duration) / 1000,
{
    let secs = duration_as_secs(&duration);
    let micros = duration_subsec_micros(&duration);
    Timeval { tv_sec: secs as i64, tv_usec: micros as i64 }
}

/// An optional timeout, as libevent passes it: no `timeval` means no timeout.
pub struct Timeout(Option<Duration>);

impl View for Timeout {
    type V = Option<Duration>;

    closed spec fn view(&self) -> Option<Duration> {
        self.0
    }
}

/// What `Timeout::from_timeval` holds for a given `timeval`: a normal
/// duration of the `timeval`'s length, capped at `Duration::MAX`.
pub open spec fn timeout_matches(t: Option<Duration>, tv: Option<Timeval>) -> bool {
    match tv {
        None => t is None,
        Some(tv) => t matches Some(d) && is_normal(d) && duration_total_nanos(d) == saturate(
            timeval_total_nanos(tv),
        ),
    }
}

impl Timeout {
    /// Reads a `timeval`: the seconds and the microseconds, each read as an
    /// unsigned number, added with saturation. No `timeval` gives no timeout.
    pub fn from_timeval(tv: Option<Timeval>) -> (t: Timeout)
        ensures
            timeout_matches(t@, tv),
            t@ is Some <==> tv is Some,
            tv matches Some(v) ==> t@ matches Some(d) && duration_subsec_nanos(d) < 1_000_000_000
                && duration_secs(d) * 1_000_000_000 + duration_subsec_nanos(d) == (if (v.tv_sec as u64)
                * 1_000_000_000 + (v.tv_usec as u64) * 1000 <= u64::MAX * 1_000_000_000
                + 999_999_999 {
                (v.tv_sec as u64) * 1_000_000_000 + (v.tv_usec as u64) * 1000
            } else {
                u64::MAX * 1_000_000_000 + 999_999_999
            }),
    {
        match tv {
            None => Timeout(None),
            Some(tv) => {
                let secs = duration_from_secs(tv.tv_sec as u64);
                let micros = duration_from_micros(tv.tv_usec as u64);
                let total = duration_saturating_add(secs, micros);
                proof {
                    let u = tv.tv_usec as u64;
                    assert(u == (u / 1_000_000) * 1_000_000 + u % 1_000_000);
                    assert(duration_total_nanos(micros) == u * 1000);
                }
                Timeout(Some(total))
            },
        }
    }

    /// Whether there is a timeout.
    pub fn is_some(&self) -> (b: bool)
        ensures
            b == self@ is Some,
    {
        self.0.is_some()
    }
}

impl From<Timeout> for Option<Duration> {
    fn from(timeout: Timeout) -> (d: Option<Duration>) {
        timeout.0
    }
}

impl vstd::std_specs::convert::FromSpecImpl<Timeout> for Option<Duration> {
    open spec fn obeys_from_spec() -> bool {
        true
    }

    open spec fn from_spec(timeout: Timeout) -> Option<Duration> {
        timeout@
    }
}

impl std::ops::Deref for Timeout {
    type Target = Option<Duration>;

    fn deref(&self) -> (d: &Option<Duration>)
        ensures
            *d == self@,
    {
        &self.0
    }
}

/// Every `timeval` that is given yields a timeout: a duration whose length
/// is the `timeval`'s seconds and microseconds (each read as unsigned) in
/// nanoseconds, or the length of `Duration::MAX` where that is larger. Only
/// a missing `timeval` yields no timeout.
pub proof fn lemma_timeout_of_given_timeval(t: Option<Duration>, tv: Option<Timeval>)
    requires
        timeout_matches(t, tv),
    ensures
        t is Some <==> tv is Some,
        tv matches Some(v) ==> t matches Some(d) && duration_subsec_nanos(d) < 1_000_000_000
            && duration_secs(d) * 1_000_000_000 + duration_subsec_nanos(d) == (if (v.tv_sec as u64)
            * 1_000_000_000 + (v.tv_usec as u64) * 1000 <= u64::MAX * 1_000_000_000 + 999_999_999 {
            (v.tv_sec as u64) * 1_000_000_000 + (v.tv_usec as u64) * 1000
        } else {
            u64::MAX * 1_000_000_000 + 999_999_999
        }),
{
}

/// Reading a normal `timeval` (seconds not negative, microseconds below one
/// million) into a timeout and writing the timeout back with `to_timeval`
/// gives the same `timeval`.
pub proof fn lemma_timeval_round_trip(tv: Timeval, d: Duration)
    requires
        0 <= tv.tv_sec,
        0 <= tv.tv_usec < 1_000_000,
        timeout_matches(Some(d), Some(tv)),
    ensures
        timeval_of(d) == tv,
{
    let s = duration_secs(d) as int;
    let n = duration_subsec_nanos(d) as int;
    assert(tv.tv_sec as u64 == tv.tv_sec);
    assert(tv.tv_usec as u64 == tv.tv_usec);
    assert(timeval_total_nanos(tv) <= max_total_nanos());
    assert(s * 1_000_000_000 + n == tv.tv_sec * 1_000_000_000 + tv.tv_usec * 1000);
    assert(s == tv.tv_sec) by (nonlinear_arith)
        requires
            s * 1_000_000_000 + n == tv.tv_sec * 1_000_000_000 + tv.tv_usec * 1000,
            0 <= n < 1_000_000_000,
            0 <= tv.tv_usec < 1_000_000,
    ;
    assert(n == tv.tv_usec * 1000);
}

/// Writing a normal duration into a `timeval` and reading it back gives the
/// duration cut down to whole microseconds, where its seconds fit the signed
/// field.
pub proof fn lemma_duration_round_trip(d: Duration, back: Duration)
    requires
        is_normal(d),
        duration_secs(d) <= i64::MAX,
        timeout_matches(Some(back), Some(timeval_of(d))),
    ensures
        duration_total_nanos(back) == duration_secs(d) * 1_000_000_000 + (duration_subsec_nanos(d)
            / 1000) * 1000,
{
    let tv = timeval_of(d);
    assert(tv.tv_sec as u64 == duration_secs(d));
    assert(tv.tv_usec as u64 == duration_subsec_nanos(d) / 1000);
}

} // verus!
