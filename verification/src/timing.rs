//! The wall clock and the wait until the clock's next redraw.
use std::time::{Duration, SystemTime, SystemTimeError, UNIX_EPOCH};
use vstd::arithmetic::div_mod::{lemma_fundamental_div_mod, lemma_fundamental_div_mod_converse};
use vstd::prelude::*;

verus! {

/// The standard library's `SystemTime`, carried through opaquely.
#[verifier::external_type_specification]
#[verifier::external_body]
pub struct ExSystemTime(SystemTime);

/// The standard library's `SystemTimeError`, carried through opaquely.
#[verifier::external_type_specification]
#[verifier::external_body]
pub struct ExSystemTimeError(SystemTimeError);

/// What `Duration::as_secs(d)` returns: the whole seconds of `d`.
pub uninterp spec fn whole_seconds(d: Duration) -> u64;

/// What `Duration::subsec_millis(d)` returns: the whole milliseconds of the
/// fraction of a second of `d`.
pub uninterp spec fn subsec_millis_of(d: Duration) -> u32;

/// What `Duration::from_millis(ms)` returns.
pub uninterp spec fn duration_from_millis(ms: u64) -> Duration;

/// What `t.duration_since(UNIX_EPOCH)` returns.
pub uninterp spec fn since_unix_epoch(t: SystemTime) -> Result<Duration, SystemTimeError>;

/// The whole milliseconds of a duration.
pub open spec fn millis_of(d: Duration) -> int {
    whole_seconds(d) * 1000 + subsec_millis_of(d)
}

/// `d.as_secs()`.
#[verifier::external_body]
fn as_secs(d: Duration) -> (s: u64)
    ensures
        s == whole_seconds(d),
{
    d.as_secs()
}

/// `d.subsec_millis()`: the standard library documents it as always less
/// than one thousand.
#[verifier::external_body]
fn subsec_millis(d: Duration) -> (ms: u32)
    ensures
        ms == subsec_millis_of(d),
        ms < 1000,
{
    d.subsec_millis()
}

/// `Duration::from_millis(ms)`: a duration of `ms` milliseconds, so of
/// `ms / 1000` whole seconds and `ms % 1000` milliseconds besides.
#[verifier::external_body]
fn from_millis(ms: u64) -> (d: Duration)
    ensures
        d == duration_from_millis(ms),
        whole_seconds(d) == ms / 1000,
        subsec_millis_of(d) == ms % 1000,
{
    Duration::from_millis(ms)
}

/// `SystemTime::now()`: the wall clock; nothing can be stated of it.
#[verifier::external_body]
fn system_now() -> SystemTime {
    SystemTime::now()
}

/// `t.duration_since(UNIX_EPOCH)`: believed to be a function of `t`.
#[verifier::external_body]
fn duration_since_epoch(t: SystemTime) -> (r: Result<Duration, SystemTimeError>)
    ensures
        r == since_unix_epoch(t),
{
    t.duration_since(UNIX_EPOCH)
}

/// Why the wall clock could not be read as a time since the Unix epoch.
#[derive(Debug, Copy, Clone, PartialEq, Eq, Structural)]
pub enum ClockError {
    /// The wall clock is set before 1970-01-01 00:00:00 UTC.
    BeforeUnixEpoch,
}

/// What the clock reading `t` gives: its time since the Unix epoch, or
/// `BeforeUnixEpoch` when `t` is earlier than the epoch.
pub open spec fn unix_time_of(t: SystemTime) -> Result<Duration, ClockError> {
    match since_unix_epoch(t) {
        Ok(d) => Ok(d),
        Err(_) => Err(ClockError::BeforeUnixEpoch),
    }
}

/// The time elapsed since the Unix epoch, read from the wall clock: the
/// result is that of one reading of the clock, and it fails only when that
/// reading is earlier than the epoch.
pub fn get_unix_time() -> (r: Result<Duration, ClockError>)
    ensures
        exists|t: SystemTime| r == #[trigger] unix_time_of(t),
{
    let now = system_now();
    let r = match duration_since_epoch(now) {
        Ok(d) => Ok(d),
        Err(_) => Err(ClockError::BeforeUnixEpoch),
    };
    assert(r == unix_time_of(now));
    r
}

/// The milliseconds from `now_ms` to the next multiple of `precision_ms`
/// (of one when it is zero); a full period when `now_ms` is a multiple.
pub open spec fn next_timing_ms(now_ms: int, precision_ms: int) -> int {
    let p = if precision_ms < 1 { 1 } else { precision_ms };
    p - now_ms % p
}

/// The wait until the next redraw: from `unix_epoch`, taken in whole
/// milliseconds, to the next multiple of `precision_ms` milliseconds
/// (`precision_ms` taken as at least one).
pub fn get_next_timing(unix_epoch: Duration, precision_ms: u64) -> (next: Duration)
    requires
        millis_of(unix_epoch) <= u64::MAX,
    ensures
        next == duration_from_millis(next_timing_ms(millis_of(unix_epoch), precision_ms as int) as u64),
        millis_of(next) == next_timing_ms(millis_of(unix_epoch), precision_ms as int),
{
    let secs = as_secs(unix_epoch);
    let sub = subsec_millis(unix_epoch);
    let now_ms = secs * 1000 + sub as u64;
    let precision_ms = if precision_ms < 1 {
        1
    } else {
        precision_ms
    };
    let time = precision_ms - (now_ms % precision_ms);
    let next = from_millis(time);
    proof {
        lemma_fundamental_div_mod(time as int, 1000);
    }
    next
}

/// The wait of `get_next_timing`, when the whole milliseconds of
/// `unix_epoch` fit in a `u64`; `None` when they do not.
pub fn next_timing_checked(unix_epoch: Duration, precision_ms: u64) -> (next: Option<Duration>)
    ensures
        next is Some <==> millis_of(unix_epoch) <= u64::MAX,
        next matches Some(n) ==> n == duration_from_millis(
            next_timing_ms(millis_of(unix_epoch), precision_ms as int) as u64,
        ),
{
    let secs = as_secs(unix_epoch);
    let sub = subsec_millis(unix_epoch);
    match secs.checked_mul(1000) {
        Some(ms) => match ms.checked_add(sub as u64) {
            Some(_) => Some(get_next_timing(unix_epoch, precision_ms)),
            None => None,
        },
        None => None,
    }
}

/// Waiting `wait` milliseconds from `now_ms` ends on a multiple of `p`.
pub open spec fn ends_on_tick(now_ms: int, wait: int, p: int) -> bool {
    (now_ms + wait) % p == 0
}

/// The wait until the next redraw is at least a millisecond and at most a
/// period; it ends on a multiple of the period, and on the first one: no
/// shorter positive wait ends on a multiple.
pub proof fn lemma_next_timing(now_ms: int, precision_ms: int)
    requires
        now_ms >= 0,
    ensures
        ({
            let p = if precision_ms < 1 { 1 } else { precision_ms };
            let next = next_timing_ms(now_ms, precision_ms);
            &&& 1 <= next <= p
            &&& ends_on_tick(now_ms, next, p)
            &&& forall|q: int| 0 < q < next ==> !#[trigger] ends_on_tick(now_ms, q, p)
        }),
{
    let p = if precision_ms < 1 { 1 } else { precision_ms };
    let next = next_timing_ms(now_ms, precision_ms);
    let k = now_ms / p;
    let m = now_ms % p;
    lemma_fundamental_div_mod(now_ms, p);
    assert(0 <= m < p);
    assert(now_ms + next == (k + 1) * p) by (nonlinear_arith)
        requires
            now_ms == p * k + m,
            next == p - m,
    ;
    lemma_fundamental_div_mod_converse(now_ms + next, p, k + 1, 0);
    assert forall|q: int| 0 < q < next implies !#[trigger] ends_on_tick(now_ms, q, p) by {
        assert(now_ms + q == k * p + (m + q)) by (nonlinear_arith)
            requires
                now_ms == p * k + m,
        ;
        lemma_fundamental_div_mod_converse(now_ms + q, p, k, m + q);
    }
}

} // verus!
