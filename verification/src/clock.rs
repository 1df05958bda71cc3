//! Clock readings: the timestamp that an event carries, and the time since a turn started.

use std::time::Instant;
use vstd::prelude::*;

verus! {

/// [`std::time::Instant`], declared as an opaque type.
#[verifier::external_type_specification]
#[verifier::external_body]
pub struct ExInstant(std::time::Instant);

/// The RFC 3339 text of the instant that lies `nanos` nanoseconds after second `secs` of the Unix
/// epoch, or nothing where `chrono` has no date for it.
pub uninterp spec fn rfc3339_text(secs: i64, nanos: u32) -> Option<Seq<char>>;

/// `secs` and `nanos` are what a call of [`chrono::Utc::now`] gave, as seconds of the Unix epoch and
/// nanoseconds beyond them.
pub closed spec fn is_utc_reading(secs: i64, nanos: u32) -> bool {
    call_ensures(utc_now, (), (secs, nanos))
}

/// `text` is the RFC 3339 text of a reading of the system's clock.
pub open spec fn is_timestamp(text: Seq<char>) -> bool {
    exists|secs: i64, nanos: u32|
        is_utc_reading(secs, nanos) && #[trigger] rfc3339_text(secs, nanos) == Some(text)
}

/// [`std::time::Instant::now`]. Which instant it gives rests on the machine's clock, so nothing is
/// claimed of it.
pub assume_specification[ std::time::Instant::now ]() -> (now: std::time::Instant)
;

/// [`std::time::Instant::elapsed`], as whole seconds and the nanoseconds beyond them. How much
/// time has passed rests on the machine's clock; that the nanoseconds are less than one second is
/// what `Duration` promises.
#[verifier::external_body]
pub(crate) fn elapsed(start: &Instant) -> (elapsed: (u64, u32))
    ensures
        elapsed.1 < 1_000_000_000,
{
    let duration = start.elapsed();
    (duration.as_secs(), duration.subsec_nanos())
}

/// [`chrono::Utc::now`], as seconds of the Unix epoch and nanoseconds beyond them. Which instant
/// it is rests on the system's clock (and `chrono` panics where that clock stands before the
/// epoch); that it is an instant for which `chrono` has a date, since it came out of one, is
/// claimed.
#[verifier::external_body]
pub(crate) fn utc_now() -> (now: (i64, u32))
    ensures
        rfc3339_text(now.0, now.1) is Some,
{
    let now = chrono::Utc::now();
    (now.timestamp(), now.timestamp_subsec_nanos())
}

/// [`chrono::DateTime::to_rfc3339`] on the date that [`chrono::DateTime::from_timestamp`] makes of
/// the two numbers: its result is what [`rfc3339_text`] names.
#[verifier::external_body]
pub(crate) fn rfc3339(secs: i64, nanos: u32) -> (text: Option<String>)
    ensures
        text is Some <==> rfc3339_text(secs, nanos) is Some,
        text is Some ==> text->0@ == rfc3339_text(secs, nanos)->0,
{
    match chrono::DateTime::<chrono::Utc>::from_timestamp(secs, nanos) {
        Some(date) => Some(date.to_rfc3339()),
        None => None,
    }
}

/// `now` is what a call of [`std::time::Instant::now`] gave.
pub open spec fn is_clock_reading(now: Instant) -> bool {
    call_ensures(Instant::now, (), now)
}

/// `since` is what a call of [`std::time::Instant::elapsed`] on `start` gave, as whole seconds and
/// the nanoseconds beyond them.
pub closed spec fn is_elapsed_reading(start: Instant, since: (u64, u32)) -> bool {
    call_ensures(elapsed, (&start,), since)
}

/// Calls `clock`.
fn read_clock<T, C: FnOnce() -> T>(clock: C) -> (now: T)
    requires
        clock.requires(()),
    ensures
        clock.ensures((), now),
{
    clock()
}

/// Calls `read` on `start`.
fn read_since<S: FnOnce(&Instant) -> (u64, u32)>(read: S, start: &Instant) -> (since: (u64, u32))
    requires
        read.requires((start,)),
    ensures
        read.ensures((start,), since),
{
    read(start)
}

/// The current reading of the monotonic clock.
pub fn current_instant() -> (now: Instant)
    ensures
        is_clock_reading(now),
{
    read_clock(Instant::now)
}

/// The time since `start`, as whole seconds and the nanoseconds beyond them.
pub fn time_since(start: &Instant) -> (since: (u64, u32))
    ensures
        is_elapsed_reading(*start, since),
        since.1 < 1_000_000_000,
{
    read_since(elapsed, start)
}

/// The RFC 3339 text of the current time.
pub fn timestamp() -> (text: String)
    ensures
        is_timestamp(text@),
        exists|secs: i64, nanos: u32| #[trigger] rfc3339_text(secs, nanos) == Some(text@),
{
    let (secs, nanos): (i64, u32) = read_clock(utc_now);
    let text: String = rfc3339(secs, nanos).unwrap();
    assert(rfc3339_text(secs, nanos) == Some(text@));
    text
}

/// The milliseconds that a duration of `secs` seconds and `nanos` nanoseconds holds, cut to the
/// low 64 bits.
pub open spec fn whole_millis(secs: u64, nanos: u32) -> int {
    (secs * 1000 + nanos / 1_000_000) % 0x1_0000_0000_0000_0000
}

/// The length in milliseconds of a turn that started `elapsed` seconds and nanoseconds ago, and
/// zero for one that has not started.
pub open spec fn turn_millis(elapsed: Option<(u64, u32)>) -> int {
    match elapsed {
        Some(e) => whole_millis(e.0, e.1),
        None => 0,
    }
}

/// Computes the length in milliseconds of a turn.
pub fn duration_ms(elapsed: Option<(u64, u32)>) -> (millis: u64)
    ensures
        millis == turn_millis(elapsed),
        elapsed is None ==> millis == 0,
        elapsed matches Some(e) ==> (e.0 * 1000 + e.1 / 1_000_000 - millis)
            % 0x1_0000_0000_0000_0000 == 0,
        elapsed matches Some(e) ==> (e.0 * 1000 + e.1 / 1_000_000 < 0x1_0000_0000_0000_0000
            ==> millis == e.0 * 1000 + e.1 / 1_000_000),
{
    match elapsed {
        Some((secs, nanos)) => {
            let millis: u128 = secs as u128 * 1000 + (nanos / 1_000_000) as u128;
            (millis % 0x1_0000_0000_0000_0000) as u64
        },
        None => 0,
    }
}

/// A duration that is shorter than 2^64 milliseconds is reported in full: no bits are cut off.
pub proof fn law_duration_is_exact(secs: u64, nanos: u32)
    requires
        secs * 1000 + nanos / 1_000_000 < 0x1_0000_0000_0000_0000,
    ensures
        whole_millis(secs, nanos) == secs * 1000 + nanos / 1_000_000,
        turn_millis(Some((secs, nanos))) == secs * 1000 + nanos / 1_000_000,
{
}

/// What is reported of any started turn fits 64 bits and differs from its length in milliseconds by
/// a multiple of 2^64; of a turn that has not started, zero is reported.
pub proof fn law_duration_is_cut_to_64_bits(secs: u64, nanos: u32)
    ensures
        0 <= turn_millis(Some((secs, nanos))) < 0x1_0000_0000_0000_0000,
        (secs * 1000 + nanos / 1_000_000 - turn_millis(Some((secs, nanos))))
            % 0x1_0000_0000_0000_0000 == 0,
        turn_millis(None) == 0,
{
}

/// One second more of a turn is a thousand milliseconds more in its report, and a whole millisecond
/// more is one more, as long as the report is not cut.
pub proof fn law_duration_grows_with_time(secs: u64, nanos: u32, more_secs: u64, more_millis: u32)
    requires
        secs + more_secs <= u64::MAX,
        nanos + more_millis * 1_000_000 <= u32::MAX,
        (secs + more_secs) * 1000 + (nanos + more_millis * 1_000_000) / 1_000_000
            < 0x1_0000_0000_0000_0000,
    ensures
        turn_millis(
            Some(((secs + more_secs) as u64, (nanos + more_millis * 1_000_000) as u32)),
        ) == turn_millis(Some((secs, nanos))) + more_secs * 1000 + more_millis,
{
}

/// A timestamp is the RFC 3339 text of an instant that a reading of the system's clock gave.
pub proof fn law_timestamp_is_a_reading(text: Seq<char>)
    requires
        is_timestamp(text),
    ensures
        exists|secs: i64, nanos: u32|
            is_utc_reading(secs, nanos) && #[trigger] rfc3339_text(secs, nanos) == Some(text),
{
}

/// What counts as a reading of the system's clock is what [`utc_now`] may give, and it always has
/// a date.
pub(crate) proof fn law_utc_reading_is_a_call(secs: i64, nanos: u32)
    requires
        is_utc_reading(secs, nanos),
    ensures
        call_ensures(utc_now, (), (secs, nanos)),
        rfc3339_text(secs, nanos) is Some,
{
}

/// What counts as the time since `start` is what [`elapsed`] may give for `start`.
pub(crate) proof fn law_elapsed_reading_is_a_call(start: Instant, since: (u64, u32))
    requires
        is_elapsed_reading(start, since),
    ensures
        call_ensures(elapsed, (&start,), since),
        since.1 < 1_000_000_000,
{
}

/// What counts as a reading of the monotonic clock is what [`std::time::Instant::now`] may give.
pub proof fn law_clock_reading_is_a_call(now: Instant)
    requires
        is_clock_reading(now),
    ensures
        call_ensures(Instant::now, (), now),
{
}

} // verus!
