//! What this crate takes on trust from `std::time`.
//!
//! `Duration` and `Instant` are opaque to the verifier. Each gets one
//! uninterpreted measure, and the few functions of `std` that the crate
//! calls are specified over those measures as their documentation reads.

use std::time::{Duration, Instant};
use vstd::prelude::*;

verus! {

/// `std::time::Instant`, carried through verified code as an opaque value.
#[verifier::external_type_specification]
#[verifier::external_body]
pub struct ExInstant(Instant);

/// The length of a `Duration` in nanoseconds.
pub uninterp spec fn duration_nanos(dur: Duration) -> nat;

/// Where an `Instant` lies on its clock's time line, in nanoseconds from the
/// clock's own, unspecified, origin.
pub uninterp spec fn instant_nanos(instant: Instant) -> int;

/// `Duration::as_secs`: the whole seconds that the duration contains.
pub assume_specification[ Duration::as_secs ](dur: &Duration) -> (secs: u64)
    ensures
        secs == duration_nanos(*dur) / 1_000_000_000,
;

/// `Duration::subsec_nanos`: the part of the duration beyond its whole
/// seconds, in nanoseconds; always less than one second.
pub assume_specification[ Duration::subsec_nanos ](dur: &Duration) -> (nanos: u32)
    ensures
        nanos == duration_nanos(*dur) % 1_000_000_000,
;

/// `Duration::new`: the duration of `secs` seconds and `nanos` nanoseconds.
/// Nanoseconds beyond a second carry into the seconds; `std` panics where
/// that carry overflows, so such arguments are excluded.
pub assume_specification[ Duration::new ](secs: u64, nanos: u32) -> (dur: Duration)
    requires
        secs + nanos / 1_000_000_000 <= u64::MAX,
    ensures
        duration_nanos(dur) == secs * 1_000_000_000 + nanos,
;

/// `Instant::checked_duration_since`: the time from `earlier` to `instant`.
/// Where `earlier` is the later of the two, the result is `None`, or, as some
/// platforms give it for a difference below the clock's resolution, an empty
/// duration.
pub assume_specification[ Instant::checked_duration_since ](
    instant: &Instant,
    earlier: Instant,
) -> (elapsed: Option<Duration>)
    ensures
        match elapsed {
            Some(dur) => duration_nanos(dur) == if instant_nanos(*instant) >= instant_nanos(
                earlier,
            ) {
                instant_nanos(*instant) - instant_nanos(earlier)
            } else {
                0
            },
            None => instant_nanos(*instant) < instant_nanos(earlier),
        },
;

/// The platform can represent the point `nanos` of the time line: some
/// `Instant` lies there.
pub open spec fn representable(nanos: int) -> bool {
    exists|instant: Instant| instant_nanos(instant) == nanos
}

/// `Instant::checked_add`: the instant `duration` after `instant` if the
/// platform can represent that instant, `None` otherwise.
pub assume_specification[ Instant::checked_add ](instant: &Instant, duration: Duration) -> (later:
    Option<Instant>)
    ensures
        later.is_some() == representable(instant_nanos(*instant) + duration_nanos(duration)),
        later matches Some(t) ==> instant_nanos(t) == instant_nanos(*instant) + duration_nanos(
            duration,
        ),
;

/// `Instant::checked_sub`: the instant `duration` before `instant` if the
/// platform can represent that instant, `None` otherwise.
pub assume_specification[ Instant::checked_sub ](instant: &Instant, duration: Duration) -> (earlier:
    Option<Instant>)
    ensures
        earlier.is_some() == representable(instant_nanos(*instant) - duration_nanos(duration)),
        earlier matches Some(t) ==> instant_nanos(t) == instant_nanos(*instant) - duration_nanos(
            duration,
        ),
;

/// `<` on `Instant`: whether `lhs` lies before `rhs` on the time line.
#[verifier::external_body]
pub(crate) fn instant_before(lhs: &Instant, rhs: &Instant) -> (before: bool)
    ensures
        before == (instant_nanos(*lhs) < instant_nanos(*rhs)),
{
    lhs < rhs
}

} // verus!
