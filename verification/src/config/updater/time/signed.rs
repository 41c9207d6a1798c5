//! A signed span of time and its packed form.
//!
//! A [`SignedDuration`] is a magnitude in whole seconds and nanoseconds; the
//! sign of the nanosecond field gives the direction. Packed, it is one
//! 128-bit number that an atomic cell can carry. What a span holds is
//! described by its view, a [`Span`], on which packing, unpacking and the
//! arithmetic of spans are defined.

use super::clock::{duration_nanos, instant_before, instant_nanos, representable};
use std::time::{Duration, Instant};
use vstd::pervasive::unreached;
use vstd::prelude::*;

verus! {

/// Nanoseconds in one second.
pub const NANOS_PER_SEC: u32 = 1_000_000_000;

/// The direction of a span.
#[derive(Clone, Copy, Debug, PartialEq, Eq, Structural)]
pub enum Sign {
    Neg,
    Pos,
}

/// A span of whole seconds and nanoseconds whose direction is the sign of the
/// nanosecond field. The seconds are always a magnitude, and the nanoseconds
/// are always short of a whole second: only the functions of this module make
/// a span, and each of them sees to that.
#[derive(Clone, Copy, Debug, PartialEq, Eq, Structural)]
pub struct SignedDuration {
    secs: u64,
    nanos: i32,
}

/// What a [`SignedDuration`] holds.
pub struct Span {
    pub secs: u64,
    pub nanos: i32,
}

/// The bit pattern of `nanos` read as an unsigned 32-bit number.
pub open spec fn nanos_bits(nanos: i32) -> int {
    if nanos < 0 {
        nanos + 0x1_0000_0000
    } else {
        nanos as int
    }
}

/// The signed number whose 32-bit pattern is `bits`.
pub open spec fn nanos_of_bits(bits: int) -> int {
    if bits >= 0x8000_0000 {
        bits - 0x1_0000_0000
    } else {
        bits
    }
}

/// The largest number of nanoseconds that a span of `u64` seconds can hold.
pub open spec fn max_span_nanos() -> int {
    u64::MAX * 1_000_000_000 + 999_999_999
}

impl Span {
    /// The nanosecond field is short of a whole second in either direction.
    pub open spec fn wf(self) -> bool {
        -NANOS_PER_SEC < self.nanos < NANOS_PER_SEC
    }

    /// The length of the span in nanoseconds, whatever its direction.
    pub open spec fn magnitude(self) -> int {
        self.secs * 1_000_000_000 + if self.nanos < 0 {
            -self.nanos
        } else {
            self.nanos as int
        }
    }

    /// The direction: backwards exactly when the nanosecond field is negative.
    pub open spec fn sign(self) -> Sign {
        if self.nanos < 0 {
            Sign::Neg
        } else {
            Sign::Pos
        }
    }

    /// The span as a signed number of nanoseconds.
    pub open spec fn value(self) -> int {
        if self.nanos < 0 {
            -self.magnitude()
        } else {
            self.magnitude()
        }
    }

    /// The span of `length` nanoseconds in the direction `sign`. A backward
    /// span of whole seconds has no negative nanoseconds to carry its sign
    /// and comes out forward.
    pub open spec fn of_length(length: int, sign: Sign) -> Span {
        Span {
            secs: (length / 1_000_000_000) as u64,
            nanos: match sign {
                Sign::Pos => (length % 1_000_000_000) as i32,
                Sign::Neg => (-(length % 1_000_000_000)) as i32,
            },
        }
    }

    /// The span that leads from the point `rhs` to the point `lhs`.
    pub open spec fn between(lhs: int, rhs: int) -> Span {
        if lhs < rhs {
            Self::of_length(rhs - lhs, Sign::Neg)
        } else {
            Self::of_length(lhs - rhs, Sign::Pos)
        }
    }

    /// Where the span from `rhs` to `lhs` leads when it is followed from `rhs`:
    /// to `lhs`, unless `lhs` lies a whole number of seconds before `rhs`.
    /// That span comes out forward and leads as far beyond `rhs` instead.
    pub open spec fn landing(lhs: int, rhs: int) -> int {
        if lhs < rhs && (rhs - lhs) % 1_000_000_000 == 0 {
            rhs + (rhs - lhs)
        } else {
            lhs
        }
    }

    /// The packed form: the seconds in the low 64 bits, the nanosecond bit
    /// pattern in the 32 bits above them, zeros in the rest.
    pub open spec fn packed(self) -> int {
        self.secs + nanos_bits(self.nanos) * 0x1_0000_0000_0000_0000
    }

    /// What a packed value unpacks to.
    pub open spec fn unpacked(value: int) -> Span {
        Span {
            secs: (value % 0x1_0000_0000_0000_0000) as u64,
            nanos: nanos_of_bits((value / 0x1_0000_0000_0000_0000) % 0x1_0000_0000) as i32,
        }
    }

    /// `value` is the packed form of a well-formed span.
    pub open spec fn is_packed(value: int) -> bool {
        &&& 0 <= value < 0x1_0000_0000_0000_0000_0000_0000
        &&& Self::unpacked(value).wf()
    }
}

impl View for SignedDuration {
    type V = Span;

    closed spec fn view(&self) -> Span {
        Span { secs: self.secs, nanos: self.nanos }
    }
}

impl SignedDuration {
    #[verifier::type_invariant]
    spec fn short_of_a_second(self) -> bool {
        self@.wf()
    }

    /// The whole seconds of the span.
    pub fn secs(&self) -> (secs: u64)
        ensures
            secs == self@.secs,
    {
        self.secs
    }

    /// The nanoseconds of the span beyond its whole seconds, negative if the
    /// span leads backwards.
    pub fn nanos(&self) -> (nanos: i32)
        ensures
            nanos == self@.nanos,
            self@.wf(),
    {
        proof {
            use_type_invariant(self);
        }
        self.nanos
    }

    /// The span of `dur` in the direction `sign`.
    pub fn from_duration_and_sign(dur: Duration, sign: Sign) -> (span: Self)
        ensures
            span@ == Span::of_length(duration_nanos(dur) as int, sign),
            span@.wf(),
            span@.magnitude() == duration_nanos(dur),
            duration_nanos(dur) <= max_span_nanos(),
            span@.value() == if sign == Sign::Neg && duration_nanos(dur) % 1_000_000_000 != 0 {
                -(duration_nanos(dur) as int)
            } else {
                duration_nanos(dur) as int
            },
    {
        let secs = dur.as_secs();
        let nanos = dur.subsec_nanos() as i32;
        match sign {
            Sign::Pos => Self { secs, nanos },
            Sign::Neg => Self { secs, nanos: -nanos },
        }
    }

    /// The span that leads from `rhs` to `lhs`: backwards if `lhs` is the
    /// earlier of the two.
    pub fn from_instant_difference(lhs: Instant, rhs: Instant) -> (span: Self)
        ensures
            span@ == Span::between(instant_nanos(lhs), instant_nanos(rhs)),
            span@.wf(),
            span@.magnitude() <= max_span_nanos(),
            span@.magnitude() == if instant_nanos(lhs) < instant_nanos(rhs) {
                instant_nanos(rhs) - instant_nanos(lhs)
            } else {
                instant_nanos(lhs) - instant_nanos(rhs)
            },
            instant_nanos(rhs) + span@.value() == Span::landing(
                instant_nanos(lhs),
                instant_nanos(rhs),
            ),
    {
        if instant_before(&lhs, &rhs) {
            match rhs.checked_duration_since(lhs) {
                Some(dur) => Self::from_duration_and_sign(dur, Sign::Neg),
                None => unreached(),
            }
        } else {
            match lhs.checked_duration_since(rhs) {
                Some(dur) => Self::from_duration_and_sign(dur, Sign::Pos),
                None => unreached(),
            }
        }
    }

    /// The length and the direction of the span.
    pub fn into_duration_and_sign(self) -> (parts: (Duration, Sign))
        ensures
            duration_nanos(parts.0) == self@.magnitude(),
            parts.1 == self@.sign(),
            self@.wf(),
    {
        proof {
            use_type_invariant(self);
        }
        let secs = self.secs;
        if self.nanos < 0 {
            (Duration::new(secs, (-self.nanos) as u32), Sign::Neg)
        } else {
            (Duration::new(secs, self.nanos as u32), Sign::Pos)
        }
    }

    /// Packs the span into one number.
    pub fn into_u128(self) -> (value: u128)
        ensures
            value == self@.packed(),
            Span::is_packed(value as int),
            Span::unpacked(value as int) == self@,
    {
        let secs = self.secs;
        let nanos = self.nanos;
        let bits = nanos as u32;
        let value = secs as u128 | (bits as u128) << 64;
        assert(bits == nanos_bits(nanos)) by (bit_vector)
            requires
                bits == nanos as u32,
        ;
        assert(value == secs + bits * 0x1_0000_0000_0000_0000) by (bit_vector)
            requires
                value == secs as u128 | (bits as u128) << 64,
        ;
        proof {
            use_type_invariant(self);
            lemma_pack_round_trip(self@);
        }
        value
    }

    /// Unpacks a number that [`SignedDuration::into_u128`] made.
    pub fn from_u128(value: u128) -> (span: Self)
        requires
            Span::is_packed(value as int),
        ensures
            span@ == Span::unpacked(value as int),
            span@.wf(),
            span@.packed() == value,
    {
        let secs = value as u64;
        let bits = (value >> 64) as u32;
        let nanos = bits as i32;
        assert(secs == value % 0x1_0000_0000_0000_0000) by (bit_vector)
            requires
                secs == value as u64,
        ;
        assert(bits == (value / 0x1_0000_0000_0000_0000) % 0x1_0000_0000) by (bit_vector)
            requires
                bits == (value >> 64) as u32,
        ;
        assert(nanos == nanos_of_bits(bits as int)) by (bit_vector)
            requires
                nanos == bits as i32,
        ;
        Self { secs, nanos }
    }

    /// Whether `value` is the packed form of a well-formed span.
    pub fn is_valid_u128(value: u128) -> (valid: bool)
        ensures
            valid == Span::is_packed(value as int),
    {
        let high = value >> 96;
        let bits = (value >> 64) as u32;
        let nanos = bits as i32;
        assert(high == 0 <==> value < 0x1_0000_0000_0000_0000_0000_0000) by (bit_vector)
            requires
                high == value >> 96,
        ;
        assert(bits == (value / 0x1_0000_0000_0000_0000) % 0x1_0000_0000) by (bit_vector)
            requires
                bits == (value >> 64) as u32,
        ;
        assert(nanos == nanos_of_bits(bits as int)) by (bit_vector)
            requires
                nanos == bits as i32,
        ;
        high == 0 && -(NANOS_PER_SEC as i32) < nanos && nanos < NANOS_PER_SEC as i32
    }

    /// Unpacks `value` if it is the packed form of a well-formed span.
    pub fn try_from_u128(value: u128) -> (span: Option<Self>)
        ensures
            span.is_some() == Span::is_packed(value as int),
            span matches Some(s) ==> s@ == Span::unpacked(value as int) && s@.wf() && s@.packed()
                == value,
    {
        if Self::is_valid_u128(value) {
            Some(Self::from_u128(value))
        } else {
            None
        }
    }

    /// The instant that lies this span away from `lhs`, if the platform can
    /// represent that instant, `None` otherwise.
    pub fn checked_add_to_instant(self, lhs: Instant) -> (moved: Option<Instant>)
        ensures
            moved.is_some() == representable(instant_nanos(lhs) + self@.value()),
            moved matches Some(t) ==> instant_nanos(t) == instant_nanos(lhs) + self@.value(),
    {
        match self.into_duration_and_sign() {
            (dur, Sign::Neg) => lhs.checked_sub(dur),
            (dur, Sign::Pos) => lhs.checked_add(dur),
        }
    }
}

impl Default for SignedDuration {
    /// The empty span.
    fn default() -> (span: Self)
        ensures
            span@ == (Span { secs: 0, nanos: 0 }),
    {
        SignedDuration { secs: 0, nanos: 0 }
    }
}

impl From<Duration> for SignedDuration {
    /// The forward span of the length of `dur`.
    fn from(dur: Duration) -> (span: Self)
        ensures
            span@ == Span::of_length(duration_nanos(dur) as int, Sign::Pos),
            span@.wf(),
            span@.magnitude() == duration_nanos(dur),
            span@.value() == duration_nanos(dur),
            duration_nanos(dur) <= max_span_nanos(),
    {
        SignedDuration::from_duration_and_sign(dur, Sign::Pos)
    }
}

impl vstd::std_specs::convert::FromSpecImpl<Duration> for SignedDuration {
    open spec fn obeys_from_spec() -> bool {
        true
    }

    closed spec fn from_spec(dur: Duration) -> Self {
        let span = Span::of_length(duration_nanos(dur) as int, Sign::Pos);
        SignedDuration { secs: span.secs, nanos: span.nanos }
    }
}

impl From<SignedDuration> for u128 {
    /// The packed form of `value`.
    fn from(value: SignedDuration) -> (packed: Self)
        ensures
            packed == value@.packed(),
    {
        value.into_u128()
    }
}

impl vstd::std_specs::convert::FromSpecImpl<SignedDuration> for u128 {
    open spec fn obeys_from_spec() -> bool {
        true
    }

    open spec fn from_spec(value: SignedDuration) -> Self {
        value@.packed() as u128
    }
}

/// Packing loses nothing: every span unpacks from its packed form, and the
/// packed form of a well-formed span is recognised as one.
pub proof fn lemma_pack_round_trip(span: Span)
    ensures
        Span::unpacked(span.packed()) == span,
        0 <= span.packed() < 0x1_0000_0000_0000_0000_0000_0000,
        span.wf() ==> Span::is_packed(span.packed()),
{
    let bits = nanos_bits(span.nanos);
    let packed = span.packed();
    assert(0 <= bits < 0x1_0000_0000);
    assert(packed % 0x1_0000_0000_0000_0000 == span.secs as int);
    assert(packed / 0x1_0000_0000_0000_0000 == bits);
    assert(nanos_of_bits(bits) == span.nanos);
}

/// A span of whatever length and direction has that length, and that
/// direction unless it is a backward span of whole seconds.
pub proof fn lemma_of_length(length: int, sign: Sign)
    requires
        0 <= length <= max_span_nanos(),
    ensures
        Span::of_length(length, sign).wf(),
        Span::of_length(length, sign).magnitude() == length,
        Span::of_length(length, sign).value() == if sign == Sign::Neg && length % 1_000_000_000
            != 0 {
            -length
        } else {
            length
        },
{
}

/// Storing an instant as its span from a reference and adding that span back
/// to the reference gives the instant again: the span survives packing, and
/// the reference moved by it lies where the instant lies. A backward span of
/// whole seconds is read back as forward, so an instant that lies whole
/// seconds before the reference is left out.
pub proof fn lemma_instant_round_trip(instant: Instant, reference: Instant)
    requires
        -max_span_nanos() <= instant_nanos(instant) - instant_nanos(reference) <= max_span_nanos(),
        instant_nanos(reference) <= instant_nanos(instant) || (instant_nanos(reference)
            - instant_nanos(instant)) % 1_000_000_000 != 0,
    ensures
        ({
            let stored = Span::between(instant_nanos(instant), instant_nanos(reference));
            let loaded = Span::unpacked(stored.packed());
            &&& Span::is_packed(stored.packed())
            &&& loaded == stored
            &&& instant_nanos(reference) + loaded.value() == instant_nanos(instant)
            &&& representable(instant_nanos(reference) + loaded.value())
        }),
{
    let a = instant_nanos(instant);
    let b = instant_nanos(reference);
    let stored = Span::between(a, b);
    if a < b {
        lemma_of_length(b - a, Sign::Neg);
    } else {
        lemma_of_length(a - b, Sign::Pos);
    }
    lemma_pack_round_trip(stored);
}

/// What lies between two points of the time line, read both ways: each of
/// the two spans is as long as the points are apart, and each runs in its own
/// direction unless the points are whole seconds apart.
proof fn lemma_between_both_ways(x: int, y: int)
    requires
        -max_span_nanos() <= x - y <= max_span_nanos(),
    ensures
        Span::between(x, y).wf(),
        Span::between(y, x).wf(),
        Span::between(x, y).magnitude() == if x < y {
            y - x
        } else {
            x - y
        },
        Span::between(y, x).magnitude() == Span::between(x, y).magnitude(),
        y + Span::between(x, y).value() == Span::landing(x, y),
        x + Span::between(y, x).value() == Span::landing(y, x),
{
    if x < y {
        lemma_of_length(y - x, Sign::Neg);
        lemma_of_length(y - x, Sign::Pos);
    } else {
        lemma_of_length(x - y, Sign::Neg);
        lemma_of_length(x - y, Sign::Pos);
    }
}

/// The span from `b` to `a` is the span from `a` to `b` negated: the two
/// have the same length and, unless they are empty, opposite directions. Two
/// instants that lie a whole, non-zero number of seconds apart are left out:
/// between them both spans come out forward.
pub proof fn lemma_difference_symmetry(a: Instant, b: Instant)
    requires
        -max_span_nanos() <= instant_nanos(a) - instant_nanos(b) <= max_span_nanos(),
        (instant_nanos(a) - instant_nanos(b)) % 1_000_000_000 != 0 || instant_nanos(a)
            == instant_nanos(b),
    ensures
        ({
            let forth = Span::between(instant_nanos(a), instant_nanos(b));
            let back = Span::between(instant_nanos(b), instant_nanos(a));
            &&& forth.value() == -back.value()
            &&& forth.magnitude() == back.magnitude()
            &&& instant_nanos(a) != instant_nanos(b) ==> forth.sign() != back.sign()
        }),
{
    lemma_between_both_ways(instant_nanos(a), instant_nanos(b));
}

/// Whatever lies between two instants, the span from one to the other is as
/// long as the span back.
pub proof fn lemma_difference_magnitude(a: Instant, b: Instant)
    requires
        -max_span_nanos() <= instant_nanos(a) - instant_nanos(b) <= max_span_nanos(),
    ensures
        Span::between(instant_nanos(a), instant_nanos(b)).magnitude() == Span::between(
            instant_nanos(b),
            instant_nanos(a),
        ).magnitude(),
{
    lemma_between_both_ways(instant_nanos(a), instant_nanos(b));
}

} // verus!
