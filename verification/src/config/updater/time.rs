//! Time values that fit in one atomic cell.
//!
//! An [`AtomicDuration`] and an [`AtomicInstant`] each keep one packed
//! [`SignedDuration`] in a 128-bit atomic cell, so that threads can share a
//! point or a span of time without a lock. An instant is kept as its span
//! from a reference instant that is fixed when the cell is made.

pub mod clock;
pub mod signed;
pub mod word;

use clock::{duration_nanos, instant_nanos, representable};
use portable_atomic::AtomicU128;
use signed::{Sign, SignedDuration, Span};
use std::sync::atomic::Ordering;
use std::time::{Duration, Instant};
use vstd::prelude::*;
use word::{load_order, store_order};

verus! {

/// A duration that threads can load and store without a lock.
pub struct AtomicDuration(SignedAtomicDuration);

/// An instant that threads can load and store without a lock.
pub struct AtomicInstant(SignedAtomicDuration, Instant);

/// The shared cell under both: one packed [`SignedDuration`].
struct SignedAtomicDuration(AtomicU128);

impl AtomicDuration {
    /// A cell that holds `dur`.
    pub fn new(dur: Duration) -> Self {
        Self(SignedAtomicDuration::new(SignedDuration::from(dur)))
    }

    /// The word that stands for `dur` in the cell: the packed form of the
    /// forward span of that length.
    pub fn encode(dur: Duration) -> (word: u128)
        ensures
            word == Span::of_length(duration_nanos(dur) as int, Sign::Pos).packed(),
            Span::is_packed(word as int),
            Span::unpacked(word as int).magnitude() == duration_nanos(dur),
    {
        SignedDuration::from_duration_and_sign(dur, Sign::Pos).into_u128()
    }

    /// The duration that `word` stands for: the length of the span that is
    /// packed in it, or `None` if `word` is no packed span.
    pub fn decode(word: u128) -> (dur: Option<Duration>)
        ensures
            dur.is_some() == Span::is_packed(word as int),
            dur matches Some(d) ==> duration_nanos(d) == Span::unpacked(
                word as int,
            ).magnitude(),
    {
        match SignedDuration::try_from_u128(word) {
            Some(span) => Some(span.into_duration_and_sign().0),
            None => None,
        }
    }

    /// The duration in the cell at the moment of the load: what
    /// [`AtomicDuration::decode`] makes of the word that the cell holds.
    /// `None` if that word is no packed span, which does not happen to a
    /// cell that only `new` and `store` have written.
    pub fn load(&self, order: Ordering) -> (dur: Option<Duration>)
        requires
            load_order(order),
    {
        Self::decode(self.0.load(order))
    }

    /// Replaces the duration in the cell by `dur`: the cell holds what
    /// [`AtomicDuration::encode`] makes of it.
    pub fn store(&self, dur: Duration, order: Ordering)
        requires
            store_order(order),
    {
        self.0.store(Self::encode(dur), order);
    }
}

impl AtomicInstant {
    /// The instant from which the cell measures.
    pub closed spec fn reference(&self) -> Instant {
        self.1
    }

    /// A cell that measures from `instant` and holds `instant`.
    pub fn new(instant: Instant) -> (cell: Self)
        ensures
            cell.reference() == instant,
    {
        Self(SignedAtomicDuration::new(SignedDuration::default()), instant)
    }

    /// The word that stands for `instant` in the cell: the packed form of
    /// the span that leads from the reference to `instant`.
    pub fn encode(&self, instant: Instant) -> (word: u128)
        ensures
            word == Span::between(
                instant_nanos(instant),
                instant_nanos(self.reference()),
            ).packed(),
            Span::is_packed(word as int),
            instant_nanos(self.reference()) + Span::unpacked(word as int).value()
                == Span::landing(instant_nanos(instant), instant_nanos(self.reference())),
    {
        SignedDuration::from_instant_difference(instant, self.1).into_u128()
    }

    /// The instant that `word` stands for: the reference moved by the span
    /// that is packed in `word`. `None` if `word` is no packed span, or if the
    /// platform cannot represent the moved instant.
    pub fn decode(&self, word: u128) -> (instant: Option<Instant>)
        ensures
            instant.is_some() == (Span::is_packed(word as int) && representable(
                instant_nanos(self.reference()) + Span::unpacked(word as int).value(),
            )),
            instant matches Some(t) ==> instant_nanos(t) == instant_nanos(self.reference())
                + Span::unpacked(word as int).value(),
    {
        match SignedDuration::try_from_u128(word) {
            Some(span) => span.checked_add_to_instant(self.1),
            None => None,
        }
    }

    /// The instant in the cell at the moment of the load: what
    /// [`AtomicInstant::decode`] makes of the word that the cell holds.
    /// `None` does not happen to a cell that only `new` and `store` have
    /// written.
    pub fn load(&self, order: Ordering) -> (instant: Option<Instant>)
        requires
            load_order(order),
    {
        self.decode(self.0.load(order))
    }

    /// Replaces the instant in the cell by `instant`: the cell holds what
    /// [`AtomicInstant::encode`] makes of it.
    pub fn store(&self, instant: Instant, order: Ordering)
        requires
            store_order(order),
    {
        self.0.store(self.encode(instant), order)
    }
}

impl SignedAtomicDuration {
    /// A cell that holds `span`, packed.
    fn new(span: SignedDuration) -> Self {
        Self(AtomicU128::new(u128::from(span)))
    }

    /// The word that the cell holds at the moment of the load.
    fn load(&self, order: Ordering) -> u128
        requires
            load_order(order),
    {
        self.0.load(order)
    }

    /// Replaces the word that the cell holds.
    fn store(&self, word: u128, order: Ordering)
        requires
            store_order(order),
    {
        self.0.store(word, order);
    }
}

} // verus!
