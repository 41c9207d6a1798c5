//! The configuration cache.
//!
//! A [`ConfigUpdater`] serves the configuration that was last read from a
//! file to any number of threads. It looks at the file's modification time at
//! most once per [`UPDATE_INTERVAL_NANOS`] and has the file read again only
//! when that time has changed. The cache does not touch the file itself: the
//! caller hands it the clock reading of each call and the two ways to look at
//! the file, and every call reports what it found and what it did in an
//! [`Update`]. The cache reads the clock on its own account once only, when
//! it is made for a file that has no modification time.

pub mod shared;
pub mod time;

use shared::{exclusive, file_name_replaced, guarded, shared, with_file_name};
use std::path::PathBuf;
use std::sync::atomic::Ordering;
use std::sync::{RwLock, RwLockReadGuard};
use std::time::{Duration, Instant};
use time::clock::{duration_nanos, instant_nanos};
use time::{AtomicDuration, AtomicInstant};
use vstd::prelude::*;

verus! {

/// The file name of the configuration, beside the module that reads it.
pub const CONFIG_NAME: &'static str = "erfps2.toml";

/// The least time between two looks at the file, in nanoseconds.
pub const UPDATE_INTERVAL_NANOS: u32 = 100_000_000;

/// The configuration cache.
#[verifier::reject_recursive_types(C)]
pub struct ConfigUpdater<C> {
    config_path: PathBuf,
    config: RwLock<C>,
    last_update: AtomicInstant,
    last_timestamp: AtomicDuration,
}

/// What reading the configuration file gave.
pub enum Loaded<C> {
    /// The file was read and holds this configuration.
    Read(C),
    /// The file was read and holds no configuration.
    Malformed,
    /// The file could not be read.
    Unreadable,
}

/// What a call did about the configuration file.
#[derive(Clone, Copy, Debug, PartialEq, Eq)]
pub enum Outcome {
    /// The last look at the file was no more than the interval ago: nothing
    /// was asked.
    NotDue,
    /// The file's modification time could not be had: nothing was read, and
    /// the next call after the interval asks again.
    NoTimestamp,
    /// The file's modification time is the one seen last: nothing was read.
    Unchanged { timestamp: Duration },
    /// The file has changed and could not be read: the configuration stays,
    /// and so does the modification time seen last, so that the next call
    /// after the interval reads again.
    Unreadable { timestamp: Duration },
    /// The file has changed and holds no configuration: the configuration
    /// stays, and the file is not read again until it changes once more.
    Malformed { timestamp: Duration },
    /// The file has changed and its configuration has replaced the one
    /// before.
    Replaced { timestamp: Duration },
}

/// What a call found in the cache and what it did.
#[derive(Clone, Copy, Debug)]
pub struct Update {
    /// The time of the last look at the file as the call found it, or `None`
    /// where it could not be had.
    pub last_update: Option<Instant>,
    /// The modification time seen last as the call found it, or `None` where
    /// the call did not get to ask for it or it could not be had.
    pub last_timestamp: Option<Duration>,
    /// What the call did.
    pub outcome: Outcome,
}

/// Whether a call at `now` has to look at the file when the last look was
/// at `last_update`: more than the interval lies between them.
pub open spec fn poll_due_at(now: int, last_update: int) -> bool {
    now - last_update > UPDATE_INTERVAL_NANOS
}

/// Whether a call at `now` has to look at the file when it found the last
/// look to have been at `last_update`: also where that time could not be had.
pub open spec fn poll_due_since(now: Instant, last_update: Option<Instant>) -> bool {
    match last_update {
        Some(last_update) => poll_due_at(instant_nanos(now), instant_nanos(last_update)),
        None => true,
    }
}

/// Whether the file has to be read again at the modification time
/// `timestamp` when the one seen last is `last_timestamp`: where they
/// differ, and where the one seen last could not be had.
pub open spec fn changed_since(timestamp: Duration, last_timestamp: Option<Duration>) -> bool {
    match last_timestamp {
        Some(last_timestamp) => duration_nanos(timestamp) != duration_nanos(last_timestamp),
        None => true,
    }
}

/// What a call has done once the file, modified at `timestamp`, gave
/// `loaded`.
pub open spec fn outcome_of<C>(loaded: Loaded<C>, timestamp: Duration) -> Outcome {
    match loaded {
        Loaded::Read(_) => Outcome::Replaced { timestamp },
        Loaded::Malformed => Outcome::Malformed { timestamp },
        Loaded::Unreadable => Outcome::Unreadable { timestamp },
    }
}

/// Whether a call at `now` has to look at the file when the last look was at
/// `last_update`. Where the time of the last look could not be had, the call
/// has to look.
pub fn poll_due(now: Instant, last_update: Option<Instant>) -> (due: bool)
    ensures
        due == poll_due_since(now, last_update),
{
    match last_update {
        Some(last_update) => match now.checked_duration_since(last_update) {
            Some(elapsed) => elapsed.as_secs() > 0 || elapsed.subsec_nanos()
                > UPDATE_INTERVAL_NANOS,
            None => false,
        },
        None => true,
    }
}

/// Whether the file has to be read again: its modification time is not the
/// one that was seen last. Where the time seen last could not be had, the
/// file has to be read.
pub fn timestamp_changed(timestamp: &Duration, last_timestamp: Option<Duration>) -> (changed: bool)
    ensures
        changed == changed_since(*timestamp, last_timestamp),
{
    match last_timestamp {
        Some(last_timestamp) => timestamp.as_secs() != last_timestamp.as_secs()
            || timestamp.subsec_nanos() != last_timestamp.subsec_nanos(),
        None => true,
    }
}

impl Update {
    /// The call that reports this had to look at the file.
    pub open spec fn due(self) -> bool {
        self.outcome != Outcome::NotDue
    }

    /// The time of the last look at the file as the call at `now` that
    /// reports this left it: a call that has to look puts its own time there.
    pub open spec fn left(self, now: Instant) -> Option<Instant> {
        if self.due() {
            Some(now)
        } else {
            self.last_update
        }
    }
}

/// The calls at the times `nows` report `updates` as calls do that follow one
/// another with nothing in between: each decides by what it finds, and each
/// but the first finds what the one before it left.
pub open spec fn in_turn(nows: Seq<Instant>, updates: Seq<Update>) -> bool {
    &&& nows.len() == updates.len()
    &&& forall|i: int|
        0 <= i < updates.len() ==> (#[trigger] updates[i]).due() == poll_due_since(
            nows[i],
            updates[i].last_update,
        )
    &&& forall|i: int|
        0 < i < updates.len() ==> (#[trigger] updates[i]).last_update == updates[i - 1].left(
            nows[i - 1],
        )
}

/// How many of the calls that report `updates` had to look at the file.
pub open spec fn looks(updates: Seq<Update>) -> nat
    decreases updates.len(),
{
    if updates.len() == 0 {
        0
    } else if updates[0].due() {
        1 + looks(updates.drop_first())
    } else {
        looks(updates.drop_first())
    }
}

/// All the times `nows` fall within the one interval that begins at `from`.
pub open spec fn within_interval(nows: Seq<Instant>, from: int) -> bool {
    forall|i: int|
        0 <= i < nows.len() ==> from <= instant_nanos(#[trigger] nows[i]) <= from
            + UPDATE_INTERVAL_NANOS
}

/// Calls in turn that all fall within one interval look at the file at most
/// once, however many they are and whatever the first of them finds.
pub proof fn lemma_one_look_per_interval(nows: Seq<Instant>, updates: Seq<Update>, from: int)
    requires
        in_turn(nows, updates),
        within_interval(nows, from),
    ensures
        looks(updates) <= 1,
    decreases updates.len(),
{
    if updates.len() > 0 {
        lemma_rest_in_turn(nows, updates, from);
        if updates[0].due() {
            if updates.len() > 1 {
                assert(updates.drop_first()[0] == updates[1]);
                assert(updates[1].last_update == Some(nows[0]));
            }
            lemma_no_look_after(nows.drop_first(), updates.drop_first(), from);
        } else {
            lemma_one_look_per_interval(nows.drop_first(), updates.drop_first(), from);
        }
    }
}

/// Once a call within the interval has looked at the file, none of the calls
/// in turn after it within the same interval does.
pub proof fn lemma_no_look_after(nows: Seq<Instant>, updates: Seq<Update>, from: int)
    requires
        in_turn(nows, updates),
        within_interval(nows, from),
        updates.len() > 0 ==> updates[0].last_update is Some && from <= instant_nanos(
            updates[0].last_update->Some_0,
        ) <= from + UPDATE_INTERVAL_NANOS,
    ensures
        looks(updates) == 0,
    decreases updates.len(),
{
    if updates.len() > 0 {
        lemma_rest_in_turn(nows, updates, from);
        assert(!updates[0].due());
        if updates.len() > 1 {
            assert(updates.drop_first()[0] == updates[1]);
            assert(updates[1].last_update == updates[0].last_update);
        }
        lemma_no_look_after(nows.drop_first(), updates.drop_first(), from);
    }
}

/// Calls in turn stay in turn, and within their interval, when the first of
/// them is left out.
proof fn lemma_rest_in_turn(nows: Seq<Instant>, updates: Seq<Update>, from: int)
    requires
        in_turn(nows, updates),
        within_interval(nows, from),
        updates.len() > 0,
    ensures
        in_turn(nows.drop_first(), updates.drop_first()),
        within_interval(nows.drop_first(), from),
{
    let rest_nows = nows.drop_first();
    let rest = updates.drop_first();
    assert forall|i: int| 0 <= i < rest.len() implies (#[trigger] rest[i]).due() == poll_due_since(
        rest_nows[i],
        rest[i].last_update,
    ) by {
        assert(rest[i] == updates[i + 1]);
        assert(rest_nows[i] == nows[i + 1]);
    }
    assert forall|i: int| 0 < i < rest.len() implies (#[trigger] rest[i]).last_update == rest[i
        - 1].left(rest_nows[i - 1]) by {
        assert(rest[i] == updates[i + 1]);
        assert(rest[i - 1] == updates[i]);
        assert(rest_nows[i - 1] == nows[i]);
    }
    assert forall|i: int| 0 <= i < rest_nows.len() implies from <= instant_nanos(
        #[trigger] rest_nows[i],
    ) <= from + UPDATE_INTERVAL_NANOS by {
        assert(rest_nows[i] == nows[i + 1]);
    }
}

/// The longest module file name, in 16-bit units, that is asked for.
pub const MODULE_FILE_NAME_CAPACITY: u32 = 32767;

/// The module's file name out of the `buffer` that the platform filled with
/// `len` units of it. A length of zero is the platform's failure, and a
/// length of the whole capacity means that the name did not fit: both give
/// `None`.
pub fn module_file_name(buffer: Vec<u16>, len: u32) -> (name: Option<Vec<u16>>)
    ensures
        name.is_some() == (len != 0 && len != MODULE_FILE_NAME_CAPACITY),
        name matches Some(units) ==> units@ == if len <= buffer.len() {
            buffer@.subrange(0, len as int)
        } else {
            buffer@
        },
{
    if len == 0 || len == MODULE_FILE_NAME_CAPACITY {
        return None;
    }
    let mut units = buffer;
    units.truncate(len as usize);
    Some(units)
}

/// Takes in what reading the file gave: a configuration that was read
/// replaces the current one, a file that could not be read or holds none
/// leaves the current one in place.
pub fn refresh<C>(current: &mut C, loaded: Loaded<C>)
    ensures
        *final(current) == match loaded {
            Loaded::Read(config) => config,
            _ => *old(current),
        },
{
    match loaded {
        Loaded::Read(config) => {
            *current = config;
        },
        _ => {},
    }
}

/// Whether the modification time at which the file gave `loaded` becomes the
/// one seen last: not where the file could not be read, so that it is read
/// again at the next look.
pub fn seen<C>(loaded: &Loaded<C>) -> (kept: bool)
    ensures
        kept == !(*loaded is Unreadable),
{
    match loaded {
        Loaded::Unreadable => false,
        _ => true,
    }
}

/// The configuration to start with: the one that was read, or the default
/// where none could be read.
pub fn initial_config<C: Default>(loaded: Loaded<C>) -> (config: C)
    ensures
        match loaded {
            Loaded::Read(c) => config == c,
            _ => call_ensures(C::default, (), config),
        },
{
    match loaded {
        Loaded::Read(config) => config,
        _ => C::default(),
    }
}

/// The modification time to start with: the one that the file has, or, where
/// it has none, the short time since `started`, which no file's modification
/// time equals.
pub fn initial_timestamp(modified: Option<Duration>, started: &Instant) -> (timestamp: Duration)
    ensures
        modified matches Some(t) ==> timestamp == t,
{
    match modified {
        Some(timestamp) => timestamp,
        None => started.elapsed(),
    }
}

/// Where the configuration lies: beside the module at `module_file`, under
/// the name [`CONFIG_NAME`].
pub fn config_path_beside(module_file: PathBuf) -> (path: PathBuf)
    ensures
        path == file_name_replaced(module_file, CONFIG_NAME@),
{
    with_file_name(module_file, CONFIG_NAME)
}

impl<C> ConfigUpdater<C> {
    /// The path of the configuration file.
    pub closed spec fn path(&self) -> PathBuf {
        self.config_path
    }

    /// The instant at which the cache was made.
    pub closed spec fn started(&self) -> Instant {
        self.last_update.reference()
    }

    /// A cache for the configuration beside the module at `module_file`,
    /// made at `now`. `load` reads the file once; where it gives no
    /// configuration the cache starts with the default one. `query` asks once
    /// for the file's modification time.
    pub fn new<L, Q>(module_file: PathBuf, now: Instant, load: L, query: Q) -> (updater: Self) where
        C: Default,
        L: FnOnce(&PathBuf) -> Loaded<C>,
        Q: FnOnce(&PathBuf) -> Option<Duration>,

        requires
            load.requires((&file_name_replaced(module_file, CONFIG_NAME@),)),
            query.requires((&file_name_replaced(module_file, CONFIG_NAME@),)),
        ensures
            updater.path() == file_name_replaced(module_file, CONFIG_NAME@),
            updater.started() == now,
            exists|read: Loaded<C>, stamp: Option<Duration>|
                #[trigger] load.ensures((&updater.path(),), read) && #[trigger] query.ensures(
                    (&updater.path(),),
                    stamp,
                ),
    {
        let config_path = config_path_beside(module_file);
        let config = initial_config(load(&config_path));
        let last_timestamp = initial_timestamp(query(&config_path), &now);
        Self {
            config_path,
            config: RwLock::new(config),
            last_update: AtomicInstant::new(now),
            last_timestamp: AtomicDuration::new(last_timestamp),
        }
    }

    /// The path of the configuration file.
    pub fn config_path(&self) -> (path: &PathBuf)
        ensures
            *path == self.path(),
    {
        &self.config_path
    }

    /// The configuration as it is now, for as long as the guard is held.
    fn get(&self) -> RwLockReadGuard<'_, C> {
        shared(&self.config)
    }

    /// Whether a call at `now` has to look at the file, decided from the time
    /// of the last look as it is found, which is handed back too. If the call
    /// has to look, `now` becomes the time of the last look at once, so that
    /// other callers go on without one.
    fn poll(&self, now: Instant) -> (found: (bool, Option<Instant>))
        ensures
            found.0 == poll_due_since(now, found.1),
    {
        let last_update = self.last_update.load(Ordering::Acquire);
        let due = poll_due(now, last_update);
        if due {
            self.last_update.store(now, Ordering::Release);
        }
        (due, last_update)
    }

    /// Whether the file has to be read again, now that its modification time
    /// is `timestamp`, decided from the modification time seen last as it is
    /// found, which is handed back too.
    fn modified(&self, timestamp: &Duration) -> (found: (bool, Option<Duration>))
        ensures
            found.0 == changed_since(*timestamp, found.1),
    {
        let last_timestamp = self.last_timestamp.load(Ordering::Relaxed);
        (timestamp_changed(timestamp, last_timestamp), last_timestamp)
    }

    /// Takes in what reading the file gave: a configuration that was read
    /// replaces the current one, anything else leaves the current one in
    /// place. Unless the file could not be read, `timestamp` is the
    /// modification time seen last from now on.
    fn reload(&self, loaded: Loaded<C>, timestamp: Duration) -> (outcome: Outcome)
        ensures
            outcome == outcome_of(loaded, timestamp),
    {
        let kept = seen(&loaded);
        let outcome = match loaded {
            Loaded::Read(_) => Outcome::Replaced { timestamp },
            Loaded::Malformed => Outcome::Malformed { timestamp },
            Loaded::Unreadable => Outcome::Unreadable { timestamp },
        };
        let mut guard = exclusive(&self.config);
        refresh(guarded(&mut guard), loaded);
        if kept {
            self.last_timestamp.store(timestamp, Ordering::Relaxed);
        }
        outcome
    }

    /// The current configuration, brought up to date first where that is
    /// due, and what the call found and did. If more than the interval has
    /// passed since the last look at the file, `query` asks for its
    /// modification time, and if that has changed, `load` reads the file.
    /// Neither is called more than once, and only a configuration that was
    /// read replaces the current one. The guard that comes back has to be let
    /// go before the same thread asks again.
    pub fn get_or_update<Q, L>(&self, now: Instant, query: Q, load: L) -> (served: (
        RwLockReadGuard<'_, C>,
        Update,
    )) where Q: FnOnce(&PathBuf) -> Option<Duration>, L: FnOnce(&PathBuf) -> Loaded<C>
        requires
            query.requires((&self.path(),)),
            load.requires((&self.path(),)),
        ensures
            served.1.due() == poll_due_since(now, served.1.last_update),
            match served.1.outcome {
                Outcome::NotDue => served.1.last_timestamp is None,
                Outcome::NoTimestamp => {
                    &&& served.1.last_timestamp is None
                    &&& query.ensures((&self.path(),), None)
                },
                Outcome::Unchanged { timestamp } => {
                    &&& query.ensures((&self.path(),), Some(timestamp))
                    &&& !changed_since(timestamp, served.1.last_timestamp)
                },
                Outcome::Unreadable { timestamp } => {
                    &&& query.ensures((&self.path(),), Some(timestamp))
                    &&& changed_since(timestamp, served.1.last_timestamp)
                    &&& load.ensures((&self.path(),), Loaded::Unreadable)
                },
                Outcome::Malformed { timestamp } => {
                    &&& query.ensures((&self.path(),), Some(timestamp))
                    &&& changed_since(timestamp, served.1.last_timestamp)
                    &&& load.ensures((&self.path(),), Loaded::Malformed)
                },
                Outcome::Replaced { timestamp } => {
                    &&& query.ensures((&self.path(),), Some(timestamp))
                    &&& changed_since(timestamp, served.1.last_timestamp)
                    &&& exists|config: C| #[trigger]
                        load.ensures((&self.path(),), Loaded::Read(config))
                },
            },
    {
        let (due, last_update) = self.poll(now);
        if !due {
            let update = Update { last_update, last_timestamp: None, outcome: Outcome::NotDue };
            return (self.get(), update);
        }
        match query(&self.config_path) {
            None => {
                let update = Update {
                    last_update,
                    last_timestamp: None,
                    outcome: Outcome::NoTimestamp,
                };
                (self.get(), update)
            },
            Some(timestamp) => {
                let (changed, last_timestamp) = self.modified(&timestamp);
                let outcome = if changed {
                    let loaded = load(&self.config_path);
                    assert(loaded is Read ==> load.ensures(
                        (&self.config_path,),
                        Loaded::Read(loaded->Read_0),
                    ));
                    self.reload(loaded, timestamp)
                } else {
                    Outcome::Unchanged { timestamp }
                };
                (self.get(), Update { last_update, last_timestamp, outcome })
            },
        }
    }
}

} // verus!
