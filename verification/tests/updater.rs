use erfps2::config::updater::{
    config_path_beside, initial_config, initial_timestamp, module_file_name, poll_due, refresh,
    seen, timestamp_changed, ConfigUpdater, Loaded, Outcome, CONFIG_NAME,
    MODULE_FILE_NAME_CAPACITY, UPDATE_INTERVAL_NANOS,
};
use std::cell::Cell;
use std::path::{Path, PathBuf};
use std::time::{Duration, Instant};

#[derive(Clone, Debug, Default, PartialEq)]
struct Settings {
    fov: u32,
    title: String,
}

fn settings(fov: u32) -> Settings {
    Settings { fov, title: format!("fov {fov}") }
}

fn module_file() -> PathBuf {
    Path::new("mods").join("erfps2.dll")
}

const INTERVAL: Duration = Duration::from_millis(100);

/// The configuration that the cache serves without looking at the file.
fn current(updater: &ConfigUpdater<Settings>, start: Instant) -> Settings {
    updater.get_or_update(start, |_| None, |_| Loaded::Unreadable).0.clone()
}

/// A cache that was made at `start` from a file that held `first` and was
/// modified at `stamp`.
fn updater_with(first: Settings, start: Instant, stamp: Duration) -> ConfigUpdater<Settings> {
    ConfigUpdater::new(module_file(), start, |_| Loaded::Read(first), |_| Some(stamp))
}

#[test]
fn interval_is_a_tenth_of_a_second() {
    assert_eq!(UPDATE_INTERVAL_NANOS, 100_000_000);
    assert_eq!(Duration::new(0, UPDATE_INTERVAL_NANOS), INTERVAL);
}

#[test]
fn poll_is_due_only_after_more_than_the_interval() {
    let last = Instant::now();
    assert!(!poll_due(last, Some(last)));
    assert!(!poll_due(last + Duration::new(0, 1), Some(last)));
    assert!(!poll_due(last + Duration::new(0, 99_999_999), Some(last)));
    assert!(!poll_due(last + INTERVAL, Some(last)));
    assert!(poll_due(last + Duration::new(0, 100_000_001), Some(last)));
    assert!(poll_due(last + Duration::new(1, 0), Some(last)));
    assert!(poll_due(last + Duration::new(3600, 5), Some(last)));
}

#[test]
fn poll_is_not_due_before_the_last_look() {
    let now = Instant::now();
    assert!(!poll_due(now, Some(now + Duration::new(0, 1))));
    assert!(!poll_due(now, Some(now + Duration::new(5, 0))));
}

#[test]
fn poll_is_due_when_the_last_look_is_unknown() {
    assert!(poll_due(Instant::now(), None));
}

#[test]
fn timestamp_changes_when_it_differs() {
    let stamp = Duration::new(1_700_000_000, 500);
    assert!(!timestamp_changed(&stamp, Some(stamp)));
    assert!(!timestamp_changed(&stamp, Some(Duration::new(1_700_000_000, 500))));
    assert!(timestamp_changed(&stamp, Some(Duration::new(1_700_000_000, 501))));
    assert!(timestamp_changed(&stamp, Some(Duration::new(1_700_000_001, 500))));
    assert!(timestamp_changed(&stamp, Some(Duration::new(1_699_999_999, 500))));
    assert!(timestamp_changed(&Duration::ZERO, Some(stamp)));
}

#[test]
fn timestamp_changes_when_the_last_one_is_unknown() {
    assert!(timestamp_changed(&Duration::ZERO, None));
    assert!(timestamp_changed(&Duration::new(1_700_000_000, 500), None));
}

#[test]
fn refresh_takes_what_was_read() {
    let mut current = settings(60);
    refresh(&mut current, Loaded::Read(settings(90)));
    assert_eq!(current, settings(90));
}

#[test]
fn refresh_keeps_the_current_configuration_on_failure() {
    let mut current = settings(60);
    refresh(&mut current, Loaded::Malformed);
    assert_eq!(current, settings(60));
    refresh(&mut current, Loaded::Unreadable);
    assert_eq!(current, settings(60));
    let mut fallback = Settings::default();
    refresh(&mut fallback, Loaded::Malformed);
    assert_eq!(fallback, Settings::default());
}

#[test]
fn modification_time_is_seen_unless_the_file_could_not_be_read() {
    assert!(seen(&Loaded::Read(settings(1))));
    assert!(seen(&Loaded::<Settings>::Malformed));
    assert!(!seen(&Loaded::<Settings>::Unreadable));
}

#[test]
fn initial_config_is_what_was_read_or_the_default() {
    assert_eq!(initial_config(Loaded::Read(settings(90))), settings(90));
    assert_eq!(initial_config::<Settings>(Loaded::Malformed), Settings::default());
    assert_eq!(initial_config::<Settings>(Loaded::Unreadable), Settings::default());
    assert_eq!(initial_config::<u32>(Loaded::Unreadable), 0);
}

#[test]
fn initial_timestamp_is_the_files_or_a_short_one() {
    let started = Instant::now();
    let stamp = Duration::new(1_700_000_000, 1);
    assert_eq!(initial_timestamp(Some(stamp), &started), stamp);
    let short = initial_timestamp(None, &started);
    assert!(short < Duration::new(60, 0));
}

#[test]
fn config_lies_beside_the_module() {
    assert_eq!(CONFIG_NAME, "erfps2.toml");
    let path = config_path_beside(Path::new("game").join("mods").join("erfps2.dll"));
    assert_eq!(path, Path::new("game").join("mods").join("erfps2.toml"));
    let path = config_path_beside(PathBuf::from("erfps2.dll"));
    assert_eq!(path, PathBuf::from("erfps2.toml"));
}

#[test]
fn module_file_name_is_cut_to_its_length() {
    let mut buffer = vec![0u16; MODULE_FILE_NAME_CAPACITY as usize];
    buffer[0] = 'a' as u16;
    buffer[1] = 'b' as u16;
    buffer[2] = 'c' as u16;
    assert_eq!(module_file_name(buffer.clone(), 3), Some(vec!['a' as u16, 'b' as u16, 'c' as u16]));
    assert_eq!(module_file_name(buffer.clone(), 1), Some(vec!['a' as u16]));
    let whole_but_one = module_file_name(buffer.clone(), 32766);
    assert_eq!(whole_but_one.map(|name| name.len()), Some(32766));
}

#[test]
fn module_file_name_fails_on_zero_and_on_a_full_buffer() {
    let buffer = vec![7u16; MODULE_FILE_NAME_CAPACITY as usize];
    assert_eq!(MODULE_FILE_NAME_CAPACITY, 32767);
    assert_eq!(module_file_name(buffer.clone(), 0), None);
    assert_eq!(module_file_name(buffer, 32767), None);
}

#[test]
fn module_file_name_of_a_short_buffer_is_the_buffer() {
    assert_eq!(module_file_name(vec![1, 2, 3], 5), Some(vec![1, 2, 3]));
}

#[test]
fn new_reads_the_file_beside_the_module_once() {
    let loads = Cell::new(0);
    let queries = Cell::new(0);
    let expected = Path::new("mods").join("erfps2.toml");
    let updater = ConfigUpdater::new(
        module_file(),
        Instant::now(),
        |path| {
            loads.set(loads.get() + 1);
            assert_eq!(path, &expected);
            Loaded::Read(settings(75))
        },
        |path| {
            queries.set(queries.get() + 1);
            assert_eq!(path, &expected);
            Some(Duration::new(1_700_000_000, 0))
        },
    );
    assert_eq!(loads.get(), 1);
    assert_eq!(queries.get(), 1);
    assert_eq!(updater.config_path(), &expected);
    assert_eq!(current(&updater, Instant::now()), settings(75));
}

#[test]
fn later_calls_are_handed_the_same_path() {
    let start = Instant::now();
    let updater = updater_with(settings(60), start, Duration::new(10, 0));
    let expected = Path::new("mods").join("erfps2.toml");
    let (config, update) = updater.get_or_update(
        start + Duration::new(1, 0),
        |path| {
            assert_eq!(path, &expected);
            Some(Duration::new(11, 0))
        },
        |path| {
            assert_eq!(path, &expected);
            Loaded::Read(settings(61))
        },
    );
    assert_eq!(*config, settings(61));
    assert_eq!(update.outcome, Outcome::Replaced { timestamp: Duration::new(11, 0) });
}

#[test]
fn default_on_missing_file() {
    let start = Instant::now();
    let updater: ConfigUpdater<Settings> =
        ConfigUpdater::new(module_file(), start, |_| Loaded::Unreadable, |_| None);
    assert_eq!(current(&updater, start), Settings::default());

    // While the file stays away, every poll asks for it once and reads nothing.
    let queries = Cell::new(0);
    let loads = Cell::new(0);
    for round in 1..=3u32 {
        let now = start + INTERVAL * round + Duration::new(0, round);
        let (config, update) = updater.get_or_update(
            now,
            |_| {
                queries.set(queries.get() + 1);
                None
            },
            |_| {
                loads.set(loads.get() + 1);
                Loaded::Unreadable
            },
        );
        assert_eq!(*config, Settings::default());
        drop(config);
        assert_eq!(update.outcome, Outcome::NoTimestamp);
        assert_eq!(update.last_timestamp, None);
        assert_eq!(queries.get(), round);
        assert_eq!(loads.get(), 0);
    }
}

#[test]
fn file_that_appears_later_is_read() {
    let start = Instant::now();
    let updater: ConfigUpdater<Settings> =
        ConfigUpdater::new(module_file(), start, |_| Loaded::Unreadable, |_| None);
    let stamp = Duration::new(1_700_000_000, 0);
    let (config, update) = updater.get_or_update(
        start + Duration::new(1, 0),
        |_| Some(stamp),
        |_| Loaded::Read(settings(100)),
    );
    assert_eq!(*config, settings(100));
    assert_eq!(update.outcome, Outcome::Replaced { timestamp: stamp });
}

#[test]
fn fast_path_asks_nothing() {
    let start = Instant::now();
    let updater = updater_with(settings(60), start, Duration::new(10, 0));
    let queries = Cell::new(0);
    let loads = Cell::new(0);
    for nanos in [0, 1, 50_000_000, 99_999_999, 100_000_000] {
        let (config, update) = updater.get_or_update(
            start + Duration::new(0, nanos),
            |_| {
                queries.set(queries.get() + 1);
                Some(Duration::new(20, 0))
            },
            |_| {
                loads.set(loads.get() + 1);
                Loaded::Read(settings(61))
            },
        );
        assert_eq!(*config, settings(60));
        assert_eq!(update.outcome, Outcome::NotDue);
        assert_eq!(update.last_update, Some(start));
        assert_eq!(update.last_timestamp, None);
    }
    assert_eq!(queries.get(), 0);
    assert_eq!(loads.get(), 0);
}

#[test]
fn due_call_finds_the_last_look_and_puts_its_own_time_there() {
    let start = Instant::now();
    let updater = updater_with(settings(60), start, Duration::new(10, 0));
    let first = start + INTERVAL + Duration::new(0, 1);
    let update = updater.get_or_update(first, |_| None, |_| Loaded::Unreadable).1;
    assert_eq!(update.outcome, Outcome::NoTimestamp);
    assert_eq!(update.last_update, Some(start));
    let update = updater.get_or_update(first + INTERVAL, |_| None, |_| Loaded::Unreadable).1;
    assert_eq!(update.outcome, Outcome::NotDue);
    assert_eq!(update.last_update, Some(first));
    let second = first + INTERVAL + Duration::new(0, 1);
    let update = updater.get_or_update(second, |_| None, |_| Loaded::Unreadable).1;
    assert_eq!(update.outcome, Outcome::NoTimestamp);
    assert_eq!(update.last_update, Some(first));
}

#[test]
fn one_query_per_interval_whatever_the_number_of_calls() {
    let start = Instant::now();
    let updater = updater_with(settings(60), start, Duration::new(10, 0));
    let queries = Cell::new(0);
    // A thousand calls in the interval that begins a little after the first one has run out.
    let from = start + INTERVAL + Duration::new(0, 1);
    for call in 0..1000u32 {
        let now = from + Duration::new(0, call * 100_000);
        let (config, update) = updater.get_or_update(
            now,
            |_| {
                queries.set(queries.get() + 1);
                Some(Duration::new(10, 0))
            },
            |_| Loaded::Unreadable,
        );
        assert_eq!(*config, settings(60));
        if call == 0 {
            assert_eq!(update.outcome, Outcome::Unchanged { timestamp: Duration::new(10, 0) });
        } else {
            assert_eq!(update.outcome, Outcome::NotDue);
        }
    }
    assert_eq!(queries.get(), 1);
    // The call after that interval asks again.
    updater.get_or_update(
        from + INTERVAL + Duration::new(0, 1),
        |_| {
            queries.set(queries.get() + 1);
            Some(Duration::new(10, 0))
        },
        |_| Loaded::Unreadable,
    );
    assert_eq!(queries.get(), 2);
}

#[test]
fn idempotent_reload() {
    let start = Instant::now();
    let stamp = Duration::new(1_700_000_000, 250);
    let updater = updater_with(settings(60), start, stamp);
    let queries = Cell::new(0);
    let loads = Cell::new(0);
    for round in 1..=5u32 {
        let (config, update) = updater.get_or_update(
            start + Duration::new(round as u64, 0),
            |_| {
                queries.set(queries.get() + 1);
                Some(stamp)
            },
            |_| {
                loads.set(loads.get() + 1);
                Loaded::Read(settings(0))
            },
        );
        assert_eq!(*config, settings(60));
        assert_eq!(update.outcome, Outcome::Unchanged { timestamp: stamp });
        assert_eq!(update.last_timestamp, Some(stamp));
    }
    assert_eq!(queries.get(), 5);
    assert_eq!(loads.get(), 0);
}

#[test]
fn changed_file_is_read_once() {
    let start = Instant::now();
    let updater = updater_with(settings(60), start, Duration::new(10, 0));
    let loads = Cell::new(0);
    let changed = Duration::new(11, 0);
    for round in 1..=3u32 {
        let (config, update) = updater.get_or_update(
            start + Duration::new(round as u64, 0),
            |_| Some(changed),
            |_| {
                loads.set(loads.get() + 1);
                Loaded::Read(settings(90))
            },
        );
        assert_eq!(*config, settings(90));
        if round == 1 {
            assert_eq!(update.outcome, Outcome::Replaced { timestamp: changed });
            assert_eq!(update.last_timestamp, Some(Duration::new(10, 0)));
        } else {
            assert_eq!(update.outcome, Outcome::Unchanged { timestamp: changed });
        }
    }
    assert_eq!(loads.get(), 1);
}

#[test]
fn fallback_on_malformed_reload() {
    let start = Instant::now();
    let first = settings(60);
    let updater = updater_with(first.clone(), start, Duration::new(10, 0));
    let loads = Cell::new(0);
    // The file was edited into something that holds no configuration.
    let (config, update) = updater.get_or_update(
        start + Duration::new(1, 0),
        |_| Some(Duration::new(11, 0)),
        |_| {
            loads.set(loads.get() + 1);
            Loaded::Malformed
        },
    );
    assert_eq!(*config, first);
    drop(config);
    assert_eq!(update.outcome, Outcome::Malformed { timestamp: Duration::new(11, 0) });
    assert_eq!(loads.get(), 1);
    assert_eq!(current(&updater, start), first);
    // The same broken file is not read again.
    let (config, update) = updater.get_or_update(
        start + Duration::new(2, 0),
        |_| Some(Duration::new(11, 0)),
        |_| {
            loads.set(loads.get() + 1);
            Loaded::Malformed
        },
    );
    assert_eq!(*config, first);
    drop(config);
    assert_eq!(update.outcome, Outcome::Unchanged { timestamp: Duration::new(11, 0) });
    assert_eq!(loads.get(), 1);
    // Once it is mended, it is.
    let (config, update) = updater.get_or_update(
        start + Duration::new(3, 0),
        |_| Some(Duration::new(12, 0)),
        |_| Loaded::Read(settings(70)),
    );
    assert_eq!(*config, settings(70));
    assert_eq!(update.outcome, Outcome::Replaced { timestamp: Duration::new(12, 0) });
}

#[test]
fn failed_read_keeps_the_configuration_and_is_tried_again() {
    let start = Instant::now();
    let first = settings(60);
    let updater = updater_with(first.clone(), start, Duration::new(10, 0));
    let loads = Cell::new(0);
    let changed = Duration::new(11, 0);
    // The file has changed, but for two polls it cannot be read.
    for round in 1..=2u32 {
        let (config, update) = updater.get_or_update(
            start + Duration::new(round as u64, 0),
            |_| Some(changed),
            |_| {
                loads.set(loads.get() + 1);
                Loaded::Unreadable
            },
        );
        assert_eq!(*config, first);
        drop(config);
        assert_eq!(update.outcome, Outcome::Unreadable { timestamp: changed });
        assert_eq!(update.last_timestamp, Some(Duration::new(10, 0)));
        assert_eq!(loads.get(), round);
    }
    // At the third it can, though it has not changed again.
    let (config, update) = updater.get_or_update(
        start + Duration::new(3, 0),
        |_| Some(changed),
        |_| Loaded::Read(settings(61)),
    );
    assert_eq!(*config, settings(61));
    assert_eq!(update.outcome, Outcome::Replaced { timestamp: changed });
}

#[test]
fn failed_query_keeps_the_configuration_and_is_tried_again() {
    let start = Instant::now();
    let updater = updater_with(settings(60), start, Duration::new(10, 0));
    let loads = Cell::new(0);
    let (config, update) = updater.get_or_update(
        start + Duration::new(1, 0),
        |_| None,
        |_| {
            loads.set(loads.get() + 1);
            Loaded::Read(settings(1))
        },
    );
    assert_eq!(*config, settings(60));
    drop(config);
    assert_eq!(update.outcome, Outcome::NoTimestamp);
    assert_eq!(loads.get(), 0);
    let (config, update) = updater.get_or_update(
        start + Duration::new(2, 0),
        |_| Some(Duration::new(11, 0)),
        |_| Loaded::Read(settings(2)),
    );
    assert_eq!(*config, settings(2));
    assert_eq!(update.outcome, Outcome::Replaced { timestamp: Duration::new(11, 0) });
    assert_eq!(update.last_timestamp, Some(Duration::new(10, 0)));
}

#[test]
fn readers_in_the_middle_of_a_reload_see_whole_configurations() {
    let start = Instant::now();
    let updater = updater_with(settings(1), start, Duration::new(10, 0));
    for round in 1..=50u32 {
        let before = settings(round);
        let after = settings(round + 1);
        let now = start + INTERVAL * round + Duration::new(0, round);
        let stamp = Duration::new(10 + round as u64, 0);
        // While one caller is busy with the file, others ask for the configuration.
        let (config, _) = updater.get_or_update(
            now,
            |_| {
                assert_eq!(current(&updater, now), before);
                Some(stamp)
            },
            |_| {
                assert_eq!(current(&updater, now), before);
                Loaded::Read(after.clone())
            },
        );
        assert_eq!(*config, after);
        drop(config);
        assert_eq!(current(&updater, now), after);
    }
}

#[test]
fn callers_during_a_poll_do_not_poll_again() {
    let start = Instant::now();
    let updater = updater_with(settings(1), start, Duration::new(10, 0));
    let queries = Cell::new(0);
    let now = start + Duration::new(1, 0);
    updater.get_or_update(
        now,
        |_| {
            queries.set(queries.get() + 1);
            // Callers that arrive while this one looks at the file go on without a look.
            for _ in 0..10 {
                let (config, update) = updater.get_or_update(
                    now,
                    |_| {
                        queries.set(queries.get() + 1);
                        None
                    },
                    |_| Loaded::Unreadable,
                );
                drop(config);
                assert_eq!(update.outcome, Outcome::NotDue);
            }
            None
        },
        |_| Loaded::Unreadable,
    );
    assert_eq!(queries.get(), 1);
}
