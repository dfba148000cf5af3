use sundial::application::{Action, Application, Event, Phase, RunError};
use sundial::cache::{CacheDir, CacheFile, CacheRecord};
use sundial::config::{get_test_config, Config};
use sundial::gamma::Gamma;
use sundial::screen::ScreenState;
use sundial::sun_times::{FetchError, SunTimes};
use sundial::time::{CalendarDate, TimeOfDay};

fn today() -> CalendarDate {
    CalendarDate::from_ymd_opt(2025, 8, 17).unwrap()
}

fn at(hour: u32, min: u32, sec: u32) -> TimeOfDay {
    TimeOfDay::from_hms_opt(hour, min, sec).unwrap()
}

fn cached(enabled: bool) -> Config {
    let mut config = get_test_config();
    config.cache.enabled = enabled;
    config
}

fn url() -> String {
    "https://api.sunrisesunset.io/json?lat=52.56&lng=13.39&time_format=unix".to_string()
}

fn entry_of_today(sunrise: &str, sunset: &str) -> CacheDir {
    CacheDir {
        files: vec![CacheFile {
            name: "cache-2025-08-17.json".to_string(),
            record: Some(CacheRecord { sunrise: sunrise.to_string(), sunset: sunset.to_string() }),
        }],
    }
}

fn fetched(sunrise: &str, sunset: &str) -> Event {
    Event::Fetched { sunrise: sunrise.to_string(), sunset: sunset.to_string() }
}

#[test]
fn a_run_starts_with_nothing_done() {
    let app = Application::new(cached(true), today());
    assert_eq!(app.phase, Phase::Start);
    assert_eq!(app.config, cached(true));
    assert_eq!(app.today, today());
}

#[test]
fn a_run_with_a_cache_hit() {
    let mut app = Application::new(cached(true), today());
    assert_eq!(app.run(Event::Started), Action::ProbeDaemon);
    assert_eq!(app.phase, Phase::ProbingDaemon);
    assert_eq!(app.run(Event::DaemonProbed { running: true }), Action::ReadCache);
    assert_eq!(app.phase, Phase::ReadingCache);
    assert_eq!(app.run(Event::CacheRead { dir: entry_of_today("06:00:00", "18:00:00") }), Action::ReadClock);
    let sun_times = SunTimes { sunrise: at(6, 0, 0), sunset: at(18, 0, 0) };
    assert_eq!(app.phase, Phase::ReadingClock { sun_times });
    assert_eq!(app.run(Event::Clock { now: at(5, 30, 0) }), Action::SetTemperature { value: "4390".to_string() });
    assert_eq!(
        app.phase,
        Phase::SettingTemperature { state: ScreenState { temperature: 4390, gamma: Gamma::from_hundredths(8990) } }
    );
    assert_eq!(app.run(Event::Applied), Action::SetGamma { value: "89.90".to_string() });
    assert_eq!(app.phase, Phase::SettingGamma);
    assert_eq!(app.run(Event::Applied), Action::Finish);
    assert_eq!(app.phase, Phase::Finished);
    assert_eq!(app.config, cached(true));
    assert_eq!(app.today, today());
}

#[test]
fn a_run_with_a_cache_miss_fetches_and_stores() {
    let mut app = Application::new(cached(true), today());
    app.run(Event::Started);
    assert_eq!(app.run(Event::DaemonProbed { running: true }), Action::ReadCache);
    assert_eq!(app.run(Event::CacheRead { dir: CacheDir { files: Vec::new() } }), Action::Fetch { url: url() });
    assert_eq!(app.phase, Phase::Fetching);
    assert_eq!(
        app.run(fetched("1755402810", "1755455425")),
        Action::WriteCache { dir: entry_of_today("03:53:30", "18:30:25") }
    );
    let sun_times = SunTimes { sunrise: at(3, 53, 30), sunset: at(18, 30, 25) };
    assert_eq!(app.phase, Phase::WritingCache { sun_times });
    assert_eq!(app.run(Event::CacheWritten), Action::ReadClock);
    assert_eq!(app.phase, Phase::ReadingClock { sun_times });
    assert_eq!(app.run(Event::Clock { now: at(12, 0, 0) }), Action::SetTemperature { value: "6000".to_string() });
    assert_eq!(app.run(Event::Applied), Action::SetGamma { value: "100.00".to_string() });
    assert_eq!(app.run(Event::Applied), Action::Finish);
}

#[test]
fn a_stale_or_damaged_cache_is_a_miss() {
    for dir in [
        CacheDir {
            files: vec![CacheFile {
                name: "cache-2025-08-16.json".to_string(),
                record: Some(CacheRecord { sunrise: "06:00:00".to_string(), sunset: "18:00:00".to_string() }),
            }],
        },
        CacheDir { files: vec![CacheFile { name: "cache-2025-08-17.json".to_string(), record: None }] },
        entry_of_today("06:00:00", "six in the evening"),
    ] {
        let mut app = Application::new(cached(true), today());
        app.run(Event::Started);
        app.run(Event::DaemonProbed { running: true });
        assert_eq!(app.run(Event::CacheRead { dir }), Action::Fetch { url: url() });
    }
}

#[test]
fn a_cache_that_cannot_be_read_is_a_miss() {
    let mut app = Application::new(cached(true), today());
    app.run(Event::Started);
    app.run(Event::DaemonProbed { running: true });
    assert_eq!(app.run(Event::CacheUnreadable), Action::Fetch { url: url() });
    assert_eq!(app.phase, Phase::Fetching);
}

#[test]
fn a_cache_that_cannot_be_written_does_not_stop_the_run() {
    let mut app = Application::new(cached(true), today());
    app.run(Event::Started);
    app.run(Event::DaemonProbed { running: true });
    app.run(Event::CacheUnreadable);
    app.run(fetched("21600", "64800"));
    assert_eq!(app.run(Event::CacheNotWritten), Action::ReadClock);
    assert_eq!(app.run(Event::Clock { now: at(2, 0, 0) }), Action::SetTemperature { value: "2800".to_string() });
    assert_eq!(app.run(Event::Applied), Action::SetGamma { value: "80.00".to_string() });
    assert_eq!(app.run(Event::Applied), Action::Finish);
}

#[test]
fn a_disabled_cache_is_neither_read_nor_written() {
    let mut app = Application::new(cached(false), today());
    assert_eq!(app.run(Event::Started), Action::ProbeDaemon);
    assert_eq!(app.run(Event::DaemonProbed { running: true }), Action::Fetch { url: url() });
    assert_eq!(app.run(fetched("21600", "64800")), Action::ReadClock);
    assert_eq!(app.phase, Phase::ReadingClock { sun_times: SunTimes { sunrise: at(6, 0, 0), sunset: at(18, 0, 0) } });
    assert_eq!(app.run(Event::Clock { now: at(6, 0, 0) }), Action::SetTemperature { value: "6000".to_string() });
    assert_eq!(app.run(Event::Applied), Action::SetGamma { value: "100.00".to_string() });
    assert_eq!(app.run(Event::Applied), Action::Finish);
}

#[test]
fn a_daemon_that_does_not_run_is_started_first() {
    for enabled in [true, false] {
        let mut app = Application::new(cached(enabled), today());
        app.run(Event::Started);
        assert_eq!(app.run(Event::DaemonProbed { running: false }), Action::StartDaemon);
        assert_eq!(app.phase, Phase::StartingDaemon);
        let next = app.run(Event::DaemonStarted);
        if enabled {
            assert_eq!(next, Action::ReadCache);
        } else {
            assert_eq!(next, Action::Fetch { url: url() });
        }
    }
}

#[test]
fn an_unusable_answer_of_the_service_fails_the_run() {
    for (sunrise, sunset, error) in [
        ("dawn", "1755455425", FetchError::SunriseNotANumber),
        ("1755402810", "dusk", FetchError::SunsetNotANumber),
        ("8210266876800", "1755455425", FetchError::InvalidSunriseTimestamp),
        ("1755402810", "-8334601228801", FetchError::InvalidSunsetTimestamp),
    ] {
        let mut app = Application::new(cached(true), today());
        app.run(Event::Started);
        app.run(Event::DaemonProbed { running: true });
        app.run(Event::CacheUnreadable);
        assert_eq!(app.run(fetched(sunrise, sunset)), Action::Fail { error: RunError::Fetch(error) });
        assert_eq!(app.phase, Phase::Failed);
    }
}

#[test]
fn an_event_that_answers_nothing_fails_the_run() {
    let events = || {
        vec![
            Event::Started,
            Event::DaemonProbed { running: true },
            Event::DaemonProbed { running: false },
            Event::DaemonStarted,
            Event::CacheRead { dir: entry_of_today("06:00:00", "18:00:00") },
            Event::CacheUnreadable,
            fetched("21600", "64800"),
            Event::CacheWritten,
            Event::CacheNotWritten,
            Event::Clock { now: at(12, 0, 0) },
            Event::Applied,
        ]
    };
    let sun_times = SunTimes { sunrise: at(6, 0, 0), sunset: at(18, 0, 0) };
    let state = ScreenState { temperature: 1, gamma: Gamma::from_percent(1) };
    // Each phase with the events it waits for, by their place in the list above.
    let phases: Vec<(Phase, Vec<usize>)> = vec![
        (Phase::Start, vec![0]),
        (Phase::ProbingDaemon, vec![1, 2]),
        (Phase::StartingDaemon, vec![3]),
        (Phase::ReadingCache, vec![4, 5]),
        (Phase::Fetching, vec![6]),
        (Phase::WritingCache { sun_times }, vec![7, 8]),
        (Phase::ReadingClock { sun_times }, vec![9]),
        (Phase::SettingTemperature { state }, vec![10]),
        (Phase::SettingGamma, vec![10]),
        (Phase::Finished, vec![]),
        (Phase::Failed, vec![]),
    ];
    for (phase, awaited) in phases {
        for (i, event) in events().into_iter().enumerate() {
            let mut app = Application { config: cached(true), today: today(), phase };
            let action = app.run(event);
            let failed = action == Action::Fail { error: RunError::UnexpectedEvent };
            assert_eq!(failed, !awaited.contains(&i), "{:?} {}", phase, i);
            assert_eq!(app.phase == Phase::Failed, failed);
        }
    }
}

#[test]
fn a_run_that_is_over_stays_over() {
    let mut app = Application { config: cached(true), today: today(), phase: Phase::Finished };
    assert_eq!(app.run(Event::Started), Action::Fail { error: RunError::UnexpectedEvent });
    assert_eq!(app.run(Event::Started), Action::Fail { error: RunError::UnexpectedEvent });
    assert_eq!(app.phase, Phase::Failed);
}
