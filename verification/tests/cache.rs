use sundial::cache::{
    cache_file_name, load_cache, persist_to_cache, Cache, CacheDir, CacheFile, CacheRecord,
};
use sundial::config::get_test_config;
use sundial::sun_times::SunTimes;
use sundial::time::{CalendarDate, TimeOfDay};

fn day(year: i32, month: u32, day: u32) -> CalendarDate {
    CalendarDate::from_ymd_opt(year, month, day).unwrap()
}

fn record(sunrise: &str, sunset: &str) -> Option<CacheRecord> {
    Some(CacheRecord { sunrise: sunrise.to_string(), sunset: sunset.to_string() })
}

fn file(name: &str, record: Option<CacheRecord>) -> CacheFile {
    CacheFile { name: name.to_string(), record }
}

fn half_past_six_to_quarter_to_seven() -> SunTimes {
    SunTimes {
        sunrise: TimeOfDay::from_hms_opt(6, 30, 0).unwrap(),
        sunset: TimeOfDay::from_hms_opt(18, 45, 0).unwrap(),
    }
}

#[test]
fn test_cache_enabled_persist_and_load() {
    let mut temp_dir = CacheDir { files: Vec::new() };
    let today = day(2025, 8, 17);

    let mut config = get_test_config();
    config.cache.enabled = true;

    let sun_times = SunTimes {
        sunrise: TimeOfDay::from_hms_opt(6, 30, 0).unwrap(),
        sunset: TimeOfDay::from_hms_opt(18, 45, 0).unwrap(),
    };

    // no cache file exists
    let load_result = load_cache(&config, &temp_dir, &today);
    assert_eq!(load_result, None);

    let persist_result = persist_to_cache(&config, &mut temp_dir, &today, &sun_times);
    assert!(persist_result);

    let load_result = load_cache(&config, &temp_dir, &today);
    let loaded_cache = load_result.unwrap();
    assert_eq!(loaded_cache.sun_times, sun_times);
}

#[test]
fn test_cache_disabled_persist_and_load() {
    let mut temp_dir = CacheDir { files: Vec::new() };
    let today = day(2025, 8, 17);

    let mut config = get_test_config();
    config.cache.enabled = false;

    let sun_times = SunTimes {
        sunrise: TimeOfDay::from_hms_opt(6, 30, 0).unwrap(),
        sunset: TimeOfDay::from_hms_opt(18, 45, 0).unwrap(),
    };

    let persist_result = persist_to_cache(&config, &mut temp_dir, &today, &sun_times);
    assert_eq!(persist_result, false);

    let load_result = load_cache(&config, &temp_dir, &today);
    assert_eq!(load_result, None);
}

#[test]
fn the_file_of_a_day_is_named_after_it() {
    assert_eq!(cache_file_name(&day(2025, 8, 17)), "cache-2025-08-17.json");
    assert_eq!(cache_file_name(&day(2026, 1, 5)), "cache-2026-01-05.json");
    assert_eq!(cache_file_name(&day(987, 12, 31)), "cache-0987-12-31.json");
}

#[test]
fn storing_leaves_one_file_and_no_more() {
    let mut config = get_test_config();
    config.cache.enabled = true;
    let mut dir = CacheDir {
        files: vec![
            file("cache-2025-08-16.json", record("06:29:00", "18:46:00")),
            file("notes.txt", None),
            file("cache-2025-08-17.json", record("01:00:00", "02:00:00")),
        ],
    };
    assert!(persist_to_cache(&config, &mut dir, &day(2025, 8, 17), &half_past_six_to_quarter_to_seven()));
    assert_eq!(
        dir,
        CacheDir { files: vec![file("cache-2025-08-17.json", record("06:30:00", "18:45:00"))] }
    );
}

#[test]
fn a_disabled_cache_is_left_as_it_is() {
    let config = get_test_config();
    let before = CacheDir {
        files: vec![file("cache-2025-08-17.json", record("06:29:00", "18:46:00")), file("notes.txt", None)],
    };
    let mut dir = before.clone();
    assert!(!persist_to_cache(&config, &mut dir, &day(2025, 8, 17), &half_past_six_to_quarter_to_seven()));
    assert_eq!(dir, before);
    // Not even an entry of the day is read.
    assert_eq!(load_cache(&config, &dir, &day(2025, 8, 17)), None);
}

#[test]
fn what_was_stored_is_loaded_on_the_same_day_only() {
    let mut config = get_test_config();
    config.cache.enabled = true;
    let mut dir = CacheDir { files: Vec::new() };
    let sun_times = half_past_six_to_quarter_to_seven();
    persist_to_cache(&config, &mut dir, &day(2025, 8, 17), &sun_times);
    assert_eq!(load_cache(&config, &dir, &day(2025, 8, 17)), Some(Cache { sun_times }));
    assert_eq!(load_cache(&config, &dir, &day(2025, 8, 18)), None);
    assert_eq!(load_cache(&config, &dir, &day(2025, 8, 16)), None);
    assert_eq!(load_cache(&config, &dir, &day(2024, 8, 17)), None);
}

#[test]
fn every_second_of_the_day_comes_back_as_stored() {
    let mut config = get_test_config();
    config.cache.enabled = true;
    let today = day(2025, 8, 17);
    for second in (0..86400u32).step_by(997).chain([86399]) {
        let sun_times = SunTimes {
            sunrise: TimeOfDay::from_num_seconds_from_midnight_opt(second).unwrap(),
            sunset: TimeOfDay::from_num_seconds_from_midnight_opt(86399 - second).unwrap(),
        };
        let mut dir = CacheDir { files: Vec::new() };
        assert!(persist_to_cache(&config, &mut dir, &today, &sun_times));
        assert_eq!(load_cache(&config, &dir, &today), Some(Cache { sun_times }));
    }
}

#[test]
fn a_damaged_entry_is_a_missing_entry() {
    let mut config = get_test_config();
    config.cache.enabled = true;
    let today = day(2025, 8, 17);
    for damaged in [
        None,
        record("", ""),
        record("06:30:00", ""),
        record("06:30", "18:45:00"),
        record("06:30:00", "25:00:00"),
        record("1755402810", "1755455425"),
    ] {
        let dir = CacheDir { files: vec![file("cache-2025-08-17.json", damaged)] };
        assert_eq!(load_cache(&config, &dir, &today), None);
    }
}

#[test]
fn files_under_other_names_are_not_read() {
    let mut config = get_test_config();
    config.cache.enabled = true;
    let dir = CacheDir {
        files: vec![
            file("cache-2025-08-16.json", record("06:29:00", "18:46:00")),
            file("cache-2025-08-17.JSON", record("06:29:00", "18:46:00")),
            file("cache-2025-08-17", record("06:29:00", "18:46:00")),
            file("2025-08-17.json", record("06:29:00", "18:46:00")),
        ],
    };
    assert_eq!(load_cache(&config, &dir, &day(2025, 8, 17)), None);
    assert_eq!(
        load_cache(&config, &dir, &day(2025, 8, 16)),
        Some(Cache {
            sun_times: SunTimes {
                sunrise: TimeOfDay::from_hms_opt(6, 29, 0).unwrap(),
                sunset: TimeOfDay::from_hms_opt(18, 46, 0).unwrap(),
            }
        })
    );
}

#[test]
fn the_first_file_of_a_name_is_the_one_read() {
    let mut config = get_test_config();
    config.cache.enabled = true;
    let today = day(2025, 8, 17);
    let dir = CacheDir {
        files: vec![
            file("other", None),
            file("cache-2025-08-17.json", record("06:30:00", "18:45:00")),
            file("cache-2025-08-17.json", record("01:00:00", "02:00:00")),
        ],
    };
    assert_eq!(load_cache(&config, &dir, &today), Some(Cache { sun_times: half_past_six_to_quarter_to_seven() }));
    let dir = CacheDir {
        files: vec![
            file("cache-2025-08-17.json", None),
            file("cache-2025-08-17.json", record("01:00:00", "02:00:00")),
        ],
    };
    assert_eq!(load_cache(&config, &dir, &today), None);
}

#[test]
fn an_entry_is_persisted_as_two_times_of_day() {
    let cache = Cache { sun_times: half_past_six_to_quarter_to_seven() };
    let persisted = cache.to_record();
    assert_eq!(Some(persisted.clone()), record("06:30:00", "18:45:00"));
    assert_eq!(Cache::from_record(&persisted), Some(cache));
    assert_eq!(Cache::from_record(&record("06:30:00", "18:45").unwrap()), None);
    assert_eq!(Cache::from_record(&record("24:00:00", "18:45:00").unwrap()), None);
}
