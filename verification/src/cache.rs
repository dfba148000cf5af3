//! The daily sun-times cache.
//!
//! The sun times of a day are kept in a file that is named after the day, so
//! that a second run on the same day finds them and a run on another day
//! does not. Storing wipes the directory: it never holds more than the entry
//! of the day it was last written on.
//!
//! The directory is handled as a value, a [`CacheDir`]. Whoever owns the
//! real directory reads it into one and writes one back.

use vstd::prelude::*;
use crate::config::Config;
use crate::sun_times::SunTimes;
use crate::time::{
    date_text, lemma_time_text_round_trip, time_text, time_text_value, CalendarDate, TimeOfDay,
    YearMonthDay,
};

verus! {

/// What the cache holds for a day.
#[derive(Clone, Copy, Debug, PartialEq, Eq, Structural)]
pub struct Cache {
    pub sun_times: SunTimes,
}

/// A cache entry as it is persisted: both times of day as `HH:MM:SS`.
#[derive(Clone, Debug, PartialEq, Eq)]
pub struct CacheRecord {
    pub sunrise: String,
    pub sunset: String,
}

/// One file of the cache directory: its name, and the record in it where it
/// holds one that could be decoded.
#[derive(Clone, Debug, PartialEq, Eq)]
pub struct CacheFile {
    pub name: String,
    pub record: Option<CacheRecord>,
}

/// The files of the cache directory.
#[derive(Clone, Debug, PartialEq, Eq)]
pub struct CacheDir {
    pub files: Vec<CacheFile>,
}

/// The name of the file that holds the entry of the day `today`.
pub open spec fn cache_file_name_text(today: YearMonthDay) -> Seq<char> {
    "cache-"@ + date_text(today) + ".json"@
}

/// Sunrise and sunset of a record in seconds since midnight, where both are
/// times of day.
pub open spec fn record_value(record: CacheRecord) -> Option<(int, int)> {
    match (time_text_value(record.sunrise@), time_text_value(record.sunset@)) {
        (Some(sunrise), Some(sunset)) => Some((sunrise, sunset)),
        _ => None,
    }
}

/// `record` is `sun_times` as it is persisted.
pub open spec fn records(record: CacheRecord, sun_times: SunTimes) -> bool {
    &&& record.sunrise@ == time_text(sun_times.sunrise@)
    &&& record.sunset@ == time_text(sun_times.sunset@)
}

/// Some file of `files` is named `name`.
pub open spec fn has_file(files: Seq<CacheFile>, name: Seq<char>) -> bool {
    exists|i: int| 0 <= i < files.len() && (#[trigger] files[i]).name@ == name
}

/// `files[i]` is the first file that is named `name`.
pub open spec fn is_first_named(files: Seq<CacheFile>, name: Seq<char>, i: int) -> bool {
    &&& 0 <= i < files.len()
    &&& files[i].name@ == name
    &&& forall|j: int| 0 <= j < i ==> (#[trigger] files[j]).name@ != name
}

/// The place of the first file that is named `name`, where there is one.
pub open spec fn first_named(files: Seq<CacheFile>, name: Seq<char>) -> int {
    choose|i: int| is_first_named(files, name, i)
}

/// Only one place is that of the first file with a name.
pub proof fn lemma_first_named(files: Seq<CacheFile>, name: Seq<char>, i: int)
    requires
        is_first_named(files, name, i),
    ensures
        first_named(files, name) == i,
        has_file(files, name),
{
}

/// The sun times that the cache gives for the day `today`, in seconds since
/// midnight: those of the record in the first file named after the day.
/// Nothing where the cache is disabled, where no file is named after the
/// day, and where that file holds no record of two times of day.
pub open spec fn cached_times(config: Config, dir: CacheDir, today: YearMonthDay) -> Option<
    (int, int),
> {
    let name = cache_file_name_text(today);
    if config.cache.enabled && has_file(dir.files@, name) {
        match dir.files@[first_named(dir.files@, name)].record {
            Some(record) => record_value(record),
            None => None,
        }
    } else {
        None
    }
}

/// The directory holds one file and no more: the entry of `sun_times` under
/// the name of the day `today`.
pub open spec fn holds_only(dir: CacheDir, today: YearMonthDay, sun_times: SunTimes) -> bool {
    &&& dir.files@.len() == 1
    &&& dir.files@[0].name@ == cache_file_name_text(today)
    &&& dir.files@[0].record matches Some(record)
    &&& records(record, sun_times)
}

/// A directory that holds only the entry of a day gives back, on that day,
/// the sun times that were stored.
pub proof fn lemma_stored_is_cached(
    config: Config,
    dir: CacheDir,
    today: YearMonthDay,
    sun_times: SunTimes,
)
    requires
        config.cache.enabled,
        sun_times.sunrise.wf(),
        sun_times.sunset.wf(),
        holds_only(dir, today, sun_times),
    ensures
        cached_times(config, dir, today) == Some(sun_times@),
{
    lemma_first_named(dir.files@, cache_file_name_text(today), 0);
    lemma_time_text_round_trip(sun_times.sunrise@);
    lemma_time_text_round_trip(sun_times.sunset@);
}

/// What is stored on a day is what loading gives back on that day.
///
/// `dir` is a directory as storing `sun_times` on the day `today` leaves it,
/// and `loaded` is what loading gives from it on the same day. With the cache
/// enabled, `loaded` is an entry and holds `sun_times`, second for second.
pub proof fn lemma_load_after_store(
    config: Config,
    dir: CacheDir,
    today: CalendarDate,
    sun_times: SunTimes,
    loaded: Option<Cache>,
)
    requires
        config.cache.enabled,
        sun_times.sunrise.wf(),
        sun_times.sunset.wf(),
        holds_only(dir, today@, sun_times),
        match loaded {
            Some(cache) => cached_times(config, dir, today@) == Some(cache.sun_times@),
            None => cached_times(config, dir, today@) is None,
        },
    ensures
        loaded == Some(Cache { sun_times }),
{
    lemma_stored_is_cached(config, dir, today@, sun_times);
    let cache = loaded->0;
    cache.sun_times.sunrise.lemma_eq_by_view(sun_times.sunrise);
    cache.sun_times.sunset.lemma_eq_by_view(sun_times.sunset);
}

impl Cache {
    /// The entry as it is persisted.
    pub fn to_record(&self) -> (record: CacheRecord)
        ensures
            records(record, self.sun_times),
            record_value(record) == Some(self.sun_times@),
    {
        let record = CacheRecord {
            sunrise: self.sun_times.sunrise.to_text(),
            sunset: self.sun_times.sunset.to_text(),
        };
        proof {
            use_type_invariant(&self.sun_times.sunrise);
            use_type_invariant(&self.sun_times.sunset);
            lemma_time_text_round_trip(self.sun_times.sunrise@);
            lemma_time_text_round_trip(self.sun_times.sunset@);
        }
        record
    }

    /// The entry that a record stands for, where both its times are times of
    /// day.
    pub fn from_record(record: &CacheRecord) -> (r: Option<Cache>)
        ensures
            match r {
                Some(cache) => record_value(*record) == Some(cache.sun_times@),
                None => record_value(*record) is None,
            },
    {
        let sunrise: TimeOfDay = match TimeOfDay::parse(record.sunrise.as_str()) {
            Some(t) => t,
            None => {
                return None;
            },
        };
        let sunset: TimeOfDay = match TimeOfDay::parse(record.sunset.as_str()) {
            Some(t) => t,
            None => {
                return None;
            },
        };
        Some(Cache { sun_times: SunTimes { sunrise, sunset } })
    }
}

/// The name of the file that holds the entry of the day `today`:
/// `cache-YYYY-MM-DD.json`.
pub fn cache_file_name(today: &CalendarDate) -> (name: String)
    ensures
        name@ == cache_file_name_text(today@),
{
    let mut name = String::from_str("cache-");
    let date = today.to_text();
    name.append(date.as_str());
    name.append(".json");
    name
}

/// The place of the first file of `dir` that is named `name`.
fn find_file(dir: &CacheDir, name: &String) -> (r: Option<usize>)
    ensures
        match r {
            Some(i) => is_first_named(dir.files@, name@, i as int),
            None => !has_file(dir.files@, name@),
        },
{
    let mut i: usize = 0;
    while i < dir.files.len()
        invariant
            i <= dir.files@.len(),
            forall|j: int| 0 <= j < i ==> (#[trigger] dir.files@[j]).name@ != name@,
        decreases dir.files@.len() - i,
    {
        if dir.files[i].name == *name {
            return Some(i);
        }
        i += 1;
    }
    None
}

/// The entry of the day `today`, where the cache has one.
///
/// Returns `None` where the cache is disabled, where the directory has no
/// file named after the day, and where that file holds nothing that can be
/// read as two times of day: a damaged entry is a missing one.
pub fn load_cache(config: &Config, data_dir: &CacheDir, today: &CalendarDate) -> (r: Option<Cache>)
    ensures
        match r {
            Some(cache) => cached_times(*config, *data_dir, today@) == Some(cache.sun_times@),
            None => cached_times(*config, *data_dir, today@) is None,
        },
        !config.cache.enabled ==> r is None,
{
    if !config.cache.enabled {
        return None;
    }
    let name = cache_file_name(today);
    let i: usize = match find_file(data_dir, &name) {
        Some(i) => i,
        None => {
            return None;
        },
    };
    proof {
        lemma_first_named(data_dir.files@, name@, i as int);
    }
    match &data_dir.files[i].record {
        Some(record) => Cache::from_record(record),
        None => None,
    }
}

/// Stores the sun times of the day `today`, where the cache is enabled, and
/// says whether it did.
///
/// Storing removes every file of the directory and puts the entry of the day
/// in their place, so that loading on the same day gives `sun_times` back.
/// Where the cache is disabled the directory stays as it is.
pub fn persist_to_cache(
    config: &Config,
    data_dir: &mut CacheDir,
    today: &CalendarDate,
    sun_times: &SunTimes,
) -> (stored: bool)
    ensures
        stored == config.cache.enabled,
        !config.cache.enabled ==> *final(data_dir) == *old(data_dir),
        config.cache.enabled ==> holds_only(*final(data_dir), today@, *sun_times),
        config.cache.enabled ==> cached_times(*config, *final(data_dir), today@) == Some(
            sun_times@,
        ),
{
    if !config.cache.enabled {
        return false;
    }
    let cache = Cache { sun_times: *sun_times };
    let file = CacheFile { name: cache_file_name(today), record: Some(cache.to_record()) };
    let mut files: Vec<CacheFile> = Vec::new();
    files.push(file);
    data_dir.files = files;
    proof {
        use_type_invariant(&sun_times.sunrise);
        use_type_invariant(&sun_times.sunset);
        lemma_stored_is_cached(*config, *data_dir, today@, *sun_times);
    }
    true
}

} // verus!
