//! A run of the program, one step at a time.
//!
//! A run makes sure that the display daemon is up, gets the sun times of the
//! day from the cache or else from the sun-times service, reads the clock,
//! and sets the display. None of that is done here. An [`Application`] only
//! decides: it is told what happened, as an [`Event`], and answers with what
//! to do next, as an [`Action`]. Whoever drives it does what the action says
//! and reports back, until the action is [`Action::Finish`] or
//! [`Action::Fail`].

use vstd::prelude::*;
use crate::cache::{cached_times, holds_only, load_cache, persist_to_cache, CacheDir};
use crate::config::Config;
use crate::screen::{calculate_screen_state, screen_levels, ScreenState};
use crate::sun_times::{
    build_sunrisesunset_url, sun_seconds_of, sun_times_from_timestamps, sunrisesunset_url_text,
    FetchError, SunTimes,
};
use crate::text::{hundredths_text, i64_to_text, integer_text};
use crate::time::{CalendarDate, TimeOfDay, YearMonthDay};

verus! {

/// How far a run has come: what it is waiting to hear of.
#[derive(Clone, Copy, Debug, PartialEq, Eq, Structural)]
pub enum Phase {
    /// Nothing was done yet.
    Start,
    /// Whether the display daemon runs.
    ProbingDaemon,
    /// That the display daemon was started.
    StartingDaemon,
    /// What the cache directory holds.
    ReadingCache,
    /// The answer of the sun-times service.
    Fetching,
    /// That the cache directory was written. The sun times are known.
    WritingCache { sun_times: SunTimes },
    /// The time of day.
    ReadingClock { sun_times: SunTimes },
    /// That the temperature was set. The gamma of `state` is still to set.
    SettingTemperature { state: ScreenState },
    /// That the gamma was set.
    SettingGamma,
    /// The run is complete.
    Finished,
    /// The run has failed.
    Failed,
}

/// What happened, as the driver of a run reports it.
#[derive(Clone, Debug, PartialEq, Eq)]
pub enum Event {
    /// The run begins.
    Started,
    /// The display daemon was looked for, and runs or does not.
    DaemonProbed { running: bool },
    /// The display daemon was started.
    DaemonStarted,
    /// The cache directory was read.
    CacheRead { dir: CacheDir },
    /// The cache directory could not be read.
    CacheUnreadable,
    /// The sun-times service gave these two timestamps, as it wrote them.
    Fetched { sunrise: String, sunset: String },
    /// The cache directory was replaced.
    CacheWritten,
    /// The cache directory could not be replaced.
    CacheNotWritten,
    /// The clock was read: it is `now` on the UTC clock.
    Clock { now: TimeOfDay },
    /// The display took the level that was set last.
    Applied,
}

/// What the driver of a run is to do next.
#[derive(Clone, Debug, PartialEq, Eq)]
pub enum Action {
    /// Find out whether the display daemon runs.
    ProbeDaemon,
    /// Start the display daemon.
    StartDaemon,
    /// Read the cache directory.
    ReadCache,
    /// Ask the sun-times service at `url`.
    Fetch { url: String },
    /// Remove everything from the cache directory and write `dir` in its
    /// place.
    WriteCache { dir: CacheDir },
    /// Read the UTC clock.
    ReadClock,
    /// Set the colour temperature of the display to `value`.
    SetTemperature { value: String },
    /// Set the gamma of the display to `value`.
    SetGamma { value: String },
    /// Nothing: the run is complete.
    Finish,
    /// Nothing: the run has failed with `error`.
    Fail { error: RunError },
}

/// Why a run has failed.
#[derive(Clone, Copy, Debug, PartialEq, Eq, Structural)]
pub enum RunError {
    /// The answer of the sun-times service cannot be used.
    Fetch(FetchError),
    /// What was reported is no answer to what was asked for.
    UnexpectedEvent,
}

/// A run: its configuration, the day it runs on, and how far it has come.
#[derive(Clone, Debug, PartialEq, Eq)]
pub struct Application {
    pub config: Config,
    pub today: CalendarDate,
    pub phase: Phase,
}

/// How far a phase lies into a run. Every step that does not fail the run
/// takes it further, so that no run comes to the same phase twice.
pub open spec fn progress(phase: Phase) -> nat {
    match phase {
        Phase::Start => 0,
        Phase::ProbingDaemon => 1,
        Phase::StartingDaemon => 2,
        Phase::ReadingCache => 3,
        Phase::Fetching => 4,
        Phase::WritingCache { .. } => 5,
        Phase::ReadingClock { .. } => 6,
        Phase::SettingTemperature { .. } => 7,
        Phase::SettingGamma => 8,
        Phase::Finished => 9,
        Phase::Failed => 10,
    }
}

/// The run asks the sun-times service.
pub open spec fn fetches(config: Config, after: Phase, action: Action) -> bool {
    &&& after == Phase::Fetching
    &&& action matches Action::Fetch { url }
    &&& url@ == sunrisesunset_url_text(config.location.latitude@, config.location.longitude@)
}

/// The run sets out to get the sun times: from the cache where it is
/// enabled, else from the sun-times service.
pub open spec fn seeks_sun_times(config: Config, after: Phase, action: Action) -> bool {
    if config.cache.enabled {
        after == Phase::ReadingCache && action is ReadCache
    } else {
        fetches(config, after, action)
    }
}

/// The run has the sun times, sunrise and sunset in seconds since midnight,
/// and asks for the time of day.
pub open spec fn reads_clock(after: Phase, action: Action, sun: (int, int)) -> bool {
    &&& after matches Phase::ReadingClock { sun_times }
    &&& sun_times@ == sun
    &&& action is ReadClock
}

/// The run has the sun times from the service. Where the cache is enabled it
/// has them stored as the only entry of the cache directory, else it goes on
/// to ask for the time of day.
pub open spec fn keeps_sun_times(
    config: Config,
    today: YearMonthDay,
    after: Phase,
    action: Action,
    sun: (int, int),
) -> bool {
    if config.cache.enabled {
        &&& after matches Phase::WritingCache { sun_times }
        &&& sun_times@ == sun
        &&& action matches Action::WriteCache { dir }
        &&& holds_only(dir, today, sun_times)
    } else {
        reads_clock(after, action, sun)
    }
}

/// The run knows the state of the display at `now`, in seconds since
/// midnight, and sets the temperature of that state.
pub open spec fn sets_temperature(
    config: Config,
    after: Phase,
    action: Action,
    sun_times: SunTimes,
    now: int,
) -> bool {
    &&& after matches Phase::SettingTemperature { state }
    &&& state@ == screen_levels(now, sun_times.sunrise@, sun_times.sunset@, config.screen)
    &&& action matches Action::SetTemperature { value }
    &&& value@ == integer_text(state.temperature as int)
}

/// The run has failed with `error`.
pub open spec fn fails(after: Phase, action: Action, error: RunError) -> bool {
    after == Phase::Failed && action == (Action::Fail { error })
}

/// One step of a run: in phase `before` the event `event` is reported, and
/// the run answers with `action` and is in phase `after`.
///
/// Every phase waits for the events that answer the action before it. Any
/// other event fails the run.
pub open spec fn steps(
    config: Config,
    today: YearMonthDay,
    before: Phase,
    event: Event,
    after: Phase,
    action: Action,
) -> bool {
    match (before, event) {
        (Phase::Start, Event::Started) => after == Phase::ProbingDaemon && action is ProbeDaemon,
        (Phase::ProbingDaemon, Event::DaemonProbed { running }) => if running {
            seeks_sun_times(config, after, action)
        } else {
            after == Phase::StartingDaemon && action is StartDaemon
        },
        (Phase::StartingDaemon, Event::DaemonStarted) => seeks_sun_times(config, after, action),
        (Phase::ReadingCache, Event::CacheRead { dir }) => match cached_times(config, dir, today) {
            Some(sun) => reads_clock(after, action, sun),
            None => fetches(config, after, action),
        },
        (Phase::ReadingCache, Event::CacheUnreadable) => fetches(config, after, action),
        (Phase::Fetching, Event::Fetched { sunrise, sunset }) => match sun_seconds_of(
            sunrise@,
            sunset@,
        ) {
            Ok(sun) => keeps_sun_times(config, today, after, action, sun),
            Err(e) => fails(after, action, RunError::Fetch(e)),
        },
        (Phase::WritingCache { sun_times }, Event::CacheWritten) => {
            after == (Phase::ReadingClock { sun_times }) && action is ReadClock
        },
        (Phase::WritingCache { sun_times }, Event::CacheNotWritten) => {
            after == (Phase::ReadingClock { sun_times }) && action is ReadClock
        },
        (Phase::ReadingClock { sun_times }, Event::Clock { now }) => sets_temperature(
            config,
            after,
            action,
            sun_times,
            now@,
        ),
        (Phase::SettingTemperature { state }, Event::Applied) => {
            &&& after == Phase::SettingGamma
            &&& action matches Action::SetGamma { value }
            &&& value@ == hundredths_text(state.gamma.hundredths as int)
        },
        (Phase::SettingGamma, Event::Applied) => after == Phase::Finished && action is Finish,
        _ => fails(after, action, RunError::UnexpectedEvent),
    }
}

impl Application {
    /// A run with the configuration `config` on the day `today`, of which
    /// nothing was done yet.
    pub fn new(config: Config, today: CalendarDate) -> (app: Application)
        ensures
            app.config == config,
            app.today == today,
            app.phase == Phase::Start,
    {
        Application { config, today, phase: Phase::Start }
    }

    /// The step that gets the sun times.
    fn seek_sun_times(&mut self) -> (action: Action)
        ensures
            final(self).config == old(self).config,
            final(self).today == old(self).today,
            seeks_sun_times(old(self).config, final(self).phase, action),
    {
        if self.config.cache.enabled {
            self.phase = Phase::ReadingCache;
            Action::ReadCache
        } else {
            self.fetch()
        }
    }

    /// The step that asks the sun-times service.
    fn fetch(&mut self) -> (action: Action)
        ensures
            final(self).config == old(self).config,
            final(self).today == old(self).today,
            fetches(old(self).config, final(self).phase, action),
    {
        self.phase = Phase::Fetching;
        Action::Fetch { url: build_sunrisesunset_url(&self.config) }
    }

    /// The step that fails the run.
    fn fail(&mut self, error: RunError) -> (action: Action)
        ensures
            final(self).config == old(self).config,
            final(self).today == old(self).today,
            fails(final(self).phase, action, error),
    {
        self.phase = Phase::Failed;
        Action::Fail { error }
    }

    /// The step that has the sun times and asks for the time of day.
    fn read_clock(&mut self, sun_times: SunTimes) -> (action: Action)
        ensures
            final(self).config == old(self).config,
            final(self).today == old(self).today,
            final(self).phase == (Phase::ReadingClock { sun_times }),
            action is ReadClock,
    {
        self.phase = Phase::ReadingClock { sun_times };
        Action::ReadClock
    }

    /// The step that hears what the cache directory holds.
    fn cache_read(&mut self, dir: &CacheDir) -> (action: Action)
        ensures
            final(self).config == old(self).config,
            final(self).today == old(self).today,
            match cached_times(old(self).config, *dir, old(self).today@) {
                Some(sun) => reads_clock(final(self).phase, action, sun),
                None => fetches(old(self).config, final(self).phase, action),
            },
    {
        match load_cache(&self.config, dir, &self.today) {
            Some(cache) => self.read_clock(cache.sun_times),
            None => self.fetch(),
        }
    }

    /// The step that hears the answer of the sun-times service.
    fn fetched(&mut self, sunrise: &str, sunset: &str) -> (action: Action)
        ensures
            final(self).config == old(self).config,
            final(self).today == old(self).today,
            match sun_seconds_of(sunrise@, sunset@) {
                Ok(sun) => keeps_sun_times(
                    old(self).config,
                    old(self).today@,
                    final(self).phase,
                    action,
                    sun,
                ),
                Err(e) => fails(final(self).phase, action, RunError::Fetch(e)),
            },
    {
        match sun_times_from_timestamps(sunrise, sunset) {
            Ok(sun_times) => {
                let mut dir = CacheDir { files: Vec::new() };
                if persist_to_cache(&self.config, &mut dir, &self.today, &sun_times) {
                    self.phase = Phase::WritingCache { sun_times };
                    Action::WriteCache { dir }
                } else {
                    self.read_clock(sun_times)
                }
            },
            Err(e) => self.fail(RunError::Fetch(e)),
        }
    }

    /// The step that hears the time of day and sets the temperature of the
    /// display.
    fn clock_read(&mut self, sun_times: SunTimes, now: TimeOfDay) -> (action: Action)
        ensures
            final(self).config == old(self).config,
            final(self).today == old(self).today,
            sets_temperature(old(self).config, final(self).phase, action, sun_times, now@),
    {
        let state = calculate_screen_state(now, &sun_times, &self.config);
        self.phase = Phase::SettingTemperature { state };
        Action::SetTemperature { value: i64_to_text(state.temperature) }
    }

    /// Takes the run one step on: hears what happened and says what to do
    /// next.
    ///
    /// The steps of a run, in order: the display daemon is looked for, and
    /// started where it does not run. The sun times of the day are taken
    /// from the cache; where the cache is disabled, cannot be read or has no
    /// usable entry for the day, the sun-times service is asked instead, and
    /// its answer is stored where the cache is enabled. A cache that cannot
    /// be written does not stop the run. Then the clock is read, and the
    /// display is set to the state of that time of day, first its
    /// temperature and then its gamma.
    pub fn run(&mut self, event: Event) -> (action: Action)
        ensures
            final(self).config == old(self).config,
            final(self).today == old(self).today,
            steps(
                old(self).config,
                old(self).today@,
                old(self).phase,
                event,
                final(self).phase,
                action,
            ),
            // A disabled cache is neither read nor written.
            !old(self).config.cache.enabled ==> !(action is ReadCache) && !(action is WriteCache),
            // The run moves on or fails: nothing is asked for twice.
            final(self).phase == Phase::Failed || progress(final(self).phase) > progress(
                old(self).phase,
            ),
    {
        match self.phase {
            Phase::Start => match event {
                Event::Started => {
                    self.phase = Phase::ProbingDaemon;
                    Action::ProbeDaemon
                },
                _ => self.fail(RunError::UnexpectedEvent),
            },
            Phase::ProbingDaemon => match event {
                Event::DaemonProbed { running } => {
                    if running {
                        self.seek_sun_times()
                    } else {
                        self.phase = Phase::StartingDaemon;
                        Action::StartDaemon
                    }
                },
                _ => self.fail(RunError::UnexpectedEvent),
            },
            Phase::StartingDaemon => match event {
                Event::DaemonStarted => self.seek_sun_times(),
                _ => self.fail(RunError::UnexpectedEvent),
            },
            Phase::ReadingCache => match event {
                Event::CacheRead { dir } => self.cache_read(&dir),
                Event::CacheUnreadable => self.fetch(),
                _ => self.fail(RunError::UnexpectedEvent),
            },
            Phase::Fetching => match event {
                Event::Fetched { sunrise, sunset } => self.fetched(
                    sunrise.as_str(),
                    sunset.as_str(),
                ),
                _ => self.fail(RunError::UnexpectedEvent),
            },
            Phase::WritingCache { sun_times } => match event {
                Event::CacheWritten => self.read_clock(sun_times),
                Event::CacheNotWritten => self.read_clock(sun_times),
                _ => self.fail(RunError::UnexpectedEvent),
            },
            Phase::ReadingClock { sun_times } => match event {
                Event::Clock { now } => self.clock_read(sun_times, now),
                _ => self.fail(RunError::UnexpectedEvent),
            },
            Phase::SettingTemperature { state } => match event {
                Event::Applied => {
                    self.phase = Phase::SettingGamma;
                    Action::SetGamma { value: state.gamma.to_text() }
                },
                _ => self.fail(RunError::UnexpectedEvent),
            },
            Phase::SettingGamma => match event {
                Event::Applied => {
                    self.phase = Phase::Finished;
                    Action::Finish
                },
                _ => self.fail(RunError::UnexpectedEvent),
            },
            Phase::Finished => self.fail(RunError::UnexpectedEvent),
            Phase::Failed => self.fail(RunError::UnexpectedEvent),
        }
    }
}

} // verus!
