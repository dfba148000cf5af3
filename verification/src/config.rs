//! The configuration of a run: where the sun is watched from, the display
//! levels by day and by night, the length of the fade between them, and
//! whether sun times are cached.
//!
//! A configuration is persisted with its temperatures and gamma levels as
//! text. [`parse_config`] turns what was persisted into numbers once, when a
//! run starts, so that nothing later can meet a malformed level.

use vstd::prelude::*;
use crate::gamma::Gamma;
use crate::text::{
    hundredths_text, i64_hundredths_text_value, i64_text_value, i64_to_text, integer_text,
    lemma_hundredths_text_round_trip, lemma_integer_text_round_trip, parse_i64,
};

verus! {

/// Everything a run is configured by.
#[derive(Clone, Debug, PartialEq, Eq)]
pub struct Config {
    pub location: LocationConfig,
    pub screen: ScreenConfig,
    pub cache: CacheConfig,
}

/// Where on earth the sun is watched from, in decimal degrees as text.
#[derive(Clone, Debug, PartialEq, Eq)]
pub struct LocationConfig {
    pub latitude: String,
    pub longitude: String,
}

/// The display levels by day and by night, and how long the change from one
/// to the other takes. A fade of zero minutes switches at once.
#[derive(Clone, Copy, Debug, PartialEq, Eq, Structural)]
pub struct ScreenConfig {
    pub day_temperature: i64,
    pub day_gamma: Gamma,
    pub night_temperature: i64,
    pub night_gamma: Gamma,
    pub fade_duration_minutes: u32,
}

/// Whether the sun times of a day are kept between runs.
#[derive(Clone, Copy, Debug, PartialEq, Eq, Structural)]
pub struct CacheConfig {
    pub enabled: bool,
}

/// A configuration as it is persisted: the levels as text, the fade as the
/// integer that was written.
#[derive(Clone, Debug, PartialEq, Eq)]
pub struct ConfigFile {
    pub location: LocationConfig,
    pub screen: ScreenFile,
    pub cache: CacheConfig,
}

/// The screen section of a persisted configuration.
#[derive(Clone, Debug, PartialEq, Eq)]
pub struct ScreenFile {
    pub day_temperature: String,
    pub day_gamma: String,
    pub night_temperature: String,
    pub night_gamma: String,
    pub fade_duration_minutes: i64,
}

/// The field of a persisted configuration that cannot be used.
#[derive(Clone, Copy, Debug, PartialEq, Eq, Structural)]
pub enum ConfigError {
    /// `screen.day_temperature` is no integer that fits.
    DayTemperature,
    /// `screen.day_gamma` is no percentage with at most two digits behind
    /// the point.
    DayGamma,
    /// `screen.night_temperature` is no integer that fits.
    NightTemperature,
    /// `screen.night_gamma` is no percentage with at most two digits behind
    /// the point.
    NightGamma,
    /// `screen.fade_duration_minutes` is negative or too large.
    FadeDuration,
}

/// The latitude of Berlin, where the sun is watched from unless configured
/// otherwise.
pub const BERLIN_LAT: &'static str = "52.56";

/// The longitude of Berlin.
pub const BERLIN_LON: &'static str = "13.39";

/// The minutes a fade lasts where nothing else is configured.
pub const DEFAULT_FADE_DURATION_MINUTES: u32 = 60;

/// The screen levels that are used where nothing else is configured.
pub open spec fn default_screen() -> ScreenConfig {
    ScreenConfig {
        day_temperature: 6000,
        day_gamma: Gamma { hundredths: 10000 },
        night_temperature: 2800,
        night_gamma: Gamma { hundredths: 8000 },
        fade_duration_minutes: DEFAULT_FADE_DURATION_MINUTES,
    }
}

/// `config` is the default configuration: the sun over Berlin, the default
/// screen levels, and the cache enabled.
pub open spec fn is_default_config(config: Config) -> bool {
    &&& config.location.latitude@ == BERLIN_LAT@
    &&& config.location.longitude@ == BERLIN_LON@
    &&& config.screen == default_screen()
    &&& config.cache.enabled
}

/// The screen configuration that a persisted screen section stands for, or
/// the first of its fields, in the order in which they are declared, that
/// cannot be used.
pub open spec fn screen_config_of(file: ScreenFile) -> Result<ScreenConfig, ConfigError> {
    if i64_text_value(file.day_temperature@) is None {
        Err(ConfigError::DayTemperature)
    } else if i64_hundredths_text_value(file.day_gamma@) is None {
        Err(ConfigError::DayGamma)
    } else if i64_text_value(file.night_temperature@) is None {
        Err(ConfigError::NightTemperature)
    } else if i64_hundredths_text_value(file.night_gamma@) is None {
        Err(ConfigError::NightGamma)
    } else if !(0 <= file.fade_duration_minutes <= u32::MAX) {
        Err(ConfigError::FadeDuration)
    } else {
        Ok(
            ScreenConfig {
                day_temperature: i64_text_value(file.day_temperature@).unwrap(),
                day_gamma: Gamma {
                    hundredths: i64_hundredths_text_value(file.day_gamma@).unwrap(),
                },
                night_temperature: i64_text_value(file.night_temperature@).unwrap(),
                night_gamma: Gamma {
                    hundredths: i64_hundredths_text_value(file.night_gamma@).unwrap(),
                },
                fade_duration_minutes: file.fade_duration_minutes as u32,
            },
        )
    }
}

/// `file` stands for `config`.
pub open spec fn reads_as(file: ConfigFile, config: Config) -> bool {
    &&& screen_config_of(file.screen) == Ok::<ScreenConfig, ConfigError>(config.screen)
    &&& config.location == file.location
    &&& config.cache == file.cache
}

/// `file` is `config` as it is persisted: the temperatures in decimal
/// notation, the gamma levels with two digits behind the point.
pub open spec fn writes_as(config: Config, file: ConfigFile) -> bool {
    &&& file.location == config.location
    &&& file.cache == config.cache
    &&& file.screen.day_temperature@ == integer_text(config.screen.day_temperature as int)
    &&& file.screen.day_gamma@ == hundredths_text(config.screen.day_gamma.hundredths as int)
    &&& file.screen.night_temperature@ == integer_text(config.screen.night_temperature as int)
    &&& file.screen.night_gamma@ == hundredths_text(config.screen.night_gamma.hundredths as int)
    &&& file.screen.fade_duration_minutes == config.screen.fade_duration_minutes
}

/// A configuration that was persisted is read back unchanged.
pub proof fn lemma_config_round_trip(config: Config, file: ConfigFile)
    requires
        writes_as(config, file),
    ensures
        reads_as(file, config),
{
    lemma_integer_text_round_trip(config.screen.day_temperature as int);
    lemma_integer_text_round_trip(config.screen.night_temperature as int);
    lemma_hundredths_text_round_trip(config.screen.day_gamma.hundredths as int);
    lemma_hundredths_text_round_trip(config.screen.night_gamma.hundredths as int);
}

/// The configuration that is used, and persisted, where none exists yet.
pub fn default_config() -> (config: Config)
    ensures
        is_default_config(config),
{
    Config {
        location: LocationConfig {
            latitude: String::from_str(BERLIN_LAT),
            longitude: String::from_str(BERLIN_LON),
        },
        screen: ScreenConfig {
            day_temperature: 6000,
            day_gamma: Gamma::from_percent(100),
            night_temperature: 2800,
            night_gamma: Gamma::from_percent(80),
            fade_duration_minutes: DEFAULT_FADE_DURATION_MINUTES,
        },
        cache: CacheConfig { enabled: true },
    }
}

/// A configuration for trying things out: the default one with the cache
/// disabled.
pub fn get_test_config() -> (config: Config)
    ensures
        config.location.latitude@ == BERLIN_LAT@,
        config.location.longitude@ == BERLIN_LON@,
        config.screen == default_screen(),
        !config.cache.enabled,
{
    Config {
        location: LocationConfig {
            latitude: String::from_str(BERLIN_LAT),
            longitude: String::from_str(BERLIN_LON),
        },
        screen: ScreenConfig {
            day_temperature: 6000,
            day_gamma: Gamma::from_percent(100),
            night_temperature: 2800,
            night_gamma: Gamma::from_percent(80),
            fade_duration_minutes: DEFAULT_FADE_DURATION_MINUTES,
        },
        cache: CacheConfig { enabled: false },
    }
}

/// Turns a persisted configuration into one that can be used, or names the
/// first field that cannot.
pub fn parse_config(file: &ConfigFile) -> (r: Result<Config, ConfigError>)
    ensures
        match r {
            Ok(config) => reads_as(*file, config),
            Err(e) => screen_config_of(file.screen) == Err::<ScreenConfig, ConfigError>(e),
        },
{
    let day_temperature: i64 = match parse_i64(file.screen.day_temperature.as_str()) {
        Some(t) => t,
        None => {
            return Err(ConfigError::DayTemperature);
        },
    };
    let day_gamma: Gamma = match Gamma::parse(file.screen.day_gamma.as_str()) {
        Some(g) => g,
        None => {
            return Err(ConfigError::DayGamma);
        },
    };
    let night_temperature: i64 = match parse_i64(file.screen.night_temperature.as_str()) {
        Some(t) => t,
        None => {
            return Err(ConfigError::NightTemperature);
        },
    };
    let night_gamma: Gamma = match Gamma::parse(file.screen.night_gamma.as_str()) {
        Some(g) => g,
        None => {
            return Err(ConfigError::NightGamma);
        },
    };
    let fade: i64 = file.screen.fade_duration_minutes;
    if fade < 0 || fade > u32::MAX as i64 {
        return Err(ConfigError::FadeDuration);
    }
    Ok(
        Config {
            location: LocationConfig {
                latitude: file.location.latitude.clone(),
                longitude: file.location.longitude.clone(),
            },
            screen: ScreenConfig {
                day_temperature,
                day_gamma,
                night_temperature,
                night_gamma,
                fade_duration_minutes: fade as u32,
            },
            cache: file.cache,
        },
    )
}

/// Writes a configuration the way it is persisted.
pub fn render_config(config: &Config) -> (file: ConfigFile)
    ensures
        writes_as(*config, file),
        reads_as(file, *config),
{
    let file = ConfigFile {
        location: LocationConfig {
            latitude: config.location.latitude.clone(),
            longitude: config.location.longitude.clone(),
        },
        screen: ScreenFile {
            day_temperature: i64_to_text(config.screen.day_temperature),
            day_gamma: config.screen.day_gamma.to_text(),
            night_temperature: i64_to_text(config.screen.night_temperature),
            night_gamma: config.screen.night_gamma.to_text(),
            fade_duration_minutes: config.screen.fade_duration_minutes as i64,
        },
        cache: config.cache,
    };
    proof {
        lemma_config_round_trip(*config, file);
    }
    file
}

/// Decides which configuration a run uses, given what is persisted.
///
/// Where a configuration is persisted it is the one, if it can be used;
/// nothing is written then, and a malformed one is an error, not a reason to
/// fall back. Where none is persisted the default is used, and the second
/// part of the result is what to persist.
pub fn load_config(persisted: Option<&ConfigFile>) -> (r: Result<
    (Config, Option<ConfigFile>),
    ConfigError,
>)
    ensures
        match persisted {
            Some(file) => match r {
                Ok((config, write)) => reads_as(*file, config) && write is None,
                Err(e) => screen_config_of(file.screen) == Err::<ScreenConfig, ConfigError>(e),
            },
            None => match r {
                Ok((config, write)) => {
                    &&& is_default_config(config)
                    &&& write matches Some(file)
                    &&& writes_as(config, file)
                    &&& reads_as(file, config)
                },
                Err(_) => false,
            },
        },
{
    match persisted {
        Some(file) => match parse_config(file) {
            Ok(config) => Ok((config, None)),
            Err(e) => Err(e),
        },
        None => {
            let config = default_config();
            let file = render_config(&config);
            Ok((config, Some(file)))
        },
    }
}

} // verus!
