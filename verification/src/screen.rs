//! The screen state engine: which colour temperature and gamma the display
//! should have at a time of day.
//!
//! By day the display has its day levels and by night its night levels. In
//! the minutes before sunrise and before sunset, the fade window, each level
//! moves in equal steps per minute from the levels that hold now towards
//! those that hold next.

use vstd::prelude::*;
use crate::config::{Config, ScreenConfig};
use crate::gamma::Gamma;
use crate::sun_times::SunTimes;
use crate::time::TimeOfDay;

verus! {

/// What the display is set to.
#[derive(Clone, Copy, Debug, PartialEq, Eq, Structural)]
pub struct ScreenState {
    pub temperature: i64,
    pub gamma: Gamma,
}

/// A colour temperature and a gamma level as numbers: the temperature in its
/// own unit, the gamma in hundredths of a percent point.
pub struct Levels {
    pub temperature: int,
    pub gamma: int,
}

impl View for ScreenState {
    type V = Levels;

    /// Both levels as numbers.
    open spec fn view(&self) -> Levels {
        Levels { temperature: self.temperature as int, gamma: self.gamma.hundredths as int }
    }
}

/// The levels configured for the day.
pub open spec fn day_levels(screen: ScreenConfig) -> Levels {
    Levels { temperature: screen.day_temperature as int, gamma: screen.day_gamma.hundredths as int }
}

/// The levels configured for the night.
pub open spec fn night_levels(screen: ScreenConfig) -> Levels {
    Levels {
        temperature: screen.night_temperature as int,
        gamma: screen.night_gamma.hundredths as int,
    }
}

/// It is day from sunrise on and until just before sunset. Times are in
/// seconds since midnight.
pub open spec fn is_day(now: int, sunrise: int, sunset: int) -> bool {
    sunrise <= now < sunset
}

/// `now` lies in the `fade` minutes that end just before `boundary`.
pub open spec fn in_fade_window(now: int, boundary: int, fade: int) -> bool {
    boundary - fade * 60 <= now < boundary
}

/// It is night and sunrise is at most `fade` minutes away.
pub open spec fn fading_into_day(now: int, sunrise: int, sunset: int, fade: int) -> bool {
    !is_day(now, sunrise, sunset) && in_fade_window(now, sunrise, fade)
}

/// It is day and sunset is at most `fade` minutes away.
pub open spec fn fading_into_night(now: int, sunrise: int, sunset: int, fade: int) -> bool {
    is_day(now, sunrise, sunset) && in_fade_window(now, sunset, fade)
}

/// The minutes of a fade that have passed at `now`: the length of the fade
/// less the whole minutes that are left until `boundary`.
pub open spec fn elapsed_minutes(now: int, boundary: int, fade: int) -> int {
    fade - (boundary - now) / 60
}

/// `a` divided by a positive `b`, rounded towards zero.
pub open spec fn truncated_quotient(a: int, b: int) -> int
    recommends
        b > 0,
{
    if a >= 0 {
        a / b
    } else {
        -((-a) / b)
    }
}

/// A level `elapsed` minutes into a fade of `fade` minutes from `from` to
/// `to`: it has moved `elapsed` steps, each the whole span divided by the
/// minutes of the fade and rounded towards zero.
pub open spec fn interpolate(from: int, to: int, fade: int, elapsed: int) -> int
    recommends
        fade > 0,
{
    from + truncated_quotient(to - from, fade) * elapsed
}

/// Both levels `elapsed` minutes into a fade from `from` to `to`.
pub open spec fn fade_levels(from: Levels, to: Levels, fade: int, elapsed: int) -> Levels {
    Levels {
        temperature: interpolate(from.temperature, to.temperature, fade, elapsed),
        gamma: interpolate(from.gamma, to.gamma, fade, elapsed),
    }
}

/// A fade from `from` to `to` over `fade` minutes that moves neither level:
/// both spans are shorter than the minutes of the fade, so that a step is
/// nothing.
pub open spec fn is_still(from: Levels, to: Levels, fade: int) -> bool
    recommends
        fade > 0,
{
    &&& truncated_quotient(to.temperature - from.temperature, fade) == 0
    &&& truncated_quotient(to.gamma - from.gamma, fade) == 0
}

/// The levels of a display that never fades: the day levels by day, the
/// night levels otherwise.
pub open spec fn flat_levels(now: int, sunrise: int, sunset: int, screen: ScreenConfig) -> Levels {
    if is_day(now, sunrise, sunset) {
        day_levels(screen)
    } else {
        night_levels(screen)
    }
}

/// The levels during a fade. Whether it is day decides which way the fade
/// goes: by day towards the night levels, by night towards the day levels.
pub open spec fn fading_levels(now: int, sunrise: int, sunset: int, screen: ScreenConfig) -> Levels {
    let fade: int = screen.fade_duration_minutes as int;
    if is_day(now, sunrise, sunset) {
        fade_levels(
            day_levels(screen),
            night_levels(screen),
            fade,
            elapsed_minutes(now, sunset, fade),
        )
    } else {
        fade_levels(
            night_levels(screen),
            day_levels(screen),
            fade,
            elapsed_minutes(now, sunrise, fade),
        )
    }
}

/// The levels of the display at `now` on a day with the given sunrise and
/// sunset, all three in seconds since midnight.
pub open spec fn screen_levels(now: int, sunrise: int, sunset: int, screen: ScreenConfig) -> Levels {
    let fade: int = screen.fade_duration_minutes as int;
    if fading_into_day(now, sunrise, sunset, fade) || fading_into_night(
        now,
        sunrise,
        sunset,
        fade,
    ) {
        fading_levels(now, sunrise, sunset, screen)
    } else {
        flat_levels(now, sunrise, sunset, screen)
    }
}

/// Inside a fade window the minutes that have passed run from zero up to the
/// length of the fade.
pub proof fn lemma_elapsed_in_window(now: int, boundary: int, fade: int)
    requires
        in_fade_window(now, boundary, fade),
    ensures
        fade > 0,
        0 <= elapsed_minutes(now, boundary, fade) <= fade,
        now == boundary - fade * 60 ==> elapsed_minutes(now, boundary, fade) == 0,
{
}

/// A fading level stays between the level it leaves and the level it heads
/// for, and starts at the level it leaves.
pub proof fn lemma_interpolate_between(from: int, to: int, fade: int, elapsed: int)
    requires
        fade > 0,
        0 <= elapsed <= fade,
    ensures
        from <= to ==> from <= interpolate(from, to, fade, elapsed) <= to,
        to <= from ==> to <= interpolate(from, to, fade, elapsed) <= from,
        elapsed == 0 ==> interpolate(from, to, fade, elapsed) == from,
{
    let step: int = truncated_quotient(to - from, fade);
    if to >= from {
        let span: int = to - from;
        assert(0 <= step && step * fade <= span) by (nonlinear_arith)
            requires
                span >= 0,
                fade > 0,
                step == span / fade,
        ;
        assert(0 <= step * elapsed <= step * fade) by (nonlinear_arith)
            requires
                0 <= step,
                0 <= elapsed <= fade,
        ;
    } else {
        let span: int = from - to;
        assert(0 <= -step && (-step) * fade <= span) by (nonlinear_arith)
            requires
                span >= 0,
                fade > 0,
                -step == span / fade,
        ;
        assert(0 <= (-step) * elapsed <= (-step) * fade) by (nonlinear_arith)
            requires
                0 <= -step,
                0 <= elapsed <= fade,
        ;
        assert(step * elapsed == -((-step) * elapsed)) by (nonlinear_arith);
    }
}

/// A fading level moves one way only: as the minutes pass it never moves
/// back towards the level it left.
pub proof fn lemma_interpolate_monotonic(from: int, to: int, fade: int, earlier: int, later: int)
    requires
        fade > 0,
        0 <= earlier <= later,
    ensures
        from <= to ==> interpolate(from, to, fade, earlier) <= interpolate(from, to, fade, later),
        to <= from ==> interpolate(from, to, fade, earlier) >= interpolate(from, to, fade, later),
{
    let step: int = truncated_quotient(to - from, fade);
    if to >= from {
        let span: int = to - from;
        assert(0 <= step) by (nonlinear_arith)
            requires
                span >= 0,
                fade > 0,
                step == span / fade,
        ;
        assert(step * earlier <= step * later) by (nonlinear_arith)
            requires
                0 <= step,
                earlier <= later,
        ;
    }
    if to <= from {
        let span: int = from - to;
        assert(0 <= -step) by (nonlinear_arith)
            requires
                span >= 0,
                fade > 0,
                -step == span / fade,
        ;
        assert(step * earlier >= step * later) by (nonlinear_arith)
            requires
                step <= 0,
                earlier <= later,
        ;
    }
}

/// `from` moved `elapsed` steps towards `to`.
fn interpolate_level(from: i64, to: i64, fade: u32, elapsed: u32) -> (r: i64)
    requires
        fade > 0,
        elapsed <= fade,
    ensures
        r == interpolate(from as int, to as int, fade as int, elapsed as int),
{
    let span: i128 = to as i128 - from as i128;
    let step: i128 = span / fade as i128;
    proof {
        lemma_interpolate_between(from as int, to as int, fade as int, elapsed as int);
    }
    let moved: i128 = step * elapsed as i128;
    (from as i128 + moved) as i64
}

/// The state of the display inside a fade window. `is_day` says which window
/// it is: by day the one before sunset, by night the one before sunrise.
fn calculate_fade_state(
    is_day: bool,
    target_time: TimeOfDay,
    sun_times: &SunTimes,
    config: &Config,
) -> (r: ScreenState)
    requires
        is_day == self::is_day(target_time@, sun_times.sunrise@, sun_times.sunset@),
        in_fade_window(
            target_time@,
            if is_day {
                sun_times.sunset@
            } else {
                sun_times.sunrise@
            },
            config.screen.fade_duration_minutes as int,
        ),
    ensures
        r@ == fading_levels(target_time@, sun_times.sunrise@, sun_times.sunset@, config.screen),
{
    let fade: u32 = config.screen.fade_duration_minutes;
    let boundary: TimeOfDay = if is_day {
        sun_times.sunset
    } else {
        sun_times.sunrise
    };
    proof {
        lemma_elapsed_in_window(target_time@, boundary@, fade as int);
    }
    let seconds_left: u32 = boundary.num_seconds_from_midnight()
        - target_time.num_seconds_from_midnight();
    let minutes_left: u32 = seconds_left / 60;
    let elapsed: u32 = fade - minutes_left;
    let screen = &config.screen;
    if is_day {
        ScreenState {
            temperature: interpolate_level(
                screen.day_temperature,
                screen.night_temperature,
                fade,
                elapsed,
            ),
            gamma: Gamma {
                hundredths: interpolate_level(
                    screen.day_gamma.hundredths,
                    screen.night_gamma.hundredths,
                    fade,
                    elapsed,
                ),
            },
        }
    } else {
        ScreenState {
            temperature: interpolate_level(
                screen.night_temperature,
                screen.day_temperature,
                fade,
                elapsed,
            ),
            gamma: Gamma {
                hundredths: interpolate_level(
                    screen.night_gamma.hundredths,
                    screen.day_gamma.hundredths,
                    fade,
                    elapsed,
                ),
            },
        }
    }
}

/// The state the display should have at `target_time` on a day with the
/// given sun times.
///
/// Day begins at sunrise and ends just before sunset. In the
/// `fade_duration_minutes` before sunset of a day, and before sunrise of a
/// night, the levels fade; at every other time they are the day levels or
/// the night levels as configured.
pub fn calculate_screen_state(target_time: TimeOfDay, sun_times: &SunTimes, config: &Config) -> (r:
    ScreenState)
    ensures
        r@ == screen_levels(target_time@, sun_times.sunrise@, sun_times.sunset@, config.screen),
        ({
            let now: int = target_time@;
            let sunrise: int = sun_times.sunrise@;
            let sunset: int = sun_times.sunset@;
            let screen: ScreenConfig = config.screen;
            let fade: int = screen.fade_duration_minutes as int;
            // By day, outside the fade before sunset, the day levels.
            &&& is_day(now, sunrise, sunset) && !in_fade_window(now, sunset, fade) ==> r@
                == day_levels(screen)
            // By night, outside the fade before sunrise, the night levels.
            &&& !is_day(now, sunrise, sunset) && !in_fade_window(now, sunrise, fade) ==> r@
                == night_levels(screen)
            // A fade before sunrise starts at the night levels exactly.
            &&& fade > 0 && now == sunrise - fade * 60 ==> r@ == night_levels(screen)
            // At sunrise the day levels exactly, unless the day is shorter
            // than the fade, so that the fade before sunset is under way and
            // has moved a level by then.
            &&& now == sunrise && sunrise < sunset && (sunrise + fade * 60 <= sunset || is_still(
                day_levels(screen),
                night_levels(screen),
                fade,
            )) ==> r@ == day_levels(screen)
            // Without a fade the levels are flat.
            &&& fade == 0 ==> r@ == flat_levels(now, sunrise, sunset, screen)
        }),
{
    let now: i64 = target_time.num_seconds_from_midnight() as i64;
    let sunrise: i64 = sun_times.sunrise.num_seconds_from_midnight() as i64;
    let sunset: i64 = sun_times.sunset.num_seconds_from_midnight() as i64;
    let fade_seconds: i64 = config.screen.fade_duration_minutes as i64 * 60;
    let is_day: bool = sunrise <= now && now < sunset;
    let fading_into_day: bool = !is_day && sunrise - fade_seconds <= now && now < sunrise;
    let fading_into_night: bool = is_day && sunset - fade_seconds <= now && now < sunset;
    proof {
        let fade: int = config.screen.fade_duration_minutes as int;
        if in_fade_window(target_time@, sun_times.sunrise@, fade) {
            lemma_elapsed_in_window(target_time@, sun_times.sunrise@, fade);
            lemma_interpolate_between(
                config.screen.night_temperature as int,
                config.screen.day_temperature as int,
                fade,
                elapsed_minutes(target_time@, sun_times.sunrise@, fade),
            );
            lemma_interpolate_between(
                config.screen.night_gamma.hundredths as int,
                config.screen.day_gamma.hundredths as int,
                fade,
                elapsed_minutes(target_time@, sun_times.sunrise@, fade),
            );
        }
        if in_fade_window(target_time@, sun_times.sunset@, fade) {
            lemma_elapsed_in_window(target_time@, sun_times.sunset@, fade);
            lemma_interpolate_between(
                config.screen.day_temperature as int,
                config.screen.night_temperature as int,
                fade,
                elapsed_minutes(target_time@, sun_times.sunset@, fade),
            );
            lemma_interpolate_between(
                config.screen.day_gamma.hundredths as int,
                config.screen.night_gamma.hundredths as int,
                fade,
                elapsed_minutes(target_time@, sun_times.sunset@, fade),
            );
        }
    }
    if fading_into_night || fading_into_day {
        return calculate_fade_state(is_day, target_time, sun_times, config);
    }
    if is_day {
        return ScreenState {
            temperature: config.screen.day_temperature,
            gamma: config.screen.day_gamma,
        };
    }
    ScreenState { temperature: config.screen.night_temperature, gamma: config.screen.night_gamma }
}

/// While a fade lasts, each level moves one way only, from the level it left
/// towards the level it heads for, and never beyond either.
///
/// `earlier` and `later` are two times in the same fade window, in this
/// order. Of the levels at these times, and of both the temperature and the
/// gamma: where the fade rises the level at `later` is no lower than at
/// `earlier`, where it falls it is no higher, and both lie between the level
/// the fade left and the level it heads for.
pub proof fn lemma_fade_is_monotonic(
    earlier: TimeOfDay,
    later: TimeOfDay,
    sun_times: SunTimes,
    screen: ScreenConfig,
)
    requires
        earlier.wf(),
        later.wf(),
        sun_times.sunrise.wf(),
        sun_times.sunset.wf(),
        earlier@ <= later@,
        (fading_into_day(
            earlier@,
            sun_times.sunrise@,
            sun_times.sunset@,
            screen.fade_duration_minutes as int,
        ) && fading_into_day(
            later@,
            sun_times.sunrise@,
            sun_times.sunset@,
            screen.fade_duration_minutes as int,
        )) || (fading_into_night(
            earlier@,
            sun_times.sunrise@,
            sun_times.sunset@,
            screen.fade_duration_minutes as int,
        ) && fading_into_night(
            later@,
            sun_times.sunrise@,
            sun_times.sunset@,
            screen.fade_duration_minutes as int,
        )),
    ensures
        ({
            let day: bool = is_day(earlier@, sun_times.sunrise@, sun_times.sunset@);
            let from: Levels = if day {
                day_levels(screen)
            } else {
                night_levels(screen)
            };
            let to: Levels = if day {
                night_levels(screen)
            } else {
                day_levels(screen)
            };
            let first: Levels = screen_levels(
                earlier@,
                sun_times.sunrise@,
                sun_times.sunset@,
                screen,
            );
            let second: Levels = screen_levels(
                later@,
                sun_times.sunrise@,
                sun_times.sunset@,
                screen,
            );
            &&& from.temperature <= to.temperature ==> from.temperature <= first.temperature
                <= second.temperature <= to.temperature
            &&& from.temperature >= to.temperature ==> from.temperature >= first.temperature
                >= second.temperature >= to.temperature
            &&& from.gamma <= to.gamma ==> from.gamma <= first.gamma <= second.gamma <= to.gamma
            &&& from.gamma >= to.gamma ==> from.gamma >= first.gamma >= second.gamma >= to.gamma
        }),
{
    let fade: int = screen.fade_duration_minutes as int;
    let day: bool = is_day(earlier@, sun_times.sunrise@, sun_times.sunset@);
    let boundary: int = if day {
        sun_times.sunset@
    } else {
        sun_times.sunrise@
    };
    let from: Levels = if day {
        day_levels(screen)
    } else {
        night_levels(screen)
    };
    let to: Levels = if day {
        night_levels(screen)
    } else {
        day_levels(screen)
    };
    let e1: int = elapsed_minutes(earlier@, boundary, fade);
    let e2: int = elapsed_minutes(later@, boundary, fade);
    lemma_elapsed_in_window(earlier@, boundary, fade);
    lemma_elapsed_in_window(later@, boundary, fade);
    lemma_interpolate_between(from.temperature, to.temperature, fade, e1);
    lemma_interpolate_between(from.temperature, to.temperature, fade, e2);
    lemma_interpolate_monotonic(from.temperature, to.temperature, fade, e1, e2);
    lemma_interpolate_between(from.gamma, to.gamma, fade, e1);
    lemma_interpolate_between(from.gamma, to.gamma, fade, e2);
    lemma_interpolate_monotonic(from.gamma, to.gamma, fade, e1, e2);
}

} // verus!
