//! Sets a display's colour temperature and gamma by the time of day.
//!
//! By day the display has one pair of levels and by night another, and
//! around sunrise and sunset it fades from one to the other. This crate holds
//! the decisions of a program that is started on a schedule and sets the
//! display once per run:
//!
//! - [`screen`] says which levels the display should have at a time of day,
//! - [`sun_times`] reads the answer of the service that knows sunrise and
//!   sunset,
//! - [`cache`] keeps the sun times of a day, so that the service is asked
//!   once a day at most,
//! - [`config`] reads and writes the configuration,
//! - [`application`] puts a run together, step by step,
//! - [`time`], [`gamma`] and [`text`] hold the values and notations that the
//!   others share.
//!
//! Nothing here reads a file, a clock or a socket. Whoever uses the crate
//! does that and hands over what was read.

pub mod application;
pub mod cache;
pub mod config;
pub mod gamma;
pub mod screen;
pub mod sun_times;
pub mod text;
pub mod time;
