//! A sitting reminder: a countdown that restarts whenever the desktop wakes
//! from its screen saver, with a snooze for when the countdown has run out.
//!
//! [`dbus`] reads the lines of a bus monitor and sends the signals it finds
//! on a channel; [`reminder`] takes them from the channel, one for each tick,
//! and works out how much time is left. [`time`], [`text`] and [`format`]
//! hold the moments, the words and the wording that the two are built on.

pub mod dbus;
pub mod format;
pub mod reminder;
pub mod text;
pub mod time;
