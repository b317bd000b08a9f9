//! Which log records are kept, and how they look on the screen.
use vstd::prelude::*;

use crate::vga_buffer::Colour;

verus! {

/// Log levels, from the most to the least severe.
#[derive(Clone, Copy, Debug, PartialEq, Eq, Structural)]
pub enum Level {
    Error,
    Warn,
    Info,
    Debug,
    Trace,
}

/// The number of each level: 1 for errors up to 5 for traces.
pub open spec fn level_number(level: Level) -> usize {
    match level {
        Level::Error => 1,
        Level::Warn => 2,
        Level::Info => 3,
        Level::Debug => 4,
        Level::Trace => 5,
    }
}

/// The level kept from boot on: everything up to debug records.
pub const STARTUP_LEVEL: usize = 4;

impl Level {
    /// The number of the level.
    pub fn number(self) -> (r: usize)
        ensures
            r == level_number(self),
    {
        match self {
            Level::Error => 1,
            Level::Warn => 2,
            Level::Info => 3,
            Level::Debug => 4,
            Level::Trace => 5,
        }
    }
}

/// The colour in which a record's level is shown on the screen.
pub fn level_to_colour(level: Level) -> (r: Colour)
    ensures
        r == (match level {
            Level::Error => Colour::Red,
            Level::Warn => Colour::LightRed,
            Level::Info => Colour::LightCyan,
            Level::Debug => Colour::Cyan,
            Level::Trace => Colour::LightBlue,
        }),
{
    match level {
        Level::Error => Colour::Red,
        Level::Warn => Colour::LightRed,
        Level::Info => Colour::LightCyan,
        Level::Debug => Colour::Cyan,
        Level::Trace => Colour::LightBlue,
    }
}

/// The logger: every record goes to the serial port, and those of level info or more severe
/// to the screen as well.
pub struct Logger;

impl Logger {
    /// Whether a record of `level` is kept when the logger keeps levels up to `log_level`.
    pub fn enabled(&self, level: Level, log_level: usize) -> (r: bool)
        ensures
            r == (level_number(level) <= log_level),
    {
        level.number() <= log_level
    }

    /// Whether a kept record of `level` is shown on the screen too.
    pub fn shown_on_screen(&self, level: Level) -> (r: bool)
        ensures
            r == (level_number(level) <= level_number(Level::Info)),
    {
        level.number() <= 3
    }
}

} // verus!
