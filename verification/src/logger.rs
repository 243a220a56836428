//! Log severities and their wire encoding.
//!
//! Formatting and output are the structured logger's own concern, outside
//! this crate; what the core fixes is the severity scale and the numeric
//! code each severity is reported as across the engine boundary.

use vstd::prelude::*;

verus! {

/// Log severity, most severe first.
#[derive(Clone, Copy, PartialEq, Eq, Structural, Debug)]
pub enum LogLevel {
    Error,
    Warn,
    Info,
    Debug,
    Trace,
}

impl LogLevel {
    /// The numeric code a severity crosses the engine boundary as: the
    /// severities in declaration order, counted from zero.
    pub open spec fn code(self) -> u32 {
        match self {
            LogLevel::Error => 0,
            LogLevel::Warn => 1,
            LogLevel::Info => 2,
            LogLevel::Debug => 3,
            LogLevel::Trace => 4,
        }
    }

    /// The severity's wire encoding.
    pub fn as_u32(&self) -> (r: u32)
        ensures
            r == self.code(),
    {
        match self {
            LogLevel::Error => 0,
            LogLevel::Warn => 1,
            LogLevel::Info => 2,
            LogLevel::Debug => 3,
            LogLevel::Trace => 4,
        }
    }
}

} // verus!
