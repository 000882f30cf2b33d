use vstd::prelude::*;

verus! {

/// How much the log shows, from nothing to every trace.
#[derive(Debug, Clone, Copy, PartialEq, Eq, Structural)]
pub enum LogLevel {
    Off,
    Error,
    Warn,
    Info,
    Debug,
    Trace,
}

/// The level that a verbosity from zero to five selects.
pub open spec fn level_of(verbosity: i32) -> Option<LogLevel> {
    if verbosity == 0 {
        Some(LogLevel::Off)
    } else if verbosity == 1 {
        Some(LogLevel::Error)
    } else if verbosity == 2 {
        Some(LogLevel::Warn)
    } else if verbosity == 3 {
        Some(LogLevel::Info)
    } else if verbosity == 4 {
        Some(LogLevel::Debug)
    } else if verbosity == 5 {
        Some(LogLevel::Trace)
    } else {
        None
    }
}

/// The log level for a verbosity, or `None` for a verbosity outside zero to
/// five.
pub fn associated_level(verbosity: i32) -> (r: Option<LogLevel>)
    ensures
        r == level_of(verbosity),
        r is Some <==> 0 <= verbosity <= 5,
{
    match verbosity {
        0 => Some(LogLevel::Off),
        1 => Some(LogLevel::Error),
        2 => Some(LogLevel::Warn),
        3 => Some(LogLevel::Info),
        4 => Some(LogLevel::Debug),
        5 => Some(LogLevel::Trace),
        _ => None,
    }
}

/// User messages (information, warnings, errors) go to the main sink;
/// debugging messages and traces go to the debug sink.
pub fn is_user_message(level: LogLevel) -> (r: bool)
    ensures
        r <==> (level == LogLevel::Info || level == LogLevel::Warn || level == LogLevel::Error),
{
    match level {
        LogLevel::Info | LogLevel::Warn | LogLevel::Error => true,
        _ => false,
    }
}

/// The debug sink is added from verbosity four on.
pub fn wants_debug_sink(verbosity: i32) -> (r: bool)
    ensures
        r <==> verbosity >= 4,
{
    verbosity >= 4
}

} // verus!
