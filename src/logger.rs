use vstd::prelude::*;
use log::LogLevel;

verus! {

#[verifier::external_type_specification]
pub struct ExLogLevel(log::LogLevel);

/// Severity rank of a level: 1 for `Error` up to 5 for `Trace`.
pub open spec fn rank(level: LogLevel) -> nat {
    match level {
        LogLevel::Error => 1,
        LogLevel::Warn => 2,
        LogLevel::Info => 3,
        LogLevel::Debug => 4,
        LogLevel::Trace => 5,
    }
}

/// The upper-case name under which the log crate prints a level.
pub open spec fn level_name_spec(level: LogLevel) -> Seq<char> {
    match level {
        LogLevel::Error => "ERROR"@,
        LogLevel::Warn => "WARN"@,
        LogLevel::Info => "INFO"@,
        LogLevel::Debug => "DEBUG"@,
        LogLevel::Trace => "TRACE"@,
    }
}

/// Relies on the `Display` impl of `log::LogLevel`, which pads the level's
/// entry of `LOG_LEVEL_NAMES`; under a plain `{}` the padding adds nothing.
#[verifier::external_body]
fn level_to_string(level: LogLevel) -> (r: String)
    ensures
        r@ == level_name_spec(level),
{
    level.to_string()
}

/// The name of a level as it stands in a rendered line.
pub fn level_name(level: LogLevel) -> (r: String)
    ensures
        r@ == level_name_spec(level),
{
    level_to_string(level)
}

/// The process-wide line printer: it lets through lines of level `Info` and
/// more severe ones.
pub struct Logger;

/// Returned when the process-wide logger was already set up.
#[derive(Debug, PartialEq, Eq, Structural)]
pub struct SetLoggerError;

impl Logger {
    pub open spec fn enabled_spec(level: LogLevel) -> bool {
        rank(level) <= rank(LogLevel::Info)
    }

    pub open spec fn line_spec(level: LogLevel, message: Seq<char>) -> Seq<char> {
        level_name_spec(level) + " - "@ + message
    }

    /// Whether a line of this level is printed.
    pub fn enabled(&self, level: LogLevel) -> (r: bool)
        ensures
            r == Self::enabled_spec(level),
    {
        match level {
            LogLevel::Error | LogLevel::Warn | LogLevel::Info => true,
            LogLevel::Debug | LogLevel::Trace => false,
        }
    }

    /// The text printed for a message of the given level, or `None` where
    /// the level is filtered out.
    pub fn render(&self, level: LogLevel, message: &str) -> (r: Option<String>)
        ensures
            Self::enabled_spec(level) ==> r is Some && r->0@ == Self::line_spec(level, message@),
            !Self::enabled_spec(level) ==> r is None,
    {
        if self.enabled(level) {
            let name = level_name(level);
            let line = name.concat(" - ");
            let line = line.concat(message);
            Some(line)
        } else {
            None
        }
    }
}

/// Sets up the process-wide logger held in `slot`, once: a second call
/// leaves the installed logger in place and reports the error.
pub fn init(slot: &mut Option<Logger>) -> (r: Result<(), SetLoggerError>)
    ensures
        (*old(slot)) is None ==> r is Ok && (*final(slot)) is Some,
        (*old(slot)) is Some ==> r is Err && (*final(slot)) is Some,
{
    if slot.is_some() {
        Err(SetLoggerError)
    } else {
        *slot = Some(Logger);
        Ok(())
    }
}

} // verus!
