//! Verbosity: the levels, the configured threshold, and the rule that
//! decides whether a message is shown. The threshold is a value that the
//! caller holds and hands in; it starts out silent.

use vstd::prelude::*;
use vstd::string::*;

verus! {

/// Severity of a diagnostic. `Silent` lies above every severity that a
/// message can carry and so suppresses them all.
#[derive(Debug, Clone, Copy, PartialEq, Eq, PartialOrd, Ord, Structural)]
pub enum LogLevel {
    Debug,
    Info,
    Warn,
    Error,
    Silent,
}

impl LogLevel {
    /// Position of the level in the order Debug < Info < Warn < Error < Silent.
    pub open spec fn rank(self) -> nat {
        match self {
            LogLevel::Debug => 0,
            LogLevel::Info => 1,
            LogLevel::Warn => 2,
            LogLevel::Error => 3,
            LogLevel::Silent => 4,
        }
    }

    /// Computes [`LogLevel::rank`].
    pub fn rank_value(self) -> (r: u8)
        ensures
            r as nat == self.rank(),
    {
        match self {
            LogLevel::Debug => 0,
            LogLevel::Info => 1,
            LogLevel::Warn => 2,
            LogLevel::Error => 3,
            LogLevel::Silent => 4,
        }
    }
}

/// The configured threshold: messages below it are not shown.
#[derive(Debug, Clone, Copy, PartialEq, Eq, Structural)]
pub struct Verbosity {
    pub level: LogLevel,
}

impl Verbosity {
    /// The threshold at which nothing is shown.
    pub fn silent() -> (r: Verbosity)
        ensures
            r.level == LogLevel::Silent,
    {
        Verbosity { level: LogLevel::Silent }
    }
}

impl Default for Verbosity {
    fn default() -> (r: Verbosity)
        ensures
            r.level == LogLevel::Silent,
    {
        Verbosity::silent()
    }
}

/// Sets the threshold.
pub fn set_level(config: &mut Verbosity, level: LogLevel)
    ensures
        final(config).level == level,
{
    config.level = level;
}

/// Whether a message of severity `level` is shown: it is when its severity
/// is at least the threshold.
pub fn should_log(config: &Verbosity, level: LogLevel) -> (r: bool)
    ensures
        r == (level.rank() >= config.level.rank()),
{
    level.rank_value() >= config.level.rank_value()
}

/// The kinds of diagnostic. A success notice has the severity of `Info`.
#[derive(Debug, Clone, Copy, PartialEq, Eq, Structural)]
pub enum Notice {
    Debug,
    Info,
    Warn,
    Error,
    Success,
}

impl Notice {
    /// The severity of a diagnostic of this kind.
    pub open spec fn severity(self) -> LogLevel {
        match self {
            Notice::Debug => LogLevel::Debug,
            Notice::Info => LogLevel::Info,
            Notice::Warn => LogLevel::Warn,
            Notice::Error => LogLevel::Error,
            Notice::Success => LogLevel::Info,
        }
    }

    /// Whether the diagnostic goes to the error stream: warnings and errors
    /// do, the others go to the output stream.
    pub open spec fn on_error_stream(self) -> bool {
        self == Notice::Warn || self == Notice::Error
    }

    /// The tag that precedes the message.
    pub open spec fn tag(self) -> Seq<char> {
        match self {
            Notice::Debug => "🔍 [DEBUG] "@,
            Notice::Info => "ℹ️  [INFO]  "@,
            Notice::Warn => "⚠️  [WARN]  "@,
            Notice::Error => "❌ [ERROR] "@,
            Notice::Success => "✅ [OK]    "@,
        }
    }

    /// Computes [`Notice::severity`].
    pub fn level(self) -> (r: LogLevel)
        ensures
            r == self.severity(),
    {
        match self {
            Notice::Debug => LogLevel::Debug,
            Notice::Info => LogLevel::Info,
            Notice::Warn => LogLevel::Warn,
            Notice::Error => LogLevel::Error,
            Notice::Success => LogLevel::Info,
        }
    }

    /// Computes [`Notice::on_error_stream`].
    pub fn to_error_stream(self) -> (r: bool)
        ensures
            r == self.on_error_stream(),
    {
        match self {
            Notice::Warn => true,
            Notice::Error => true,
            _ => false,
        }
    }
}

/// The line to show for a diagnostic, or none where the threshold
/// suppresses it: the tag of its kind, then the message.
pub fn notice_line(config: &Verbosity, kind: Notice, message: &str) -> (r: Option<String>)
    ensures
        match r {
            Some(line) => kind.severity().rank() >= config.level.rank() && line@ == kind.tag()
                + message@,
            None => kind.severity().rank() < config.level.rank(),
        },
{
    if !should_log(config, kind.level()) {
        return None;
    }
    let mut line = String::from_str(
        match kind {
            Notice::Debug => "🔍 [DEBUG] ",
            Notice::Info => "ℹ️  [INFO]  ",
            Notice::Warn => "⚠️  [WARN]  ",
            Notice::Error => "❌ [ERROR] ",
            Notice::Success => "✅ [OK]    ",
        },
    );
    line.append(message);
    Some(line)
}

/// With the threshold at `Silent`, nothing is shown.
pub proof fn lemma_silent_shows_nothing(kind: Notice)
    ensures
        kind.severity().rank() < LogLevel::Silent.rank(),
{
}

} // verus!
