//! Severities, thresholds, and the enabled-check.

use vstd::prelude::*;

verus! {

/// Severity of a log record, ordered by urgency: `Error` is the most urgent,
/// `Trace` the least.
#[derive(Clone, Copy, Debug, PartialEq, Eq, Structural)]
pub enum Level {
    Error,
    Warn,
    Info,
    Debug,
    Trace,
}

/// A dispatch threshold: `Off` admits nothing; any other threshold admits the
/// severities at least as urgent as itself.
#[derive(Clone, Copy, Debug, PartialEq, Eq, Structural)]
pub enum LevelFilter {
    Off,
    Error,
    Warn,
    Info,
    Debug,
    Trace,
}

/// Rank of a severity in the facade's declaration order: `Error` ranks 1 and
/// `Trace` ranks 5, so a smaller rank means a more urgent severity.
pub open spec fn level_rank(l: Level) -> int {
    match l {
        Level::Error => 1,
        Level::Warn => 2,
        Level::Info => 3,
        Level::Debug => 4,
        Level::Trace => 5,
    }
}

/// Rank of a threshold: `Off` ranks 0, below every severity, and the rest
/// rank as the severity of the same name.
pub open spec fn filter_rank(f: LevelFilter) -> int {
    match f {
        LevelFilter::Off => 0,
        LevelFilter::Error => 1,
        LevelFilter::Warn => 2,
        LevelFilter::Info => 3,
        LevelFilter::Debug => 4,
        LevelFilter::Trace => 5,
    }
}

/// Urgency of a severity: `Error` is the most urgent (4), `Trace` the least (0).
pub open spec fn urgency(l: Level) -> int {
    5 - level_rank(l)
}

/// The threshold that admits exactly `l` and the severities more urgent than `l`.
pub open spec fn filter_for(l: Level) -> LevelFilter {
    match l {
        Level::Error => LevelFilter::Error,
        Level::Warn => LevelFilter::Warn,
        Level::Info => LevelFilter::Info,
        Level::Debug => LevelFilter::Debug,
        Level::Trace => LevelFilter::Trace,
    }
}

/// The upper-case name under which the facade displays a severity.
pub open spec fn label_seq(l: Level) -> Seq<char> {
    match l {
        Level::Error => "ERROR"@,
        Level::Warn => "WARN"@,
        Level::Info => "INFO"@,
        Level::Debug => "DEBUG"@,
        Level::Trace => "TRACE"@,
    }
}

impl Level {
    /// The threshold that admits this severity and the more urgent ones.
    pub fn to_level_filter(self) -> (f: LevelFilter)
        ensures
            f == filter_for(self),
    {
        match self {
            Level::Error => LevelFilter::Error,
            Level::Warn => LevelFilter::Warn,
            Level::Info => LevelFilter::Info,
            Level::Debug => LevelFilter::Debug,
            Level::Trace => LevelFilter::Trace,
        }
    }

    /// The severity's rank, `Error` first.
    pub fn rank(self) -> (n: u8)
        ensures
            n as int == level_rank(self),
    {
        match self {
            Level::Error => 1,
            Level::Warn => 2,
            Level::Info => 3,
            Level::Debug => 4,
            Level::Trace => 5,
        }
    }

    /// The upper-case name of this severity.
    pub fn label(self) -> (s: &'static str)
        ensures
            s@ == label_seq(self),
    {
        match self {
            Level::Error => "ERROR",
            Level::Warn => "WARN",
            Level::Info => "INFO",
            Level::Debug => "DEBUG",
            Level::Trace => "TRACE",
        }
    }
}

impl LevelFilter {
    /// The threshold's rank, `Off` first.
    pub fn rank(self) -> (n: u8)
        ensures
            n as int == filter_rank(self),
    {
        match self {
            LevelFilter::Off => 0,
            LevelFilter::Error => 1,
            LevelFilter::Warn => 2,
            LevelFilter::Info => 3,
            LevelFilter::Debug => 4,
            LevelFilter::Trace => 5,
        }
    }
}

/// True iff a record of severity `level` passes the threshold `threshold`:
/// its rank is at or below the threshold's.
pub fn enabled(level: Level, threshold: LevelFilter) -> (r: bool)
    ensures
        r == (level_rank(level) <= filter_rank(threshold)),
{
    level.rank() <= threshold.rank()
}

/// A severity passes the threshold set from another severity exactly when it
/// is at least as urgent as that severity.
pub proof fn lemma_enabled_iff_urgent(level: Level, threshold: Level)
    ensures
        (level_rank(level) <= filter_rank(filter_for(threshold))) <==> (urgency(level)
            >= urgency(threshold)),
{
}

} // verus!
