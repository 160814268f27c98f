//! Severities of records and the thresholds they are filtered by.
use vstd::prelude::*;

verus! {

/// Severity of a record, from the most serious to the most verbose.
#[derive(Clone, Copy, PartialEq, Eq, Structural, Debug, Hash)]
pub enum Level {
    Error,
    Warn,
    Info,
    Debug,
    Trace,
}

/// Threshold of a filter: the most verbose severity that it lets through.
/// `Off` lets nothing through.
#[derive(Clone, Copy, PartialEq, Eq, Structural, Debug, Hash)]
pub enum LevelFilter {
    Off,
    Error,
    Warn,
    Info,
    Debug,
    Trace,
}

impl Level {
    /// Verbosity of the severity: 1 for `Error` up to 5 for `Trace`.
    pub open spec fn rank(self) -> nat {
        match self {
            Level::Error => 1,
            Level::Warn => 2,
            Level::Info => 3,
            Level::Debug => 4,
            Level::Trace => 5,
        }
    }

    /// The verbosity as a machine integer.
    pub fn ordinal(self) -> (n: u8)
        ensures
            n == self.rank(),
    {
        match self {
            Level::Error => 1,
            Level::Warn => 2,
            Level::Info => 3,
            Level::Debug => 4,
            Level::Trace => 5,
        }
    }
}

impl LevelFilter {
    /// Verbosity that the threshold admits: 0 for `Off`, then as for the
    /// severity of the same name.
    pub open spec fn rank(self) -> nat {
        match self {
            LevelFilter::Off => 0,
            LevelFilter::Error => 1,
            LevelFilter::Warn => 2,
            LevelFilter::Info => 3,
            LevelFilter::Debug => 4,
            LevelFilter::Trace => 5,
        }
    }

    /// The admitted verbosity as a machine integer.
    pub fn ordinal(self) -> (n: u8)
        ensures
            n == self.rank(),
    {
        match self {
            LevelFilter::Off => 0,
            LevelFilter::Error => 1,
            LevelFilter::Warn => 2,
            LevelFilter::Info => 3,
            LevelFilter::Debug => 4,
            LevelFilter::Trace => 5,
        }
    }

    /// A record of severity `level` passes the threshold when it is no more
    /// verbose than the threshold, that is, at least as severe.
    pub open spec fn admits(self, level: Level) -> bool {
        level.rank() <= self.rank()
    }

    /// Decides whether a record of severity `level` passes the threshold.
    pub fn allows(self, level: Level) -> (r: bool)
        ensures
            r == self.admits(level),
    {
        level.ordinal() <= self.ordinal()
    }
}

/// What an optional threshold lets through: everything where there is none.
pub open spec fn permits(threshold: Option<LevelFilter>, level: Level) -> bool {
    match threshold {
        Some(filter) => filter.admits(level),
        None => true,
    }
}

/// `Off` rejects every severity, `Error` included.
pub proof fn lemma_off_rejects_everything(level: Level)
    ensures
        !LevelFilter::Off.admits(level),
        !permits(Some(LevelFilter::Off), level),
{
}

/// A threshold lets through the severity of its own name, `Trace` lets
/// everything through, and a stricter threshold never lets through more than
/// a laxer one.
pub proof fn lemma_threshold_is_inclusive_and_monotone(
    strict: LevelFilter,
    lax: LevelFilter,
    level: Level,
)
    requires
        strict.rank() <= lax.rank(),
    ensures
        strict.admits(level) ==> lax.admits(level),
        level.rank() == lax.rank() ==> lax.admits(level),
        LevelFilter::Trace.admits(level),
{
}

} // verus!
