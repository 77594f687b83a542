use vstd::prelude::*;

verus! {

/// Severity of a log record, from most to least important.
#[derive(Clone, Copy, Debug, PartialEq, Eq, Structural)]
pub enum Level {
    Error,
    Warn,
    Info,
    Debug,
    Trace,
}

/// The most verbose severity that a sink lets through; `Off` lets none through.
#[derive(Clone, Copy, Debug, PartialEq, Eq, Structural)]
pub enum LevelFilter {
    Off,
    Error,
    Warn,
    Info,
    Debug,
    Trace,
}

/// Which records are also copied to one console stream.
#[derive(Clone, Copy, Debug, PartialEq, Eq, Structural)]
pub enum Duplicate {
    Off,
    Error,
    Warn,
    Info,
    Debug,
    Trace,
    All,
}

impl Level {
    /// Position in the importance order: 1 for `Error` up to 5 for `Trace`.
    pub open spec fn rank(self) -> nat {
        match self {
            Level::Error => 1,
            Level::Warn => 2,
            Level::Info => 3,
            Level::Debug => 4,
            Level::Trace => 5,
        }
    }

    /// `self` is at least as severe as `other`.
    pub open spec fn at_least(self, other: Level) -> bool {
        self.rank() <= other.rank()
    }
}

impl LevelFilter {
    /// 0 for `Off`, then one step per severity it admits.
    pub open spec fn rank(self) -> nat {
        match self {
            LevelFilter::Off => 0,
            LevelFilter::Error => 1,
            LevelFilter::Warn => 2,
            LevelFilter::Info => 3,
            LevelFilter::Debug => 4,
            LevelFilter::Trace => 5,
        }
    }

    /// The less restrictive of two filters.
    pub open spec fn spec_max(self, other: LevelFilter) -> LevelFilter {
        if self.rank() >= other.rank() {
            self
        } else {
            other
        }
    }

    /// Returns the less restrictive of `self` and `other`.
    pub fn max(self, other: LevelFilter) -> (r: LevelFilter)
        ensures
            r == self.spec_max(other),
            r.rank() >= self.rank(),
            r.rank() >= other.rank(),
            r == self || r == other,
    {
        if self.rank_exec() >= other.rank_exec() {
            self
        } else {
            other
        }
    }

    fn rank_exec(self) -> (r: u8)
        ensures
            r as nat == self.rank(),
    {
        match self {
            LevelFilter::Off => 0,
            LevelFilter::Error => 1,
            LevelFilter::Warn => 2,
            LevelFilter::Info => 3,
            LevelFilter::Debug => 4,
            LevelFilter::Trace => 5,
        }
    }
}

impl Duplicate {
    /// Whether a record of severity `level` is copied under this policy.
    pub open spec fn admits(self, level: Level) -> bool {
        match self {
            Duplicate::Off => false,
            Duplicate::Error => level.at_least(Level::Error),
            Duplicate::Warn => level.at_least(Level::Warn),
            Duplicate::Info => level.at_least(Level::Info),
            Duplicate::Debug => level.at_least(Level::Debug),
            Duplicate::Trace | Duplicate::All => true,
        }
    }

    /// The severity gate: decides whether a record of severity `level` goes
    /// to the console stream that this policy governs.
    pub fn should_emit(&self, level: Level) -> (r: bool)
        ensures
            r == self.admits(level),
    {
        match self {
            Duplicate::Off => false,
            Duplicate::Error => level == Level::Error,
            Duplicate::Warn => level.rank_exec() <= 2,
            Duplicate::Info => level.rank_exec() <= 3,
            Duplicate::Debug => level.rank_exec() <= 4,
            Duplicate::Trace | Duplicate::All => true,
        }
    }
}

impl Level {
    fn rank_exec(self) -> (r: u8)
        ensures
            r as nat == self.rank(),
    {
        match self {
            Level::Error => 1,
            Level::Warn => 2,
            Level::Info => 3,
            Level::Debug => 4,
            Level::Trace => 5,
        }
    }
}

} // verus!
