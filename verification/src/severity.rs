//! The ordered set of record severities.

use vstd::prelude::*;

verus! {

/// Importance of a log record, listed from least to most severe.
#[derive(Clone, Copy, PartialEq, Eq, Structural, Debug)]
pub enum Severity {
    Trace,
    Debug,
    Info,
    Warn,
    Error,
}

impl Severity {
    /// Position of this severity in the ascending order.
    pub open spec fn rank(self) -> int {
        match self {
            Severity::Trace => 0,
            Severity::Debug => 1,
            Severity::Info => 2,
            Severity::Warn => 3,
            Severity::Error => 4,
        }
    }

    /// Executable form of `rank`.
    pub fn rank_u8(self) -> (r: u8)
        ensures
            r as int == self.rank(),
    {
        match self {
            Severity::Trace => 0,
            Severity::Debug => 1,
            Severity::Info => 2,
            Severity::Warn => 3,
            Severity::Error => 4,
        }
    }

    /// Whether this severity is at least as severe as `other`.
    pub fn at_least(self, other: Severity) -> (r: bool)
        ensures
            r == (self.rank() >= other.rank()),
    {
        self.rank_u8() >= other.rank_u8()
    }

    /// Severity standing for the numeric code the `log` facade gives its
    /// levels (1 the most severe, 5 the least); any other code counts as the
    /// least severe.
    pub open spec fn of_code(code: int) -> Severity {
        if code == 1 {
            Severity::Error
        } else if code == 2 {
            Severity::Warn
        } else if code == 3 {
            Severity::Info
        } else if code == 4 {
            Severity::Debug
        } else {
            Severity::Trace
        }
    }

    /// Executable form of `of_code`.
    pub fn from_code(code: usize) -> (r: Severity)
        ensures
            r == Severity::of_code(code as int),
    {
        if code == 1 {
            Severity::Error
        } else if code == 2 {
            Severity::Warn
        } else if code == 3 {
            Severity::Info
        } else if code == 4 {
            Severity::Debug
        } else {
            Severity::Trace
        }
    }
}

/// A per-component emission threshold: either no record at all, or every
/// record whose severity reaches the named one.
#[derive(Clone, Copy, PartialEq, Eq, Structural, Debug)]
pub enum Filter {
    Off,
    Trace,
    Debug,
    Info,
    Warn,
    Error,
}

impl Filter {
    /// The least severity this filter lets through, where there is one.
    pub open spec fn floor(self) -> Option<Severity> {
        match self {
            Filter::Off => None,
            Filter::Trace => Some(Severity::Trace),
            Filter::Debug => Some(Severity::Debug),
            Filter::Info => Some(Severity::Info),
            Filter::Warn => Some(Severity::Warn),
            Filter::Error => Some(Severity::Error),
        }
    }

    /// Whether a record of severity `s` passes this filter.
    pub open spec fn admits(self, s: Severity) -> bool {
        match self.floor() {
            Some(t) => s.rank() >= t.rank(),
            None => false,
        }
    }

    /// Executable form of `admits`.
    pub fn admits_exec(self, s: Severity) -> (r: bool)
        ensures
            r == self.admits(s),
    {
        match self {
            Filter::Off => false,
            Filter::Trace => s.at_least(Severity::Trace),
            Filter::Debug => s.at_least(Severity::Debug),
            Filter::Info => s.at_least(Severity::Info),
            Filter::Warn => s.at_least(Severity::Warn),
            Filter::Error => s.at_least(Severity::Error),
        }
    }

    /// The filter that admits exactly the severities at or above `t`.
    pub open spec fn at_threshold(t: Severity) -> Filter {
        match t {
            Severity::Trace => Filter::Trace,
            Severity::Debug => Filter::Debug,
            Severity::Info => Filter::Info,
            Severity::Warn => Filter::Warn,
            Severity::Error => Filter::Error,
        }
    }
}

} // verus!
