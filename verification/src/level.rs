use crate::error::LogError;
use std::cmp::Ordering;
use vstd::prelude::*;

verus! {

/// How much a message matters. The severities rise from `Trace` to `Error`.
#[derive(Clone, Copy, Debug, PartialEq, Eq, Hash, Structural)]
pub enum LogLevel {
    Trace,
    Debug,
    Info,
    Warning,
    Error,
}

impl LogLevel {
    /// The place of a severity in the order, from 1 for `Trace` to 5 for `Error`.
    /// Every comparison of severities goes by this number.
    pub open spec fn rank(self) -> nat {
        match self {
            LogLevel::Trace => 1,
            LogLevel::Debug => 2,
            LogLevel::Info => 3,
            LogLevel::Warning => 4,
            LogLevel::Error => 5,
        }
    }

    /// The one-letter code of a severity.
    pub open spec fn code(self) -> char {
        match self {
            LogLevel::Trace => 't',
            LogLevel::Debug => 'd',
            LogLevel::Info => 'i',
            LogLevel::Warning => 'w',
            LogLevel::Error => 'e',
        }
    }

    /// The severity that a letter stands for, if it stands for one.
    pub open spec fn decode(c: char) -> Option<LogLevel> {
        if c == 't' {
            Some(LogLevel::Trace)
        } else if c == 'd' {
            Some(LogLevel::Debug)
        } else if c == 'i' {
            Some(LogLevel::Info)
        } else if c == 'w' {
            Some(LogLevel::Warning)
        } else if c == 'e' {
            Some(LogLevel::Error)
        } else {
            None
        }
    }

    /// Whether a channel whose threshold is `self` lets a message of severity
    /// `level` through: the threshold is the least severity that passes.
    pub open spec fn admits(self, level: LogLevel) -> bool {
        self.rank() <= level.rank()
    }

    /// The one-letter code of `level`.
    pub fn to_char(level: &LogLevel) -> (c: char)
        ensures
            c == level.code(),
    {
        match level {
            LogLevel::Trace => 't',
            LogLevel::Debug => 'd',
            LogLevel::Info => 'i',
            LogLevel::Warning => 'w',
            LogLevel::Error => 'e',
        }
    }

    /// The one-letter code of this severity.
    pub fn as_char(&self) -> (c: char)
        ensures
            c == self.code(),
    {
        LogLevel::to_char(self)
    }

    /// Reads a severity from its one-letter code. Any other character is
    /// refused and handed back in the error.
    pub fn from_code(letter: char) -> (r: Result<LogLevel, LogError>)
        ensures
            match LogLevel::decode(letter) {
                Some(level) => r == Ok::<LogLevel, LogError>(level),
                None => r == Err::<LogLevel, LogError>(LogError::InvalidSeverityCode(letter)),
            },
    {
        match letter {
            't' => Ok(LogLevel::Trace),
            'd' => Ok(LogLevel::Debug),
            'i' => Ok(LogLevel::Info),
            'w' => Ok(LogLevel::Warning),
            'e' => Ok(LogLevel::Error),
            _ => Err(LogError::InvalidSeverityCode(letter)),
        }
    }

    /// The place of this severity in the order, as a number.
    pub fn ordinal(&self) -> (r: u8)
        ensures
            r == self.rank(),
    {
        match self {
            LogLevel::Trace => 1,
            LogLevel::Debug => 2,
            LogLevel::Info => 3,
            LogLevel::Warning => 4,
            LogLevel::Error => 5,
        }
    }

    /// Compares two severities by their place in the order.
    pub fn compare(&self, other: &LogLevel) -> (o: Ordering)
        ensures
            (o == Ordering::Less) == (self.rank() < other.rank()),
            (o == Ordering::Equal) == (*self == *other),
            (o == Ordering::Greater) == (self.rank() > other.rank()),
    {
        let a: u8 = self.ordinal();
        let b: u8 = other.ordinal();
        if a < b {
            Ordering::Less
        } else if a == b {
            Ordering::Equal
        } else {
            Ordering::Greater
        }
    }

    /// Whether a channel whose threshold is `self` lets a message of severity
    /// `level` through.
    pub fn lets_through(&self, level: &LogLevel) -> (b: bool)
        ensures
            b == self.admits(*level),
    {
        self.ordinal() <= level.ordinal()
    }
}

/// Two severities at the same place in the order are the same severity.
pub proof fn lemma_rank_injective(a: LogLevel, b: LogLevel)
    ensures
        1 <= a.rank() <= 5,
        a.rank() == b.rank() <==> a == b,
{
}

/// The order of severities is total: a threshold lets every severity through
/// or is itself let through by it, and passing is transitive.
pub proof fn lemma_order_is_total(a: LogLevel, b: LogLevel, c: LogLevel)
    ensures
        a.admits(a),
        a.admits(b) || b.admits(a),
        a.admits(b) && b.admits(a) ==> a == b,
        a.admits(b) && b.admits(c) ==> a.admits(c),
{
}

/// A threshold lets through itself and every severity above it, and nothing
/// below it.
pub proof fn lemma_threshold_is_inclusive(threshold: LogLevel, level: LogLevel)
    ensures
        threshold.admits(threshold),
        threshold.rank() <= level.rank() ==> threshold.admits(level),
        level.rank() < threshold.rank() ==> !threshold.admits(level),
{
}

/// Writing a severity as its code and reading the code back gives the
/// severity again.
pub proof fn lemma_code_round_trip(level: LogLevel)
    ensures
        LogLevel::decode(level.code()) == Some(level),
{
}

/// Only the five letters `t`, `d`, `i`, `w`, `e` stand for a severity, and
/// each stands for the severity whose code it is.
pub proof fn lemma_decode_inverts_code(c: char)
    ensures
        LogLevel::decode(c).is_some() <==> (c == 't' || c == 'd' || c == 'i' || c == 'w' || c == 'e'),
        forall|level: LogLevel| LogLevel::decode(c) == Some(level) <==> level.code() == c,
{
    assert forall|level: LogLevel| LogLevel::decode(c) == Some(level) <==> level.code() == c by {
        lemma_code_round_trip(level);
    }
}

} // verus!
