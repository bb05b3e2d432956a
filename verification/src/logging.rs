//! The one-time set-up of logging: which level to install, and when.

use vstd::prelude::*;
use std::str::FromStr;

verus! {

/// The maximum level of log records that are emitted.
#[derive(Clone, Copy, Debug, PartialEq, Eq, Structural)]
pub enum LogLevel {
    Off,
    Error,
    Warn,
    Info,
    Debug,
    Trace,
}

/// `c` in lower case if it is an ASCII capital letter.
pub open spec fn ascii_lower(c: char) -> char {
    if 'A' <= c && c <= 'Z' {
        ((c as u32) + 32) as char
    } else {
        c
    }
}

/// `a` and `b` are equal up to the case of ASCII letters.
pub open spec fn eq_ignore_ascii_case(a: Seq<char>, b: Seq<char>) -> bool {
    a.len() == b.len() && forall|i: int| 0 <= i < a.len() ==> ascii_lower(#[trigger] a[i]) == ascii_lower(b[i])
}

/// The level that `name` names, in any case of its letters.
pub open spec fn level_named(name: Seq<char>) -> Option<LogLevel> {
    if eq_ignore_ascii_case(name, seq!['O', 'F', 'F']) {
        Some(LogLevel::Off)
    } else if eq_ignore_ascii_case(name, seq!['E', 'R', 'R', 'O', 'R']) {
        Some(LogLevel::Error)
    } else if eq_ignore_ascii_case(name, seq!['W', 'A', 'R', 'N']) {
        Some(LogLevel::Warn)
    } else if eq_ignore_ascii_case(name, seq!['I', 'N', 'F', 'O']) {
        Some(LogLevel::Info)
    } else if eq_ignore_ascii_case(name, seq!['D', 'E', 'B', 'U', 'G']) {
        Some(LogLevel::Debug)
    } else if eq_ignore_ascii_case(name, seq!['T', 'R', 'A', 'C', 'E']) {
        Some(LogLevel::Trace)
    } else {
        None
    }
}

/// `log::LevelFilter::from_str`. Its source compares `name`, ignoring the
/// case of ASCII letters, with `OFF`, `ERROR`, `WARN`, `INFO`, `DEBUG` and
/// `TRACE` in turn, and fails when none matches; the contract states that.
#[verifier::external_body]
fn parse_level_filter(name: &str) -> (r: Option<LogLevel>)
    ensures
        r == level_named(name@),
{
    match log::LevelFilter::from_str(name) {
        Ok(log::LevelFilter::Off) => Some(LogLevel::Off),
        Ok(log::LevelFilter::Error) => Some(LogLevel::Error),
        Ok(log::LevelFilter::Warn) => Some(LogLevel::Warn),
        Ok(log::LevelFilter::Info) => Some(LogLevel::Info),
        Ok(log::LevelFilter::Debug) => Some(LogLevel::Debug),
        Ok(log::LevelFilter::Trace) => Some(LogLevel::Trace),
        Err(_) => None,
    }
}

/// The level that a configured value selects: the level it names, or
/// `Info` when it names none (an unset variable reads as empty).
pub open spec fn configured_level(configured: Seq<char>) -> LogLevel {
    match level_named(configured) {
        Some(level) => level,
        None => LogLevel::Info,
    }
}

/// Whether logging has been set up.
pub struct LoggingState {
    logging_initialized: bool,
}

impl LoggingState {
    /// Logging has been set up.
    pub closed spec fn initialized(&self) -> bool {
        self.logging_initialized
    }

    /// A state in which logging has not been set up yet.
    pub fn new() -> (s: Self)
        ensures
            !s.initialized(),
    {
        LoggingState { logging_initialized: false }
    }

    /// Sets logging up once. The first call returns the level to install,
    /// chosen by `configured` (the value of `GOLEM_WEBSEARCH_LOG`); every
    /// later call returns `None`.
    pub fn init(&mut self, configured: &str) -> (r: Option<LogLevel>)
        ensures
            final(self).initialized(),
            old(self).initialized() ==> r is None,
            !old(self).initialized() ==> r == Some(configured_level(configured@)),
    {
        if !self.logging_initialized {
            let level = match parse_level_filter(configured) {
                Some(level) => level,
                None => LogLevel::Info,
            };
            self.logging_initialized = true;
            Some(level)
        } else {
            None
        }
    }
}


/// The level names are read without regard to case: `off`, `error`, `warn`,
/// `info`, `debug` and `trace` name the levels of the same names, and a name
/// of none of them selects `Info`.
pub proof fn law_level_names()
    ensures
        level_named(seq!['o', 'f', 'f']) == Some(LogLevel::Off),
        level_named(seq!['E', 'r', 'r', 'o', 'r']) == Some(LogLevel::Error),
        level_named(seq!['w', 'a', 'r', 'n']) == Some(LogLevel::Warn),
        level_named(seq!['I', 'N', 'F', 'O']) == Some(LogLevel::Info),
        level_named(seq!['d', 'e', 'b', 'u', 'g']) == Some(LogLevel::Debug),
        level_named(seq!['T', 'r', 'a', 'c', 'e']) == Some(LogLevel::Trace),
        configured_level(Seq::<char>::empty()) == LogLevel::Info,
        configured_level(seq!['l', 'o', 'u', 'd']) == LogLevel::Info,
{
    assert(eq_ignore_ascii_case(seq!['o', 'f', 'f'], seq!['O', 'F', 'F']));
    assert(!eq_ignore_ascii_case(seq!['E', 'r', 'r', 'o', 'r'], seq!['O', 'F', 'F']));
    assert(eq_ignore_ascii_case(seq!['E', 'r', 'r', 'o', 'r'], seq!['E', 'R', 'R', 'O', 'R']));
    assert(!eq_ignore_ascii_case(seq!['w', 'a', 'r', 'n'], seq!['O', 'F', 'F']));
    assert(!eq_ignore_ascii_case(seq!['w', 'a', 'r', 'n'], seq!['E', 'R', 'R', 'O', 'R']));
    assert(eq_ignore_ascii_case(seq!['w', 'a', 'r', 'n'], seq!['W', 'A', 'R', 'N']));
    assert(!eq_ignore_ascii_case(seq!['I', 'N', 'F', 'O'], seq!['W', 'A', 'R', 'N'])) by {
        assert(ascii_lower('I') != ascii_lower('W'));
    }
    assert(eq_ignore_ascii_case(seq!['I', 'N', 'F', 'O'], seq!['I', 'N', 'F', 'O']));
    assert(!eq_ignore_ascii_case(seq!['d', 'e', 'b', 'u', 'g'], seq!['E', 'R', 'R', 'O', 'R'])) by {
        assert(ascii_lower('d') != ascii_lower('E'));
    }
    assert(eq_ignore_ascii_case(seq!['d', 'e', 'b', 'u', 'g'], seq!['D', 'E', 'B', 'U', 'G']));
    assert(!eq_ignore_ascii_case(seq!['T', 'r', 'a', 'c', 'e'], seq!['E', 'R', 'R', 'O', 'R'])) by {
        assert(ascii_lower('T') != ascii_lower('E'));
    }
    assert(!eq_ignore_ascii_case(seq!['T', 'r', 'a', 'c', 'e'], seq!['D', 'E', 'B', 'U', 'G'])) by {
        assert(ascii_lower('T') != ascii_lower('D'));
    }
    assert(eq_ignore_ascii_case(seq!['T', 'r', 'a', 'c', 'e'], seq!['T', 'R', 'A', 'C', 'E']));
    assert(!eq_ignore_ascii_case(seq!['l', 'o', 'u', 'd'], seq!['W', 'A', 'R', 'N'])) by {
        assert(ascii_lower('l') != ascii_lower('W'));
    }
    assert(!eq_ignore_ascii_case(seq!['l', 'o', 'u', 'd'], seq!['I', 'N', 'F', 'O'])) by {
        assert(ascii_lower('l') != ascii_lower('I'));
    }
}

} // verus!
