//! Log severities and the parser for their textual names.

use vstd::prelude::*;
use vstd::string::*;

use crate::text::same_chars;

verus! {

/// Severity of a log record, or threshold of a sink, ordered from the most
/// verbose to the most severe.
#[derive(Clone, Copy, Debug, PartialEq, Eq, Structural, Hash)]
pub enum Severity {
    Trace,
    Debug,
    Info,
    Warn,
    Error,
}

/// Position of a severity in the order `Trace < Debug < Info < Warn < Error`.
pub open spec fn rank(s: Severity) -> nat {
    match s {
        Severity::Trace => 0,
        Severity::Debug => 1,
        Severity::Info => 2,
        Severity::Warn => 3,
        Severity::Error => 4,
    }
}

/// A record of severity `record` passes a threshold `threshold` iff it is at
/// least as severe.
pub open spec fn passes(record: Severity, threshold: Severity) -> bool {
    rank(record) >= rank(threshold)
}

/// The severity named by `token`, if it is one of the five lower-case names.
pub open spec fn level_of(token: Seq<char>) -> Option<Severity> {
    if token == "trace"@ {
        Some(Severity::Trace)
    } else if token == "debug"@ {
        Some(Severity::Debug)
    } else if token == "info"@ {
        Some(Severity::Info)
    } else if token == "warn"@ {
        Some(Severity::Warn)
    } else if token == "error"@ {
        Some(Severity::Error)
    } else {
        None
    }
}

/// The severity `token` names, or `fallback` when it names none.
pub open spec fn level_or(token: Seq<char>, fallback: Severity) -> Severity {
    match level_of(token) {
        Some(l) => l,
        None => fallback,
    }
}

/// The message of a rejected severity name.
pub open spec fn unsupported_level_message(token: Seq<char>) -> Seq<char> {
    "Unsupported level filter: "@ + token
}

impl Severity {
    /// Position in the severity order, `Trace` being 0 and `Error` 4.
    pub fn rank(&self) -> (r: u8)
        ensures
            r as nat == rank(*self),
    {
        match self {
            Severity::Trace => 0,
            Severity::Debug => 1,
            Severity::Info => 2,
            Severity::Warn => 3,
            Severity::Error => 4,
        }
    }

    /// Whether a record of severity `record` passes this threshold.
    pub fn admits(&self, record: Severity) -> (r: bool)
        ensures
            r == passes(record, *self),
    {
        record.rank() >= self.rank()
    }
}

/// Parses a severity name. Exactly the case-sensitive names `trace`,
/// `debug`, `info`, `warn` and `error` are accepted; any other text is
/// rejected with a message that quotes it.
pub fn str_to_levelfilter(string: &str) -> (r: Result<Severity, String>)
    ensures
        match r {
            Ok(s) => level_of(string@) == Some(s),
            Err(e) => level_of(string@) is None && e@ == unsupported_level_message(string@),
        },
{
    if same_chars(string, "trace") {
        Ok(Severity::Trace)
    } else if same_chars(string, "debug") {
        Ok(Severity::Debug)
    } else if same_chars(string, "info") {
        Ok(Severity::Info)
    } else if same_chars(string, "warn") {
        Ok(Severity::Warn)
    } else if same_chars(string, "error") {
        Ok(Severity::Error)
    } else {
        let mut msg = String::from_str("Unsupported level filter: ");
        msg.append(string);
        Err(msg)
    }
}

/// The severity `token` names, or `fallback` when it names none.
pub fn parse_level_or(token: &str, fallback: Severity) -> (r: Severity)
    ensures
        r == level_or(token@, fallback),
{
    match str_to_levelfilter(token) {
        Ok(l) => l,
        Err(_) => fallback,
    }
}

} // verus!
