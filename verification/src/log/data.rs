//! Log levels and log messages, with their text forms.

use vstd::prelude::*;
use vstd::string::*;
use std::cmp::Ordering;

verus! {

/// What `str::to_lowercase` of std returns for the given characters.
pub uninterp spec fn lowercase(s: Seq<char>) -> Seq<char>;

/// Calls `str::to_lowercase` of std, the Unicode lowercase mapping of a
/// string. The mapping depends on the characters alone; the contract gives
/// its result the name `lowercase` and states nothing else of it.
#[verifier::external_body]
fn to_lowercase(s: &str) -> (r: String)
    ensures
        r@ == lowercase(s@),
{
    s.to_lowercase()
}

/// Whether two strings hold the same characters.
pub(crate) fn same_text(a: &str, b: &str) -> (r: bool)
    ensures
        r == (a@ == b@),
{
    let x = String::from_str(a);
    let y = String::from_str(b);
    x == y
}

/// The severity of a log message. The levels rise from `Info` over
/// `Warning` to `Error`.
#[derive(Debug, Clone, Copy, PartialEq, Eq, Ord, Hash, Structural)]
pub enum LogLevel {
    /// Regular information that is not critical.
    Info,
    /// Something went wrong, but the program can go on.
    Warning,
    /// A critical error that requires attention.
    Error,
}

/// The text that stood where a log level was expected.
#[derive(Debug, Clone, PartialEq, Eq)]
pub struct InvalidLogLevel {
    pub input: String,
}

/// The upper-case tag of a level.
pub open spec fn level_tag(level: LogLevel) -> Seq<char> {
    match level {
        LogLevel::Info => "INFO"@,
        LogLevel::Warning => "WARN"@,
        LogLevel::Error => "ERROR"@,
    }
}

/// The level that a lower-case word names, if it names one.
pub open spec fn level_named(lower: Seq<char>) -> Option<LogLevel> {
    if lower == "info"@ {
        Some(LogLevel::Info)
    } else if lower == "warn"@ || lower == "warning"@ {
        Some(LogLevel::Warning)
    } else if lower == "error"@ {
        Some(LogLevel::Error)
    } else {
        None
    }
}

/// The rank of a level: 0 for `Info`, 1 for `Warning`, 2 for `Error`.
pub open spec fn level_rank(level: LogLevel) -> nat {
    match level {
        LogLevel::Info => 0,
        LogLevel::Warning => 1,
        LogLevel::Error => 2,
    }
}

/// How two levels compare: by their ranks.
pub open spec fn level_order(left: LogLevel, right: LogLevel) -> Ordering {
    if level_rank(left) < level_rank(right) {
        Ordering::Less
    } else if level_rank(left) == level_rank(right) {
        Ordering::Equal
    } else {
        Ordering::Greater
    }
}

impl PartialOrd for LogLevel {
    fn partial_cmp(&self, other: &LogLevel) -> (r: Option<Ordering>) {
        let left: u8 = self.rank();
        let right: u8 = other.rank();
        if left < right {
            Some(Ordering::Less)
        } else if left == right {
            Some(Ordering::Equal)
        } else {
            Some(Ordering::Greater)
        }
    }
}

impl vstd::std_specs::cmp::PartialOrdSpecImpl for LogLevel {
    open spec fn obeys_partial_cmp_spec() -> bool {
        true
    }

    open spec fn partial_cmp_spec(&self, other: &LogLevel) -> Option<Ordering> {
        Some(level_order(*self, *other))
    }
}

impl Default for LogLevel {
    fn default() -> (r: LogLevel)
        ensures
            r == LogLevel::Info,
    {
        LogLevel::Info
    }
}

impl LogLevel {
    /// The rank by which levels are ordered.
    pub fn rank(&self) -> (r: u8)
        ensures
            r == level_rank(*self),
    {
        match self {
            LogLevel::Info => 0,
            LogLevel::Warning => 1,
            LogLevel::Error => 2,
        }
    }

    /// The tag of the level: `INFO`, `WARN` or `ERROR`.
    pub fn to_string(&self) -> (r: String)
        ensures
            r@ == level_tag(*self),
    {
        match self {
            LogLevel::Info => String::from_str("INFO"),
            LogLevel::Warning => String::from_str("WARN"),
            LogLevel::Error => String::from_str("ERROR"),
        }
    }

    /// Reads a level from the lower-case form of a word. `given` is the
    /// word before it was lowered, which the error carries.
    pub fn from_lowercase(lower: &str, given: &str) -> (r: Result<LogLevel, InvalidLogLevel>)
        ensures
            match level_named(lower@) {
                Some(level) => r == Ok::<LogLevel, InvalidLogLevel>(level),
                None => r is Err && r->Err_0.input@ == given@,
            },
    {
        if same_text(lower, "info") {
            Ok(LogLevel::Info)
        } else if same_text(lower, "warn") || same_text(lower, "warning") {
            Ok(LogLevel::Warning)
        } else if same_text(lower, "error") {
            Ok(LogLevel::Error)
        } else {
            Err(InvalidLogLevel { input: String::from_str(given) })
        }
    }

    /// Reads a level from a word, whatever its case: `info`, `warn` or
    /// `warning`, and `error`. Any other word is refused.
    pub fn from_str(s: &str) -> (r: Result<LogLevel, InvalidLogLevel>)
        ensures
            match level_named(lowercase(s@)) {
                Some(level) => r == Ok::<LogLevel, InvalidLogLevel>(level),
                None => r is Err && r->Err_0.input@ == s@,
            },
    {
        let lower = to_lowercase(s);
        LogLevel::from_lowercase(lower.as_str(), s)
    }
}

impl InvalidLogLevel {
    /// The words of the error: a fixed prefix, then the refused input.
    pub fn message(&self) -> (r: String)
        ensures
            r@ == "Invalid log level: "@ + self.input@,
    {
        String::from_str("Invalid log level: ").concat(self.input.as_str())
    }
}

/// A message to be logged, with its level.
#[derive(Debug, Clone, PartialEq, Eq, PartialOrd, Ord)]
pub struct LogMessage {
    pub level: LogLevel,
    pub message: String,
}

/// The line that a message is logged as: the level's tag in square
/// brackets, a space, the text.
pub open spec fn log_line(level: LogLevel, text: Seq<char>) -> Seq<char> {
    "["@ + level_tag(level) + "] "@ + text
}

impl LogMessage {
    /// The line that the message is logged as.
    pub fn to_string(&self) -> (r: String)
        ensures
            r@ == log_line(self.level, self.message@),
    {
        let mut line = String::from_str("[");
        let tag = self.level.to_string();
        line.append(tag.as_str());
        line.append("] ");
        line.append(self.message.as_str());
        line
    }
}

} // verus!
