//! Safe diagnostics, in a shape that cannot carry anything else: literals of this program, numbers,
//! flags, opaque identities and redaction-safe tokens.
use vstd::prelude::*;
use vstd::string::StringExecFns;
use crate::domain::fence::{SafeToken, Timestamp};
use crate::domain::id::{canonical_text, id_text, Id};
use crate::text::{int_string, int_text, push_int};

verus! {

/// Name of the daemon's diagnostics file.
pub const LOG_FILE: &'static str = "daemon.log";

/// Name the previous generation is rotated to.
pub const ROTATED_FILE: &'static str = "daemon.log.1";

/// Size at which the log is rotated, in bytes.
pub const ROTATE_AT_BYTES: u64 = 1048576;

/// Whether a log of a size is rotated before it is opened: one generation is kept.
pub fn rotates(len: u64) -> (r: bool)
    ensures
        r == (len >= ROTATE_AT_BYTES),
{
    len >= ROTATE_AT_BYTES
}

/// How serious a record is.
#[derive(Debug, Clone, Copy, PartialEq, Eq, PartialOrd, Ord, Structural)]
pub enum Level {
    /// Normal progress.
    Info,
    /// Something the operator should look at; the daemon continued.
    Warn,
    /// A refusal. The daemon did not become ready, or is stopping.
    Error,
}

impl Level {
    /// The word of a level.
    pub open spec fn word(self) -> &'static str {
        match self {
            Level::Info => "info",
            Level::Warn => "warn",
            Level::Error => "error",
        }
    }

    /// The word of a level.
    pub fn code(self) -> (r: &'static str)
        ensures
            r == self.word(),
    {
        match self {
            Level::Info => "info",
            Level::Warn => "warn",
            Level::Error => "error",
        }
    }
}

/// A record's structured payload: classes, counters, flags and opaque identities.
#[derive(Debug, PartialEq, Eq)]
pub struct Fields {
    rendered: String,
}

impl View for Fields {
    type V = Seq<char>;

    closed spec fn view(&self) -> Seq<char> {
        self.rendered@
    }
}

/// A payload with one more field: pairs separated by single spaces.
pub open spec fn with_field(rendered: Seq<char>, key: Seq<char>, value: Seq<char>) -> Seq<char> {
    if rendered.len() == 0 {
        key + "="@ + value
    } else {
        rendered + " "@ + key + "="@ + value
    }
}

/// The text of a flag.
pub open spec fn flag_text(value: bool) -> Seq<char> {
    if value {
        "true"@
    } else {
        "false"@
    }
}

/// A cardinality as a signed counter.
pub open spec fn counted(value: usize) -> int {
    if value <= i64::MAX {
        value as int
    } else {
        i64::MAX as int
    }
}

impl Default for Fields {
    fn default() -> (r: Fields)
        ensures
            r@ == Seq::<char>::empty(),
    {
        Fields { rendered: String::new() }
    }
}

impl Fields {
    /// An empty payload.
    pub fn new() -> (r: Fields)
        ensures
            r@ == Seq::<char>::empty(),
    {
        Fields { rendered: String::new() }
    }

    fn push(self, key: &'static str, value: &str) -> (r: Fields)
        ensures
            r@ == with_field(self@, key@, value@),
    {
        let mut rendered = self.rendered;
        if !rendered.as_str().is_empty() {
            rendered.append(" ");
        }
        rendered.append(key);
        rendered.append("=");
        rendered.append(value);
        assert(rendered@ =~= with_field(self@, key@, value@));
        Fields { rendered }
    }

    /// Adds a class or code that is a literal of this program.
    pub fn class(self, key: &'static str, value: &'static str) -> (r: Fields)
        ensures
            r@ == with_field(self@, key@, value@),
    {
        self.push(key, value)
    }

    /// Adds a signed counter or a duration in milliseconds.
    pub fn integer(self, key: &'static str, value: i64) -> (r: Fields)
        ensures
            r@ == with_field(self@, key@, int_text(value as int)),
    {
        let text = int_string(value);
        self.push(key, text.as_str())
    }

    /// Adds a cardinality.
    pub fn count(self, key: &'static str, value: usize) -> (r: Fields)
        ensures
            r@ == with_field(self@, key@, int_text(counted(value))),
    {
        let number: i64 = if value as u64 <= i64::MAX as u64 {
            value as i64
        } else {
            i64::MAX
        };
        self.integer(key, number)
    }

    /// Adds a boolean evidence flag.
    pub fn flag(self, key: &'static str, value: bool) -> (r: Fields)
        ensures
            r@ == with_field(self@, key@, flag_text(value)),
    {
        if value {
            self.push(key, "true")
        } else {
            self.push(key, "false")
        }
    }

    /// Adds an opaque domain identity.
    pub fn id(self, key: &'static str, value: Id) -> (r: Fields)
        ensures
            r@ == with_field(self@, key@, canonical_text(value.value)),
    {
        let text = id_text(value);
        self.push(key, text.as_str())
    }

    /// Adds a redaction-safe token.
    pub fn token(self, key: &'static str, value: &SafeToken) -> (r: Fields)
        ensures
            r@ == with_field(self@, key@, value@),
    {
        self.push(key, value.as_str())
    }

    /// The payload as it will appear in the log.
    pub fn as_str(&self) -> (r: &str)
        ensures
            r@ == self@,
    {
        self.rendered.as_str()
    }
}

/// The line of a record.
pub open spec fn line_text(at: Timestamp, level: Level, event: Seq<char>, fields: Seq<char>) -> Seq<char> {
    let head = int_text(at as int) + " "@ + level.word()@ + " "@ + event;
    if fields.len() == 0 {
        head + "\n"@
    } else {
        head + " "@ + fields + "\n"@
    }
}

/// Renders the line of a record.
pub fn record_line(at: Timestamp, level: Level, event: &'static str, fields: &Fields) -> (r: String)
    ensures
        r@ == line_text(at, level, event@, fields@),
{
    let mut line = String::new();
    push_int(&mut line, at);
    line.append(" ");
    line.append(level.code());
    line.append(" ");
    line.append(event);
    if !fields.as_str().is_empty() {
        line.append(" ");
        line.append(fields.as_str());
    }
    line.append("\n");
    assert(line@ =~= line_text(at, level, event@, fields@));
    line
}

} // verus!
