//! How the database is opened, and whether the connection policy is actually in force.
use vstd::prelude::*;
use crate::store::error::{PolicyViolation, StoreError};
use crate::text::{chars_of, int_string, int_text};

verus! {

/// Default bounded busy timeout.
pub const DEFAULT_BUSY_TIMEOUT_MS: u32 = 5_000;

/// How to open the durable store.
#[derive(Debug, Clone, PartialEq, Eq)]
pub struct StoreConfig {
    /// Path to the SQLite database file.
    pub database_path: String,
    /// Bounded busy timeout in milliseconds.
    pub busy_timeout_ms: u32,
}

impl StoreConfig {
    /// Configures a store at `database_path` with the default busy timeout.
    pub fn new(database_path: &str) -> (r: StoreConfig)
        ensures
            r.database_path@ == database_path@,
            r.busy_timeout_ms == DEFAULT_BUSY_TIMEOUT_MS,
    {
        StoreConfig {
            database_path: database_path.to_owned(),
            busy_timeout_ms: DEFAULT_BUSY_TIMEOUT_MS,
        }
    }

    /// Overrides the bounded busy timeout.
    pub fn with_busy_timeout_ms(self, millis: u32) -> (r: StoreConfig)
        ensures
            r.database_path@ == self.database_path@,
            r.busy_timeout_ms == millis,
    {
        StoreConfig { database_path: self.database_path, busy_timeout_ms: millis }
    }
}

/// The connection policy as the engine reports it.
#[derive(Debug, Clone, PartialEq, Eq)]
pub struct PolicyReport {
    /// `PRAGMA foreign_keys`.
    pub foreign_keys: bool,
    /// `PRAGMA journal_mode`.
    pub journal_mode: String,
    /// `PRAGMA synchronous`, as the engine's numeric level.
    pub synchronous: i64,
    /// `PRAGMA busy_timeout`, in milliseconds.
    pub busy_timeout_ms: i64,
}

/// `synchronous=FULL` is level 2.
pub const SYNCHRONOUS_FULL: i64 = 2;

/// A letter in lower case; any other character as it is.
pub open spec fn ascii_lower(c: char) -> int {
    if 'A' <= c && c <= 'Z' {
        c as int + 32
    } else {
        c as int
    }
}

/// Whether a text is `wal`, whatever the case of its letters.
pub open spec fn is_wal(text: Seq<char>) -> bool {
    text.len() == 3 && ascii_lower(text[0]) == 'w' as int && ascii_lower(text[1]) == 'a' as int
        && ascii_lower(text[2]) == 'l' as int
}

fn names_wal(text: &str) -> (r: bool)
    ensures
        r == is_wal(text@),
{
    let chars = chars_of(text);
    chars.len() == 3 && (chars[0] == 'w' || chars[0] == 'W') && (chars[1] == 'a' || chars[1] == 'A')
        && (chars[2] == 'l' || chars[2] == 'L')
}

/// The first required pragma that is not in force: its name, what is observed, what is required.
pub open spec fn policy_fault(report: PolicyReport, busy_timeout_ms: u32) -> Option<
    (&'static str, Seq<char>, &'static str),
> {
    if !report.foreign_keys {
        Some(("foreign_keys", "off"@, "on"))
    } else if !is_wal(report.journal_mode@) {
        Some(("journal_mode", report.journal_mode@, "wal"))
    } else if report.synchronous != SYNCHRONOUS_FULL {
        Some(("synchronous", int_text(report.synchronous as int), "2 (FULL)"))
    } else if report.busy_timeout_ms != busy_timeout_ms {
        Some(
            (
                "busy_timeout",
                int_text(report.busy_timeout_ms as int),
                "the configured bounded timeout",
            ),
        )
    } else {
        None
    }
}

/// Checks that every required pragma is in force on the open connection.
pub fn verify(report: &PolicyReport, config: &StoreConfig) -> (r: Result<(), StoreError>)
    ensures
        match policy_fault(*report, config.busy_timeout_ms) {
            None => r == Ok::<(), StoreError>(()),
            Some((pragma, observed, required)) => r matches Err(
                StoreError::ConnectionPolicy(violation),
            ) && violation.pragma == pragma && violation.observed@ == observed && violation.required
                == required,
        },
{
    if !report.foreign_keys {
        return Err(
            StoreError::ConnectionPolicy(
                PolicyViolation {
                    pragma: "foreign_keys",
                    observed: "off".to_owned(),
                    required: "on",
                },
            ),
        );
    }
    if !names_wal(report.journal_mode.as_str()) {
        return Err(
            StoreError::ConnectionPolicy(
                PolicyViolation {
                    pragma: "journal_mode",
                    observed: report.journal_mode.clone(),
                    required: "wal",
                },
            ),
        );
    }
    if report.synchronous != SYNCHRONOUS_FULL {
        return Err(
            StoreError::ConnectionPolicy(
                PolicyViolation {
                    pragma: "synchronous",
                    observed: int_string(report.synchronous),
                    required: "2 (FULL)",
                },
            ),
        );
    }
    if report.busy_timeout_ms != config.busy_timeout_ms as i64 {
        return Err(
            StoreError::ConnectionPolicy(
                PolicyViolation {
                    pragma: "busy_timeout",
                    observed: int_string(report.busy_timeout_ms),
                    required: "the configured bounded timeout",
                },
            ),
        );
    }
    Ok(())
}

} // verus!
