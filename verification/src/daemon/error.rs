//! Why the daemon refused to serve. Every variant is a refusal: the daemon did not become ready, and
//! nothing was scheduled. No message carries a path.
use vstd::prelude::*;
use vstd::string::StringExecFns;
use crate::daemon::ipc::IpcError;
use crate::daemon::layout::PathClass;
use crate::domain::lease::IncarnationMismatch;
use crate::store::error::StoreError;
use crate::text::{nat_text, push_nat};

verus! {

/// What went wrong while acquiring the instance lock.
#[derive(Debug, Clone, Copy, PartialEq, Eq, Structural)]
pub enum LockDefect {
    /// The lock file could not be created or opened.
    Unopenable,
    /// The lock file's contents are not a lock record.
    Unreadable,
    /// The lock record could not be written or flushed.
    Unwritable,
    /// Repeated reclaim attempts kept losing the race to create the file.
    Contended,
}

impl LockDefect {
    /// The defect in words.
    pub open spec fn words(self) -> &'static str {
        match self {
            LockDefect::Unopenable => "the lock file could not be opened",
            LockDefect::Unreadable => "the lock file does not hold a readable lock record",
            LockDefect::Unwritable => "the lock record could not be made durable",
            LockDefect::Contended => "the lock was contended by another starting process",
        }
    }

    /// The defect in words.
    pub fn message(self) -> (r: &'static str)
        ensures
            r == self.words(),
    {
        match self {
            LockDefect::Unopenable => "the lock file could not be opened",
            LockDefect::Unreadable => "the lock file does not hold a readable lock record",
            LockDefect::Unwritable => "the lock record could not be made durable",
            LockDefect::Contended => "the lock was contended by another starting process",
        }
    }
}

/// What is wrong with a state-root path.
#[derive(Debug, Clone, Copy, PartialEq, Eq, Structural)]
pub enum PathDefect {
    /// The path does not exist and could not be created.
    Uncreatable,
    /// The path exists but is not a directory.
    NotADirectory,
    /// The path is a symbolic link, which is refused rather than followed.
    Symlink,
    /// The path belongs to another OS principal.
    ForeignOwner,
    /// The path grants access to group or other.
    GroupOrOtherAccessible,
    /// The path's metadata could not be read.
    Unreadable,
}

impl PathDefect {
    /// The defect in words.
    pub open spec fn words(self) -> &'static str {
        match self {
            PathDefect::Uncreatable => "it does not exist and could not be created",
            PathDefect::NotADirectory => "it exists but is not a directory",
            PathDefect::Symlink => "it is a symbolic link",
            PathDefect::ForeignOwner => "it is owned by another user",
            PathDefect::GroupOrOtherAccessible => {
                "it is readable, writable, or traversable by group or other"
            },
            PathDefect::Unreadable => "its metadata could not be read",
        }
    }

    /// The defect in words.
    pub fn message(self) -> (r: &'static str)
        ensures
            r == self.words(),
    {
        match self {
            PathDefect::Uncreatable => "it does not exist and could not be created",
            PathDefect::NotADirectory => "it exists but is not a directory",
            PathDefect::Symlink => "it is a symbolic link",
            PathDefect::ForeignOwner => "it is owned by another user",
            PathDefect::GroupOrOtherAccessible => {
                "it is readable, writable, or traversable by group or other"
            },
            PathDefect::Unreadable => "its metadata could not be read",
        }
    }
}

/// How the artifact layer failed, by class.
#[derive(Debug, Clone, Copy, PartialEq, Eq, Structural)]
pub enum ArtifactFailure {
    /// The file is not there.
    Missing,
    /// The bytes are not the recorded ones.
    Integrity,
    /// The file is longer than the policy allows.
    TooLarge,
    /// The path is not a safe one.
    UnsafePath,
    /// The key is not a storage key.
    InvalidKey,
    /// Any other failure.
    Io,
}

/// The stable class of an artifact failure.
pub open spec fn artifact_class(failure: ArtifactFailure) -> &'static str {
    match failure {
        ArtifactFailure::Missing => "missing",
        ArtifactFailure::Integrity => "integrity_mismatch",
        ArtifactFailure::TooLarge => "too_large",
        ArtifactFailure::UnsafePath => "unsafe_path",
        ArtifactFailure::InvalidKey => "invalid_key",
        ArtifactFailure::Io => "io",
    }
}

/// The stable class of an artifact failure, for logs and status lines.
pub fn artifact_failure_class(failure: ArtifactFailure) -> (r: &'static str)
    ensures
        r == artifact_class(failure),
{
    match failure {
        ArtifactFailure::Missing => "missing",
        ArtifactFailure::Integrity => "integrity_mismatch",
        ArtifactFailure::TooLarge => "too_large",
        ArtifactFailure::UnsafePath => "unsafe_path",
        ArtifactFailure::InvalidKey => "invalid_key",
        ArtifactFailure::Io => "io",
    }
}

/// A stale instance lock that was reclaimed, and how its holder differed.
#[derive(Debug, Clone, Copy, PartialEq, Eq, Structural)]
pub struct ReclaimedLock {
    /// Process number the dead holder recorded.
    pub slot: u32,
    /// How the holder differs from anything running now; nothing where its number no longer
    /// resolves at all.
    pub mismatch: Option<IncarnationMismatch>,
}

/// The daemon's typed refusal.
#[derive(Debug, PartialEq, Eq)]
pub enum DaemonError {
    /// Another process holds the state root's instance lock.
    AuthorityHeld {
        /// Process number recorded by the holder, for the operator.
        slot: u32,
    },
    /// The recorded lock holder is still running but does not hold the lock: refused, not reclaimed.
    LockHolderStillAlive {
        /// Process number recorded by the holder.
        slot: u32,
    },
    /// The instance lock could not be created, read, or written.
    Lock {
        /// What went wrong, as an operation class.
        reason: LockDefect,
    },
    /// A state-root directory failed its ownership or permission check.
    Filesystem {
        /// Which directory.
        class: PathClass,
        /// What is wrong with it.
        defect: PathDefect,
    },
    /// The durable authority refused to open.
    Store(StoreError),
    /// The artifact root refused to open, or a sweep failed.
    Artifacts(ArtifactFailure),
    /// The owner-local socket could not be prepared.
    Ipc(IpcError),
    /// A log file under the state root could not be opened.
    Logging,
    /// The shutdown signal handlers could not be installed.
    SignalHandler,
}

/// The stable code of a refusal.
pub open spec fn refusal_code(e: DaemonError) -> &'static str {
    match e {
        DaemonError::AuthorityHeld { .. } => "authority_held",
        DaemonError::LockHolderStillAlive { .. } => "lock_holder_still_alive",
        DaemonError::Lock { .. } => "lock_unavailable",
        DaemonError::Filesystem { .. } => "state_root_invalid",
        DaemonError::Store(_) => "store_refused",
        DaemonError::Artifacts(_) => "artifact_root_refused",
        DaemonError::Ipc(_) => "ipc_unavailable",
        DaemonError::Logging => "logging_unavailable",
        DaemonError::SignalHandler => "signal_handler_unavailable",
    }
}

/// A refusal in words; `inner` are the words of the failure it wraps, where it wraps one.
pub open spec fn refusal_words(e: DaemonError, inner: Seq<char>) -> Seq<char> {
    match e {
        DaemonError::AuthorityHeld { slot } => {
            "another daemon already holds authority over this state root (process "@ + nat_text(
                slot as nat,
            ) + ")"@
        },
        DaemonError::LockHolderStillAlive { slot } => {
            "the recorded lock holder (process "@ + nat_text(slot as nat)
                + ") is still running; refusing to reclaim"@
        },
        DaemonError::Lock { reason } => {
            "the state root's instance lock could not be acquired: "@ + reason.words()@
        },
        DaemonError::Filesystem { class, defect } => {
            "the "@ + class.name()@ + " directory failed validation: "@ + defect.words()@
        },
        DaemonError::Store(_) => "the durable store refused to open: "@ + inner,
        DaemonError::Artifacts(_) => "the result-artifact root refused: "@ + inner,
        DaemonError::Ipc(_) => "the owner-local control socket could not be prepared: "@ + inner,
        DaemonError::Logging => "the diagnostics log could not be opened"@,
        DaemonError::SignalHandler => "the shutdown signal handlers could not be installed"@,
    }
}

impl DaemonError {
    /// Stable code, for the command line's exit classification.
    pub fn code(&self) -> (r: &'static str)
        ensures
            r == refusal_code(*self),
    {
        match self {
            DaemonError::AuthorityHeld { .. } => "authority_held",
            DaemonError::LockHolderStillAlive { .. } => "lock_holder_still_alive",
            DaemonError::Lock { .. } => "lock_unavailable",
            DaemonError::Filesystem { .. } => "state_root_invalid",
            DaemonError::Store(_) => "store_refused",
            DaemonError::Artifacts(_) => "artifact_root_refused",
            DaemonError::Ipc(_) => "ipc_unavailable",
            DaemonError::Logging => "logging_unavailable",
            DaemonError::SignalHandler => "signal_handler_unavailable",
        }
    }

    /// The refusal in words; `inner` are the words of the failure it wraps, where it wraps one.
    pub fn message(&self, inner: &str) -> (r: String)
        ensures
            r@ == refusal_words(*self, inner@),
    {
        let mut out = String::new();
        match self {
            DaemonError::AuthorityHeld { slot } => {
                out.append("another daemon already holds authority over this state root (process ");
                push_nat(&mut out, *slot as u64);
                out.append(")");
            },
            DaemonError::LockHolderStillAlive { slot } => {
                out.append("the recorded lock holder (process ");
                push_nat(&mut out, *slot as u64);
                out.append(") is still running; refusing to reclaim");
            },
            DaemonError::Lock { reason } => {
                out.append("the state root's instance lock could not be acquired: ");
                out.append(reason.message());
            },
            DaemonError::Filesystem { class, defect } => {
                out.append("the ");
                out.append(class.code());
                out.append(" directory failed validation: ");
                out.append(defect.message());
            },
            DaemonError::Store(_) => {
                out.append("the durable store refused to open: ");
                out.append(inner);
            },
            DaemonError::Artifacts(_) => {
                out.append("the result-artifact root refused: ");
                out.append(inner);
            },
            DaemonError::Ipc(_) => {
                out.append("the owner-local control socket could not be prepared: ");
                out.append(inner);
            },
            DaemonError::Logging => {
                out.append("the diagnostics log could not be opened");
            },
            DaemonError::SignalHandler => {
                out.append("the shutdown signal handlers could not be installed");
            },
        }
        assert(out@ =~= refusal_words(*self, inner@));
        out
    }
}

} // verus!
