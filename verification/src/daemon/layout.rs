//! The state root's shape, and the ownership and permission check over it.
//!
//! Every path is a text below the root. The check protects the root from other OS principals; it is
//! no sandbox against a process of the same user.
use vstd::prelude::*;
use vstd::string::StringExecFns;
use crate::daemon::error::PathDefect;
use crate::text::{chars_of, join2};

verus! {

/// Name of the durable authority inside a state root.
pub const DATABASE_FILE: &'static str = "governor.sqlite3";

/// Name of the single-daemon instance lock.
pub const LOCK_FILE: &'static str = "daemon.lock";

/// Directory holding the immutable result artifacts.
pub const ARTIFACTS_DIR: &'static str = "artifacts";

/// Directory holding the owner-local control socket.
pub const IPC_DIR: &'static str = "ipc";

/// Directory holding safe diagnostics.
pub const LOGS_DIR: &'static str = "logs";

/// Socket name, short because a socket address is a fixed-size buffer.
pub const SOCKET_FILE: &'static str = "d.sock";

/// Directory mode for everything the daemon owns: owner only.
pub const PRIVATE_DIR_MODE: u32 = 0o700;

/// File mode for everything the daemon owns: owner only.
pub const PRIVATE_FILE_MODE: u32 = 0o600;

/// Name of the throwaway file used to learn this process's effective user.
pub const OWNER_PROBE: &'static str = ".cg-owner-probe";

/// One directory the daemon depends on.
#[derive(Debug, Clone, Copy, PartialEq, Eq, PartialOrd, Ord, Hash, Structural)]
pub enum PathClass {
    /// The state root itself.
    StateRoot,
    /// The result-artifact root.
    Artifacts,
    /// The control-socket directory.
    Ipc,
    /// The diagnostics directory.
    Logs,
}

impl PathClass {
    /// Stable code for diagnostics.
    pub open spec fn name(self) -> &'static str {
        match self {
            PathClass::StateRoot => "state_root",
            PathClass::Artifacts => "artifacts",
            PathClass::Ipc => "ipc",
            PathClass::Logs => "logs",
        }
    }

    /// Stable code for diagnostics.
    pub fn code(self) -> (r: &'static str)
        ensures
            r == self.name(),
    {
        match self {
            PathClass::StateRoot => "state_root",
            PathClass::Artifacts => "artifacts",
            PathClass::Ipc => "ipc",
            PathClass::Logs => "logs",
        }
    }

    /// Every directory the audit covers, in validation order.
    pub open spec fn in_order() -> Seq<PathClass> {
        seq![PathClass::StateRoot, PathClass::Artifacts, PathClass::Ipc, PathClass::Logs]
    }

    /// Every directory the audit covers, in validation order.
    pub fn all() -> (r: Vec<PathClass>)
        ensures
            r@ == PathClass::in_order(),
    {
        let mut out: Vec<PathClass> = Vec::new();
        out.push(PathClass::StateRoot);
        out.push(PathClass::Artifacts);
        out.push(PathClass::Ipc);
        out.push(PathClass::Logs);
        assert(out@ =~= PathClass::in_order());
        out
    }
}

// --- Paths -----------------------------------------------------------------------------------------------

/// A name below a directory: joined by a separator, unless the directory ends in one or is empty.
pub open spec fn below(directory: Seq<char>, name: Seq<char>) -> Seq<char> {
    if directory.len() == 0 || directory.last() == '/' {
        directory + name
    } else {
        directory + "/"@ + name
    }
}

/// The path of a name below a directory.
pub fn join(directory: &str, name: &str) -> (r: String)
    ensures
        r@ == below(directory@, name@),
{
    let chars = chars_of(directory);
    let mut out = directory.to_owned();
    if chars.len() > 0 && chars[chars.len() - 1] != '/' {
        out.append("/");
    }
    out.append(name);
    out
}

/// Where one installation keeps its durable state.
#[derive(Debug, PartialEq, Eq)]
pub struct StateRoot {
    /// The root directory.
    pub root: String,
}

impl Clone for StateRoot {
    fn clone(&self) -> (r: Self)
        ensures
            r == *self,
    {
        StateRoot { root: self.root.clone() }
    }
}

/// The default location, from three variables of the environment; one that is empty counts as unset.
pub open spec fn default_root(
    explicit: Option<Seq<char>>,
    xdg: Option<Seq<char>>,
    home: Option<Seq<char>>,
    macos: bool,
) -> Option<Seq<char>> {
    if explicit matches Some(path) && path.len() > 0 {
        explicit
    } else if xdg matches Some(path) && path.len() > 0 {
        Some(below(xdg->0, "command-governor"@))
    } else if home matches Some(path) && path.len() > 0 {
        let data = if macos {
            below(below(home->0, "Library"@), "Application Support"@)
        } else {
            below(below(home->0, ".local"@), "state"@)
        };
        Some(below(data, "command-governor"@))
    } else {
        None
    }
}

/// The view of an optional text.
pub open spec fn text_in(text: Option<&str>) -> Option<Seq<char>> {
    match text {
        Some(inner) => Some(inner@),
        None => None,
    }
}

impl StateRoot {
    /// Names a state root without touching the filesystem.
    pub fn new(root: &str) -> (r: StateRoot)
        ensures
            r.root@ == root@,
    {
        StateRoot { root: root.to_owned() }
    }

    /// The default per-user location: an explicit root wins, then the state home, then the platform's
    /// own place below the home directory; nothing where none of them is set.
    pub fn default_location(explicit: Option<&str>, xdg: Option<&str>, home: Option<&str>, macos: bool) -> (r:
        Option<StateRoot>)
        ensures
            match r {
                Some(found) => default_root(text_in(explicit), text_in(xdg), text_in(home), macos)
                    == Some(found.root@),
                None => default_root(text_in(explicit), text_in(xdg), text_in(home), macos) is None,
            },
    {
        if let Some(path) = explicit {
            if !path.is_empty() {
                return Some(StateRoot::new(path));
            }
        }
        if let Some(path) = xdg {
            if !path.is_empty() {
                return Some(StateRoot { root: join(path, "command-governor") });
            }
        }
        if let Some(path) = home {
            if !path.is_empty() {
                let data = if macos {
                    let library = join(path, "Library");
                    join(library.as_str(), "Application Support")
                } else {
                    let local = join(path, ".local");
                    join(local.as_str(), "state")
                };
                return Some(StateRoot { root: join(data.as_str(), "command-governor") });
            }
        }
        None
    }

    /// The root directory.
    pub fn path(&self) -> (r: &str)
        ensures
            r@ == self.root@,
    {
        self.root.as_str()
    }

    /// Where the durable authority lives.
    pub fn database_path(&self) -> (r: String)
        ensures
            r@ == below(self.root@, DATABASE_FILE@),
    {
        join(self.root.as_str(), DATABASE_FILE)
    }

    /// Where the single-daemon instance lock lives.
    pub fn lock_path(&self) -> (r: String)
        ensures
            r@ == below(self.root@, LOCK_FILE@),
    {
        join(self.root.as_str(), LOCK_FILE)
    }

    /// Where published artifacts live.
    pub fn artifact_root(&self) -> (r: String)
        ensures
            r@ == below(self.root@, ARTIFACTS_DIR@),
    {
        join(self.root.as_str(), ARTIFACTS_DIR)
    }

    /// Where the control socket lives.
    pub fn ipc_root(&self) -> (r: String)
        ensures
            r@ == below(self.root@, IPC_DIR@),
    {
        join(self.root.as_str(), IPC_DIR)
    }

    /// The control socket itself.
    pub fn socket_path(&self) -> (r: String)
        ensures
            r@ == below(below(self.root@, IPC_DIR@), SOCKET_FILE@),
    {
        let ipc = self.ipc_root();
        join(ipc.as_str(), SOCKET_FILE)
    }

    /// The database and the sidecars SQLite may have created beside it. The caller checks each for
    /// existence.
    pub fn database_files(&self) -> (r: Vec<String>)
        ensures
            r@.len() == 3,
            r@[0]@ == below(self.root@, DATABASE_FILE@),
            r@[1]@ == below(self.root@, DATABASE_FILE@) + "-wal"@,
            r@[2]@ == below(self.root@, DATABASE_FILE@) + "-shm"@,
    {
        let database = self.database_path();
        let mut out: Vec<String> = Vec::new();
        let wal = join2(database.as_str(), "-wal");
        let shm = join2(database.as_str(), "-shm");
        out.push(database);
        out.push(wal);
        out.push(shm);
        out
    }

    /// Where safe diagnostics are written.
    pub fn log_root(&self) -> (r: String)
        ensures
            r@ == below(self.root@, LOGS_DIR@),
    {
        join(self.root.as_str(), LOGS_DIR)
    }

    /// The directory backing one path class.
    pub open spec fn directory_of(self, class: PathClass) -> Seq<char> {
        match class {
            PathClass::StateRoot => self.root@,
            PathClass::Artifacts => below(self.root@, ARTIFACTS_DIR@),
            PathClass::Ipc => below(self.root@, IPC_DIR@),
            PathClass::Logs => below(self.root@, LOGS_DIR@),
        }
    }

    /// The directory backing one path class.
    pub fn directory(&self, class: PathClass) -> (r: String)
        ensures
            r@ == self.directory_of(class),
    {
        match class {
            PathClass::StateRoot => self.root.clone(),
            PathClass::Artifacts => self.artifact_root(),
            PathClass::Ipc => self.ipc_root(),
            PathClass::Logs => self.log_root(),
        }
    }
}

// --- The audit -------------------------------------------------------------------------------------------

/// What a look at a path found, without following a link.
#[derive(Debug, Clone, Copy, PartialEq, Eq, Structural)]
pub enum PathFacts {
    /// There is nothing.
    Missing,
    /// There is something whose metadata cannot be read.
    Unreadable,
    /// There is something.
    Found {
        /// Whether it is a symbolic link.
        symlink: bool,
        /// Whether it is a directory.
        directory: bool,
        /// Who owns it.
        uid: u32,
        /// Its mode bits.
        mode: u32,
    },
}

/// Whether mode bits grant nothing to group or other: the six lowest are clear.
pub open spec fn owner_only(mode: u32) -> bool {
    mode % 64 == 0
}

fn is_owner_only(mode: u32) -> (r: bool)
    ensures
        r == owner_only(mode),
{
    assert(mode & 0o077u32 == mode % 64) by (bit_vector);
    mode & 0o077 == 0
}

/// The first thing wrong with a path that is due to be a directory, or a file.
pub open spec fn path_defect(facts: PathFacts, owner_uid: u32, as_directory: bool) -> Result<
    (),
    PathDefect,
> {
    match facts {
        PathFacts::Missing => Err(PathDefect::Uncreatable),
        PathFacts::Unreadable => Err(PathDefect::Unreadable),
        PathFacts::Found { symlink, directory, uid, mode } => {
            if symlink {
                Err(PathDefect::Symlink)
            } else if directory != as_directory {
                Err(PathDefect::NotADirectory)
            } else if uid != owner_uid {
                Err(PathDefect::ForeignOwner)
            } else if !owner_only(mode) {
                Err(PathDefect::GroupOrOtherAccessible)
            } else {
                Ok(())
            }
        },
    }
}

fn audit_path(facts: PathFacts, owner_uid: u32, as_directory: bool) -> (r: Result<(), PathDefect>)
    ensures
        r == path_defect(facts, owner_uid, as_directory),
{
    match facts {
        PathFacts::Missing => Err(PathDefect::Uncreatable),
        PathFacts::Unreadable => Err(PathDefect::Unreadable),
        PathFacts::Found { symlink, directory, uid, mode } => {
            if symlink {
                Err(PathDefect::Symlink)
            } else if directory != as_directory {
                Err(PathDefect::NotADirectory)
            } else if uid != owner_uid {
                Err(PathDefect::ForeignOwner)
            } else if !is_owner_only(mode) {
                Err(PathDefect::GroupOrOtherAccessible)
            } else {
                Ok(())
            }
        },
    }
}

/// Checks one directory's type, ownership and mode. There is no partial pass.
pub fn audit_dir(facts: PathFacts, owner_uid: u32) -> (r: Result<(), PathDefect>)
    ensures
        r == path_defect(facts, owner_uid, true),
{
    audit_path(facts, owner_uid, true)
}

/// Checks one file's type, ownership and mode.
pub fn audit_file(facts: PathFacts, owner_uid: u32) -> (r: Result<(), PathDefect>)
    ensures
        r == path_defect(facts, owner_uid, false),
{
    audit_path(facts, owner_uid, false)
}

/// What a look at each directory of a state root found.
#[derive(Debug, Clone, Copy, PartialEq, Eq, Structural)]
pub struct LayoutFacts {
    pub state_root: PathFacts,
    pub artifacts: PathFacts,
    pub ipc: PathFacts,
    pub logs: PathFacts,
}

impl LayoutFacts {
    /// What was found of one class.
    pub open spec fn found(self, class: PathClass) -> PathFacts {
        match class {
            PathClass::StateRoot => self.state_root,
            PathClass::Artifacts => self.artifacts,
            PathClass::Ipc => self.ipc,
            PathClass::Logs => self.logs,
        }
    }

    /// What was found of one class.
    pub fn of(&self, class: PathClass) -> (r: PathFacts)
        ensures
            r == self.found(class),
    {
        match class {
            PathClass::StateRoot => self.state_root,
            PathClass::Artifacts => self.artifacts,
            PathClass::Ipc => self.ipc,
            PathClass::Logs => self.logs,
        }
    }
}

/// One directory's audit outcome.
#[derive(Debug, Clone, Copy, PartialEq, Eq, Structural)]
pub struct DirectoryAudit {
    /// Which directory.
    pub class: PathClass,
    /// What is wrong with it, if anything.
    pub defect: Option<PathDefect>,
}

/// The audit outcome of one directory.
pub open spec fn outcome_of(facts: LayoutFacts, owner_uid: u32, class: PathClass) -> DirectoryAudit {
    DirectoryAudit {
        class,
        defect: match path_defect(facts.found(class), owner_uid, true) {
            Ok(_) => None,
            Err(defect) => Some(defect),
        },
    }
}

/// Audits every directory the daemon depends on, without creating any.
pub fn audit(facts: &LayoutFacts, owner_uid: u32) -> (r: Vec<DirectoryAudit>)
    ensures
        r@ == Seq::new(
            PathClass::in_order().len(),
            |i: int| outcome_of(*facts, owner_uid, PathClass::in_order()[i]),
        ),
{
    let classes = PathClass::all();
    let mut out: Vec<DirectoryAudit> = Vec::new();
    let mut i: usize = 0;
    while i < classes.len()
        invariant
            classes@ == PathClass::in_order(),
            i <= classes@.len(),
            out@.len() == i,
            forall|k: int|
                0 <= k < i ==> #[trigger] out@[k] == outcome_of(*facts, owner_uid, classes@[k]),
        decreases classes@.len() - i,
    {
        let class = classes[i];
        let defect = match audit_dir(facts.of(class), owner_uid) {
            Ok(_) => None,
            Err(defect) => Some(defect),
        };
        out.push(DirectoryAudit { class, defect });
        i = i + 1;
    }
    assert(out@ =~= Seq::new(
        PathClass::in_order().len(),
        |k: int| outcome_of(*facts, owner_uid, PathClass::in_order()[k]),
    ));
    out
}

// --- Laws ------------------------------------------------------------------------------------------------

/// Whether a path lies inside a directory: what the directory's path begins, followed by a separator
/// where the directory's own path does not end in one.
pub open spec fn inside(directory: Seq<char>, path: Seq<char>) -> bool {
    exists|rest: Seq<char>|
        rest.len() > 0 && rest[0] != '/' && path == #[trigger] below(directory, rest)
}

/// Every path of a state root lies inside it.
pub proof fn every_path_lies_inside_the_root(root: StateRoot)
    ensures
        inside(root.root@, below(root.root@, DATABASE_FILE@)),
        inside(root.root@, below(root.root@, LOCK_FILE@)),
        inside(root.root@, below(root.root@, ARTIFACTS_DIR@)),
        inside(root.root@, below(root.root@, IPC_DIR@)),
        inside(root.root@, below(below(root.root@, IPC_DIR@), SOCKET_FILE@)),
        inside(root.root@, below(root.root@, LOGS_DIR@)),
{
    reveal_strlit("governor.sqlite3");
    reveal_strlit("daemon.lock");
    reveal_strlit("artifacts");
    reveal_strlit("ipc");
    reveal_strlit("logs");
    reveal_strlit("d.sock");
    reveal_strlit("/");
    let socket = IPC_DIR@ + "/"@ + SOCKET_FILE@;
    assert(below(root.root@, IPC_DIR@).last() == 'c');
    assert(below(below(root.root@, IPC_DIR@), SOCKET_FILE@) =~= below(root.root@, socket));
}

/// A path that passes the audit is no link, is what it is due to be, belongs to the owner, and
/// grants nothing to anybody else.
pub proof fn a_passed_audit_is_owner_only(facts: PathFacts, owner_uid: u32, as_directory: bool)
    requires
        path_defect(facts, owner_uid, as_directory) is Ok,
    ensures
        facts matches PathFacts::Found { symlink, directory, uid, mode } && !symlink && directory
            == as_directory && uid == owner_uid && owner_only(mode),
{
}

} // verus!
