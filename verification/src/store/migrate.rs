//! Explicit, deterministic, checksummed migrations.
//!
//! Each migration is numbered SQL, recorded with the SHA-256 of the exact bytes that were applied.
//! On every open the recorded checksums are compared with the ones carried here, and a disagreement
//! fails closed. The epoch is read before anything else: a database that is too new is refused
//! untouched.
use vstd::prelude::*;
use vstd::string::StringSliceAdditionalSpecFns;
use crate::digest::{hex_text, sha256, sha256_of};
use crate::domain::fence::Timestamp;
use crate::domain::id::{canonical_text, id_text, uuid_parse, uuid_value, Id};
use crate::store::codec::{hex32, parse_u32, text_view, u32_column};
use crate::store::error::{
    chain, collected, collected_one_more, corrupt, corrupt_row, CorruptReason, StoreError,
};
use crate::store::meta::{epoch_recorded, schema_epoch};
use crate::text::{a_written_number_reads_back, nat_string, nat_text, same};

verus! {

/// Highest schema epoch implemented here.
pub const SUPPORTED_SCHEMA_EPOCH: u32 = 2;

/// One numbered migration.
#[derive(Debug, Clone, Copy, PartialEq, Eq)]
pub struct Migration {
    pub version: u32,
    pub name: &'static str,
    /// Epoch the database is at once this migration has been applied.
    pub epoch: u32,
    pub sql: &'static str,
}

impl Migration {
    /// The checksum of a migration: the SHA-256 of its exact bytes, in hexadecimal.
    pub open spec fn sum(self) -> Seq<char> {
        hex_text(sha256_of(self.sql.spec_bytes()))
    }

    /// The checksum of a migration.
    pub fn checksum(&self) -> (r: String)
        ensures
            r@ == self.sum(),
    {
        let digest = sha256(self.sql.as_bytes());
        hex32(&digest)
    }
}

/// The migrations, in order, with the SQL of each.
pub fn migrations(initial: &'static str, session_lineage_and_loadouts: &'static str) -> (r: Vec<Migration>)
    ensures
        r@ == seq![
            Migration { version: 1, name: "initial", epoch: 1, sql: initial },
            Migration {
                version: 2,
                name: "session_lineage_and_loadouts",
                epoch: 2,
                sql: session_lineage_and_loadouts,
            },
        ],
{
    let mut out: Vec<Migration> = Vec::new();
    out.push(Migration { version: 1, name: "initial", epoch: 1, sql: initial });
    out.push(
        Migration {
            version: 2,
            name: "session_lineage_and_loadouts",
            epoch: 2,
            sql: session_lineage_and_loadouts,
        },
    );
    assert(out@ =~= seq![
        Migration { version: 1, name: "initial", epoch: 1, sql: initial },
        Migration {
            version: 2,
            name: "session_lineage_and_loadouts",
            epoch: 2,
            sql: session_lineage_and_loadouts,
        },
    ]);
    out
}

/// What opening the store did to the schema.
#[derive(Debug, Clone, PartialEq, Eq)]
pub struct MigrationReport {
    /// Versions applied during this open, in order.
    pub applied: Vec<u32>,
    /// Versions that were already applied and whose checksums verified.
    pub verified: Vec<u32>,
    /// Schema epoch after this open.
    pub epoch: u32,
    /// Opaque identity of this database file.
    pub database_instance_id: Id,
}

/// Whether a database may be touched: a recorded epoch beyond the supported one is refused.
pub open spec fn epoch_gate_of(schema_exists: bool, epoch: Option<Seq<char>>) -> Result<(), StoreError> {
    if !schema_exists {
        Ok(())
    } else {
        chain(
            epoch_recorded(epoch),
            |recorded: Option<u32>|
                match recorded {
                    Some(found) => if found > SUPPORTED_SCHEMA_EPOCH {
                        Err(
                            StoreError::SchemaEpochTooNew {
                                found,
                                supported: SUPPORTED_SCHEMA_EPOCH,
                            },
                        )
                    } else {
                        Ok(())
                    },
                    None => Ok(()),
                },
        )
    }
}

/// Gates on the recorded epoch, before anything else is read.
pub fn epoch_gate(schema_exists: bool, epoch: &Option<String>) -> (r: Result<(), StoreError>)
    ensures
        r == epoch_gate_of(schema_exists, text_view(*epoch)),
{
    if !schema_exists {
        return Ok(());
    }
    match schema_epoch(epoch)? {
        Some(found) => {
            if found > SUPPORTED_SCHEMA_EPOCH {
                Err(StoreError::SchemaEpochTooNew { found, supported: SUPPORTED_SCHEMA_EPOCH })
            } else {
                Ok(())
            }
        },
        None => Ok(()),
    }
}

/// One `schema_migrations` row, as read.
#[derive(Debug, PartialEq, Eq)]
pub struct AppliedRow {
    pub version: i64,
    pub name: String,
    pub checksum: String,
}

/// The version a row records.
pub open spec fn version_of(row: AppliedRow) -> Result<u32, StoreError> {
    u32_column(row.version, "schema_migrations", "version")
}

/// How a row's version reads.
pub open spec fn version_reader() -> spec_fn(AppliedRow) -> Result<u32, StoreError> {
    |row: AppliedRow| version_of(row)
}

/// The migration of a version, if it is carried.
pub open spec fn carried(migrations: Seq<Migration>, version: u32) -> Option<Migration>
    decreases migrations.len(),
{
    if migrations.len() == 0 {
        None
    } else if migrations[0].version == version {
        Some(migrations[0])
    } else {
        carried(migrations.skip(1), version)
    }
}

/// Finds the migration of a version.
pub fn find_migration(migrations: &Vec<Migration>, version: u32) -> (r: Option<Migration>)
    ensures
        r == carried(migrations@, version),
{
    let mut i: usize = 0;
    assert(migrations@.skip(0) =~= migrations@);
    while i < migrations.len()
        invariant
            i <= migrations@.len(),
            carried(migrations@, version) == carried(migrations@.skip(i as int), version),
        decreases migrations@.len() - i,
    {
        assert(migrations@.skip(i as int)[0] == migrations@[i as int]);
        assert(migrations@.skip(i as int).skip(1) =~= migrations@.skip(i + 1));
        if migrations[i].version == version {
            return Some(migrations[i]);
        }
        i = i + 1;
    }
    None
}

/// Whether an applied migration is the one carried: the same version, and the same checksum.
pub open spec fn agrees(migrations: Seq<Migration>, row: AppliedRow, version: u32) -> bool {
    carried(migrations, version) matches Some(known) && known.sum() == row.checksum@
}

/// Whether a failure is the one an applied migration deserves.
pub open spec fn is_drift(migrations: Seq<Migration>, row: AppliedRow, version: u32, e: StoreError) -> bool {
    match carried(migrations, version) {
        None => e == (StoreError::UnknownAppliedMigration { version }),
        Some(known) => known.sum() != row.checksum@ && (e matches StoreError::MigrationChecksumMismatch {
            version: found,
            name,
        } && found == version && name@ == row.name@),
    }
}

/// Checks the recorded migrations against the carried ones, in order: the versions that verified, or
/// the first that does not. Every version is read before any is compared.
pub fn verify_recorded(rows: &Vec<AppliedRow>, migrations: &Vec<Migration>) -> (r: Result<
    Vec<u32>,
    StoreError,
>)
    ensures
        match collected(rows@, version_reader()) {
            Err(e) => r == Err::<Vec<u32>, StoreError>(e),
            Ok(versions) => match r {
                Ok(verified) => verified@ == versions && forall|i: int|
                    0 <= i < rows@.len() ==> agrees(migrations@, #[trigger] rows@[i], versions[i]),
                Err(e) => exists|i: int|
                    0 <= i < rows@.len() && is_drift(migrations@, #[trigger] rows@[i], versions[i], e)
                        && forall|k: int|
                        0 <= k < i ==> agrees(migrations@, #[trigger] rows@[k], versions[k]),
            },
        },
{
    let mut versions: Vec<u32> = Vec::new();
    let mut i: usize = 0;
    assert(rows@.take(0) =~= Seq::<AppliedRow>::empty());
    while i < rows.len()
        invariant
            i <= rows@.len(),
            versions@.len() == i,
            collected(rows@.take(i as int), version_reader()) == Ok::<Seq<u32>, StoreError>(
                versions@,
            ),
        decreases rows@.len() - i,
    {
        proof {
            collected_one_more(rows@, version_reader(), i as int);
        }
        let version: u32 = parse_u32(rows[i].version, "schema_migrations", "version")?;
        versions.push(version);
        i = i + 1;
    }
    assert(rows@.take(i as int) =~= rows@);
    let mut k: usize = 0;
    while k < rows.len()
        invariant
            k <= rows@.len(),
            versions@.len() == rows@.len(),
            collected(rows@, version_reader()) == Ok::<Seq<u32>, StoreError>(versions@),
            forall|m: int| 0 <= m < k ==> agrees(migrations@, #[trigger] rows@[m], versions@[m]),
        decreases rows@.len() - k,
    {
        let row = &rows[k];
        let version: u32 = versions[k];
        match find_migration(migrations, version) {
            None => {
                let e = StoreError::UnknownAppliedMigration { version };
                assert(is_drift(migrations@, rows@[k as int], versions@[k as int], e));
                return Err(e);
            },
            Some(known) => {
                let sum = known.checksum();
                if !same(sum.as_str(), row.checksum.as_str()) {
                    let e = StoreError::MigrationChecksumMismatch { version, name: row.name.clone() };
                    assert(is_drift(migrations@, rows@[k as int], versions@[k as int], e));
                    return Err(e);
                }
            },
        }
        k = k + 1;
    }
    Ok(versions)
}

/// The migrations that are still to be applied, in order.
pub open spec fn outstanding(migrations: Seq<Migration>, verified: Seq<u32>) -> Seq<Migration> {
    migrations.filter(|m: Migration| !verified.contains(m.version))
}

fn is_verified(verified: &Vec<u32>, version: u32) -> (r: bool)
    ensures
        r == verified@.contains(version),
{
    let mut i: usize = 0;
    while i < verified.len()
        invariant
            i <= verified@.len(),
            forall|k: int| 0 <= k < i ==> verified@[k] != version,
        decreases verified@.len() - i,
    {
        if verified[i] == version {
            return true;
        }
        i = i + 1;
    }
    false
}

/// Lists the migrations that are still to be applied.
pub fn pending(migrations: &Vec<Migration>, verified: &Vec<u32>) -> (r: Vec<Migration>)
    ensures
        r@ == outstanding(migrations@, verified@),
{
    let ghost todo = |m: Migration| !verified@.contains(m.version);
    let mut out: Vec<Migration> = Vec::new();
    let mut i: usize = 0;
    proof {
        reveal(Seq::filter);
    }
    assert(migrations@.take(0) =~= Seq::<Migration>::empty());
    while i < migrations.len()
        invariant
            i <= migrations@.len(),
            todo == (|m: Migration| !verified@.contains(m.version)),
            out@ == migrations@.take(i as int).filter(todo),
        decreases migrations@.len() - i,
    {
        proof {
            reveal(Seq::filter);
            assert(migrations@.take(i + 1).drop_last() =~= migrations@.take(i as int));
            assert(migrations@.take(i + 1).last() == migrations@[i as int]);
        }
        if !is_verified(verified, migrations[i].version) {
            out.push(migrations[i]);
        }
        i = i + 1;
    }
    assert(migrations@.take(i as int) =~= migrations@);
    out
}

/// One `schema_migrations` row, as inserted with the migration it records.
#[derive(Debug, PartialEq, Eq)]
pub struct MigrationRow {
    pub version: i64,
    pub name: &'static str,
    pub checksum: String,
    pub applied_at_ms: i64,
    /// The schema epoch the same transaction records.
    pub epoch: String,
}

/// Builds the row of a migration, written in the same transaction as its schema change.
pub fn migration_row(migration: &Migration, now: Timestamp) -> (r: MigrationRow)
    ensures
        r.version == migration.version,
        r.name == migration.name,
        r.checksum@ == migration.sum(),
        r.applied_at_ms == now,
        r.epoch@ == nat_text(migration.epoch as nat),
{
    MigrationRow {
        version: migration.version as i64,
        name: migration.name,
        checksum: migration.checksum(),
        applied_at_ms: now,
        epoch: nat_string(migration.epoch as u64),
    }
}

/// The epoch a database is at once its migrations are applied.
pub fn final_epoch(epoch: &Option<String>) -> (r: Result<u32, StoreError>)
    ensures
        r == chain(
            epoch_recorded(text_view(*epoch)),
            |recorded: Option<u32>|
                Ok(
                    match recorded {
                        Some(found) => found,
                        None => SUPPORTED_SCHEMA_EPOCH,
                    },
                ),
        ),
{
    match schema_epoch(epoch)? {
        Some(found) => Ok(found),
        None => Ok(SUPPORTED_SCHEMA_EPOCH),
    }
}

/// The identity of a database: the recorded one, and the candidate where none is recorded.
pub open spec fn instance_of(existing: Option<Seq<char>>, candidate: Id) -> Result<Id, StoreError> {
    match existing {
        None => Ok(candidate),
        Some(text) => match uuid_value(text) {
            Some(value) => Ok(Id { value }),
            None => Err(
                corrupt("meta", "database_instance_id", CorruptReason::MalformedIdentity),
            ),
        },
    }
}

/// Decides the identity of a database, and what to record where nothing is recorded yet.
pub fn ensure_instance_id(existing: &Option<String>, candidate: Id) -> (r: Result<
    (Id, Option<String>),
    StoreError,
>)
    ensures
        match r {
            Ok((id, value)) => {
                &&& instance_of(text_view(*existing), candidate) == Ok::<Id, StoreError>(id)
                &&& (value is Some <==> *existing is None)
                &&& value matches Some(text) ==> text@ == canonical_text(candidate.value)
            },
            Err(e) => instance_of(text_view(*existing), candidate) == Err::<Id, StoreError>(e),
        },
{
    match existing {
        None => Ok((candidate, Some(id_text(candidate)))),
        Some(text) => match uuid_parse(text.as_str()) {
            Some(value) => Ok((Id { value }, None)),
            None => Err(
                corrupt_row("meta", "database_instance_id", CorruptReason::MalformedIdentity),
            ),
        },
    }
}

// --- Laws ------------------------------------------------------------------------------------------------

/// A database whose epoch is beyond the supported one is refused, and one at or below it passes.
pub proof fn newer_databases_are_refused(epoch: u32)
    ensures
        epoch > SUPPORTED_SCHEMA_EPOCH ==> epoch_gate_of(true, Some(nat_text(epoch as nat))) == Err::<
            (),
            StoreError,
        >(StoreError::SchemaEpochTooNew { found: epoch, supported: SUPPORTED_SCHEMA_EPOCH }),
        epoch <= SUPPORTED_SCHEMA_EPOCH ==> epoch_gate_of(true, Some(nat_text(epoch as nat))) == Ok::<
            (),
            StoreError,
        >(()),
{
    a_written_number_reads_back(epoch as nat);
}

/// What is outstanding is exactly what was not verified: each carried migration is either verified
/// or outstanding, and none is both.
pub proof fn a_migration_is_applied_once(migrations: Seq<Migration>, verified: Seq<u32>, m: Migration)
    requires
        migrations.contains(m),
    ensures
        outstanding(migrations, verified).contains(m) <==> !verified.contains(m.version),
{
    let todo = |x: Migration| !verified.contains(x.version);
    let kept = migrations.filter(todo);
    let i = choose|i: int| 0 <= i < migrations.len() && migrations[i] == m;
    if todo(m) {
        migrations.lemma_filter_contains(todo, i);
    }
    if kept.contains(m) {
        let k = choose|k: int| 0 <= k < kept.len() && kept[k] == m;
        migrations.lemma_filter_pred(todo, k);
    }
}

} // verus!
