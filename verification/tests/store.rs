use command_governor::digest::{hex_string, push_be, push_frame, same_digest};
use command_governor::domain::conflict::{Conflict, ConflictKind};
use command_governor::domain::effect::{ExternalEffectClass, IdempotencyContract};
use command_governor::domain::fence::SafeToken;
use command_governor::domain::health::{
    HealthConditionKind, HealthConditionState, HealthLedger, HealthScope,
};
use command_governor::domain::id::{id_of_text, id_text, Id};
use command_governor::domain::mutation::SafeMutationResult;
use command_governor::domain::obligation::ObligationState;
use command_governor::domain::session::{
    find_parent, walk_ancestry, whitelist, Ancestry, ParentOf, SessionEdge, SessionRelation,
};
use command_governor::store::codec::{
    decode_effect_class, decode_mutation_result, encode_effect_class, encode_mutation_result, hex32,
    parse_hex32, parse_id, parse_optional_id, parse_source, parse_token, parse_token_bytes,
    parse_u32, parse_u64, rederive_delivery_key, store_u64,
};
use command_governor::store::error::{
    CorruptReason, CorruptValue, PolicyViolation, ProjectionMismatch, RepairNeeded, StoreError,
};
use command_governor::store::event::{
    append, collect, decode_event, highest_seq, work_scope, Appended, EventScope, RawEvent,
};
use command_governor::store::event_kind::EventKind;
use command_governor::store::inspect::{first_look, read_counters, read_only, FirstLook};
use command_governor::store::labels::{
    decode_obligation_state, encode_obligation_state, RetentionLabel,
};
use command_governor::store::load::artifact::{
    committed_artifacts, listed_ids, refresh_retention, stamp_deletion_instant, ArtifactReference,
    ArtifactRow, Retention,
};
use command_governor::store::meta::{
    advance_daemon_epoch, daemon_epoch, last_verified_projection_seq, schema_epoch,
    set_last_verified_projection_seq,
};
use command_governor::store::migrate::{
    ensure_instance_id, epoch_gate, final_epoch, find_migration, migration_row, migrations, pending,
    verify_recorded, AppliedRow, SUPPORTED_SCHEMA_EPOCH,
};
use command_governor::store::open::{verify, PolicyReport, StoreConfig};
use command_governor::store::tx::{reach, Failpoint, FailpointHook};
use command_governor::text::{
    int_string, is_before, nat_string, parse_i64, parse_u32_chars, sorted_set, split_words,
};

fn safe(text: &str) -> bool {
    !text.is_empty()
        && text.len() <= 128
        && text.chars().all(|c| c.is_ascii_alphanumeric() || "-_.:".contains(c))
}

fn token(text: &str) -> SafeToken {
    SafeToken::new(text, &safe).expect("token")
}

fn corrupt(table: &'static str, column: &'static str, reason: CorruptReason) -> StoreError {
    StoreError::Corrupt(CorruptValue::new(table, column, reason))
}

fn id(value: u128) -> Id {
    Id { value }
}

// --- Texts and digests ------------------------------------------------------------------------

#[test]
fn numbers_are_written_and_read_in_decimal() {
    assert_eq!(nat_string(0), "0");
    assert_eq!(nat_string(u64::MAX), "18446744073709551615");
    assert_eq!(int_string(i64::MIN), "-9223372036854775808");
    assert_eq!(parse_i64("-9223372036854775808"), Some(i64::MIN));
    assert_eq!(parse_i64("9223372036854775808"), None);
    assert_eq!(parse_i64("+7"), Some(7));
    assert_eq!(parse_i64("-"), None);
    assert_eq!(parse_i64(""), None);
    assert_eq!(parse_i64(" 7"), None);
    assert_eq!(parse_u32_chars(&"4294967295".chars().collect()), Some(u32::MAX));
    assert_eq!(parse_u32_chars(&"-1".chars().collect()), None);
}

#[test]
fn words_are_split_at_white_space_of_any_kind() {
    let words = split_words(&"  a\tbc\u{2003}d\n".chars().collect());
    let texts: Vec<String> = words.into_iter().map(|word| word.into_iter().collect()).collect();
    assert_eq!(texts, vec!["a", "bc", "d"]);
}

#[test]
fn a_set_of_texts_is_in_dictionary_order() {
    assert!(is_before("a", "ab") && is_before("ab", "b") && !is_before("b", "b"));
    let names = vec!["b".to_owned(), "a".to_owned(), "b".to_owned(), "ab".to_owned()];
    assert_eq!(sorted_set(&names), vec!["a", "ab", "b"]);
}

#[test]
fn bytes_are_framed_without_ambiguity() {
    assert_eq!(hex_string(&[0x00, 0xff, 0x1a]), "00ff1a");
    let mut number = Vec::new();
    push_be(&mut number, 0x0102, 4);
    assert_eq!(number, vec![0, 0, 1, 2]);
    let framed = |fields: &[&[u8]]| {
        let mut out = Vec::new();
        for field in fields {
            push_frame(&mut out, field);
        }
        out
    };
    assert_ne!(framed(&[b"ab", b"c"]), framed(&[b"a", b"bc"]));
    assert!(same_digest(&[3; 32], &[3; 32]) && !same_digest(&[3; 32], &[4; 32]));
}

#[test]
fn an_identity_is_read_in_its_canonical_text_only() {
    let text = id_text(id(0x0123_4567_89ab_cdef_0123_4567_89ab_cdef));
    assert_eq!(text, "01234567-89ab-cdef-0123-456789abcdef");
    assert_eq!(id_of_text(&text), Some(id(0x0123_4567_89ab_cdef_0123_4567_89ab_cdef)));
    assert_eq!(id_of_text(&text.to_uppercase()), None);
    assert_eq!(id_of_text("0123456789abcdef0123456789abcdef"), None);
    assert_eq!(id_of_text("not an identity"), None);
}

// --- Columns ----------------------------------------------------------------------------------

#[test]
fn columns_are_read_or_refused_with_their_place() {
    assert_eq!(parse_id("x", "t", "c"), Err(corrupt("t", "c", CorruptReason::MalformedIdentity)));
    assert_eq!(parse_optional_id(&None, "t", "c"), Ok(None));
    assert_eq!(parse_optional_id(&Some(id_text(id(4))), "t", "c"), Ok(Some(id(4))));
    assert_eq!(
        parse_token("no token", "t", "c", &safe),
        Err(corrupt("t", "c", CorruptReason::UnsafeToken))
    );
    assert_eq!(parse_u64(-1, "t", "c"), Err(corrupt("t", "c", CorruptReason::IntegerOutOfRange)));
    assert_eq!(parse_u32(4_294_967_296, "t", "c"), Err(corrupt("t", "c", CorruptReason::IntegerOutOfRange)));
    assert_eq!(store_u64(u64::MAX, "t", "c"), Err(corrupt("t", "c", CorruptReason::IntegerOutOfRange)));
    assert_eq!(store_u64(7, "t", "c").and_then(|n| parse_u64(n, "t", "c")), Ok(7));
    assert_eq!(
        parse_token_bytes(&vec![1, 2, 3], 4, "t", "c").is_err(),
        true
    );
    assert_eq!(parse_token_bytes(&vec![1, 2, 3], 3, "t", "c"), Ok(vec![1, 2, 3]));
    assert!(parse_source("ns", "ev", "bad fence", &safe).is_err());
    assert_eq!(rederive_delivery_key("ab", "ab"), Ok("ab".to_owned()));
    assert!(rederive_delivery_key("ab", "cd").is_err());
}

#[test]
fn a_digest_column_holds_exactly_sixty_four_digits() {
    let bytes = [0xab; 32];
    let text = hex32(&bytes);
    assert_eq!(text, "ab".repeat(32));
    assert_eq!(parse_hex32(&text, "t", "c"), Ok(bytes));
    for bad in [&text[1..], "zz", &"gg".repeat(32)[..], &format!("+{}", &text[1..])[..]] {
        assert!(parse_hex32(bad, "t", "c").is_err(), "{bad}");
    }
}

#[test]
fn mutation_results_round_trip_through_their_columns() {
    for result in [
        SafeMutationResult::Applied { reference: Some(token("ref-1")) },
        SafeMutationResult::Applied { reference: None },
        SafeMutationResult::AlreadySatisfied,
        SafeMutationResult::Refused { conflict: ConflictKind::StaleClaim },
    ] {
        let stored = encode_mutation_result(&result);
        let conflict = stored.conflict.map(str::to_owned);
        assert_eq!(
            decode_mutation_result(stored.kind, &stored.reference, &conflict, &safe),
            Ok(result)
        );
    }
    assert!(decode_mutation_result("whatever", &None, &None, &safe).is_err());
}

#[test]
fn effect_classes_round_trip_through_their_columns() {
    for class in [
        ExternalEffectClass::Read,
        ExternalEffectClass::NonIdempotentWrite,
        ExternalEffectClass::IdempotentWrite {
            contract: IdempotencyContract::DeduplicatedByKey { window: 60_000 },
            key: token("key-1"),
        },
        ExternalEffectClass::IdempotentWrite {
            contract: IdempotencyContract::ConditionalOnDestinationFence,
            key: token("key-2"),
        },
    ] {
        let stored = encode_effect_class(&class).unwrap();
        let contract = stored.contract.map(str::to_owned);
        assert_eq!(
            decode_effect_class(stored.class, &contract, stored.window_ms, &stored.key, &safe),
            Ok(class)
        );
    }
    assert!(decode_effect_class("idempotent_write", &None, None, &None, &safe).is_err());
    for class in ["read", "non_idempotent_write"] {
        match decode_effect_class(class, &None, Some(5), &None, &safe) {
            Err(StoreError::Corrupt(value)) => {
                assert_eq!((value.column, value.reason), ("effect_class", CorruptReason::UnknownLabel));
            }
            other => panic!("a window without a contract was accepted: {other:?}"),
        }
    }
}

#[test]
fn a_state_label_names_its_state() {
    for state in [
        ObligationState::Created,
        ObligationState::CompletedUnprocessed,
        ObligationState::Superseded,
    ] {
        assert_eq!(decode_obligation_state(encode_obligation_state(state), "obligations"), Ok(state));
    }
    assert!(decode_obligation_state("finished", "obligations").is_err());
}

// --- The ledger -------------------------------------------------------------------------------

fn raw(seq: i64, kind: &str, json: &str) -> RawEvent {
    RawEvent {
        seq,
        kind: kind.to_owned(),
        source_namespace: "ns".to_owned(),
        source_event_id: format!("ev-{seq}"),
        source_event_fence: "1".to_owned(),
        observed_at_ms: 10 + seq,
        project_id: None,
        task_id: Some(id_text(id(1))),
        session_id: None,
        session_incarnation_id: None,
        turn_id: None,
        obligation_id: Some(id_text(id(2))),
        safe_metadata_json: json.to_owned(),
    }
}

#[test]
fn a_ledger_row_decodes_or_names_its_first_fault() {
    let event = decode_event(&raw(3, "worker_started", r#"{"incarnation":4,"x":1}"#), &safe).unwrap();
    assert_eq!(event.seq, 3);
    assert_eq!(event.kind, EventKind::WorkerStarted);
    assert_eq!(event.scope, work_scope(id(1), None, id(2)));
    assert_eq!(event.metadata.u64("incarnation"), Ok(4));
    assert_eq!(event.metadata.len(), 1);
    let fault = |row: RawEvent| decode_event(&row, &safe).unwrap_err();
    assert_eq!(fault(raw(1, "nothing", "{}")), corrupt("events", "kind", CorruptReason::UnknownLabel));
    assert_eq!(fault(raw(-1, "worker_started", "{}")), corrupt("events", "seq", CorruptReason::IntegerOutOfRange));
    assert_eq!(
        fault(raw(1, "worker_started", "{")),
        corrupt("events", "safe_metadata_json", CorruptReason::MalformedMetadata)
    );
    let mut broken = raw(1, "worker_started", "{}");
    broken.turn_id = Some("zz".to_owned());
    assert_eq!(fault(broken), corrupt("events", "turn_id", CorruptReason::MalformedIdentity));
    let mut spaced = raw(1, "worker_started", "{}");
    spaced.source_event_id = "a b".to_owned();
    assert!(matches!(fault(spaced), StoreError::Corrupt(value) if value.reason == CorruptReason::UnsafeToken));
    let both = vec![raw(1, "worker_started", "{}"), raw(2, "nothing", "{}")];
    assert!(collect(&both, &safe).is_err());
    assert_eq!(collect(&vec![raw(1, "task_registered", "{}")], &safe).unwrap().len(), 1);
}

#[test]
fn a_second_append_of_one_source_is_a_duplicate() {
    assert_eq!(append(1, 7), Ok(Appended::Inserted(7)));
    assert_eq!(append(0, 7), Ok(Appended::Duplicate(7)));
    assert!(append(1, -7).is_err());
    assert_eq!(Appended::Duplicate(7).seq(), 7);
    assert!(Appended::Duplicate(7).is_duplicate());
    assert_eq!(highest_seq(None), Ok(None));
    assert_eq!(highest_seq(Some(9)), Ok(Some(9)));
    assert_eq!(EventScope::default().task, None);
}

// --- The meta table and the schema ------------------------------------------------------------

#[test]
fn each_start_advances_the_epoch_by_one() {
    assert_eq!(daemon_epoch(&None), Ok(0));
    assert_eq!(advance_daemon_epoch(&None), Ok((1, "1".to_owned())));
    assert_eq!(advance_daemon_epoch(&Some("41".to_owned())), Ok((42, "42".to_owned())));
    assert!(daemon_epoch(&Some("x".to_owned())).is_err());
    assert!(daemon_epoch(&Some("-1".to_owned())).is_err());
}

#[test]
fn a_recorded_watermark_reads_back() {
    let written = set_last_verified_projection_seq(77).unwrap();
    assert_eq!(last_verified_projection_seq(&Some(written)), Ok(Some(77)));
    assert_eq!(last_verified_projection_seq(&None), Ok(None));
    assert_eq!(schema_epoch(&Some("2".to_owned())), Ok(Some(2)));
    assert_eq!(schema_epoch(&None), Ok(None));
    assert!(schema_epoch(&Some("two".to_owned())).is_err());
}

#[test]
fn a_newer_database_is_refused_before_anything_is_read() {
    assert_eq!(
        epoch_gate(true, &Some("3".to_owned())),
        Err(StoreError::SchemaEpochTooNew { found: 3, supported: SUPPORTED_SCHEMA_EPOCH })
    );
    assert_eq!(epoch_gate(true, &Some("2".to_owned())), Ok(()));
    assert_eq!(epoch_gate(false, &None), Ok(()));
}

#[test]
fn a_migration_is_applied_once_and_its_text_may_not_drift() {
    let all = migrations("CREATE TABLE a;", "CREATE TABLE b;");
    assert_eq!(all.len(), 2);
    // The SHA-256 digest of the empty text.
    assert_eq!(
        migrations("", "")[0].checksum(),
        "e3b0c44298fc1c149afbf4c8996fb92427ae41e4649b934ca495991b7852b855"
    );
    let first = find_migration(&all, 1).unwrap();
    let row = |version: i64, checksum: String| AppliedRow { version, name: "n".to_owned(), checksum };
    let verified = verify_recorded(&vec![row(1, first.checksum())], &all).unwrap();
    assert_eq!(verified, vec![1]);
    let left: Vec<u32> = pending(&all, &verified).iter().map(|m| m.version).collect();
    assert_eq!(left, vec![2]);
    assert!(pending(&all, &vec![1, 2]).is_empty());
    match verify_recorded(&vec![row(1, "00".to_owned())], &all) {
        Err(StoreError::MigrationChecksumMismatch { version, .. }) => assert_eq!(version, 1),
        other => panic!("drift was accepted: {other:?}"),
    }
    assert_eq!(
        verify_recorded(&vec![row(9, "00".to_owned())], &all),
        Err(StoreError::UnknownAppliedMigration { version: 9 })
    );
    let written = migration_row(&first, 5);
    assert_eq!((written.version, written.applied_at_ms), (1, 5));
    assert_eq!(written.checksum, first.checksum());
    assert_eq!(final_epoch(&Some("2".to_owned())), Ok(2));
}

#[test]
fn a_database_keeps_the_identity_it_was_made_with() {
    assert_eq!(ensure_instance_id(&None, id(5)), Ok((id(5), Some(id_text(id(5))))));
    assert_eq!(ensure_instance_id(&Some(id_text(id(4))), id(5)), Ok((id(4), None)));
    assert!(ensure_instance_id(&Some("zz".to_owned()), id(5)).is_err());
}

fn policy() -> PolicyReport {
    PolicyReport {
        foreign_keys: true,
        journal_mode: "wal".to_owned(),
        synchronous: 2,
        busy_timeout_ms: 5_000,
    }
}

#[test]
fn the_connection_policy_is_proven_pragma_by_pragma() {
    let config = StoreConfig::new("db");
    assert_eq!(verify(&policy(), &config), Ok(()));
    let violated = |report: PolicyReport| match verify(&report, &config) {
        Err(StoreError::ConnectionPolicy(violation)) => violation.pragma,
        other => panic!("accepted: {other:?}"),
    };
    assert_eq!(violated(PolicyReport { foreign_keys: false, ..policy() }), "foreign_keys");
    assert_eq!(violated(PolicyReport { journal_mode: "delete".to_owned(), ..policy() }), "journal_mode");
    assert_eq!(violated(PolicyReport { synchronous: 1, ..policy() }), "synchronous");
    assert_eq!(violated(PolicyReport { busy_timeout_ms: 1, ..policy() }), "busy_timeout");
}

#[test]
fn a_newer_database_is_described_and_not_interpreted() {
    match first_look(false, &None).unwrap() {
        FirstLook::Described(found) => assert!(!found.schema_present),
        other => panic!("{other:?}"),
    }
    match first_look(true, &Some("9".to_owned())).unwrap() {
        FirstLook::Described(found) => {
            assert!(found.schema_too_new());
            assert_eq!(found.schema_epoch, Some(9));
            assert!(found.open_obligations.is_empty());
        }
        other => panic!("{other:?}"),
    }
    assert_eq!(first_look(true, &Some("2".to_owned())), Ok(FirstLook::Readable(Some(2))));
    assert_eq!(read_counters(&Some("4".to_owned()), &Some("6".to_owned())), Ok((4, Some(6))));
    let seen = read_only(Some(2), (4, Some(6)), Some(8), Vec::new(), Vec::new(), 3).unwrap();
    assert!(seen.replay_behind() && !seen.schema_too_new());
    let level = read_only(Some(2), (4, Some(8)), Some(8), Vec::new(), Vec::new(), 3).unwrap();
    assert!(!level.replay_behind());
    assert!(read_only(None, (0, None), Some(-1), Vec::new(), Vec::new(), 0).is_err());
}

struct Stop;

impl FailpointHook for Stop {
    fn reached(&self, _op: &'static str, _point: Failpoint) -> Result<(), StoreError> {
        Err(StoreError::WriterGone)
    }
}

#[test]
fn a_failpoint_interrupts_only_where_one_is_installed() {
    assert_eq!(reach::<Stop>(None, "op", Failpoint::BeforeCommit), Ok(()));
    assert_eq!(reach(Some(&Stop), "op", Failpoint::BeforeCommit), Err(StoreError::WriterGone));
}

// --- Failures in words ------------------------------------------------------------------------

#[test]
fn every_failure_has_its_sentence() {
    let refused = StoreError::Conflict(Conflict::UnknownDeliveryId);
    assert_eq!(refused.message("unknown"), "domain conflict: unknown");
    assert_eq!(
        StoreError::SchemaEpochTooNew { found: 3, supported: 2 }.message(""),
        "database schema epoch 3 is newer than the supported epoch 2"
    );
    let drifted = StoreError::MigrationChecksumMismatch { version: 1, name: "initial".to_owned() };
    assert_eq!(
        drifted.message(""),
        "migration 1 (initial) was applied with a different definition"
    );
    assert_eq!(
        StoreError::UnknownAppliedMigration { version: 9 }.message(""),
        "database has migration 9 applied, which this binary does not know"
    );
    assert_eq!(
        corrupt("events", "kind", CorruptReason::UnknownLabel).message(""),
        "corrupt persisted value: events.kind: not a known label for this column"
    );
    assert_eq!(
        StoreError::QuarantineIncomplete { minted: 256 }.message(""),
        "startup quarantine prepared 256 identities and needed more"
    );
    assert_eq!(StoreError::WriterGone.message(""), "store writer actor is not running");
    assert_eq!(StoreError::Sqlite("busy".to_owned()).message(""), "sqlite: busy");
}

#[test]
fn failures_say_where_and_never_what() {
    assert_eq!(
        CorruptValue::new("events", "kind", CorruptReason::UnknownLabel).message(),
        "events.kind: not a known label for this column"
    );
    let violation =
        PolicyViolation { pragma: "synchronous", observed: "1".to_owned(), required: "FULL" };
    assert_eq!(violation.message(), "PRAGMA synchronous is 1, required FULL");
    let mismatch = ProjectionMismatch {
        table: "obligations",
        row: "r".to_owned(),
        column: "state",
        stored: "a".to_owned(),
        replayed: "b".to_owned(),
    };
    assert_eq!(mismatch.message(), "obligations[r].state stored a but ledger replays to b");
    let repair = RepairNeeded { mismatches: vec![mismatch] };
    assert!(repair.message().contains("obligations[r].state"));
    let conflict = StoreError::Conflict(Conflict::UnknownDeliveryId);
    assert_eq!(conflict.conflict_code(), Some("unknown_delivery_id"));
    assert_eq!(conflict.as_conflict(), Some(&Conflict::UnknownDeliveryId));
    assert!(!conflict.is_fail_closed());
    assert!(StoreError::RepairNeeded(repair).is_fail_closed());
    assert!(!StoreError::WriterGone.is_fail_closed());
    assert_eq!(StoreError::WriterGone.conflict_code(), None);
}

// --- Domain values ----------------------------------------------------------------------------

#[test]
fn one_condition_is_open_for_a_kind_and_a_scope() {
    let mut ledger = HealthLedger::new();
    let scope = HealthScope::obligation(id(1));
    let kind = HealthConditionKind::ForemanUnreachable;
    assert!(!ledger.raise(id(10), kind, scope, 1));
    assert!(ledger.raise(id(11), kind, scope, 2), "a second raise is a duplicate");
    assert!(!ledger.raise(id(12), kind, HealthScope::turn(id(1)), 2));
    assert_eq!(ledger.conditions.len(), 2);
    assert!(!ledger.resolve(kind, scope, 3));
    assert!(ledger.resolve(kind, scope, 4), "nothing is open any more");
    assert_eq!(ledger.conditions[0].state, HealthConditionState::Resolved);
    assert_eq!(ledger.conditions[0].resolved_at, Some(3));
    assert!(!ledger.raise(id(13), kind, scope, 5));
    assert_eq!(ledger.open_position(kind, scope), Some(2));
}

#[test]
fn lineage_is_walked_up_to_its_bound() {
    let edge = |child: u128, parent: u128| ParentOf { child: id(child), parent: id(parent) };
    let edges = vec![edge(2, 1), edge(3, 2), edge(4, 3)];
    assert_eq!(find_parent(&edges, id(3)), Some(id(2)));
    assert_eq!(find_parent(&edges, id(1)), None);
    assert_eq!(walk_ancestry(&edges, id(4), id(1), 64), Ancestry { meets_child: true, depth: 3 });
    let apart = walk_ancestry(&edges, id(4), id(9), 64);
    assert!(!apart.meets_child);
    assert_eq!(apart.depth, 3);
    let bounded = walk_ancestry(&edges, id(4), id(9), 2);
    assert!(bounded.depth <= 3 && !bounded.meets_child);
    let relation = SessionRelation { label: "spawned" };
    assert_eq!(SessionEdge::new(id(1), id(1), id(5), relation), None);
    assert!(SessionEdge::new(id(1), id(2), id(5), relation).is_some());
}

#[test]
fn a_whitelist_is_a_set_in_order() {
    let names = vec![token("read"), token("edit"), token("read")];
    assert_eq!(whitelist(&names), vec![token("edit"), token("read")]);
}

// --- Artifacts --------------------------------------------------------------------------------

#[test]
fn an_artifact_is_kept_while_open_work_needs_it() {
    let needs = |closed| ArtifactReference { result_artifact: Some(id(1)), closed };
    let kept = refresh_retention(id(1), &vec![needs(false), needs(true)], None);
    assert_eq!(kept.state, RetentionLabel::Pinned);
    let free = refresh_retention(id(1), &vec![needs(true)], Some(5));
    assert_eq!(free.state, RetentionLabel::Eligible);
    let stamped = stamp_deletion_instant(
        Retention { state: free.state, eligible_for_delete_at: None },
        9,
    );
    assert_eq!(stamp_deletion_instant(stamped, 11), stamped, "the first instant stands");
}

#[test]
fn committed_artifacts_are_all_read_or_none_is() {
    let row = |hex: &str| ArtifactRow {
        storage_ref: "ra-1".to_owned(),
        sha256_hex: hex.to_owned(),
        byte_len: 3,
        created_at_ms: 4,
    };
    let good = committed_artifacts(&vec![(id(1), Some(row(&"00".repeat(32))))], &safe).unwrap();
    assert_eq!(good[0].byte_len, 3);
    assert_eq!(good[0].digest, [0; 32]);
    assert!(committed_artifacts(
        &vec![(id(1), Some(row(&"00".repeat(32)))), (id(2), Some(row("00")))],
        &safe
    )
    .is_err());
    assert!(committed_artifacts(&vec![(id(1), None)], &safe).is_err());
    assert_eq!(listed_ids(&vec![id_text(id(3))], "t", "c"), Ok(vec![id(3)]));
    assert!(listed_ids(&vec!["zz".to_owned()], "t", "c").is_err());
}
