//! What sessions, their loadouts and their lineage promise.
//!
//! Each law speaks of one operation by what its caller handed in and what comes out: the event that is
//! appended, the rows that are written, what reading them gives back, and who is let through.
use vstd::prelude::*;
use crate::digest::hex_text;
use crate::domain::conflict::Conflict;
use crate::domain::effect::EffectClassView;
use crate::domain::fence::{EventSeq, Timestamp};
use crate::domain::id::{
    canonical_text, canonical_text_injective, canonical_text_round_trips, EventId, Id,
};
use crate::domain::session::{
    texts, Ancestry, ConfigView, LoadoutDigest, SessionEdge, SessionRelation, SnapshotView,
    WhitelistDigest,
};
use crate::store::codec::text_view;
use crate::store::error::StoreError;
use crate::store::event::{Appended, EventView};
use crate::store::event_kind::EventKind;
use crate::store::grammar::MetaValue;
use crate::store::load::loadout::a_digest_reads_back;
use crate::store::ops::effect::IntentView;
use crate::store::ops::session::{
    binding_of, bound_of, config_of, edge_of, edge_row, incarnation_ownership, same_edge,
    AuthorizeWorkerSpawn, BindSessionLoadout, BindingRow, BoundSessionLoadout, ConfigRow,
    LoadoutRowView, ManagedConfigView, RecordManagedConfig, RecordSessionLineage,
    ResolveWorkerLoadout, ResolveWorkerLoadoutRequest, ResolvedLoadout, SessionLoadoutView,
    SpawnFacts, StoredEdge, WhitelistView, MAX_LINEAGE_DEPTH,
};
use crate::store::ops::work_laws::says;
use crate::text::{a_dictionary_exists, dictionary_is, in_order, same_texts};

verus! {

/// Whether an event records a snapshot or a session fact at an instant: it is filed under a session and
/// an incarnation where those are named, and under no work.
pub open spec fn records_session(
    event: EventView,
    id: EventId,
    kind: EventKind,
    at: Timestamp,
    session: Option<Id>,
    incarnation: Option<Id>,
) -> bool {
    &&& event.event_id == id
    &&& event.kind == kind
    &&& event.observed_at == at
    &&& event.occurred_at is None
    &&& event.scope.session == session
    &&& event.scope.incarnation == incarnation
    &&& event.scope.project is None
    &&& event.scope.task is None
    &&& event.scope.turn is None
    &&& event.scope.obligation is None
}

/// Whether an event says which identity stands under a key.
pub open spec fn says_id(event: EventView, key: Seq<char>, id: Id) -> bool {
    says(event, key, MetaValue::Text(canonical_text(id.value)))
}

/// Whether an event says which digest was recorded.
pub open spec fn says_digest(event: EventView, digest: Seq<u8>) -> bool {
    says(event, "digest"@, MetaValue::Text(hex_text(digest)))
}

// --- The managed configuration ---------------------------------------------------------------------------

/// A managed configuration is recorded with the identity it was given, the digest of the durable bytes
/// and the epoch that was asked for.
pub proof fn a_configuration_is_recorded_as_it_is(op: RecordManagedConfig, safe: spec_fn(Seq<char>) -> bool)
    ensures
        op.recorded_event(safe) matches Ok(event) ==> {
            &&& records_session(event, op.event, EventKind::ManagedConfigRecorded, op.now, None, None)
            &&& says_id(event, "managed_config"@, op.artifact)
            &&& says_digest(event, op.request.artifact.parts().1@)
            &&& says(
                event,
                "hook_contract_epoch"@,
                MetaValue::Int(op.request.hook_contract_epoch as int),
            )
        },
{
    if let Ok(event) = op.recorded_event(safe) {
        assert(event.metadata[0].0 == "managed_config"@);
        assert(event.metadata[1].0 == "digest"@);
        assert(event.metadata[2].0 == "hook_contract_epoch"@);
    }
}

/// Two recordings are one fact exactly where they are of one stored object: a second upload is never
/// taken for another one.
pub proof fn configurations_are_told_apart_by_their_object(
    one: RecordManagedConfig,
    other: RecordManagedConfig,
    safe: spec_fn(Seq<char>) -> bool,
)
    ensures
        one.recorded_event(safe) matches Ok(a) ==> (other.recorded_event(safe) matches Ok(b) ==> (a.source
            == b.source <==> one.request.artifact.parts().0@ == other.request.artifact.parts().0@)),
{
}

/// Whether a read row holds a configuration that was written.
pub open spec fn config_stored_as(row: ConfigRow, written: ManagedConfigView) -> bool {
    &&& row.managed_config_artifact_id@ == canonical_text(written.managed_config_artifact_id.value)
    &&& row.digest_hex@ == written.sha256_hex
    &&& row.byte_len == written.byte_len
}

/// A recorded configuration reads back: a repeat answers with the first one's identity, digest and
/// length, writes nothing, and says it is a repeat. The first one answers with its own and says so.
pub proof fn a_recorded_configuration_reads_back(
    first: RecordManagedConfig,
    again: RecordManagedConfig,
    seq: EventSeq,
    later: EventSeq,
    written: ManagedConfigView,
    reference: ConfigView,
    duplicate: bool,
    row: ConfigRow,
)
    requires
        first.committed(Appended::Inserted(seq), None) == Ok::<
            (Option<ManagedConfigView>, ConfigView, bool),
            StoreError,
        >((Some(written), reference, duplicate)),
        config_stored_as(row, written),
    ensures
        reference == (
            first.artifact,
            first.request.artifact.parts().1@,
            first.request.artifact.parts().2,
        ),
        !duplicate,
        written.storage_ref == first.request.artifact.parts().0@,
        written.media_type == first.request.artifact.parts().3@,
        written.hook_contract_epoch == first.request.hook_contract_epoch,
        written.created_at_ms == first.now,
        written.created_event_seq == seq,
        again.committed(Appended::Duplicate(later), Some(row)) == Ok::<
            (Option<ManagedConfigView>, ConfigView, bool),
            StoreError,
        >((None, reference, true)),
        again.committed(Appended::Duplicate(later), None) is Err,
{
    canonical_text_round_trips(first.artifact);
    a_digest_reads_back(
        first.request.artifact.parts().1@,
        "managed_config_artifacts",
        "sha256_hex",
    );
}

// --- The loadout -----------------------------------------------------------------------------------------

/// A loadout resolves to exactly what was requested: its kinds, policies, configuration and epoch are
/// the request's own, its two whitelists hold the requested names and no others, once each and in
/// order, and their digests and the loadout's are taken of just that.
pub proof fn a_loadout_resolves_to_what_was_requested(
    op: ResolveWorkerLoadout,
    request: ResolveWorkerLoadoutRequest,
    profile_model: WhitelistDigest,
    policy_model: WhitelistDigest,
    loadout_model: LoadoutDigest,
)
    requires
        op.resolves(request, profile_model, policy_model, loadout_model),
    ensures
        op.spec_of@.id == request.loadout,
        op.spec_of@.worker_kind == request.worker_kind@,
        op.spec_of@.runtime_kind == request.runtime_kind@,
        op.spec_of@.role == request.role@,
        op.spec_of@.model_policy == request.model_policy@,
        op.spec_of@.managed_config == request.managed_config@,
        op.spec_of@.hook_contract_epoch == request.hook_contract_epoch,
        op.spec_of@.resume_policy == request.resume_policy,
        op.spec_of@.capability_profile.0 == request.capability_profile,
        op.spec_of@.capability_profile.1 == profile_model(
            request.capability_profile,
            texts(op.capabilities@),
        ),
        op.spec_of@.delegation_policy.0 == request.delegation_policy,
        op.spec_of@.delegation_policy.1 == policy_model(
            request.delegation_policy,
            texts(op.delegated_roles@),
        ),
        in_order(texts(op.capabilities@)),
        in_order(texts(op.delegated_roles@)),
        same_texts(texts(op.capabilities@), texts(request.capabilities@)),
        same_texts(texts(op.delegated_roles@), texts(request.delegated_roles@)),
        op.digest@ == loadout_model(op.spec_of@),
{
    a_dictionary_exists(texts(request.capabilities@));
    a_dictionary_exists(texts(request.delegated_roles@));
}

/// The order and the repetition of the requested names do not matter: requests that differ in nothing
/// else resolve to the same loadout, under the same digest.
pub proof fn a_loadout_is_of_its_names_whatever_their_order(
    one: ResolveWorkerLoadout,
    other: ResolveWorkerLoadout,
    request: ResolveWorkerLoadoutRequest,
    reordered: ResolveWorkerLoadoutRequest,
    profile_model: WhitelistDigest,
    policy_model: WhitelistDigest,
    loadout_model: LoadoutDigest,
)
    requires
        one.resolves(request, profile_model, policy_model, loadout_model),
        other.resolves(reordered, profile_model, policy_model, loadout_model),
        same_texts(texts(request.capabilities@), texts(reordered.capabilities@)),
        same_texts(texts(request.delegated_roles@), texts(reordered.delegated_roles@)),
        request.loadout == reordered.loadout,
        request.worker_kind@ == reordered.worker_kind@,
        request.runtime_kind@ == reordered.runtime_kind@,
        request.role@ == reordered.role@,
        request.model_policy@ == reordered.model_policy@,
        request.capability_profile == reordered.capability_profile,
        request.delegation_policy == reordered.delegation_policy,
        request.managed_config@ == reordered.managed_config@,
        request.hook_contract_epoch == reordered.hook_contract_epoch,
        request.resume_policy == reordered.resume_policy,
    ensures
        one.spec_of@ == other.spec_of@,
        one.digest@ == other.digest@,
        texts(one.capabilities@) == texts(other.capabilities@),
        texts(one.delegated_roles@) == texts(other.delegated_roles@),
{
    a_dictionary_exists(texts(reordered.capabilities@));
    a_dictionary_exists(texts(reordered.delegated_roles@));
    let capabilities = texts(other.capabilities@);
    let roles = texts(other.delegated_roles@);
    assert(same_texts(capabilities, texts(request.capabilities@))) by {
        assert forall|name: Seq<char>| #[trigger] capabilities.contains(name) <==> texts(
            request.capabilities@,
        ).contains(name) by {
            assert(texts(request.capabilities@).contains(name) <==> texts(
                reordered.capabilities@,
            ).contains(name));
        }
    }
    assert(same_texts(roles, texts(request.delegated_roles@))) by {
        assert forall|name: Seq<char>| #[trigger] roles.contains(name) <==> texts(
            request.delegated_roles@,
        ).contains(name) by {
            assert(texts(request.delegated_roles@).contains(name) <==> texts(
                reordered.delegated_roles@,
            ).contains(name));
        }
    }
    dictionary_is(texts(request.capabilities@), capabilities);
    dictionary_is(texts(request.delegated_roles@), roles);
}

/// The four snapshots of a loadout are recorded each under its own kind and event, with its identity and
/// its digest; the whitelists with how many names they hold, and the loadout with what it is made of.
pub proof fn a_loadouts_snapshots_are_recorded(op: ResolveWorkerLoadout, safe: spec_fn(Seq<char>) -> bool)
    ensures
        op.profile_event(safe) matches Ok(event) ==> {
            &&& records_session(
                event,
                op.events@[0],
                EventKind::CapabilityProfileRecorded,
                op.now,
                None,
                None,
            )
            &&& says_id(event, "capability_profile"@, op.spec_of.capability_profile.id)
            &&& says_digest(event, op.spec_of.capability_profile.digest@)
        },
        op.policy_event(safe) matches Ok(event) ==> {
            &&& records_session(
                event,
                op.events@[1],
                EventKind::DelegationPolicyRecorded,
                op.now,
                None,
                None,
            )
            &&& says_id(event, "delegation_policy"@, op.spec_of.delegation_policy.id)
            &&& says_digest(event, op.spec_of.delegation_policy.digest@)
        },
        op.model_event(safe) matches Ok(event) ==> {
            &&& records_session(event, op.events@[2], EventKind::ModelPolicyRecorded, op.now, None, None)
            &&& says_id(event, "model_policy"@, op.spec_of.model_policy.id)
            &&& says_digest(event, op.spec_of.model_policy.digest@)
        },
        op.resolved_event(safe) matches Ok(event) ==> {
            &&& records_session(event, op.events@[3], EventKind::WorkerLoadoutResolved, op.now, None, None)
            &&& says_id(event, "loadout_id"@, op.spec_of.id)
            &&& says_digest(event, op.digest@)
            &&& says_id(event, "capability_profile"@, op.spec_of.capability_profile.id)
            &&& says_id(event, "delegation_policy"@, op.spec_of.delegation_policy.id)
            &&& says_id(event, "model_policy"@, op.spec_of.model_policy.id)
            &&& says_id(event, "managed_config"@, op.spec_of.managed_config.id)
        },
{
    if let Ok(event) = op.profile_event(safe) {
        assert(event.metadata[0].0 == "capability_profile"@);
        assert(event.metadata[1].0 == "digest"@);
    }
    if let Ok(event) = op.policy_event(safe) {
        assert(event.metadata[0].0 == "delegation_policy"@);
        assert(event.metadata[1].0 == "digest"@);
    }
    if let Ok(event) = op.model_event(safe) {
        assert(event.metadata[0].0 == "model_policy"@);
        assert(event.metadata[1].0 == "digest"@);
    }
    if let Ok(event) = op.resolved_event(safe) {
        assert(event.metadata[0].0 == "loadout_id"@);
        assert(event.metadata[1].0 == "digest"@);
        assert(event.metadata[2].0 == "capability_profile"@);
        assert(event.metadata[3].0 == "delegation_policy"@);
        assert(event.metadata[4].0 == "model_policy"@);
        assert(event.metadata[5].0 == "managed_config"@);
    }
}

/// A whitelist event counts the names it records.
pub proof fn a_whitelist_is_counted(op: ResolveWorkerLoadout, safe: spec_fn(Seq<char>) -> bool)
    requires
        op.capabilities@.len() <= i64::MAX,
        op.delegated_roles@.len() <= i64::MAX,
    ensures
        op.profile_event(safe) matches Ok(event) ==> says(
            event,
            "entry_count"@,
            MetaValue::Int(op.capabilities@.len() as int),
        ),
        op.policy_event(safe) matches Ok(event) ==> says(
            event,
            "entry_count"@,
            MetaValue::Int(op.delegated_roles@.len() as int),
        ),
{
    if let Ok(event) = op.profile_event(safe) {
        assert(event.metadata[2].0 == "entry_count"@);
    }
    if let Ok(event) = op.policy_event(safe) {
        assert(event.metadata[2].0 == "entry_count"@);
    }
}

/// Two loadouts' snapshots are one fact only where they are one snapshot: identity and digest both.
pub proof fn loadout_snapshots_are_told_apart(
    one: ResolveWorkerLoadout,
    other: ResolveWorkerLoadout,
    safe: spec_fn(Seq<char>) -> bool,
)
    ensures
        one.profile_event(safe) matches Ok(a) ==> (other.profile_event(safe) matches Ok(b) ==> (a.source
            == b.source ==> one.spec_of@.capability_profile == other.spec_of@.capability_profile)),
        one.policy_event(safe) matches Ok(a) ==> (other.policy_event(safe) matches Ok(b) ==> (a.source
            == b.source ==> one.spec_of@.delegation_policy == other.spec_of@.delegation_policy)),
        one.model_event(safe) matches Ok(a) ==> (other.model_event(safe) matches Ok(b) ==> (a.source
            == b.source ==> one.spec_of@.model_policy == other.spec_of@.model_policy)),
        one.resolved_event(safe) matches Ok(a) ==> (other.resolved_event(safe) matches Ok(b) ==> (a.source
            == b.source ==> one.spec_of.id == other.spec_of.id && one.digest@ == other.digest@)),
{
    let a = one.spec_of@;
    let b = other.spec_of@;
    let pairs = seq![
        (a.capability_profile, b.capability_profile, "capability_profile_recorded"@),
        (a.delegation_policy, b.delegation_policy, "delegation_policy_recorded"@),
        (a.model_policy, b.model_policy, "model_policy_recorded"@),
        ((a.id, one.digest@), (b.id, other.digest@), "worker_loadout_resolved"@),
    ];
    assert forall|i: int|
        0 <= i < 4 && snapshot_name((#[trigger] pairs[i]).0) == snapshot_name(pairs[i].1) implies pairs[i].0
        == pairs[i].1 by {
        a_snapshot_has_its_own_name(pairs[i].0, pairs[i].1);
    }
    assert(pairs[0].0 == a.capability_profile);
    assert(pairs[1].0 == a.delegation_policy);
    assert(pairs[2].0 == a.model_policy);
    assert(pairs[3].0 == (a.id, one.digest@));
}

/// The name of a snapshot: its identity and its digest.
pub open spec fn snapshot_name(snapshot: SnapshotView) -> Seq<char> {
    canonical_text(snapshot.0.value) + ":"@ + hex_text(snapshot.1)
}

/// Two snapshots with one name are one snapshot.
pub proof fn a_snapshot_has_its_own_name(a: SnapshotView, b: SnapshotView)
    requires
        a.1.len() == 32,
        b.1.len() == 32,
        snapshot_name(a) == snapshot_name(b),
    ensures
        a == b,
{
    let safe = |text: Seq<char>| true;
    crate::store::ops::session::distinct_snapshots_are_distinct_facts(a, b, "s"@, safe);
}

/// Whether the rows of a whitelist hold a snapshot and its names.
pub open spec fn holds_whitelist(
    rows: WhitelistView,
    snapshot: SnapshotView,
    names: Seq<Seq<char>>,
    seq: EventSeq,
) -> bool {
    &&& rows.id == snapshot.0
    &&& rows.digest_hex == hex_text(snapshot.1)
    &&& rows.entries == names
    &&& rows.created_event_seq == seq
    &&& names.len() <= i64::MAX ==> rows.count == names.len()
}

/// A new whitelist is written with its names, and a known one is not written again.
pub proof fn a_whitelist_is_written_once(op: ResolveWorkerLoadout, seq: EventSeq)
    ensures
        op.profile_rows(Appended::Inserted(seq)) matches Ok(written) ==> (written matches Some(rows)
            && holds_whitelist(rows, op.spec_of@.capability_profile, texts(op.capabilities@), seq)),
        op.policy_rows(Appended::Inserted(seq)) matches Ok(written) ==> (written matches Some(rows)
            && holds_whitelist(rows, op.spec_of@.delegation_policy, texts(op.delegated_roles@), seq)),
        op.model_row(Appended::Inserted(seq)) matches Ok(written) ==> (written matches Some(row) && row.0
            == op.spec_of.model_policy.id && row.1 == hex_text(op.spec_of.model_policy.digest@) && row.2
            == seq),
        op.profile_rows(Appended::Duplicate(seq)) == Ok::<Option<WhitelistView>, StoreError>(None),
        op.policy_rows(Appended::Duplicate(seq)) == Ok::<Option<WhitelistView>, StoreError>(None),
        op.model_row(Appended::Duplicate(seq)) is Ok && op.model_row(Appended::Duplicate(seq))->Ok_0 is None,
        op.loadout_row(Appended::Duplicate(seq)) == Ok::<Option<LoadoutRowView>, StoreError>(None),
{
}

/// A loadout's row holds the loadout: each column is the part it names.
pub proof fn a_loadout_row_is_the_loadout(op: ResolveWorkerLoadout, seq: EventSeq)
    ensures
        op.loadout_row(Appended::Inserted(seq)) matches Ok(written) ==> {
            &&& written matches Some(row)
            &&& row.snapshot == (op.spec_of.id, hex_text(op.digest@))
            &&& row.worker_kind == op.spec_of.worker_kind@
            &&& row.runtime_kind == op.spec_of.runtime_kind@
            &&& row.role == op.spec_of.role@
            &&& row.model_policy == (
                op.spec_of.model_policy.id,
                hex_text(op.spec_of.model_policy.digest@),
            )
            &&& row.capability_profile == (
                op.spec_of.capability_profile.id,
                hex_text(op.spec_of.capability_profile.digest@),
            )
            &&& row.delegation_policy == (
                op.spec_of.delegation_policy.id,
                hex_text(op.spec_of.delegation_policy.digest@),
            )
            &&& row.managed_config.0 == op.spec_of.managed_config.id
            &&& row.managed_config.1 == hex_text(op.spec_of.managed_config.digest@)
            &&& row.managed_config.2 == op.spec_of.managed_config.byte_len
            &&& row.hook_contract_epoch == op.spec_of.hook_contract_epoch
            &&& row.resume_policy == op.spec_of.resume_policy.label
            &&& row.created_event_seq == seq
        },
{
}

// --- The binding of a session ----------------------------------------------------------------------------

/// A session's incarnation is bound afresh only for its own session, to a snapshot that was recorded,
/// and where nothing is bound yet; a repeat of the very same binding is let through as one; an unknown
/// snapshot and another binding are refused, each under its own conflict.
pub proof fn a_binding_is_for_its_own_session(
    op: BindSessionLoadout,
    owner: Option<Seq<char>>,
    snapshot_recorded: bool,
    existing: Option<BindingRow>,
)
    ensures
        op.admitted(owner, snapshot_recorded, existing) matches Ok(fresh) ==> {
            &&& owner == Some(canonical_text(op.request.session.value))
            &&& snapshot_recorded
            &&& fresh <==> existing is None
            &&& existing matches Some(row) ==> bound_of(row) == Ok::<SnapshotView, StoreError>(
                op.request.loadout@,
            )
        },
        owner == Some(canonical_text(op.request.session.value)) && !snapshot_recorded ==> op.admitted(
            owner,
            snapshot_recorded,
            existing,
        ) == Err::<bool, StoreError>(
            StoreError::Conflict(Conflict::LoadoutDigestMismatch { loadout: op.request.loadout.id }),
        ),
        owner == Some(canonical_text(op.request.session.value)) && snapshot_recorded && existing is None
            ==> op.admitted(owner, snapshot_recorded, existing) == Ok::<bool, StoreError>(true),
        owner == Some(canonical_text(op.request.session.value)) && snapshot_recorded ==> (
        existing matches Some(row) ==> (bound_of(row) matches Ok(bound) ==> (bound != op.request.loadout@
            ==> op.admitted(owner, snapshot_recorded, existing) == Err::<bool, StoreError>(
            StoreError::Conflict(
                Conflict::SessionIncarnationAlreadyBound { incarnation: op.request.incarnation },
            ),
        )))),
{
    canonical_text_round_trips(op.request.session);
}

/// An incarnation belongs to the session whose identity its row holds and to no other: a stranger is
/// refused, and a missing row is corrupt.
pub proof fn an_incarnation_belongs_to_one_session(
    session: Id,
    another: Id,
    incarnation: Id,
)
    ensures
        incarnation_ownership(Some(canonical_text(session.value)), session, incarnation) is Ok,
        session != another ==> incarnation_ownership(
            Some(canonical_text(session.value)),
            another,
            incarnation,
        ) == Err::<(), StoreError>(
            StoreError::Conflict(Conflict::NoSessionLoadout { incarnation }),
        ),
        incarnation_ownership(None, session, incarnation) matches Err(e) && e is Corrupt,
{
    canonical_text_round_trips(session);
}

/// A binding is recorded about its session and incarnation, with the loadout and its digest; facts about
/// two incarnations are never one.
pub proof fn a_binding_is_recorded_about_its_incarnation(
    op: BindSessionLoadout,
    other: BindSessionLoadout,
    safe: spec_fn(Seq<char>) -> bool,
)
    ensures
        op.bound_event(safe) matches Ok(event) ==> {
            &&& records_session(
                event,
                op.event,
                EventKind::SessionLoadoutBound,
                op.now,
                Some(op.request.session),
                Some(op.request.incarnation),
            )
            &&& says_id(event, "loadout_id"@, op.request.loadout.id)
            &&& says_digest(event, op.request.loadout.digest@)
        },
        op.bound_event(safe) matches Ok(a) ==> (other.bound_event(safe) matches Ok(b) ==> (a.source
            == b.source <==> op.request.incarnation == other.request.incarnation)),
{
    if let Ok(event) = op.bound_event(safe) {
        assert(event.metadata[0].0 == "loadout_id"@);
        assert(event.metadata[1].0 == "digest"@);
    }
    if canonical_text(op.request.incarnation.value) == canonical_text(other.request.incarnation.value) {
        canonical_text_injective(op.request.incarnation.value, other.request.incarnation.value);
    }
}

/// A binding reads back: the row that was written for the session and incarnation names the loadout
/// that was bound, and a repeat writes nothing.
pub proof fn a_binding_reads_back(op: BindSessionLoadout, seq: EventSeq, row: BindingRow)
    ensures
        op.bound_row(Appended::Inserted(seq)) matches Ok(written) ==> {
            &&& written matches Some(inserted)
            &&& inserted.0 == op.request.session
            &&& inserted.1 == op.request.incarnation
            &&& inserted.4 == seq
            &&& row.worker_loadout_id@ == canonical_text(inserted.2.value) && row.digest_hex@
                == inserted.3 ==> binding_of(Some(row)) == Ok::<Option<SnapshotView>, StoreError>(
                Some(op.request.loadout@),
            )
        },
        op.bound_row(Appended::Duplicate(seq)) == Ok::<Option<SessionLoadoutView>, StoreError>(None),
        binding_of(None) == Ok::<Option<SnapshotView>, StoreError>(None),
{
    canonical_text_round_trips(op.request.loadout.id);
    a_digest_reads_back(op.request.loadout.digest@, "session_loadouts", "digest_hex");
}

/// What is answered is what was resolved or bound, and says whether it was known already.
pub proof fn an_answer_is_about_what_was_asked(
    resolve: ResolveWorkerLoadout,
    resolved: ResolvedLoadout,
    bind: BindSessionLoadout,
    bound: BoundSessionLoadout,
    seq: EventSeq,
    duplicate: bool,
)
    ensures
        resolve.answers(resolved, Appended::Inserted(seq)) ==> !resolved.duplicate && resolved.loadout
            == resolve.spec_of.id && resolved.digest@ == resolve.digest@,
        resolve.answers(resolved, Appended::Duplicate(seq)) ==> resolved.duplicate && resolved.loadout
            == resolve.spec_of.id && resolved.digest@ == resolve.digest@,
        bind.answers(bound, duplicate) ==> bound.duplicate == duplicate && bound.session
            == bind.request.session && bound.incarnation == bind.request.incarnation && bound.loadout.id
            == bind.request.loadout.id && bound.loadout.digest@ == bind.request.loadout.digest@,
{
}

// --- Lineage ---------------------------------------------------------------------------------------------

/// Lineage is admitted exactly where the turn is the parent session's own, the child is nowhere above
/// the parent, the parent is not too deep, and the two are not one session; and it is the edge that was
/// asked for. Each refusal says which of these failed.
pub proof fn lineage_is_admitted_where_it_may_be(
    op: RecordSessionLineage,
    owner: Option<Seq<char>>,
    answer: Ancestry,
)
    ensures
        op.admitted(owner, answer) is Ok <==> (owner == Some(
            canonical_text(op.request.parent_session.value),
        ) && !answer.meets_child && answer.depth < MAX_LINEAGE_DEPTH && op.request.parent_session
            != op.request.child_session),
        op.admitted(owner, answer) matches Ok(edge) ==> {
            &&& edge.parent_session == op.request.parent_session
            &&& edge.child_session == op.request.child_session
            &&& edge.parent_turn == op.request.parent_turn
            &&& edge.relation == op.request.relation
        },
        owner is None ==> op.admitted(owner, answer) == Err::<SessionEdge, StoreError>(
            StoreError::Conflict(
                Conflict::ParentTurnNotOwnedByParentSession {
                    session: op.request.parent_session,
                    turn: op.request.parent_turn,
                },
            ),
        ),
        owner == Some(canonical_text(op.request.parent_session.value)) && (answer.meets_child || (
        answer.depth < MAX_LINEAGE_DEPTH && op.request.parent_session == op.request.child_session))
            ==> op.admitted(owner, answer) == Err::<SessionEdge, StoreError>(
            StoreError::Conflict(
                Conflict::SessionLineageCycle {
                    parent: op.request.parent_session,
                    child: op.request.child_session,
                },
            ),
        ),
        owner == Some(canonical_text(op.request.parent_session.value)) && !answer.meets_child
            && answer.depth >= MAX_LINEAGE_DEPTH ==> op.admitted(owner, answer) == Err::<
            SessionEdge,
            StoreError,
        >(
            StoreError::Conflict(
                Conflict::SessionLineageTooDeep { depth: answer.depth, bound: MAX_LINEAGE_DEPTH },
            ),
        ),
{
    canonical_text_round_trips(op.request.parent_session);
}

/// A turn of another session is no parent's.
pub proof fn a_strangers_turn_is_no_parents(op: RecordSessionLineage, another: Id, answer: Ancestry)
    requires
        another != op.request.parent_session,
    ensures
        op.admitted(Some(canonical_text(another.value)), answer) == Err::<SessionEdge, StoreError>(
            StoreError::Conflict(
                Conflict::ParentTurnNotOwnedByParentSession {
                    session: op.request.parent_session,
                    turn: op.request.parent_turn,
                },
            ),
        ),
{
    canonical_text_round_trips(another);
}

/// Lineage is recorded about the child, with its parent, the turn and the relation; a child has one
/// parent, so a second edge for it is the same fact and an edge of another child never is.
pub proof fn lineage_is_recorded_about_the_child(
    op: RecordSessionLineage,
    other: RecordSessionLineage,
    safe: spec_fn(Seq<char>) -> bool,
)
    ensures
        op.lineage_event(safe) matches Ok(event) ==> {
            &&& records_session(
                event,
                op.event,
                EventKind::SessionLineageRecorded,
                op.now,
                Some(op.request.child_session),
                None,
            )
            &&& says_id(event, "parent_session"@, op.request.parent_session)
            &&& says_id(event, "parent_turn"@, op.request.parent_turn)
            &&& says(event, "relation"@, MetaValue::Text(op.request.relation.label@))
        },
        op.lineage_event(safe) matches Ok(a) ==> (other.lineage_event(safe) matches Ok(b) ==> (a.source
            == b.source <==> op.request.child_session == other.request.child_session)),
{
    if let Ok(event) = op.lineage_event(safe) {
        assert(event.metadata[0].0 == "parent_session"@);
        assert(event.metadata[1].0 == "parent_turn"@);
        assert(event.metadata[2].0 == "relation"@);
    }
    if canonical_text(op.request.child_session.value) == canonical_text(
        other.request.child_session.value,
    ) {
        canonical_text_injective(op.request.child_session.value, other.request.child_session.value);
    }
}

/// An edge reads back as the edge that was recorded, so that recording it again is found to be a repeat
/// and recording another is not.
pub proof fn an_edge_reads_back(
    edge: SessionEdge,
    again: SessionEdge,
    seq: EventSeq,
    row: StoredEdge,
    model: spec_fn(Seq<char>) -> Option<SessionRelation>,
)
    requires
        model(edge.relation.label@) == Some(edge.relation),
        edge_row(edge, seq) matches Ok(written) && {
            &&& row.parent_session_id@ == canonical_text(written.parent_session_id.value)
            &&& row.child_session_id@ == canonical_text(written.child_session_id.value)
            &&& row.parent_turn_id@ == canonical_text(written.parent_turn_id.value)
            &&& row.relation_kind@ == written.relation_kind@
        },
    ensures
        edge_of(Some(row), model) == Ok::<SessionEdge, StoreError>(edge),
        edge_row(edge, seq)->Ok_0.created_event_seq == seq,
        same_edge(edge, again) <==> (edge.parent_session == again.parent_session && edge.child_session
            == again.child_session && edge.parent_turn == again.parent_turn && edge.relation.label@
            == again.relation.label@),
        edge_of(None, model) is Err,
{
    canonical_text_round_trips(edge.parent_session);
    canonical_text_round_trips(edge.child_session);
    canonical_text_round_trips(edge.parent_turn);
}

// --- Spawning --------------------------------------------------------------------------------------------

/// A spawn without a bound loadout is refused; one whose caller verified another loadout is refused for
/// its identity, or for its digest; and a configuration that is not the verified one is refused too,
/// whether the loadout embeds another or the recorded bytes are others.
pub proof fn a_spawn_of_something_else_is_refused(
    op: AuthorizeWorkerSpawn,
    facts: SpawnFacts,
    row: BindingRow,
    bound: SnapshotView,
)
    ensures
        facts.binding is None ==> op.authorised(facts) == Err::<IntentView, StoreError>(
            StoreError::Conflict(Conflict::NoSessionLoadout { incarnation: op.request.incarnation }),
        ),
        facts.binding == Some(row) && bound_of(row) == Ok::<SnapshotView, StoreError>(bound) && text_view(
            facts.owner,
        ) == Some(canonical_text(op.request.session.value)) ==> {
            &&& bound.0 != op.request.verified_loadout.id ==> op.authorised(facts) == Err::<
                IntentView,
                StoreError,
            >(
                StoreError::Conflict(
                    Conflict::LoadoutIdentityMismatch {
                        presented: op.request.verified_loadout.id,
                        expected: bound.0,
                    },
                ),
            )
            &&& bound.0 == op.request.verified_loadout.id && bound.1
                != op.request.verified_loadout.digest@ ==> op.authorised(facts) == Err::<
                IntentView,
                StoreError,
            >(StoreError::Conflict(Conflict::LoadoutDigestMismatch { loadout: bound.0 }))
        },
        facts.owner is None ==> op.authorised(facts) is Err,
        op.authorised(facts) is Ok ==> text_view(facts.owner) == Some(
            canonical_text(op.request.session.value),
        ),
        facts.embedded is None || facts.recorded is None ==> op.authorised(facts) is Err,
{
    canonical_text_round_trips(op.request.session);
}

/// A loadout that embeds another configuration than the verified one spawns nothing, and neither do
/// recorded bytes of another digest or another length.
pub proof fn a_spawn_of_other_bytes_is_refused(
    op: AuthorizeWorkerSpawn,
    facts: SpawnFacts,
    embedded: ConfigRow,
    config: ConfigView,
    recorded: (String, i64),
)
    requires
        facts.embedded == Some(embedded),
        facts.recorded == Some(recorded),
        config_of(
            embedded,
            "worker_loadouts",
            "managed_config_digest_hex",
            "managed_config_byte_len",
        ) == Ok::<ConfigView, StoreError>(config),
    ensures
        config.0 != op.request.verified_config.id || config.1 != op.request.verified_config.digest@
            || config.2 != op.request.verified_config.byte_len ==> op.authorised(facts) is Err,
        recorded.1 != op.request.verified_config.byte_len ==> op.authorised(facts) is Err,
{
}

/// An authorised spawn is an intent that is never repeated by itself, at the destination, from the
/// source and under the epoch that were presented.
pub proof fn a_spawn_is_the_intent_that_was_presented(op: AuthorizeWorkerSpawn, facts: SpawnFacts)
    ensures
        op.authorised(facts) matches Ok(row) ==> {
            &&& row.external_attempt_id == op.attempt
            &&& row.destination == op.request.destination@
            &&& row.source == op.request.source@
            &&& row.daemon_epoch == op.request.daemon_epoch
            &&& row.recorded_at_ms == op.recorded_at
            &&& row.class == crate::store::codec::effect_class_columns(
                EffectClassView::NonIdempotentWrite,
            )
            &&& crate::store::labels::attempt_effect_state_named(row.state@) == Some(
                crate::domain::effect::ExternalAttemptState::IntentRecorded,
            )
        },
{
    crate::store::labels::attempt_effect_state_round_trips(
        crate::domain::effect::ExternalAttemptState::IntentRecorded,
    );
}

} // verus!
