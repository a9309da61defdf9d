//! The immutable event ledger: what is appended, how duplicates converge, how rows read back.
//!
//! Every event carries a source identity, and appending a source that is already there gives the
//! event that is already there: a duplicate never runs a second transition.
use vstd::prelude::*;
use crate::domain::fence::{rule_is, rule_total, EventSeq, SourceRef, SourceView, Timestamp};
use crate::domain::id::{
    canonical_text, canonical_text_round_trips, id_named, id_text, EventId, Id, ObligationId, ProjectId, SessionId, SessionIncarnationId,
    TaskId, TurnId,
};
use crate::store::codec::{
    optional_id_column, parse_optional_id, parse_source, parse_u64, source_fault, storable, store_u64, text_view,
};
use crate::store::error::{corrupt, CorruptReason, StoreError};
use crate::store::event_kind::{kind_fields, kind_label, kind_named, kind_round_trips, EventKind};
use crate::store::grammar::{
    distinct_keys, document, rendered, rendered_document_reads_back, storable_value, MetaFields,
};
use crate::store::safe_metadata::{kept, malformed, MetadataFields, SafeMetadata};

verus! {

/// Schema version stamped on every event this binary appends.
pub const EVENT_SCHEMA_VERSION: i64 = 1;

/// The domain entities an event is about. Every part is an opaque identity or nothing.
#[derive(Debug, Clone, Copy, PartialEq, Eq, Structural)]
pub struct EventScope {
    pub project: Option<ProjectId>,
    pub task: Option<TaskId>,
    pub session: Option<SessionId>,
    pub incarnation: Option<SessionIncarnationId>,
    pub turn: Option<TurnId>,
    pub obligation: Option<ObligationId>,
}

impl EventScope {
    /// A scope naming nothing.
    pub open spec fn nothing() -> EventScope {
        EventScope {
            project: None,
            task: None,
            session: None,
            incarnation: None,
            turn: None,
            obligation: None,
        }
    }

    /// A scope naming an obligation, its task and its turn.
    pub open spec fn work(task: TaskId, turn: Option<TurnId>, obligation: ObligationId) -> EventScope {
        EventScope { task: Some(task), turn, obligation: Some(obligation), ..EventScope::nothing() }
    }
}

impl Default for EventScope {
    fn default() -> (r: EventScope)
        ensures
            r == EventScope::nothing(),
    {
        EventScope {
            project: None,
            task: None,
            session: None,
            incarnation: None,
            turn: None,
            obligation: None,
        }
    }
}

/// A scope naming an obligation, its task and its turn.
pub fn work_scope(task: TaskId, turn: Option<TurnId>, obligation: ObligationId) -> (r: EventScope)
    ensures
        r == EventScope::work(task, turn, obligation),
{
    EventScope {
        project: None,
        task: Some(task),
        session: None,
        incarnation: None,
        turn,
        obligation: Some(obligation),
    }
}

/// One event ready to be appended.
#[derive(Debug, PartialEq, Eq)]
pub struct NewEvent {
    pub event_id: EventId,
    pub kind: EventKind,
    pub source: SourceRef,
    pub observed_at: Timestamp,
    pub occurred_at: Option<Timestamp>,
    pub scope: EventScope,
    pub metadata: SafeMetadata,
}

/// What an event says, on values alone.
#[verifier::ext_equal]
pub struct EventView {
    pub event_id: EventId,
    pub kind: EventKind,
    pub source: (Seq<char>, Seq<char>, Seq<char>),
    pub observed_at: Timestamp,
    pub occurred_at: Option<Timestamp>,
    pub scope: EventScope,
    pub metadata: MetaFields,
}

impl View for NewEvent {
    type V = EventView;

    open spec fn view(&self) -> EventView {
        EventView {
            event_id: self.event_id,
            kind: self.kind,
            source: self.source@,
            observed_at: self.observed_at,
            occurred_at: self.occurred_at,
            scope: self.scope,
            metadata: self.metadata@,
        }
    }
}

/// The columns one event occupies in the `events` table.
#[derive(Debug, PartialEq, Eq)]
pub struct EventRow {
    pub event_id: String,
    pub kind: &'static str,
    pub schema_version: i64,
    pub observed_at_ms: i64,
    pub occurred_at_ms: Option<i64>,
    pub project_id: Option<String>,
    pub task_id: Option<String>,
    pub session_id: Option<String>,
    pub session_incarnation_id: Option<String>,
    pub turn_id: Option<String>,
    pub obligation_id: Option<String>,
    pub source_namespace: String,
    pub source_event_id: String,
    pub source_event_fence: String,
    pub safe_metadata_json: String,
}

/// The text of an optional identity.
pub open spec fn optional_text(id: Option<Id>) -> Option<Seq<char>> {
    match id {
        Some(inner) => Some(canonical_text(inner.value)),
        None => None,
    }
}

/// Renders an optional identity.
pub fn optional_id_text(id: Option<Id>) -> (r: Option<String>)
    ensures
        text_view(r) == optional_text(id),
{
    match id {
        Some(inner) => Some(id_text(inner)),
        None => None,
    }
}

/// Whether a row holds an event that is appended.
pub open spec fn writes_event(row: EventRow, event: EventView) -> bool {
    &&& row.event_id@ == canonical_text(event.event_id.value)
    &&& row.kind == kind_label(event.kind)
    &&& row.schema_version == EVENT_SCHEMA_VERSION
    &&& row.observed_at_ms == event.observed_at
    &&& row.occurred_at_ms == event.occurred_at
    &&& text_view(row.project_id) == optional_text(event.scope.project)
    &&& text_view(row.task_id) == optional_text(event.scope.task)
    &&& text_view(row.session_id) == optional_text(event.scope.session)
    &&& text_view(row.session_incarnation_id) == optional_text(event.scope.incarnation)
    &&& text_view(row.turn_id) == optional_text(event.scope.turn)
    &&& text_view(row.obligation_id) == optional_text(event.scope.obligation)
    &&& (row.source_namespace@, row.source_event_id@, row.source_event_fence@) == event.source
    &&& row.safe_metadata_json@ == rendered(event.metadata)
}

/// The columns of an event that is about to be appended.
pub fn event_row(event: &NewEvent) -> (r: EventRow)
    ensures
        writes_event(r, event@),
{
    EventRow {
        event_id: id_text(event.event_id),
        kind: event.kind.label(),
        schema_version: EVENT_SCHEMA_VERSION,
        observed_at_ms: event.observed_at,
        occurred_at_ms: event.occurred_at,
        project_id: optional_id_text(event.scope.project),
        task_id: optional_id_text(event.scope.task),
        session_id: optional_id_text(event.scope.session),
        session_incarnation_id: optional_id_text(event.scope.incarnation),
        turn_id: optional_id_text(event.scope.turn),
        obligation_id: optional_id_text(event.scope.obligation),
        source_namespace: event.source.namespace.text.clone(),
        source_event_id: event.source.event.text.clone(),
        source_event_fence: event.source.fence.text.clone(),
        safe_metadata_json: event.metadata.to_json(),
    }
}

/// What appending produced.
#[derive(Debug, Clone, Copy, PartialEq, Eq, Structural)]
pub enum Appended {
    /// A new row; the projection transition must be applied.
    Inserted(EventSeq),
    /// The source identity was already in the ledger; no second transition may be applied.
    Duplicate(EventSeq),
}

impl Appended {
    /// Sequence of the row, new or existing.
    pub open spec fn at(self) -> EventSeq {
        match self {
            Appended::Inserted(seq) => seq,
            Appended::Duplicate(seq) => seq,
        }
    }

    /// Sequence of the row, new or existing.
    pub fn seq(self) -> (r: EventSeq)
        ensures
            r == self.at(),
    {
        match self {
            Appended::Inserted(seq) => seq,
            Appended::Duplicate(seq) => seq,
        }
    }

    /// Whether the source identity was already in the ledger.
    pub fn is_duplicate(self) -> (r: bool)
        ensures
            r == (self is Duplicate),
    {
        match self {
            Appended::Inserted(_) => false,
            Appended::Duplicate(_) => true,
        }
    }
}

/// What an append comes to.
pub open spec fn settled(changed: usize, seq: i64) -> Result<Appended, StoreError> {
    if seq < 0 {
        Err(corrupt("events", "seq", CorruptReason::IntegerOutOfRange))
    } else if changed == 1 {
        Ok(Appended::Inserted(seq as u64))
    } else {
        Ok(Appended::Duplicate(seq as u64))
    }
}

/// Settles an append: how many rows the insert changed, and the sequence of the row that now
/// carries the source identity.
pub fn append(changed: usize, seq: i64) -> (r: Result<Appended, StoreError>)
    ensures
        r == settled(changed, seq),
{
    let seq: u64 = parse_u64(seq, "events", "seq")?;
    if changed == 1 {
        Ok(Appended::Inserted(seq))
    } else {
        Ok(Appended::Duplicate(seq))
    }
}

/// What `store_seq` answers.
pub open spec fn stored_seq(seq: EventSeq) -> Result<i64, StoreError> {
    if storable(seq) {
        Ok(seq as i64)
    } else {
        Err(corrupt("events", "seq", CorruptReason::IntegerOutOfRange))
    }
}

/// Renders an event sequence for a `*_event_seq` column.
pub fn store_seq(seq: EventSeq) -> (r: Result<i64, StoreError>)
    ensures
        r == stored_seq(seq),
{
    store_u64(seq, "events", "seq")
}

/// Rehydrates an event sequence from a `*_event_seq` column.
pub fn parse_seq(value: i64, table: &'static str, column: &'static str) -> (r: Result<EventSeq, StoreError>)
    ensures
        r == (if value >= 0 {
            Ok::<EventSeq, StoreError>(value as u64)
        } else {
            Err(corrupt(table, column, CorruptReason::IntegerOutOfRange))
        }),
{
    parse_u64(value, table, column)
}

/// The highest sequence the ledger holds, if it holds anything.
pub fn highest_seq(value: Option<i64>) -> (r: Result<Option<EventSeq>, StoreError>)
    ensures
        r == (match value {
            Some(seq) => if seq >= 0 {
                Ok::<Option<EventSeq>, StoreError>(Some(seq as u64))
            } else {
                Err(corrupt("events", "seq", CorruptReason::IntegerOutOfRange))
            },
            None => Ok(None),
        }),
{
    match value {
        Some(seq) => match parse_seq(seq, "events", "seq") {
            Ok(found) => Ok(Some(found)),
            Err(e) => Err(e),
        },
        None => Ok(None),
    }
}

/// One `events` row as read.
#[derive(Debug, PartialEq, Eq)]
pub struct RawEvent {
    pub seq: i64,
    pub kind: String,
    pub source_namespace: String,
    pub source_event_id: String,
    pub source_event_fence: String,
    pub observed_at_ms: i64,
    pub project_id: Option<String>,
    pub task_id: Option<String>,
    pub session_id: Option<String>,
    pub session_incarnation_id: Option<String>,
    pub turn_id: Option<String>,
    pub obligation_id: Option<String>,
    pub safe_metadata_json: String,
}

/// One event read back from the ledger.
#[derive(Debug, PartialEq, Eq)]
pub struct LedgerEvent {
    pub seq: EventSeq,
    pub kind: EventKind,
    pub source: SourceRef,
    pub observed_at: Timestamp,
    pub scope: EventScope,
    pub metadata: MetadataFields,
}

/// Why a row does not decode, under a token rule; `None` when it does.
///
/// The first thing wrong counts: the kind, the sequence, the source identity, the scope columns,
/// the metadata document.
pub open spec fn row_fault(row: RawEvent, rule: spec_fn(Seq<char>) -> bool) -> Option<StoreError> {
    let source = source_fault(
        row.source_namespace@,
        row.source_event_id@,
        row.source_event_fence@,
        rule,
    );
    if kind_named(row.kind@) is None {
        Some(corrupt("events", "kind", CorruptReason::UnknownLabel))
    } else if row.seq < 0 {
        Some(corrupt("events", "seq", CorruptReason::IntegerOutOfRange))
    } else if source is Some {
        source
    } else if optional_id_column(text_view(row.project_id), "events", "project_id") is Err {
        Some(corrupt("events", "project_id", CorruptReason::MalformedIdentity))
    } else if optional_id_column(text_view(row.task_id), "events", "task_id") is Err {
        Some(corrupt("events", "task_id", CorruptReason::MalformedIdentity))
    } else if optional_id_column(text_view(row.session_id), "events", "session_id") is Err {
        Some(corrupt("events", "session_id", CorruptReason::MalformedIdentity))
    } else if optional_id_column(text_view(row.session_incarnation_id), "events", "session_incarnation_id") is Err {
        Some(corrupt("events", "session_incarnation_id", CorruptReason::MalformedIdentity))
    } else if optional_id_column(text_view(row.turn_id), "events", "turn_id") is Err {
        Some(corrupt("events", "turn_id", CorruptReason::MalformedIdentity))
    } else if optional_id_column(text_view(row.obligation_id), "events", "obligation_id") is Err {
        Some(corrupt("events", "obligation_id", CorruptReason::MalformedIdentity))
    } else if document(row.safe_metadata_json@) is None {
        Some(malformed())
    } else {
        None
    }
}

/// What an event read back says, on values alone.
#[verifier::ext_equal]
pub struct LedgerView {
    pub seq: EventSeq,
    pub kind: EventKind,
    pub source: (Seq<char>, Seq<char>, Seq<char>),
    pub observed_at: Timestamp,
    pub scope: EventScope,
    pub metadata: MetaFields,
}

impl View for LedgerEvent {
    type V = LedgerView;

    open spec fn view(&self) -> LedgerView {
        LedgerView {
            seq: self.seq,
            kind: self.kind,
            source: self.source@,
            observed_at: self.observed_at,
            scope: self.scope,
            metadata: self.metadata@,
        }
    }
}

impl Clone for LedgerEvent {
    fn clone(&self) -> (r: Self)
        ensures
            r@ == self@,
    {
        LedgerEvent {
            seq: self.seq,
            kind: self.kind,
            source: self.source.clone(),
            observed_at: self.observed_at,
            scope: self.scope,
            metadata: self.metadata.clone(),
        }
    }
}

/// The identity a nullable column holds; nothing where it holds none or is corrupt.
pub open spec fn id_in(text: Option<String>) -> Option<Id> {
    match text {
        Some(t) => id_named(t@),
        None => None,
    }
}

/// The event a row that decodes stands for.
pub open spec fn row_event(row: RawEvent) -> LedgerView {
    let kind = kind_named(row.kind@)->0;
    LedgerView {
        seq: row.seq as u64,
        kind,
        source: (row.source_namespace@, row.source_event_id@, row.source_event_fence@),
        observed_at: row.observed_at_ms,
        scope: EventScope {
            project: id_in(row.project_id),
            task: id_in(row.task_id),
            session: id_in(row.session_id),
            incarnation: id_in(row.session_incarnation_id),
            turn: id_in(row.turn_id),
            obligation: id_in(row.obligation_id),
        },
        metadata: kept(document(row.safe_metadata_json@)->0, kind_fields(kind)),
    }
}

/// Decodes one row of the ledger.
pub fn decode_event<S: Fn(&str) -> bool>(row: &RawEvent, safe: &S) -> (r: Result<LedgerEvent, StoreError>)
    requires
        rule_total(*safe),
    ensures
        forall|rule: spec_fn(Seq<char>) -> bool| #[trigger]
            rule_is(*safe, rule) ==> (match row_fault(*row, rule) {
                Some(e) => r == Err::<LedgerEvent, StoreError>(e),
                None => r is Ok,
            }),
        r matches Ok(event) ==> event@ == row_event(*row),
{
    let kind = EventKind::parse(row.kind.as_str())?;
    let seq: u64 = parse_seq(row.seq, "events", "seq")?;
    let source = parse_source(
        row.source_namespace.as_str(),
        row.source_event_id.as_str(),
        row.source_event_fence.as_str(),
        safe,
    )?;
    let project = parse_optional_id(&row.project_id, "events", "project_id")?;
    let task = parse_optional_id(&row.task_id, "events", "task_id")?;
    let session = parse_optional_id(&row.session_id, "events", "session_id")?;
    let incarnation = parse_optional_id(&row.session_incarnation_id, "events", "session_incarnation_id")?;
    let turn = parse_optional_id(&row.turn_id, "events", "turn_id")?;
    let obligation = parse_optional_id(&row.obligation_id, "events", "obligation_id")?;
    let metadata = SafeMetadata::parse(
        row.safe_metadata_json.as_str(),
        kind.allowed_metadata_fields(),
    )?;
    Ok(
        LedgerEvent {
            seq,
            kind,
            source,
            observed_at: row.observed_at_ms,
            scope: EventScope { project, task, session, incarnation, turn, obligation },
            metadata,
        },
    )
}

/// What decoding a list of rows answers under a token rule: every row in order, or the fault of
/// the first row that has one.
pub open spec fn rows_decoded(
    rows: Seq<RawEvent>,
    rule: spec_fn(Seq<char>) -> bool,
    r: Result<Vec<LedgerEvent>, StoreError>,
) -> bool {
    match r {
        Ok(events) => {
            &&& events@.len() == rows.len()
            &&& forall|i: int| 0 <= i < rows.len() ==> row_fault(#[trigger] rows[i], rule) is None
        },
        Err(e) => exists|i: int|
            {
                &&& 0 <= i < rows.len()
                &&& row_fault(#[trigger] rows[i], rule) == Some(e)
                &&& forall|j: int| 0 <= j < i ==> row_fault(#[trigger] rows[j], rule) is None
            },
    }
}

/// Decodes a slice of the ledger, oldest first.
pub fn collect<S: Fn(&str) -> bool>(rows: &Vec<RawEvent>, safe: &S) -> (r: Result<Vec<LedgerEvent>, StoreError>)
    requires
        rule_total(*safe),
    ensures
        forall|rule: spec_fn(Seq<char>) -> bool| #[trigger]
            rule_is(*safe, rule) ==> rows_decoded(rows@, rule, r),
        r matches Ok(events) ==> events@.len() == rows@.len() && forall|i: int|
            0 <= i < rows@.len() ==> (#[trigger] events@[i])@ == row_event(rows@[i]),
{
    let mut out: Vec<LedgerEvent> = Vec::new();
    let mut i: usize = 0;
    while i < rows.len()
        invariant
            i <= rows@.len(),
            rule_total(*safe),
            out@.len() == i,
            forall|k: int| 0 <= k < i ==> (#[trigger] out@[k])@ == row_event(rows@[k]),
            forall|rule: spec_fn(Seq<char>) -> bool| #[trigger]
                rule_is(*safe, rule) ==> forall|k: int|
                    0 <= k < i ==> row_fault(#[trigger] rows@[k], rule) is None,
        decreases rows@.len() - i,
    {
        match decode_event(&rows[i], safe) {
            Ok(event) => out.push(event),
            Err(e) => {
                proof {
                    assert forall|rule: spec_fn(Seq<char>) -> bool| #[trigger]
                        rule_is(*safe, rule) implies rows_decoded(
                        rows@,
                        rule,
                        Err::<Vec<LedgerEvent>, StoreError>(e),
                    ) by {
                        assert(row_fault(rows@[i as int], rule) == Some(e));
                    }
                }
                return Err(e);
            },
        }
        i = i + 1;
    }
    Ok(out)
}

// --- Laws ------------------------------------------------------------------------------------

/// Whether a row holds the columns of an event, under a sequence.
pub open spec fn row_holds(row: RawEvent, event: EventView, seq: i64) -> bool {
    &&& row.seq == seq
    &&& row.kind@ == kind_label(event.kind)@
    &&& (row.source_namespace@, row.source_event_id@, row.source_event_fence@) == event.source
    &&& row.observed_at_ms == event.observed_at
    &&& text_view(row.project_id) == optional_text(event.scope.project)
    &&& text_view(row.task_id) == optional_text(event.scope.task)
    &&& text_view(row.session_id) == optional_text(event.scope.session)
    &&& text_view(row.session_incarnation_id) == optional_text(event.scope.incarnation)
    &&& text_view(row.turn_id) == optional_text(event.scope.turn)
    &&& text_view(row.obligation_id) == optional_text(event.scope.obligation)
    &&& row.safe_metadata_json@ == rendered(event.metadata)
}

proof fn an_optional_identity_reads_back(text: Option<String>, id: Option<Id>, table: &'static str, column: &'static str)
    requires
        text_view(text) == optional_text(id),
    ensures
        id_in(text) == id,
        optional_id_column(text_view(text), table, column) is Ok,
{
    if let Some(inner) = id {
        canonical_text_round_trips(inner);
    }
}

/// An appended event reads back: the row that holds its columns decodes, and to the same kind,
/// source, instant and scope, with the metadata the kind lists.
pub proof fn an_appended_event_reads_back(
    row: RawEvent,
    event: EventView,
    seq: i64,
    rule: spec_fn(Seq<char>) -> bool,
)
    requires
        row_holds(row, event, seq),
        seq >= 0,
        rule(event.source.0),
        rule(event.source.1),
        rule(event.source.2),
        distinct_keys(event.metadata),
        forall|i: int| 0 <= i < event.metadata.len() ==> storable_value((#[trigger] event.metadata[i]).1),
    ensures
        row_fault(row, rule) is None,
        row_event(row) == (LedgerView {
            seq: seq as u64,
            kind: event.kind,
            source: event.source,
            observed_at: event.observed_at,
            scope: event.scope,
            metadata: kept(event.metadata, kind_fields(event.kind)),
        }),
{
    kind_round_trips(event.kind);
    an_optional_identity_reads_back(row.project_id, event.scope.project, "events", "project_id");
    an_optional_identity_reads_back(row.task_id, event.scope.task, "events", "task_id");
    an_optional_identity_reads_back(row.session_id, event.scope.session, "events", "session_id");
    an_optional_identity_reads_back(
        row.session_incarnation_id,
        event.scope.incarnation,
        "events",
        "session_incarnation_id",
    );
    an_optional_identity_reads_back(row.turn_id, event.scope.turn, "events", "turn_id");
    an_optional_identity_reads_back(
        row.obligation_id,
        event.scope.obligation,
        "events",
        "obligation_id",
    );
    rendered_document_reads_back(event.metadata);
}

/// Whether a row that is read holds the columns of one that was inserted, at its position.
pub open spec fn stored_as(row: RawEvent, inserted: EventRow, seq: i64) -> bool {
    &&& row.seq == seq
    &&& row.kind@ == inserted.kind@
    &&& row.source_namespace@ == inserted.source_namespace@
    &&& row.source_event_id@ == inserted.source_event_id@
    &&& row.source_event_fence@ == inserted.source_event_fence@
    &&& row.observed_at_ms == inserted.observed_at_ms
    &&& text_view(row.project_id) == text_view(inserted.project_id)
    &&& text_view(row.task_id) == text_view(inserted.task_id)
    &&& text_view(row.session_id) == text_view(inserted.session_id)
    &&& text_view(row.session_incarnation_id) == text_view(inserted.session_incarnation_id)
    &&& text_view(row.turn_id) == text_view(inserted.turn_id)
    &&& text_view(row.obligation_id) == text_view(inserted.obligation_id)
    &&& row.safe_metadata_json@ == inserted.safe_metadata_json@
}

/// What is inserted for an event reads back as that event: its kind, its source, its instant, what it is
/// about and what it says, as far as its kind may say it.
pub proof fn an_inserted_event_reads_back(
    inserted: EventRow,
    row: RawEvent,
    event: EventView,
    seq: i64,
    rule: spec_fn(Seq<char>) -> bool,
)
    requires
        writes_event(inserted, event),
        stored_as(row, inserted, seq),
        seq >= 0,
        rule(event.source.0),
        rule(event.source.1),
        rule(event.source.2),
        distinct_keys(event.metadata),
        forall|i: int| 0 <= i < event.metadata.len() ==> storable_value((#[trigger] event.metadata[i]).1),
    ensures
        row_fault(row, rule) is None,
        row_event(row).seq == seq,
        row_event(row).kind == event.kind,
        row_event(row).source == event.source,
        row_event(row).observed_at == event.observed_at,
        row_event(row).scope == event.scope,
        row_event(row).metadata == kept(event.metadata, kind_fields(event.kind)),
        inserted.event_id@ == canonical_text(event.event_id.value),
        inserted.occurred_at_ms == event.occurred_at,
        inserted.schema_version == EVENT_SCHEMA_VERSION,
{
    an_appended_event_reads_back(row, event, seq, rule);
}

/// A row of the ledger: its sequence and what it holds.
pub type LedgerRow = (i64, EventView);

/// Where a source stands in the ledger.
pub open spec fn holds_source(rows: Seq<LedgerRow>, source: SourceView, i: int) -> bool {
    0 <= i < rows.len() && rows[i].1.source == source
}

/// No source stands in the ledger twice, and every sequence is one.
pub open spec fn one_row_per_source(rows: Seq<LedgerRow>) -> bool {
    &&& forall|i: int, j: int|
        0 <= i < j < rows.len() ==> (#[trigger] rows[i]).1.source != (#[trigger] rows[j]).1.source
    &&& forall|i: int| 0 <= i < rows.len() ==> (#[trigger] rows[i]).0 >= 0
}

/// The ledger after an insert that does nothing where the source is there already, and how many rows
/// it changed.
pub open spec fn inserted(rows: Seq<LedgerRow>, event: EventView, next: i64) -> (Seq<LedgerRow>, usize) {
    if exists|i: int| holds_source(rows, event.source, i) {
        (rows, 0)
    } else {
        (rows.push((next, event)), 1)
    }
}

/// The sequence of the row that carries a source.
pub open spec fn seq_of(rows: Seq<LedgerRow>, source: SourceView) -> i64 {
    rows[choose|i: int| holds_source(rows, source, i)].0
}

/// An append on the ledger: the insert, then the sequence of the row that now carries the source.
pub open spec fn ledger_append(rows: Seq<LedgerRow>, event: EventView, next: i64) -> (
    Seq<LedgerRow>,
    Result<Appended, StoreError>,
) {
    let (after, changed) = inserted(rows, event, next);
    (after, settled(changed, seq_of(after, event.source)))
}

/// A source that is in the ledger is appended to nothing: whatever else the event says, no row is
/// added or changed, and the answer is the sequence of the row that is there.
pub proof fn a_source_in_the_ledger_is_a_duplicate(
    rows: Seq<LedgerRow>,
    i: int,
    event: EventView,
    next: i64,
)
    requires
        one_row_per_source(rows),
        holds_source(rows, event.source, i),
    ensures
        ledger_append(rows, event, next) == (
            rows,
            Ok::<Appended, StoreError>(Appended::Duplicate(rows[i].0 as u64)),
        ),
{
    let found = choose|j: int| holds_source(rows, event.source, j);
    assert(holds_source(rows, event.source, found));
    assert(found == i);
}

/// A source that is not in the ledger is appended once: exactly one row is added, at the end and
/// under the next sequence, the sources stay apart, and every later append of the same source, with
/// whatever kind, identity and metadata, answers with that row and adds nothing.
pub proof fn a_second_append_is_a_duplicate(
    rows: Seq<LedgerRow>,
    event: EventView,
    next: i64,
    again: EventView,
    later: i64,
)
    requires
        one_row_per_source(rows),
        forall|i: int| !holds_source(rows, event.source, i),
        next >= 0,
        again.source == event.source,
    ensures
        ledger_append(rows, event, next) == (
            rows.push((next, event)),
            Ok::<Appended, StoreError>(Appended::Inserted(next as u64)),
        ),
        one_row_per_source(ledger_append(rows, event, next).0),
        ledger_append(ledger_append(rows, event, next).0, again, later) == (
            rows.push((next, event)),
            Ok::<Appended, StoreError>(Appended::Duplicate(next as u64)),
        ),
{
    let after = rows.push((next, event));
    let last = rows.len() as int;
    assert(holds_source(after, event.source, last));
    assert forall|i: int, j: int| 0 <= i < j < after.len() implies (#[trigger] after[i]).1.source != (
    #[trigger] after[j]).1.source by {
        if j == last {
            assert(!holds_source(rows, event.source, i));
        }
    }
    let found = choose|i: int| holds_source(after, event.source, i);
    assert(holds_source(after, event.source, found));
    assert(found == last);
    a_source_in_the_ledger_is_a_duplicate(after, last, again, later);
}

} // verus!
