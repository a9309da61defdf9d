//! Worker loadouts and lineage: immutable snapshots, whitelists, and parent edges.
use vstd::prelude::*;
use crate::digest::same_digest;
use crate::domain::fence::SafeToken;
use crate::domain::id::{Id, ManagedConfigArtifactId, SessionId, TurnId, WorkerLoadoutId};
use crate::text::{dictionary, in_order, same_texts, sorted_set, string_texts};

verus! {

/// An immutable snapshot: a stable identity and the digest of its contents.
#[derive(Debug, Clone, Copy, PartialEq, Eq)]
pub struct SnapshotRef {
    /// Stable identity, outliving any one snapshot.
    pub id: Id,
    /// Digest of the contents.
    pub digest: [u8; 32],
}

/// The exact loadout a resume must present.
pub type WorkerLoadoutFence = SnapshotRef;
/// An immutable capability whitelist.
pub type CapabilityProfileRef = SnapshotRef;
/// An immutable delegation whitelist.
pub type DelegationPolicyRef = SnapshotRef;
/// An immutable model policy.
pub type ModelPolicyRef = SnapshotRef;

/// A snapshot on values alone: identity and digest.
pub type SnapshotView = (Id, Seq<u8>);

impl View for SnapshotRef {
    type V = SnapshotView;

    open spec fn view(&self) -> SnapshotView {
        (self.id, self.digest@)
    }
}

impl SnapshotRef {
    /// The snapshot of an identity with a digest.
    pub fn new(id: Id, digest: [u8; 32]) -> (r: SnapshotRef)
        ensures
            r@ == (id, digest@),
    {
        SnapshotRef { id, digest }
    }

    /// Whether two references name the same snapshot.
    pub fn same_as(&self, other: &SnapshotRef) -> (r: bool)
        ensures
            r == (self@ == other@),
    {
        self.id.value == other.id.value && same_digest(&self.digest, &other.digest)
    }
}

/// A managed configuration: identity, digest and exact length.
#[derive(Debug, Clone, Copy, PartialEq, Eq)]
pub struct ManagedConfigRef {
    pub id: ManagedConfigArtifactId,
    pub digest: [u8; 32],
    pub byte_len: u64,
}

/// A managed configuration on values alone.
pub type ConfigView = (ManagedConfigArtifactId, Seq<u8>, u64);

impl View for ManagedConfigRef {
    type V = ConfigView;

    open spec fn view(&self) -> ConfigView {
        (self.id, self.digest@, self.byte_len)
    }
}

impl ManagedConfigRef {
    /// Whether two references are identical in every field.
    pub fn same_as(&self, other: &ManagedConfigRef) -> (r: bool)
        ensures
            r == (self@ == other@),
    {
        self.id.value == other.id.value && self.byte_len == other.byte_len && same_digest(
            &self.digest,
            &other.digest,
        )
    }
}

/// The resume policy of a loadout, as the label it is stored under.
#[derive(Debug, Clone, Copy, PartialEq, Eq)]
pub struct ResumePolicy {
    pub label: &'static str,
}

/// The relation of a child session to its parent, as the label it is stored under.
#[derive(Debug, Clone, Copy, PartialEq, Eq)]
pub struct SessionRelation {
    pub label: &'static str,
}

/// Everything a loadout digest covers.
#[derive(Debug, PartialEq, Eq)]
pub struct WorkerLoadoutSpec {
    pub id: WorkerLoadoutId,
    pub worker_kind: SafeToken,
    pub runtime_kind: SafeToken,
    pub role: SafeToken,
    pub model_policy: ModelPolicyRef,
    pub capability_profile: CapabilityProfileRef,
    pub delegation_policy: DelegationPolicyRef,
    pub managed_config: ManagedConfigRef,
    pub hook_contract_epoch: u64,
    pub resume_policy: ResumePolicy,
}

/// Everything a loadout digest covers, on values alone.
#[verifier::ext_equal]
pub struct LoadoutSpecView {
    pub id: WorkerLoadoutId,
    pub worker_kind: Seq<char>,
    pub runtime_kind: Seq<char>,
    pub role: Seq<char>,
    pub model_policy: SnapshotView,
    pub capability_profile: SnapshotView,
    pub delegation_policy: SnapshotView,
    pub managed_config: ConfigView,
    pub hook_contract_epoch: u64,
    pub resume_policy: ResumePolicy,
}

impl View for WorkerLoadoutSpec {
    type V = LoadoutSpecView;

    open spec fn view(&self) -> LoadoutSpecView {
        LoadoutSpecView {
            id: self.id,
            worker_kind: self.worker_kind@,
            runtime_kind: self.runtime_kind@,
            role: self.role@,
            model_policy: self.model_policy@,
            capability_profile: self.capability_profile@,
            delegation_policy: self.delegation_policy@,
            managed_config: self.managed_config@,
            hook_contract_epoch: self.hook_contract_epoch,
            resume_policy: self.resume_policy,
        }
    }
}

/// How the domain digests a whitelist: its identity and its names.
pub type WhitelistDigest = spec_fn(Id, Seq<Seq<char>>) -> Seq<u8>;

/// How the domain digests a loadout.
pub type LoadoutDigest = spec_fn(LoadoutSpecView) -> Seq<u8>;

/// Whether an executable whitelist digest can be asked about every list.
pub open spec fn whitelist_total<D: Fn(Id, &Vec<SafeToken>) -> [u8; 32]>(digest: D) -> bool {
    forall|id: Id, names: &Vec<SafeToken>| call_requires(digest, (id, names))
}

/// Whether an executable whitelist digest answers as `model` says.
pub open spec fn whitelist_is<D: Fn(Id, &Vec<SafeToken>) -> [u8; 32]>(
    digest: D,
    model: WhitelistDigest,
) -> bool {
    forall|id: Id, names: &Vec<SafeToken>, r: [u8; 32]| #[trigger]
        call_ensures(digest, (id, names), r) ==> r@ == model(id, texts(names@))
}

/// Whether an executable loadout digest can be asked about every loadout.
pub open spec fn loadout_total<D: Fn(&WorkerLoadoutSpec) -> [u8; 32]>(digest: D) -> bool {
    forall|spec_of: &WorkerLoadoutSpec| call_requires(digest, (spec_of,))
}

/// Whether an executable loadout digest answers as `model` says.
pub open spec fn loadout_is<D: Fn(&WorkerLoadoutSpec) -> [u8; 32]>(digest: D, model: LoadoutDigest) -> bool {
    forall|spec_of: &WorkerLoadoutSpec, r: [u8; 32]| #[trigger]
        call_ensures(digest, (spec_of,), r) ==> r@ == model(spec_of@)
}

// --- Whitelists --------------------------------------------------------------------------------------

/// The texts of tokens, in order.
pub open spec fn texts(names: Seq<SafeToken>) -> Seq<Seq<char>> {
    Seq::new(names.len(), |i: int| names[i]@)
}

/// The whitelist of a list of names: each name once, in dictionary order, so that neither repetition
/// nor the order of the request reaches a digest.
pub fn whitelist(names: &Vec<SafeToken>) -> (r: Vec<SafeToken>)
    ensures
        texts(r@) == dictionary(texts(names@)),
        in_order(texts(r@)),
        same_texts(texts(r@), texts(names@)),
{
    let mut plain: Vec<String> = Vec::new();
    let mut i: usize = 0;
    while i < names.len()
        invariant
            i <= names@.len(),
            plain@.len() == i,
            forall|k: int| 0 <= k < i ==> #[trigger] plain@[k]@ == names@[k]@,
        decreases names@.len() - i,
    {
        plain.push(names[i].text.clone());
        i = i + 1;
    }
    assert(string_texts(plain@) =~= texts(names@));
    let listed = sorted_set(&plain);
    let mut out: Vec<SafeToken> = Vec::new();
    let mut k: usize = 0;
    while k < listed.len()
        invariant
            k <= listed@.len(),
            out@.len() == k,
            forall|m: int| 0 <= m < k ==> #[trigger] out@[m]@ == listed@[m]@,
        decreases listed@.len() - k,
    {
        out.push(SafeToken { text: listed[k].clone() });
        k = k + 1;
    }
    assert(texts(out@) =~= string_texts(listed@));
    out
}

// --- Lineage -----------------------------------------------------------------------------------------

/// A parent and child session, and the turn that made the one of the other.
#[derive(Debug, Clone, Copy, PartialEq, Eq)]
pub struct SessionEdge {
    pub parent_session: SessionId,
    pub child_session: SessionId,
    pub parent_turn: TurnId,
    pub relation: SessionRelation,
}

impl SessionEdge {
    /// An edge; none where a session would be its own parent.
    pub fn new(
        parent_session: SessionId,
        child_session: SessionId,
        parent_turn: TurnId,
        relation: SessionRelation,
    ) -> (r: Option<SessionEdge>)
        ensures
            r == (if parent_session == child_session {
                None
            } else {
                Some(SessionEdge { parent_session, child_session, parent_turn, relation })
            }),
    {
        if parent_session.value == child_session.value {
            None
        } else {
            Some(SessionEdge { parent_session, child_session, parent_turn, relation })
        }
    }
}

/// A child session and its parent, as the lineage table holds them. A child occurs once.
#[derive(Debug, Clone, Copy, PartialEq, Eq, Structural)]
pub struct ParentOf {
    pub child: SessionId,
    pub parent: SessionId,
}

/// The parent of a session, if the lineage records one.
pub open spec fn parent_in(edges: Seq<ParentOf>, child: SessionId) -> Option<SessionId>
    decreases edges.len(),
{
    if edges.len() == 0 {
        None
    } else if edges[0].child == child {
        Some(edges[0].parent)
    } else {
        parent_in(edges.skip(1), child)
    }
}

/// The ancestor of a session a number of generations up; itself at none.
pub open spec fn ancestor(edges: Seq<ParentOf>, session: SessionId, up: nat) -> Option<SessionId>
    decreases up,
{
    if up == 0 {
        Some(session)
    } else {
        match ancestor(edges, session, (up - 1) as nat) {
            None => None,
            Some(below) => parent_in(edges, below),
        }
    }
}

/// Finds the parent of a session.
pub fn find_parent(edges: &Vec<ParentOf>, child: SessionId) -> (r: Option<SessionId>)
    ensures
        r == parent_in(edges@, child),
{
    let mut i: usize = 0;
    assert(edges@.skip(0) =~= edges@);
    while i < edges.len()
        invariant
            i <= edges@.len(),
            parent_in(edges@, child) == parent_in(edges@.skip(i as int), child),
        decreases edges@.len() - i,
    {
        let edge = edges[i];
        assert(edges@.skip(i as int)[0] == edge);
        assert(edges@.skip(i as int).skip(1) =~= edges@.skip(i + 1));
        if edge.child.value == child.value {
            return Some(edge.parent);
        }
        i = i + 1;
    }
    None
}

/// What a bounded walk up a session's ancestors saw: whether it met the child, and how far it came.
#[derive(Debug, Clone, Copy, PartialEq, Eq, Structural)]
pub struct Ancestry {
    /// Whether the session itself or an ancestor within the bound is the child.
    pub meets_child: bool,
    /// The number of generations walked, at most the bound.
    pub depth: u32,
}

/// Whether a walk of a session's ancestors up to a bound gives this answer.
pub open spec fn walks(
    edges: Seq<ParentOf>,
    session: SessionId,
    child: SessionId,
    bound: u32,
    answer: Ancestry,
) -> bool {
    &&& answer.depth <= bound
    &&& ancestor(edges, session, answer.depth as nat) is Some
    &&& answer.depth < bound ==> ancestor(edges, session, (answer.depth + 1) as nat) is None
    &&& answer.meets_child <==> exists|up: nat|
        up <= answer.depth && #[trigger] ancestor(edges, session, up) == Some(child)
}

/// Walks the ancestors of a session, itself first, up to a bound.
pub fn walk_ancestry(edges: &Vec<ParentOf>, session: SessionId, child: SessionId, bound: u32) -> (r: Ancestry)
    ensures
        walks(edges@, session, child, bound, r),
{
    let mut at = session;
    let mut depth: u32 = 0;
    let mut meets_child = session.value == child.value;
    assert(ancestor(edges@, session, 0) == Some(session));
    while depth < bound
        invariant
            depth <= bound,
            ancestor(edges@, session, depth as nat) == Some(at),
            meets_child <==> exists|up: nat|
                up <= depth && #[trigger] ancestor(edges@, session, up) == Some(child),
        decreases bound - depth,
    {
        match find_parent(edges, at) {
            None => {
                assert(ancestor(edges@, session, (depth + 1) as nat) is None);
                return Ancestry { meets_child, depth };
            },
            Some(parent) => {
                at = parent;
                let ghost met = meets_child;
                let ghost below = depth as nat;
                depth = depth + 1;
                assert(ancestor(edges@, session, depth as nat) == Some(at));
                if parent.value == child.value {
                    meets_child = true;
                    assert(ancestor(edges@, session, depth as nat) == Some(child));
                } else {
                    assert forall|up: nat|
                        up <= depth && #[trigger] ancestor(edges@, session, up) == Some(
                            child,
                        ) implies up <= below by {}
                }
            },
        }
    }
    Ancestry { meets_child, depth }
}

/// A walk of a session's ancestors has an answer.
pub proof fn a_walk_exists(edges: Seq<ParentOf>, session: SessionId, child: SessionId, bound: u32)
    ensures
        exists|answer: Ancestry| #[trigger] walks(edges, session, child, bound, answer),
    decreases bound,
{
    if bound == 0 {
        let answer = Ancestry { meets_child: session == child, depth: 0 };
        assert(ancestor(edges, session, 0) == Some(session));
        assert(walks(edges, session, child, bound, answer));
    } else {
        let less = (bound - 1) as u32;
        a_walk_exists(edges, session, child, less);
        let before = choose|answer: Ancestry| #[trigger] walks(edges, session, child, less, answer);
        if before.depth < less || ancestor(edges, session, bound as nat) is None {
            assert(walks(edges, session, child, bound, before));
        } else {
            let met = before.meets_child || ancestor(edges, session, bound as nat) == Some(child);
            let answer = Ancestry { meets_child: met, depth: bound };
            if met && !before.meets_child {
                assert(ancestor(edges, session, bound as nat) == Some(child));
            }
            if met && before.meets_child {
                let up = choose|up: nat|
                    up <= before.depth && #[trigger] ancestor(edges, session, up) == Some(child);
                assert(up <= answer.depth);
            }
            assert(walks(edges, session, child, bound, answer));
        }
    }
}

/// Whether no session is its own ancestor.
pub open spec fn acyclic(edges: Seq<ParentOf>) -> bool {
    forall|session: SessionId, up: nat|
        up > 0 ==> #[trigger] ancestor(edges, session, up) != Some(session)
}

proof fn appended_parent(edges: Seq<ParentOf>, edge: ParentOf, child: SessionId)
    ensures
        parent_in(edges.push(edge), child) == (match parent_in(edges, child) {
            Some(parent) => Some(parent),
            None => if edge.child == child {
                Some(edge.parent)
            } else {
                None
            },
        }),
    decreases edges.len(),
{
    let all = edges.push(edge);
    if edges.len() == 0 {
        assert(all.skip(1) =~= Seq::<ParentOf>::empty());
        assert(parent_in(all.skip(1), child) is None);
    } else {
        assert(all.skip(1) =~= edges.skip(1).push(edge));
        appended_parent(edges.skip(1), edge, child);
    }
}

proof fn ancestors_compose(edges: Seq<ParentOf>, session: SessionId, low: nat, high: nat)
    requires
        ancestor(edges, session, low) is Some,
    ensures
        ancestor(edges, session, low + high) == ancestor(
            edges,
            ancestor(edges, session, low)->0,
            high,
        ),
    decreases high,
{
    if high > 0 {
        ancestors_compose(edges, session, low, (high - 1) as nat);
        assert((low + high - 1) as nat == low + (high - 1) as nat);
    }
}

proof fn lower_ancestors_exist(edges: Seq<ParentOf>, session: SessionId, low: nat, high: nat)
    requires
        low <= high,
        ancestor(edges, session, high) is Some,
    ensures
        ancestor(edges, session, low) is Some,
    decreases high - low,
{
    if low < high {
        lower_ancestors_exist(edges, session, low, (high - 1) as nat);
    }
}

/// A walk has one answer.
pub proof fn a_walk_has_one_answer(
    edges: Seq<ParentOf>,
    session: SessionId,
    child: SessionId,
    bound: u32,
    a: Ancestry,
    b: Ancestry,
)
    requires
        walks(edges, session, child, bound, a),
        walks(edges, session, child, bound, b),
    ensures
        a == b,
{
    if a.depth < b.depth {
        lower_ancestors_exist(edges, session, (a.depth + 1) as nat, b.depth as nat);
    }
    if b.depth < a.depth {
        lower_ancestors_exist(edges, session, (b.depth + 1) as nat, a.depth as nat);
    }
}

/// A chain that does not pass the new child is as it was before the edge.
proof fn chains_apart_agree(edges: Seq<ParentOf>, edge: ParentOf, session: SessionId, up: nat)
    requires
        parent_in(edges, edge.child) is None,
        forall|k: nat| k < up ==> #[trigger] ancestor(edges, session, k) != Some(edge.child),
    ensures
        ancestor(edges.push(edge), session, up) == ancestor(edges, session, up),
    decreases up,
{
    if up > 0 {
        let below = (up - 1) as nat;
        chains_apart_agree(edges, edge, session, below);
        match ancestor(edges, session, below) {
            None => {},
            Some(at) => {
                assert(ancestor(edges, session, below) != Some(edge.child));
                appended_parent(edges, edge, at);
            },
        }
    }
}

/// The first time a chain meets a session, if it does so within a number of generations.
proof fn first_meeting(edges: Seq<ParentOf>, session: SessionId, other: SessionId, up: nat) -> (first: nat)
    requires
        ancestor(edges, session, up) == Some(other),
    ensures
        first <= up,
        ancestor(edges, session, first) == Some(other),
        forall|k: nat| k < first ==> #[trigger] ancestor(edges, session, k) != Some(other),
    decreases up,
{
    if forall|k: nat| k < up ==> #[trigger] ancestor(edges, session, k) != Some(other) {
        up
    } else {
        let k = choose|k: nat| k < up && #[trigger] ancestor(edges, session, k) == Some(other);
        first_meeting(edges, session, other, k)
    }
}

/// An edge the lineage guard accepts keeps the lineage free of cycles, at any number of hops: where
/// no session is its own ancestor, the child has no parent yet, and a walk of the parent's ancestors
/// ended before its bound without meeting the child, none is its own ancestor afterwards.
pub proof fn an_accepted_edge_keeps_lineage_acyclic(
    edges: Seq<ParentOf>,
    edge: ParentOf,
    bound: u32,
    answer: Ancestry,
)
    requires
        acyclic(edges),
        parent_in(edges, edge.child) is None,
        walks(edges, edge.parent, edge.child, bound, answer),
        !answer.meets_child,
        answer.depth < bound,
    ensures
        acyclic(edges.push(edge)),
{
    let all = edges.push(edge);
    assert forall|k: nat| #[trigger] ancestor(edges, edge.parent, k) != Some(edge.child) by {
        if ancestor(edges, edge.parent, k) == Some(edge.child) {
            if k > answer.depth {
                lower_ancestors_exist(edges, edge.parent, (answer.depth + 1) as nat, k);
            }
        }
    }
    assert forall|session: SessionId, up: nat| up > 0 implies #[trigger] ancestor(all, session, up)
        != Some(session) by {
        if ancestor(all, session, up) == Some(session) {
            if exists|k: nat| k < up && #[trigger] ancestor(edges, session, k) == Some(edge.child) {
                let k = choose|k: nat| k < up && #[trigger] ancestor(edges, session, k) == Some(edge.child);
                let first = first_meeting(edges, session, edge.child, k);
                chains_apart_agree(edges, edge, session, first);
                // Round the cycle once more, the child is met again from the parent on.
                ancestors_compose(all, session, up, first);
                assert(ancestor(all, session, up + first) == Some(edge.child));
                ancestors_compose(all, session, first, up);
                assert(first + up == up + first);
                assert(ancestor(all, edge.child, up) == Some(edge.child));
                appended_parent(edges, edge, edge.child);
                assert(ancestor(all, edge.child, 1) == Some(edge.parent)) by {
                    assert(ancestor(all, edge.child, 0) == Some(edge.child));
                }
                ancestors_compose(all, edge.child, 1, (up - 1) as nat);
                assert(ancestor(all, edge.parent, (up - 1) as nat) == Some(edge.child));
                chains_apart_agree(edges, edge, edge.parent, (up - 1) as nat);
            } else {
                chains_apart_agree(edges, edge, session, up);
            }
        }
    }
}

} // verus!
