//! What startup proves of the artifact root: the bytes behind every artifact open work pins, and the
//! set of references an orphan sweep may not touch.
//!
//! An artifact that cannot be verified is damage to one obligation. It is recorded as a durable
//! condition of that obligation, and the daemon goes on to serve.
use vstd::prelude::*;
use crate::daemon::error::ArtifactFailure;
use crate::daemon::report::{open_views, push_line};
use crate::domain::artifact::{ArtifactView, ResultArtifact};
use crate::domain::fence::{rule_is, rule_total};
use crate::store::error::{corrupt_row, CorruptReason, CorruptValue, StoreError};
use crate::store::load::artifact::{artifact_views, OpenObligation, OpenView};
use crate::store::ops::health::ResultArtifactMissingRequest;
use crate::text::{a_dictionary_exists, dictionary, sorted_set, string_texts};

verus! {

// --- Pinned artifacts ------------------------------------------------------------------------------------

/// What could and could not be proven of the pinned artifacts.
#[derive(Debug, Clone, Copy, PartialEq, Eq, Structural)]
pub struct PinnedArtifacts {
    pub verified: usize,
    pub unverified: usize,
}

/// One pinned artifact: what a condition about it names, and what is to be read.
#[derive(Debug, PartialEq, Eq)]
pub struct Pin {
    pub request: ResultArtifactMissingRequest,
    pub artifact: ResultArtifact,
}

/// One pinned artifact on values alone.
#[verifier::ext_equal]
pub struct PinnedView {
    pub request: ResultArtifactMissingRequest,
    pub artifact: ArtifactView,
}

impl View for Pin {
    type V = PinnedView;

    open spec fn view(&self) -> PinnedView {
        PinnedView { request: self.request, artifact: self.artifact@ }
    }
}

/// The artifacts open work pins, in the order of the work.
pub open spec fn pins_of(rows: Seq<OpenView>) -> Seq<PinnedView>
    decreases rows.len(),
{
    if rows.len() == 0 {
        Seq::empty()
    } else {
        let rest = pins_of(rows.drop_last());
        match rows.last().result_artifact {
            Some(artifact) => rest.push(
                PinnedView {
                    request: ResultArtifactMissingRequest {
                        obligation: rows.last().id,
                        artifact: artifact.id,
                    },
                    artifact,
                },
            ),
            None => rest,
        }
    }
}

/// What is done about one pinned artifact once its bytes were read.
#[derive(Debug, Clone, Copy, PartialEq, Eq, Structural)]
pub enum PinAction {
    /// The bytes are the recorded ones: the condition is resolved, which is nothing where none is
    /// open.
    Resolve(ResultArtifactMissingRequest),
    /// They are not, or there are none: the condition is raised, and the failure logged.
    Raise(ResultArtifactMissingRequest, ArtifactFailure),
}

/// What is done about a pin, given what reading it gave.
pub open spec fn pin_action(
    pin: ResultArtifactMissingRequest,
    read: Result<(), ArtifactFailure>,
) -> PinAction {
    match read {
        Ok(_) => PinAction::Resolve(pin),
        Err(failure) => PinAction::Raise(pin, failure),
    }
}

/// A walk over the pinned artifacts, one read at a time.
#[derive(Debug, PartialEq, Eq)]
pub struct PinCheck {
    pins: Vec<Pin>,
    done: usize,
    tally: PinnedArtifacts,
}

/// A walk on values alone: the pins that are left, and what was found of the others.
#[verifier::ext_equal]
pub struct PinView {
    pub left: Seq<PinnedView>,
    pub tally: PinnedArtifacts,
}

/// Pins on values alone.
pub open spec fn pin_views(pins: Seq<Pin>) -> Seq<PinnedView> {
    Seq::new(pins.len(), |i: int| pins[i]@)
}

/// A walk after one more read.
pub open spec fn pin_read(walk: PinView, read: Result<(), ArtifactFailure>) -> PinView {
    if walk.left.len() == 0 {
        walk
    } else {
        PinView {
            left: walk.left.skip(1),
            tally: match read {
                Ok(_) => PinnedArtifacts {
                    verified: (walk.tally.verified + 1) as usize,
                    unverified: walk.tally.unverified,
                },
                Err(_) => PinnedArtifacts {
                    verified: walk.tally.verified,
                    unverified: (walk.tally.unverified + 1) as usize,
                },
            },
        }
    }
}

impl PinCheck {
    /// The walk on values alone.
    pub closed spec fn view(&self) -> PinView {
        PinView { left: pin_views(self.pins@).skip(self.done as int), tally: self.tally }
    }

    #[verifier::type_invariant]
    spec fn well_formed(self) -> bool {
        &&& self.done <= self.pins@.len()
        &&& self.tally.verified + self.tally.unverified == self.done
    }

    /// A walk over what open work pins.
    pub fn new(open: &[OpenObligation]) -> (r: PinCheck)
        ensures
            r@.left == pins_of(open_views(open@)),
            r@.tally == (PinnedArtifacts { verified: 0, unverified: 0 }),
    {
        let ghost views = open_views(open@);
        let mut pins: Vec<Pin> = Vec::new();
        let mut i: usize = 0;
        assert(views.take(0) =~= Seq::<OpenView>::empty());
        assert(pin_views(pins@) =~= Seq::<PinnedView>::empty());
        while i < open.len()
            invariant
                views == open_views(open@),
                i <= open@.len(),
                pin_views(pins@) == pins_of(views.take(i as int)),
            decreases open@.len() - i,
        {
            proof {
                let next = views.take(i + 1);
                assert(next.drop_last() =~= views.take(i as int));
                assert(next.last() == open@[i as int]@);
            }
            if let Some(artifact) = &open[i].result_artifact {
                let ghost before = pins@;
                let request = ResultArtifactMissingRequest {
                    obligation: open[i].id,
                    artifact: artifact.id,
                };
                pins.push(Pin { request, artifact: artifact.clone() });
                assert(pin_views(pins@) =~= pin_views(before).push(pins@.last()@));
            }
            i = i + 1;
        }
        assert(views.take(i as int) =~= views);
        let tally = PinnedArtifacts { verified: 0, unverified: 0 };
        let walk = PinCheck { pins, done: 0, tally };
        assert(walk@.left =~= pins_of(views));
        walk
    }

    /// The pin whose artifact is to be read next, if one is left.
    pub fn pending(&self) -> (r: Option<ResultArtifactMissingRequest>)
        ensures
            r == (if self@.left.len() == 0 {
                None::<ResultArtifactMissingRequest>
            } else {
                Some(self@.left[0].request)
            }),
    {
        proof {
            use_type_invariant(self);
        }
        if self.done < self.pins.len() {
            Some(self.pins[self.done].request)
        } else {
            None
        }
    }

    /// The artifact that is to be read next, if a pin is left: that of the pending pin.
    pub fn artifact(&self) -> (r: Option<&ResultArtifact>)
        ensures
            r is Some <==> self@.left.len() > 0,
            r matches Some(artifact) ==> artifact@ == self@.left[0].artifact,
    {
        proof {
            use_type_invariant(self);
        }
        if self.done < self.pins.len() {
            Some(&self.pins[self.done].artifact)
        } else {
            None
        }
    }

    /// Takes what reading the pending artifact gave, and says what is done about it.
    pub fn answered(self, read: Result<(), ArtifactFailure>) -> (r: (PinCheck, Option<PinAction>))
        ensures
            r.0@ == pin_read(self@, read),
            r.1 == (if self@.left.len() == 0 {
                None::<PinAction>
            } else {
                Some(pin_action(self@.left[0].request, read))
            }),
    {
        proof {
            use_type_invariant(&self);
        }
        if self.done >= self.pins.len() {
            return (self, None);
        }
        let pin = self.pins[self.done].request;
        let before = self.tally;
        let ghost left = self@.left;
        assert(left.skip(1) =~= pin_views(self.pins@).skip(self.done + 1));
        match read {
            Ok(_) => {
                let tally = PinnedArtifacts {
                    verified: before.verified + 1,
                    unverified: before.unverified,
                };
                let next = PinCheck { pins: self.pins, done: self.done + 1, tally };
                (next, Some(PinAction::Resolve(pin)))
            },
            Err(failure) => {
                let tally = PinnedArtifacts {
                    verified: before.verified,
                    unverified: before.unverified + 1,
                };
                let next = PinCheck { pins: self.pins, done: self.done + 1, tally };
                (next, Some(PinAction::Raise(pin, failure)))
            },
        }
    }

    /// What was found so far.
    pub fn tally(&self) -> (r: PinnedArtifacts)
        ensures
            r == self@.tally,
    {
        self.tally
    }
}

// --- The orphan sweep ------------------------------------------------------------------------------------

/// The storage references of artifacts, in order.
pub open spec fn references(artifacts: Seq<ArtifactView>) -> Seq<Seq<char>> {
    Seq::new(artifacts.len(), |i: int| artifacts[i].storage_ref)
}

/// Whether every reference is a storage key.
pub open spec fn all_keys(artifacts: Seq<ArtifactView>, rule: spec_fn(Seq<char>) -> bool) -> bool {
    forall|i: int| 0 <= i < artifacts.len() ==> rule((#[trigger] artifacts[i]).storage_ref)
}

/// The references an orphan sweep may not touch: all of them, or a refusal where one is no storage
/// key, for a set that silently lost a reference would let committed bytes be set aside.
pub open spec fn protected(artifacts: Seq<ArtifactView>, rule: spec_fn(Seq<char>) -> bool) -> Result<
    Seq<Seq<char>>,
    StoreError,
> {
    if all_keys(artifacts, rule) {
        Ok(dictionary(references(artifacts)))
    } else {
        Err(
            StoreError::Corrupt(
                CorruptValue {
                    table: "result_artifacts",
                    column: "storage_ref",
                    reason: CorruptReason::MalformedIdentity,
                },
            ),
        )
    }
}

/// Collects the references an orphan sweep may not touch. `valid` says what is a storage key.
pub fn committed_keys<K: Fn(&str) -> bool>(artifacts: &Vec<ResultArtifact>, valid: &K) -> (r: Result<
    Vec<String>,
    StoreError,
>)
    requires
        rule_total(*valid),
    ensures
        forall|rule: spec_fn(Seq<char>) -> bool| #[trigger]
            rule_is(*valid, rule) ==> (match r {
                Ok(keys) => protected(artifact_views(artifacts@), rule) == Ok::<
                    Seq<Seq<char>>,
                    StoreError,
                >(string_texts(keys@)),
                Err(e) => protected(artifact_views(artifacts@), rule) == Err::<
                    Seq<Seq<char>>,
                    StoreError,
                >(e),
            }),
{
    let ghost views = artifact_views(artifacts@);
    let mut names: Vec<String> = Vec::new();
    let mut i: usize = 0;
    while i < artifacts.len()
        invariant
            rule_total(*valid),
            views == artifact_views(artifacts@),
            i <= artifacts@.len(),
            string_texts(names@) == references(views).take(i as int),
            forall|rule: spec_fn(Seq<char>) -> bool| #[trigger]
                rule_is(*valid, rule) ==> (forall|k: int|
                    0 <= k < i ==> rule((#[trigger] views[k]).storage_ref)),
        decreases artifacts@.len() - i,
    {
        let reference = artifacts[i].storage_ref.as_str();
        let ghost found = views[i as int];
        assert(found == artifacts@[i as int]@);
        if !valid(reference) {
            proof {
                assert forall|rule: spec_fn(Seq<char>) -> bool| #[trigger]
                    rule_is(*valid, rule) implies !all_keys(views, rule) by {
                    assert(!rule(views[i as int].storage_ref));
                }
            }
            return Err(
                corrupt_row("result_artifacts", "storage_ref", CorruptReason::MalformedIdentity),
            );
        }
        push_line(&mut names, reference.to_owned());
        assert(references(views).take(i + 1) =~= references(views).take(i as int).push(reference@));
        i = i + 1;
    }
    assert(references(views).take(i as int) =~= references(views));
    Ok(sorted_set(&names))
}

// --- Laws ------------------------------------------------------------------------------------------------

/// Every pin is read once and is found one way or the other: each read takes one pin off the list
/// and adds one to what was found, as long as the counts fit.
pub proof fn every_pin_is_accounted_for(walk: PinView, read: Result<(), ArtifactFailure>)
    requires
        walk.left.len() > 0,
        walk.tally.verified + walk.tally.unverified + walk.left.len() <= usize::MAX,
    ensures
        pin_read(walk, read).tally.verified + pin_read(walk, read).tally.unverified + pin_read(
            walk,
            read,
        ).left.len() == walk.tally.verified + walk.tally.unverified + walk.left.len(),
        pin_read(walk, read).tally.verified > walk.tally.verified <==> read is Ok,
{
}

/// What is read for a pin is the artifact its own obligation pins, and what a condition about it
/// names are that obligation and that artifact.
pub proof fn every_pin_is_its_obligations(rows: Seq<OpenView>, i: int)
    requires
        0 <= i < pins_of(rows).len(),
    ensures
        exists|k: int|
            0 <= k < rows.len() && (#[trigger] rows[k]).id == pins_of(rows)[i].request.obligation
                && rows[k].result_artifact == Some(pins_of(rows)[i].artifact),
        pins_of(rows)[i].request.artifact == pins_of(rows)[i].artifact.id,
    decreases rows.len(),
{
    let rest = rows.drop_last();
    if i < pins_of(rest).len() {
        every_pin_is_its_obligations(rest, i);
        let k = choose|k: int|
            0 <= k < rest.len() && (#[trigger] rest[k]).id == pins_of(rest)[i].request.obligation
                && rest[k].result_artifact == Some(pins_of(rest)[i].artifact);
        assert(rows[k] == rest[k]);
    } else {
        assert(rows[rows.len() - 1] == rows.last());
    }
}

/// No committed reference is left out of the set a sweep protects.
pub proof fn every_committed_reference_is_protected(
    artifacts: Seq<ArtifactView>,
    rule: spec_fn(Seq<char>) -> bool,
    i: int,
)
    requires
        0 <= i < artifacts.len(),
        protected(artifacts, rule) is Ok,
    ensures
        protected(artifacts, rule)->Ok_0.contains(artifacts[i].storage_ref),
{
    a_dictionary_exists(references(artifacts));
    assert(references(artifacts)[i] == artifacts[i].storage_ref);
    assert(references(artifacts).contains(artifacts[i].storage_ref));
}

} // verus!
