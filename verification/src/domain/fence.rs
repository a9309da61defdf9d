//! Counters, instants, redaction-safe tokens and source identities.
use vstd::prelude::*;
use crate::text::same;

verus! {

/// Position of an event in the ledger.
pub type EventSeq = u64;
/// Compare-and-swap version of an obligation.
pub type ObligationVersion = u64;
/// Generation of a foreman binding.
pub type BindingGeneration = u64;
/// Generation of a session incarnation.
pub type IncarnationGeneration = u64;
/// Lifetime counter of the daemon.
pub type DaemonEpoch = u64;
/// Revision of a wake within an obligation and binding generation.
pub type DeliveryRevision = u32;
/// Number of an attempt within a revision.
pub type AttemptNo = u32;
/// An instant, in milliseconds since the Unix epoch.
pub type Timestamp = i64;
/// A duration in milliseconds.
pub type DurationMs = u64;

/// A text that passed the redaction-safe token rule.
///
/// The rule itself is the domain's: every function that has to apply it takes it as an argument.
#[derive(Debug, PartialEq, Eq)]
pub struct SafeToken {
    /// The text of the token.
    pub text: String,
}

impl View for SafeToken {
    type V = Seq<char>;

    open spec fn view(&self) -> Seq<char> {
        self.text@
    }
}

impl Clone for SafeToken {
    fn clone(&self) -> (r: Self)
        ensures
            r == *self,
    {
        SafeToken { text: self.text.clone() }
    }
}

/// Whether an executable token rule can be asked about every text.
pub open spec fn rule_total<S: Fn(&str) -> bool>(safe: S) -> bool {
    forall|t: &str| call_requires(safe, (t,))
}

/// Whether an executable token rule answers as `rule` says.
pub open spec fn rule_is<S: Fn(&str) -> bool>(safe: S, rule: spec_fn(Seq<char>) -> bool) -> bool {
    forall|t: &str, b: bool| #[trigger] call_ensures(safe, (t,), b) ==> b == rule(t@)
}

impl SafeToken {
    /// A token holding `text`, if the rule accepts it.
    pub fn new<S: Fn(&str) -> bool>(text: &str, safe: &S) -> (r: Option<SafeToken>)
        requires
            rule_total(*safe),
        ensures
            forall|rule: spec_fn(Seq<char>) -> bool| #[trigger]
                rule_is(*safe, rule) ==> (r is Some <==> rule(text@)),
            r matches Some(token) ==> token@ == text@,
    {
        if safe(text) {
            Some(SafeToken { text: text.to_owned() })
        } else {
            None
        }
    }

    /// The text of the token.
    pub fn as_str(&self) -> (r: &str)
        ensures
            r@ == self@,
    {
        self.text.as_str()
    }

    /// Whether two tokens hold the same text.
    pub fn same_as(&self, other: &SafeToken) -> (r: bool)
        ensures
            r == (self@ == other@),
    {
        same(self.text.as_str(), other.text.as_str())
    }
}

/// The identity of the fact an event stands on: namespace, event and fence.
#[derive(Debug, PartialEq, Eq)]
pub struct SourceRef {
    /// Namespace that minted the identity.
    pub namespace: SafeToken,
    /// Identity of the event within the namespace.
    pub event: SafeToken,
    /// Fence within the event.
    pub fence: SafeToken,
}

/// A source identity on values alone: namespace, event, fence.
pub type SourceView = (Seq<char>, Seq<char>, Seq<char>);

impl View for SourceRef {
    type V = SourceView;

    open spec fn view(&self) -> SourceView {
        (self.namespace@, self.event@, self.fence@)
    }
}

impl Clone for SourceRef {
    fn clone(&self) -> (r: Self)
        ensures
            r == *self,
    {
        SourceRef {
            namespace: self.namespace.clone(),
            event: self.event.clone(),
            fence: self.fence.clone(),
        }
    }
}

/// Copies an optional token.
pub fn clone_token(token: &Option<SafeToken>) -> (r: Option<SafeToken>)
    ensures
        r == *token,
{
    match token {
        Some(inner) => Some(inner.clone()),
        None => None,
    }
}

} // verus!
