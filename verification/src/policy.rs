use vstd::prelude::*;
use crate::domain::{PolicyRef, ValueEq};

verus! {

/// Approval decision kinds that a request may allow.
#[derive(Clone, Copy, Debug, PartialEq, Eq, Structural)]
pub enum ApprovalDecisionKind {
    Approved,
    ApprovedForSession,
    Denied,
}

impl crate::domain::ValueEq for ApprovalDecisionKind {
    open spec fn value_eq(&self, other: &Self) -> bool {
        *self == *other
    }

    fn equals(&self, other: &Self) -> (r: bool) {
        *self == *other
    }
}

/// Scope in which an approval dispatcher acts.
#[derive(Clone, Copy, Debug, PartialEq, Eq, Structural)]
pub enum DispatcherScope {
    Run,
    Session,
    Host,
}

impl crate::domain::ValueEq for DispatcherScope {
    open spec fn value_eq(&self, other: &Self) -> bool {
        *self == *other
    }

    fn equals(&self, other: &Self) -> (r: bool) {
        *self == *other
    }
}

/// Class of side effect an operation may have.
#[derive(Clone, Copy, Debug, PartialEq, Eq, Structural)]
pub enum EffectClass {
    ReadOnly,
    WorkspaceWrite,
    ExternalSideEffect,
    ProcessExecution,
}

impl crate::domain::ValueEq for EffectClass {
    open spec fn value_eq(&self, other: &Self) -> bool {
        *self == *other
    }

    fn equals(&self, other: &Self) -> (r: bool) {
        *self == *other
    }
}

/// Risk classification of an operation.
#[derive(Clone, Copy, Debug, PartialEq, Eq, Structural)]
pub enum RiskClass {
    Low,
    Medium,
    High,
    Critical,
}

impl crate::domain::ValueEq for RiskClass {
    open spec fn value_eq(&self, other: &Self) -> bool {
        *self == *other
    }

    fn equals(&self, other: &Self) -> (r: bool) {
        *self == *other
    }
}

/// Decision a policy evaluation reached.
#[derive(Clone, Copy, Debug, PartialEq, Eq, Structural)]
pub enum PolicyDecision {
    Allow,
    Deny,
    RequireApproval,
}

impl crate::domain::ValueEq for PolicyDecision {
    open spec fn value_eq(&self, other: &Self) -> bool {
        *self == *other
    }

    fn equals(&self, other: &Self) -> (r: bool) {
        *self == *other
    }
}

/// Outcome of a policy evaluation with the policies that decided it.
#[derive(Debug)]
pub struct PolicyOutcome {
    pub decision: PolicyDecision,
    pub policy_refs: Vec<PolicyRef>,
    pub reason_code: String,
}

impl PolicyOutcome {
    /// Field-wise equality, with vectors compared by their contents.
    pub open spec fn same_as(&self, other: &Self) -> bool {
        &&& self.decision == other.decision
        &&& self.policy_refs@ == other.policy_refs@
        &&& self.reason_code == other.reason_code
    }
}

impl Clone for PolicyOutcome {
    fn clone(&self) -> (res: Self)
        ensures
            res.same_as(self),
    {
        let policy_refs_copy = self.policy_refs.clone();
        proof { assert(policy_refs_copy@ =~= self.policy_refs@); }
        PolicyOutcome {
            decision: self.decision,
            policy_refs: policy_refs_copy,
            reason_code: self.reason_code.clone(),
        }
    }
}

/// What content a surface may capture.
#[derive(Debug)]
pub struct ContentCapturePolicy {
    pub policy_ref: PolicyRef,
    pub capture_raw_content: bool,
    pub capture_redacted_summary: bool,
}

impl Clone for ContentCapturePolicy {
    fn clone(&self) -> (res: Self)
        ensures
            res == *self,
    {
        ContentCapturePolicy {
            policy_ref: self.policy_ref.clone(),
            capture_raw_content: self.capture_raw_content,
            capture_redacted_summary: self.capture_redacted_summary,
        }
    }
}

/// Some policy reference of `refs` equals `policy_ref`.
pub open spec fn policy_refs_include_spec(refs: Seq<PolicyRef>, policy_ref: PolicyRef) -> bool {
    exists|i: int| 0 <= i < refs.len() && (#[trigger] refs[i]).value_eq(&policy_ref)
}

/// `refs` with `policy_ref` appended unless an equal one is already there.
pub open spec fn push_unique_policy_spec(refs: Seq<PolicyRef>, policy_ref: PolicyRef) -> Seq<PolicyRef> {
    if policy_refs_include_spec(refs, policy_ref) {
        refs
    } else {
        refs.push(policy_ref)
    }
}

/// `refs` after appending each of `added` in order, skipping those already present.
pub open spec fn merge_policy_refs_spec(refs: Seq<PolicyRef>, added: Seq<PolicyRef>) -> Seq<PolicyRef>
    decreases added.len(),
{
    if added.len() == 0 {
        refs
    } else {
        merge_policy_refs_spec(push_unique_policy_spec(refs, added[0]), added.drop_first())
    }
}

/// Merging `a + b` is merging `a`, then `b`.
pub proof fn lemma_merge_policy_refs_concat(refs: Seq<PolicyRef>, a: Seq<PolicyRef>, b: Seq<PolicyRef>)
    ensures
        merge_policy_refs_spec(refs, a + b) == merge_policy_refs_spec(merge_policy_refs_spec(refs, a), b),
    decreases a.len(),
{
    if a.len() == 0 {
        assert(a + b =~= b);
    } else {
        assert((a + b).drop_first() =~= a.drop_first() + b);
        assert((a + b)[0] == a[0]);
        lemma_merge_policy_refs_concat(push_unique_policy_spec(refs, a[0]), a.drop_first(), b);
    }
}

/// Appends `policy_ref` unless an equal one is already in `refs`.
pub(crate) fn push_unique_policy_ref(refs: &mut Vec<PolicyRef>, policy_ref: PolicyRef)
    ensures
        final(refs)@ == push_unique_policy_spec(old(refs)@, policy_ref),
{
    let mut i: usize = 0;
    while i < refs.len()
        invariant
            0 <= i <= refs@.len(),
            forall|k: int| 0 <= k < i ==> !(#[trigger] refs@[k]).value_eq(&policy_ref),
        decreases refs@.len() - i,
    {
        if refs[i].equals(&policy_ref) {
            return;
        }
        i = i + 1;
    }
    refs.push(policy_ref);
}

/// Appends each of `added` in order, skipping those already in `refs`.
pub(crate) fn merge_policy_refs(refs: &mut Vec<PolicyRef>, added: &Vec<PolicyRef>)
    ensures
        final(refs)@ == merge_policy_refs_spec(old(refs)@, added@),
{
    let ghost start = refs@;
    let n = added.len();
    let mut i: usize = 0;
    proof {
        assert(added@.skip(0) =~= added@);
    }
    while i < n
        invariant
            n == added@.len(),
            0 <= i <= n,
            merge_policy_refs_spec(refs@, added@.skip(i as int)) == merge_policy_refs_spec(start, added@),
        decreases n - i,
    {
        proof {
            assert(added@.skip(i as int).drop_first() =~= added@.skip(i + 1));
        }
        push_unique_policy_ref(refs, added[i].clone());
        i = i + 1;
    }
    proof {
        assert(added@.skip(n as int).len() == 0);
    }
}

impl ContentCapturePolicy {
    /// Captures redacted summaries and never raw content, under `policy_ref`.
    pub fn safe_defaults(policy_ref: PolicyRef) -> (res: Self)
        ensures
            res.policy_ref == policy_ref,
            !res.capture_raw_content,
            res.capture_redacted_summary,
    {
        ContentCapturePolicy { policy_ref, capture_raw_content: false, capture_redacted_summary: true }
    }
}

} // verus!
