use vstd::prelude::*;
use crate::domain::{ContentRefId, DedupeKey, DestinationRef, EffectId, EntityRef, IdempotencyKey, PolicyRef, SourceRef};

verus! {

/// Kind of side effect.
#[derive(Clone, Copy, Debug, PartialEq, Eq, Structural)]
pub enum EffectKind {
    ProviderRequest,
    ToolExecution,
    ApprovalDispatch,
    MemoryWrite,
    ExtensionAction,
    OutputDelivery,
    FileWrite,
    ProcessStart,
    ProcessSignal,
    IsolatedProcessStart,
    ChildAgentStart,
    RunMessageDelivery,
    ChildArtifactShutdown,
    DetachTransfer,
    HookMutation,
}

impl crate::domain::ValueEq for EffectKind {
    open spec fn value_eq(&self, other: &Self) -> bool {
        *self == *other
    }

    fn equals(&self, other: &Self) -> (r: bool) {
        *self == *other
    }
}

/// Journaled intent to perform a side effect.
#[derive(Debug)]
pub struct EffectIntent {
    pub effect_id: EffectId,
    pub kind: EffectKind,
    pub subject_ref: EntityRef,
    pub source: SourceRef,
    pub destination: Option<DestinationRef>,
    pub policy_refs: Vec<PolicyRef>,
    pub idempotency_key: Option<IdempotencyKey>,
    pub dedupe_key: Option<DedupeKey>,
    pub content_refs: Vec<ContentRefId>,
    pub redacted_summary: String,
}

impl EffectIntent {
    /// Field-wise equality, with vectors compared by their contents.
    pub open spec fn same_as(&self, other: &Self) -> bool {
        &&& self.effect_id == other.effect_id
        &&& self.kind == other.kind
        &&& self.subject_ref == other.subject_ref
        &&& self.source == other.source
        &&& self.destination == other.destination
        &&& self.policy_refs@ == other.policy_refs@
        &&& self.idempotency_key == other.idempotency_key
        &&& self.dedupe_key == other.dedupe_key
        &&& self.content_refs@ == other.content_refs@
        &&& self.redacted_summary == other.redacted_summary
    }
}

impl Clone for EffectIntent {
    fn clone(&self) -> (res: Self)
        ensures
            res.same_as(self),
    {
        let policy_refs_copy = self.policy_refs.clone();
        proof { assert(policy_refs_copy@ =~= self.policy_refs@); }
        let content_refs_copy = self.content_refs.clone();
        proof { assert(content_refs_copy@ =~= self.content_refs@); }
        EffectIntent {
            effect_id: self.effect_id.clone(),
            kind: self.kind,
            subject_ref: self.subject_ref.clone(),
            source: self.source.clone(),
            destination: self.destination.clone(),
            policy_refs: policy_refs_copy,
            idempotency_key: self.idempotency_key.clone(),
            dedupe_key: self.dedupe_key.clone(),
            content_refs: content_refs_copy,
            redacted_summary: self.redacted_summary.clone(),
        }
    }
}

/// Terminal status of a side effect.
#[derive(Clone, Copy, Debug, PartialEq, Eq, Structural)]
pub enum EffectTerminalStatus {
    Completed,
    Failed,
    TimedOut,
    Cancelled,
    DeniedBeforeExecution,
    Unknown,
}

impl crate::domain::ValueEq for EffectTerminalStatus {
    open spec fn value_eq(&self, other: &Self) -> bool {
        *self == *other
    }

    fn equals(&self, other: &Self) -> (r: bool) {
        *self == *other
    }
}

/// Journaled result of a side effect.
#[derive(Debug)]
pub struct EffectResult {
    pub effect_id: EffectId,
    pub terminal_status: EffectTerminalStatus,
    pub external_operation_id: Option<String>,
    pub reconciliation_ref: Option<String>,
    pub error_ref: Option<String>,
    pub content_refs: Vec<ContentRefId>,
    pub redacted_summary: String,
}

impl EffectResult {
    /// Field-wise equality, with vectors compared by their contents.
    pub open spec fn same_as(&self, other: &Self) -> bool {
        &&& self.effect_id == other.effect_id
        &&& self.terminal_status == other.terminal_status
        &&& self.external_operation_id == other.external_operation_id
        &&& self.reconciliation_ref == other.reconciliation_ref
        &&& self.error_ref == other.error_ref
        &&& self.content_refs@ == other.content_refs@
        &&& self.redacted_summary == other.redacted_summary
    }
}

impl Clone for EffectResult {
    fn clone(&self) -> (res: Self)
        ensures
            res.same_as(self),
    {
        let content_refs_copy = self.content_refs.clone();
        proof { assert(content_refs_copy@ =~= self.content_refs@); }
        EffectResult {
            effect_id: self.effect_id.clone(),
            terminal_status: self.terminal_status,
            external_operation_id: self.external_operation_id.clone(),
            reconciliation_ref: self.reconciliation_ref.clone(),
            error_ref: self.error_ref.clone(),
            content_refs: content_refs_copy,
            redacted_summary: self.redacted_summary.clone(),
        }
    }
}

impl EffectIntent {
    /// An intent with no destination, policy refs, keys, or content refs.
    pub fn new(
        effect_id: EffectId,
        kind: EffectKind,
        subject_ref: EntityRef,
        source: SourceRef,
        redacted_summary: String,
    ) -> (res: Self)
        ensures
            res.effect_id == effect_id,
            res.kind == kind,
            res.subject_ref == subject_ref,
            res.source == source,
            res.destination is None,
            res.policy_refs@.len() == 0,
            res.idempotency_key is None,
            res.dedupe_key is None,
            res.content_refs@.len() == 0,
            res.redacted_summary == redacted_summary,
    {
        EffectIntent {
            effect_id,
            kind,
            subject_ref,
            source,
            destination: None,
            policy_refs: Vec::new(),
            idempotency_key: None,
            dedupe_key: None,
            content_refs: Vec::new(),
            redacted_summary,
        }
    }
}

impl EffectResult {
    /// Whether this is a result of `effect_id` with the given status and summary, and nothing else.
    pub open spec fn is_plain(&self, effect_id: EffectId, status: EffectTerminalStatus, redacted_summary: Seq<char>) -> bool {
        &&& self.effect_id == effect_id
        &&& self.terminal_status == status
        &&& self.external_operation_id is None
        &&& self.reconciliation_ref is None
        &&& self.error_ref is None
        &&& self.content_refs@.len() == 0
        &&& self.redacted_summary@ == redacted_summary
    }

    /// A completed result.
    pub fn completed(effect_id: EffectId, redacted_summary: String) -> (res: Self)
        ensures
            res.is_plain(effect_id, EffectTerminalStatus::Completed, redacted_summary@),
    {
        Self::plain(effect_id, EffectTerminalStatus::Completed, redacted_summary)
    }

    /// A result whose outcome is unknown.
    pub fn unknown(effect_id: EffectId, redacted_summary: String) -> (res: Self)
        ensures
            res.is_plain(effect_id, EffectTerminalStatus::Unknown, redacted_summary@),
    {
        Self::plain(effect_id, EffectTerminalStatus::Unknown, redacted_summary)
    }

    fn plain(effect_id: EffectId, terminal_status: EffectTerminalStatus, redacted_summary: String) -> (res: Self)
        ensures
            res.is_plain(effect_id, terminal_status, redacted_summary@),
    {
        EffectResult {
            effect_id,
            terminal_status,
            external_operation_id: None,
            reconciliation_ref: None,
            error_ref: None,
            content_refs: Vec::new(),
            redacted_summary,
        }
    }
}

} // verus!
