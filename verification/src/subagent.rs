use vstd::prelude::*;
use crate::domain::{AgentId, ContentRefId, EffectId, EntityKind, EntityRef, EventId, IdempotencyKey, JournalCursor, MessageId, PolicyRef, PrivacyClass, RunId, RuntimePackageFingerprint, SourceKind, SourceRef, ToolCallId, WakeConditionId};
use crate::effect::{EffectIntent, EffectKind, EffectResult, EffectTerminalStatus};
use crate::event::{EventKind};
use crate::journal::{entity_is};
use crate::package::{ContextHandoffPolicy, SubagentRequestId, SubagentToolPolicy};
use crate::text::{concat2};

verus! {

/// Journal payload of the subagent feature.
#[derive(Debug)]
pub enum SubagentRecord {
    Started(SubagentStartedRecord),
    Handoff(SubagentHandoffRecord),
    WrappedEvent(SubagentWrappedEventRecord),
    UsageRolledUp(SubagentUsageRolledUpRecord),
    Completed(SubagentCompletedRecord),
    ChildLifecycle(ChildLifecycleRecord),
}

impl SubagentRecord {
    /// Variant-wise equality, with vectors compared by their contents.
    pub open spec fn same_as(&self, other: &Self) -> bool {
        match (*self, *other) {
            (SubagentRecord::Started(a_v0), SubagentRecord::Started(b_v0)) => (a_v0.same_as(&b_v0)),
            (SubagentRecord::Handoff(a_v0), SubagentRecord::Handoff(b_v0)) => (a_v0.same_as(&b_v0)),
            (SubagentRecord::WrappedEvent(a_v0), SubagentRecord::WrappedEvent(b_v0)) => (a_v0 == b_v0),
            (SubagentRecord::UsageRolledUp(a_v0), SubagentRecord::UsageRolledUp(b_v0)) => (a_v0 == b_v0),
            (SubagentRecord::Completed(a_v0), SubagentRecord::Completed(b_v0)) => (a_v0.same_as(&b_v0)),
            (SubagentRecord::ChildLifecycle(a_v0), SubagentRecord::ChildLifecycle(b_v0)) => (a_v0.same_as(&b_v0)),
            _ => false,
        }
    }
}

impl Clone for SubagentRecord {
    fn clone(&self) -> (res: Self)
        ensures
            res.same_as(self),
    {
        match self {
            SubagentRecord::Started(v0) => { SubagentRecord::Started(v0.clone()) }
            SubagentRecord::Handoff(v0) => { SubagentRecord::Handoff(v0.clone()) }
            SubagentRecord::WrappedEvent(v0) => { SubagentRecord::WrappedEvent(v0.clone()) }
            SubagentRecord::UsageRolledUp(v0) => { SubagentRecord::UsageRolledUp(v0.clone()) }
            SubagentRecord::Completed(v0) => { SubagentRecord::Completed(v0.clone()) }
            SubagentRecord::ChildLifecycle(v0) => { SubagentRecord::ChildLifecycle(v0.clone()) }
        }
    }
}

/// Reference to a run's journal partition.
#[derive(Debug)]
pub struct RunJournalRef {
    pub run_id: RunId,
    pub journal_partition_ref: String,
}

impl Clone for RunJournalRef {
    fn clone(&self) -> (res: Self)
        ensures
            res == *self,
    {
        RunJournalRef {
            run_id: self.run_id.clone(),
            journal_partition_ref: self.journal_partition_ref.clone(),
        }
    }
}

/// A subagent was started.
#[derive(Debug)]
pub struct SubagentStartedRecord {
    pub request_id: SubagentRequestId,
    pub parent_run_id: RunId,
    pub child_run_id: RunId,
    pub parent_tool_call_id: ToolCallId,
    pub child_agent_id: AgentId,
    pub child_package_fingerprint: RuntimePackageFingerprint,
    pub child_journal_ref: RunJournalRef,
    pub handoff_policy: ContextHandoffPolicy,
    pub tool_policy: SubagentToolPolicy,
    pub message_ids: Vec<MessageId>,
    pub wake_condition_ids: Vec<WakeConditionId>,
    pub effect_intent: EffectIntent,
}

impl SubagentStartedRecord {
    /// Field-wise equality, with vectors compared by their contents.
    pub open spec fn same_as(&self, other: &Self) -> bool {
        &&& self.request_id == other.request_id
        &&& self.parent_run_id == other.parent_run_id
        &&& self.child_run_id == other.child_run_id
        &&& self.parent_tool_call_id == other.parent_tool_call_id
        &&& self.child_agent_id == other.child_agent_id
        &&& self.child_package_fingerprint == other.child_package_fingerprint
        &&& self.child_journal_ref == other.child_journal_ref
        &&& self.handoff_policy == other.handoff_policy
        &&& self.tool_policy == other.tool_policy
        &&& self.message_ids@ == other.message_ids@
        &&& self.wake_condition_ids@ == other.wake_condition_ids@
        &&& self.effect_intent.same_as(&other.effect_intent)
    }
}

impl Clone for SubagentStartedRecord {
    fn clone(&self) -> (res: Self)
        ensures
            res.same_as(self),
    {
        let message_ids_copy = self.message_ids.clone();
        proof { assert(message_ids_copy@ =~= self.message_ids@); }
        let wake_condition_ids_copy = self.wake_condition_ids.clone();
        proof { assert(wake_condition_ids_copy@ =~= self.wake_condition_ids@); }
        SubagentStartedRecord {
            request_id: self.request_id.clone(),
            parent_run_id: self.parent_run_id.clone(),
            child_run_id: self.child_run_id.clone(),
            parent_tool_call_id: self.parent_tool_call_id.clone(),
            child_agent_id: self.child_agent_id.clone(),
            child_package_fingerprint: self.child_package_fingerprint.clone(),
            child_journal_ref: self.child_journal_ref.clone(),
            handoff_policy: self.handoff_policy,
            tool_policy: self.tool_policy,
            message_ids: message_ids_copy,
            wake_condition_ids: wake_condition_ids_copy,
            effect_intent: self.effect_intent.clone(),
        }
    }
}

/// Context was handed to a subagent.
#[derive(Debug)]
pub struct SubagentHandoffRecord {
    pub request_id: SubagentRequestId,
    pub parent_run_id: RunId,
    pub child_run_id: RunId,
    pub handoff_policy: ContextHandoffPolicy,
    pub selected_content_refs: Vec<ContentRefId>,
    pub projection_audit_ref: Option<String>,
    pub policy_refs: Vec<PolicyRef>,
    pub redaction_policy_id: String,
}

impl SubagentHandoffRecord {
    /// Field-wise equality, with vectors compared by their contents.
    pub open spec fn same_as(&self, other: &Self) -> bool {
        &&& self.request_id == other.request_id
        &&& self.parent_run_id == other.parent_run_id
        &&& self.child_run_id == other.child_run_id
        &&& self.handoff_policy == other.handoff_policy
        &&& self.selected_content_refs@ == other.selected_content_refs@
        &&& self.projection_audit_ref == other.projection_audit_ref
        &&& self.policy_refs@ == other.policy_refs@
        &&& self.redaction_policy_id == other.redaction_policy_id
    }
}

impl Clone for SubagentHandoffRecord {
    fn clone(&self) -> (res: Self)
        ensures
            res.same_as(self),
    {
        let selected_content_refs_copy = self.selected_content_refs.clone();
        proof { assert(selected_content_refs_copy@ =~= self.selected_content_refs@); }
        let policy_refs_copy = self.policy_refs.clone();
        proof { assert(policy_refs_copy@ =~= self.policy_refs@); }
        SubagentHandoffRecord {
            request_id: self.request_id.clone(),
            parent_run_id: self.parent_run_id.clone(),
            child_run_id: self.child_run_id.clone(),
            handoff_policy: self.handoff_policy,
            selected_content_refs: selected_content_refs_copy,
            projection_audit_ref: self.projection_audit_ref.clone(),
            policy_refs: policy_refs_copy,
            redaction_policy_id: self.redaction_policy_id.clone(),
        }
    }
}

/// A child event wrapped into the parent run.
#[derive(Debug)]
pub struct SubagentWrappedEventRecord {
    pub parent_run_id: RunId,
    pub child_run_id: RunId,
    pub child_agent_id: AgentId,
    pub original_child_event_id: EventId,
    pub original_child_event_kind: EventKind,
    pub wrapped_event_ref: String,
    pub child_journal_cursor: Option<JournalCursor>,
    pub child_journal_ref: RunJournalRef,
    pub privacy: PrivacyClass,
}

impl Clone for SubagentWrappedEventRecord {
    fn clone(&self) -> (res: Self)
        ensures
            res == *self,
    {
        SubagentWrappedEventRecord {
            parent_run_id: self.parent_run_id.clone(),
            child_run_id: self.child_run_id.clone(),
            child_agent_id: self.child_agent_id.clone(),
            original_child_event_id: self.original_child_event_id.clone(),
            original_child_event_kind: self.original_child_event_kind,
            wrapped_event_ref: self.wrapped_event_ref.clone(),
            child_journal_cursor: self.child_journal_cursor.clone(),
            child_journal_ref: self.child_journal_ref.clone(),
            privacy: self.privacy,
        }
    }
}

/// Child usage rolled up into the parent.
#[derive(Debug)]
pub struct SubagentUsageRolledUpRecord {
    pub child_run_id: RunId,
    pub parent_run_id: RunId,
    pub child_usage_ref: String,
    pub parent_usage_ref: String,
    pub input_tokens: u32,
    pub output_tokens: u32,
    pub total_tokens: u32,
    pub cost_micros: Option<u64>,
    pub currency: Option<String>,
    pub terminal_status: SubagentTerminalStatus,
}

impl Clone for SubagentUsageRolledUpRecord {
    fn clone(&self) -> (res: Self)
        ensures
            res == *self,
    {
        SubagentUsageRolledUpRecord {
            child_run_id: self.child_run_id.clone(),
            parent_run_id: self.parent_run_id.clone(),
            child_usage_ref: self.child_usage_ref.clone(),
            parent_usage_ref: self.parent_usage_ref.clone(),
            input_tokens: self.input_tokens,
            output_tokens: self.output_tokens,
            total_tokens: self.total_tokens,
            cost_micros: self.cost_micros.clone(),
            currency: self.currency.clone(),
            terminal_status: self.terminal_status,
        }
    }
}

/// A subagent completed.
#[derive(Debug)]
pub struct SubagentCompletedRecord {
    pub child_run_id: RunId,
    pub parent_run_id: RunId,
    pub terminal_status: SubagentTerminalStatus,
    pub result_ref: Option<ContentRefId>,
    pub error_ref: Option<String>,
    pub policy_outcome: String,
    pub effect_result: EffectResult,
}

impl SubagentCompletedRecord {
    /// Field-wise equality, with vectors compared by their contents.
    pub open spec fn same_as(&self, other: &Self) -> bool {
        &&& self.child_run_id == other.child_run_id
        &&& self.parent_run_id == other.parent_run_id
        &&& self.terminal_status == other.terminal_status
        &&& self.result_ref == other.result_ref
        &&& self.error_ref == other.error_ref
        &&& self.policy_outcome == other.policy_outcome
        &&& self.effect_result.same_as(&other.effect_result)
    }
}

impl Clone for SubagentCompletedRecord {
    fn clone(&self) -> (res: Self)
        ensures
            res.same_as(self),
    {
        SubagentCompletedRecord {
            child_run_id: self.child_run_id.clone(),
            parent_run_id: self.parent_run_id.clone(),
            terminal_status: self.terminal_status,
            result_ref: self.result_ref.clone(),
            error_ref: self.error_ref.clone(),
            policy_outcome: self.policy_outcome.clone(),
            effect_result: self.effect_result.clone(),
        }
    }
}

/// Lifecycle step of a child subagent run.
#[derive(Debug)]
pub struct ChildLifecycleRecord {
    pub child_run_id: RunId,
    pub parent_run_id: RunId,
    pub artifact_kind: ChildArtifactKind,
    pub action: ChildLifecycleAction,
    pub status: ChildLifecycleStatus,
    pub policy_refs: Vec<PolicyRef>,
    pub host_ack_ref: Option<String>,
    pub reclaim_policy_ref: Option<PolicyRef>,
    pub effect_intent: Option<EffectIntent>,
    pub effect_result: Option<EffectResult>,
    pub idempotency_key: IdempotencyKey,
}

impl ChildLifecycleRecord {
    /// Field-wise equality, with vectors compared by their contents.
    pub open spec fn same_as(&self, other: &Self) -> bool {
        &&& self.child_run_id == other.child_run_id
        &&& self.parent_run_id == other.parent_run_id
        &&& self.artifact_kind == other.artifact_kind
        &&& self.action == other.action
        &&& self.status == other.status
        &&& self.policy_refs@ == other.policy_refs@
        &&& self.host_ack_ref == other.host_ack_ref
        &&& self.reclaim_policy_ref == other.reclaim_policy_ref
        &&& (self.effect_intent.is_some() == other.effect_intent.is_some() && (self.effect_intent.is_some() ==> self.effect_intent.unwrap().same_as(&other.effect_intent.unwrap())))
        &&& (self.effect_result.is_some() == other.effect_result.is_some() && (self.effect_result.is_some() ==> self.effect_result.unwrap().same_as(&other.effect_result.unwrap())))
        &&& self.idempotency_key == other.idempotency_key
    }
}

impl Clone for ChildLifecycleRecord {
    fn clone(&self) -> (res: Self)
        ensures
            res.same_as(self),
    {
        let policy_refs_copy = self.policy_refs.clone();
        proof { assert(policy_refs_copy@ =~= self.policy_refs@); }
        ChildLifecycleRecord {
            child_run_id: self.child_run_id.clone(),
            parent_run_id: self.parent_run_id.clone(),
            artifact_kind: self.artifact_kind,
            action: self.action,
            status: self.status,
            policy_refs: policy_refs_copy,
            host_ack_ref: self.host_ack_ref.clone(),
            reclaim_policy_ref: self.reclaim_policy_ref.clone(),
            effect_intent: match &self.effect_intent { Some(x15) => {  Some(x15.clone()) }, None => None },
            effect_result: match &self.effect_result { Some(x16) => {  Some(x16.clone()) }, None => None },
            idempotency_key: self.idempotency_key.clone(),
        }
    }
}

/// Kind of child artifact.
#[derive(Clone, Copy, Debug, PartialEq, Eq, Structural)]
pub enum ChildArtifactKind {
    SubagentRun,
}

impl crate::domain::ValueEq for ChildArtifactKind {
    open spec fn value_eq(&self, other: &Self) -> bool {
        *self == *other
    }

    fn equals(&self, other: &Self) -> (r: bool) {
        *self == *other
    }
}

/// Child lifecycle action.
#[derive(Clone, Copy, Debug, PartialEq, Eq, Structural)]
pub enum ChildLifecycleAction {
    ShutdownIntent,
    ShutdownCompleted,
    DetachIntent,
    Detached,
}

impl crate::domain::ValueEq for ChildLifecycleAction {
    open spec fn value_eq(&self, other: &Self) -> bool {
        *self == *other
    }

    fn equals(&self, other: &Self) -> (r: bool) {
        *self == *other
    }
}

/// Child lifecycle status.
#[derive(Clone, Copy, Debug, PartialEq, Eq, Structural)]
pub enum ChildLifecycleStatus {
    Requested,
    Completed,
    Detached,
    Failed,
}

impl crate::domain::ValueEq for ChildLifecycleStatus {
    open spec fn value_eq(&self, other: &Self) -> bool {
        *self == *other
    }

    fn equals(&self, other: &Self) -> (r: bool) {
        *self == *other
    }
}

/// Terminal status of a subagent.
#[derive(Clone, Copy, Debug, PartialEq, Eq, Structural)]
pub enum SubagentTerminalStatus {
    Completed,
    Failed,
    Cancelled,
    Detached,
}

impl crate::domain::ValueEq for SubagentTerminalStatus {
    open spec fn value_eq(&self, other: &Self) -> bool {
        *self == *other
    }

    fn equals(&self, other: &Self) -> (r: bool) {
        *self == *other
    }
}

impl SubagentRecord {
    /// The record's kind name.
    pub open spec fn kind_spec(&self) -> Seq<char> {
        match *self {
            SubagentRecord::Started(_) => "subagent_started"@,
            SubagentRecord::Handoff(_) => "subagent_handoff"@,
            SubagentRecord::WrappedEvent(_) => "subagent_event"@,
            SubagentRecord::UsageRolledUp(_) => "subagent_usage_rolled_up"@,
            SubagentRecord::Completed(_) => "subagent_completed"@,
            SubagentRecord::ChildLifecycle(_) => "child_lifecycle"@,
        }
    }

    /// The record's kind name.
    pub fn kind(&self) -> (res: &'static str)
        ensures
            res@ == self.kind_spec(),
    {
        match self {
            SubagentRecord::Started(_) => "subagent_started",
            SubagentRecord::Handoff(_) => "subagent_handoff",
            SubagentRecord::WrappedEvent(_) => "subagent_event",
            SubagentRecord::UsageRolledUp(_) => "subagent_usage_rolled_up",
            SubagentRecord::Completed(_) => "subagent_completed",
            SubagentRecord::ChildLifecycle(_) => "child_lifecycle",
        }
    }
}

impl RunJournalRef {
    /// The journal partition of a run: `journal.run.<run id>`.
    pub fn for_run(run_id: RunId) -> (res: Self)
        ensures
            res.run_id == run_id,
            res.journal_partition_ref@ == "journal.run."@ + run_id@,
    {
        let journal_partition_ref = concat2("journal.run.", run_id.as_str());
        RunJournalRef { journal_partition_ref, run_id }
    }
}

/// Id of the effect that shuts a child run down.
pub open spec fn shutdown_effect_text(child_run_id: Seq<char>) -> Seq<char> {
    "effect.subagent.shutdown."@ + child_run_id
}

/// Id of the effect that detaches a child run.
pub open spec fn detach_effect_text(child_run_id: Seq<char>) -> Seq<char> {
    "effect.subagent.detach."@ + child_run_id
}

fn shutdown_effect_id(child_run_id: &RunId) -> (res: EffectId)
    ensures
        res@ == shutdown_effect_text(child_run_id@),
{
    EffectId::new(concat2("effect.subagent.shutdown.", child_run_id.as_str()))
}

fn detach_effect_id(child_run_id: &RunId) -> (res: EffectId)
    ensures
        res@ == detach_effect_text(child_run_id@),
{
    EffectId::new(concat2("effect.subagent.detach.", child_run_id.as_str()))
}

/// Whether `intent` is the SDK's intent of the given kind about a child run, under the given
/// policies and idempotency key.
pub open spec fn is_child_intent(
    intent: EffectIntent,
    effect_id: Seq<char>,
    kind: EffectKind,
    child_run_id: RunId,
    policy_refs: Seq<PolicyRef>,
    idempotency_key: IdempotencyKey,
    redacted_summary: Seq<char>,
) -> bool {
    &&& intent.effect_id@ == effect_id
    &&& intent.kind == kind
    &&& entity_is(intent.subject_ref, EntityKind::SubagentRun, child_run_id@)
    &&& intent.source.kind == SourceKind::Sdk
    &&& intent.source.id@ == "source.sdk.subagent"@
    &&& intent.destination is None
    &&& intent.policy_refs@ == policy_refs
    &&& intent.idempotency_key == Some(idempotency_key)
    &&& intent.dedupe_key is None
    &&& intent.content_refs@.len() == 0
    &&& intent.redacted_summary@ == redacted_summary
}

fn child_intent(
    effect_id: EffectId,
    kind: EffectKind,
    child_run_id: &RunId,
    policy_refs: &Vec<PolicyRef>,
    idempotency_key: &IdempotencyKey,
    redacted_summary: &str,
) -> (res: EffectIntent)
    ensures
        is_child_intent(res, effect_id@, kind, *child_run_id, policy_refs@, *idempotency_key, redacted_summary@),
{
    let mut intent = EffectIntent::new(
        effect_id,
        kind,
        EntityRef::new(EntityKind::SubagentRun, child_run_id.as_str()),
        SourceRef::with_kind(SourceKind::Sdk, "source.sdk.subagent"),
        redacted_summary.to_string(),
    );
    let refs = policy_refs.clone();
    proof {
        assert(refs@ =~= policy_refs@);
    }
    intent.policy_refs = refs;
    intent.idempotency_key = Some(idempotency_key.clone());
    intent
}

impl ChildLifecycleRecord {
    /// Whether the two records are about the same child, under the same policies, keys and
    /// intent.
    pub open spec fn same_child(&self, other: Self) -> bool {
        &&& self.child_run_id == other.child_run_id
        &&& self.parent_run_id == other.parent_run_id
        &&& self.artifact_kind == other.artifact_kind
        &&& self.policy_refs@ == other.policy_refs@
        &&& self.host_ack_ref == other.host_ack_ref
        &&& self.reclaim_policy_ref == other.reclaim_policy_ref
        &&& self.effect_intent is Some == other.effect_intent is Some
        &&& self.effect_intent is Some ==> self.effect_intent.unwrap().same_as(&other.effect_intent.unwrap())
        &&& self.idempotency_key == other.idempotency_key
    }

    /// The parent's request to shut a child run down, with the intent of that effect.
    pub fn shutdown_intent(
        parent_run_id: RunId,
        child_run_id: RunId,
        policy_refs: Vec<PolicyRef>,
        idempotency_key: IdempotencyKey,
    ) -> (res: Self)
        ensures
            res.child_run_id == child_run_id,
            res.parent_run_id == parent_run_id,
            res.artifact_kind == ChildArtifactKind::SubagentRun,
            res.action == ChildLifecycleAction::ShutdownIntent,
            res.status == ChildLifecycleStatus::Requested,
            res.policy_refs == policy_refs,
            res.host_ack_ref is None,
            res.reclaim_policy_ref is None,
            res.effect_intent is Some,
            is_child_intent(
                res.effect_intent.unwrap(),
                shutdown_effect_text(child_run_id@),
                EffectKind::ChildArtifactShutdown,
                child_run_id,
                policy_refs@,
                idempotency_key,
                "parent requested child subagent shutdown"@,
            ),
            res.effect_result is None,
            res.idempotency_key == idempotency_key,
    {
        let effect_id = shutdown_effect_id(&child_run_id);
        let intent = child_intent(
            effect_id,
            EffectKind::ChildArtifactShutdown,
            &child_run_id,
            &policy_refs,
            &idempotency_key,
            "parent requested child subagent shutdown",
        );
        ChildLifecycleRecord {
            child_run_id,
            parent_run_id,
            artifact_kind: ChildArtifactKind::SubagentRun,
            action: ChildLifecycleAction::ShutdownIntent,
            status: ChildLifecycleStatus::Requested,
            policy_refs,
            host_ack_ref: None,
            reclaim_policy_ref: None,
            effect_intent: Some(intent),
            effect_result: None,
            idempotency_key,
        }
    }

    /// The shutdown, completed: the shutdown effect ended as cancelled.
    pub fn shutdown_completed(&self) -> (res: Self)
        ensures
            res.same_child(*self),
            res.action == ChildLifecycleAction::ShutdownCompleted,
            res.status == ChildLifecycleStatus::Completed,
            res.effect_result is Some,
            res.effect_result.unwrap().effect_id@ == shutdown_effect_text(self.child_run_id@),
            res.effect_result.unwrap().terminal_status == EffectTerminalStatus::Cancelled,
            res.effect_result.unwrap().external_operation_id is None,
            res.effect_result.unwrap().reconciliation_ref is None,
            res.effect_result.unwrap().error_ref is None,
            res.effect_result.unwrap().content_refs@.len() == 0,
            res.effect_result.unwrap().redacted_summary@ == "parent-owned child subagent shutdown completed"@,
    {
        let mut completed = self.clone();
        completed.action = ChildLifecycleAction::ShutdownCompleted;
        completed.status = ChildLifecycleStatus::Completed;
        let effect_id = shutdown_effect_id(&completed.child_run_id);
        completed.effect_result = Some(EffectResult {
            effect_id,
            terminal_status: EffectTerminalStatus::Cancelled,
            external_operation_id: None,
            reconciliation_ref: None,
            error_ref: None,
            content_refs: Vec::new(),
            redacted_summary: "parent-owned child subagent shutdown completed".to_string(),
        });
        completed
    }

    /// The parent's request to detach a child run to the host, with the intent of that
    /// transfer.
    pub fn detach_intent(
        parent_run_id: RunId,
        child_run_id: RunId,
        policy_refs: Vec<PolicyRef>,
        host_ack_ref: String,
        reclaim_policy_ref: PolicyRef,
        idempotency_key: IdempotencyKey,
    ) -> (res: Self)
        ensures
            res.child_run_id == child_run_id,
            res.parent_run_id == parent_run_id,
            res.artifact_kind == ChildArtifactKind::SubagentRun,
            res.action == ChildLifecycleAction::DetachIntent,
            res.status == ChildLifecycleStatus::Requested,
            res.policy_refs == policy_refs,
            res.host_ack_ref == Some(host_ack_ref),
            res.reclaim_policy_ref == Some(reclaim_policy_ref),
            res.effect_intent is Some,
            is_child_intent(
                res.effect_intent.unwrap(),
                detach_effect_text(child_run_id@),
                EffectKind::DetachTransfer,
                child_run_id,
                policy_refs@,
                idempotency_key,
                "parent requested explicit child subagent detach"@,
            ),
            res.effect_result is None,
            res.idempotency_key == idempotency_key,
    {
        let effect_id = detach_effect_id(&child_run_id);
        let intent = child_intent(
            effect_id,
            EffectKind::DetachTransfer,
            &child_run_id,
            &policy_refs,
            &idempotency_key,
            "parent requested explicit child subagent detach",
        );
        ChildLifecycleRecord {
            child_run_id,
            parent_run_id,
            artifact_kind: ChildArtifactKind::SubagentRun,
            action: ChildLifecycleAction::DetachIntent,
            status: ChildLifecycleStatus::Requested,
            policy_refs,
            host_ack_ref: Some(host_ack_ref),
            reclaim_policy_ref: Some(reclaim_policy_ref),
            effect_intent: Some(intent),
            effect_result: None,
            idempotency_key,
        }
    }

    /// The detach, completed: the transfer effect completed, with the host's acknowledgement
    /// as operation id and the reclaim policy as reconciliation ref.
    pub fn detached(&self) -> (res: Self)
        ensures
            res.same_child(*self),
            res.action == ChildLifecycleAction::Detached,
            res.status == ChildLifecycleStatus::Detached,
            res.effect_result is Some,
            res.effect_result.unwrap().effect_id@ == detach_effect_text(self.child_run_id@),
            res.effect_result.unwrap().terminal_status == EffectTerminalStatus::Completed,
            res.effect_result.unwrap().external_operation_id == self.host_ack_ref,
            match self.reclaim_policy_ref {
                Some(p) => res.effect_result.unwrap().reconciliation_ref is Some
                    && res.effect_result.unwrap().reconciliation_ref.unwrap()@ == p.id@,
                None => res.effect_result.unwrap().reconciliation_ref is None,
            },
            res.effect_result.unwrap().error_ref is None,
            res.effect_result.unwrap().content_refs@.len() == 0,
            res.effect_result.unwrap().redacted_summary@ == "parent-owned child subagent detach completed"@,
    {
        let mut detached = self.clone();
        detached.action = ChildLifecycleAction::Detached;
        detached.status = ChildLifecycleStatus::Detached;
        let effect_id = detach_effect_id(&detached.child_run_id);
        let reconciliation_ref = match &detached.reclaim_policy_ref {
            Some(policy) => Some(policy.as_str().to_string()),
            None => None,
        };
        detached.effect_result = Some(EffectResult {
            effect_id,
            terminal_status: EffectTerminalStatus::Completed,
            external_operation_id: detached.host_ack_ref.clone(),
            reconciliation_ref,
            error_ref: None,
            content_refs: Vec::new(),
            redacted_summary: "parent-owned child subagent detach completed".to_string(),
        });
        detached
    }
}

/// The result that completes a shutdown is of the effect the shutdown intent announced.
pub proof fn lemma_shutdown_result_matches_intent(requested: ChildLifecycleRecord, completed: ChildLifecycleRecord)
    requires
        requested.effect_intent is Some,
        requested.effect_intent.unwrap().effect_id@ == shutdown_effect_text(requested.child_run_id@),
        completed.same_child(requested),
        completed.effect_result is Some,
        completed.effect_result.unwrap().effect_id@ == shutdown_effect_text(requested.child_run_id@),
    ensures
        completed.effect_result.unwrap().effect_id@ == completed.effect_intent.unwrap().effect_id@,
{
}

/// The result that completes a detach is of the effect the detach intent announced.
pub proof fn lemma_detach_result_matches_intent(requested: ChildLifecycleRecord, detached: ChildLifecycleRecord)
    requires
        requested.effect_intent is Some,
        requested.effect_intent.unwrap().effect_id@ == detach_effect_text(requested.child_run_id@),
        detached.same_child(requested),
        detached.effect_result is Some,
        detached.effect_result.unwrap().effect_id@ == detach_effect_text(requested.child_run_id@),
    ensures
        detached.effect_result.unwrap().effect_id@ == detached.effect_intent.unwrap().effect_id@,
{
}

} // verus!
