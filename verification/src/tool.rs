use vstd::prelude::*;
use crate::domain::{ContentRefId, DestinationRef, EffectId, EntityKind, EntityRef, IdValidationError, IdempotencyKey, MAX_ID_LEN, PolicyRef, PrivacyClass, RetentionClass, RunId, SourceRef, ToolCallId, TurnId, byte_offset, char_is_control, is_control_char, lemma_encode_utf8_len_bounds};
use crate::effect::{EffectIntent, EffectResult, EffectTerminalStatus};
use crate::journal::{EventIndexProjection, JOURNAL_SCHEMA_VERSION, JournalRecord, JournalRecordBase, JournalRecordKind, JournalRecordPayload, concat_content_refs, content_entity_views, entity_is, entity_views, push_content_entities};
use crate::package::{CapabilityId, CapabilityNamespace, ExecutorRef, PackageSidecarRef};
use crate::policy::{EffectClass, PolicyOutcome, RiskClass};
use crate::text::{string_views};

verus! {

/// Canonical name of a tool; nonempty, bounded, without control characters.
#[derive(Debug)]
pub struct CanonicalToolName(String);

impl View for CanonicalToolName {
    type V = Seq<char>;

    closed spec fn view(&self) -> Seq<char> {
        self.0@
    }
}

impl Clone for CanonicalToolName {
    fn clone(&self) -> (res: Self)
        ensures
            res == *self,
    {
        CanonicalToolName(self.0.clone())
    }
}

impl crate::domain::ValueEq for CanonicalToolName {
    open spec fn value_eq(&self, other: &Self) -> bool {
        self@ == other@
    }

    fn equals(&self, other: &Self) -> (r: bool) {
        let r = self.0 == other.0;
        proof {
            assert(self@ == self.0@ && other@ == other.0@);
            assert(r == (self@ == other@));
            assert(r == self.value_eq(other));
        }
        r
    }
}

impl CanonicalToolName {
    /// Builds the identifier from a value that passes `validate_tool_name`.
    pub fn new(value: String) -> (res: Self)
        requires
            crate::tool::tool_name_check(value@) is Ok,
        ensures
            res@ == value@,
    {
        CanonicalToolName(value)
    }

    /// Validates the value and builds the identifier, or returns the validation error.
    pub fn try_new(value: String) -> (res: Result<Self, crate::domain::IdValidationError>)
        ensures
            match res {
                Ok(id) => crate::tool::tool_name_check(value@) is Ok && id@ == value@,
                Err(e) => crate::tool::tool_name_check(value@) == Err::<(), crate::domain::IdValidationError>(e),
            },
    {
        match crate::tool::validate_tool_name(value.as_str()) {
            Ok(()) => Ok(CanonicalToolName(value)),
            Err(e) => Err(e),
        }
    }

    /// Returns the identifier text.
    pub fn as_str(&self) -> (res: &str)
        ensures
            res@ == self@,
    {
        self.0.as_str()
    }
}

/// Journal payload of one tool call.
#[derive(Debug)]
pub struct ToolCallRecord {
    pub tool_call_id: ToolCallId,
    pub run_id: RunId,
    pub turn_id: Option<TurnId>,
    pub capability_id: CapabilityId,
    pub canonical_tool_name: CanonicalToolName,
    pub namespace: CapabilityNamespace,
    pub source: SourceRef,
    pub destination: DestinationRef,
    pub executor_ref: Option<ExecutorRef>,
    pub policy_refs: Vec<PolicyRef>,
    pub sidecar_refs: Vec<PackageSidecarRef>,
    pub effect_class: EffectClass,
    pub risk_class: RiskClass,
    pub privacy: PrivacyClass,
    pub retention: RetentionClass,
    pub requested_args_refs: Vec<ContentRefId>,
    pub redacted_args_summary: String,
    pub result_content_refs: Vec<ContentRefId>,
    pub redacted_result_summary: Option<String>,
    pub idempotency_key: Option<IdempotencyKey>,
    pub status: ToolCallRecordStatus,
    pub policy_outcome: Option<PolicyOutcome>,
    pub effect_intent: Option<EffectIntent>,
    pub effect_result: Option<EffectResult>,
    pub unsafe_pending_reason: Option<String>,
}

impl ToolCallRecord {
    /// Field-wise equality, with vectors compared by their contents.
    pub open spec fn same_as(&self, other: &Self) -> bool {
        &&& self.tool_call_id == other.tool_call_id
        &&& self.run_id == other.run_id
        &&& self.turn_id == other.turn_id
        &&& self.capability_id == other.capability_id
        &&& self.canonical_tool_name == other.canonical_tool_name
        &&& self.namespace == other.namespace
        &&& self.source == other.source
        &&& self.destination == other.destination
        &&& self.executor_ref == other.executor_ref
        &&& self.policy_refs@ == other.policy_refs@
        &&& self.sidecar_refs@ == other.sidecar_refs@
        &&& self.effect_class == other.effect_class
        &&& self.risk_class == other.risk_class
        &&& self.privacy == other.privacy
        &&& self.retention == other.retention
        &&& self.requested_args_refs@ == other.requested_args_refs@
        &&& self.redacted_args_summary == other.redacted_args_summary
        &&& self.result_content_refs@ == other.result_content_refs@
        &&& self.redacted_result_summary == other.redacted_result_summary
        &&& self.idempotency_key == other.idempotency_key
        &&& self.status == other.status
        &&& (self.policy_outcome.is_some() == other.policy_outcome.is_some() && (self.policy_outcome.is_some() ==> self.policy_outcome.unwrap().same_as(&other.policy_outcome.unwrap())))
        &&& (self.effect_intent.is_some() == other.effect_intent.is_some() && (self.effect_intent.is_some() ==> self.effect_intent.unwrap().same_as(&other.effect_intent.unwrap())))
        &&& (self.effect_result.is_some() == other.effect_result.is_some() && (self.effect_result.is_some() ==> self.effect_result.unwrap().same_as(&other.effect_result.unwrap())))
        &&& self.unsafe_pending_reason == other.unsafe_pending_reason
    }
}

impl Clone for ToolCallRecord {
    fn clone(&self) -> (res: Self)
        ensures
            res.same_as(self),
    {
        let policy_refs_copy = self.policy_refs.clone();
        proof { assert(policy_refs_copy@ =~= self.policy_refs@); }
        let sidecar_refs_copy = self.sidecar_refs.clone();
        proof { assert(sidecar_refs_copy@ =~= self.sidecar_refs@); }
        let requested_args_refs_copy = self.requested_args_refs.clone();
        proof { assert(requested_args_refs_copy@ =~= self.requested_args_refs@); }
        let result_content_refs_copy = self.result_content_refs.clone();
        proof { assert(result_content_refs_copy@ =~= self.result_content_refs@); }
        ToolCallRecord {
            tool_call_id: self.tool_call_id.clone(),
            run_id: self.run_id.clone(),
            turn_id: self.turn_id.clone(),
            capability_id: self.capability_id.clone(),
            canonical_tool_name: self.canonical_tool_name.clone(),
            namespace: self.namespace.clone(),
            source: self.source.clone(),
            destination: self.destination.clone(),
            executor_ref: self.executor_ref.clone(),
            policy_refs: policy_refs_copy,
            sidecar_refs: sidecar_refs_copy,
            effect_class: self.effect_class,
            risk_class: self.risk_class,
            privacy: self.privacy,
            retention: self.retention,
            requested_args_refs: requested_args_refs_copy,
            redacted_args_summary: self.redacted_args_summary.clone(),
            result_content_refs: result_content_refs_copy,
            redacted_result_summary: self.redacted_result_summary.clone(),
            idempotency_key: self.idempotency_key.clone(),
            status: self.status,
            policy_outcome: match &self.policy_outcome { Some(x10) => {  Some(x10.clone()) }, None => None },
            effect_intent: match &self.effect_intent { Some(x11) => {  Some(x11.clone()) }, None => None },
            effect_result: match &self.effect_result { Some(x12) => {  Some(x12.clone()) }, None => None },
            unsafe_pending_reason: self.unsafe_pending_reason.clone(),
        }
    }
}

/// Inputs of a requested tool call record.
#[derive(Debug)]
pub struct ToolCallRecordParams {
    pub tool_call_id: ToolCallId,
    pub run_id: RunId,
    pub turn_id: Option<TurnId>,
    pub capability_id: CapabilityId,
    pub canonical_tool_name: CanonicalToolName,
    pub namespace: CapabilityNamespace,
    pub source: SourceRef,
    pub destination: DestinationRef,
    pub executor_ref: Option<ExecutorRef>,
    pub policy_refs: Vec<PolicyRef>,
    pub sidecar_refs: Vec<PackageSidecarRef>,
    pub effect_class: EffectClass,
    pub risk_class: RiskClass,
    pub privacy: PrivacyClass,
    pub retention: RetentionClass,
    pub requested_args_refs: Vec<ContentRefId>,
    pub redacted_args_summary: String,
    pub idempotency_key: Option<IdempotencyKey>,
}

impl ToolCallRecordParams {
    /// Field-wise equality, with vectors compared by their contents.
    pub open spec fn same_as(&self, other: &Self) -> bool {
        &&& self.tool_call_id == other.tool_call_id
        &&& self.run_id == other.run_id
        &&& self.turn_id == other.turn_id
        &&& self.capability_id == other.capability_id
        &&& self.canonical_tool_name == other.canonical_tool_name
        &&& self.namespace == other.namespace
        &&& self.source == other.source
        &&& self.destination == other.destination
        &&& self.executor_ref == other.executor_ref
        &&& self.policy_refs@ == other.policy_refs@
        &&& self.sidecar_refs@ == other.sidecar_refs@
        &&& self.effect_class == other.effect_class
        &&& self.risk_class == other.risk_class
        &&& self.privacy == other.privacy
        &&& self.retention == other.retention
        &&& self.requested_args_refs@ == other.requested_args_refs@
        &&& self.redacted_args_summary == other.redacted_args_summary
        &&& self.idempotency_key == other.idempotency_key
    }
}

impl Clone for ToolCallRecordParams {
    fn clone(&self) -> (res: Self)
        ensures
            res.same_as(self),
    {
        let policy_refs_copy = self.policy_refs.clone();
        proof { assert(policy_refs_copy@ =~= self.policy_refs@); }
        let sidecar_refs_copy = self.sidecar_refs.clone();
        proof { assert(sidecar_refs_copy@ =~= self.sidecar_refs@); }
        let requested_args_refs_copy = self.requested_args_refs.clone();
        proof { assert(requested_args_refs_copy@ =~= self.requested_args_refs@); }
        ToolCallRecordParams {
            tool_call_id: self.tool_call_id.clone(),
            run_id: self.run_id.clone(),
            turn_id: self.turn_id.clone(),
            capability_id: self.capability_id.clone(),
            canonical_tool_name: self.canonical_tool_name.clone(),
            namespace: self.namespace.clone(),
            source: self.source.clone(),
            destination: self.destination.clone(),
            executor_ref: self.executor_ref.clone(),
            policy_refs: policy_refs_copy,
            sidecar_refs: sidecar_refs_copy,
            effect_class: self.effect_class,
            risk_class: self.risk_class,
            privacy: self.privacy,
            retention: self.retention,
            requested_args_refs: requested_args_refs_copy,
            redacted_args_summary: self.redacted_args_summary.clone(),
            idempotency_key: self.idempotency_key.clone(),
        }
    }
}

/// Status of a tool call record.
#[derive(Clone, Copy, Debug, PartialEq, Eq, Structural)]
pub enum ToolCallRecordStatus {
    Requested,
    IntentRecorded,
    Completed,
    Failed,
    TimedOut,
    Cancelled,
    DeniedBeforeExecution,
    Unknown,
    RecoveryRequired,
}

impl crate::domain::ValueEq for ToolCallRecordStatus {
    open spec fn value_eq(&self, other: &Self) -> bool {
        *self == *other
    }

    fn equals(&self, other: &Self) -> (r: bool) {
        *self == *other
    }
}

/// Reference to a tool call's result content.
#[derive(Debug)]
pub struct ToolResultRef {
    pub tool_call_id: ToolCallId,
    pub effect_id: EffectId,
    pub content_refs: Vec<ContentRefId>,
    pub redacted_summary: String,
    pub privacy: PrivacyClass,
    pub retention: RetentionClass,
}

impl ToolResultRef {
    /// Field-wise equality, with vectors compared by their contents.
    pub open spec fn same_as(&self, other: &Self) -> bool {
        &&& self.tool_call_id == other.tool_call_id
        &&& self.effect_id == other.effect_id
        &&& self.content_refs@ == other.content_refs@
        &&& self.redacted_summary == other.redacted_summary
        &&& self.privacy == other.privacy
        &&& self.retention == other.retention
    }
}

impl Clone for ToolResultRef {
    fn clone(&self) -> (res: Self)
        ensures
            res.same_as(self),
    {
        let content_refs_copy = self.content_refs.clone();
        proof { assert(content_refs_copy@ =~= self.content_refs@); }
        ToolResultRef {
            tool_call_id: self.tool_call_id.clone(),
            effect_id: self.effect_id.clone(),
            content_refs: content_refs_copy,
            redacted_summary: self.redacted_summary.clone(),
            privacy: self.privacy,
            retention: self.retention,
        }
    }
}

/// Index of the first control character at or after `i`, or -1.
pub open spec fn first_control_from(s: Seq<char>, i: int) -> int
    decreases s.len() - i,
{
    if i < 0 || i >= s.len() {
        -1
    } else if is_control_char(s[i]) {
        i
    } else {
        first_control_from(s, i + 1)
    }
}

/// Whether `s` is a valid canonical tool name: nonempty, at most `MAX_ID_LEN` UTF-8
/// bytes, without control characters. The error names the first violation.
pub open spec fn tool_name_check(s: Seq<char>) -> Result<(), IdValidationError> {
    let len = vstd::utf8::encode_utf8(s).len();
    if s.len() == 0 {
        Err(IdValidationError::Empty)
    } else if len > MAX_ID_LEN {
        Err(IdValidationError::TooLong { max: MAX_ID_LEN, actual: len as usize })
    } else {
        let i = first_control_from(s, 0);
        if i < 0 {
            Ok(())
        } else {
            Err(IdValidationError::ControlCharacter { index: byte_offset(s, i) as usize })
        }
    }
}

/// Checks `value` against `tool_name_check`.
pub fn validate_tool_name(value: &str) -> (r: Result<(), IdValidationError>)
    ensures
        r == tool_name_check(value@),
{
    let n = value.unicode_len();
    if n == 0 {
        return Err(IdValidationError::Empty);
    }
    proof {
        lemma_encode_utf8_len_bounds(value@);
    }
    let byte_len = value.len();
    if n > MAX_ID_LEN || byte_len > MAX_ID_LEN {
        return Err(IdValidationError::TooLong { max: MAX_ID_LEN, actual: byte_len });
    }
    let mut i: usize = 0;
    while i < n
        invariant
            n == value@.len(),
            n > 0,
            vstd::utf8::encode_utf8(value@).len() <= MAX_ID_LEN,
            0 <= i <= n,
            first_control_from(value@, 0) == first_control_from(value@, i as int),
        decreases n - i,
    {
        let c = value.get_char(i);
        if char_is_control(c) {
            let prefix = value.substring_char(0, i);
            return Err(IdValidationError::ControlCharacter { index: prefix.len() });
        }
        proof {
            assert(first_control_from(value@, i as int) == first_control_from(value@, i + 1));
        }
        i = i + 1;
    }
    Ok(())
}

impl CanonicalToolName {
    /// The display text of a tool name, which never shows the name itself.
    pub fn redacted_display(&self) -> (res: String)
        ensures
            res@ == "CanonicalToolName(redacted)"@,
    {
        "CanonicalToolName(redacted)".to_string()
    }
}

impl ToolCallRecord {
    /// Whether the two records describe the same call: every field but the outcome fields
    /// (status, results, policy outcome, effect intent and result, pending reason).
    pub open spec fn same_call(&self, other: Self) -> bool {
        &&& self.tool_call_id == other.tool_call_id
        &&& self.run_id == other.run_id
        &&& self.turn_id == other.turn_id
        &&& self.capability_id == other.capability_id
        &&& self.canonical_tool_name == other.canonical_tool_name
        &&& self.namespace == other.namespace
        &&& self.source == other.source
        &&& self.destination == other.destination
        &&& self.executor_ref == other.executor_ref
        &&& self.policy_refs == other.policy_refs
        &&& self.sidecar_refs == other.sidecar_refs
        &&& self.effect_class == other.effect_class
        &&& self.risk_class == other.risk_class
        &&& self.privacy == other.privacy
        &&& self.retention == other.retention
        &&& self.requested_args_refs == other.requested_args_refs
        &&& self.redacted_args_summary == other.redacted_args_summary
        &&& self.idempotency_key == other.idempotency_key
    }

    /// A requested tool call, with no outcome yet.
    pub fn requested(params: ToolCallRecordParams) -> (res: Self)
        ensures
            res.tool_call_id == params.tool_call_id,
            res.run_id == params.run_id,
            res.turn_id == params.turn_id,
            res.capability_id == params.capability_id,
            res.canonical_tool_name == params.canonical_tool_name,
            res.namespace == params.namespace,
            res.source == params.source,
            res.destination == params.destination,
            res.executor_ref == params.executor_ref,
            res.policy_refs == params.policy_refs,
            res.sidecar_refs == params.sidecar_refs,
            res.effect_class == params.effect_class,
            res.risk_class == params.risk_class,
            res.privacy == params.privacy,
            res.retention == params.retention,
            res.requested_args_refs == params.requested_args_refs,
            res.redacted_args_summary == params.redacted_args_summary,
            res.idempotency_key == params.idempotency_key,
            res.result_content_refs@.len() == 0,
            res.redacted_result_summary is None,
            res.status == ToolCallRecordStatus::Requested,
            res.policy_outcome is None,
            res.effect_intent is None,
            res.effect_result is None,
            res.unsafe_pending_reason is None,
    {
        ToolCallRecord {
            tool_call_id: params.tool_call_id,
            run_id: params.run_id,
            turn_id: params.turn_id,
            capability_id: params.capability_id,
            canonical_tool_name: params.canonical_tool_name,
            namespace: params.namespace,
            source: params.source,
            destination: params.destination,
            executor_ref: params.executor_ref,
            policy_refs: params.policy_refs,
            sidecar_refs: params.sidecar_refs,
            effect_class: params.effect_class,
            risk_class: params.risk_class,
            privacy: params.privacy,
            retention: params.retention,
            requested_args_refs: params.requested_args_refs,
            redacted_args_summary: params.redacted_args_summary,
            result_content_refs: Vec::new(),
            redacted_result_summary: None,
            idempotency_key: params.idempotency_key,
            status: ToolCallRecordStatus::Requested,
            policy_outcome: None,
            effect_intent: None,
            effect_result: None,
            unsafe_pending_reason: None,
        }
    }

    /// The tool call as an entity.
    pub fn subject_ref(&self) -> (res: EntityRef)
        ensures
            entity_is(res, EntityKind::ToolCall, self.tool_call_id@),
    {
        EntityRef::new(EntityKind::ToolCall, self.tool_call_id.as_str())
    }

    /// The call, denied by policy before execution.
    pub fn with_denial(self, policy_outcome: PolicyOutcome) -> (res: Self)
        ensures
            res.same_call(self),
            res.status == ToolCallRecordStatus::DeniedBeforeExecution,
            res.policy_outcome == Some(policy_outcome),
            res.result_content_refs == self.result_content_refs,
            res.redacted_result_summary == self.redacted_result_summary,
            res.effect_intent == self.effect_intent,
            res.effect_result == self.effect_result,
            res.unsafe_pending_reason == self.unsafe_pending_reason,
    {
        let mut record = self;
        record.status = ToolCallRecordStatus::DeniedBeforeExecution;
        record.policy_outcome = Some(policy_outcome);
        record
    }

    /// The call, with its effect intent recorded.
    pub fn with_intent(self, intent: EffectIntent) -> (res: Self)
        ensures
            res.same_call(self),
            res.status == ToolCallRecordStatus::IntentRecorded,
            res.effect_intent == Some(intent),
            res.result_content_refs == self.result_content_refs,
            res.redacted_result_summary == self.redacted_result_summary,
            res.policy_outcome == self.policy_outcome,
            res.effect_result == self.effect_result,
            res.unsafe_pending_reason == self.unsafe_pending_reason,
    {
        let mut record = self;
        record.status = ToolCallRecordStatus::IntentRecorded;
        record.effect_intent = Some(intent);
        record
    }

    /// The call, with its effect result: the status follows the terminal status, and the
    /// result's content refs and summary are copied.
    pub fn with_result(self, result: EffectResult, policy_outcome: PolicyOutcome) -> (res: Self)
        ensures
            res.same_call(self),
            res.status == ToolCallRecordStatus::from_terminal_status_spec(result.terminal_status),
            res.result_content_refs@ == result.content_refs@,
            res.redacted_result_summary == Some(result.redacted_summary),
            res.policy_outcome == Some(policy_outcome),
            res.effect_result == Some(result),
            res.effect_intent == self.effect_intent,
            res.unsafe_pending_reason == self.unsafe_pending_reason,
    {
        let mut record = self;
        record.status = ToolCallRecordStatus::from_terminal_status(&result.terminal_status);
        let content_refs = result.content_refs.clone();
        proof {
            assert(content_refs@ =~= result.content_refs@);
        }
        record.result_content_refs = content_refs;
        record.redacted_result_summary = Some(result.redacted_summary.clone());
        record.policy_outcome = Some(policy_outcome);
        record.effect_result = Some(result);
        record
    }

    /// The call, whose outcome needs recovery: the result is copied and the reason kept.
    pub fn with_recovery_required(self, result: EffectResult, unsafe_pending_reason: String) -> (res: Self)
        ensures
            res.same_call(self),
            res.status == ToolCallRecordStatus::RecoveryRequired,
            res.result_content_refs@ == result.content_refs@,
            res.redacted_result_summary == Some(result.redacted_summary),
            res.effect_result == Some(result),
            res.unsafe_pending_reason == Some(unsafe_pending_reason),
            res.policy_outcome == self.policy_outcome,
            res.effect_intent == self.effect_intent,
    {
        let mut record = self;
        record.status = ToolCallRecordStatus::RecoveryRequired;
        let content_refs = result.content_refs.clone();
        proof {
            assert(content_refs@ =~= result.content_refs@);
        }
        record.result_content_refs = content_refs;
        record.redacted_result_summary = Some(result.redacted_summary.clone());
        record.effect_result = Some(result);
        record.unsafe_pending_reason = Some(unsafe_pending_reason);
        record
    }
}

impl ToolCallRecordStatus {
    /// The record status of an effect's terminal status.
    pub open spec fn from_terminal_status_spec(status: EffectTerminalStatus) -> Self {
        match status {
            EffectTerminalStatus::Completed => ToolCallRecordStatus::Completed,
            EffectTerminalStatus::Failed => ToolCallRecordStatus::Failed,
            EffectTerminalStatus::TimedOut => ToolCallRecordStatus::TimedOut,
            EffectTerminalStatus::Cancelled => ToolCallRecordStatus::Cancelled,
            EffectTerminalStatus::DeniedBeforeExecution => ToolCallRecordStatus::DeniedBeforeExecution,
            EffectTerminalStatus::Unknown => ToolCallRecordStatus::Unknown,
        }
    }

    fn from_terminal_status(status: &EffectTerminalStatus) -> (res: Self)
        ensures
            res == Self::from_terminal_status_spec(*status),
    {
        match status {
            EffectTerminalStatus::Completed => ToolCallRecordStatus::Completed,
            EffectTerminalStatus::Failed => ToolCallRecordStatus::Failed,
            EffectTerminalStatus::TimedOut => ToolCallRecordStatus::TimedOut,
            EffectTerminalStatus::Cancelled => ToolCallRecordStatus::Cancelled,
            EffectTerminalStatus::DeniedBeforeExecution => ToolCallRecordStatus::DeniedBeforeExecution,
            EffectTerminalStatus::Unknown => ToolCallRecordStatus::Unknown,
        }
    }
}

impl ToolResultRef {
    /// The result reference of a call that has an effect result; `None` otherwise.
    pub fn from_record(record: &ToolCallRecord) -> (res: Option<Self>)
        ensures
            res is None <==> record.effect_result is None,
            res is Some ==> {
                let r = res.unwrap();
                &&& r.tool_call_id == record.tool_call_id
                &&& r.effect_id == record.effect_result.unwrap().effect_id
                &&& r.content_refs@ == record.result_content_refs@
                &&& r.redacted_summary@ == match record.redacted_result_summary {
                    Some(s) => s@,
                    None => "tool result redacted"@,
                }
                &&& r.privacy == record.privacy
                &&& r.retention == record.retention
            },
    {
        match &record.effect_result {
            None => None,
            Some(effect_result) => {
                let content_refs = record.result_content_refs.clone();
                proof {
                    assert(content_refs@ =~= record.result_content_refs@);
                }
                let redacted_summary = match &record.redacted_result_summary {
                    Some(s) => s.clone(),
                    None => "tool result redacted".to_string(),
                };
                Some(ToolResultRef {
                    tool_call_id: record.tool_call_id.clone(),
                    effect_id: effect_result.effect_id.clone(),
                    content_refs,
                    redacted_summary,
                    privacy: record.privacy,
                    retention: record.retention,
                })
            },
        }
    }
}

/// The related entities of a tool call's journal record: its effect intent, its effect
/// result, then its argument and result content refs.
pub open spec fn tool_related_views(record: ToolCallRecord) -> Seq<(EntityKind, Seq<char>)> {
    (match record.effect_intent {
        Some(intent) => seq![(EntityKind::Effect, intent.effect_id@)],
        None => Seq::empty(),
    }) + (match record.effect_result {
        Some(result) => seq![(EntityKind::Effect, result.effect_id@)],
        None => Seq::empty(),
    }) + content_entity_views(record.requested_args_refs@) + content_entity_views(record.result_content_refs@)
}

fn tool_tags() -> (res: Vec<String>)
    ensures
        string_views(res@) == seq!["tool_execution"@],
{
    let mut tags: Vec<String> = Vec::new();
    tags.push("tool_execution".to_string());
    proof {
        assert(string_views(tags@) =~= seq!["tool_execution"@]);
    }
    tags
}

/// The journal record of a tool call under `event_kind`: the call is subject, its effects
/// and content refs are related, and its source and destination are the record's.
pub fn tool_call_journal_record(base: JournalRecordBase, record: ToolCallRecord, event_kind: &str) -> (res: JournalRecord)
    ensures
        res.journal_schema_version == JOURNAL_SCHEMA_VERSION,
        res.journal_seq == base.journal_seq,
        res.record_id == base.record_id,
        res.record_kind == JournalRecordKind::Tool,
        res.run_id == base.run_id,
        res.session_id == base.session_id,
        res.agent_id == base.agent_id,
        res.turn_id == base.turn_id,
        res.attempt_id == base.attempt_id,
        entity_is(res.subject_ref, EntityKind::ToolCall, record.tool_call_id@),
        entity_views(res.related_refs@) == tool_related_views(record),
        res.causal_refs == base.causal_refs,
        res.source == record.source,
        res.destination == Some(record.destination),
        res.correlation_keys@.len() == 0,
        string_views(res.tags@) == seq!["tool_execution"@],
        res.delivery_semantics@ == "journal_backed"@,
        res.event_index.describes(
            base.run_id,
            base.session_id,
            base.agent_id,
            base.turn_id,
            "tool"@,
            event_kind@,
            record.source,
            Some(record.destination),
            base.privacy,
            seq!["tool_execution"@],
        ),
        res.event_index.subject_ref == res.subject_ref,
        res.event_index.related_refs@ == res.related_refs@,
        res.timestamp_millis == base.timestamp_millis,
        res.runtime_package_fingerprint == base.runtime_package_fingerprint,
        res.privacy == base.privacy,
        res.content_refs@ == record.requested_args_refs@ + record.result_content_refs@,
        res.redaction_policy_id == base.redaction_policy_id,
        res.idempotency_key == record.idempotency_key,
        res.dedupe_key is None,
        res.checkpoint_ref == base.checkpoint_ref,
        res.payload == JournalRecordPayload::Tool(record),
{
    let subject_ref = record.subject_ref();
    let mut related_refs: Vec<EntityRef> = Vec::new();
    match &record.effect_intent {
        Some(intent) => {
            related_refs.push(EntityRef::new(EntityKind::Effect, intent.effect_id.as_str()));
        },
        None => {},
    }
    match &record.effect_result {
        Some(result) => {
            related_refs.push(EntityRef::new(EntityKind::Effect, result.effect_id.as_str()));
        },
        None => {},
    }
    proof {
        assert(entity_views(related_refs@) =~= (match record.effect_intent {
            Some(intent) => seq![(EntityKind::Effect, intent.effect_id@)],
            None => Seq::empty(),
        }) + (match record.effect_result {
            Some(result) => seq![(EntityKind::Effect, result.effect_id@)],
            None => Seq::empty(),
        }));
    }
    push_content_entities(&mut related_refs, &record.requested_args_refs);
    push_content_entities(&mut related_refs, &record.result_content_refs);
    let content_refs = concat_content_refs(&record.requested_args_refs, &record.result_content_refs);
    let index_related = related_refs.clone();
    proof {
        assert(index_related@ =~= related_refs@);
        assert(entity_views(related_refs@) =~= tool_related_views(record));
    }
    let source = record.source.clone();
    let destination = record.destination.clone();
    let idempotency_key = record.idempotency_key.clone();
    JournalRecord {
        journal_schema_version: JOURNAL_SCHEMA_VERSION,
        journal_seq: base.journal_seq,
        record_id: base.record_id,
        record_kind: JournalRecordKind::Tool,
        run_id: base.run_id.clone(),
        session_id: base.session_id.clone(),
        agent_id: base.agent_id.clone(),
        turn_id: base.turn_id.clone(),
        attempt_id: base.attempt_id,
        subject_ref: subject_ref.clone(),
        related_refs,
        causal_refs: base.causal_refs,
        source: source.clone(),
        destination: Some(destination.clone()),
        correlation_keys: Vec::new(),
        tags: tool_tags(),
        delivery_semantics: "journal_backed".to_string(),
        event_index: EventIndexProjection {
            run_id: base.run_id,
            session_id: base.session_id,
            agent_id: base.agent_id,
            turn_id: base.turn_id,
            event_family: "tool".to_string(),
            event_kind: event_kind.to_string(),
            source,
            destination: Some(destination),
            subject_ref,
            related_refs: index_related,
            correlation_keys: Vec::new(),
            tags: tool_tags(),
            privacy_class: base.privacy,
            delivery_semantics: "journal_backed".to_string(),
        },
        timestamp_millis: base.timestamp_millis,
        runtime_package_fingerprint: base.runtime_package_fingerprint,
        privacy: base.privacy,
        content_refs,
        redaction_policy_id: base.redaction_policy_id,
        idempotency_key,
        dedupe_key: None,
        checkpoint_ref: base.checkpoint_ref,
        payload: JournalRecordPayload::Tool(record),
    }
}

} // verus!
