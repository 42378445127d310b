use vstd::prelude::*;
use crate::domain::{AgentError, AgentErrorKind, AgentId, ApprovalRequestId, ContentRefId, DestinationRef, EffectId, EntityKind, EntityRef, PolicyRef, RetryClassification, RunId, RuntimePackageFingerprint, SessionId, SourceKind, SourceRef, ToolCallId, TurnId, ValueEq, outcome_parts};
use crate::effect::{EffectIntent, EffectKind, EffectResult, EffectTerminalStatus};
use crate::journal::{EventIndexProjection, JOURNAL_SCHEMA_VERSION, JournalRecord, JournalRecordBase, JournalRecordKind, JournalRecordPayload, entity_is};
use crate::policy::{ApprovalDecisionKind, DispatcherScope, EffectClass, RiskClass};
use crate::text::{concat4, str_eq, string_views};

verus! {

/// A request for a human or host approval before a tool runs.
#[derive(Debug)]
pub struct ApprovalRequest {
    pub approval_request_id: ApprovalRequestId,
    pub approval_dispatch_effect_id: EffectId,
    pub run_id: RunId,
    pub session_id: Option<SessionId>,
    pub agent_id: AgentId,
    pub turn_id: TurnId,
    pub tool_call_id: ToolCallId,
    pub source: SourceRef,
    pub destination: DestinationRef,
    pub canonical_tool_name: String,
    pub tool_source: SourceRef,
    pub effect_class: EffectClass,
    pub risk_class: RiskClass,
    pub requested_args_ref: ContentRefId,
    pub redacted_args_summary: String,
    pub policy_refs: Vec<PolicyRef>,
    pub dispatcher_scope: DispatcherScope,
    pub timeout_ms: u64,
    pub allowed_decisions: Vec<ApprovalDecisionKind>,
    pub created_at_millis: u64,
    pub runtime_package_fingerprint: RuntimePackageFingerprint,
}

impl ApprovalRequest {
    /// Field-wise equality, with vectors compared by their contents.
    pub open spec fn same_as(&self, other: &Self) -> bool {
        &&& self.approval_request_id == other.approval_request_id
        &&& self.approval_dispatch_effect_id == other.approval_dispatch_effect_id
        &&& self.run_id == other.run_id
        &&& self.session_id == other.session_id
        &&& self.agent_id == other.agent_id
        &&& self.turn_id == other.turn_id
        &&& self.tool_call_id == other.tool_call_id
        &&& self.source == other.source
        &&& self.destination == other.destination
        &&& self.canonical_tool_name == other.canonical_tool_name
        &&& self.tool_source == other.tool_source
        &&& self.effect_class == other.effect_class
        &&& self.risk_class == other.risk_class
        &&& self.requested_args_ref == other.requested_args_ref
        &&& self.redacted_args_summary == other.redacted_args_summary
        &&& self.policy_refs@ == other.policy_refs@
        &&& self.dispatcher_scope == other.dispatcher_scope
        &&& self.timeout_ms == other.timeout_ms
        &&& self.allowed_decisions@ == other.allowed_decisions@
        &&& self.created_at_millis == other.created_at_millis
        &&& self.runtime_package_fingerprint == other.runtime_package_fingerprint
    }
}

impl Clone for ApprovalRequest {
    fn clone(&self) -> (res: Self)
        ensures
            res.same_as(self),
    {
        let policy_refs_copy = self.policy_refs.clone();
        proof { assert(policy_refs_copy@ =~= self.policy_refs@); }
        let allowed_decisions_copy = self.allowed_decisions.clone();
        proof { assert(allowed_decisions_copy@ =~= self.allowed_decisions@); }
        ApprovalRequest {
            approval_request_id: self.approval_request_id.clone(),
            approval_dispatch_effect_id: self.approval_dispatch_effect_id.clone(),
            run_id: self.run_id.clone(),
            session_id: self.session_id.clone(),
            agent_id: self.agent_id.clone(),
            turn_id: self.turn_id.clone(),
            tool_call_id: self.tool_call_id.clone(),
            source: self.source.clone(),
            destination: self.destination.clone(),
            canonical_tool_name: self.canonical_tool_name.clone(),
            tool_source: self.tool_source.clone(),
            effect_class: self.effect_class,
            risk_class: self.risk_class,
            requested_args_ref: self.requested_args_ref.clone(),
            redacted_args_summary: self.redacted_args_summary.clone(),
            policy_refs: policy_refs_copy,
            dispatcher_scope: self.dispatcher_scope,
            timeout_ms: self.timeout_ms,
            allowed_decisions: allowed_decisions_copy,
            created_at_millis: self.created_at_millis,
            runtime_package_fingerprint: self.runtime_package_fingerprint.clone(),
        }
    }
}

/// An approval decision.
#[derive(Debug)]
pub enum ApprovalDecision {
    Approved { actor_ref: SourceRef },
    ApprovedForSession { actor_ref: SourceRef },
    Denied { reason_code: String, actor_ref: Option<SourceRef> },
}

impl Clone for ApprovalDecision {
    fn clone(&self) -> (res: Self)
        ensures
            res == *self,
    {
        match self {
            ApprovalDecision::Approved { actor_ref } => { ApprovalDecision::Approved { actor_ref: actor_ref.clone() } }
            ApprovalDecision::ApprovedForSession { actor_ref } => { ApprovalDecision::ApprovedForSession { actor_ref: actor_ref.clone() } }
            ApprovalDecision::Denied { reason_code, actor_ref } => { ApprovalDecision::Denied { reason_code: reason_code.clone(), actor_ref: actor_ref.clone() } }
        }
    }
}

/// Lifecycle status of an approval.
#[derive(Clone, Copy, Debug, PartialEq, Eq, Structural)]
pub enum ApprovalLifecycleStatus {
    Requested,
    DispatchIntentRecorded,
    Dispatched,
    Approved,
    ApprovedForSession,
    Denied,
    TimedOut,
    Cancelled,
    DispatcherUnavailable,
    RecoveryRequired,
}

impl crate::domain::ValueEq for ApprovalLifecycleStatus {
    open spec fn value_eq(&self, other: &Self) -> bool {
        *self == *other
    }

    fn equals(&self, other: &Self) -> (r: bool) {
        *self == *other
    }
}

/// Terminal status of an approval.
#[derive(Clone, Copy, Debug, PartialEq, Eq, Structural)]
pub enum ApprovalTerminalStatus {
    Approved,
    ApprovedForSession,
    Denied,
    TimedOut,
    Cancelled,
    DispatcherUnavailable,
    RecoveryRequired,
}

impl crate::domain::ValueEq for ApprovalTerminalStatus {
    open spec fn value_eq(&self, other: &Self) -> bool {
        *self == *other
    }

    fn equals(&self, other: &Self) -> (r: bool) {
        *self == *other
    }
}

/// Outcome an approval broker returns.
#[derive(Debug)]
pub struct ApprovalBrokerOutcome {
    pub approval_request_id: ApprovalRequestId,
    pub status: ApprovalTerminalStatus,
    pub decision: Option<ApprovalDecision>,
    pub reason_code: String,
}

impl Clone for ApprovalBrokerOutcome {
    fn clone(&self) -> (res: Self)
        ensures
            res == *self,
    {
        ApprovalBrokerOutcome {
            approval_request_id: self.approval_request_id.clone(),
            status: self.status,
            decision: self.decision.clone(),
            reason_code: self.reason_code.clone(),
        }
    }
}

/// Journal payload of the approval feature.
#[derive(Debug)]
pub enum ApprovalRecord {
    Requested { request: ApprovalRequest },
    DispatchIntent { request_id: ApprovalRequestId, effect_intent: EffectIntent },
    DispatchResult { request_id: ApprovalRequestId, lifecycle_status: ApprovalLifecycleStatus, effect_result: EffectResult },
    Responded { request_id: ApprovalRequestId, decision: ApprovalDecision },
    Denied { request_id: ApprovalRequestId, reason_code: String },
}

impl ApprovalRecord {
    /// Variant-wise equality, with vectors compared by their contents.
    pub open spec fn same_as(&self, other: &Self) -> bool {
        match (*self, *other) {
            (ApprovalRecord::Requested{ request: a_request }, ApprovalRecord::Requested{ request: b_request }) => (a_request.same_as(&b_request)),
            (ApprovalRecord::DispatchIntent{ request_id: a_request_id, effect_intent: a_effect_intent }, ApprovalRecord::DispatchIntent{ request_id: b_request_id, effect_intent: b_effect_intent }) => (a_request_id == b_request_id) && (a_effect_intent.same_as(&b_effect_intent)),
            (ApprovalRecord::DispatchResult{ request_id: a_request_id, lifecycle_status: a_lifecycle_status, effect_result: a_effect_result }, ApprovalRecord::DispatchResult{ request_id: b_request_id, lifecycle_status: b_lifecycle_status, effect_result: b_effect_result }) => (a_request_id == b_request_id) && (a_lifecycle_status == b_lifecycle_status) && (a_effect_result.same_as(&b_effect_result)),
            (ApprovalRecord::Responded{ request_id: a_request_id, decision: a_decision }, ApprovalRecord::Responded{ request_id: b_request_id, decision: b_decision }) => (a_request_id == b_request_id) && (a_decision == b_decision),
            (ApprovalRecord::Denied{ request_id: a_request_id, reason_code: a_reason_code }, ApprovalRecord::Denied{ request_id: b_request_id, reason_code: b_reason_code }) => (a_request_id == b_request_id) && (a_reason_code == b_reason_code),
            _ => false,
        }
    }
}

impl Clone for ApprovalRecord {
    fn clone(&self) -> (res: Self)
        ensures
            res.same_as(self),
    {
        match self {
            ApprovalRecord::Requested { request } => { ApprovalRecord::Requested { request: request.clone() } }
            ApprovalRecord::DispatchIntent { request_id, effect_intent } => { ApprovalRecord::DispatchIntent { request_id: request_id.clone(), effect_intent: effect_intent.clone() } }
            ApprovalRecord::DispatchResult { request_id, lifecycle_status, effect_result } => { ApprovalRecord::DispatchResult { request_id: request_id.clone(), lifecycle_status: *lifecycle_status, effect_result: effect_result.clone() } }
            ApprovalRecord::Responded { request_id, decision } => { ApprovalRecord::Responded { request_id: request_id.clone(), decision: decision.clone() } }
            ApprovalRecord::Denied { request_id, reason_code } => { ApprovalRecord::Denied { request_id: request_id.clone(), reason_code: reason_code.clone() } }
        }
    }
}

impl ApprovalRequest {
    /// Outcome of validating the request.
    pub open spec fn validation(&self) -> Result<(), (AgentErrorKind, RetryClassification, Seq<char>)> {
        if self.canonical_tool_name@.len() == 0 {
            Err(AgentError::missing_required_field_spec("approval_request.canonical_tool_name"@))
        } else if self.redacted_args_summary@.len() == 0 {
            Err(AgentError::missing_required_field_spec("approval_request.redacted_args_summary"@))
        } else if self.policy_refs@.len() == 0 {
            Err(AgentError::missing_required_field_spec("approval_request.policy_refs"@))
        } else if self.allowed_decisions@.len() == 0 {
            Err(AgentError::missing_required_field_spec("approval_request.allowed_decisions"@))
        } else if self.timeout_ms == 0 {
            Err(AgentError::contract_violation_spec("approval_request.timeout_ms must be greater than zero"@))
        } else {
            Ok(())
        }
    }

    /// Checks that the request names its tool, summarizes its arguments, cites a policy,
    /// allows some decision, and has a positive timeout.
    pub fn validate(&self) -> (res: Result<(), AgentError>)
        ensures
            outcome_parts(res) == self.validation(),
    {
        if self.canonical_tool_name.as_str().is_empty() {
            return Err(AgentError::missing_required_field("approval_request.canonical_tool_name"));
        }
        if self.redacted_args_summary.as_str().is_empty() {
            return Err(AgentError::missing_required_field("approval_request.redacted_args_summary"));
        }
        if self.policy_refs.len() == 0 {
            return Err(AgentError::missing_required_field("approval_request.policy_refs"));
        }
        if self.allowed_decisions.len() == 0 {
            return Err(AgentError::missing_required_field("approval_request.allowed_decisions"));
        }
        if self.timeout_ms == 0 {
            return Err(AgentError::contract_violation("approval_request.timeout_ms must be greater than zero"));
        }
        Ok(())
    }

    /// The request as an entity.
    pub fn subject_ref(&self) -> (res: EntityRef)
        ensures
            entity_is(res, EntityKind::ApprovalRequest, self.approval_request_id@),
    {
        EntityRef::new(EntityKind::ApprovalRequest, self.approval_request_id.as_str())
    }

    /// Whether the request allows `decision`.
    pub fn allows_decision(&self, decision: ApprovalDecisionKind) -> (r: bool)
        ensures
            r == self.allowed_decisions@.contains(decision),
    {
        let mut i: usize = 0;
        while i < self.allowed_decisions.len()
            invariant
                0 <= i <= self.allowed_decisions@.len(),
                forall|k: int| 0 <= k < i ==> self.allowed_decisions@[k] != decision,
            decreases self.allowed_decisions@.len() - i,
        {
            if self.allowed_decisions[i] == decision {
                proof {
                    assert(self.allowed_decisions@[i as int] == decision);
                }
                return true;
            }
            i = i + 1;
        }
        false
    }
}

impl ApprovalDecision {
    /// Approval by a host actor.
    pub fn approved(actor_id: &str) -> (res: Self)
        ensures
            res matches ApprovalDecision::Approved { actor_ref } && actor_ref.kind == SourceKind::Host
                && actor_ref.id@ == actor_id@,
    {
        ApprovalDecision::Approved { actor_ref: SourceRef::new(actor_id) }
    }

    /// Approval for the rest of the session by a host actor.
    pub fn approved_for_session(actor_id: &str) -> (res: Self)
        ensures
            res matches ApprovalDecision::ApprovedForSession { actor_ref } && actor_ref.kind == SourceKind::Host
                && actor_ref.id@ == actor_id@,
    {
        ApprovalDecision::ApprovedForSession { actor_ref: SourceRef::new(actor_id) }
    }

    /// Denial for a reason, by no named actor.
    pub fn denied(reason_code: String) -> (res: Self)
        ensures
            res == (ApprovalDecision::Denied { reason_code, actor_ref: None }),
    {
        ApprovalDecision::Denied { reason_code, actor_ref: None }
    }

    /// The kind of the decision.
    pub open spec fn kind_spec(&self) -> ApprovalDecisionKind {
        match *self {
            ApprovalDecision::Approved { .. } => ApprovalDecisionKind::Approved,
            ApprovalDecision::ApprovedForSession { .. } => ApprovalDecisionKind::ApprovedForSession,
            ApprovalDecision::Denied { .. } => ApprovalDecisionKind::Denied,
        }
    }

    /// The kind of the decision.
    pub fn kind(&self) -> (res: ApprovalDecisionKind)
        ensures
            res == self.kind_spec(),
    {
        match self {
            ApprovalDecision::Approved { .. } => ApprovalDecisionKind::Approved,
            ApprovalDecision::ApprovedForSession { .. } => ApprovalDecisionKind::ApprovedForSession,
            ApprovalDecision::Denied { .. } => ApprovalDecisionKind::Denied,
        }
    }

    /// The decision kind a finite token names: `approved`, `approved_for_session` or
    /// `denied`.
    pub open spec fn token_kind(token: Seq<char>) -> Option<ApprovalDecisionKind> {
        if token == "approved"@ {
            Some(ApprovalDecisionKind::Approved)
        } else if token == "approved_for_session"@ {
            Some(ApprovalDecisionKind::ApprovedForSession)
        } else if token == "denied"@ {
            Some(ApprovalDecisionKind::Denied)
        } else {
            None
        }
    }

    /// The decision a finite token names, by `actor_ref`; a denial this way has the reason
    /// `approval.denied`. Any other token names none.
    pub fn from_finite_token(token: &str, actor_ref: SourceRef) -> (res: Option<Self>)
        ensures
            res is Some <==> Self::token_kind(token@) is Some,
            res is Some ==> res.unwrap().kind_spec() == Self::token_kind(token@).unwrap(),
            res matches Some(ApprovalDecision::Approved { actor_ref: a }) ==> a == actor_ref,
            res matches Some(ApprovalDecision::ApprovedForSession { actor_ref: a }) ==> a == actor_ref,
            res matches Some(ApprovalDecision::Denied { reason_code: r, actor_ref: a }) ==> r@ == "approval.denied"@ && a
                == Some(actor_ref),
    {
        if str_eq(token, "approved") {
            Some(ApprovalDecision::Approved { actor_ref })
        } else if str_eq(token, "approved_for_session") {
            Some(ApprovalDecision::ApprovedForSession { actor_ref })
        } else if str_eq(token, "denied") {
            Some(ApprovalDecision::Denied { reason_code: "approval.denied".to_string(), actor_ref: Some(actor_ref) })
        } else {
            None
        }
    }
}

impl ApprovalBrokerOutcome {
    /// Whether the outcome lets the tool run: an approval, for now or for the session.
    pub fn releases_tool_execution(&self) -> (r: bool)
        ensures
            r == (self.status == ApprovalTerminalStatus::Approved || self.status == ApprovalTerminalStatus::ApprovedForSession),
    {
        match self.status {
            ApprovalTerminalStatus::Approved | ApprovalTerminalStatus::ApprovedForSession => true,
            _ => false,
        }
    }
}

/// Whether `record` is the approval journal record of `request` on `base` under
/// `event_kind`: the request is subject, its dispatch effect related, its source and
/// destination the record's, tagged `approval`, with the given content refs.
pub open spec fn is_approval_record(
    record: JournalRecord,
    base: JournalRecordBase,
    request: ApprovalRequest,
    event_kind: Seq<char>,
    content_refs: Seq<ContentRefId>,
) -> bool {
    &&& record.on_base(base)
    &&& record.record_kind == JournalRecordKind::Approval
    &&& entity_is(record.subject_ref, EntityKind::ApprovalRequest, request.approval_request_id@)
    &&& record.related_refs@.len() == 1
    &&& entity_is(record.related_refs@[0], EntityKind::Effect, request.approval_dispatch_effect_id@)
    &&& record.source == request.source
    &&& record.destination == Some(request.destination)
    &&& string_views(record.tags@) == seq!["approval"@]
    &&& record.content_refs@ == content_refs
    &&& record.idempotency_key is None
    &&& record.dedupe_key is None
    &&& record.checkpoint_ref == base.checkpoint_ref
    &&& record.event_index.describes(
        base.run_id,
        base.session_id,
        base.agent_id,
        base.turn_id,
        "approval"@,
        event_kind,
        request.source,
        Some(request.destination),
        base.privacy,
        seq!["approval"@],
    )
    &&& record.event_index.subject_ref == record.subject_ref
    &&& record.event_index.related_refs@.len() == 0
}

fn approval_tags() -> (res: Vec<String>)
    ensures
        string_views(res@) == seq!["approval"@],
{
    let mut tags: Vec<String> = Vec::new();
    tags.push("approval".to_string());
    proof {
        assert(string_views(tags@) =~= seq!["approval"@]);
    }
    tags
}

fn approval_journal_record(
    base: JournalRecordBase,
    request: &ApprovalRequest,
    event_kind: &str,
    content_refs: Vec<ContentRefId>,
    payload: JournalRecordPayload,
) -> (res: JournalRecord)
    ensures
        is_approval_record(res, base, *request, event_kind@, content_refs@),
        res.payload == payload,
{
    let subject_ref = request.subject_ref();
    let effect_ref = EntityRef::new(EntityKind::Effect, request.approval_dispatch_effect_id.as_str());
    let mut related_refs: Vec<EntityRef> = Vec::new();
    related_refs.push(effect_ref);
    JournalRecord {
        journal_schema_version: JOURNAL_SCHEMA_VERSION,
        journal_seq: base.journal_seq,
        record_id: base.record_id,
        record_kind: JournalRecordKind::Approval,
        run_id: base.run_id.clone(),
        session_id: base.session_id.clone(),
        agent_id: base.agent_id.clone(),
        turn_id: base.turn_id.clone(),
        attempt_id: base.attempt_id,
        subject_ref: subject_ref.clone(),
        related_refs,
        causal_refs: base.causal_refs,
        source: request.source.clone(),
        destination: Some(request.destination.clone()),
        correlation_keys: Vec::new(),
        tags: approval_tags(),
        delivery_semantics: "journal_backed".to_string(),
        event_index: EventIndexProjection {
            run_id: base.run_id,
            session_id: base.session_id,
            agent_id: base.agent_id,
            turn_id: base.turn_id,
            event_family: "approval".to_string(),
            event_kind: event_kind.to_string(),
            source: request.source.clone(),
            destination: Some(request.destination.clone()),
            subject_ref,
            related_refs: Vec::new(),
            correlation_keys: Vec::new(),
            tags: approval_tags(),
            privacy_class: base.privacy,
            delivery_semantics: "journal_backed".to_string(),
        },
        timestamp_millis: base.timestamp_millis,
        runtime_package_fingerprint: base.runtime_package_fingerprint,
        privacy: base.privacy,
        content_refs,
        redaction_policy_id: base.redaction_policy_id,
        idempotency_key: None,
        dedupe_key: None,
        checkpoint_ref: base.checkpoint_ref,
        payload,
    }
}

/// Whether `intent` is the dispatch intent of `request`: its dispatch effect, an approval
/// dispatch about the request, from its source to its destination, under its policies,
/// carrying its argument ref, summarized by tool name and argument summary.
pub open spec fn is_dispatch_intent(intent: EffectIntent, request: ApprovalRequest) -> bool {
    &&& intent.effect_id == request.approval_dispatch_effect_id
    &&& intent.kind == EffectKind::ApprovalDispatch
    &&& entity_is(intent.subject_ref, EntityKind::ApprovalRequest, request.approval_request_id@)
    &&& intent.source == request.source
    &&& intent.destination == Some(request.destination)
    &&& intent.policy_refs@ == request.policy_refs@
    &&& intent.idempotency_key is None
    &&& intent.dedupe_key is None
    &&& intent.content_refs@ == seq![request.requested_args_ref]
    &&& intent.redacted_summary@ == "approval dispatch for "@ + request.canonical_tool_name@ + ": "@
        + request.redacted_args_summary@
}

fn approval_dispatch_intent(request: &ApprovalRequest) -> (res: EffectIntent)
    ensures
        is_dispatch_intent(res, *request),
{
    let summary = concat4(
        "approval dispatch for ",
        request.canonical_tool_name.as_str(),
        ": ",
        request.redacted_args_summary.as_str(),
    );
    let mut intent = EffectIntent::new(
        request.approval_dispatch_effect_id.clone(),
        EffectKind::ApprovalDispatch,
        request.subject_ref(),
        request.source.clone(),
        summary,
    );
    intent.destination = Some(request.destination.clone());
    let policy_refs = request.policy_refs.clone();
    proof {
        assert(policy_refs@ =~= request.policy_refs@);
    }
    intent.policy_refs = policy_refs;
    let mut content_refs: Vec<ContentRefId> = Vec::new();
    content_refs.push(request.requested_args_ref.clone());
    proof {
        assert(content_refs@ =~= seq![request.requested_args_ref]);
    }
    intent.content_refs = content_refs;
    intent
}

/// The journal record of an approval request's dispatch intent.
pub fn approval_dispatch_intent_record(base: JournalRecordBase, request: &ApprovalRequest) -> (res: JournalRecord)
    ensures
        is_approval_record(res, base, *request, "approval_dispatch_intent"@, seq![request.requested_args_ref]),
        res.payload matches JournalRecordPayload::Approval(ApprovalRecord::DispatchIntent { request_id, effect_intent })
            && request_id == request.approval_request_id && is_dispatch_intent(effect_intent, *request),
{
    let effect_intent = approval_dispatch_intent(request);
    let content_refs = effect_intent.content_refs.clone();
    proof {
        assert(content_refs@ =~= effect_intent.content_refs@);
    }
    approval_journal_record(
        base,
        request,
        "approval_dispatch_intent",
        content_refs,
        JournalRecordPayload::Approval(
            ApprovalRecord::DispatchIntent { request_id: request.approval_request_id.clone(), effect_intent },
        ),
    )
}

/// The journal record of the result of an approval request's dispatch.
pub fn approval_dispatch_result_record(
    base: JournalRecordBase,
    request: &ApprovalRequest,
    lifecycle_status: ApprovalLifecycleStatus,
    status: EffectTerminalStatus,
    redacted_summary: String,
) -> (res: JournalRecord)
    ensures
        is_approval_record(res, base, *request, "approval_dispatch_result"@, Seq::empty()),
        res.payload matches JournalRecordPayload::Approval(
            ApprovalRecord::DispatchResult { request_id, lifecycle_status: l, effect_result },
        ) && request_id == request.approval_request_id && l == lifecycle_status && effect_result.is_plain(
            request.approval_dispatch_effect_id,
            status,
            redacted_summary@,
        ),
{
    let effect_result = EffectResult {
        effect_id: request.approval_dispatch_effect_id.clone(),
        terminal_status: status,
        external_operation_id: None,
        reconciliation_ref: None,
        error_ref: None,
        content_refs: Vec::new(),
        redacted_summary,
    };
    approval_journal_record(
        base,
        request,
        "approval_dispatch_result",
        Vec::new(),
        JournalRecordPayload::Approval(ApprovalRecord::DispatchResult {
            request_id: request.approval_request_id.clone(),
            lifecycle_status,
            effect_result,
        }),
    )
}

} // verus!
