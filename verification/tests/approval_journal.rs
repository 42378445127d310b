use agent_sdk_core::approval::{
    approval_dispatch_intent_record, approval_dispatch_result_record, ApprovalBrokerOutcome, ApprovalDecision,
    ApprovalLifecycleStatus, ApprovalRecord, ApprovalRequest, ApprovalTerminalStatus,
};
use agent_sdk_core::domain::{
    AgentErrorKind, AgentId, ApprovalRequestId, ContentRefId, DestinationKind, DestinationRef, EffectId, EntityKind,
    EntityRef, PolicyRef, RetryClassification, RunId, RuntimePackageFingerprint, SourceKind, SourceRef, ToolCallId,
    TurnId,
};
use agent_sdk_core::effect::{EffectIntent, EffectKind, EffectResult, EffectTerminalStatus};
use agent_sdk_core::journal::{
    JournalRecord, JournalRecordBase, JournalRecordKind, JournalRecordPayload, RunCheckpoint, JOURNAL_SCHEMA_VERSION,
};
use agent_sdk_core::policy::{ApprovalDecisionKind, DispatcherScope, EffectClass, RiskClass};

fn base(seq: u64) -> JournalRecordBase {
    JournalRecordBase::new(
        seq,
        format!("record-{seq}"),
        RunId::new("run-1".to_string()),
        AgentId::new("agent-1".to_string()),
        SourceRef::new("host"),
    )
}

fn request() -> ApprovalRequest {
    ApprovalRequest {
        approval_request_id: ApprovalRequestId::new("approval-1".to_string()),
        approval_dispatch_effect_id: EffectId::new("effect-approval-1".to_string()),
        run_id: RunId::new("run-1".to_string()),
        session_id: None,
        agent_id: AgentId::new("agent-1".to_string()),
        turn_id: TurnId::new("turn-1".to_string()),
        tool_call_id: ToolCallId::new("call-1".to_string()),
        source: SourceRef::new("host"),
        destination: DestinationRef::with_kind(DestinationKind::User, "approver"),
        canonical_tool_name: "fs.write".to_string(),
        tool_source: SourceRef::with_kind(SourceKind::Tool, "fs"),
        effect_class: EffectClass::WorkspaceWrite,
        risk_class: RiskClass::High,
        requested_args_ref: ContentRefId::new("content.args".to_string()),
        redacted_args_summary: "write one file".to_string(),
        policy_refs: vec![PolicyRef::new("policy.approval")],
        dispatcher_scope: DispatcherScope::Run,
        timeout_ms: 30_000,
        allowed_decisions: vec![ApprovalDecisionKind::Approved, ApprovalDecisionKind::Denied],
        created_at_millis: 1,
        runtime_package_fingerprint: RuntimePackageFingerprint::new("fp".to_string()),
    }
}

#[test]
fn valid_request_passes() {
    assert!(request().validate().is_ok());
}

#[test]
fn request_validation_reports_first_missing_field() {
    let mut r = request();
    r.canonical_tool_name.clear();
    r.policy_refs.clear();
    let e = r.validate().unwrap_err();
    assert_eq!(e.kind, AgentErrorKind::MissingRequiredField);
    assert_eq!(e.retry, RetryClassification::NotRetryable);
    assert_eq!(e.message, "missing required field: approval_request.canonical_tool_name");

    let mut r = request();
    r.redacted_args_summary.clear();
    assert_eq!(r.validate().unwrap_err().message, "missing required field: approval_request.redacted_args_summary");

    let mut r = request();
    r.policy_refs.clear();
    assert_eq!(r.validate().unwrap_err().message, "missing required field: approval_request.policy_refs");

    let mut r = request();
    r.allowed_decisions.clear();
    assert_eq!(r.validate().unwrap_err().message, "missing required field: approval_request.allowed_decisions");
}

#[test]
fn zero_timeout_is_a_contract_violation() {
    let mut r = request();
    r.timeout_ms = 0;
    let e = r.validate().unwrap_err();
    assert_eq!(e.kind, AgentErrorKind::ContractViolation);
    assert_eq!(e.message, "approval_request.timeout_ms must be greater than zero");
}

#[test]
fn allowed_decisions_are_looked_up() {
    let r = request();
    assert!(r.allows_decision(ApprovalDecisionKind::Approved));
    assert!(r.allows_decision(ApprovalDecisionKind::Denied));
    assert!(!r.allows_decision(ApprovalDecisionKind::ApprovedForSession));
    let subject = r.subject_ref();
    assert_eq!(subject.kind, EntityKind::ApprovalRequest);
    assert_eq!(subject.id, "approval-1");
}

#[test]
fn finite_tokens_name_decisions() {
    let actor = SourceRef::new("approver");
    let approved = ApprovalDecision::from_finite_token("approved", actor.clone()).unwrap();
    assert_eq!(approved.kind(), ApprovalDecisionKind::Approved);
    let session = ApprovalDecision::from_finite_token("approved_for_session", actor.clone()).unwrap();
    assert_eq!(session.kind(), ApprovalDecisionKind::ApprovedForSession);
    match ApprovalDecision::from_finite_token("denied", actor.clone()).unwrap() {
        ApprovalDecision::Denied { reason_code, actor_ref } => {
            assert_eq!(reason_code, "approval.denied");
            assert_eq!(actor_ref.unwrap().id, "approver");
        }
        _ => panic!("expected a denial"),
    }
    assert!(ApprovalDecision::from_finite_token("Approved", actor.clone()).is_none());
    assert!(ApprovalDecision::from_finite_token("", actor).is_none());
}

#[test]
fn decision_constructors_set_kind() {
    assert_eq!(ApprovalDecision::approved("a").kind(), ApprovalDecisionKind::Approved);
    assert_eq!(ApprovalDecision::approved_for_session("a").kind(), ApprovalDecisionKind::ApprovedForSession);
    assert_eq!(ApprovalDecision::denied("no".to_string()).kind(), ApprovalDecisionKind::Denied);
}

fn outcome(status: ApprovalTerminalStatus) -> ApprovalBrokerOutcome {
    ApprovalBrokerOutcome {
        approval_request_id: ApprovalRequestId::new("approval-1".to_string()),
        status,
        decision: None,
        reason_code: "r".to_string(),
    }
}

#[test]
fn only_approvals_release_tool_execution() {
    assert!(outcome(ApprovalTerminalStatus::Approved).releases_tool_execution());
    assert!(outcome(ApprovalTerminalStatus::ApprovedForSession).releases_tool_execution());
    assert!(!outcome(ApprovalTerminalStatus::Denied).releases_tool_execution());
    assert!(!outcome(ApprovalTerminalStatus::TimedOut).releases_tool_execution());
    assert!(!outcome(ApprovalTerminalStatus::DispatcherUnavailable).releases_tool_execution());
}

#[test]
fn dispatch_intent_record_describes_the_request() {
    let r = request();
    let rec = approval_dispatch_intent_record(base(7), &r);
    assert_eq!(rec.journal_seq, 7);
    assert_eq!(rec.journal_schema_version, JOURNAL_SCHEMA_VERSION);
    assert_eq!(rec.record_kind, JournalRecordKind::Approval);
    assert_eq!(rec.event_index.event_family, "approval");
    assert_eq!(rec.event_index.event_kind, "approval_dispatch_intent");
    assert_eq!(rec.tags, vec!["approval".to_string()]);
    assert_eq!(rec.related_refs.len(), 1);
    assert_eq!(rec.related_refs[0].id, "effect-approval-1");
    assert_eq!(rec.content_refs.len(), 1);
    match rec.payload {
        JournalRecordPayload::Approval(ApprovalRecord::DispatchIntent { request_id, effect_intent }) => {
            assert_eq!(request_id.as_str(), "approval-1");
            assert_eq!(effect_intent.kind, EffectKind::ApprovalDispatch);
            assert_eq!(effect_intent.redacted_summary, "approval dispatch for fs.write: write one file");
            assert_eq!(effect_intent.effect_id.as_str(), "effect-approval-1");
        }
        _ => panic!("expected a dispatch intent"),
    }
}

#[test]
fn dispatch_result_record_carries_status() {
    let r = request();
    let rec = approval_dispatch_result_record(
        base(8),
        &r,
        ApprovalLifecycleStatus::Dispatched,
        EffectTerminalStatus::Completed,
        "sent".to_string(),
    );
    assert_eq!(rec.event_index.event_kind, "approval_dispatch_result");
    assert!(rec.content_refs.is_empty());
    match rec.payload {
        JournalRecordPayload::Approval(ApprovalRecord::DispatchResult { lifecycle_status, effect_result, .. }) => {
            assert_eq!(lifecycle_status, ApprovalLifecycleStatus::Dispatched);
            assert_eq!(effect_result.terminal_status, EffectTerminalStatus::Completed);
            assert_eq!(effect_result.redacted_summary, "sent");
        }
        _ => panic!("expected a dispatch result"),
    }
}

#[test]
fn effect_intent_and_result_records() {
    let intent = EffectIntent::new(
        EffectId::new("effect-9".to_string()),
        EffectKind::ToolExecution,
        EntityRef::new(EntityKind::ToolCall, "call-9"),
        SourceRef::new("host"),
        "run tool".to_string(),
    );
    assert!(intent.policy_refs.is_empty());
    let rec = JournalRecord::effect_intent(base(3), intent);
    assert_eq!(rec.record_kind, JournalRecordKind::EffectIntent);
    assert_eq!(rec.event_index.event_family, "effect");
    assert_eq!(rec.event_index.event_kind, "intent");
    assert_eq!(rec.related_refs[0].kind, EntityKind::Effect);
    assert_eq!(rec.related_refs[0].id, "effect-9");
    assert_eq!(rec.subject_ref.id, "call-9");

    let result = EffectResult::completed(EffectId::new("effect-9".to_string()), "done".to_string());
    assert_eq!(result.terminal_status, EffectTerminalStatus::Completed);
    let rec = JournalRecord::effect_result(base(4), result);
    assert_eq!(rec.record_kind, JournalRecordKind::EffectResult);
    assert_eq!(rec.subject_ref.kind, EntityKind::Effect);
    assert_eq!(rec.subject_ref.id, "effect-9");
    assert_eq!(EffectResult::unknown(EffectId::new("e".to_string()), "?".to_string()).terminal_status, EffectTerminalStatus::Unknown);
}

#[test]
fn journal_base_defaults() {
    let b = base(1);
    assert_eq!(b.runtime_package_fingerprint, "runtime.package.fingerprint.test");
    assert_eq!(b.redaction_policy_id, "redaction.default");
    assert_eq!(b.timestamp_millis, 0);
    assert!(b.tags.is_empty());
}

fn checkpoint(covers: u64) -> RunCheckpoint {
    RunCheckpoint {
        checkpoint_id: "cp-1".to_string(),
        run_id: RunId::new("run-1".to_string()),
        checkpoint_seq: 1,
        covers_journal_seq: covers,
        loop_state: "idle".to_string(),
        turn_id: None,
        attempt_id: None,
        runtime_package_fingerprint: "fp".to_string(),
        pending_side_effects: Vec::new(),
        pending_approvals: Vec::new(),
        content_ref_manifest: Vec::new(),
        state_hash: "h".to_string(),
        created_at_millis: 0,
        writer_id: "w".to_string(),
    }
}

#[test]
fn checkpoint_cannot_cover_future_records() {
    assert!(checkpoint(5).validate_against_latest_seq(5).is_ok());
    assert!(checkpoint(4).validate_against_latest_seq(5).is_ok());
    let e = checkpoint(6).validate_against_latest_seq(5).unwrap_err();
    assert_eq!(e.kind, AgentErrorKind::ContractViolation);
    assert_eq!(e.message, "checkpoint covers_journal_seq cannot point past latest committed journal record");
}

#[test]
fn checkpoint_record_is_journaled() {
    let rec = JournalRecord::checkpoint(base(10), checkpoint(9));
    assert_eq!(rec.record_kind, JournalRecordKind::Checkpoint);
    assert_eq!(rec.journal_seq, 10);
    assert_eq!(rec.checkpoint_ref.as_deref(), Some("cp-1"));
    assert_eq!(rec.event_index.event_kind, "saved");
}
