use agent_sdk_core::domain::{
    AgentId, ContentRefId, DestinationKind, DestinationRef, EffectId, EntityKind, EntityRef, IdValidationError, PolicyRef,
    PrivacyClass, RetentionClass, RunId, SourceKind, SourceRef, ToolCallId,
};
use agent_sdk_core::effect::{EffectIntent, EffectKind, EffectResult, EffectTerminalStatus};
use agent_sdk_core::extension::{
    ExtensionActionEvent, ExtensionActionEventKind, ExtensionActionRecord, ExtensionActionRecordParams,
    ExtensionActionRecordStatus,
};
use agent_sdk_core::hooks::{hook_entity_ref, HookMutationJournalPlan, HookRecord, HookRecordPayload, HookResponseDecision};
use agent_sdk_core::journal::{JournalRecordBase, JournalRecordKind, JournalRecordPayload};
use agent_sdk_core::package::{
    CapabilityId, CapabilityNamespace, ExtensionActionKind, ExtensionActionRef, ExtensionActionRequestId, ExecutorRef,
    HookFailurePolicy, HookId, HookPoint, HookResponseClass, HookSpec,
};
use agent_sdk_core::policy::{EffectClass, PolicyDecision, PolicyOutcome, RiskClass};
use agent_sdk_core::tool::{
    tool_call_journal_record, validate_tool_name, CanonicalToolName, ToolCallRecord, ToolCallRecordParams,
    ToolCallRecordStatus, ToolResultRef,
};
use agent_sdk_core::tool_pack::{ToolPackEffectLineage, WorkspaceMutationLineage};
use agent_sdk_core::package::ToolPackId;

fn spec() -> HookSpec {
    HookSpec {
        hook_id: HookId::new("hook-1".to_string()),
        point: HookPoint::BeforeToolCall,
        executor_ref: ExecutorRef::new("executor.local".to_string()),
        policy_ref: PolicyRef::new("policy.hook"),
        failure: HookFailurePolicy::FailClosed,
        timeout_ms: 100,
    }
}

#[test]
fn hook_records_carry_the_hook() {
    let s = spec();
    let r = HookRecord::registered(&s, "sha256:spec".to_string());
    assert_eq!(r.hook_id.as_str(), "hook-1");
    assert_eq!(r.point, HookPoint::BeforeToolCall);
    match r.payload {
        HookRecordPayload::Registered { spec_hash, executor_ref, policy_ref } => {
            assert_eq!(spec_hash, "sha256:spec");
            assert_eq!(executor_ref, "executor.local");
            assert_eq!(policy_ref.id, "policy.hook");
        }
        _ => panic!("expected a registration"),
    }
    match HookRecord::timeout(&s, "inv-1".to_string(), 101).payload {
        HookRecordPayload::TimedOut { invocation_id, elapsed_ms, failure_policy } => {
            assert_eq!(invocation_id, "inv-1");
            assert_eq!(elapsed_ms, 101);
            assert_eq!(failure_policy, "FailClosed");
        }
        _ => panic!("expected a timeout"),
    }
    match HookRecord::failed(&s, "inv-1".to_string(), "boom".to_string()).payload {
        HookRecordPayload::Failed { failure_policy, redacted_summary, .. } => {
            assert_eq!(failure_policy, "FailClosed");
            assert_eq!(redacted_summary, "boom");
        }
        _ => panic!("expected a failure"),
    }
    assert!(matches!(HookRecord::completed(&s, "i".to_string(), 5).payload, HookRecordPayload::Completed { elapsed_ms: 5, .. }));
    assert!(matches!(HookRecord::cancelled(&s, "i".to_string()).payload, HookRecordPayload::Cancelled { .. }));
    assert!(matches!(HookRecord::invocation_started(&s, "i".to_string()).payload, HookRecordPayload::InvocationStarted { .. }));
    let e = hook_entity_ref(&s.hook_id);
    assert_eq!(e.kind, EntityKind::Hook);
}

#[test]
fn rejected_response_is_journaled_alone() {
    let (record, journal) = HookRecord::rejected_response_journal_record(
        9,
        "rec",
        RunId::new("run-1".to_string()),
        AgentId::new("agent-1".to_string()),
        SourceRef::new("host"),
        &spec(),
        "inv-1".to_string(),
        HookResponseDecision::RejectedPolicy,
        HookResponseClass::MutateContext,
        "fp".to_string(),
    );
    match &record.payload {
        HookRecordPayload::ResponseDecision { decision, mutation_right_decision, target_domain_refs, .. } => {
            assert_eq!(*decision, HookResponseDecision::RejectedPolicy);
            assert_eq!(mutation_right_decision, "checked_against_point_and_spec_rights");
            assert!(target_domain_refs.is_empty());
        }
        _ => panic!("expected a response decision"),
    }
    assert_eq!(journal.journal_seq, 9);
    assert_eq!(journal.record_id, "rec.response");
    assert_eq!(journal.record_kind, JournalRecordKind::Hook);
    assert_eq!(journal.redaction_policy_id, "policy.redaction.hook.default");
}

#[test]
fn accepted_mutation_is_journaled_before_apply() {
    let plan = HookMutationJournalPlan::accepted_response(
        10,
        "rec",
        RunId::new("run-1".to_string()),
        AgentId::new("agent-1".to_string()),
        SourceRef::new("host"),
        &spec(),
        "inv-1".to_string(),
        HookResponseClass::MutateToolArgs,
        "fp".to_string(),
    );
    assert_eq!(plan.hook_journal_record.journal_seq, 10);
    assert_eq!(plan.intent_journal_record.journal_seq, 11);
    assert_eq!(plan.result_journal_record.journal_seq, 12);
    assert_eq!(plan.hook_journal_record.record_id, "rec.response");
    assert_eq!(plan.intent_journal_record.record_id, "rec.intent");
    assert_eq!(plan.result_journal_record.record_id, "rec.result");
    assert_eq!(plan.effect_intent.effect_id.as_str(), "effect.hook.hook-1.inv-1");
    assert_eq!(plan.effect_intent.kind, EffectKind::HookMutation);
    assert_eq!(plan.effect_intent.redacted_summary, "accepted hook response MutateToolArgs");
    assert_eq!(plan.intent_journal_record.record_kind, JournalRecordKind::EffectIntent);
    assert_eq!(plan.result_journal_record.record_kind, JournalRecordKind::EffectResult);
    match &plan.result_journal_record.payload {
        JournalRecordPayload::EffectResult(r) => {
            assert_eq!(r.terminal_status, EffectTerminalStatus::Completed);
            assert_eq!(r.redacted_summary, "accepted hook response MutateToolArgs journaled before apply");
        }
        _ => panic!("expected an effect result"),
    }
}

#[test]
fn tool_names_are_validated() {
    assert!(validate_tool_name("fs.read").is_ok());
    assert!(validate_tool_name("has space").is_ok());
    assert!(matches!(validate_tool_name(""), Err(IdValidationError::Empty)));
    assert!(matches!(validate_tool_name("a\u{7}b"), Err(IdValidationError::ControlCharacter { index: 1 })));
    assert!(matches!(validate_tool_name("é\nx"), Err(IdValidationError::ControlCharacter { index: 2 })));
    let long = "x".repeat(257);
    assert!(matches!(validate_tool_name(&long), Err(IdValidationError::TooLong { max: 256, actual: 257 })));
    assert!(validate_tool_name(&"x".repeat(256)).is_ok());
    let name = CanonicalToolName::try_new("fs.read".to_string()).unwrap();
    assert_eq!(name.redacted_display(), "CanonicalToolName(redacted)");
    assert!(CanonicalToolName::try_new(String::new()).is_err());
}

fn tool_call() -> ToolCallRecord {
    ToolCallRecord::requested(ToolCallRecordParams {
        tool_call_id: ToolCallId::new("call-1".to_string()),
        run_id: RunId::new("run-1".to_string()),
        turn_id: None,
        capability_id: CapabilityId::new("cap".to_string()),
        canonical_tool_name: CanonicalToolName::try_new("fs.read".to_string()).unwrap(),
        namespace: CapabilityNamespace::new("fs".to_string()),
        source: SourceRef::new("host"),
        destination: DestinationRef::with_kind(DestinationKind::Tool, "fs"),
        executor_ref: None,
        policy_refs: vec![PolicyRef::new("policy.tool")],
        sidecar_refs: Vec::new(),
        effect_class: EffectClass::ReadOnly,
        risk_class: RiskClass::Low,
        privacy: PrivacyClass::ContentRefsOnly,
        retention: RetentionClass::RunScoped,
        requested_args_refs: vec![ContentRefId::new("args".to_string())],
        redacted_args_summary: "read a file".to_string(),
        idempotency_key: None,
    })
}

fn outcome() -> PolicyOutcome {
    PolicyOutcome { decision: PolicyDecision::Allow, policy_refs: Vec::new(), reason_code: "ok".to_string() }
}

#[test]
fn tool_call_lifecycle() {
    let call = tool_call();
    assert_eq!(call.status, ToolCallRecordStatus::Requested);
    assert!(ToolResultRef::from_record(&call).is_none());
    let intent = EffectIntent::new(
        EffectId::new("effect-1".to_string()),
        EffectKind::ToolExecution,
        call.subject_ref(),
        SourceRef::new("host"),
        "run".to_string(),
    );
    let call = call.with_intent(intent);
    assert_eq!(call.status, ToolCallRecordStatus::IntentRecorded);
    let mut result = EffectResult::completed(EffectId::new("effect-1".to_string()), "read ok".to_string());
    result.content_refs.push(ContentRefId::new("out".to_string()));
    let call = call.with_result(result, outcome());
    assert_eq!(call.status, ToolCallRecordStatus::Completed);
    assert_eq!(call.redacted_result_summary.as_deref(), Some("read ok"));
    let r = ToolResultRef::from_record(&call).unwrap();
    assert_eq!(r.effect_id.as_str(), "effect-1");
    assert_eq!(r.content_refs.len(), 1);
    assert_eq!(r.redacted_summary, "read ok");
    let journal = tool_call_journal_record(
        JournalRecordBase::new(1, "r".to_string(), RunId::new("run-1".to_string()), AgentId::new("a".to_string()), SourceRef::new("host")),
        call,
        "tool_completed",
    );
    assert_eq!(journal.record_kind, JournalRecordKind::Tool);
    assert_eq!(journal.tags, vec!["tool_execution".to_string()]);
    assert_eq!(journal.content_refs.len(), 2);
    assert_eq!(journal.event_index.event_family, "tool");
    assert_eq!(journal.event_index.event_kind, "tool_completed");
}

#[test]
fn tool_call_denial_and_recovery() {
    let denied = tool_call().with_denial(outcome());
    assert_eq!(denied.status, ToolCallRecordStatus::DeniedBeforeExecution);
    let timed_out = tool_call().with_result(
        EffectResult { terminal_status: EffectTerminalStatus::TimedOut, ..EffectResult::completed(EffectId::new("e".to_string()), "t".to_string()) },
        outcome(),
    );
    assert_eq!(timed_out.status, ToolCallRecordStatus::TimedOut);
    let recovering = tool_call().with_recovery_required(EffectResult::unknown(EffectId::new("e".to_string()), "?".to_string()), "crashed".to_string());
    assert_eq!(recovering.status, ToolCallRecordStatus::RecoveryRequired);
    assert_eq!(recovering.unsafe_pending_reason.as_deref(), Some("crashed"));
    let mut no_summary = tool_call().with_result(EffectResult::completed(EffectId::new("e".to_string()), "x".to_string()), outcome());
    no_summary.redacted_result_summary = None;
    assert_eq!(ToolResultRef::from_record(&no_summary).unwrap().redacted_summary, "tool result redacted");
}

fn action() -> ExtensionActionRecord {
    ExtensionActionRecord::submitted(ExtensionActionRecordParams {
        request_id: ExtensionActionRequestId::new("req-1".to_string()),
        run_id: RunId::new("run-1".to_string()),
        turn_id: None,
        action_ref: ExtensionActionRef { extension_id: "ext".to_string(), action_name: "sync".to_string(), subject: "doc-1".to_string() },
        action_kind: ExtensionActionKind::Command,
        source: SourceRef::with_kind(SourceKind::Extension, "ext"),
        destination: DestinationRef::with_kind(DestinationKind::Host, "host"),
        policy_refs: vec![PolicyRef::new("policy.ext")],
        risk_class: RiskClass::Medium,
        privacy: PrivacyClass::Internal,
        retention: RetentionClass::RunScoped,
        input_refs: Vec::new(),
        redacted_input_summary: "sync".to_string(),
        idempotency_key: None,
    })
}

#[test]
fn extension_action_lifecycle() {
    let a = action();
    assert_eq!(a.status, ExtensionActionRecordStatus::Submitted);
    assert_eq!(a.subject_ref().id, "doc-1");
    assert_eq!(a.action_ref.subject_id(), "doc-1");
    let event = ExtensionActionEvent::from_record(ExtensionActionEventKind::Submitted, &a, "fp".to_string(), "s".to_string());
    assert!(event.effect_id.is_none());
    let intent = EffectIntent::new(EffectId::new("effect-i".to_string()), EffectKind::ExtensionAction, a.subject_ref(), SourceRef::new("host"), "x".to_string());
    let a = a.with_intent(intent);
    assert_eq!(a.status, ExtensionActionRecordStatus::Started);
    let event = ExtensionActionEvent::from_record(ExtensionActionEventKind::Started, &a, "fp".to_string(), "s".to_string());
    assert_eq!(event.effect_id.unwrap().as_str(), "effect-i");
    let result = EffectResult { terminal_status: EffectTerminalStatus::DeniedBeforeExecution, ..EffectResult::completed(EffectId::new("effect-r".to_string()), "x".to_string()) };
    let a = a.with_result(result);
    assert_eq!(a.status, ExtensionActionRecordStatus::Denied);
    let event = ExtensionActionEvent::from_record(ExtensionActionEventKind::Denied, &a, "fp".to_string(), "s".to_string());
    assert_eq!(event.effect_id.unwrap().as_str(), "effect-r");
    assert_eq!(action().with_denial("nope".to_string()).denied_reason.as_deref(), Some("nope"));
}

#[test]
fn inverse_candidate_is_advisory_only_when_named() {
    let mut lineage = ToolPackEffectLineage {
        pack_id: ToolPackId::new("pack".to_string()),
        tool_name: CanonicalToolName::try_new("fs.write".to_string()).unwrap(),
        effect_id: EffectId::new("e".to_string()),
        effect_kind: EffectKind::FileWrite,
        subject_ref: EntityRef::new(EntityKind::ToolCall, "c"),
        source: SourceRef::new("host"),
        destination: DestinationRef::with_kind(DestinationKind::Tool, "fs"),
        policy_refs: Vec::new(),
        content_refs: Vec::new(),
        mutation: None,
        redacted_summary: "w".to_string(),
    };
    assert!(!lineage.inverse_candidate_is_advisory());
    lineage.mutation = Some(WorkspaceMutationLineage {
        path: "a.txt".to_string(),
        before_hash: None,
        after_hash: None,
        diff_ref: None,
        inverse_candidate_ref: None,
        non_reversible_reason: None,
    });
    assert!(!lineage.inverse_candidate_is_advisory());
    lineage.mutation.as_mut().unwrap().inverse_candidate_ref = Some(ContentRefId::new("inv".to_string()));
    assert!(lineage.inverse_candidate_is_advisory());
}
