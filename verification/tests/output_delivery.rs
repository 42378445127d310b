use agent_sdk_core::domain::{
    AgentId, ContentRefId, DedupeKey, DestinationKind, DestinationRef, EffectId, EntityKind, MessageId, PolicyRef,
    PrivacyClass, RetentionClass, RetryClassification, RunId, RuntimePackageFingerprint, SourceKind, SourceRef,
};
use agent_sdk_core::effect::{EffectKind, EffectTerminalStatus};
use agent_sdk_core::journal::{JournalRecordKind, JournalRecordPayload};
use agent_sdk_core::output_delivery::{
    build_output_delivery_dedupe_key, OutputContentMode, OutputDeliveryId, OutputDeliveryIntentRecord,
    OutputDeliveryJournalBase, OutputDeliveryKind, OutputDeliveryPolicy, OutputDeliveryReceipt, OutputDeliveryRecord,
    OutputDeliveryRequest, OutputDeliveryRequirement, OutputDeliveryResultRecord, OutputDispatchStatus, OutputSinkRef,
    RawOutputContentPolicy,
};

fn request() -> OutputDeliveryRequest {
    OutputDeliveryRequest {
        delivery_id: OutputDeliveryId::new("delivery-1".to_string()),
        effect_id: EffectId::new("effect-d".to_string()),
        run_id: RunId::new("run-1".to_string()),
        session_id: None,
        agent_id: AgentId::new("agent-1".to_string()),
        turn_id: None,
        attempt_id: None,
        source_message_id: None,
        validated_output_id: None,
        destination: DestinationRef::with_kind(DestinationKind::OutputSink, "sink.dest"),
        sink_ref: OutputSinkRef::new("sink-1".to_string()),
        delivery_kind: OutputDeliveryKind::FinalMessage,
        content_mode: OutputContentMode::ContentRefsOnly,
        content_refs: vec![ContentRefId::new("c1".to_string()), ContentRefId::new("c2".to_string())],
        redacted_summary: "final answer".to_string(),
        raw_content: None,
        privacy: PrivacyClass::ContentRefsOnly,
        retention: RetentionClass::RunScoped,
        policy_refs: vec![PolicyRef::new("policy.out")],
        idempotency_key: None,
        dedupe_key: DedupeKey::new("dedupe.placeholder".to_string()),
        runtime_package_fingerprint: RuntimePackageFingerprint::new("fp".to_string()),
    }
}

fn base() -> OutputDeliveryJournalBase {
    OutputDeliveryJournalBase {
        journal_seq: 4,
        record_id: "rec-4".to_string(),
        run_id: RunId::new("run-1".to_string()),
        session_id: None,
        agent_id: AgentId::new("agent-1".to_string()),
        turn_id: None,
        attempt_id: None,
        source: SourceRef::new("host"),
        destination: DestinationRef::with_kind(DestinationKind::OutputSink, "sink.dest"),
        timestamp_millis: 9,
        runtime_package_fingerprint: RuntimePackageFingerprint::new("fp".to_string()),
        redaction_policy_id: "redaction".to_string(),
    }
}

#[test]
fn dedupe_key_hashes_the_delivery_identity() {
    assert_eq!(
        build_output_delivery_dedupe_key(&request()).as_str(),
        "dedupe.output_delivery.a7b49c1891be889419030426cbf5c3f8a5889243c366f2f8e5b7de7bef570be8"
    );
    let mut r = request();
    r.delivery_kind = OutputDeliveryKind::StreamChunk { stream_cursor: "cur".to_string(), chunk_index: 3 };
    r.source_message_id = Some(MessageId::new("msg-1".to_string()));
    r.content_refs.clear();
    r.policy_refs = vec![PolicyRef { version: Some("v2".to_string()), ..PolicyRef::new("policy.out") }];
    assert_eq!(
        build_output_delivery_dedupe_key(&r).as_str(),
        "dedupe.output_delivery.2513cb9e0e6126ba559314d186a6c2dfe580fd830569e363abe3fb8e9c567d24"
    );
}

#[test]
fn dedupe_key_ignores_summary_and_delivery_id() {
    let mut r = request();
    r.redacted_summary = "other".to_string();
    r.delivery_id = OutputDeliveryId::new("delivery-2".to_string());
    assert_eq!(build_output_delivery_dedupe_key(&r).as_str(), build_output_delivery_dedupe_key(&request()).as_str());
}

#[test]
fn raw_content_policy() {
    let deny = RawOutputContentPolicy::deny();
    assert_eq!(deny.policy_ref.id, "policy.output_delivery.raw.deny");
    assert!(!deny.allows_raw_for(&OutputSinkRef::new("sink-1".to_string()), 0));
    let allow = RawOutputContentPolicy::allow_for_sink(PolicyRef::new("p"), OutputSinkRef::new("sink-1".to_string()), 100);
    assert!(allow.allows_raw_for(&OutputSinkRef::new("sink-1".to_string()), 100));
    assert!(!allow.allows_raw_for(&OutputSinkRef::new("sink-1".to_string()), 101));
    assert!(!allow.allows_raw_for(&OutputSinkRef::new("sink-2".to_string()), 1));
}

#[test]
fn delivery_policies() {
    let required = OutputDeliveryPolicy::required(PolicyRef::new("p"), OutputSinkRef::new("sink-1".to_string()));
    assert_eq!(required.requirement, OutputDeliveryRequirement::Required);
    assert!(required.allows_mode(OutputContentMode::ContentRefsOnly));
    assert!(required.allows_mode(OutputContentMode::RedactedSummary));
    assert!(!required.allows_mode(OutputContentMode::RawContentIfPolicyAllows));
    let optional = OutputDeliveryPolicy::optional(PolicyRef::new("p"));
    assert!(!optional.allows_mode(OutputContentMode::ContentRefsOnly));
    assert_eq!(optional.default_content_mode, OutputContentMode::RedactedSummary);
    let disabled = OutputDeliveryPolicy::disabled(PolicyRef::new("p"));
    assert!(!disabled.allows_mode(OutputContentMode::ContentRefsOnly));
    assert!(!disabled.allows_mode(OutputContentMode::RedactedSummary));
    let mut with_retry = OutputDeliveryPolicy::optional(PolicyRef::new("p"));
    assert_eq!(with_retry.policy_refs().len(), 1);
    with_retry.retry_policy_ref = Some(PolicyRef::new("retry"));
    with_retry.reconciliation_policy_ref = Some(PolicyRef::new("recon"));
    let ids: Vec<String> = with_retry.policy_refs().into_iter().map(|p| p.id).collect();
    assert_eq!(ids, vec!["p".to_string(), "retry".to_string(), "recon".to_string()]);
}

#[test]
fn request_effect_intent() {
    let r = request();
    assert!(!r.carries_raw_content());
    assert!(OutputDeliveryKind::StreamChunk { stream_cursor: "c".to_string(), chunk_index: 0 }.is_chunk());
    assert!(!OutputDeliveryKind::FinalMessage.is_chunk());
    let intent = r.effect_intent();
    assert_eq!(intent.kind, EffectKind::OutputDelivery);
    assert_eq!(intent.subject_ref.kind, EntityKind::OutputDelivery);
    assert_eq!(intent.subject_ref.id, "delivery-1");
    assert_eq!(intent.source.kind, SourceKind::Sdk);
    assert_eq!(intent.source.id, "source.sdk.output_delivery");
    assert_eq!(intent.dedupe_key.unwrap().as_str(), "dedupe.placeholder");
    assert_eq!(intent.content_refs.len(), 2);
}

#[test]
fn intent_and_result_records() {
    let r = request();
    let intent = OutputDeliveryIntentRecord::from_request(&r);
    assert_eq!(intent.desired_sink_ref.as_str(), "sink-1");
    let journal = intent.to_journal_record(base());
    assert_eq!(journal.record_kind, JournalRecordKind::OutputDispatch);
    assert_eq!(journal.event_index.event_kind, "output_dispatch_requested");
    assert_eq!(journal.journal_seq, 4);
    assert!(matches!(journal.payload, JournalRecordPayload::OutputDelivery(OutputDeliveryRecord::Intent(_))));

    let receipt = OutputDeliveryReceipt::completed(OutputDeliveryId::new("delivery-1".to_string()), "ack-1".to_string());
    assert_eq!(receipt.redacted_summary, "output delivery completed");
    let done = OutputDeliveryResultRecord::completed(&r, &receipt);
    assert_eq!(done.dispatch_status, OutputDispatchStatus::Completed);
    assert_eq!(done.effect_result.terminal_status, EffectTerminalStatus::Completed);
    assert_eq!(done.ack_ref.as_deref(), Some("ack-1"));
    assert_eq!(done.retry_classification, RetryClassification::NotRetryable);
    assert_eq!(done.to_journal_record(base()).event_index.event_kind, "output_dispatch_completed");

    let failed = OutputDeliveryResultRecord::failed(&r, OutputDispatchStatus::Failed, "err-1".to_string(), RetryClassification::Retryable);
    assert_eq!(failed.effect_result.terminal_status, EffectTerminalStatus::Failed);
    assert_eq!(failed.error_ref.as_deref(), Some("err-1"));
    assert_eq!(failed.redacted_summary, "output delivery failed before host send or at sink boundary");
    assert_eq!(failed.to_journal_record(base()).event_index.event_kind, "output_dispatch_failed");

    let unknown = OutputDeliveryReceipt::unknown(OutputDeliveryId::new("delivery-1".to_string()), "recon-1".to_string());
    let pending = OutputDeliveryResultRecord::reconciliation_needed(&r, &unknown);
    assert_eq!(pending.effect_result.terminal_status, EffectTerminalStatus::Unknown);
    assert_eq!(pending.retry_classification, RetryClassification::RepairNeeded);
    assert_eq!(pending.effect_result.reconciliation_ref.as_deref(), Some("recon-1"));
}
