use agent_sdk_core::domain::{
    AgentId, AttemptId, ContentRefId, DestinationKind, DestinationRef, EntityKind, EntityRef, IdempotencyKey,
    JournalCursor, OutputSchemaId, PolicyRef, PrivacyClass, RetentionClass, RunId, SourceRef,
};
use agent_sdk_core::effect::EffectTerminalStatus;
use agent_sdk_core::isolation::{IsolationEventBase, IsolationEventKind, IsolationRecord, IsolationRequestedRecord};
use agent_sdk_core::output::{ContentHash, SchemaVersion};
use agent_sdk_core::package::{ExecutionEnvironmentId, IsolationClass, IsolationRequirementRef, ProviderUsage};
use agent_sdk_core::realtime::{
    RealtimeBackpressureAction, RealtimeBackpressureState, RealtimeInputFrame, RealtimeMediaKind, RealtimeOutputFrame,
};
use agent_sdk_core::stream::{StreamCursor, StreamCursorPrecision};
use agent_sdk_core::structured_output::{
    StructuredOutputLifecycleKind, StructuredOutputLifecycleRecord, ValidationErrorCode, ValidationErrorSummary,
    STRUCTURED_OUTPUT_LIFECYCLE_RECORD_SCHEMA_VERSION,
};
use agent_sdk_core::subagent::{ChildLifecycleAction, ChildLifecycleRecord, ChildLifecycleStatus, RunJournalRef};
use agent_sdk_core::telemetry::{
    TelemetryContentCaptureMode, TelemetryExportCursor, TelemetryProjectionKind, TelemetrySinkId, TelemetrySourceCursor,
    UsageUnits,
};

#[test]
fn telemetry_capture_modes() {
    assert!(TelemetryContentCaptureMode::RawContent.captures_raw_content());
    assert!(!TelemetryContentCaptureMode::RedactedSummary.captures_raw_content());
    assert_eq!(TelemetryContentCaptureMode::default(), TelemetryContentCaptureMode::Off);
    assert!(!TelemetryProjectionKind::Progress.is_terminal_preserved());
    assert!(TelemetryProjectionKind::RunTerminal.is_terminal_preserved());
    assert!(TelemetryProjectionKind::CostCorrection.is_terminal_preserved());
}

#[test]
fn export_cursor_advances_on_acknowledgement() {
    let c = TelemetryExportCursor::new(TelemetrySinkId::new("sink".to_string()));
    assert_eq!(c.export_seq, 0);
    let source = TelemetrySourceCursor::Journal(JournalCursor::new("j-1".to_string()));
    let c = c.attempted(Some(source.clone()));
    assert!(c.last_attempted_source.is_some());
    assert_eq!(c.export_seq, 0);
    let c = c.acknowledged(Some(source));
    assert_eq!(c.export_seq, 1);
    assert!(c.last_attempted_source.is_none());
    assert!(c.last_acknowledged_source.is_some());
}

#[test]
fn usage_units_from_provider() {
    let u = UsageUnits::from_provider_usage(ProviderUsage { input_tokens: Some(3), output_tokens: Some(4), total_tokens: Some(7) });
    assert_eq!(u.input_tokens, Some(3));
    assert_eq!(u.total_tokens, Some(7));
    assert_eq!(u.bytes, None);
    let d = UsageUnits::default();
    assert_eq!(d.input_tokens, None);
    assert_eq!(d.media_duration_ms, None);
}

#[test]
fn realtime_backpressure_and_frames() {
    let s = RealtimeBackpressureState::bounded(8, PolicyRef::new("p"));
    assert_eq!(s.capacity, 8);
    assert_eq!(s.gated_frames, 0);
    let s = s.gate().gate();
    assert_eq!(s.gated_frames, 2);
    assert_eq!(s.last_action, Some(RealtimeBackpressureAction::Gate));
    let f = RealtimeInputFrame::media_ref(RealtimeMediaKind::Audio, ContentRefId::new("audio-1".to_string()), "clip".to_string());
    assert_eq!(f.frame_id.as_str(), "realtime.frame.audio-1");
    assert_eq!(f.cursor.precision, StreamCursorPrecision::ChunkSequenceOnly);
    assert_eq!(f.privacy, PrivacyClass::ContentRefsOnly);
    let f = f.with_cursor(StreamCursor::byte(1, 2));
    assert_eq!(f.cursor.byte_offset, 2);
    let o = RealtimeOutputFrame::transcript("response-1".to_string(), "text-1".to_string(), "words".to_string());
    assert_eq!(o.frame_id.as_str(), "realtime.frame.text-1");
    assert_eq!(o.response_id.as_str(), "response-1");
    assert_eq!(o.media_kind, RealtimeMediaKind::Transcript);
    assert_eq!(o.content_refs[0].as_str(), "text-1");
}

#[test]
fn subagent_shutdown_and_detach() {
    let journal = RunJournalRef::for_run(RunId::new("child-1".to_string()));
    assert_eq!(journal.journal_partition_ref, "journal.run.child-1");
    let intent = ChildLifecycleRecord::shutdown_intent(
        RunId::new("parent-1".to_string()),
        RunId::new("child-1".to_string()),
        vec![PolicyRef::new("p")],
        IdempotencyKey::new("k".to_string()),
    );
    assert_eq!(intent.action, ChildLifecycleAction::ShutdownIntent);
    assert_eq!(intent.status, ChildLifecycleStatus::Requested);
    let intent_effect = intent.effect_intent.as_ref().unwrap().effect_id.as_str().to_string();
    assert_eq!(intent_effect, "effect.subagent.shutdown.child-1");
    let done = intent.shutdown_completed();
    assert_eq!(done.status, ChildLifecycleStatus::Completed);
    let result = done.effect_result.as_ref().unwrap();
    assert_eq!(result.effect_id.as_str(), intent_effect);
    assert_eq!(result.terminal_status, EffectTerminalStatus::Cancelled);
    assert_eq!(result.redacted_summary, "parent-owned child subagent shutdown completed");

    let detach = ChildLifecycleRecord::detach_intent(
        RunId::new("parent-1".to_string()),
        RunId::new("child-1".to_string()),
        vec![PolicyRef::new("p")],
        "ack-1".to_string(),
        PolicyRef::new("reclaim"),
        IdempotencyKey::new("k2".to_string()),
    );
    assert_eq!(detach.action, ChildLifecycleAction::DetachIntent);
    let detached = detach.detached();
    assert_eq!(detached.status, ChildLifecycleStatus::Detached);
    let result = detached.effect_result.as_ref().unwrap();
    assert_eq!(result.effect_id.as_str(), "effect.subagent.detach.child-1");
    assert_eq!(result.effect_id.as_str(), detached.effect_intent.as_ref().unwrap().effect_id.as_str());
    assert_eq!(result.terminal_status, EffectTerminalStatus::Completed);
    assert_eq!(result.external_operation_id.as_deref(), Some("ack-1"));
    assert_eq!(result.reconciliation_ref.as_deref(), Some("reclaim"));
}

#[test]
fn isolation_event_follows_the_record() {
    let record = IsolationRecord::Requested(IsolationRequestedRecord {
        environment_id: ExecutionEnvironmentId::new("env-1".to_string()),
        requirement_ref: IsolationRequirementRef::new("req".to_string()),
        requested_class: IsolationClass::Container,
        source: SourceRef::new("host"),
        destination: DestinationRef::with_kind(DestinationKind::Host, "host"),
        policy_refs: Vec::new(),
        redacted_summary: "isolation requested".to_string(),
    });
    let base = IsolationEventBase {
        run_id: RunId::new("run-1".to_string()),
        agent_id: AgentId::new("agent-1".to_string()),
        subject_ref: EntityRef::new(EntityKind::Run, "run-1"),
        related_refs: Vec::new(),
        source: SourceRef::new("host"),
        destination: DestinationRef::with_kind(DestinationKind::Host, "host"),
        policy_refs: Vec::new(),
        privacy: PrivacyClass::Internal,
        retention: RetentionClass::RunScoped,
        runtime_package_fingerprint: "fp".to_string(),
    };
    let event = record.event_record(base);
    assert_eq!(event.event_kind, IsolationEventKind::IsolationRequested);
    assert_eq!(event.redacted_summary, "isolation requested");
    assert_eq!(event.privacy, PrivacyClass::Internal);
}

#[test]
fn structured_output_lifecycle_records() {
    let hash = ContentHash::try_new(format!("sha256:{}", "0".repeat(64))).unwrap();
    let r = StructuredOutputLifecycleRecord::requested(OutputSchemaId::new("schema".to_string()), SchemaVersion::new(1, 0, 0), hash.clone());
    assert_eq!(r.record_kind, StructuredOutputLifecycleKind::Requested);
    assert_eq!(r.record_schema_version, STRUCTURED_OUTPUT_LIFECYCLE_RECORD_SCHEMA_VERSION);
    assert_eq!(r.redacted_summary, "structured output requested");
    assert!(r.source_attempt_id.is_none());
    let v = StructuredOutputLifecycleRecord::validation_started(
        OutputSchemaId::new("schema".to_string()),
        SchemaVersion::new(1, 0, 0),
        hash,
        AttemptId::new("attempt-1".to_string()),
        ContentRefId::new("candidate".to_string()),
    );
    assert_eq!(v.record_kind, StructuredOutputLifecycleKind::ValidationStarted);
    assert_eq!(v.redacted_summary, "structured output validation started");
    assert_eq!(v.source_attempt_id.unwrap().as_str(), "attempt-1");
    let e = ValidationErrorSummary::new(ValidationErrorCode::TypeMismatch, "$.a".to_string(), "wrong type".to_string());
    assert_eq!(e.path, "$.a");
    assert!(!ValidationErrorCode::TypeMismatch.is_schema_rejection());
    assert!(ValidationErrorCode::HostileSchema.is_schema_rejection());
    assert!(ValidationErrorCode::SemanticValidatorUnavailable.is_schema_rejection());
    assert!(!ValidationErrorCode::InvalidJson.is_schema_rejection());
}
