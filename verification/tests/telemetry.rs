use agent_sdk_core::domain::{AgentId, EntityKind, EntityRef, PolicyRef, PrivacyClass, RetentionClass, RunId, SourceRef};
use agent_sdk_core::event::{EventFamily, EventKind};
use agent_sdk_core::telemetry::{
    TelemetryContentCaptureMode, TelemetryProjection, TelemetryProjectionId, TelemetryProjectionKind, TelemetryRecord,
    TelemetryRecordId, TelemetryRecordPayload, TelemetrySourceRecord, TelemetryUsageRecordId, UsageUnits,
    TELEMETRY_SCHEMA_VERSION,
};

fn projection(capture: TelemetryContentCaptureMode) -> TelemetryProjection {
    TelemetryProjection {
        schema_version: 1,
        projection_id: TelemetryProjectionId::new("projection-1".to_string()),
        projection_kind: TelemetryProjectionKind::Usage,
        source_record: TelemetrySourceRecord {
            event_family: EventFamily::Model,
            event_kind: EventKind::UsageRecorded,
            event_cursor: None,
            source_cursor: None,
        },
        run_id: RunId::new("run-1".to_string()),
        agent_id: AgentId::new("agent-1".to_string()),
        turn_id: None,
        attempt_id: None,
        event_id: None,
        journal_cursor: None,
        trace_id: None,
        span_id: None,
        runtime_package_fingerprint: "fp".to_string(),
        source: SourceRef::new("host"),
        destination: None,
        subject_ref: EntityRef::new(EntityKind::Run, "run-1"),
        policy_refs: vec![PolicyRef::new("policy.telemetry")],
        privacy: PrivacyClass::Internal,
        retention: RetentionClass::SessionScoped,
        content_capture: capture,
        redaction_policy_id: "redaction".to_string(),
        provider_id: Some("provider".to_string()),
        model_id: Some("model".to_string()),
        tool_name: None,
        usage: None,
        cost: None,
        terminal_status: None,
        sink_health: None,
        redacted_summary: "usage".to_string(),
        raw_content: Some("raw prompt".to_string()),
    }
}

#[test]
fn raw_content_is_dropped_from_projections() {
    let p = projection(TelemetryContentCaptureMode::RawContent).without_raw_content();
    assert!(p.raw_content.is_none());
    assert_eq!(p.content_capture, TelemetryContentCaptureMode::RedactedSummary);
    let p = projection(TelemetryContentCaptureMode::PayloadRefs).without_raw_content();
    assert!(p.raw_content.is_none());
    assert_eq!(p.content_capture, TelemetryContentCaptureMode::PayloadRefs);
    assert!(p.is_terminal_preserved());
}

#[test]
fn usage_record_carries_projection_lineage() {
    let p = projection(TelemetryContentCaptureMode::MetadataOnly);
    let r = TelemetryRecord::usage(TelemetryRecordId::new("record-1".to_string()), &p, TelemetryUsageRecordId::new("usage-1".to_string()));
    assert_eq!(r.schema_version, TELEMETRY_SCHEMA_VERSION);
    assert_eq!(r.run_id.as_str(), "run-1");
    assert_eq!(r.privacy, PrivacyClass::Internal);
    assert_eq!(r.retention, RetentionClass::SessionScoped);
    assert_eq!(r.policy_refs.len(), 1);
    match r.payload {
        TelemetryRecordPayload::Usage(u) => {
            assert_eq!(u.usage_record_id.as_str(), "usage-1");
            assert_eq!(u.units.input_tokens, UsageUnits::default().input_tokens);
            assert_eq!(u.provider_id.as_deref(), Some("provider"));
            assert_eq!(u.model_id.as_deref(), Some("model"));
        }
        _ => panic!("expected a usage record"),
    }
}
