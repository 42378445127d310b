use agent_sdk_core::domain::{
    AgentId, CorrelationEntry, CorrelationKey, EntityKind, EntityRef, EventId, PrivacyClass, RunId, SourceRef, SpanId,
    TraceId,
};
use agent_sdk_core::event::{
    cursor_compatible, AgentEvent, ContentCaptureMode, EventCorrelation, EventDeliverySemantics, EventEnvelope,
    EventFamily, EventFilter, EventFilterFingerprint, EventFilterId, EventFilterSet, EventIndexField, EventKind,
    EventStreamScope, EventTag, PayloadAccessMode, SubscriberOverflowPolicy, SubscriptionOptions,
};
use agent_sdk_core::domain::AgentErrorKind;

fn envelope(run: &str, kind: EventKind, family: EventFamily) -> EventEnvelope {
    EventEnvelope {
        schema_version: 1,
        event_id: EventId::new("event-1".to_string()),
        event_seq: 5,
        event_family: family,
        event_kind: kind,
        payload_schema_version: 1,
        timestamp: "t".to_string(),
        recorded_at: "t".to_string(),
        run_id: RunId::new(run.to_string()),
        agent_id: AgentId::new("agent-1".to_string()),
        turn_id: None,
        attempt_id: None,
        message_id: None,
        context_item_id: None,
        trace_id: TraceId::new("trace".to_string()),
        span_id: SpanId::new("span".to_string()),
        parent_event_id: None,
        caused_by: None,
        subject_ref: EntityRef::new(EntityKind::Run, run),
        related_refs: Vec::new(),
        causal_refs: Vec::new(),
        correlation: EventCorrelation::default(),
        tags: Vec::new(),
        source: SourceRef::new("host"),
        destination: None,
        policy_refs: Vec::new(),
        journal_cursor: None,
        state_before: None,
        state_after: None,
        delivery_semantics: EventDeliverySemantics::JournalBacked,
        privacy: PrivacyClass::ContentRefsOnly,
        content_capture: ContentCaptureMode::MetadataOnly,
        redaction_policy_id: "r".to_string(),
        runtime_package_fingerprint: "fp".to_string(),
    }
}

#[test]
fn terminal_kinds() {
    assert!(EventKind::RunCompleted.is_terminal());
    assert!(EventKind::RunFailed.is_terminal());
    assert!(EventKind::ToolDenied.is_terminal());
    assert!(EventKind::WakeConditionFailed.is_terminal());
    assert!(!EventKind::RunStarted.is_terminal());
    assert!(!EventKind::ModelStreamDelta.is_terminal());
    assert!(!EventKind::ToolRequested.is_terminal());
}

#[test]
fn filter_sets_match_listed_values() {
    let any: EventFilterSet<EventFamily> = EventFilterSet::Any;
    assert!(any.matches(&EventFamily::Tool));
    assert!(any.is_any());
    let only_run = EventFilterSet::Include(vec![EventFamily::Run]);
    assert!(only_run.matches(&EventFamily::Run));
    assert!(!only_run.matches(&EventFamily::Tool));
    assert!(!only_run.is_any());
    let empty: EventFilterSet<EventFamily> = EventFilterSet::Include(Vec::new());
    assert!(!empty.matches(&EventFamily::Run));
}

#[test]
fn default_filter_passes_everything() {
    let f = EventFilter::default();
    let c = f.compile(b"abc");
    assert!(c.matches_envelope(&envelope("run-1", EventKind::ToolStarted, EventFamily::Tool)));
    assert!(c.indexed_fields.is_empty());
    assert_eq!(c.payload_access, PayloadAccessMode::EnvelopeOnly);
    assert_eq!(c.queue.capacity, 64);
    assert_eq!(c.queue.terminal_reserve, 1);
    assert_eq!(c.queue.overflow, SubscriberOverflowPolicy::DropNonTerminal);
}

#[test]
fn compiled_filter_is_fingerprinted_by_its_encoding() {
    let c = EventFilter::default().compile(b"abc");
    assert_eq!(
        c.filter_fingerprint.as_str(),
        "sha256:ba7816bf8f01cfea414140de5dae2223b00361a396177a9cb410ff61f20015ad"
    );
    assert_eq!(c.filter_id.as_str(), "filter.908b76e257aae5605fc60365a8f8e13841a21639d0b5019ad059142c85b0d0ca");
    match c.cursor_scope() {
        EventStreamScope::Filter { filter_id, filter_fingerprint } => {
            assert_eq!(filter_id.as_str(), c.filter_id.as_str());
            assert_eq!(filter_fingerprint.as_str(), c.filter_fingerprint.as_str());
        }
        _ => panic!("expected a filter scope"),
    }
}

#[test]
fn run_filter_matches_only_its_run() {
    let c = EventFilter::run(RunId::new("run-1".to_string())).compile(b"{}");
    assert!(c.matches_envelope(&envelope("run-1", EventKind::RunStarted, EventFamily::Run)));
    assert!(!c.matches_envelope(&envelope("run-2", EventKind::RunStarted, EventFamily::Run)));
    assert_eq!(c.indexed_fields, vec![EventIndexField::RunId]);
}

#[test]
fn agent_filter_indexes_agent() {
    let c = EventFilter::agent(AgentId::new("agent-1".to_string())).compile(b"{}");
    assert!(c.matches_envelope(&envelope("run-1", EventKind::RunStarted, EventFamily::Run)));
    assert_eq!(c.indexed_fields, vec![EventIndexField::AgentId]);
}

#[test]
fn terminal_run_filter_needs_terminal_run_events() {
    let c = EventFilter::terminal_run_events().compile(b"{}");
    assert!(c.matches_envelope(&envelope("run-1", EventKind::RunCompleted, EventFamily::Run)));
    assert!(!c.matches_envelope(&envelope("run-1", EventKind::RunStarted, EventFamily::Run)));
    assert!(!c.matches_envelope(&envelope("run-1", EventKind::ToolCompleted, EventFamily::Tool)));
    assert_eq!(c.indexed_fields, vec![EventIndexField::EventFamily]);
}

#[test]
fn tag_and_correlation_filters_need_one_match() {
    let mut f = EventFilter::default();
    f.tags = EventFilterSet::Include(vec![EventTag::new("billing".to_string())]);
    f.correlation_keys = EventFilterSet::Include(vec![CorrelationKey::new("order".to_string())]);
    let c = f.compile(b"{}");
    let mut e = envelope("run-1", EventKind::RunStarted, EventFamily::Run);
    assert!(!c.matches_envelope(&e));
    e.tags = vec![EventTag::new("other".to_string()), EventTag::new("billing".to_string())];
    assert!(!c.matches_envelope(&e));
    e.correlation.entries.push(CorrelationEntry { key: CorrelationKey::new("order".to_string()), value: "7".to_string() });
    assert!(c.matches_envelope(&e));
    assert_eq!(c.indexed_fields, vec![EventIndexField::CorrelationKey, EventIndexField::Tag]);
}

#[test]
fn related_entity_filter() {
    let mut f = EventFilter::default();
    f.related_entity_kinds = EventFilterSet::Include(vec![EntityKind::ToolCall]);
    let c = f.compile(b"{}");
    let mut e = envelope("run-1", EventKind::RunStarted, EventFamily::Run);
    assert!(!c.matches_envelope(&e));
    e.related_refs.push(EntityRef::new(EntityKind::ToolCall, "call-1"));
    assert!(c.matches_envelope(&e));
}

#[test]
fn envelope_cursor_and_summary() {
    let e = envelope("run-1", EventKind::ToolStarted, EventFamily::Tool);
    assert_eq!(e.redacted_summary(), "Tool/ToolStarted");
    let cursor = e.cursor(EventStreamScope::All);
    assert_eq!(cursor.event_seq, 5);
    assert_eq!(cursor.event_id.as_str(), "event-1");
    let event = AgentEvent::with_redacted_summary(e, "did a thing".to_string());
    assert_eq!(event.redacted_summary(), Some("did a thing"));
    let bare = AgentEvent::envelope_only(envelope("run-1", EventKind::ToolStarted, EventFamily::Tool));
    assert_eq!(bare.redacted_summary(), None);
}

fn run_cursor(run: &str) -> agent_sdk_core::event::EventCursor {
    envelope(run, EventKind::RunStarted, EventFamily::Run).cursor(EventStreamScope::Run(RunId::new(run.to_string())))
}

#[test]
fn cursors_resume_only_their_scope() {
    let scope = EventStreamScope::Run(RunId::new("run-1".to_string()));
    assert!(cursor_compatible(&scope, None).is_ok());
    assert!(cursor_compatible(&scope, Some(&run_cursor("run-1"))).is_ok());
    let e = cursor_compatible(&scope, Some(&run_cursor("run-2"))).unwrap_err();
    assert_eq!(e.kind, AgentErrorKind::ContractViolation);
    assert_eq!(e.message, "cursor scope mismatch for requested event stream");
    assert!(cursor_compatible(&EventStreamScope::All, Some(&run_cursor("run-1"))).is_err());
    let all = envelope("run-1", EventKind::RunStarted, EventFamily::Run).cursor(EventStreamScope::All);
    assert!(cursor_compatible(&EventStreamScope::All, Some(&all)).is_ok());
}

#[test]
fn filter_cursors_compare_fingerprints_only() {
    let a = EventStreamScope::Filter {
        filter_id: EventFilterId::new("filter.a".to_string()),
        filter_fingerprint: EventFilterFingerprint::new("sha256:x".to_string()),
    };
    let b = EventStreamScope::Filter {
        filter_id: EventFilterId::new("filter.b".to_string()),
        filter_fingerprint: EventFilterFingerprint::new("sha256:x".to_string()),
    };
    let cursor = envelope("run-1", EventKind::RunStarted, EventFamily::Run).cursor(b);
    assert!(cursor_compatible(&a, Some(&cursor)).is_ok());
}

#[test]
fn subscription_defaults() {
    let o = SubscriptionOptions::default();
    assert_eq!(o.payload_access, PayloadAccessMode::EnvelopeOnly);
    assert_eq!(o.queue.capacity, 64);
}
