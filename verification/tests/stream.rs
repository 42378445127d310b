use agent_sdk_core::domain::{AgentErrorKind, AgentId, ContentRefId, EffectId, EntityKind, PolicyKind, PolicyRef, PrivacyClass, RunId, SourceKind, SourceRef};
use agent_sdk_core::effect::{EffectKind, EffectResult};
use agent_sdk_core::journal::{JournalRecordBase, JournalRecordKind};
use agent_sdk_core::stream::{
    hash_rule_fingerprint, stream_policy_ref, PartialOutputPolicy, RedactedMatch, RegexDialect, RepeatPolicy, RuleVersion,
    StreamAction, StreamChannel, StreamChannelSelector, StreamCursor, StreamCursorPrecision, StreamDelta, StreamDirection,
    StreamIntervention, StreamMatcher, StreamRule, StreamRuleId, StreamRuleRecord, StreamRuleRecordKind,
    StreamRuleRepeatStateSnapshot,
};

fn delta(text: &str) -> StreamDelta {
    StreamDelta::visible_text(
        "delta-1".to_string(),
        StreamChannel::AssistantText,
        StreamCursor::byte(2, 10),
        text.to_string(),
        SourceRef::with_kind(SourceKind::Provider, "provider"),
    )
}

fn rule() -> StreamRule {
    StreamRule::mask_regex("rule-1".to_string(), "sec[a-z]+".to_string())
        .on(StreamChannel::AssistantText)
        .policy(stream_policy_ref("policy.stream"))
        .build()
        .unwrap()
}

#[test]
fn cursors() {
    let c = StreamCursor::chunk(3);
    assert_eq!(c.precision, StreamCursorPrecision::ChunkSequenceOnly);
    assert_eq!(c.byte_offset, 0);
    let m = StreamCursor::marker(4, "m".to_string());
    assert_eq!(m.precision, StreamCursorPrecision::Marker);
    assert_eq!(m.label.as_deref(), Some("m"));
}

#[test]
fn visible_text_delta_keeps_text_for_matching_only() {
    let d = delta("hello");
    assert_eq!(d.privacy, PrivacyClass::Public);
    assert_eq!(d.redacted_summary, "5 bytes visible stream text");
    assert_eq!(d.matcher_text(), Some("hello"));
    assert_eq!(d.run_id.as_str(), "run.stream.delta.unset");
    assert!(d.serialized_raw_text_absent(Some("{\"delta_id\":\"delta-1\"}")));
    assert!(!d.serialized_raw_text_absent(Some("{\"text\":\"hello\"}")));
    assert!(!d.serialized_raw_text_absent(None));
    let mut secret = delta("hello");
    secret.privacy = PrivacyClass::Secret;
    assert_eq!(secret.matcher_text(), None);
    let hidden = StreamDelta::visible_text(
        "delta-2".to_string(),
        StreamChannel::HiddenChainOfThought,
        StreamCursor::chunk(0),
        "thought".to_string(),
        SourceRef::new("p"),
    );
    assert_eq!(hidden.matcher_text(), None);
    assert!(!StreamChannel::HiddenChainOfThought.is_policy_visible());
}

#[test]
fn delta_builders() {
    let d = delta("x")
        .with_run(RunId::new("run-9".to_string()), AgentId::new("agent-9".to_string()))
        .with_direction(StreamDirection::OutputFromProvider)
        .with_content_ref(ContentRefId::new("content-9".to_string()));
    assert_eq!(d.run_id.as_str(), "run-9");
    assert_eq!(d.direction, Some(StreamDirection::OutputFromProvider));
    let any_direction = StreamChannelSelector::channel(StreamChannel::AssistantText);
    assert!(any_direction.matches(&d));
    let input_only = StreamChannelSelector { channel: StreamChannel::AssistantText, direction: Some(StreamDirection::InputToProvider) };
    assert!(!input_only.matches(&d));
    let other_channel = StreamChannelSelector::channel(StreamChannel::ToolResultText);
    assert!(!other_channel.matches(&d));
}

#[test]
fn matcher_validation() {
    assert!(StreamMatcher::literal("x".to_string(), true, 64).validate().is_ok());
    let e = StreamMatcher::literal(String::new(), true, 64).validate().unwrap_err();
    assert_eq!(e.message, "missing required field: stream_matcher.literal.text");
    let e = StreamMatcher::literal("x".to_string(), true, 0).validate().unwrap_err();
    assert_eq!(e.message, "stream matcher window_bytes must be between 1 and 65536");
    assert!(StreamMatcher::literal("x".to_string(), true, 65536).validate().is_ok());
    assert!(StreamMatcher::literal("x".to_string(), true, 65537).validate().is_err());
    let e = StreamMatcher::regex_with_limits("a".to_string(), 64, 0).validate().unwrap_err();
    assert_eq!(e.message, "stream regex timeout must be between 1 and 1000ms");
    assert!(StreamMatcher::regex_with_limits("a".to_string(), 64, 1000).validate().is_ok());
    let e = StreamMatcher::regex_with_limits("(?=a)".to_string(), 64, 10).validate().unwrap_err();
    assert_eq!(e.kind, AgentErrorKind::ContractViolation);
    assert_eq!(e.message, "stream regex pattern uses unsupported or backtracking-prone syntax");
    assert!(StreamMatcher::regex_with_limits("(a+)+".to_string(), 64, 10).validate().is_err());
    assert!(StreamMatcher::regex_with_limits("a{0,9}".to_string(), 64, 10).validate().is_err());
    assert!(StreamMatcher::regex_with_limits("(a)\\1".to_string(), 64, 10).validate().is_err());
    let e = StreamMatcher::regex_with_limits("a".repeat(513), 64, 10).validate().unwrap_err();
    assert_eq!(e.message, "stream regex pattern exceeds bounded length");
    assert!(StreamMatcher::regex_with_limits("a".repeat(512), 64, 10).validate().is_ok());
    let e = StreamMatcher::regex_with_limits(String::new(), 64, 10).validate().unwrap_err();
    assert_eq!(e.message, "missing required field: stream_matcher.regex.pattern");
    let m = StreamMatcher::marker("marker-1".to_string());
    assert!(m.validate().is_ok());
    assert_eq!(m.kind_name(), "marker");
    assert_eq!(m.window_bytes(), 0);
    match m {
        StreamMatcher::Marker { marker_version, .. } => assert_eq!(marker_version.as_str(), "marker.v1"),
        _ => panic!("expected a marker matcher"),
    }
}

#[test]
fn actions() {
    let retry = StreamAction::abort_and_retry("retry".to_string(), PolicyRef::new("p"));
    assert_eq!(retry.action_kind(), "abort_and_retry");
    assert_eq!(retry.partial_output_policy(), PartialOutputPolicy::Discard);
    assert_eq!(retry.effect_kind_hint(), Some(EffectKind::ProviderRequest));
    let mask = StreamAction::mask_and_continue("[x]".to_string());
    assert_eq!(mask.partial_output_policy(), PartialOutputPolicy::Mask);
    assert_eq!(mask.effect_kind_hint(), None);
    let emit = StreamAction::emit_only("n".to_string());
    assert_eq!(emit.partial_output_policy(), PartialOutputPolicy::Keep);
    assert_eq!(emit.action_kind(), "emit_only");
}

#[test]
fn builder_rules() {
    let r = rule();
    assert_eq!(r.version, RuleVersion(1));
    assert_eq!(r.source.id, "source.host.stream_rules");
    assert_eq!(r.repeat, RepeatPolicy::OncePerAttemptAndSpan);
    match &r.matcher {
        StreamMatcher::Regex { window_bytes, timeout_ms, dialect, .. } => {
            assert_eq!(*window_bytes, 4096);
            assert_eq!(*timeout_ms, 25);
            assert_eq!(*dialect, RegexDialect::SafeSubset);
        }
        _ => panic!("expected a regex"),
    }
    assert!(r.validate().is_ok());
    let p = stream_policy_ref("x");
    assert_eq!(p.kind, PolicyKind::RuntimePackage);
}

#[test]
fn builds_fail_without_channels_or_policy() {
    let e = StreamRule::builder(StreamRuleId::new("r".to_string()))
        .matcher(StreamMatcher::literal("x".to_string(), false, 32))
        .policy(PolicyRef::new("p"))
        .build()
        .unwrap_err();
    assert_eq!(e.message, "missing required field: stream_rule.channels");
    let e = StreamRule::builder(StreamRuleId::new("r".to_string()))
        .matcher(StreamMatcher::literal("x".to_string(), false, 32))
        .on(StreamChannel::AssistantText)
        .build()
        .unwrap_err();
    assert_eq!(e.message, "missing required field: stream_rule.policy_refs");
    let e = StreamRule::builder(StreamRuleId::new("r".to_string())).on(StreamChannel::AssistantText).policy(PolicyRef::new("p")).repeat(RepeatPolicy::Always).build();
    assert!(e.is_ok());
}

#[test]
fn redacted_match_never_keeps_the_text() {
    let r = rule();
    let d = delta("the secret");
    let m = RedactedMatch::from_text(&r, &d, "secret");
    assert_eq!(m.match_id.as_str(), "stream.match.rule.1.2bb80d537b1d");
    assert_eq!(m.text_hash, "sha256:2bb80d537b1da3e38bd30361aa855686bde0eacd7162fef6a25fe97bf527a25b");
    assert_eq!(m.byte_len, 6);
    assert_eq!(m.redacted_summary, "stream match redacted: 6 bytes on assistant_text");
    assert_eq!(m.cursor.byte_offset, 10);
    let i = StreamIntervention::proposed(&r, m);
    assert_eq!(i.intervention_id.as_str(), "stream.intervention.rule.1.stream.match.rule.1.2bb80d537b1d");
    assert_eq!(i.rule_ref.kind, EntityKind::StreamRule);
    assert_eq!(i.partial_output_policy, PartialOutputPolicy::Mask);
    assert!(i.applied_action.is_none());
    let same = i.clone().with_effect_intent(EffectId::new("e".to_string()));
    assert!(same.effect_intent.is_none());
    assert_eq!(same.effect_kind_name(), None);
    let record = StreamRuleRecord::matched(&r, &i);
    assert_eq!(record.record_kind, StreamRuleRecordKind::Matched);
    assert_eq!(record.event_kind_name(), "stream_rule_matched");
    assert_eq!(record.redacted_summary, "stream rule matched redacted content");
    let base = JournalRecordBase::new(3, "r3".to_string(), RunId::new("run-1".to_string()), AgentId::new("a".to_string()), SourceRef::new("host"));
    let journal = record.to_journal_record(base);
    assert_eq!(journal.record_kind, JournalRecordKind::StreamRule);
    assert_eq!(journal.event_index.event_family, "stream_rule");
    assert_eq!(journal.event_index.event_kind, "stream_rule_matched");
    assert_eq!(journal.subject_ref.id, "rule-1");
}

#[test]
fn retry_intervention_records_provider_request_intent() {
    let r = StreamRule::builder(StreamRuleId::new("rule-2".to_string()))
        .matcher(StreamMatcher::literal("bad".to_string(), true, 64))
        .on(StreamChannel::AssistantText)
        .action(StreamAction::abort_and_retry("try again".to_string(), PolicyRef::new("retry")))
        .policy(PolicyRef::new("p"))
        .build()
        .unwrap();
    let m = RedactedMatch::from_text(&r, &delta("bad"), "bad");
    let i = StreamIntervention::proposed(&r, m).with_effect_intent(EffectId::new("effect-r".to_string()));
    let intent = i.effect_intent.as_ref().unwrap();
    assert_eq!(intent.kind, EffectKind::ProviderRequest);
    assert_eq!(intent.redacted_summary, "stream intervention abort_and_retry requested for redacted match");
    assert_eq!(intent.source.id, "source.sdk.stream_rule");
    assert_eq!(i.effect_kind_name(), Some("provider_request"));
    let i = i.with_effect_result(EffectResult::completed(EffectId::new("effect-r".to_string()), "ok".to_string()));
    assert_eq!(i.effect_result_ref.unwrap().as_str(), "effect-r");
    let snapshot = StreamRuleRecord::repeat_state(&r, StreamRuleRepeatStateSnapshot { seen_match_keys: vec!["k".to_string()] });
    assert_eq!(snapshot.event_kind_name(), "stream_rule_repeat_state_recorded");
}

#[test]
fn rule_fingerprint_hashes_the_encoding() {
    assert_eq!(
        hash_rule_fingerprint(b"abc"),
        "sha256:ba7816bf8f01cfea414140de5dae2223b00361a396177a9cb410ff61f20015ad"
    );
}
