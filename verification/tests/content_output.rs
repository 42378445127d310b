use agent_sdk_core::content::{
    ContentKind, ContentRef, ContentResolutionError, ContentResolutionErrorKind, ContentResolutionPolicy,
    ContentResolutionPurpose, ContentResolveRequest, ContentScope, ContentVersion, MissingContentPolicy, ResolvedContent,
    RetentionUse,
};
use agent_sdk_core::domain::{
    AdapterRef, AgentErrorKind, ContentId, ContentRefId, DestinationKind, DestinationRef, EntityKind, EntityRef,
    OutputSchemaId, PolicyKind, PolicyRef, PrivacyClass, RetentionClass, RetryClassification, SourceRef, TrustClass,
};
use agent_sdk_core::output::{
    ContentHash, OutputContract, OutputPreset, OutputSchemaDialect, OutputSchemaRef, ProviderHintPolicy, RepairPolicy,
    RetryBackoff, SchemaVersion, ValidationPolicy,
};

fn sample_content_ref() -> ContentRef {
    ContentRef::new(
        ContentId::new("content-1".to_string()),
        ContentVersion::new("v1".to_string()),
        ContentKind::Text,
        ContentScope::Run,
        EntityRef::new(EntityKind::Run, "run-1"),
        SourceRef::new("host"),
        AdapterRef::new("resolver.local".to_string()),
        "a short note".to_string(),
    )
}

fn valid_hash() -> String {
    format!("sha256:{}", "ab".repeat(32))
}

#[test]
fn content_ref_new_uses_conservative_defaults() {
    let r = sample_content_ref();
    assert_eq!(r.privacy_class, PrivacyClass::ContentRefsOnly);
    assert_eq!(r.retention_class, RetentionClass::RunScoped);
    assert_eq!(r.trust_class, TrustClass::HostProvided);
    assert!(r.artifact_ref.is_none());
    assert!(r.mime.is_none());
    assert_eq!(r.summary_for_default_events(), "a short note");
    assert!(!r.provider_visible_without_context_admission());
}

#[test]
fn resolve_request_asks_for_the_reference_version() {
    let req = ContentResolveRequest::new(sample_content_ref());
    assert_eq!(req.requested_version.as_str(), "v1");
}

#[test]
fn resolved_content_redacted_carries_no_bytes() {
    let mut r = sample_content_ref();
    r.mime = Some("text/plain".to_string());
    let resolved = ResolvedContent::redacted(r, vec![PolicyRef::new("policy.a")]);
    assert!(resolved.bytes.is_none());
    assert!(!resolved.raw_content_included);
    assert_eq!(resolved.mime.as_deref(), Some("text/plain"));
    assert_eq!(resolved.redacted_summary, "a short note");
}

#[test]
fn raw_context_differs_from_redacted_only_in_raw_access() {
    let caller = EntityRef::new(EntityKind::Run, "run-1");
    let dest = DestinationRef::with_kind(DestinationKind::Provider, "provider");
    let redacted = ContentResolutionPolicy::redacted_context(caller.clone(), dest.clone(), PolicyRef::new("p"));
    let raw = ContentResolutionPolicy::raw_context(caller, dest, PolicyRef::new("p"), 4096);
    assert_eq!(redacted.purpose, ContentResolutionPurpose::ContextProjection);
    assert_eq!(redacted.max_bytes, 0);
    assert!(!redacted.allow_raw_content);
    assert!(redacted.require_hash_match);
    assert_eq!(redacted.retention_use, RetentionUse::ProviderProjection);
    assert_eq!(redacted.on_missing, MissingContentPolicy::Fail);
    assert_eq!(raw.max_bytes, 4096);
    assert!(raw.allow_raw_content);
    assert_eq!(raw.allowed_privacy_classes, vec![PrivacyClass::Public, PrivacyClass::ContentRefsOnly]);
    assert_eq!(raw.policy_refs.len(), 1);
}

fn resolution_error(kind: ContentResolutionErrorKind) -> ContentResolutionError {
    ContentResolutionError {
        kind,
        content_ref: sample_content_ref(),
        policy_refs: Vec::new(),
        redacted_summary: "a short note".to_string(),
    }
}

#[test]
fn resolution_errors_map_to_retry_classes() {
    let missing = resolution_error(ContentResolutionErrorKind::Missing).to_agent_error();
    assert_eq!(missing.kind, AgentErrorKind::ProjectionFailure);
    assert_eq!(missing.retry, RetryClassification::RepairNeeded);
    assert_eq!(missing.message, "content resolution failed: Missing");
    let storage = resolution_error(ContentResolutionErrorKind::StorageUnavailable).to_agent_error();
    assert_eq!(storage.retry, RetryClassification::Retryable);
    let hash = resolution_error(ContentResolutionErrorKind::HashMismatch).to_agent_error();
    assert_eq!(hash.retry, RetryClassification::NotRetryable);
    assert_eq!(hash.message, "content resolution failed: HashMismatch");
}

#[test]
fn resolution_error_message_names_the_kind() {
    assert_eq!(
        resolution_error(ContentResolutionErrorKind::MaxBytesExceeded).message(),
        "content resolution failed: MaxBytesExceeded"
    );
}

fn store_schema(hash: &str) -> OutputSchemaRef {
    OutputSchemaRef::ContentStore {
        content_ref: ContentRefId::new("content.schema".to_string()),
        content_hash: ContentHash::try_new(hash.to_string()).unwrap(),
    }
}

fn contract(preset: OutputPreset, hash: &str) -> OutputContract {
    OutputContract::new(
        OutputSchemaId::new("schema.answer".to_string()),
        SchemaVersion::new(1, 0, 0),
        OutputSchemaDialect::JsonSchema2020_12Subset,
        store_schema(hash),
        preset,
    )
}

#[test]
fn strict_preset_uses_strict_defaults() {
    let c = contract(OutputPreset::StrictJsonSchema, &valid_hash());
    assert_eq!(c.validation.max_candidate_bytes, 32 * 1024);
    assert_eq!(c.validation.max_errors_returned, 32);
    assert!(!c.validation.allow_additional_properties);
    assert_eq!(c.validation.timeout_ms, 10_000);
    assert_eq!(c.repair.max_repair_attempts, 2);
    assert_eq!(c.repair.backoff, RetryBackoff::NoBackoff);
    assert_eq!(c.retry_budget.max_attempts, 2);
    assert_eq!(c.projection_hint.provider_hint_policy, ProviderHintPolicy::SchemaRequired);
    assert_eq!(c.content_policy.policy_ref.id, "policy.output.content_capture.safe_defaults");
    assert_eq!(c.content_policy.policy_ref.kind, PolicyKind::Privacy);
    assert!(!c.content_policy.capture_raw_content);
    assert!(c.validate_shape().is_ok());
}

#[test]
fn fast_lenient_preset_loosens_validation() {
    let c = contract(OutputPreset::FastLenient, &valid_hash());
    assert!(c.validation.allow_additional_properties);
    assert_eq!(c.validation.max_errors_returned, 8);
    assert_eq!(c.repair.max_repair_attempts, 1);
    assert_eq!(c.retry_budget.max_attempts, 1);
    assert_eq!(c.projection_hint.provider_hint_policy, ProviderHintPolicy::SchemaOptional);
    assert!(c.validate_shape().is_ok());
}

#[test]
fn provider_assisted_preset_sends_native_hint() {
    let c = contract(OutputPreset::ProviderAssisted, &valid_hash());
    assert_eq!(c.projection_hint.provider_hint_policy, ProviderHintPolicy::ProviderNativeHint);
    assert_eq!(c.retry_budget.max_attempts, 2);
}

#[test]
fn content_hash_without_prefix_is_rejected() {
    let c = contract(OutputPreset::StrictJsonSchema, &"ab".repeat(32));
    let err = c.validate_shape().unwrap_err();
    assert_eq!(err.kind, AgentErrorKind::ContractViolation);
    assert_eq!(err.message, "output schema content_hash must be sha256-prefixed");
}

#[test]
fn content_hash_with_short_digest_is_rejected() {
    let c = contract(OutputPreset::StrictJsonSchema, "sha256:abc");
    let err = c.validate_shape().unwrap_err();
    assert_eq!(err.message, "output schema content_hash must be a sha256 hex digest");
}

#[test]
fn content_hash_accepts_uppercase_hex() {
    let c = contract(OutputPreset::StrictJsonSchema, &format!("sha256:{}", "AB".repeat(32)));
    assert!(c.validate_shape().is_ok());
}

#[test]
fn retry_budget_must_cover_repairs() {
    let mut c = contract(OutputPreset::StrictJsonSchema, &valid_hash());
    c.retry_budget.max_attempts = 1;
    let err = c.validate_shape().unwrap_err();
    assert_eq!(err.kind, AgentErrorKind::ContractViolation);
    assert_eq!(err.message, "output retry budget must cover repair attempts");
}

#[test]
fn zero_candidate_bytes_is_a_missing_field() {
    let mut c = contract(OutputPreset::StrictJsonSchema, &valid_hash());
    c.validation.max_candidate_bytes = 0;
    let err = c.validate_shape().unwrap_err();
    assert_eq!(err.kind, AgentErrorKind::MissingRequiredField);
    assert_eq!(err.message, "missing required field: output.validation.max_candidate_bytes");
}

#[test]
fn inline_schema_is_fingerprinted_and_valid() {
    let c = OutputContract::inline_json_schema(
        OutputSchemaId::new("schema.inline".to_string()),
        SchemaVersion::new(1, 2, 3),
        "{}".to_string(),
    );
    // SHA-256 of the two bytes "{}".
    assert_eq!(
        c.schema_fingerprint().as_str(),
        "sha256:44136fa355b3678a1146ad16f7e8649e94fb4fc21fe77e8310c060f61caaff8a"
    );
    assert!(c.validate_shape().is_ok());
    assert_eq!(c.dialect, OutputSchemaDialect::JsonSchema2020_12Subset);
}

#[test]
fn inline_null_schema_is_missing() {
    let c = OutputContract::inline_json_schema(
        OutputSchemaId::new("schema.inline".to_string()),
        SchemaVersion::new(1, 0, 0),
        "null".to_string(),
    );
    let err = c.validate_shape().unwrap_err();
    assert_eq!(err.kind, AgentErrorKind::MissingRequiredField);
    assert_eq!(err.message, "missing required field: output.schema.redacted_schema");
}

#[test]
fn default_policies_name_their_refs() {
    let v = ValidationPolicy::strict_defaults();
    let p = v.validator_ref_policy();
    assert_eq!(p.kind, PolicyKind::RuntimePackage);
    assert_eq!(p.id, "validator.output.json_schema.local.v1");
    let r = RepairPolicy::safe_defaults();
    assert_eq!(r.repair_adapter_ref_policy().id, "repair.output.provider_redacted.v1");
}
