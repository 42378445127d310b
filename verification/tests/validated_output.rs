use agent_sdk_core::content::{ContentKind, ContentRef, ContentScope, ContentVersion};
use agent_sdk_core::domain::{
    AdapterRef, AgentErrorKind, AttemptId, ContentId, EntityKind, EntityRef, LineageRef, OutputSchemaId, PolicyRef,
    PrivacyClass, RetryClassification, RunId, SourceRef, ValidatedOutputId, ValidationAttemptId,
};
use agent_sdk_core::output::{ContentHash, SchemaVersion};
use agent_sdk_core::validated_output::{
    validate_typed_result_publication_order, DecodedTypedOutput, OutputLineage, StructuredOutputResult,
    TypedOutputDeserializer, TypedOutputError, TypedResultPublicationRecord, TypedResultPublicationStatus,
    ValidatedOutput, ValidatedOutputParams, ValidatedOutputPublicationStep, ValidationReportRecord, ValidationStatus,
};

fn content(id: &str, version: &str) -> ContentRef {
    ContentRef::new(
        ContentId::new(id.to_string()),
        ContentVersion::new(version.to_string()),
        ContentKind::OutputPayload,
        ContentScope::Run,
        EntityRef::new(EntityKind::Run, "run-1"),
        SourceRef::new("host"),
        AdapterRef::new("resolver".to_string()),
        "payload".to_string(),
    )
}

fn hash() -> ContentHash {
    ContentHash::try_new(format!("sha256:{}", "a".repeat(64))).unwrap()
}

fn report(attempt: &str, passed: bool) -> ValidationReportRecord {
    let make = if passed { ValidationReportRecord::passed } else { ValidationReportRecord::failed };
    make(
        ValidationAttemptId::new(attempt.to_string()),
        OutputSchemaId::new("schema.answer".to_string()),
        SchemaVersion::new(1, 0, 0),
        AttemptId::new("model-attempt-1".to_string()),
        content("candidate", "v1"),
        content(&format!("report-{attempt}"), "v1"),
        if passed { "valid".to_string() } else { "invalid".to_string() },
    )
}

fn params() -> ValidatedOutputParams {
    ValidatedOutputParams {
        output_id: ValidatedOutputId::new("output-1".to_string()),
        schema_id: OutputSchemaId::new("schema.answer".to_string()),
        schema_version: SchemaVersion::new(1, 0, 0),
        schema_fingerprint: hash(),
        canonical_value_ref: content("canonical", "v1"),
        repair_attempts: Vec::new(),
        source_attempt_ids: Vec::new(),
        content_refs: Vec::new(),
        lineage: OutputLineage {
            lineage_ref: LineageRef::new("lineage".to_string()),
            produced_by: EntityRef::new(EntityKind::Run, "run-1"),
            derived_from: Vec::new(),
        },
        policy_refs: vec![PolicyRef::new("policy.output")],
        privacy: PrivacyClass::ContentRefsOnly,
        redacted_summary: "an answer".to_string(),
    }
}

fn output() -> ValidatedOutput {
    ValidatedOutput::from_validation_report(params(), &report("validation-1", true)).unwrap()
}

#[test]
fn validated_output_merges_report_evidence() {
    let o = output();
    assert!(o.validate_shape().is_ok());
    let keys: Vec<String> = o.content_refs.iter().map(|c| format!("{}@{}", c.content_id.as_str(), c.version.as_str())).collect();
    assert_eq!(keys, vec!["canonical@v1", "candidate@v1", "report-validation-1@v1"]);
    assert_eq!(o.source_attempt_ids.len(), 1);
    assert_eq!(o.validation_attempts[0].as_str(), "validation-1");
    assert_eq!(o.validation_report_refs.len(), 1);
    assert_eq!(o.validation_report_refs[0].status, ValidationStatus::Passed);
    assert_eq!(o.validation_report_keys(), vec!["report-validation-1@v1".to_string()]);
    assert_eq!(o.policy_refs.len(), 1);
}

#[test]
fn duplicate_refs_are_merged_once() {
    let mut p = params();
    p.content_refs = vec![content("candidate", "v1")];
    p.source_attempt_ids = vec![AttemptId::new("model-attempt-1".to_string())];
    let o = ValidatedOutput::from_validation_report(p, &report("validation-1", true)).unwrap();
    assert_eq!(o.content_refs.len(), 3);
    assert_eq!(o.source_attempt_ids.len(), 1);
}

#[test]
fn failed_report_is_refused() {
    let e = ValidatedOutput::from_validation_report(params(), &report("validation-2", false)).unwrap_err();
    match &e {
        TypedOutputError::ValidationReportFailed { validation_attempt_id } => assert_eq!(validation_attempt_id.as_str(), "validation-2"),
        _ => panic!("expected a failed report error"),
    }
    assert_eq!(e.retry_classification(), RetryClassification::NotRetryable);
    assert_eq!(e.message(), "validation report did not pass");
    let r = report("validation-2", false);
    assert_eq!(r.redacted_error_summary.as_deref(), Some("invalid"));
    assert!(!r.status.is_success());
}

#[test]
fn schema_mismatch_is_refused() {
    let mut p = params();
    p.schema_version = SchemaVersion::new(2, 0, 0);
    let e = ValidatedOutput::from_validation_report(p, &report("validation-1", true)).unwrap_err();
    assert!(matches!(e, TypedOutputError::SchemaMismatch { .. }));
    assert_eq!(e.retry_classification(), RetryClassification::RepairNeeded);
}

#[test]
fn shape_checks() {
    let mut o = output();
    o.record_schema_version = 2;
    assert!(matches!(o.validate_shape(), Err(TypedOutputError::SchemaVersionUnsupported { record_schema_version: 2 })));
    let mut o = output();
    o.schema_fingerprint = ContentHash::try_new("sha256:short".to_string()).unwrap();
    assert!(matches!(o.validate_shape(), Err(TypedOutputError::InvalidSchemaFingerprint)));
    let mut o = output();
    o.source_attempt_ids.clear();
    assert!(matches!(o.validate_shape(), Err(TypedOutputError::MissingSourceAttempt { .. })));
    let mut o = output();
    o.redacted_summary.clear();
    assert!(matches!(o.validate_shape(), Err(TypedOutputError::MissingRedactedSummary { .. })));
    let mut o = output();
    o.content_refs.remove(0);
    assert!(matches!(o.validate_shape(), Err(TypedOutputError::MissingCanonicalContentRef { .. })));
    let mut o = output();
    o.content_refs.pop();
    assert!(matches!(o.validate_shape(), Err(TypedOutputError::MissingValidationReport { .. })));
    let mut o = output();
    o.validation_report_refs.clear();
    assert!(matches!(o.validate_shape(), Err(TypedOutputError::MissingValidationReport { .. })));
}

#[test]
fn publication_is_checked_against_its_output() {
    let o = output();
    let p = TypedResultPublicationRecord::published(&o).unwrap();
    assert_eq!(p.status, TypedResultPublicationStatus::Published);
    assert!(p.validate_against_output(&o).is_ok());
    let denied = TypedResultPublicationRecord::policy_denied(&o, "denied".to_string()).unwrap();
    assert_eq!(denied.redacted_summary, "denied");
    let e = denied.validate_against_output(&o).unwrap_err();
    assert!(matches!(e, TypedOutputError::PublicationPolicyDenied { .. }));
    assert_eq!(e.message(), "validated output publication was denied by output policy");
    let mut other = p;
    other.schema_version = SchemaVersion::new(9, 9, 9);
    assert!(matches!(other.validate_against_output(&o), Err(TypedOutputError::PublicationEvidenceMismatch { .. })));
    let mut broken = output();
    broken.redacted_summary.clear();
    assert!(TypedResultPublicationRecord::published(&broken).is_err());
}

#[test]
fn publication_order_accepts_report_output_publication() {
    let r = report("validation-1", true);
    let o = output();
    let p = TypedResultPublicationRecord::published(&o).unwrap();
    let steps = vec![
        ValidatedOutputPublicationStep::ValidationReport(r),
        ValidatedOutputPublicationStep::ValidatedOutput(o),
        ValidatedOutputPublicationStep::TypedResultPublication(p),
    ];
    assert!(validate_typed_result_publication_order(&steps).is_ok());
    assert!(validate_typed_result_publication_order(&[]).is_ok());
}

#[test]
fn publication_before_output_is_refused() {
    let o = output();
    let p = TypedResultPublicationRecord::published(&o).unwrap();
    let steps = vec![
        ValidatedOutputPublicationStep::ValidationReport(report("validation-1", true)),
        ValidatedOutputPublicationStep::TypedResultPublication(p),
        ValidatedOutputPublicationStep::ValidatedOutput(o),
    ];
    let e = validate_typed_result_publication_order(&steps).unwrap_err();
    assert!(matches!(e, TypedOutputError::PublicationBeforeValidation { .. }));
    assert_eq!(e.message(), "typed result publication happened before validated output evidence");
}

#[test]
fn output_before_its_report_is_refused() {
    let o = output();
    let steps = vec![
        ValidatedOutputPublicationStep::ValidatedOutput(o),
        ValidatedOutputPublicationStep::ValidationReport(report("validation-1", true)),
    ];
    assert!(matches!(
        validate_typed_result_publication_order(&steps),
        Err(TypedOutputError::PublicationBeforeValidation { .. })
    ));
}

#[test]
fn output_evidence_must_match_its_report() {
    let mut changed = report("validation-1", true);
    changed.redacted_summary = "different".to_string();
    let steps = vec![
        ValidatedOutputPublicationStep::ValidationReport(changed),
        ValidatedOutputPublicationStep::ValidatedOutput(output()),
    ];
    assert!(matches!(
        validate_typed_result_publication_order(&steps),
        Err(TypedOutputError::PublicationEvidenceMismatch { .. })
    ));
}

#[test]
fn failed_report_does_not_count_as_evidence() {
    let mut failing = report("validation-1", true);
    failing.status = ValidationStatus::Failed;
    let steps = vec![
        ValidatedOutputPublicationStep::ValidationReport(failing),
        ValidatedOutputPublicationStep::ValidatedOutput(output()),
    ];
    assert!(validate_typed_result_publication_order(&steps).is_err());
}

#[test]
fn error_messages_and_agent_errors() {
    let e = TypedOutputError::SchemaVersionUnsupported { record_schema_version: 7 };
    assert_eq!(e.message(), "validated output record schema version 7 is unsupported");
    let e = TypedOutputError::MissingValidatedOutput { run_id: RunId::new("run \"1\"".to_string()) };
    assert_eq!(e.message(), "run RunId(\"run \\\"1\\\"\") does not contain validated structured output");
    let a = TypedOutputError::InvalidSchemaFingerprint.into_agent_error();
    assert_eq!(a.kind, AgentErrorKind::StructuredOutputFailure);
    assert_eq!(a.retry, RetryClassification::RepairNeeded);
    assert_eq!(a.message, "validated output schema fingerprint must be a sha256 digest");
    let d = TypedOutputError::PublicationPolicyDenied { validated_output_id: ValidatedOutputId::new("o".to_string()) }.into_agent_error();
    assert_eq!(d.retry, RetryClassification::NotRetryable);
}

struct Decoder {
    from: ContentRef,
}

impl TypedOutputDeserializer<u32> for Decoder {
    fn decodes(&self, _content_ref: ContentRef, res: Result<DecodedTypedOutput<u32>, TypedOutputError>) -> bool {
        matches!(res, Ok(d) if d.output == 42 && d.content_ref.content_id.as_str() == self.from.content_id.as_str())
    }

    fn deserialize(&self, _content_ref: &ContentRef) -> Result<DecodedTypedOutput<u32>, TypedOutputError> {
        Ok(DecodedTypedOutput::new(self.from.clone(), 42))
    }
}

#[test]
fn structured_result_from_publication() {
    let o = output();
    let p = TypedResultPublicationRecord::published(&o).unwrap();
    let good = Decoder { from: content("canonical", "v1") };
    let result: StructuredOutputResult<u32> = StructuredOutputResult::from_publication(&o, &p, &good).unwrap();
    assert_eq!(result.output, 42);
    assert_eq!(result.validated_output_id.as_str(), "output-1");
    assert_eq!(result.output_ref.content_id.as_str(), "canonical");
    let stale = Decoder { from: content("canonical", "v2") };
    let e = StructuredOutputResult::<u32>::from_publication(&o, &p, &stale).unwrap_err();
    assert!(matches!(e, TypedOutputError::CanonicalValueRefMismatch { .. }));
    let denied = TypedResultPublicationRecord::policy_denied(&o, "no".to_string()).unwrap();
    assert!(matches!(
        StructuredOutputResult::<u32>::from_publication(&o, &denied, &good),
        Err(TypedOutputError::PublicationPolicyDenied { .. })
    ));
    let direct = StructuredOutputResult::from_decoded(&o, DecodedTypedOutput::new(content("canonical", "v1"), 7u8)).unwrap();
    assert_eq!(direct.output, 7);
}

struct FailingDecoder;

impl TypedOutputDeserializer<u32> for FailingDecoder {
    fn decodes(&self, _content_ref: ContentRef, res: Result<DecodedTypedOutput<u32>, TypedOutputError>) -> bool {
        matches!(res, Err(TypedOutputError::MissingValidatedOutput { .. }))
    }

    fn deserialize(&self, content_ref: &ContentRef) -> Result<DecodedTypedOutput<u32>, TypedOutputError> {
        assert_eq!(content_ref.content_id.as_str(), "canonical");
        Err(TypedOutputError::MissingValidatedOutput { run_id: RunId::new("run-1".to_string()) })
    }
}

#[test]
fn deserializer_errors_pass_through() {
    let o = output();
    let p = TypedResultPublicationRecord::published(&o).unwrap();
    let e = StructuredOutputResult::<u32>::from_publication(&o, &p, &FailingDecoder).unwrap_err();
    assert!(matches!(e, TypedOutputError::MissingValidatedOutput { .. }));
}
