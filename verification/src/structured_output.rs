use vstd::prelude::*;
use crate::domain::{AttemptId, ContentRefId, OutputSchemaId, PrivacyClass, RepairAttemptId, ValidationAttemptId};
use crate::output::{ContentHash, RepairAdapterRef, SchemaVersion};

verus! {

/// Lifecycle step of a structured output request.
#[derive(Debug)]
pub struct StructuredOutputLifecycleRecord {
    pub record_schema_version: u16,
    pub record_kind: StructuredOutputLifecycleKind,
    pub schema_id: OutputSchemaId,
    pub output_schema_version: SchemaVersion,
    pub schema_fingerprint: ContentHash,
    pub source_attempt_id: Option<AttemptId>,
    pub candidate_content_ref: Option<ContentRefId>,
    pub privacy: PrivacyClass,
    pub redacted_summary: String,
}

impl Clone for StructuredOutputLifecycleRecord {
    fn clone(&self) -> (res: Self)
        ensures
            res == *self,
    {
        StructuredOutputLifecycleRecord {
            record_schema_version: self.record_schema_version,
            record_kind: self.record_kind,
            schema_id: self.schema_id.clone(),
            output_schema_version: self.output_schema_version,
            schema_fingerprint: self.schema_fingerprint.clone(),
            source_attempt_id: self.source_attempt_id.clone(),
            candidate_content_ref: self.candidate_content_ref.clone(),
            privacy: self.privacy,
            redacted_summary: self.redacted_summary.clone(),
        }
    }
}

/// Kind of structured output lifecycle step.
#[derive(Clone, Copy, Debug, PartialEq, Eq, Structural)]
pub enum StructuredOutputLifecycleKind {
    Requested,
    ValidationStarted,
}

impl crate::domain::ValueEq for StructuredOutputLifecycleKind {
    open spec fn value_eq(&self, other: &Self) -> bool {
        *self == *other
    }

    fn equals(&self, other: &Self) -> (r: bool) {
        *self == *other
    }
}

/// Outcome of one validation.
#[derive(Debug)]
pub struct ValidationRecord {
    pub record_schema_version: u16,
    pub record_kind: ValidationRecordKind,
    pub schema_id: OutputSchemaId,
    pub output_schema_version: SchemaVersion,
    pub schema_fingerprint: ContentHash,
    pub validation_attempt_id: ValidationAttemptId,
    pub source_attempt_id: AttemptId,
    pub candidate_content_ref: ContentRefId,
    pub privacy: PrivacyClass,
    pub redacted_summary: String,
    pub errors: Vec<ValidationErrorSummary>,
    pub validation_attempts: Vec<ValidationAttemptId>,
    pub repair_attempts: Vec<RepairAttemptId>,
    pub source_attempt_ids: Vec<AttemptId>,
    pub retry_exhausted: Option<bool>,
}

impl ValidationRecord {
    /// Field-wise equality, with vectors compared by their contents.
    pub open spec fn same_as(&self, other: &Self) -> bool {
        &&& self.record_schema_version == other.record_schema_version
        &&& self.record_kind == other.record_kind
        &&& self.schema_id == other.schema_id
        &&& self.output_schema_version == other.output_schema_version
        &&& self.schema_fingerprint == other.schema_fingerprint
        &&& self.validation_attempt_id == other.validation_attempt_id
        &&& self.source_attempt_id == other.source_attempt_id
        &&& self.candidate_content_ref == other.candidate_content_ref
        &&& self.privacy == other.privacy
        &&& self.redacted_summary == other.redacted_summary
        &&& self.errors@ == other.errors@
        &&& self.validation_attempts@ == other.validation_attempts@
        &&& self.repair_attempts@ == other.repair_attempts@
        &&& self.source_attempt_ids@ == other.source_attempt_ids@
        &&& self.retry_exhausted == other.retry_exhausted
    }
}

impl Clone for ValidationRecord {
    fn clone(&self) -> (res: Self)
        ensures
            res.same_as(self),
    {
        let errors_copy = self.errors.clone();
        proof { assert(errors_copy@ =~= self.errors@); }
        let validation_attempts_copy = self.validation_attempts.clone();
        proof { assert(validation_attempts_copy@ =~= self.validation_attempts@); }
        let repair_attempts_copy = self.repair_attempts.clone();
        proof { assert(repair_attempts_copy@ =~= self.repair_attempts@); }
        let source_attempt_ids_copy = self.source_attempt_ids.clone();
        proof { assert(source_attempt_ids_copy@ =~= self.source_attempt_ids@); }
        ValidationRecord {
            record_schema_version: self.record_schema_version,
            record_kind: self.record_kind,
            schema_id: self.schema_id.clone(),
            output_schema_version: self.output_schema_version,
            schema_fingerprint: self.schema_fingerprint.clone(),
            validation_attempt_id: self.validation_attempt_id.clone(),
            source_attempt_id: self.source_attempt_id.clone(),
            candidate_content_ref: self.candidate_content_ref.clone(),
            privacy: self.privacy,
            redacted_summary: self.redacted_summary.clone(),
            errors: errors_copy,
            validation_attempts: validation_attempts_copy,
            repair_attempts: repair_attempts_copy,
            source_attempt_ids: source_attempt_ids_copy,
            retry_exhausted: self.retry_exhausted.clone(),
        }
    }
}

/// Kind of validation outcome.
#[derive(Clone, Copy, Debug, PartialEq, Eq, Structural)]
pub enum ValidationRecordKind {
    ValidationSucceeded,
    ValidationFailed,
    SchemaRejected,
    TerminalFailure,
}

impl crate::domain::ValueEq for ValidationRecordKind {
    open spec fn value_eq(&self, other: &Self) -> bool {
        *self == *other
    }

    fn equals(&self, other: &Self) -> (r: bool) {
        *self == *other
    }
}

/// One redacted validation error.
#[derive(Debug)]
pub struct ValidationErrorSummary {
    pub code: ValidationErrorCode,
    pub path: String,
    pub redacted_summary: String,
}

impl Clone for ValidationErrorSummary {
    fn clone(&self) -> (res: Self)
        ensures
            res == *self,
    {
        ValidationErrorSummary {
            code: self.code,
            path: self.path.clone(),
            redacted_summary: self.redacted_summary.clone(),
        }
    }
}

/// Code of a validation error.
#[derive(Clone, Copy, Debug, PartialEq, Eq, Structural)]
pub enum ValidationErrorCode {
    CandidateTooLarge,
    InvalidJson,
    UnsupportedDialect,
    UnsupportedSchemaRef,
    SchemaContractViolation,
    HostileSchema,
    MissingRequiredField,
    TypeMismatch,
    AdditionalPropertyDenied,
    EnumMismatch,
    MinLengthViolation,
    MaxLengthViolation,
    SemanticValidatorUnavailable,
}

impl crate::domain::ValueEq for ValidationErrorCode {
    open spec fn value_eq(&self, other: &Self) -> bool {
        *self == *other
    }

    fn equals(&self, other: &Self) -> (r: bool) {
        *self == *other
    }
}

/// Prompt sent for a repair attempt.
#[derive(Debug)]
pub struct RepairPrompt {
    pub record_schema_version: u16,
    pub repair_attempt_id: RepairAttemptId,
    pub validation_attempt_id: ValidationAttemptId,
    pub source_attempt_id: AttemptId,
    pub schema_id: OutputSchemaId,
    pub output_schema_version: SchemaVersion,
    pub schema_fingerprint: ContentHash,
    pub repair_adapter_ref: RepairAdapterRef,
    pub attempt_index: u8,
    pub max_repair_attempts: u8,
    pub include_schema_in_prompt: bool,
    pub redacted_errors: Vec<ValidationErrorSummary>,
    pub candidate_content: RepairPromptCandidateContent,
    pub prompt_summary: String,
}

impl RepairPrompt {
    /// Field-wise equality, with vectors compared by their contents.
    pub open spec fn same_as(&self, other: &Self) -> bool {
        &&& self.record_schema_version == other.record_schema_version
        &&& self.repair_attempt_id == other.repair_attempt_id
        &&& self.validation_attempt_id == other.validation_attempt_id
        &&& self.source_attempt_id == other.source_attempt_id
        &&& self.schema_id == other.schema_id
        &&& self.output_schema_version == other.output_schema_version
        &&& self.schema_fingerprint == other.schema_fingerprint
        &&& self.repair_adapter_ref == other.repair_adapter_ref
        &&& self.attempt_index == other.attempt_index
        &&& self.max_repair_attempts == other.max_repair_attempts
        &&& self.include_schema_in_prompt == other.include_schema_in_prompt
        &&& self.redacted_errors@ == other.redacted_errors@
        &&& self.candidate_content == other.candidate_content
        &&& self.prompt_summary == other.prompt_summary
    }
}

impl Clone for RepairPrompt {
    fn clone(&self) -> (res: Self)
        ensures
            res.same_as(self),
    {
        let redacted_errors_copy = self.redacted_errors.clone();
        proof { assert(redacted_errors_copy@ =~= self.redacted_errors@); }
        RepairPrompt {
            record_schema_version: self.record_schema_version,
            repair_attempt_id: self.repair_attempt_id.clone(),
            validation_attempt_id: self.validation_attempt_id.clone(),
            source_attempt_id: self.source_attempt_id.clone(),
            schema_id: self.schema_id.clone(),
            output_schema_version: self.output_schema_version,
            schema_fingerprint: self.schema_fingerprint.clone(),
            repair_adapter_ref: self.repair_adapter_ref.clone(),
            attempt_index: self.attempt_index,
            max_repair_attempts: self.max_repair_attempts,
            include_schema_in_prompt: self.include_schema_in_prompt,
            redacted_errors: redacted_errors_copy,
            candidate_content: self.candidate_content.clone(),
            prompt_summary: self.prompt_summary.clone(),
        }
    }
}

/// Candidate content a repair prompt carries.
#[derive(Debug)]
pub enum RepairPromptCandidateContent {
    ContentRefOnly { candidate_content_ref: ContentRefId },
    RedactedCandidate { redacted_summary: String },
    Omitted,
}

impl Clone for RepairPromptCandidateContent {
    fn clone(&self) -> (res: Self)
        ensures
            res == *self,
    {
        match self {
            RepairPromptCandidateContent::ContentRefOnly { candidate_content_ref } => { RepairPromptCandidateContent::ContentRefOnly { candidate_content_ref: candidate_content_ref.clone() } }
            RepairPromptCandidateContent::RedactedCandidate { redacted_summary } => { RepairPromptCandidateContent::RedactedCandidate { redacted_summary: redacted_summary.clone() } }
            RepairPromptCandidateContent::Omitted => RepairPromptCandidateContent::Omitted,
        }
    }
}

/// A repair was requested.
#[derive(Debug)]
pub struct RepairRecord {
    pub record_schema_version: u16,
    pub record_kind: RepairRecordKind,
    pub repair_attempt_id: RepairAttemptId,
    pub validation_attempt_id: ValidationAttemptId,
    pub source_attempt_id: AttemptId,
    pub schema_id: OutputSchemaId,
    pub output_schema_version: SchemaVersion,
    pub schema_fingerprint: ContentHash,
    pub repair_adapter_ref: RepairAdapterRef,
    pub attempt_index: u8,
    pub max_repair_attempts: u8,
    pub prompt: RepairPrompt,
    pub redacted_summary: String,
    pub privacy: PrivacyClass,
}

impl RepairRecord {
    /// Field-wise equality, with vectors compared by their contents.
    pub open spec fn same_as(&self, other: &Self) -> bool {
        &&& self.record_schema_version == other.record_schema_version
        &&& self.record_kind == other.record_kind
        &&& self.repair_attempt_id == other.repair_attempt_id
        &&& self.validation_attempt_id == other.validation_attempt_id
        &&& self.source_attempt_id == other.source_attempt_id
        &&& self.schema_id == other.schema_id
        &&& self.output_schema_version == other.output_schema_version
        &&& self.schema_fingerprint == other.schema_fingerprint
        &&& self.repair_adapter_ref == other.repair_adapter_ref
        &&& self.attempt_index == other.attempt_index
        &&& self.max_repair_attempts == other.max_repair_attempts
        &&& self.prompt.same_as(&other.prompt)
        &&& self.redacted_summary == other.redacted_summary
        &&& self.privacy == other.privacy
    }
}

impl Clone for RepairRecord {
    fn clone(&self) -> (res: Self)
        ensures
            res.same_as(self),
    {
        RepairRecord {
            record_schema_version: self.record_schema_version,
            record_kind: self.record_kind,
            repair_attempt_id: self.repair_attempt_id.clone(),
            validation_attempt_id: self.validation_attempt_id.clone(),
            source_attempt_id: self.source_attempt_id.clone(),
            schema_id: self.schema_id.clone(),
            output_schema_version: self.output_schema_version,
            schema_fingerprint: self.schema_fingerprint.clone(),
            repair_adapter_ref: self.repair_adapter_ref.clone(),
            attempt_index: self.attempt_index,
            max_repair_attempts: self.max_repair_attempts,
            prompt: self.prompt.clone(),
            redacted_summary: self.redacted_summary.clone(),
            privacy: self.privacy,
        }
    }
}

/// Repairs were exhausted.
#[derive(Debug)]
pub struct RepairExhaustionRecord {
    pub record_schema_version: u16,
    pub record_kind: RepairRecordKind,
    pub schema_id: OutputSchemaId,
    pub output_schema_version: SchemaVersion,
    pub validation_attempts: Vec<ValidationAttemptId>,
    pub repair_attempts: Vec<RepairAttemptId>,
    pub source_attempt_ids: Vec<AttemptId>,
    pub candidate_content_ref: ContentRefId,
    pub retry_exhausted: bool,
    pub redacted_summary: String,
    pub reason: String,
    pub privacy: PrivacyClass,
}

impl RepairExhaustionRecord {
    /// Field-wise equality, with vectors compared by their contents.
    pub open spec fn same_as(&self, other: &Self) -> bool {
        &&& self.record_schema_version == other.record_schema_version
        &&& self.record_kind == other.record_kind
        &&& self.schema_id == other.schema_id
        &&& self.output_schema_version == other.output_schema_version
        &&& self.validation_attempts@ == other.validation_attempts@
        &&& self.repair_attempts@ == other.repair_attempts@
        &&& self.source_attempt_ids@ == other.source_attempt_ids@
        &&& self.candidate_content_ref == other.candidate_content_ref
        &&& self.retry_exhausted == other.retry_exhausted
        &&& self.redacted_summary == other.redacted_summary
        &&& self.reason == other.reason
        &&& self.privacy == other.privacy
    }
}

impl Clone for RepairExhaustionRecord {
    fn clone(&self) -> (res: Self)
        ensures
            res.same_as(self),
    {
        let validation_attempts_copy = self.validation_attempts.clone();
        proof { assert(validation_attempts_copy@ =~= self.validation_attempts@); }
        let repair_attempts_copy = self.repair_attempts.clone();
        proof { assert(repair_attempts_copy@ =~= self.repair_attempts@); }
        let source_attempt_ids_copy = self.source_attempt_ids.clone();
        proof { assert(source_attempt_ids_copy@ =~= self.source_attempt_ids@); }
        RepairExhaustionRecord {
            record_schema_version: self.record_schema_version,
            record_kind: self.record_kind,
            schema_id: self.schema_id.clone(),
            output_schema_version: self.output_schema_version,
            validation_attempts: validation_attempts_copy,
            repair_attempts: repair_attempts_copy,
            source_attempt_ids: source_attempt_ids_copy,
            candidate_content_ref: self.candidate_content_ref.clone(),
            retry_exhausted: self.retry_exhausted,
            redacted_summary: self.redacted_summary.clone(),
            reason: self.reason.clone(),
            privacy: self.privacy,
        }
    }
}

/// Kind of repair record.
#[derive(Clone, Copy, Debug, PartialEq, Eq, Structural)]
pub enum RepairRecordKind {
    RepairRequested,
    RepairExhausted,
}

impl crate::domain::ValueEq for RepairRecordKind {
    open spec fn value_eq(&self, other: &Self) -> bool {
        *self == *other
    }

    fn equals(&self, other: &Self) -> (r: bool) {
        *self == *other
    }
}

/// Schema version of validation records.
pub const VALIDATION_RECORD_SCHEMA_VERSION: u16 = 1;

/// Schema version of repair records.
pub const REPAIR_RECORD_SCHEMA_VERSION: u16 = 1;

/// Schema version of structured output lifecycle records.
pub const STRUCTURED_OUTPUT_LIFECYCLE_RECORD_SCHEMA_VERSION: u16 = 1;

impl StructuredOutputLifecycleRecord {
    /// A request for structured output under the given schema: no attempt or candidate
    /// yet, content refs only.
    pub fn requested(schema_id: OutputSchemaId, output_schema_version: SchemaVersion, schema_fingerprint: ContentHash) -> (res: Self)
        ensures
            res.record_schema_version == STRUCTURED_OUTPUT_LIFECYCLE_RECORD_SCHEMA_VERSION,
            res.record_kind == StructuredOutputLifecycleKind::Requested,
            res.schema_id == schema_id,
            res.output_schema_version == output_schema_version,
            res.schema_fingerprint == schema_fingerprint,
            res.source_attempt_id is None,
            res.candidate_content_ref is None,
            res.privacy == PrivacyClass::ContentRefsOnly,
            res.redacted_summary@ == "structured output requested"@,
    {
        StructuredOutputLifecycleRecord {
            record_schema_version: STRUCTURED_OUTPUT_LIFECYCLE_RECORD_SCHEMA_VERSION,
            record_kind: StructuredOutputLifecycleKind::Requested,
            schema_id,
            output_schema_version,
            schema_fingerprint,
            source_attempt_id: None,
            candidate_content_ref: None,
            privacy: PrivacyClass::ContentRefsOnly,
            redacted_summary: String::from_str("structured output requested"),
        }
    }

    /// Validation of the candidate `candidate_content_ref` from `source_attempt_id` has
    /// started.
    pub fn validation_started(
        schema_id: OutputSchemaId,
        output_schema_version: SchemaVersion,
        schema_fingerprint: ContentHash,
        source_attempt_id: AttemptId,
        candidate_content_ref: ContentRefId,
    ) -> (res: Self)
        ensures
            res.record_schema_version == STRUCTURED_OUTPUT_LIFECYCLE_RECORD_SCHEMA_VERSION,
            res.record_kind == StructuredOutputLifecycleKind::ValidationStarted,
            res.schema_id == schema_id,
            res.output_schema_version == output_schema_version,
            res.schema_fingerprint == schema_fingerprint,
            res.source_attempt_id == Some(source_attempt_id),
            res.candidate_content_ref == Some(candidate_content_ref),
            res.privacy == PrivacyClass::ContentRefsOnly,
            res.redacted_summary@ == "structured output validation started"@,
    {
        StructuredOutputLifecycleRecord {
            record_schema_version: STRUCTURED_OUTPUT_LIFECYCLE_RECORD_SCHEMA_VERSION,
            record_kind: StructuredOutputLifecycleKind::ValidationStarted,
            schema_id,
            output_schema_version,
            schema_fingerprint,
            source_attempt_id: Some(source_attempt_id),
            candidate_content_ref: Some(candidate_content_ref),
            privacy: PrivacyClass::ContentRefsOnly,
            redacted_summary: String::from_str("structured output validation started"),
        }
    }
}

impl ValidationErrorSummary {
    /// An error of `code` at `path`.
    pub fn new(code: ValidationErrorCode, path: String, redacted_summary: String) -> (res: Self)
        ensures
            res.code == code,
            res.path == path,
            res.redacted_summary == redacted_summary,
    {
        ValidationErrorSummary { code, path, redacted_summary }
    }
}

impl ValidationErrorCode {
    /// Codes that reject the schema rather than the candidate.
    pub open spec fn is_schema_rejection_spec(self) -> bool {
        ||| self == ValidationErrorCode::UnsupportedDialect
        ||| self == ValidationErrorCode::UnsupportedSchemaRef
        ||| self == ValidationErrorCode::SchemaContractViolation
        ||| self == ValidationErrorCode::HostileSchema
        ||| self == ValidationErrorCode::SemanticValidatorUnavailable
    }

    /// Whether the code rejects the schema rather than the candidate.
    pub fn is_schema_rejection(&self) -> (r: bool)
        ensures
            r == self.is_schema_rejection_spec(),
    {
        match self {
            ValidationErrorCode::UnsupportedDialect
            | ValidationErrorCode::UnsupportedSchemaRef
            | ValidationErrorCode::SchemaContractViolation
            | ValidationErrorCode::HostileSchema
            | ValidationErrorCode::SemanticValidatorUnavailable => true,
            _ => false,
        }
    }
}

} // verus!
