use vstd::prelude::*;
use crate::content::{ContentRef};
use crate::domain::{AgentError, AgentErrorKind, AttemptId, EntityRef, LineageRef, OutputSchemaId, PolicyRef, PrivacyClass, RepairAttemptId, RetryClassification, RunId, ValidatedOutputId, ValidationAttemptId, ValueEq};
use crate::output::{ContentHash, SchemaVersion};
use crate::policy::{merge_policy_refs, merge_policy_refs_spec};
use crate::text::{concat2, concat3, is_sha256_fingerprint, is_sha256_fingerprint_spec, lemma_seq_lt_asymmetric, lemma_seq_lt_total, lemma_seq_lt_transitive, seq_lt, str_debug, str_debug_spec, str_eq, str_lt};

verus! {

/// A structured output that passed validation, with its evidence.
#[derive(Debug)]
pub struct ValidatedOutput {
    pub record_schema_version: u16,
    pub output_id: ValidatedOutputId,
    pub schema_id: OutputSchemaId,
    pub schema_version: SchemaVersion,
    pub schema_fingerprint: ContentHash,
    pub canonical_value_ref: ContentRef,
    pub validation_report_refs: Vec<ValidationReportRef>,
    pub validation_attempts: Vec<ValidationAttemptId>,
    pub repair_attempts: Vec<RepairAttemptId>,
    pub source_attempt_ids: Vec<AttemptId>,
    pub content_refs: Vec<ContentRef>,
    pub lineage: OutputLineage,
    pub policy_refs: Vec<PolicyRef>,
    pub privacy: PrivacyClass,
    pub redacted_summary: String,
}

impl ValidatedOutput {
    /// Field-wise equality, with vectors compared by their contents.
    pub open spec fn same_as(&self, other: &Self) -> bool {
        &&& self.record_schema_version == other.record_schema_version
        &&& self.output_id == other.output_id
        &&& self.schema_id == other.schema_id
        &&& self.schema_version == other.schema_version
        &&& self.schema_fingerprint == other.schema_fingerprint
        &&& self.canonical_value_ref == other.canonical_value_ref
        &&& self.validation_report_refs@ == other.validation_report_refs@
        &&& self.validation_attempts@ == other.validation_attempts@
        &&& self.repair_attempts@ == other.repair_attempts@
        &&& self.source_attempt_ids@ == other.source_attempt_ids@
        &&& self.content_refs@ == other.content_refs@
        &&& self.lineage.same_as(&other.lineage)
        &&& self.policy_refs@ == other.policy_refs@
        &&& self.privacy == other.privacy
        &&& self.redacted_summary == other.redacted_summary
    }
}

impl Clone for ValidatedOutput {
    fn clone(&self) -> (res: Self)
        ensures
            res.same_as(self),
    {
        let validation_report_refs_copy = self.validation_report_refs.clone();
        proof { assert(validation_report_refs_copy@ =~= self.validation_report_refs@); }
        let validation_attempts_copy = self.validation_attempts.clone();
        proof { assert(validation_attempts_copy@ =~= self.validation_attempts@); }
        let repair_attempts_copy = self.repair_attempts.clone();
        proof { assert(repair_attempts_copy@ =~= self.repair_attempts@); }
        let source_attempt_ids_copy = self.source_attempt_ids.clone();
        proof { assert(source_attempt_ids_copy@ =~= self.source_attempt_ids@); }
        let content_refs_copy = self.content_refs.clone();
        proof { assert(content_refs_copy@ =~= self.content_refs@); }
        let policy_refs_copy = self.policy_refs.clone();
        proof { assert(policy_refs_copy@ =~= self.policy_refs@); }
        ValidatedOutput {
            record_schema_version: self.record_schema_version,
            output_id: self.output_id.clone(),
            schema_id: self.schema_id.clone(),
            schema_version: self.schema_version,
            schema_fingerprint: self.schema_fingerprint.clone(),
            canonical_value_ref: self.canonical_value_ref.clone(),
            validation_report_refs: validation_report_refs_copy,
            validation_attempts: validation_attempts_copy,
            repair_attempts: repair_attempts_copy,
            source_attempt_ids: source_attempt_ids_copy,
            content_refs: content_refs_copy,
            lineage: self.lineage.clone(),
            policy_refs: policy_refs_copy,
            privacy: self.privacy,
            redacted_summary: self.redacted_summary.clone(),
        }
    }
}

/// Inputs of a validated output.
#[derive(Debug)]
pub struct ValidatedOutputParams {
    pub output_id: ValidatedOutputId,
    pub schema_id: OutputSchemaId,
    pub schema_version: SchemaVersion,
    pub schema_fingerprint: ContentHash,
    pub canonical_value_ref: ContentRef,
    pub repair_attempts: Vec<RepairAttemptId>,
    pub source_attempt_ids: Vec<AttemptId>,
    pub content_refs: Vec<ContentRef>,
    pub lineage: OutputLineage,
    pub policy_refs: Vec<PolicyRef>,
    pub privacy: PrivacyClass,
    pub redacted_summary: String,
}

impl ValidatedOutputParams {
    /// Field-wise equality, with vectors compared by their contents.
    pub open spec fn same_as(&self, other: &Self) -> bool {
        &&& self.output_id == other.output_id
        &&& self.schema_id == other.schema_id
        &&& self.schema_version == other.schema_version
        &&& self.schema_fingerprint == other.schema_fingerprint
        &&& self.canonical_value_ref == other.canonical_value_ref
        &&& self.repair_attempts@ == other.repair_attempts@
        &&& self.source_attempt_ids@ == other.source_attempt_ids@
        &&& self.content_refs@ == other.content_refs@
        &&& self.lineage.same_as(&other.lineage)
        &&& self.policy_refs@ == other.policy_refs@
        &&& self.privacy == other.privacy
        &&& self.redacted_summary == other.redacted_summary
    }
}

impl Clone for ValidatedOutputParams {
    fn clone(&self) -> (res: Self)
        ensures
            res.same_as(self),
    {
        let repair_attempts_copy = self.repair_attempts.clone();
        proof { assert(repair_attempts_copy@ =~= self.repair_attempts@); }
        let source_attempt_ids_copy = self.source_attempt_ids.clone();
        proof { assert(source_attempt_ids_copy@ =~= self.source_attempt_ids@); }
        let content_refs_copy = self.content_refs.clone();
        proof { assert(content_refs_copy@ =~= self.content_refs@); }
        let policy_refs_copy = self.policy_refs.clone();
        proof { assert(policy_refs_copy@ =~= self.policy_refs@); }
        ValidatedOutputParams {
            output_id: self.output_id.clone(),
            schema_id: self.schema_id.clone(),
            schema_version: self.schema_version,
            schema_fingerprint: self.schema_fingerprint.clone(),
            canonical_value_ref: self.canonical_value_ref.clone(),
            repair_attempts: repair_attempts_copy,
            source_attempt_ids: source_attempt_ids_copy,
            content_refs: content_refs_copy,
            lineage: self.lineage.clone(),
            policy_refs: policy_refs_copy,
            privacy: self.privacy,
            redacted_summary: self.redacted_summary.clone(),
        }
    }
}

/// Lineage of an output.
#[derive(Debug)]
pub struct OutputLineage {
    pub lineage_ref: LineageRef,
    pub produced_by: EntityRef,
    pub derived_from: Vec<EntityRef>,
}

impl OutputLineage {
    /// Field-wise equality, with vectors compared by their contents.
    pub open spec fn same_as(&self, other: &Self) -> bool {
        &&& self.lineage_ref == other.lineage_ref
        &&& self.produced_by == other.produced_by
        &&& self.derived_from@ == other.derived_from@
    }
}

impl Clone for OutputLineage {
    fn clone(&self) -> (res: Self)
        ensures
            res.same_as(self),
    {
        let derived_from_copy = self.derived_from.clone();
        proof { assert(derived_from_copy@ =~= self.derived_from@); }
        OutputLineage {
            lineage_ref: self.lineage_ref.clone(),
            produced_by: self.produced_by.clone(),
            derived_from: derived_from_copy,
        }
    }
}

/// Reference to a validation report and its status.
#[derive(Debug)]
pub struct ValidationReportRef {
    pub validation_attempt_id: ValidationAttemptId,
    pub report_ref: ContentRef,
    pub status: ValidationStatus,
    pub redacted_summary: String,
}

impl Clone for ValidationReportRef {
    fn clone(&self) -> (res: Self)
        ensures
            res == *self,
    {
        ValidationReportRef {
            validation_attempt_id: self.validation_attempt_id.clone(),
            report_ref: self.report_ref.clone(),
            status: self.status,
            redacted_summary: self.redacted_summary.clone(),
        }
    }
}

impl crate::domain::ValueEq for ValidationReportRef {
    open spec fn value_eq(&self, other: &Self) -> bool {
        &&& self.validation_attempt_id@ == other.validation_attempt_id@
        &&& self.report_ref.value_eq(&other.report_ref)
        &&& self.status == other.status
        &&& self.redacted_summary@ == other.redacted_summary@
    }

    fn equals(&self, other: &Self) -> (r: bool) {
        if !self.validation_attempt_id.equals(&other.validation_attempt_id) { return false; }
        if !self.report_ref.equals(&other.report_ref) { return false; }
        if !(self.status == other.status) { return false; }
        if !(self.redacted_summary == other.redacted_summary) { return false; }
        true
    }
}

/// A validation report.
#[derive(Debug)]
pub struct ValidationReportRecord {
    pub record_schema_version: u16,
    pub validation_attempt_id: ValidationAttemptId,
    pub schema_id: OutputSchemaId,
    pub schema_version: SchemaVersion,
    pub source_attempt_id: AttemptId,
    pub candidate_content_ref: ContentRef,
    pub validation_report_ref: ContentRef,
    pub status: ValidationStatus,
    pub redacted_error_summary: Option<String>,
    pub policy_refs: Vec<PolicyRef>,
    pub privacy: PrivacyClass,
    pub redacted_summary: String,
}

impl ValidationReportRecord {
    /// Field-wise equality, with vectors compared by their contents.
    pub open spec fn same_as(&self, other: &Self) -> bool {
        &&& self.record_schema_version == other.record_schema_version
        &&& self.validation_attempt_id == other.validation_attempt_id
        &&& self.schema_id == other.schema_id
        &&& self.schema_version == other.schema_version
        &&& self.source_attempt_id == other.source_attempt_id
        &&& self.candidate_content_ref == other.candidate_content_ref
        &&& self.validation_report_ref == other.validation_report_ref
        &&& self.status == other.status
        &&& self.redacted_error_summary == other.redacted_error_summary
        &&& self.policy_refs@ == other.policy_refs@
        &&& self.privacy == other.privacy
        &&& self.redacted_summary == other.redacted_summary
    }
}

impl Clone for ValidationReportRecord {
    fn clone(&self) -> (res: Self)
        ensures
            res.same_as(self),
    {
        let policy_refs_copy = self.policy_refs.clone();
        proof { assert(policy_refs_copy@ =~= self.policy_refs@); }
        ValidationReportRecord {
            record_schema_version: self.record_schema_version,
            validation_attempt_id: self.validation_attempt_id.clone(),
            schema_id: self.schema_id.clone(),
            schema_version: self.schema_version,
            source_attempt_id: self.source_attempt_id.clone(),
            candidate_content_ref: self.candidate_content_ref.clone(),
            validation_report_ref: self.validation_report_ref.clone(),
            status: self.status,
            redacted_error_summary: self.redacted_error_summary.clone(),
            policy_refs: policy_refs_copy,
            privacy: self.privacy,
            redacted_summary: self.redacted_summary.clone(),
        }
    }
}

/// Whether a validation passed.
#[derive(Clone, Copy, Debug, PartialEq, Eq, Structural)]
pub enum ValidationStatus {
    Passed,
    Failed,
}

impl crate::domain::ValueEq for ValidationStatus {
    open spec fn value_eq(&self, other: &Self) -> bool {
        *self == *other
    }

    fn equals(&self, other: &Self) -> (r: bool) {
        *self == *other
    }
}

/// Record that a typed result was published (or denied).
#[derive(Debug)]
pub struct TypedResultPublicationRecord {
    pub record_schema_version: u16,
    pub validated_output_id: ValidatedOutputId,
    pub schema_id: OutputSchemaId,
    pub schema_version: SchemaVersion,
    pub canonical_value_ref: ContentRef,
    pub validation_report_refs: Vec<ValidationReportRef>,
    pub source_attempt_ids: Vec<AttemptId>,
    pub policy_refs: Vec<PolicyRef>,
    pub status: TypedResultPublicationStatus,
    pub privacy: PrivacyClass,
    pub redacted_summary: String,
}

impl TypedResultPublicationRecord {
    /// Field-wise equality, with vectors compared by their contents.
    pub open spec fn same_as(&self, other: &Self) -> bool {
        &&& self.record_schema_version == other.record_schema_version
        &&& self.validated_output_id == other.validated_output_id
        &&& self.schema_id == other.schema_id
        &&& self.schema_version == other.schema_version
        &&& self.canonical_value_ref == other.canonical_value_ref
        &&& self.validation_report_refs@ == other.validation_report_refs@
        &&& self.source_attempt_ids@ == other.source_attempt_ids@
        &&& self.policy_refs@ == other.policy_refs@
        &&& self.status == other.status
        &&& self.privacy == other.privacy
        &&& self.redacted_summary == other.redacted_summary
    }
}

impl Clone for TypedResultPublicationRecord {
    fn clone(&self) -> (res: Self)
        ensures
            res.same_as(self),
    {
        let validation_report_refs_copy = self.validation_report_refs.clone();
        proof { assert(validation_report_refs_copy@ =~= self.validation_report_refs@); }
        let source_attempt_ids_copy = self.source_attempt_ids.clone();
        proof { assert(source_attempt_ids_copy@ =~= self.source_attempt_ids@); }
        let policy_refs_copy = self.policy_refs.clone();
        proof { assert(policy_refs_copy@ =~= self.policy_refs@); }
        TypedResultPublicationRecord {
            record_schema_version: self.record_schema_version,
            validated_output_id: self.validated_output_id.clone(),
            schema_id: self.schema_id.clone(),
            schema_version: self.schema_version,
            canonical_value_ref: self.canonical_value_ref.clone(),
            validation_report_refs: validation_report_refs_copy,
            source_attempt_ids: source_attempt_ids_copy,
            policy_refs: policy_refs_copy,
            status: self.status,
            privacy: self.privacy,
            redacted_summary: self.redacted_summary.clone(),
        }
    }
}

/// Status of a typed result publication.
#[derive(Clone, Copy, Debug, PartialEq, Eq, Structural)]
pub enum TypedResultPublicationStatus {
    Published,
    PolicyDenied,
}

impl crate::domain::ValueEq for TypedResultPublicationStatus {
    open spec fn value_eq(&self, other: &Self) -> bool {
        *self == *other
    }

    fn equals(&self, other: &Self) -> (r: bool) {
        *self == *other
    }
}

/// One step of the validation-to-publication sequence.
#[derive(Debug)]
pub enum ValidatedOutputPublicationStep {
    ValidationReport(ValidationReportRecord),
    ValidatedOutput(ValidatedOutput),
    TypedResultPublication(TypedResultPublicationRecord),
}

impl ValidatedOutputPublicationStep {
    /// Variant-wise equality, with vectors compared by their contents.
    pub open spec fn same_as(&self, other: &Self) -> bool {
        match (*self, *other) {
            (ValidatedOutputPublicationStep::ValidationReport(a_v0), ValidatedOutputPublicationStep::ValidationReport(b_v0)) => (a_v0.same_as(&b_v0)),
            (ValidatedOutputPublicationStep::ValidatedOutput(a_v0), ValidatedOutputPublicationStep::ValidatedOutput(b_v0)) => (a_v0.same_as(&b_v0)),
            (ValidatedOutputPublicationStep::TypedResultPublication(a_v0), ValidatedOutputPublicationStep::TypedResultPublication(b_v0)) => (a_v0.same_as(&b_v0)),
            _ => false,
        }
    }
}

impl Clone for ValidatedOutputPublicationStep {
    fn clone(&self) -> (res: Self)
        ensures
            res.same_as(self),
    {
        match self {
            ValidatedOutputPublicationStep::ValidationReport(v0) => { ValidatedOutputPublicationStep::ValidationReport(v0.clone()) }
            ValidatedOutputPublicationStep::ValidatedOutput(v0) => { ValidatedOutputPublicationStep::ValidatedOutput(v0.clone()) }
            ValidatedOutputPublicationStep::TypedResultPublication(v0) => { ValidatedOutputPublicationStep::TypedResultPublication(v0.clone()) }
        }
    }
}

/// Why a typed output was rejected.
#[derive(Debug)]
pub enum TypedOutputError {
    SchemaVersionUnsupported { record_schema_version: u16 },
    InvalidSchemaFingerprint,
    MissingValidationReport { output_id: ValidatedOutputId },
    MissingSourceAttempt { output_id: ValidatedOutputId },
    MissingCanonicalContentRef { output_id: ValidatedOutputId },
    MissingRedactedSummary { output_id: ValidatedOutputId },
    ValidationReportFailed { validation_attempt_id: ValidationAttemptId },
    SchemaMismatch { expected_schema_id: OutputSchemaId, actual_schema_id: OutputSchemaId },
    PublicationBeforeValidation { validated_output_id: ValidatedOutputId },
    PublicationPolicyDenied { validated_output_id: ValidatedOutputId },
    PublicationEvidenceMismatch { validated_output_id: ValidatedOutputId },
    CanonicalValueRefMismatch { validated_output_id: ValidatedOutputId },
    MissingValidatedOutput { run_id: RunId },
}

impl Clone for TypedOutputError {
    fn clone(&self) -> (res: Self)
        ensures
            res == *self,
    {
        match self {
            TypedOutputError::SchemaVersionUnsupported { record_schema_version } => { TypedOutputError::SchemaVersionUnsupported { record_schema_version: *record_schema_version } }
            TypedOutputError::InvalidSchemaFingerprint => TypedOutputError::InvalidSchemaFingerprint,
            TypedOutputError::MissingValidationReport { output_id } => { TypedOutputError::MissingValidationReport { output_id: output_id.clone() } }
            TypedOutputError::MissingSourceAttempt { output_id } => { TypedOutputError::MissingSourceAttempt { output_id: output_id.clone() } }
            TypedOutputError::MissingCanonicalContentRef { output_id } => { TypedOutputError::MissingCanonicalContentRef { output_id: output_id.clone() } }
            TypedOutputError::MissingRedactedSummary { output_id } => { TypedOutputError::MissingRedactedSummary { output_id: output_id.clone() } }
            TypedOutputError::ValidationReportFailed { validation_attempt_id } => { TypedOutputError::ValidationReportFailed { validation_attempt_id: validation_attempt_id.clone() } }
            TypedOutputError::SchemaMismatch { expected_schema_id, actual_schema_id } => { TypedOutputError::SchemaMismatch { expected_schema_id: expected_schema_id.clone(), actual_schema_id: actual_schema_id.clone() } }
            TypedOutputError::PublicationBeforeValidation { validated_output_id } => { TypedOutputError::PublicationBeforeValidation { validated_output_id: validated_output_id.clone() } }
            TypedOutputError::PublicationPolicyDenied { validated_output_id } => { TypedOutputError::PublicationPolicyDenied { validated_output_id: validated_output_id.clone() } }
            TypedOutputError::PublicationEvidenceMismatch { validated_output_id } => { TypedOutputError::PublicationEvidenceMismatch { validated_output_id: validated_output_id.clone() } }
            TypedOutputError::CanonicalValueRefMismatch { validated_output_id } => { TypedOutputError::CanonicalValueRefMismatch { validated_output_id: validated_output_id.clone() } }
            TypedOutputError::MissingValidatedOutput { run_id } => { TypedOutputError::MissingValidatedOutput { run_id: run_id.clone() } }
        }
    }
}

/// Schema version of `ValidatedOutput` records.
pub const VALIDATED_OUTPUT_RECORD_SCHEMA_VERSION: u16 = 1;
/// Schema version of `ValidationReportRecord` records.
pub const VALIDATION_REPORT_RECORD_SCHEMA_VERSION: u16 = 1;
/// Schema version of `TypedResultPublicationRecord` records.
pub const TYPED_RESULT_PUBLICATION_RECORD_SCHEMA_VERSION: u16 = 1;

/// Key of a content reference: its content id, `@`, and its version.
pub open spec fn content_ref_key_spec(content_ref: ContentRef) -> Seq<char> {
    content_ref.content_id@ + "@"@ + content_ref.version@
}

fn content_ref_key(content_ref: &ContentRef) -> (res: String)
    ensures
        res@ == content_ref_key_spec(*content_ref),
{
    concat3(content_ref.content_id.as_str(), "@", content_ref.version.as_str())
}

/// Some reference of `refs` has the key of `expected`.
pub open spec fn content_refs_include_spec(refs: Seq<ContentRef>, expected: ContentRef) -> bool {
    exists|i: int| 0 <= i < refs.len() && content_ref_key_spec(#[trigger] refs[i]) == content_ref_key_spec(expected)
}

fn content_refs_include(refs: &Vec<ContentRef>, expected: &ContentRef) -> (r: bool)
    ensures
        r == content_refs_include_spec(refs@, *expected),
{
    let key = content_ref_key(expected);
    let mut i: usize = 0;
    while i < refs.len()
        invariant
            0 <= i <= refs@.len(),
            key@ == content_ref_key_spec(*expected),
            forall|k: int| 0 <= k < i ==> content_ref_key_spec(#[trigger] refs@[k]) != key@,
        decreases refs@.len() - i,
    {
        let candidate = content_ref_key(&refs[i]);
        if candidate == key {
            return true;
        }
        i = i + 1;
    }
    false
}

/// `refs` with `content_ref` appended unless its key is already there.
pub open spec fn push_unique_content_spec(refs: Seq<ContentRef>, content_ref: ContentRef) -> Seq<ContentRef> {
    if content_refs_include_spec(refs, content_ref) {
        refs
    } else {
        refs.push(content_ref)
    }
}

proof fn lemma_push_unique_content_includes(refs: Seq<ContentRef>, content_ref: ContentRef, other: ContentRef)
    ensures
        content_refs_include_spec(push_unique_content_spec(refs, content_ref), content_ref),
        content_refs_include_spec(refs, other) ==> content_refs_include_spec(
            push_unique_content_spec(refs, content_ref),
            other,
        ),
{
    let pushed = push_unique_content_spec(refs, content_ref);
    if !content_refs_include_spec(refs, content_ref) {
        assert(pushed[refs.len() as int] == content_ref);
    }
    if content_refs_include_spec(refs, other) {
        let i = choose|i: int| 0 <= i < refs.len() && content_ref_key_spec(#[trigger] refs[i]) == content_ref_key_spec(other);
        assert(pushed[i] == refs[i]);
    }
}

fn push_unique_content_ref(refs: &mut Vec<ContentRef>, content_ref: ContentRef)
    ensures
        final(refs)@ == push_unique_content_spec(old(refs)@, content_ref),
{
    if !content_refs_include(refs, &content_ref) {
        refs.push(content_ref);
    }
}

/// Some attempt of `ids` has the text of `id`.
pub open spec fn attempt_ids_include_spec(ids: Seq<AttemptId>, id: AttemptId) -> bool {
    exists|i: int| 0 <= i < ids.len() && (#[trigger] ids[i])@ == id@
}

fn attempt_ids_include(ids: &Vec<AttemptId>, id: &AttemptId) -> (r: bool)
    ensures
        r == attempt_ids_include_spec(ids@, *id),
{
    let mut i: usize = 0;
    while i < ids.len()
        invariant
            0 <= i <= ids@.len(),
            forall|k: int| 0 <= k < i ==> (#[trigger] ids@[k])@ != id@,
        decreases ids@.len() - i,
    {
        if ids[i].equals(id) {
            return true;
        }
        i = i + 1;
    }
    false
}

impl ValidationStatus {
    /// Whether the validation passed.
    pub fn is_success(self) -> (r: bool)
        ensures
            r == (self == ValidationStatus::Passed),
    {
        match self {
            ValidationStatus::Passed => true,
            ValidationStatus::Failed => false,
        }
    }
}

impl ValidatedOutput {
    /// The error that one validation report reference raises in a shape check, if any.
    pub open spec fn report_ref_error(&self, report_ref: ValidationReportRef) -> Option<TypedOutputError> {
        if report_ref.status != ValidationStatus::Passed {
            Some(TypedOutputError::ValidationReportFailed { validation_attempt_id: report_ref.validation_attempt_id })
        } else if !content_refs_include_spec(self.content_refs@, report_ref.report_ref) {
            Some(TypedOutputError::MissingValidationReport { output_id: self.output_id })
        } else {
            None
        }
    }

    /// The first error raised by the validation report references from index `i` on.
    pub open spec fn report_refs_error_from(&self, i: int) -> Option<TypedOutputError>
        decreases self.validation_report_refs@.len() - i,
    {
        if i < 0 || i >= self.validation_report_refs@.len() {
            None
        } else {
            match self.report_ref_error(self.validation_report_refs@[i]) {
                Some(e) => Some(e),
                None => self.report_refs_error_from(i + 1),
            }
        }
    }

    /// Outcome of the shape check: the first rule that the record breaks.
    pub open spec fn shape_check(&self) -> Result<(), TypedOutputError> {
        if self.record_schema_version != VALIDATED_OUTPUT_RECORD_SCHEMA_VERSION {
            Err(TypedOutputError::SchemaVersionUnsupported { record_schema_version: self.record_schema_version })
        } else if !is_sha256_fingerprint_spec(self.schema_fingerprint@) {
            Err(TypedOutputError::InvalidSchemaFingerprint)
        } else if self.validation_report_refs@.len() == 0 {
            Err(TypedOutputError::MissingValidationReport { output_id: self.output_id })
        } else if self.source_attempt_ids@.len() == 0 {
            Err(TypedOutputError::MissingSourceAttempt { output_id: self.output_id })
        } else if self.redacted_summary@.len() == 0 {
            Err(TypedOutputError::MissingRedactedSummary { output_id: self.output_id })
        } else if !content_refs_include_spec(self.content_refs@, self.canonical_value_ref) {
            Err(TypedOutputError::MissingCanonicalContentRef { output_id: self.output_id })
        } else {
            match self.report_refs_error_from(0) {
                Some(e) => Err(e),
                None => Ok(()),
            }
        }
    }

    /// Checks the record's invariants: supported schema version, sha256 schema fingerprint,
    /// at least one validation report and source attempt, a summary, the canonical value
    /// among the content refs, and every report passed and among the content refs.
    pub fn validate_shape(&self) -> (res: Result<(), TypedOutputError>)
        ensures
            res == self.shape_check(),
    {
        if self.record_schema_version != VALIDATED_OUTPUT_RECORD_SCHEMA_VERSION {
            return Err(TypedOutputError::SchemaVersionUnsupported { record_schema_version: self.record_schema_version });
        }
        if !is_sha256_fingerprint(self.schema_fingerprint.as_str()) {
            return Err(TypedOutputError::InvalidSchemaFingerprint);
        }
        if self.validation_report_refs.len() == 0 {
            return Err(TypedOutputError::MissingValidationReport { output_id: self.output_id.clone() });
        }
        if self.source_attempt_ids.len() == 0 {
            return Err(TypedOutputError::MissingSourceAttempt { output_id: self.output_id.clone() });
        }
        if self.redacted_summary.as_str().is_empty() {
            return Err(TypedOutputError::MissingRedactedSummary { output_id: self.output_id.clone() });
        }
        if !content_refs_include(&self.content_refs, &self.canonical_value_ref) {
            return Err(TypedOutputError::MissingCanonicalContentRef { output_id: self.output_id.clone() });
        }
        let n = self.validation_report_refs.len();
        let mut i: usize = 0;
        while i < n
            invariant
                n == self.validation_report_refs@.len(),
                0 <= i <= n,
                self.report_refs_error_from(0) == self.report_refs_error_from(i as int),
                self.shape_check() == match self.report_refs_error_from(0) {
                    Some(e) => Err(e),
                    None => Ok(()),
                },
            decreases n - i,
        {
            let report_ref = &self.validation_report_refs[i];
            proof {
                assert(self.report_refs_error_from(i as int) == match self.report_ref_error(*report_ref) {
                    Some(e) => Some(e),
                    None => self.report_refs_error_from(i + 1),
                });
            }
            if !report_ref.status.is_success() {
                return Err(TypedOutputError::ValidationReportFailed {
                    validation_attempt_id: report_ref.validation_attempt_id.clone(),
                });
            }
            if !content_refs_include(&self.content_refs, &report_ref.report_ref) {
                return Err(TypedOutputError::MissingValidationReport { output_id: self.output_id.clone() });
            }
            i = i + 1;
        }
        Ok(())
    }

    /// Whether this record is what `from_validation_report` builds from `params` and `report`.
    pub open spec fn built_from(&self, params: ValidatedOutputParams, report: ValidationReportRecord) -> bool {
        &&& self.record_schema_version == VALIDATED_OUTPUT_RECORD_SCHEMA_VERSION
        &&& self.output_id == params.output_id
        &&& self.schema_id == params.schema_id
        &&& self.schema_version == params.schema_version
        &&& self.schema_fingerprint == params.schema_fingerprint
        &&& self.canonical_value_ref == params.canonical_value_ref
        &&& self.validation_report_refs@ == seq![report.to_ref_spec()]
        &&& self.validation_attempts@ == seq![report.validation_attempt_id]
        &&& self.repair_attempts == params.repair_attempts
        &&& self.source_attempt_ids@ == (if attempt_ids_include_spec(params.source_attempt_ids@, report.source_attempt_id) {
            params.source_attempt_ids@
        } else {
            params.source_attempt_ids@.push(report.source_attempt_id)
        })
        &&& self.content_refs@ == push_unique_content_spec(
            push_unique_content_spec(
                push_unique_content_spec(params.content_refs@, params.canonical_value_ref),
                report.candidate_content_ref,
            ),
            report.validation_report_ref,
        )
        &&& self.lineage == params.lineage
        &&& self.policy_refs@ == merge_policy_refs_spec(params.policy_refs@, report.policy_refs@)
        &&& self.privacy == params.privacy
        &&& self.redacted_summary == params.redacted_summary
    }

    /// Builds a validated output from a passing validation report of the same schema.
    /// The report's candidate and report content refs, policy refs, and source attempt are
    /// merged into the params' lists without duplicates.
    pub fn from_validation_report(params: ValidatedOutputParams, report: &ValidationReportRecord) -> (res: Result<
        Self,
        TypedOutputError,
    >)
        ensures
            report.status != ValidationStatus::Passed ==> res == Err::<Self, TypedOutputError>(
                TypedOutputError::ValidationReportFailed { validation_attempt_id: report.validation_attempt_id },
            ),
            report.status == ValidationStatus::Passed && !(report.schema_id@ == params.schema_id@
                && report.schema_version == params.schema_version) ==> res == Err::<Self, TypedOutputError>(
                TypedOutputError::SchemaMismatch {
                    expected_schema_id: params.schema_id,
                    actual_schema_id: report.schema_id,
                },
            ),
            report.status == ValidationStatus::Passed && report.schema_id@ == params.schema_id@
                && report.schema_version == params.schema_version && !is_sha256_fingerprint_spec(
                params.schema_fingerprint@,
            ) ==> res == Err::<Self, TypedOutputError>(TypedOutputError::InvalidSchemaFingerprint),
            report.status == ValidationStatus::Passed && report.schema_id@ == params.schema_id@
                && report.schema_version == params.schema_version && is_sha256_fingerprint_spec(
                params.schema_fingerprint@,
            ) && params.redacted_summary@.len() == 0 ==> res == Err::<Self, TypedOutputError>(
                TypedOutputError::MissingRedactedSummary { output_id: params.output_id },
            ),
            res is Ok <==> (report.status == ValidationStatus::Passed && report.schema_id@ == params.schema_id@
                && report.schema_version == params.schema_version && is_sha256_fingerprint_spec(
                params.schema_fingerprint@,
            ) && params.redacted_summary@.len() > 0),
            res is Ok ==> res.unwrap().built_from(params, *report) && res.unwrap().shape_check() is Ok,
    {
        if !report.status.is_success() {
            return Err(TypedOutputError::ValidationReportFailed {
                validation_attempt_id: report.validation_attempt_id.clone(),
            });
        }
        if !report.schema_id.equals(&params.schema_id) || report.schema_version != params.schema_version {
            return Err(TypedOutputError::SchemaMismatch {
                expected_schema_id: params.schema_id,
                actual_schema_id: report.schema_id.clone(),
            });
        }
        let ghost params0 = params;
        let ValidatedOutputParams {
            output_id,
            schema_id,
            schema_version,
            schema_fingerprint,
            canonical_value_ref,
            repair_attempts,
            source_attempt_ids,
            content_refs,
            lineage,
            policy_refs,
            privacy,
            redacted_summary,
        } = params;
        let mut content_refs = content_refs;
        push_unique_content_ref(&mut content_refs, canonical_value_ref.clone());
        push_unique_content_ref(&mut content_refs, report.candidate_content_ref.clone());
        push_unique_content_ref(&mut content_refs, report.validation_report_ref.clone());
        proof {
            let s0 = params0.content_refs@;
            let s1 = push_unique_content_spec(s0, params0.canonical_value_ref);
            let s2 = push_unique_content_spec(s1, report.candidate_content_ref);
            lemma_push_unique_content_includes(s0, params0.canonical_value_ref, params0.canonical_value_ref);
            lemma_push_unique_content_includes(s1, report.candidate_content_ref, params0.canonical_value_ref);
            lemma_push_unique_content_includes(s2, report.validation_report_ref, params0.canonical_value_ref);
        }

        let mut policy_refs = policy_refs;
        merge_policy_refs(&mut policy_refs, &report.policy_refs);

        let mut source_attempt_ids = source_attempt_ids;
        if !attempt_ids_include(&source_attempt_ids, &report.source_attempt_id) {
            source_attempt_ids.push(report.source_attempt_id.clone());
        }

        let mut validation_report_refs: Vec<ValidationReportRef> = Vec::new();
        validation_report_refs.push(report.to_ref());
        let mut validation_attempts: Vec<ValidationAttemptId> = Vec::new();
        validation_attempts.push(report.validation_attempt_id.clone());

        let output = ValidatedOutput {
            record_schema_version: VALIDATED_OUTPUT_RECORD_SCHEMA_VERSION,
            output_id,
            schema_id,
            schema_version,
            schema_fingerprint,
            canonical_value_ref,
            validation_report_refs,
            validation_attempts,
            repair_attempts,
            source_attempt_ids,
            content_refs,
            lineage,
            policy_refs,
            privacy,
            redacted_summary,
        };
        proof {
            assert(output.validation_report_refs@ =~= seq![report.to_ref_spec()]);
            assert(output.validation_attempts@ =~= seq![report.validation_attempt_id]);
            assert(output.report_refs_error_from(1) == None::<TypedOutputError>);
            assert(content_refs_include_spec(output.content_refs@, output.validation_report_refs@[0].report_ref));
            if output.source_attempt_ids@.len() == 0 {
                assert(attempt_ids_include_spec(params0.source_attempt_ids@, report.source_attempt_id));
            }
        }
        match output.validate_shape() {
            Ok(()) => Ok(output),
            Err(e) => Err(e),
        }
    }

    /// The keys of the validation report content refs, in order.
    pub fn validation_report_keys(&self) -> (res: Vec<String>)
        ensures
            res@.len() == self.validation_report_refs@.len(),
            forall|i: int| 0 <= i < res@.len() ==> (#[trigger] res@[i])@ == content_ref_key_spec(
                self.validation_report_refs@[i].report_ref,
            ),
    {
        report_keys(&self.validation_report_refs)
    }
}

fn report_keys(refs: &Vec<ValidationReportRef>) -> (res: Vec<String>)
    ensures
        res@.len() == refs@.len(),
        forall|i: int| 0 <= i < res@.len() ==> (#[trigger] res@[i])@ == content_ref_key_spec(refs@[i].report_ref),
{
    let mut out: Vec<String> = Vec::new();
    let mut i: usize = 0;
    while i < refs.len()
        invariant
            0 <= i <= refs@.len(),
            out@.len() == i,
            forall|k: int| 0 <= k < i ==> (#[trigger] out@[k])@ == content_ref_key_spec(refs@[k].report_ref),
        decreases refs@.len() - i,
    {
        out.push(content_ref_key(&refs[i].report_ref));
        i = i + 1;
    }
    out
}

impl ValidationReportRecord {
    /// The reference to this report that a validated output carries.
    pub open spec fn to_ref_spec(&self) -> ValidationReportRef {
        ValidationReportRef {
            validation_attempt_id: self.validation_attempt_id,
            report_ref: self.validation_report_ref,
            status: self.status,
            redacted_summary: self.redacted_summary,
        }
    }

    /// A passing validation report.
    pub fn passed(
        validation_attempt_id: ValidationAttemptId,
        schema_id: OutputSchemaId,
        schema_version: SchemaVersion,
        source_attempt_id: AttemptId,
        candidate_content_ref: ContentRef,
        validation_report_ref: ContentRef,
        redacted_summary: String,
    ) -> (res: Self)
        ensures
            res.record_schema_version == VALIDATION_REPORT_RECORD_SCHEMA_VERSION,
            res.validation_attempt_id == validation_attempt_id,
            res.schema_id == schema_id,
            res.schema_version == schema_version,
            res.source_attempt_id == source_attempt_id,
            res.candidate_content_ref == candidate_content_ref,
            res.validation_report_ref == validation_report_ref,
            res.status == ValidationStatus::Passed,
            res.redacted_error_summary is None,
            res.policy_refs@.len() == 0,
            res.privacy == PrivacyClass::ContentRefsOnly,
            res.redacted_summary == redacted_summary,
    {
        ValidationReportRecord {
            record_schema_version: VALIDATION_REPORT_RECORD_SCHEMA_VERSION,
            validation_attempt_id,
            schema_id,
            schema_version,
            source_attempt_id,
            candidate_content_ref,
            validation_report_ref,
            status: ValidationStatus::Passed,
            redacted_error_summary: None,
            policy_refs: Vec::new(),
            privacy: PrivacyClass::ContentRefsOnly,
            redacted_summary,
        }
    }

    /// A failing validation report; its error summary is also its summary.
    pub fn failed(
        validation_attempt_id: ValidationAttemptId,
        schema_id: OutputSchemaId,
        schema_version: SchemaVersion,
        source_attempt_id: AttemptId,
        candidate_content_ref: ContentRef,
        validation_report_ref: ContentRef,
        redacted_error_summary: String,
    ) -> (res: Self)
        ensures
            res.record_schema_version == VALIDATION_REPORT_RECORD_SCHEMA_VERSION,
            res.validation_attempt_id == validation_attempt_id,
            res.schema_id == schema_id,
            res.schema_version == schema_version,
            res.source_attempt_id == source_attempt_id,
            res.candidate_content_ref == candidate_content_ref,
            res.validation_report_ref == validation_report_ref,
            res.status == ValidationStatus::Failed,
            res.redacted_error_summary == Some(redacted_error_summary),
            res.policy_refs@.len() == 0,
            res.privacy == PrivacyClass::ContentRefsOnly,
            res.redacted_summary == redacted_error_summary,
    {
        ValidationReportRecord {
            record_schema_version: VALIDATION_REPORT_RECORD_SCHEMA_VERSION,
            validation_attempt_id,
            schema_id,
            schema_version,
            source_attempt_id,
            candidate_content_ref,
            validation_report_ref,
            status: ValidationStatus::Failed,
            redacted_error_summary: Some(redacted_error_summary.clone()),
            policy_refs: Vec::new(),
            privacy: PrivacyClass::ContentRefsOnly,
            redacted_summary: redacted_error_summary,
        }
    }

    /// The reference to this report.
    pub fn to_ref(&self) -> (res: ValidationReportRef)
        ensures
            res == self.to_ref_spec(),
    {
        ValidationReportRef {
            validation_attempt_id: self.validation_attempt_id.clone(),
            report_ref: self.validation_report_ref.clone(),
            status: self.status,
            redacted_summary: self.redacted_summary.clone(),
        }
    }
}

/// Element-wise equality of two lists of validation report references.
pub open spec fn report_ref_seqs_equal(a: Seq<ValidationReportRef>, b: Seq<ValidationReportRef>) -> bool {
    a.len() == b.len() && forall|i: int| 0 <= i < a.len() ==> (#[trigger] a[i]).value_eq(&b[i])
}

fn report_ref_vecs_equal(a: &Vec<ValidationReportRef>, b: &Vec<ValidationReportRef>) -> (r: bool)
    ensures
        r == report_ref_seqs_equal(a@, b@),
{
    if a.len() != b.len() {
        return false;
    }
    let mut i: usize = 0;
    while i < a.len()
        invariant
            a@.len() == b@.len(),
            0 <= i <= a@.len(),
            forall|k: int| 0 <= k < i ==> (#[trigger] a@[k]).value_eq(&b@[k]),
        decreases a@.len() - i,
    {
        if !a[i].equals(&b[i]) {
            return false;
        }
        i = i + 1;
    }
    true
}

impl TypedResultPublicationRecord {
    /// Whether this record copies the evidence of `validated_output` with the given status
    /// and summary.
    pub open spec fn records(
        &self,
        validated_output: ValidatedOutput,
        status: TypedResultPublicationStatus,
        redacted_summary: Seq<char>,
    ) -> bool {
        &&& self.record_schema_version == TYPED_RESULT_PUBLICATION_RECORD_SCHEMA_VERSION
        &&& self.validated_output_id == validated_output.output_id
        &&& self.schema_id == validated_output.schema_id
        &&& self.schema_version == validated_output.schema_version
        &&& self.canonical_value_ref == validated_output.canonical_value_ref
        &&& self.validation_report_refs@ == validated_output.validation_report_refs@
        &&& self.source_attempt_ids@ == validated_output.source_attempt_ids@
        &&& self.policy_refs@ == validated_output.policy_refs@
        &&& self.status == status
        &&& self.privacy == validated_output.privacy
        &&& self.redacted_summary@ == redacted_summary
    }

    /// Publication of a validated output; fails with the output's shape error.
    pub fn published(validated_output: &ValidatedOutput) -> (res: Result<Self, TypedOutputError>)
        ensures
            match validated_output.shape_check() {
                Err(e) => res == Err::<Self, TypedOutputError>(e),
                Ok(()) => res is Ok && res.unwrap().records(
                    *validated_output,
                    TypedResultPublicationStatus::Published,
                    validated_output.redacted_summary@,
                ),
            },
    {
        match validated_output.validate_shape() {
            Err(e) => Err(e),
            Ok(()) => Ok(Self::copy_of(validated_output, TypedResultPublicationStatus::Published, validated_output.redacted_summary.clone())),
        }
    }

    /// A publication denied by output policy; fails with the output's shape error.
    pub fn policy_denied(validated_output: &ValidatedOutput, redacted_summary: String) -> (res: Result<Self, TypedOutputError>)
        ensures
            match validated_output.shape_check() {
                Err(e) => res == Err::<Self, TypedOutputError>(e),
                Ok(()) => res is Ok && res.unwrap().records(
                    *validated_output,
                    TypedResultPublicationStatus::PolicyDenied,
                    redacted_summary@,
                ),
            },
    {
        match validated_output.validate_shape() {
            Err(e) => Err(e),
            Ok(()) => Ok(Self::copy_of(validated_output, TypedResultPublicationStatus::PolicyDenied, redacted_summary)),
        }
    }

    fn copy_of(validated_output: &ValidatedOutput, status: TypedResultPublicationStatus, redacted_summary: String) -> (res: Self)
        ensures
            res.records(*validated_output, status, redacted_summary@),
    {
        let validation_report_refs = validated_output.validation_report_refs.clone();
        let source_attempt_ids = validated_output.source_attempt_ids.clone();
        let policy_refs = validated_output.policy_refs.clone();
        proof {
            assert(validation_report_refs@ =~= validated_output.validation_report_refs@);
            assert(source_attempt_ids@ =~= validated_output.source_attempt_ids@);
            assert(policy_refs@ =~= validated_output.policy_refs@);
        }
        TypedResultPublicationRecord {
            record_schema_version: TYPED_RESULT_PUBLICATION_RECORD_SCHEMA_VERSION,
            validated_output_id: validated_output.output_id.clone(),
            schema_id: validated_output.schema_id.clone(),
            schema_version: validated_output.schema_version,
            canonical_value_ref: validated_output.canonical_value_ref.clone(),
            validation_report_refs,
            source_attempt_ids,
            policy_refs,
            status,
            privacy: validated_output.privacy,
            redacted_summary,
        }
    }

    /// Outcome of checking this publication against the output it publishes.
    pub open spec fn check_against(&self, validated_output: ValidatedOutput) -> Result<(), TypedOutputError> {
        if self.record_schema_version != TYPED_RESULT_PUBLICATION_RECORD_SCHEMA_VERSION {
            Err(TypedOutputError::SchemaVersionUnsupported { record_schema_version: self.record_schema_version })
        } else if self.status != TypedResultPublicationStatus::Published {
            Err(TypedOutputError::PublicationPolicyDenied { validated_output_id: self.validated_output_id })
        } else {
            match validated_output.shape_check() {
                Err(e) => Err(e),
                Ok(()) => if self.validation_report_refs@.len() == 0 {
                    Err(TypedOutputError::MissingValidationReport { output_id: validated_output.output_id })
                } else if !(self.validated_output_id@ == validated_output.output_id@
                    && self.schema_id@ == validated_output.schema_id@
                    && self.schema_version == validated_output.schema_version
                    && content_ref_key_spec(self.canonical_value_ref) == content_ref_key_spec(validated_output.canonical_value_ref)
                    && report_ref_seqs_equal(self.validation_report_refs@, validated_output.validation_report_refs@)) {
                    Err(TypedOutputError::PublicationEvidenceMismatch { validated_output_id: self.validated_output_id })
                } else {
                    Ok(())
                },
            }
        }
    }

    /// Checks that this is a publication (not a denial) of `validated_output`, with the
    /// same id, schema, canonical value and validation evidence.
    pub fn validate_against_output(&self, validated_output: &ValidatedOutput) -> (res: Result<(), TypedOutputError>)
        ensures
            res == self.check_against(*validated_output),
    {
        if self.record_schema_version != TYPED_RESULT_PUBLICATION_RECORD_SCHEMA_VERSION {
            return Err(TypedOutputError::SchemaVersionUnsupported { record_schema_version: self.record_schema_version });
        }
        if self.status != TypedResultPublicationStatus::Published {
            return Err(TypedOutputError::PublicationPolicyDenied { validated_output_id: self.validated_output_id.clone() });
        }
        match validated_output.validate_shape() {
            Err(e) => {
                return Err(e);
            },
            Ok(()) => {},
        }
        if self.validation_report_refs.len() == 0 {
            return Err(TypedOutputError::MissingValidationReport { output_id: validated_output.output_id.clone() });
        }
        let own_key = content_ref_key(&self.canonical_value_ref);
        let output_key = content_ref_key(&validated_output.canonical_value_ref);
        if !self.validated_output_id.equals(&validated_output.output_id) || !self.schema_id.equals(&validated_output.schema_id)
            || self.schema_version != validated_output.schema_version || own_key != output_key
            || !report_ref_vecs_equal(&self.validation_report_refs, &validated_output.validation_report_refs) {
            return Err(TypedOutputError::PublicationEvidenceMismatch { validated_output_id: self.validated_output_id.clone() });
        }
        Ok(())
    }

    /// The keys of the validation report content refs, in order.
    pub fn validation_report_keys(&self) -> (res: Vec<String>)
        ensures
            res@.len() == self.validation_report_refs@.len(),
            forall|i: int| 0 <= i < res@.len() ==> (#[trigger] res@[i])@ == content_ref_key_spec(
                self.validation_report_refs@[i].report_ref,
            ),
    {
        report_keys(&self.validation_report_refs)
    }
}

impl TypedOutputError {
    /// How a caller may retry after this error.
    pub open spec fn retry_classification_spec(&self) -> RetryClassification {
        match self {
            TypedOutputError::PublicationPolicyDenied { .. } | TypedOutputError::ValidationReportFailed { .. } => {
                RetryClassification::NotRetryable
            },
            _ => RetryClassification::RepairNeeded,
        }
    }

    /// Policy denials and failed reports are not retryable; every other error needs a repair.
    pub fn retry_classification(&self) -> (res: RetryClassification)
        ensures
            res == self.retry_classification_spec(),
    {
        match self {
            TypedOutputError::PublicationPolicyDenied { .. } | TypedOutputError::ValidationReportFailed { .. } => {
                RetryClassification::NotRetryable
            },
            TypedOutputError::SchemaVersionUnsupported { .. }
            | TypedOutputError::InvalidSchemaFingerprint
            | TypedOutputError::MissingValidationReport { .. }
            | TypedOutputError::MissingSourceAttempt { .. }
            | TypedOutputError::MissingCanonicalContentRef { .. }
            | TypedOutputError::MissingRedactedSummary { .. }
            | TypedOutputError::SchemaMismatch { .. }
            | TypedOutputError::PublicationBeforeValidation { .. }
            | TypedOutputError::PublicationEvidenceMismatch { .. }
            | TypedOutputError::CanonicalValueRefMismatch { .. }
            | TypedOutputError::MissingValidatedOutput { .. } => RetryClassification::RepairNeeded,
        }
    }

    /// The error's message.
    pub open spec fn message_spec(&self) -> Seq<char> {
        match self {
            TypedOutputError::SchemaVersionUnsupported { record_schema_version } => "validated output record schema version "@
                + crate::text::decimal(*record_schema_version as nat) + " is unsupported"@,
            TypedOutputError::InvalidSchemaFingerprint => "validated output schema fingerprint must be a sha256 digest"@,
            TypedOutputError::MissingValidationReport { .. } => "validated output is missing validation report evidence"@,
            TypedOutputError::MissingSourceAttempt { .. } => "validated output is missing a source model attempt"@,
            TypedOutputError::MissingCanonicalContentRef { .. } => "validated output is missing its canonical content ref"@,
            TypedOutputError::MissingRedactedSummary { .. } => "validated output is missing a redacted summary"@,
            TypedOutputError::ValidationReportFailed { .. } => "validation report did not pass"@,
            TypedOutputError::SchemaMismatch { .. } => "validated output schema does not match validation report schema"@,
            TypedOutputError::PublicationBeforeValidation { .. } => "typed result publication happened before validated output evidence"@,
            TypedOutputError::PublicationPolicyDenied { .. } => "validated output publication was denied by output policy"@,
            TypedOutputError::PublicationEvidenceMismatch { .. } => "typed result publication evidence does not match validated output"@,
            TypedOutputError::CanonicalValueRefMismatch { .. } => "typed result decoder returned content from a different canonical value ref"@,
            TypedOutputError::MissingValidatedOutput { run_id } => "run RunId("@ + str_debug_spec(run_id@)
                + ") does not contain validated structured output"@,
        }
    }

    /// The error's message, as its `Display` writes it.
    pub fn message(&self) -> (res: String)
        ensures
            res@ == self.message_spec(),
    {
        match self {
            TypedOutputError::SchemaVersionUnsupported { record_schema_version } => {
                let n = crate::text::u64_to_decimal(*record_schema_version as u64);
                concat3("validated output record schema version ", n.as_str(), " is unsupported")
            },
            TypedOutputError::InvalidSchemaFingerprint => "validated output schema fingerprint must be a sha256 digest".to_string(),
            TypedOutputError::MissingValidationReport { .. } => "validated output is missing validation report evidence".to_string(),
            TypedOutputError::MissingSourceAttempt { .. } => "validated output is missing a source model attempt".to_string(),
            TypedOutputError::MissingCanonicalContentRef { .. } => "validated output is missing its canonical content ref".to_string(),
            TypedOutputError::MissingRedactedSummary { .. } => "validated output is missing a redacted summary".to_string(),
            TypedOutputError::ValidationReportFailed { .. } => "validation report did not pass".to_string(),
            TypedOutputError::SchemaMismatch { .. } => "validated output schema does not match validation report schema".to_string(),
            TypedOutputError::PublicationBeforeValidation { .. } => "typed result publication happened before validated output evidence".to_string(),
            TypedOutputError::PublicationPolicyDenied { .. } => "validated output publication was denied by output policy".to_string(),
            TypedOutputError::PublicationEvidenceMismatch { .. } => "typed result publication evidence does not match validated output".to_string(),
            TypedOutputError::CanonicalValueRefMismatch { .. } => "typed result decoder returned content from a different canonical value ref".to_string(),
            TypedOutputError::MissingValidatedOutput { run_id } => {
                let quoted = str_debug(run_id.as_str());
                concat3("run RunId(", quoted.as_str(), ") does not contain validated structured output")
            },
        }
    }

    /// The SDK error for this error: a structured output failure with this error's retry
    /// classification and message.
    pub fn into_agent_error(self) -> (res: AgentError)
        ensures
            res.kind == AgentErrorKind::StructuredOutputFailure,
            res.retry == self.retry_classification_spec(),
            res.message@ == self.message_spec(),
    {
        let retry = self.retry_classification();
        let message = self.message();
        AgentError::new(AgentErrorKind::StructuredOutputFailure, retry, message)
    }
}

/// A typed value decoded from the content that a content ref names.
#[derive(Clone, Debug)]
pub struct DecodedTypedOutput<T> {
    pub content_ref: ContentRef,
    pub output: T,
}

impl<T> DecodedTypedOutput<T> {
    /// Pairs a decoded value with the content ref it was decoded from.
    pub fn new(content_ref: ContentRef, output: T) -> (res: Self)
        ensures
            res.content_ref == content_ref,
            res.output == output,
    {
        DecodedTypedOutput { content_ref, output }
    }
}

/// Decodes the canonical value behind a content ref into a typed value; hosts implement it.
pub trait TypedOutputDeserializer<T> {
    /// Whether decoding `content_ref` may give `res`; each implementation says what its
    /// decoder returns.
    spec fn decodes(&self, content_ref: ContentRef, res: Result<DecodedTypedOutput<T>, TypedOutputError>) -> bool;

    /// Decodes the value that `content_ref` names.
    fn deserialize(&self, content_ref: &ContentRef) -> (res: Result<DecodedTypedOutput<T>, TypedOutputError>)
        ensures
            self.decodes(*content_ref, res),
    ;
}

/// A typed structured output, with the evidence of the validated output it came from.
#[derive(Clone, Debug)]
pub struct StructuredOutputResult<T> {
    pub schema_id: OutputSchemaId,
    pub schema_version: SchemaVersion,
    pub validated_output_id: ValidatedOutputId,
    pub validation_attempts: Vec<ValidationAttemptId>,
    pub repair_attempts: Vec<RepairAttemptId>,
    pub source_attempt_ids: Vec<AttemptId>,
    pub output: T,
    pub output_ref: ContentRef,
    pub lineage: OutputLineage,
    pub policy_refs: Vec<PolicyRef>,
    pub privacy: PrivacyClass,
    pub redacted_summary: String,
}

impl<T> StructuredOutputResult<T> {
    /// Whether this result carries the evidence of `validated_output`.
    pub open spec fn carries(&self, validated_output: ValidatedOutput) -> bool {
        &&& self.schema_id == validated_output.schema_id
        &&& self.schema_version == validated_output.schema_version
        &&& self.validated_output_id == validated_output.output_id
        &&& self.validation_attempts@ == validated_output.validation_attempts@
        &&& self.repair_attempts@ == validated_output.repair_attempts@
        &&& self.source_attempt_ids@ == validated_output.source_attempt_ids@
        &&& self.output_ref == validated_output.canonical_value_ref
        &&& self.lineage.same_as(&validated_output.lineage)
        &&& self.policy_refs@ == validated_output.policy_refs@
        &&& self.privacy == validated_output.privacy
        &&& self.redacted_summary == validated_output.redacted_summary
    }

    /// The result for a value decoded from `validated_output`'s canonical value; fails when
    /// the decoder read another content ref.
    pub fn from_decoded(validated_output: &ValidatedOutput, decoded: DecodedTypedOutput<T>) -> (res: Result<
        Self,
        TypedOutputError,
    >)
        ensures
            content_ref_key_spec(decoded.content_ref) != content_ref_key_spec(validated_output.canonical_value_ref)
                ==> res == Err::<Self, TypedOutputError>(
                TypedOutputError::CanonicalValueRefMismatch { validated_output_id: validated_output.output_id },
            ),
            content_ref_key_spec(decoded.content_ref) == content_ref_key_spec(validated_output.canonical_value_ref)
                ==> res is Ok && res.unwrap().carries(*validated_output) && res.unwrap().output == decoded.output,
    {
        let decoded_key = content_ref_key(&decoded.content_ref);
        let canonical_key = content_ref_key(&validated_output.canonical_value_ref);
        if decoded_key != canonical_key {
            return Err(TypedOutputError::CanonicalValueRefMismatch {
                validated_output_id: validated_output.output_id.clone(),
            });
        }
        let validation_attempts = validated_output.validation_attempts.clone();
        let repair_attempts = validated_output.repair_attempts.clone();
        let source_attempt_ids = validated_output.source_attempt_ids.clone();
        let policy_refs = validated_output.policy_refs.clone();
        proof {
            assert(validation_attempts@ =~= validated_output.validation_attempts@);
            assert(repair_attempts@ =~= validated_output.repair_attempts@);
            assert(source_attempt_ids@ =~= validated_output.source_attempt_ids@);
            assert(policy_refs@ =~= validated_output.policy_refs@);
        }
        Ok(StructuredOutputResult {
            schema_id: validated_output.schema_id.clone(),
            schema_version: validated_output.schema_version,
            validated_output_id: validated_output.output_id.clone(),
            validation_attempts,
            repair_attempts,
            source_attempt_ids,
            output: decoded.output,
            output_ref: validated_output.canonical_value_ref.clone(),
            lineage: validated_output.lineage.clone(),
            policy_refs,
            privacy: validated_output.privacy,
            redacted_summary: validated_output.redacted_summary.clone(),
        })
    }

    /// Checks `publication` against `validated_output`, decodes the canonical value with
    /// `deserializer`, and builds the result. The decoder's own errors pass through.
    pub fn from_publication<D: TypedOutputDeserializer<T>>(
        validated_output: &ValidatedOutput,
        publication: &TypedResultPublicationRecord,
        deserializer: &D,
    ) -> (res: Result<Self, TypedOutputError>)
        ensures
            publication.check_against(*validated_output) is Err ==> res == Err::<Self, TypedOutputError>(
                publication.check_against(*validated_output)->Err_0,
            ),
            res is Ok ==> publication.check_against(*validated_output) is Ok && res.unwrap().carries(*validated_output),
            publication.check_against(*validated_output) is Ok ==> exists|r: Result<DecodedTypedOutput<T>, TypedOutputError>|
                #[trigger] deserializer.decodes(validated_output.canonical_value_ref, r) && match r {
                    Err(e) => res == Err::<Self, TypedOutputError>(e),
                    Ok(d) => (content_ref_key_spec(d.content_ref) != content_ref_key_spec(
                        validated_output.canonical_value_ref,
                    ) ==> res == Err::<Self, TypedOutputError>(
                        TypedOutputError::CanonicalValueRefMismatch { validated_output_id: validated_output.output_id },
                    )) && (content_ref_key_spec(d.content_ref) == content_ref_key_spec(validated_output.canonical_value_ref)
                        ==> res is Ok && res.unwrap().output == d.output),
                },
    {
        match publication.validate_against_output(validated_output) {
            Err(e) => {
                return Err(e);
            },
            Ok(()) => {},
        }
        match deserializer.deserialize(&validated_output.canonical_value_ref) {
            Err(e) => Err(e),
            Ok(decoded) => Self::from_decoded(validated_output, decoded),
        }
    }
}

/// A table from text keys to values, with distinct keys, kept in insertion order.
struct KeyedTable<V> {
    keys: Vec<String>,
    values: Vec<V>,
}

spec fn key_index(keys: Seq<String>, key: Seq<char>) -> int {
    choose|i: int| 0 <= i < keys.len() && (#[trigger] keys[i])@ == key
}

impl<V> View for KeyedTable<V> {
    type V = Map<Seq<char>, V>;

    closed spec fn view(&self) -> Map<Seq<char>, V> {
        Map::new(
            |key: Seq<char>| exists|i: int| 0 <= i < self.keys@.len() && (#[trigger] self.keys@[i])@ == key,
            |key: Seq<char>| self.values@[key_index(self.keys@, key)],
        )
    }
}

impl<V> KeyedTable<V> {
    spec fn wf(&self) -> bool {
        &&& self.keys@.len() == self.values@.len()
        &&& forall|i: int, j: int|
            0 <= i < self.keys@.len() && 0 <= j < self.keys@.len() && i != j ==> (#[trigger] self.keys@[i])@
                != (#[trigger] self.keys@[j])@
    }

    proof fn lemma_entry(&self, i: int)
        requires
            self.wf(),
            0 <= i < self.keys@.len(),
        ensures
            self@.dom().contains(self.keys@[i]@),
            self@[self.keys@[i]@] == self.values@[i],
    {
        let j = key_index(self.keys@, self.keys@[i]@);
        assert(self.keys@[j]@ == self.keys@[i]@);
    }

    proof fn lemma_key(&self, key: Seq<char>) -> (i: int)
        requires
            self.wf(),
            self@.dom().contains(key),
        ensures
            0 <= i < self.keys@.len(),
            self.keys@[i]@ == key,
            self@[key] == self.values@[i],
    {
        let i = key_index(self.keys@, key);
        self.lemma_entry(i);
        i
    }

    fn new() -> (res: Self)
        ensures
            res.wf(),
            res@ == Map::<Seq<char>, V>::empty(),
    {
        let res = KeyedTable { keys: Vec::new(), values: Vec::new() };
        proof {
            assert(res@ =~= Map::<Seq<char>, V>::empty());
        }
        res
    }

    fn len(&self) -> (n: usize)
        requires
            self.wf(),
        ensures
            n == self.keys@.len(),
    {
        self.keys.len()
    }

    fn find(&self, key: &str) -> (res: Option<usize>)
        requires
            self.wf(),
        ensures
            match res {
                Some(i) => i < self.keys@.len() && self.keys@[i as int]@ == key@ && self@.dom().contains(key@)
                    && self@[key@] == self.values@[i as int],
                None => !self@.dom().contains(key@),
            },
    {
        let mut i: usize = 0;
        while i < self.keys.len()
            invariant
                self.wf(),
                0 <= i <= self.keys@.len(),
                forall|k: int| 0 <= k < i ==> (#[trigger] self.keys@[k])@ != key@,
            decreases self.keys@.len() - i,
        {
            if str_eq(self.keys[i].as_str(), key) {
                proof {
                    self.lemma_entry(i as int);
                }
                return Some(i);
            }
            i = i + 1;
        }
        None
    }

    fn insert(&mut self, key: String, value: V)
        requires
            old(self).wf(),
        ensures
            final(self).wf(),
            final(self)@ == old(self)@.insert(key@, value),
    {
        let ghost before = *self;
        match self.find(key.as_str()) {
            Some(i) => {
                self.values.set(i, value);
                proof {
                    assert forall|k: Seq<char>| #[trigger] self@.dom().contains(k) == before@.insert(key@, value).dom().contains(k) by {
                        if before@.dom().contains(k) {
                            let j = before.lemma_key(k);
                            assert(self.keys@[j]@ == k);
                        }
                    }
                    assert forall|k: Seq<char>| #[trigger] self@.dom().contains(k) implies self@[k] == before@.insert(key@, value)[k] by {
                        let j = key_index(self.keys@, k);
                        assert(self.keys@[j]@ == k);
                        if k != key@ {
                            before.lemma_entry(j);
                        }
                    }
                    assert(self@ =~= before@.insert(key@, value));
                }
            },
            None => {
                self.keys.push(key);
                self.values.push(value);
                proof {
                    let n = before.keys@.len() as int;
                    assert forall|i: int, j: int|
                        0 <= i < self.keys@.len() && 0 <= j < self.keys@.len() && i != j implies (#[trigger] self.keys@[i])@
                            != (#[trigger] self.keys@[j])@ by {
                        if i == n {
                            assert(before@.dom().contains(self.keys@[j]@));
                        }
                        if j == n {
                            assert(before@.dom().contains(self.keys@[i]@));
                        }
                    }
                    assert(self.wf());
                    assert forall|k: Seq<char>| #[trigger] self@.dom().contains(k) == before@.insert(key@, value).dom().contains(k) by {
                        if before@.dom().contains(k) {
                            let j = before.lemma_key(k);
                            assert(self.keys@[j]@ == k);
                        }
                        if k == key@ {
                            assert(self.keys@[n]@ == k);
                        }
                    }
                    assert forall|k: Seq<char>| #[trigger] self@.dom().contains(k) implies self@[k] == before@.insert(key@, value)[k] by {
                        let j = key_index(self.keys@, k);
                        assert(self.keys@[j]@ == k);
                        self.lemma_entry(j);
                        if j < n {
                            before.lemma_entry(j);
                        }
                    }
                    assert(self@ =~= before@.insert(key@, value));
                }
            },
        }
    }
}

/// The map from report keys to report refs that `refs` gives, later entries replacing
/// earlier ones with the same key.
pub open spec fn report_ref_map(refs: Seq<ValidationReportRef>) -> Map<Seq<char>, ValidationReportRef>
    decreases refs.len(),
{
    if refs.len() == 0 {
        Map::empty()
    } else {
        report_ref_map(refs.drop_last()).insert(content_ref_key_spec(refs.last().report_ref), refs.last())
    }
}

/// Two report maps have the same keys and equal refs under each key.
pub open spec fn report_maps_match(
    a: Map<Seq<char>, ValidationReportRef>,
    b: Map<Seq<char>, ValidationReportRef>,
) -> bool {
    &&& a.dom() == b.dom()
    &&& forall|k: Seq<char>| #[trigger] a.dom().contains(k) ==> a[k].value_eq(&b[k])
}

/// Key `k` of an output's report map has no equal successful report.
pub open spec fn report_key_fails(
    successful: Map<Seq<char>, ValidationReportRef>,
    output_refs: Map<Seq<char>, ValidationReportRef>,
    k: Seq<char>,
) -> bool {
    &&& output_refs.dom().contains(k)
    &&& (!successful.dom().contains(k) || !successful[k].value_eq(&output_refs[k]))
}

/// The least failing key (in `str` order) has no successful report at all.
pub open spec fn least_failing_key_unvalidated(
    successful: Map<Seq<char>, ValidationReportRef>,
    output_refs: Map<Seq<char>, ValidationReportRef>,
) -> bool {
    exists|k: Seq<char>|
        #[trigger] report_key_fails(successful, output_refs, k) && !successful.dom().contains(k) && (forall|k2: Seq<char>|
            #[trigger] report_key_fails(successful, output_refs, k2) ==> k2 == k || seq_lt(k, k2))
}

/// One step of the publication order check, from the successful reports by key and the
/// validated outputs' report maps by output id.
pub open spec fn publication_step(
    successful: Map<Seq<char>, ValidationReportRef>,
    outputs: Map<Seq<char>, Map<Seq<char>, ValidationReportRef>>,
    step: ValidatedOutputPublicationStep,
) -> Result<(Map<Seq<char>, ValidationReportRef>, Map<Seq<char>, Map<Seq<char>, ValidationReportRef>>), TypedOutputError> {
    match step {
        ValidatedOutputPublicationStep::ValidationReport(report) => if report.status == ValidationStatus::Passed {
            Ok((successful.insert(content_ref_key_spec(report.validation_report_ref), report.to_ref_spec()), outputs))
        } else {
            Ok((successful, outputs))
        },
        ValidatedOutputPublicationStep::ValidatedOutput(output) => match output.shape_check() {
            Err(e) => Err(e),
            Ok(()) => {
                let output_refs = report_ref_map(output.validation_report_refs@);
                if exists|k: Seq<char>| #[trigger] report_key_fails(successful, output_refs, k) {
                    if least_failing_key_unvalidated(successful, output_refs) {
                        Err(TypedOutputError::PublicationBeforeValidation { validated_output_id: output.output_id })
                    } else {
                        Err(TypedOutputError::PublicationEvidenceMismatch { validated_output_id: output.output_id })
                    }
                } else {
                    Ok((successful, outputs.insert(output.output_id@, output_refs)))
                }
            },
        },
        ValidatedOutputPublicationStep::TypedResultPublication(publication) => {
            let id = publication.validated_output_id;
            let refs = publication.validation_report_refs@;
            if !outputs.dom().contains(id@) {
                Err(TypedOutputError::PublicationBeforeValidation { validated_output_id: id })
            } else if refs.len() == 0 {
                Err(TypedOutputError::MissingValidationReport { output_id: id })
            } else if !report_maps_match(report_ref_map(refs), outputs[id@]) {
                Err(TypedOutputError::PublicationEvidenceMismatch { validated_output_id: id })
            } else if exists|i: int|
                0 <= i < refs.len() && (!successful.dom().contains(content_ref_key_spec((#[trigger] refs[i]).report_ref))
                    || !outputs[id@].dom().contains(content_ref_key_spec(refs[i].report_ref))) {
                Err(TypedOutputError::PublicationBeforeValidation { validated_output_id: id })
            } else {
                Ok((successful, outputs))
            }
        },
    }
}

/// Outcome of checking `steps` in order from the given state: the first step's error, if any.
pub open spec fn publication_order_check(
    successful: Map<Seq<char>, ValidationReportRef>,
    outputs: Map<Seq<char>, Map<Seq<char>, ValidationReportRef>>,
    steps: Seq<ValidatedOutputPublicationStep>,
) -> Result<(), TypedOutputError>
    decreases steps.len(),
{
    if steps.len() == 0 {
        Ok(())
    } else {
        match publication_step(successful, outputs, steps[0]) {
            Err(e) => Err(e),
            Ok((s, o)) => publication_order_check(s, o, steps.drop_first()),
        }
    }
}

fn report_ref_table(refs: &Vec<ValidationReportRef>) -> (res: KeyedTable<ValidationReportRef>)
    ensures
        res.wf(),
        res@ == report_ref_map(refs@),
{
    let mut table: KeyedTable<ValidationReportRef> = KeyedTable::new();
    let mut i: usize = 0;
    while i < refs.len()
        invariant
            0 <= i <= refs@.len(),
            table.wf(),
            table@ == report_ref_map(refs@.take(i as int)),
        decreases refs@.len() - i,
    {
        proof {
            assert(refs@.take(i + 1).drop_last() =~= refs@.take(i as int));
        }
        table.insert(content_ref_key(&refs[i].report_ref), refs[i].clone());
        i = i + 1;
    }
    proof {
        assert(refs@.take(refs@.len() as int) =~= refs@);
    }
    table
}

fn report_tables_match(a: &KeyedTable<ValidationReportRef>, b: &KeyedTable<ValidationReportRef>) -> (r: bool)
    requires
        a.wf(),
        b.wf(),
    ensures
        r == report_maps_match(a@, b@),
{
    let mut i: usize = 0;
    while i < a.len()
        invariant
            a.wf(),
            b.wf(),
            0 <= i <= a.keys@.len(),
            forall|k: int| 0 <= k < i ==> #[trigger] b@.dom().contains(a.keys@[k]@) && a@[a.keys@[k]@].value_eq(
                &b@[a.keys@[k]@],
            ),
        decreases a.keys@.len() - i,
    {
        proof {
            a.lemma_entry(i as int);
        }
        match b.find(a.keys[i].as_str()) {
            None => {
                return false;
            },
            Some(j) => {
                if !a.values[i].equals(&b.values[j]) {
                    return false;
                }
                assert(b@.dom().contains(a.keys@[i as int]@) && a@[a.keys@[i as int]@].value_eq(&b@[a.keys@[i as int]@]));
            },
        }
        i = i + 1;
    }
    let mut j: usize = 0;
    while j < b.len()
        invariant
            a.wf(),
            b.wf(),
            0 <= j <= b.keys@.len(),
            forall|k: int| 0 <= k < j ==> #[trigger] a@.dom().contains(b.keys@[k]@),
        decreases b.keys@.len() - j,
    {
        if a.find(b.keys[j].as_str()).is_none() {
            proof {
                b.lemma_entry(j as int);
            }
            return false;
        }
        j = j + 1;
    }
    proof {
        assert forall|k: Seq<char>| #[trigger] a@.dom().contains(k) implies b@.dom().contains(k) && a@[k].value_eq(&b@[k]) by {
            let i = a.lemma_key(k);
            assert(b@.dom().contains(a.keys@[i]@));
        }
        assert forall|k: Seq<char>| #[trigger] b@.dom().contains(k) implies a@.dom().contains(k) by {
            let j = b.lemma_key(k);
            assert(a@.dom().contains(b.keys@[j]@));
        }
        assert(a@.dom() =~= b@.dom());
    }
    true
}

/// `None` when every key of `output_refs` has an equal successful report; otherwise whether
/// the least failing key has no successful report.
fn output_reports_failure(
    successful: &KeyedTable<ValidationReportRef>,
    output_refs: &KeyedTable<ValidationReportRef>,
) -> (res: Option<bool>)
    requires
        successful.wf(),
        output_refs.wf(),
    ensures
        res is None <==> !exists|k: Seq<char>| #[trigger] report_key_fails(successful@, output_refs@, k),
        res is Some ==> res.unwrap() == least_failing_key_unvalidated(successful@, output_refs@),
{
    let ghost s = successful@;
    let ghost o = output_refs@;
    let mut best: Option<usize> = None;
    let mut best_missing: bool = false;
    let n = output_refs.len();
    let mut j: usize = 0;
    while j < n
        invariant
            successful.wf(),
            output_refs.wf(),
            s == successful@,
            o == output_refs@,
            n == output_refs.keys@.len(),
            0 <= j <= n,
            best is None ==> forall|k: int| 0 <= k < j ==> !report_key_fails(s, o, #[trigger] output_refs.keys@[k]@),
            best is Some ==> {
                let b = best.unwrap() as int;
                &&& 0 <= b < j
                &&& report_key_fails(s, o, output_refs.keys@[b]@)
                &&& best_missing == !s.dom().contains(output_refs.keys@[b]@)
                &&& forall|k: int|
                    0 <= k < j && report_key_fails(s, o, #[trigger] output_refs.keys@[k]@) ==> k == b || seq_lt(
                        output_refs.keys@[b]@,
                        output_refs.keys@[k]@,
                    )
            },
        decreases n - j,
    {
        proof {
            output_refs.lemma_entry(j as int);
        }
        let key = output_refs.keys[j].as_str();
        let (fails, missing) = match successful.find(key) {
            None => (true, true),
            Some(si) => (!successful.values[si].equals(&output_refs.values[j]), false),
        };
        if fails {
            match best {
                None => {
                    best = Some(j);
                    best_missing = missing;
                },
                Some(b) => {
                    if str_lt(key, output_refs.keys[b].as_str()) {
                        proof {
                            assert forall|k: int|
                                0 <= k < j && report_key_fails(s, o, #[trigger] output_refs.keys@[k]@) implies seq_lt(
                                output_refs.keys@[j as int]@,
                                output_refs.keys@[k]@,
                            ) by {
                                if k != b {
                                    lemma_seq_lt_transitive(
                                        output_refs.keys@[j as int]@,
                                        output_refs.keys@[b as int]@,
                                        output_refs.keys@[k]@,
                                    );
                                }
                            }
                        }
                        best = Some(j);
                        best_missing = missing;
                    } else {
                        proof {
                            lemma_seq_lt_total(output_refs.keys@[j as int]@, output_refs.keys@[b as int]@);
                        }
                    }
                },
            }
        }
        j = j + 1;
    }
    match best {
        None => {
            proof {
                assert forall|k: Seq<char>| !#[trigger] report_key_fails(s, o, k) by {
                    if o.dom().contains(k) {
                        let i = output_refs.lemma_key(k);
                    }
                }
            }
            None
        },
        Some(b) => {
            proof {
                let kb = output_refs.keys@[b as int]@;
                assert(report_key_fails(s, o, kb));
                assert forall|k2: Seq<char>| #[trigger] report_key_fails(s, o, k2) implies k2 == kb || seq_lt(kb, k2) by {
                    let i = output_refs.lemma_key(k2);
                }
                if !best_missing {
                    if least_failing_key_unvalidated(s, o) {
                        let k = choose|k: Seq<char>|
                            #[trigger] report_key_fails(s, o, k) && !s.dom().contains(k) && (forall|k2: Seq<char>|
                                #[trigger] report_key_fails(s, o, k2) ==> k2 == k || seq_lt(k, k2));
                        lemma_seq_lt_asymmetric(k, kb);
                    }
                }
            }
            Some(best_missing)
        },
    }
}

/// Whether the key of every ref in `refs` has a successful report and is among `output_refs`.
fn reports_validated(
    successful: &KeyedTable<ValidationReportRef>,
    output_refs: &KeyedTable<ValidationReportRef>,
    refs: &Vec<ValidationReportRef>,
) -> (r: bool)
    requires
        successful.wf(),
        output_refs.wf(),
    ensures
        r == !exists|i: int|
            0 <= i < refs@.len() && (!successful@.dom().contains(content_ref_key_spec((#[trigger] refs@[i]).report_ref))
                || !output_refs@.dom().contains(content_ref_key_spec(refs@[i].report_ref))),
{
    let mut r: usize = 0;
    while r < refs.len()
        invariant
            0 <= r <= refs@.len(),
            successful.wf(),
            output_refs.wf(),
            forall|k: int|
                0 <= k < r ==> successful@.dom().contains(content_ref_key_spec((#[trigger] refs@[k]).report_ref))
                    && output_refs@.dom().contains(content_ref_key_spec(refs@[k].report_ref)),
        decreases refs@.len() - r,
    {
        let key = content_ref_key(&refs[r].report_ref);
        if successful.find(key.as_str()).is_none() || output_refs.find(key.as_str()).is_none() {
            return false;
        }
        r = r + 1;
    }
    true
}

/// Maps each validated output id to its report map.
spec fn outputs_view(
    outputs: KeyedTable<KeyedTable<ValidationReportRef>>,
) -> Map<Seq<char>, Map<Seq<char>, ValidationReportRef>> {
    outputs@.map_values(|table: KeyedTable<ValidationReportRef>| table@)
}

spec fn outputs_wf(outputs: KeyedTable<KeyedTable<ValidationReportRef>>) -> bool {
    &&& outputs.wf()
    &&& forall|k: Seq<char>| #[trigger] outputs@.dom().contains(k) ==> outputs@[k].wf()
}

/// Checks that, in `steps`, every validated output comes after passing reports equal to its
/// evidence, and every typed result publication after its validated output, with the same
/// evidence and only validated reports.
pub fn validate_typed_result_publication_order(steps: &[ValidatedOutputPublicationStep]) -> (res: Result<
    (),
    TypedOutputError,
>)
    ensures
        res == publication_order_check(Map::empty(), Map::empty(), steps@),
{
    let mut successful: KeyedTable<ValidationReportRef> = KeyedTable::new();
    let mut outputs: KeyedTable<KeyedTable<ValidationReportRef>> = KeyedTable::new();
    proof {
        assert(outputs_view(outputs) =~= Map::<Seq<char>, Map<Seq<char>, ValidationReportRef>>::empty());
        assert(steps@.skip(0) =~= steps@);
    }
    let mut i: usize = 0;
    while i < steps.len()
        invariant
            0 <= i <= steps@.len(),
            successful.wf(),
            outputs_wf(outputs),
            publication_order_check(Map::empty(), Map::empty(), steps@) == publication_order_check(
                successful@,
                outputs_view(outputs),
                steps@.skip(i as int),
            ),
        decreases steps@.len() - i,
    {
        let ghost s0 = successful@;
        let ghost o0 = outputs_view(outputs);
        proof {
            assert(steps@.skip(i as int)[0] == steps@[i as int]);
            assert(steps@.skip(i as int).drop_first() =~= steps@.skip(i + 1));
        }
        match &steps[i] {
            ValidatedOutputPublicationStep::ValidationReport(report) => {
                if report.status.is_success() {
                    successful.insert(content_ref_key(&report.validation_report_ref), report.to_ref());
                }
            },
            ValidatedOutputPublicationStep::ValidatedOutput(output) => {
                match output.validate_shape() {
                    Err(e) => {
                        return Err(e);
                    },
                    Ok(()) => {},
                }
                let output_refs = report_ref_table(&output.validation_report_refs);
                match output_reports_failure(&successful, &output_refs) {
                    Some(unvalidated) => {
                        if unvalidated {
                            return Err(TypedOutputError::PublicationBeforeValidation {
                                validated_output_id: output.output_id.clone(),
                            });
                        } else {
                            return Err(TypedOutputError::PublicationEvidenceMismatch {
                                validated_output_id: output.output_id.clone(),
                            });
                        }
                    },
                    None => {},
                }
                let ghost before = outputs;
                let ghost refs_view = output_refs@;
                outputs.insert(output.output_id.as_str().to_string(), output_refs);
                proof {
                    assert(outputs_view(outputs) =~= outputs_view(before).insert(output.output_id@, refs_view));
                }
            },
            ValidatedOutputPublicationStep::TypedResultPublication(publication) => {
                let id = publication.validated_output_id.as_str();
                match outputs.find(id) {
                    None => {
                        return Err(TypedOutputError::PublicationBeforeValidation {
                            validated_output_id: publication.validated_output_id.clone(),
                        });
                    },
                    Some(oi) => {
                        let output_refs = &outputs.values[oi];
                        proof {
                            assert(outputs_view(outputs)[id@] == output_refs@);
                        }
                        if publication.validation_report_refs.len() == 0 {
                            return Err(TypedOutputError::MissingValidationReport {
                                output_id: publication.validated_output_id.clone(),
                            });
                        }
                        let publication_refs = report_ref_table(&publication.validation_report_refs);
                        if !report_tables_match(&publication_refs, output_refs) {
                            return Err(TypedOutputError::PublicationEvidenceMismatch {
                                validated_output_id: publication.validated_output_id.clone(),
                            });
                        }
                        if !reports_validated(&successful, output_refs, &publication.validation_report_refs) {
                            return Err(TypedOutputError::PublicationBeforeValidation {
                                validated_output_id: publication.validated_output_id.clone(),
                            });
                        }
                    },
                }
            },
        }
        i = i + 1;
    }
    Ok(())
}

/// A publication of a well-formed validated output passes the check against that output.
pub proof fn lemma_published_validates(validated_output: ValidatedOutput, publication: TypedResultPublicationRecord)
    requires
        validated_output.shape_check() is Ok,
        publication.records(
            validated_output,
            TypedResultPublicationStatus::Published,
            validated_output.redacted_summary@,
        ),
    ensures
        publication.check_against(validated_output) == Ok::<(), TypedOutputError>(()),
{
    assert(report_ref_seqs_equal(publication.validation_report_refs@, validated_output.validation_report_refs@));
}

/// A policy denial is refused by the check against the output it names.
pub proof fn lemma_policy_denied_is_refused(
    validated_output: ValidatedOutput,
    denial: TypedResultPublicationRecord,
    redacted_summary: Seq<char>,
)
    requires
        denial.records(validated_output, TypedResultPublicationStatus::PolicyDenied, redacted_summary),
    ensures
        denial.check_against(validated_output) == Err::<(), TypedOutputError>(
            TypedOutputError::PublicationPolicyDenied { validated_output_id: validated_output.output_id },
        ),
{
}

/// A typed result publication that no validated output precedes is refused, whatever follows.
pub proof fn lemma_publication_before_output_refused(
    successful: Map<Seq<char>, ValidationReportRef>,
    publication: TypedResultPublicationRecord,
    rest: Seq<ValidatedOutputPublicationStep>,
)
    ensures
        publication_order_check(
            successful,
            Map::empty(),
            seq![ValidatedOutputPublicationStep::TypedResultPublication(publication)] + rest,
        ) == Err::<(), TypedOutputError>(
            TypedOutputError::PublicationBeforeValidation { validated_output_id: publication.validated_output_id },
        ),
{
    let steps = seq![ValidatedOutputPublicationStep::TypedResultPublication(publication)] + rest;
    assert(steps[0] == ValidatedOutputPublicationStep::TypedResultPublication(publication));
}

/// A passing report, then an output built from it, then that output's publication, pass
/// the order check.
pub proof fn lemma_report_output_publication_in_order(
    params: ValidatedOutputParams,
    report: ValidationReportRecord,
    validated_output: ValidatedOutput,
    publication: TypedResultPublicationRecord,
)
    requires
        report.status == ValidationStatus::Passed,
        validated_output.built_from(params, report),
        validated_output.shape_check() is Ok,
        publication.records(
            validated_output,
            TypedResultPublicationStatus::Published,
            validated_output.redacted_summary@,
        ),
    ensures
        publication_order_check(
            Map::empty(),
            Map::empty(),
            seq![
                ValidatedOutputPublicationStep::ValidationReport(report),
                ValidatedOutputPublicationStep::ValidatedOutput(validated_output),
                ValidatedOutputPublicationStep::TypedResultPublication(publication),
            ],
        ) == Ok::<(), TypedOutputError>(()),
{
    let steps = seq![
        ValidatedOutputPublicationStep::ValidationReport(report),
        ValidatedOutputPublicationStep::ValidatedOutput(validated_output),
        ValidatedOutputPublicationStep::TypedResultPublication(publication),
    ];
    let key = content_ref_key_spec(report.validation_report_ref);
    let r = report.to_ref_spec();
    let s1 = Map::<Seq<char>, ValidationReportRef>::empty().insert(key, r);
    let o0 = Map::<Seq<char>, Map<Seq<char>, ValidationReportRef>>::empty();
    assert(publication_step(Map::empty(), o0, steps[0]) == Ok::<_, TypedOutputError>((s1, o0)));
    let refs = validated_output.validation_report_refs@;
    assert(refs.drop_last() =~= Seq::<ValidationReportRef>::empty());
    assert(refs.last() == r);
    assert(report_ref_map(refs.drop_last()) =~= Map::<Seq<char>, ValidationReportRef>::empty());
    let orm = report_ref_map(refs);
    assert(orm =~= Map::<Seq<char>, ValidationReportRef>::empty().insert(key, r));
    assert forall|k: Seq<char>| !#[trigger] report_key_fails(s1, orm, k) by {}
    let o2 = o0.insert(validated_output.output_id@, orm);
    assert(publication_step(s1, o0, steps[1]) == Ok::<_, TypedOutputError>((s1, o2)));
    assert(publication.validation_report_refs@ == refs);
    assert(report_maps_match(report_ref_map(refs), orm));
    assert(refs[0] == r);
    assert(publication_step(s1, o2, steps[2]) == Ok::<_, TypedOutputError>((s1, o2)));
    let rest1 = steps.drop_first();
    let rest2 = rest1.drop_first();
    assert(rest1[0] == steps[1]);
    assert(rest2[0] == steps[2]);
    assert(rest2.drop_first().len() == 0);
    assert(publication_order_check(s1, o2, rest2.drop_first()) == Ok::<(), TypedOutputError>(()));
    assert(publication_order_check(s1, o2, rest2) == Ok::<(), TypedOutputError>(()));
    assert(publication_order_check(s1, o0, rest1) == Ok::<(), TypedOutputError>(()));
}

/// A publication passes the check against a validated output only if it names that very
/// output, schema and canonical value (same content id and version text) and carries the
/// same validation evidence, in the current schema and with published status.
pub proof fn lemma_accepted_publication_matches_output(publication: TypedResultPublicationRecord, validated_output: ValidatedOutput)
    requires
        publication.check_against(validated_output) is Ok,
    ensures
        publication.record_schema_version == TYPED_RESULT_PUBLICATION_RECORD_SCHEMA_VERSION,
        publication.status == TypedResultPublicationStatus::Published,
        publication.validated_output_id@ == validated_output.output_id@,
        publication.schema_id@ == validated_output.schema_id@,
        publication.schema_version == validated_output.schema_version,
        publication.canonical_value_ref.content_id@ + "@"@ + publication.canonical_value_ref.version@
            == validated_output.canonical_value_ref.content_id@ + "@"@ + validated_output.canonical_value_ref.version@,
        publication.validation_report_refs@.len() > 0,
        publication.validation_report_refs@.len() == validated_output.validation_report_refs@.len(),
        forall|i: int|
            0 <= i < publication.validation_report_refs@.len() ==> (#[trigger] publication.validation_report_refs@[i]).value_eq(
                &validated_output.validation_report_refs@[i],
            ),
{
}

/// A published record of a well-formed validated output, with evidence, that names
/// another canonical value (another content id and version text) is refused as an
/// evidence mismatch.
pub proof fn lemma_other_canonical_value_is_mismatch(publication: TypedResultPublicationRecord, validated_output: ValidatedOutput)
    requires
        publication.record_schema_version == TYPED_RESULT_PUBLICATION_RECORD_SCHEMA_VERSION,
        publication.status == TypedResultPublicationStatus::Published,
        validated_output.shape_check() is Ok,
        publication.validation_report_refs@.len() > 0,
        publication.canonical_value_ref.content_id@ + "@"@ + publication.canonical_value_ref.version@
            != validated_output.canonical_value_ref.content_id@ + "@"@ + validated_output.canonical_value_ref.version@,
    ensures
        publication.check_against(validated_output) == Err::<(), TypedOutputError>(
            TypedOutputError::PublicationEvidenceMismatch { validated_output_id: publication.validated_output_id },
        ),
{
}

} // verus!
