use vstd::prelude::*;
use crate::domain::{AgentError, AgentErrorKind, ContentRefId, OutputSchemaId, PolicyKind, PolicyRef, RetryClassification, identifier_check, is_plain_id_char, lemma_plain_identifier, outcome_parts};
use crate::hashing::{lemma_fingerprint_identifier, sha256_fingerprint_of_text, sha256_fingerprint_spec};
use crate::policy::{ContentCapturePolicy};
use crate::text::{has_prefix, is_sha256_fingerprint, is_sha256_fingerprint_spec, str_eq, strip_prefix};

verus! {

/// Contract for a structured output: schema, validation, repair, and budgets.
#[derive(Debug)]
pub struct OutputContract {
    pub schema_id: OutputSchemaId,
    pub schema_version: SchemaVersion,
    pub dialect: OutputSchemaDialect,
    pub schema: OutputSchemaRef,
    pub mode: OutputMode,
    pub validation: ValidationPolicy,
    pub repair: RepairPolicy,
    pub retry_budget: RetryBudget,
    pub content_policy: ContentCapturePolicy,
    pub projection_hint: OutputProjectionHint,
}

impl OutputContract {
    /// Field-wise equality, with vectors compared by their contents.
    pub open spec fn same_as(&self, other: &Self) -> bool {
        &&& self.schema_id == other.schema_id
        &&& self.schema_version == other.schema_version
        &&& self.dialect == other.dialect
        &&& self.schema == other.schema
        &&& self.mode == other.mode
        &&& self.validation.same_as(&other.validation)
        &&& self.repair == other.repair
        &&& self.retry_budget == other.retry_budget
        &&& self.content_policy == other.content_policy
        &&& self.projection_hint == other.projection_hint
    }
}

impl Clone for OutputContract {
    fn clone(&self) -> (res: Self)
        ensures
            res.same_as(self),
    {
        OutputContract {
            schema_id: self.schema_id.clone(),
            schema_version: self.schema_version,
            dialect: self.dialect,
            schema: self.schema.clone(),
            mode: self.mode,
            validation: self.validation.clone(),
            repair: self.repair.clone(),
            retry_budget: self.retry_budget,
            content_policy: self.content_policy.clone(),
            projection_hint: self.projection_hint,
        }
    }
}

/// Semantic version of an output schema.
#[derive(Clone, Copy, Debug, PartialEq, Eq, Structural)]
pub struct SchemaVersion {
    pub major: u16,
    pub minor: u16,
    pub patch: u16,
}

/// Schema dialect.
#[derive(Clone, Copy, Debug, PartialEq, Eq, Structural)]
pub enum OutputSchemaDialect {
    JsonSchema2020_12Subset,
    RustSerdeTypeName,
    HostRegistered,
}

impl crate::domain::ValueEq for OutputSchemaDialect {
    open spec fn value_eq(&self, other: &Self) -> bool {
        *self == *other
    }

    fn equals(&self, other: &Self) -> (r: bool) {
        *self == *other
    }
}

/// Where an output schema lives; the inline form holds the canonical JSON text of the redacted schema.
#[derive(Debug)]
pub enum OutputSchemaRef {
    InlineJson { content_hash: ContentHash, redacted_schema_json: String },
    ContentStore { content_ref: ContentRefId, content_hash: ContentHash },
    RustSerde { rust_type_name: TypeName, crate_name: CrateName, crate_version: String, generated_schema_ref: ContentRefId, content_hash: ContentHash },
    HostRegistered { validator_ref: OutputValidatorRef, contract_version: SchemaVersion, content_hash: ContentHash },
}

impl Clone for OutputSchemaRef {
    fn clone(&self) -> (res: Self)
        ensures
            res == *self,
    {
        match self {
            OutputSchemaRef::InlineJson { content_hash, redacted_schema_json } => { OutputSchemaRef::InlineJson { content_hash: content_hash.clone(), redacted_schema_json: redacted_schema_json.clone() } }
            OutputSchemaRef::ContentStore { content_ref, content_hash } => { OutputSchemaRef::ContentStore { content_ref: content_ref.clone(), content_hash: content_hash.clone() } }
            OutputSchemaRef::RustSerde { rust_type_name, crate_name, crate_version, generated_schema_ref, content_hash } => { OutputSchemaRef::RustSerde { rust_type_name: rust_type_name.clone(), crate_name: crate_name.clone(), crate_version: crate_version.clone(), generated_schema_ref: generated_schema_ref.clone(), content_hash: content_hash.clone() } }
            OutputSchemaRef::HostRegistered { validator_ref, contract_version, content_hash } => { OutputSchemaRef::HostRegistered { validator_ref: validator_ref.clone(), contract_version: *contract_version, content_hash: content_hash.clone() } }
        }
    }
}

/// When output is produced.
#[derive(Clone, Copy, Debug, PartialEq, Eq, Structural)]
pub enum OutputMode {
    FinalOnly,
    IncrementalPreview,
}

impl crate::domain::ValueEq for OutputMode {
    open spec fn value_eq(&self, other: &Self) -> bool {
        *self == *other
    }

    fn equals(&self, other: &Self) -> (r: bool) {
        *self == *other
    }
}

/// How candidates are validated.
#[derive(Debug)]
pub struct ValidationPolicy {
    pub validator_ref: OutputValidatorRef,
    pub max_candidate_bytes: u64,
    pub max_errors_returned: u16,
    pub allow_additional_properties: bool,
    pub semantic_validators: Vec<SemanticValidatorRef>,
    pub timeout_ms: u64,
    pub failure_visibility: ValidationFailureVisibility,
}

impl ValidationPolicy {
    /// Field-wise equality, with vectors compared by their contents.
    pub open spec fn same_as(&self, other: &Self) -> bool {
        &&& self.validator_ref == other.validator_ref
        &&& self.max_candidate_bytes == other.max_candidate_bytes
        &&& self.max_errors_returned == other.max_errors_returned
        &&& self.allow_additional_properties == other.allow_additional_properties
        &&& self.semantic_validators@ == other.semantic_validators@
        &&& self.timeout_ms == other.timeout_ms
        &&& self.failure_visibility == other.failure_visibility
    }
}

impl Clone for ValidationPolicy {
    fn clone(&self) -> (res: Self)
        ensures
            res.same_as(self),
    {
        let semantic_validators_copy = self.semantic_validators.clone();
        proof { assert(semantic_validators_copy@ =~= self.semantic_validators@); }
        ValidationPolicy {
            validator_ref: self.validator_ref.clone(),
            max_candidate_bytes: self.max_candidate_bytes,
            max_errors_returned: self.max_errors_returned,
            allow_additional_properties: self.allow_additional_properties,
            semantic_validators: semantic_validators_copy,
            timeout_ms: self.timeout_ms,
            failure_visibility: self.failure_visibility,
        }
    }
}

/// What a validation failure exposes.
#[derive(Clone, Copy, Debug, PartialEq, Eq, Structural)]
pub enum ValidationFailureVisibility {
    RedactedSummary,
    ErrorCodesOnly,
}

impl crate::domain::ValueEq for ValidationFailureVisibility {
    open spec fn value_eq(&self, other: &Self) -> bool {
        *self == *other
    }

    fn equals(&self, other: &Self) -> (r: bool) {
        *self == *other
    }
}

/// How invalid candidates are repaired.
#[derive(Debug)]
pub struct RepairPolicy {
    pub repair_adapter_ref: RepairAdapterRef,
    pub max_repair_attempts: u8,
    pub include_schema_in_prompt: bool,
    pub include_redacted_errors: bool,
    pub include_candidate_content: CandidateContentRepairPolicy,
    pub backoff: RetryBackoff,
    pub on_exhausted: RepairExhaustedBehavior,
}

impl Clone for RepairPolicy {
    fn clone(&self) -> (res: Self)
        ensures
            res == *self,
    {
        RepairPolicy {
            repair_adapter_ref: self.repair_adapter_ref.clone(),
            max_repair_attempts: self.max_repair_attempts,
            include_schema_in_prompt: self.include_schema_in_prompt,
            include_redacted_errors: self.include_redacted_errors,
            include_candidate_content: self.include_candidate_content,
            backoff: self.backoff,
            on_exhausted: self.on_exhausted,
        }
    }
}

/// Attempt budget.
#[derive(Clone, Copy, Debug, PartialEq, Eq, Structural)]
pub struct RetryBudget {
    pub max_attempts: u8,
}

/// What candidate content a repair prompt carries.
#[derive(Clone, Copy, Debug, PartialEq, Eq, Structural)]
pub enum CandidateContentRepairPolicy {
    ContentRefOnly,
    RedactedCandidate,
    OmitCandidate,
}

impl crate::domain::ValueEq for CandidateContentRepairPolicy {
    open spec fn value_eq(&self, other: &Self) -> bool {
        *self == *other
    }

    fn equals(&self, other: &Self) -> (r: bool) {
        *self == *other
    }
}

/// Backoff between attempts.
#[derive(Clone, Copy, Debug, PartialEq, Eq, Structural)]
pub enum RetryBackoff {
    NoBackoff,
    Linear,
}

impl crate::domain::ValueEq for RetryBackoff {
    open spec fn value_eq(&self, other: &Self) -> bool {
        *self == *other
    }

    fn equals(&self, other: &Self) -> (r: bool) {
        *self == *other
    }
}

/// What happens when repairs are exhausted.
#[derive(Clone, Copy, Debug, PartialEq, Eq, Structural)]
pub enum RepairExhaustedBehavior {
    FailRun,
    ReturnValidationError,
}

impl crate::domain::ValueEq for RepairExhaustedBehavior {
    open spec fn value_eq(&self, other: &Self) -> bool {
        *self == *other
    }

    fn equals(&self, other: &Self) -> (r: bool) {
        *self == *other
    }
}

/// What the provider is told about the schema.
#[derive(Clone, Copy, Debug, PartialEq, Eq, Structural)]
pub struct OutputProjectionHint {
    pub provider_hint_policy: ProviderHintPolicy,
    pub include_schema_ref: bool,
}

/// Whether the provider must, may, or natively receives the schema.
#[derive(Clone, Copy, Debug, PartialEq, Eq, Structural)]
pub enum ProviderHintPolicy {
    SchemaRequired,
    SchemaOptional,
    ProviderNativeHint,
}

impl crate::domain::ValueEq for ProviderHintPolicy {
    open spec fn value_eq(&self, other: &Self) -> bool {
        *self == *other
    }

    fn equals(&self, other: &Self) -> (r: bool) {
        *self == *other
    }
}

/// Presets of an output contract.
#[derive(Clone, Copy, Debug, PartialEq, Eq, Structural)]
pub enum OutputPreset {
    StrictJsonSchema,
    FastLenient,
    ProviderAssisted,
}

impl crate::domain::ValueEq for OutputPreset {
    open spec fn value_eq(&self, other: &Self) -> bool {
        *self == *other
    }

    fn equals(&self, other: &Self) -> (r: bool) {
        *self == *other
    }
}

/// Content hash of a schema, `sha256:` and 64 hex digits when well formed.
#[derive(Debug)]
pub struct ContentHash(String);

impl View for ContentHash {
    type V = Seq<char>;

    closed spec fn view(&self) -> Seq<char> {
        self.0@
    }
}

impl Clone for ContentHash {
    fn clone(&self) -> (res: Self)
        ensures
            res == *self,
    {
        ContentHash(self.0.clone())
    }
}

impl crate::domain::ValueEq for ContentHash {
    open spec fn value_eq(&self, other: &Self) -> bool {
        self@ == other@
    }

    fn equals(&self, other: &Self) -> (r: bool) {
        let r = self.0 == other.0;
        proof {
            assert(self@ == self.0@ && other@ == other.0@);
            assert(r == (self@ == other@));
            assert(r == self.value_eq(other));
        }
        r
    }
}

impl ContentHash {
    /// Builds the identifier from a value that passes `validate_identifier`.
    pub fn new(value: String) -> (res: Self)
        requires
            crate::domain::identifier_check(value@) is Ok,
        ensures
            res@ == value@,
    {
        ContentHash(value)
    }

    /// Validates the value and builds the identifier, or returns the validation error.
    pub fn try_new(value: String) -> (res: Result<Self, crate::domain::IdValidationError>)
        ensures
            match res {
                Ok(id) => crate::domain::identifier_check(value@) is Ok && id@ == value@,
                Err(e) => crate::domain::identifier_check(value@) == Err::<(), crate::domain::IdValidationError>(e),
            },
    {
        match crate::domain::validate_identifier(value.as_str()) {
            Ok(()) => Ok(ContentHash(value)),
            Err(e) => Err(e),
        }
    }

    /// Returns the identifier text.
    pub fn as_str(&self) -> (res: &str)
        ensures
            res@ == self@,
    {
        self.0.as_str()
    }
}

/// Reference to an output validator.
#[derive(Debug)]
pub struct OutputValidatorRef(String);

impl View for OutputValidatorRef {
    type V = Seq<char>;

    closed spec fn view(&self) -> Seq<char> {
        self.0@
    }
}

impl Clone for OutputValidatorRef {
    fn clone(&self) -> (res: Self)
        ensures
            res == *self,
    {
        OutputValidatorRef(self.0.clone())
    }
}

impl crate::domain::ValueEq for OutputValidatorRef {
    open spec fn value_eq(&self, other: &Self) -> bool {
        self@ == other@
    }

    fn equals(&self, other: &Self) -> (r: bool) {
        let r = self.0 == other.0;
        proof {
            assert(self@ == self.0@ && other@ == other.0@);
            assert(r == (self@ == other@));
            assert(r == self.value_eq(other));
        }
        r
    }
}

impl OutputValidatorRef {
    /// Builds the identifier from a value that passes `validate_identifier`.
    pub fn new(value: String) -> (res: Self)
        requires
            crate::domain::identifier_check(value@) is Ok,
        ensures
            res@ == value@,
    {
        OutputValidatorRef(value)
    }

    /// Validates the value and builds the identifier, or returns the validation error.
    pub fn try_new(value: String) -> (res: Result<Self, crate::domain::IdValidationError>)
        ensures
            match res {
                Ok(id) => crate::domain::identifier_check(value@) is Ok && id@ == value@,
                Err(e) => crate::domain::identifier_check(value@) == Err::<(), crate::domain::IdValidationError>(e),
            },
    {
        match crate::domain::validate_identifier(value.as_str()) {
            Ok(()) => Ok(OutputValidatorRef(value)),
            Err(e) => Err(e),
        }
    }

    /// Returns the identifier text.
    pub fn as_str(&self) -> (res: &str)
        ensures
            res@ == self@,
    {
        self.0.as_str()
    }
}

/// Reference to a repair adapter.
#[derive(Debug)]
pub struct RepairAdapterRef(String);

impl View for RepairAdapterRef {
    type V = Seq<char>;

    closed spec fn view(&self) -> Seq<char> {
        self.0@
    }
}

impl Clone for RepairAdapterRef {
    fn clone(&self) -> (res: Self)
        ensures
            res == *self,
    {
        RepairAdapterRef(self.0.clone())
    }
}

impl crate::domain::ValueEq for RepairAdapterRef {
    open spec fn value_eq(&self, other: &Self) -> bool {
        self@ == other@
    }

    fn equals(&self, other: &Self) -> (r: bool) {
        let r = self.0 == other.0;
        proof {
            assert(self@ == self.0@ && other@ == other.0@);
            assert(r == (self@ == other@));
            assert(r == self.value_eq(other));
        }
        r
    }
}

impl RepairAdapterRef {
    /// Builds the identifier from a value that passes `validate_identifier`.
    pub fn new(value: String) -> (res: Self)
        requires
            crate::domain::identifier_check(value@) is Ok,
        ensures
            res@ == value@,
    {
        RepairAdapterRef(value)
    }

    /// Validates the value and builds the identifier, or returns the validation error.
    pub fn try_new(value: String) -> (res: Result<Self, crate::domain::IdValidationError>)
        ensures
            match res {
                Ok(id) => crate::domain::identifier_check(value@) is Ok && id@ == value@,
                Err(e) => crate::domain::identifier_check(value@) == Err::<(), crate::domain::IdValidationError>(e),
            },
    {
        match crate::domain::validate_identifier(value.as_str()) {
            Ok(()) => Ok(RepairAdapterRef(value)),
            Err(e) => Err(e),
        }
    }

    /// Returns the identifier text.
    pub fn as_str(&self) -> (res: &str)
        ensures
            res@ == self@,
    {
        self.0.as_str()
    }
}

/// Reference to a semantic validator.
#[derive(Debug)]
pub struct SemanticValidatorRef(String);

impl View for SemanticValidatorRef {
    type V = Seq<char>;

    closed spec fn view(&self) -> Seq<char> {
        self.0@
    }
}

impl Clone for SemanticValidatorRef {
    fn clone(&self) -> (res: Self)
        ensures
            res == *self,
    {
        SemanticValidatorRef(self.0.clone())
    }
}

impl crate::domain::ValueEq for SemanticValidatorRef {
    open spec fn value_eq(&self, other: &Self) -> bool {
        self@ == other@
    }

    fn equals(&self, other: &Self) -> (r: bool) {
        let r = self.0 == other.0;
        proof {
            assert(self@ == self.0@ && other@ == other.0@);
            assert(r == (self@ == other@));
            assert(r == self.value_eq(other));
        }
        r
    }
}

impl SemanticValidatorRef {
    /// Builds the identifier from a value that passes `validate_identifier`.
    pub fn new(value: String) -> (res: Self)
        requires
            crate::domain::identifier_check(value@) is Ok,
        ensures
            res@ == value@,
    {
        SemanticValidatorRef(value)
    }

    /// Validates the value and builds the identifier, or returns the validation error.
    pub fn try_new(value: String) -> (res: Result<Self, crate::domain::IdValidationError>)
        ensures
            match res {
                Ok(id) => crate::domain::identifier_check(value@) is Ok && id@ == value@,
                Err(e) => crate::domain::identifier_check(value@) == Err::<(), crate::domain::IdValidationError>(e),
            },
    {
        match crate::domain::validate_identifier(value.as_str()) {
            Ok(()) => Ok(SemanticValidatorRef(value)),
            Err(e) => Err(e),
        }
    }

    /// Returns the identifier text.
    pub fn as_str(&self) -> (res: &str)
        ensures
            res@ == self@,
    {
        self.0.as_str()
    }
}

/// Name of a Rust type.
#[derive(Debug)]
pub struct TypeName(String);

impl View for TypeName {
    type V = Seq<char>;

    closed spec fn view(&self) -> Seq<char> {
        self.0@
    }
}

impl Clone for TypeName {
    fn clone(&self) -> (res: Self)
        ensures
            res == *self,
    {
        TypeName(self.0.clone())
    }
}

impl crate::domain::ValueEq for TypeName {
    open spec fn value_eq(&self, other: &Self) -> bool {
        self@ == other@
    }

    fn equals(&self, other: &Self) -> (r: bool) {
        let r = self.0 == other.0;
        proof {
            assert(self@ == self.0@ && other@ == other.0@);
            assert(r == (self@ == other@));
            assert(r == self.value_eq(other));
        }
        r
    }
}

impl TypeName {
    /// Builds the identifier from a value that passes `validate_identifier`.
    pub fn new(value: String) -> (res: Self)
        requires
            crate::domain::identifier_check(value@) is Ok,
        ensures
            res@ == value@,
    {
        TypeName(value)
    }

    /// Validates the value and builds the identifier, or returns the validation error.
    pub fn try_new(value: String) -> (res: Result<Self, crate::domain::IdValidationError>)
        ensures
            match res {
                Ok(id) => crate::domain::identifier_check(value@) is Ok && id@ == value@,
                Err(e) => crate::domain::identifier_check(value@) == Err::<(), crate::domain::IdValidationError>(e),
            },
    {
        match crate::domain::validate_identifier(value.as_str()) {
            Ok(()) => Ok(TypeName(value)),
            Err(e) => Err(e),
        }
    }

    /// Returns the identifier text.
    pub fn as_str(&self) -> (res: &str)
        ensures
            res@ == self@,
    {
        self.0.as_str()
    }
}

/// Name of a crate.
#[derive(Debug)]
pub struct CrateName(String);

impl View for CrateName {
    type V = Seq<char>;

    closed spec fn view(&self) -> Seq<char> {
        self.0@
    }
}

impl Clone for CrateName {
    fn clone(&self) -> (res: Self)
        ensures
            res == *self,
    {
        CrateName(self.0.clone())
    }
}

impl crate::domain::ValueEq for CrateName {
    open spec fn value_eq(&self, other: &Self) -> bool {
        self@ == other@
    }

    fn equals(&self, other: &Self) -> (r: bool) {
        let r = self.0 == other.0;
        proof {
            assert(self@ == self.0@ && other@ == other.0@);
            assert(r == (self@ == other@));
            assert(r == self.value_eq(other));
        }
        r
    }
}

impl CrateName {
    /// Builds the identifier from a value that passes `validate_identifier`.
    pub fn new(value: String) -> (res: Self)
        requires
            crate::domain::identifier_check(value@) is Ok,
        ensures
            res@ == value@,
    {
        CrateName(value)
    }

    /// Validates the value and builds the identifier, or returns the validation error.
    pub fn try_new(value: String) -> (res: Result<Self, crate::domain::IdValidationError>)
        ensures
            match res {
                Ok(id) => crate::domain::identifier_check(value@) is Ok && id@ == value@,
                Err(e) => crate::domain::identifier_check(value@) == Err::<(), crate::domain::IdValidationError>(e),
            },
    {
        match crate::domain::validate_identifier(value.as_str()) {
            Ok(()) => Ok(CrateName(value)),
            Err(e) => Err(e),
        }
    }

    /// Returns the identifier text.
    pub fn as_str(&self) -> (res: &str)
        ensures
            res@ == self@,
    {
        self.0.as_str()
    }
}

/// The parts of an error.
type ErrorParts = (AgentErrorKind, RetryClassification, Seq<char>);

/// The check a schema content hash must pass: a `sha256:` prefix, then 64 hex digits.
pub open spec fn content_hash_check(hash: Seq<char>) -> Result<(), ErrorParts> {
    if !has_prefix(hash, "sha256:"@) {
        Err(AgentError::contract_violation_spec("output schema content_hash must be sha256-prefixed"@))
    } else if !is_sha256_fingerprint_spec(hash) {
        Err(AgentError::contract_violation_spec("output schema content_hash must be a sha256 hex digest"@))
    } else {
        Ok(())
    }
}

impl ContentHash {
    /// Checks the hash against `content_hash_check`.
    pub fn validate_shape(&self) -> (r: Result<(), AgentError>)
        ensures
            outcome_parts(r) == content_hash_check(self@),
    {
        if strip_prefix(self.as_str(), "sha256:").is_none() {
            return Err(AgentError::contract_violation("output schema content_hash must be sha256-prefixed"));
        }
        if !is_sha256_fingerprint(self.as_str()) {
            return Err(AgentError::contract_violation("output schema content_hash must be a sha256 hex digest"));
        }
        Ok(())
    }
}

impl SchemaVersion {
    /// The version `major.minor.patch`.
    pub fn new(major: u16, minor: u16, patch: u16) -> (res: Self)
        ensures
            res == (SchemaVersion { major, minor, patch }),
    {
        SchemaVersion { major, minor, patch }
    }
}

impl OutputSchemaRef {
    /// The content hash every variant carries.
    pub open spec fn content_hash_spec(&self) -> ContentHash {
        match *self {
            OutputSchemaRef::InlineJson { content_hash, .. } => content_hash,
            OutputSchemaRef::ContentStore { content_hash, .. } => content_hash,
            OutputSchemaRef::RustSerde { content_hash, .. } => content_hash,
            OutputSchemaRef::HostRegistered { content_hash, .. } => content_hash,
        }
    }

    /// The shape check: the content hash, and for an inline schema a schema that is not
    /// JSON `null`.
    pub open spec fn shape_check(&self) -> Result<(), ErrorParts> {
        match *self {
            OutputSchemaRef::InlineJson { content_hash, redacted_schema_json } => {
                match content_hash_check(content_hash@) {
                    Err(e) => Err(e),
                    Ok(()) => if redacted_schema_json@ == "null"@ {
                        Err(AgentError::missing_required_field_spec("output.schema.redacted_schema"@))
                    } else {
                        Ok(())
                    },
                }
            },
            _ => content_hash_check(self.content_hash_spec()@),
        }
    }

    /// Returns the content hash.
    pub fn content_hash(&self) -> (res: ContentHash)
        ensures
            res == self.content_hash_spec(),
    {
        match self {
            OutputSchemaRef::InlineJson { content_hash, .. } => content_hash.clone(),
            OutputSchemaRef::ContentStore { content_hash, .. } => content_hash.clone(),
            OutputSchemaRef::RustSerde { content_hash, .. } => content_hash.clone(),
            OutputSchemaRef::HostRegistered { content_hash, .. } => content_hash.clone(),
        }
    }

    /// Checks the schema reference against `shape_check`.
    pub fn validate_shape(&self) -> (r: Result<(), AgentError>)
        ensures
            outcome_parts(r) == self.shape_check(),
    {
        match self {
            OutputSchemaRef::InlineJson { content_hash, redacted_schema_json } => {
                match content_hash.validate_shape() {
                    Err(e) => return Err(e),
                    Ok(()) => {},
                }
                if str_eq(redacted_schema_json.as_str(), "null") {
                    return Err(AgentError::missing_required_field("output.schema.redacted_schema"));
                }
                Ok(())
            },
            OutputSchemaRef::ContentStore { content_hash, .. } => content_hash.validate_shape(),
            OutputSchemaRef::RustSerde { content_hash, .. } => content_hash.validate_shape(),
            OutputSchemaRef::HostRegistered { content_hash, .. } => content_hash.validate_shape(),
        }
    }
}

proof fn lemma_default_refs_valid()
    ensures
        identifier_check("validator.output.json_schema.local.v1"@) is Ok,
        identifier_check("repair.output.provider_redacted.v1"@) is Ok,
{
    reveal_strlit("validator.output.json_schema.local.v1");
    reveal_strlit("repair.output.provider_redacted.v1");
    let a = "validator.output.json_schema.local.v1"@;
    let b = "repair.output.provider_redacted.v1"@;
    assert forall|k: int| 0 <= k < a.len() implies is_plain_id_char(#[trigger] a[k]) by {}
    assert forall|k: int| 0 <= k < b.len() implies is_plain_id_char(#[trigger] b[k]) by {}
    lemma_plain_identifier(a);
    lemma_plain_identifier(b);
}

impl ValidationPolicy {
    /// The local JSON-schema validator, 32 KiB candidates, 32 reported errors, no
    /// additional properties, no semantic validators, a 10 s timeout and redacted
    /// summaries of failures.
    pub open spec fn is_strict_defaults(&self) -> bool {
        &&& self.validator_ref@ == "validator.output.json_schema.local.v1"@
        &&& self.max_candidate_bytes == 32 * 1024
        &&& self.max_errors_returned == 32
        &&& !self.allow_additional_properties
        &&& self.semantic_validators@.len() == 0
        &&& self.timeout_ms == 10_000
        &&& self.failure_visibility == ValidationFailureVisibility::RedactedSummary
    }

    /// The strict defaults.
    pub fn strict_defaults() -> (res: Self)
        ensures
            res.is_strict_defaults(),
    {
        proof {
            lemma_default_refs_valid();
        }
        ValidationPolicy {
            validator_ref: OutputValidatorRef::new(String::from_str("validator.output.json_schema.local.v1")),
            max_candidate_bytes: 32 * 1024,
            max_errors_returned: 32,
            allow_additional_properties: false,
            semantic_validators: Vec::new(),
            timeout_ms: 10_000,
            failure_visibility: ValidationFailureVisibility::RedactedSummary,
        }
    }

    /// The runtime-package policy named by the validator reference.
    pub fn validator_ref_policy(&self) -> (res: PolicyRef)
        ensures
            res.kind == PolicyKind::RuntimePackage,
            res.id@ == self.validator_ref@,
            res.version is None,
    {
        PolicyRef::with_kind(PolicyKind::RuntimePackage, self.validator_ref.as_str())
    }
}

impl RepairPolicy {
    /// The redacted provider repair adapter, two attempts, schema and redacted errors in
    /// the prompt, candidates by content reference only, no backoff, and a failed run when
    /// repairs are exhausted.
    pub open spec fn is_safe_defaults(&self) -> bool {
        &&& self.repair_adapter_ref@ == "repair.output.provider_redacted.v1"@
        &&& self.max_repair_attempts == 2
        &&& self.include_schema_in_prompt
        &&& self.include_redacted_errors
        &&& self.include_candidate_content == CandidateContentRepairPolicy::ContentRefOnly
        &&& self.backoff == RetryBackoff::NoBackoff
        &&& self.on_exhausted == RepairExhaustedBehavior::FailRun
    }

    /// The safe defaults.
    pub fn safe_defaults() -> (res: Self)
        ensures
            res.is_safe_defaults(),
    {
        proof {
            lemma_default_refs_valid();
        }
        RepairPolicy {
            repair_adapter_ref: RepairAdapterRef::new(String::from_str("repair.output.provider_redacted.v1")),
            max_repair_attempts: 2,
            include_schema_in_prompt: true,
            include_redacted_errors: true,
            include_candidate_content: CandidateContentRepairPolicy::ContentRefOnly,
            backoff: RetryBackoff::NoBackoff,
            on_exhausted: RepairExhaustedBehavior::FailRun,
        }
    }

    /// The runtime-package policy named by the repair adapter reference.
    pub fn repair_adapter_ref_policy(&self) -> (res: PolicyRef)
        ensures
            res.kind == PolicyKind::RuntimePackage,
            res.id@ == self.repair_adapter_ref@,
            res.version is None,
    {
        PolicyRef::with_kind(PolicyKind::RuntimePackage, self.repair_adapter_ref.as_str())
    }
}

impl RetryBudget {
    /// A budget of `max_attempts` attempts.
    pub fn attempts(max_attempts: u8) -> (res: Self)
        ensures
            res.max_attempts == max_attempts,
    {
        RetryBudget { max_attempts }
    }
}

impl OutputProjectionHint {
    /// The schema reference is included and the provider must receive the schema.
    pub fn schema_ref_only() -> (res: Self)
        ensures
            res.provider_hint_policy == ProviderHintPolicy::SchemaRequired,
            res.include_schema_ref,
    {
        OutputProjectionHint { provider_hint_policy: ProviderHintPolicy::SchemaRequired, include_schema_ref: true }
    }
}

/// A type whose values a structured output decodes into, with the schema that describes it.
pub trait TypedOutputModel {
    /// Identifier of the schema.
    fn schema_id() -> OutputSchemaId;

    /// Version of the schema.
    fn schema_version() -> SchemaVersion;

    /// Dialect the schema is written in.
    fn dialect() -> OutputSchemaDialect;

    /// Where the schema lives.
    fn schema_ref() -> OutputSchemaRef;
}

impl OutputContract {
    /// Every field but the schema's identity is as `new` sets it for `preset`: strict
    /// defaults, loosened by the fast lenient preset (additional properties, 8 reported
    /// errors, one repair, one attempt, schema optional) and told to the provider natively
    /// by the provider-assisted preset.
    pub open spec fn preset_applied(&self, preset: OutputPreset) -> bool {
        let lenient = preset == OutputPreset::FastLenient;
        &&& self.mode == OutputMode::FinalOnly
        &&& self.validation.validator_ref@ == "validator.output.json_schema.local.v1"@
        &&& self.validation.max_candidate_bytes == 32 * 1024
        &&& self.validation.max_errors_returned == (if lenient { 8u16 } else { 32u16 })
        &&& self.validation.allow_additional_properties == lenient
        &&& self.validation.semantic_validators@.len() == 0
        &&& self.validation.timeout_ms == 10_000
        &&& self.validation.failure_visibility == ValidationFailureVisibility::RedactedSummary
        &&& self.repair.repair_adapter_ref@ == "repair.output.provider_redacted.v1"@
        &&& self.repair.max_repair_attempts == (if lenient { 1u8 } else { 2u8 })
        &&& self.repair.include_schema_in_prompt
        &&& self.repair.include_redacted_errors
        &&& self.repair.include_candidate_content == CandidateContentRepairPolicy::ContentRefOnly
        &&& self.repair.backoff == RetryBackoff::NoBackoff
        &&& self.repair.on_exhausted == RepairExhaustedBehavior::FailRun
        &&& self.retry_budget.max_attempts == (if lenient { 1u8 } else { 2u8 })
        &&& self.projection_hint.provider_hint_policy == (match preset {
            OutputPreset::StrictJsonSchema => ProviderHintPolicy::SchemaRequired,
            OutputPreset::FastLenient => ProviderHintPolicy::SchemaOptional,
            OutputPreset::ProviderAssisted => ProviderHintPolicy::ProviderNativeHint,
        })
        &&& self.projection_hint.include_schema_ref
        &&& self.content_policy.policy_ref.kind == PolicyKind::Privacy
        &&& self.content_policy.policy_ref.id@ == "policy.output.content_capture.safe_defaults"@
        &&& self.content_policy.policy_ref.version is None
        &&& !self.content_policy.capture_raw_content
        &&& self.content_policy.capture_redacted_summary
    }

    /// The shape check: the retry budget covers the repair attempts, candidates have a
    /// byte bound, and the schema reference passes its own check.
    pub open spec fn shape_check(&self) -> Result<(), ErrorParts> {
        if self.retry_budget.max_attempts < self.repair.max_repair_attempts {
            Err(AgentError::contract_violation_spec("output retry budget must cover repair attempts"@))
        } else if self.validation.max_candidate_bytes == 0 {
            Err(AgentError::missing_required_field_spec("output.validation.max_candidate_bytes"@))
        } else {
            self.schema.shape_check()
        }
    }

    /// The contract for `schema` under `preset`. Its shape check is the schema's.
    pub fn new(
        schema_id: OutputSchemaId,
        schema_version: SchemaVersion,
        dialect: OutputSchemaDialect,
        schema: OutputSchemaRef,
        preset: OutputPreset,
    ) -> (res: Self)
        ensures
            res.schema_id == schema_id,
            res.schema_version == schema_version,
            res.dialect == dialect,
            res.schema == schema,
            res.preset_applied(preset),
            res.shape_check() == schema.shape_check(),
    {
        let mut validation = ValidationPolicy::strict_defaults();
        let mut repair = RepairPolicy::safe_defaults();
        let mut retry_budget = RetryBudget::attempts(2);
        let mut projection_hint = OutputProjectionHint::schema_ref_only();
        match preset {
            OutputPreset::StrictJsonSchema => {},
            OutputPreset::FastLenient => {
                validation.allow_additional_properties = true;
                validation.max_errors_returned = 8;
                repair.max_repair_attempts = 1;
                retry_budget = RetryBudget::attempts(1);
                projection_hint.provider_hint_policy = ProviderHintPolicy::SchemaOptional;
            },
            OutputPreset::ProviderAssisted => {
                projection_hint.provider_hint_policy = ProviderHintPolicy::ProviderNativeHint;
            },
        }
        let content_policy = ContentCapturePolicy::safe_defaults(
            PolicyRef::with_kind(PolicyKind::Privacy, "policy.output.content_capture.safe_defaults"),
        );
        OutputContract {
            schema_id,
            schema_version,
            dialect,
            schema,
            mode: OutputMode::FinalOnly,
            validation,
            repair,
            retry_budget,
            content_policy,
            projection_hint,
        }
    }

    /// A strict contract for an inline schema, given as its canonical JSON text; the
    /// content hash is the fingerprint of that text. Unless the schema is JSON `null`, the
    /// contract passes its shape check.
    pub fn inline_json_schema(schema_id: OutputSchemaId, schema_version: SchemaVersion, redacted_schema_json: String) -> (res: Self)
        ensures
            res.schema_id == schema_id,
            res.schema_version == schema_version,
            res.dialect == OutputSchemaDialect::JsonSchema2020_12Subset,
            res.schema matches OutputSchemaRef::InlineJson { content_hash, redacted_schema_json: json }
                && json == redacted_schema_json
                && content_hash@ == sha256_fingerprint_spec(vstd::utf8::encode_utf8(redacted_schema_json@)),
            res.preset_applied(OutputPreset::StrictJsonSchema),
            redacted_schema_json@ != "null"@ ==> res.shape_check() is Ok,
    {
        let hash_text = sha256_fingerprint_of_text(redacted_schema_json.as_str());
        proof {
            lemma_fingerprint_identifier(vstd::utf8::encode_utf8(redacted_schema_json@));
        }
        let content_hash = ContentHash::new(hash_text);
        Self::new(
            schema_id,
            schema_version,
            OutputSchemaDialect::JsonSchema2020_12Subset,
            OutputSchemaRef::InlineJson { content_hash, redacted_schema_json },
            OutputPreset::StrictJsonSchema,
        )
    }

    fn from_typed_model<T: TypedOutputModel>(preset: OutputPreset) -> (res: Self)
        ensures
            res.preset_applied(preset),
            res.shape_check() == res.schema.shape_check(),
    {
        Self::new(T::schema_id(), T::schema_version(), T::dialect(), T::schema_ref(), preset)
    }

    /// The strict contract for the model `T`.
    pub fn for_type<T: TypedOutputModel>() -> (res: Self)
        ensures
            res.preset_applied(OutputPreset::StrictJsonSchema),
            res.shape_check() == res.schema.shape_check(),
    {
        Self::from_typed_model::<T>(OutputPreset::StrictJsonSchema)
    }

    /// The strict contract for the model `T`.
    pub fn strict_json_schema<T: TypedOutputModel>() -> (res: Self)
        ensures
            res.preset_applied(OutputPreset::StrictJsonSchema),
            res.shape_check() == res.schema.shape_check(),
    {
        Self::from_typed_model::<T>(OutputPreset::StrictJsonSchema)
    }

    /// The fast lenient contract for the model `T`.
    pub fn fast_lenient<T: TypedOutputModel>() -> (res: Self)
        ensures
            res.preset_applied(OutputPreset::FastLenient),
            res.shape_check() == res.schema.shape_check(),
    {
        Self::from_typed_model::<T>(OutputPreset::FastLenient)
    }

    /// The provider-assisted contract for the model `T`.
    pub fn provider_assisted<T: TypedOutputModel>() -> (res: Self)
        ensures
            res.preset_applied(OutputPreset::ProviderAssisted),
            res.shape_check() == res.schema.shape_check(),
    {
        Self::from_typed_model::<T>(OutputPreset::ProviderAssisted)
    }

    /// The fingerprint of the schema: its content hash.
    pub fn schema_fingerprint(&self) -> (res: ContentHash)
        ensures
            res == self.schema.content_hash_spec(),
    {
        self.schema.content_hash()
    }

    /// Checks the contract against `shape_check`.
    pub fn validate_shape(&self) -> (r: Result<(), AgentError>)
        ensures
            outcome_parts(r) == self.shape_check(),
    {
        if self.retry_budget.max_attempts < self.repair.max_repair_attempts {
            return Err(AgentError::contract_violation("output retry budget must cover repair attempts"));
        }
        if self.validation.max_candidate_bytes == 0 {
            return Err(AgentError::missing_required_field("output.validation.max_candidate_bytes"));
        }
        self.schema.validate_shape()
    }
}

} // verus!
