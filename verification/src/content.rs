use vstd::prelude::*;
use crate::domain::{AdapterRef, AgentError, AgentErrorKind, ArtifactId, ContentId, DestinationRef, EntityRef, PolicyRef, PrivacyClass, RetentionClass, RetryClassification, SourceRef, TrustClass};
use crate::text::{concat2};

verus! {

/// Version label of an artifact.
#[derive(Debug)]
pub struct ArtifactVersion(String);

impl View for ArtifactVersion {
    type V = Seq<char>;

    closed spec fn view(&self) -> Seq<char> {
        self.0@
    }
}

impl Clone for ArtifactVersion {
    fn clone(&self) -> (res: Self)
        ensures
            res == *self,
    {
        ArtifactVersion(self.0.clone())
    }
}

impl crate::domain::ValueEq for ArtifactVersion {
    open spec fn value_eq(&self, other: &Self) -> bool {
        self@ == other@
    }

    fn equals(&self, other: &Self) -> (r: bool) {
        let r = self.0 == other.0;
        proof {
            assert(self@ == self.0@ && other@ == other.0@);
            assert(r == (self@ == other@));
            assert(r == self.value_eq(other));
        }
        r
    }
}

impl ArtifactVersion {
    /// Builds the identifier from its string value.
    pub fn new(value: String) -> (res: Self)
        ensures
            res@ == value@,
    {
        ArtifactVersion(value)
    }

    /// Returns the identifier text.
    pub fn as_str(&self) -> (res: &str)
        ensures
            res@ == self@,
    {
        self.0.as_str()
    }
}

/// Version label of a content item.
#[derive(Debug)]
pub struct ContentVersion(String);

impl View for ContentVersion {
    type V = Seq<char>;

    closed spec fn view(&self) -> Seq<char> {
        self.0@
    }
}

impl Clone for ContentVersion {
    fn clone(&self) -> (res: Self)
        ensures
            res == *self,
    {
        ContentVersion(self.0.clone())
    }
}

impl crate::domain::ValueEq for ContentVersion {
    open spec fn value_eq(&self, other: &Self) -> bool {
        self@ == other@
    }

    fn equals(&self, other: &Self) -> (r: bool) {
        let r = self.0 == other.0;
        proof {
            assert(self@ == self.0@ && other@ == other.0@);
            assert(r == (self@ == other@));
            assert(r == self.value_eq(other));
        }
        r
    }
}

impl ContentVersion {
    /// Builds the identifier from its string value.
    pub fn new(value: String) -> (res: Self)
        ensures
            res@ == value@,
    {
        ContentVersion(value)
    }

    /// Returns the identifier text.
    pub fn as_str(&self) -> (res: &str)
        ensures
            res@ == self@,
    {
        self.0.as_str()
    }
}

/// Kind of content a content reference points at.
#[derive(Clone, Copy, Debug, PartialEq, Eq, Structural)]
pub enum ContentKind {
    Text,
    Document,
    Image,
    Audio,
    Video,
    File,
    ToolResult,
    Schema,
    Stdout,
    Stderr,
    OutputPayload,
    MemoryRecord,
    External,
}

impl crate::domain::ValueEq for ContentKind {
    open spec fn value_eq(&self, other: &Self) -> bool {
        *self == *other
    }

    fn equals(&self, other: &Self) -> (r: bool) {
        *self == *other
    }
}

/// Storage scope of a content item.
#[derive(Clone, Copy, Debug, PartialEq, Eq, Structural)]
pub enum ContentScope {
    Run,
    Session,
    HostWorkspace,
    External,
    PersistentStore,
}

impl crate::domain::ValueEq for ContentScope {
    open spec fn value_eq(&self, other: &Self) -> bool {
        *self == *other
    }

    fn equals(&self, other: &Self) -> (r: bool) {
        *self == *other
    }
}

/// Reference to a stored artifact; it carries metadata only.
#[derive(Debug)]
pub struct ArtifactRef {
    pub artifact_id: ArtifactId,
    pub version: ArtifactVersion,
    pub scope: ContentScope,
    pub storage_ref: AdapterRef,
    pub mime: Option<String>,
    pub size_bytes: Option<u64>,
    pub content_hash: Option<String>,
    pub producer_ref: EntityRef,
    pub source_ref: SourceRef,
    pub destination_ref: Option<DestinationRef>,
    pub privacy_class: PrivacyClass,
    pub retention_class: RetentionClass,
    pub trust_class: TrustClass,
    pub redacted_summary: String,
}

impl Clone for ArtifactRef {
    fn clone(&self) -> (res: Self)
        ensures
            res == *self,
    {
        ArtifactRef {
            artifact_id: self.artifact_id.clone(),
            version: self.version.clone(),
            scope: self.scope,
            storage_ref: self.storage_ref.clone(),
            mime: self.mime.clone(),
            size_bytes: self.size_bytes.clone(),
            content_hash: self.content_hash.clone(),
            producer_ref: self.producer_ref.clone(),
            source_ref: self.source_ref.clone(),
            destination_ref: self.destination_ref.clone(),
            privacy_class: self.privacy_class,
            retention_class: self.retention_class,
            trust_class: self.trust_class,
            redacted_summary: self.redacted_summary.clone(),
        }
    }
}

impl crate::domain::ValueEq for ArtifactRef {
    open spec fn value_eq(&self, other: &Self) -> bool {
        &&& self.artifact_id@ == other.artifact_id@
        &&& self.version@ == other.version@
        &&& self.scope == other.scope
        &&& self.storage_ref@ == other.storage_ref@
        &&& (self.mime.is_some() == other.mime.is_some() && (self.mime.is_some() ==> self.mime.unwrap()@ == other.mime.unwrap()@))
        &&& (self.size_bytes.is_some() == other.size_bytes.is_some() && (self.size_bytes.is_some() ==> self.size_bytes.unwrap() == other.size_bytes.unwrap()))
        &&& (self.content_hash.is_some() == other.content_hash.is_some() && (self.content_hash.is_some() ==> self.content_hash.unwrap()@ == other.content_hash.unwrap()@))
        &&& self.producer_ref.value_eq(&other.producer_ref)
        &&& self.source_ref.value_eq(&other.source_ref)
        &&& (self.destination_ref.is_some() == other.destination_ref.is_some() && (self.destination_ref.is_some() ==> self.destination_ref.unwrap().value_eq(&other.destination_ref.unwrap())))
        &&& self.privacy_class == other.privacy_class
        &&& self.retention_class == other.retention_class
        &&& self.trust_class == other.trust_class
        &&& self.redacted_summary@ == other.redacted_summary@
    }

    fn equals(&self, other: &Self) -> (r: bool) {
        if !self.artifact_id.equals(&other.artifact_id) { return false; }
        if !self.version.equals(&other.version) { return false; }
        if !(self.scope == other.scope) { return false; }
        if !self.storage_ref.equals(&other.storage_ref) { return false; }
        match (&self.mime, &other.mime) { (Some(x0), Some(y0)) => { if !((*x0) == (*y0)) { return false; } }, (None, None) => {}, _ => { return false; } }
        match (&self.size_bytes, &other.size_bytes) { (Some(x0), Some(y0)) => { if !((*x0) == (*y0)) { return false; } }, (None, None) => {}, _ => { return false; } }
        match (&self.content_hash, &other.content_hash) { (Some(x0), Some(y0)) => { if !((*x0) == (*y0)) { return false; } }, (None, None) => {}, _ => { return false; } }
        if !self.producer_ref.equals(&other.producer_ref) { return false; }
        if !self.source_ref.equals(&other.source_ref) { return false; }
        match (&self.destination_ref, &other.destination_ref) { (Some(x0), Some(y0)) => { if !(*x0).equals(&(*y0)) { return false; } }, (None, None) => {}, _ => { return false; } }
        if !(self.privacy_class == other.privacy_class) { return false; }
        if !(self.retention_class == other.retention_class) { return false; }
        if !(self.trust_class == other.trust_class) { return false; }
        if !(self.redacted_summary == other.redacted_summary) { return false; }
        true
    }
}

/// Reference to a content item with its provenance and classification; resolving it is a separate policy-gated step.
#[derive(Debug)]
pub struct ContentRef {
    pub content_id: ContentId,
    pub version: ContentVersion,
    pub kind: ContentKind,
    pub artifact_ref: Option<ArtifactRef>,
    pub scope: ContentScope,
    pub producer_ref: EntityRef,
    pub source_ref: SourceRef,
    pub destination_ref: Option<DestinationRef>,
    pub mime: Option<String>,
    pub size_bytes: Option<u64>,
    pub content_hash: Option<String>,
    pub privacy_class: PrivacyClass,
    pub retention_class: RetentionClass,
    pub trust_class: TrustClass,
    pub resolver_ref: AdapterRef,
    pub redacted_summary: String,
}

impl Clone for ContentRef {
    fn clone(&self) -> (res: Self)
        ensures
            res == *self,
    {
        ContentRef {
            content_id: self.content_id.clone(),
            version: self.version.clone(),
            kind: self.kind,
            artifact_ref: self.artifact_ref.clone(),
            scope: self.scope,
            producer_ref: self.producer_ref.clone(),
            source_ref: self.source_ref.clone(),
            destination_ref: self.destination_ref.clone(),
            mime: self.mime.clone(),
            size_bytes: self.size_bytes.clone(),
            content_hash: self.content_hash.clone(),
            privacy_class: self.privacy_class,
            retention_class: self.retention_class,
            trust_class: self.trust_class,
            resolver_ref: self.resolver_ref.clone(),
            redacted_summary: self.redacted_summary.clone(),
        }
    }
}

impl crate::domain::ValueEq for ContentRef {
    open spec fn value_eq(&self, other: &Self) -> bool {
        &&& self.content_id@ == other.content_id@
        &&& self.version@ == other.version@
        &&& self.kind == other.kind
        &&& (self.artifact_ref.is_some() == other.artifact_ref.is_some() && (self.artifact_ref.is_some() ==> self.artifact_ref.unwrap().value_eq(&other.artifact_ref.unwrap())))
        &&& self.scope == other.scope
        &&& self.producer_ref.value_eq(&other.producer_ref)
        &&& self.source_ref.value_eq(&other.source_ref)
        &&& (self.destination_ref.is_some() == other.destination_ref.is_some() && (self.destination_ref.is_some() ==> self.destination_ref.unwrap().value_eq(&other.destination_ref.unwrap())))
        &&& (self.mime.is_some() == other.mime.is_some() && (self.mime.is_some() ==> self.mime.unwrap()@ == other.mime.unwrap()@))
        &&& (self.size_bytes.is_some() == other.size_bytes.is_some() && (self.size_bytes.is_some() ==> self.size_bytes.unwrap() == other.size_bytes.unwrap()))
        &&& (self.content_hash.is_some() == other.content_hash.is_some() && (self.content_hash.is_some() ==> self.content_hash.unwrap()@ == other.content_hash.unwrap()@))
        &&& self.privacy_class == other.privacy_class
        &&& self.retention_class == other.retention_class
        &&& self.trust_class == other.trust_class
        &&& self.resolver_ref@ == other.resolver_ref@
        &&& self.redacted_summary@ == other.redacted_summary@
    }

    fn equals(&self, other: &Self) -> (r: bool) {
        if !self.content_id.equals(&other.content_id) { return false; }
        if !self.version.equals(&other.version) { return false; }
        if !(self.kind == other.kind) { return false; }
        match (&self.artifact_ref, &other.artifact_ref) { (Some(x0), Some(y0)) => { if !(*x0).equals(&(*y0)) { return false; } }, (None, None) => {}, _ => { return false; } }
        if !(self.scope == other.scope) { return false; }
        if !self.producer_ref.equals(&other.producer_ref) { return false; }
        if !self.source_ref.equals(&other.source_ref) { return false; }
        match (&self.destination_ref, &other.destination_ref) { (Some(x0), Some(y0)) => { if !(*x0).equals(&(*y0)) { return false; } }, (None, None) => {}, _ => { return false; } }
        match (&self.mime, &other.mime) { (Some(x0), Some(y0)) => { if !((*x0) == (*y0)) { return false; } }, (None, None) => {}, _ => { return false; } }
        match (&self.size_bytes, &other.size_bytes) { (Some(x0), Some(y0)) => { if !((*x0) == (*y0)) { return false; } }, (None, None) => {}, _ => { return false; } }
        match (&self.content_hash, &other.content_hash) { (Some(x0), Some(y0)) => { if !((*x0) == (*y0)) { return false; } }, (None, None) => {}, _ => { return false; } }
        if !(self.privacy_class == other.privacy_class) { return false; }
        if !(self.retention_class == other.retention_class) { return false; }
        if !(self.trust_class == other.trust_class) { return false; }
        if !self.resolver_ref.equals(&other.resolver_ref) { return false; }
        if !(self.redacted_summary == other.redacted_summary) { return false; }
        true
    }
}

/// Why content is being resolved.
#[derive(Clone, Copy, Debug, PartialEq, Eq, Structural)]
pub enum ContentResolutionPurpose {
    ContextProjection,
    OutputValidation,
    OutputDelivery,
    Replay,
    HostInspection,
}

impl crate::domain::ValueEq for ContentResolutionPurpose {
    open spec fn value_eq(&self, other: &Self) -> bool {
        *self == *other
    }

    fn equals(&self, other: &Self) -> (r: bool) {
        *self == *other
    }
}

/// How resolved content will be retained.
#[derive(Clone, Copy, Debug, PartialEq, Eq, Structural)]
pub enum RetentionUse {
    ReadOnly,
    ProviderProjection,
    Validation,
    Delivery,
    Replay,
}

impl crate::domain::ValueEq for RetentionUse {
    open spec fn value_eq(&self, other: &Self) -> bool {
        *self == *other
    }

    fn equals(&self, other: &Self) -> (r: bool) {
        *self == *other
    }
}

/// What to do when content cannot be found.
#[derive(Clone, Copy, Debug, PartialEq, Eq, Structural)]
pub enum MissingContentPolicy {
    Fail,
    RecoverableReplayGap,
    OmitWithProjectionAudit,
    RequestHostRepair,
}

impl crate::domain::ValueEq for MissingContentPolicy {
    open spec fn value_eq(&self, other: &Self) -> bool {
        *self == *other
    }

    fn equals(&self, other: &Self) -> (r: bool) {
        *self == *other
    }
}

/// Policy a content resolver applies.
#[derive(Debug)]
pub struct ContentResolutionPolicy {
    pub caller_ref: EntityRef,
    pub destination_ref: DestinationRef,
    pub purpose: ContentResolutionPurpose,
    pub allowed_privacy_classes: Vec<PrivacyClass>,
    pub max_bytes: u64,
    pub require_hash_match: bool,
    pub retention_use: RetentionUse,
    pub on_missing: MissingContentPolicy,
    pub allow_raw_content: bool,
    pub policy_refs: Vec<PolicyRef>,
}

impl ContentResolutionPolicy {
    /// Field-wise equality, with vectors compared by their contents.
    pub open spec fn same_as(&self, other: &Self) -> bool {
        &&& self.caller_ref == other.caller_ref
        &&& self.destination_ref == other.destination_ref
        &&& self.purpose == other.purpose
        &&& self.allowed_privacy_classes@ == other.allowed_privacy_classes@
        &&& self.max_bytes == other.max_bytes
        &&& self.require_hash_match == other.require_hash_match
        &&& self.retention_use == other.retention_use
        &&& self.on_missing == other.on_missing
        &&& self.allow_raw_content == other.allow_raw_content
        &&& self.policy_refs@ == other.policy_refs@
    }
}

impl Clone for ContentResolutionPolicy {
    fn clone(&self) -> (res: Self)
        ensures
            res.same_as(self),
    {
        let allowed_privacy_classes_copy = self.allowed_privacy_classes.clone();
        proof { assert(allowed_privacy_classes_copy@ =~= self.allowed_privacy_classes@); }
        let policy_refs_copy = self.policy_refs.clone();
        proof { assert(policy_refs_copy@ =~= self.policy_refs@); }
        ContentResolutionPolicy {
            caller_ref: self.caller_ref.clone(),
            destination_ref: self.destination_ref.clone(),
            purpose: self.purpose,
            allowed_privacy_classes: allowed_privacy_classes_copy,
            max_bytes: self.max_bytes,
            require_hash_match: self.require_hash_match,
            retention_use: self.retention_use,
            on_missing: self.on_missing,
            allow_raw_content: self.allow_raw_content,
            policy_refs: policy_refs_copy,
        }
    }
}

/// Request to resolve one content reference at one version.
#[derive(Debug)]
pub struct ContentResolveRequest {
    pub content_ref: ContentRef,
    pub requested_version: ContentVersion,
}

impl Clone for ContentResolveRequest {
    fn clone(&self) -> (res: Self)
        ensures
            res == *self,
    {
        ContentResolveRequest {
            content_ref: self.content_ref.clone(),
            requested_version: self.requested_version.clone(),
        }
    }
}

/// Result of a content resolution.
#[derive(Debug)]
pub struct ResolvedContent {
    pub content_ref: ContentRef,
    pub mime: Option<String>,
    pub bytes: Option<Vec<u8>>,
    pub redacted_summary: String,
    pub policy_refs: Vec<PolicyRef>,
    pub raw_content_included: bool,
}

impl ResolvedContent {
    /// Field-wise equality, with vectors compared by their contents.
    pub open spec fn same_as(&self, other: &Self) -> bool {
        &&& self.content_ref == other.content_ref
        &&& self.mime == other.mime
        &&& (self.bytes.is_some() == other.bytes.is_some() && (self.bytes.is_some() ==> self.bytes.unwrap()@ == other.bytes.unwrap()@))
        &&& self.redacted_summary == other.redacted_summary
        &&& self.policy_refs@ == other.policy_refs@
        &&& self.raw_content_included == other.raw_content_included
    }
}

impl Clone for ResolvedContent {
    fn clone(&self) -> (res: Self)
        ensures
            res.same_as(self),
    {
        let policy_refs_copy = self.policy_refs.clone();
        proof { assert(policy_refs_copy@ =~= self.policy_refs@); }
        ResolvedContent {
            content_ref: self.content_ref.clone(),
            mime: self.mime.clone(),
            bytes: match &self.bytes { Some(x1) => { let x1_copy = x1.clone(); proof { assert(x1_copy@ =~= x1@); } Some(x1_copy) }, None => None },
            redacted_summary: self.redacted_summary.clone(),
            policy_refs: policy_refs_copy,
            raw_content_included: self.raw_content_included,
        }
    }
}

/// Why content resolution failed.
#[derive(Clone, Copy, Debug, PartialEq, Eq, Structural)]
pub enum ContentResolutionErrorKind {
    Missing,
    Expired,
    PermissionDenied,
    StorageUnavailable,
    VersionMismatch,
    HashMismatch,
    UnsupportedMime,
    RawContentNotAllowed,
    MaxBytesExceeded,
}

impl crate::domain::ValueEq for ContentResolutionErrorKind {
    open spec fn value_eq(&self, other: &Self) -> bool {
        *self == *other
    }

    fn equals(&self, other: &Self) -> (r: bool) {
        *self == *other
    }
}

impl ContentResolutionErrorKind {
    /// The variant name, as the derived `Debug` output spells it.
    pub open spec fn debug_name_spec(self) -> Seq<char> {
        match self {
            ContentResolutionErrorKind::Missing => "Missing"@,
            ContentResolutionErrorKind::Expired => "Expired"@,
            ContentResolutionErrorKind::PermissionDenied => "PermissionDenied"@,
            ContentResolutionErrorKind::StorageUnavailable => "StorageUnavailable"@,
            ContentResolutionErrorKind::VersionMismatch => "VersionMismatch"@,
            ContentResolutionErrorKind::HashMismatch => "HashMismatch"@,
            ContentResolutionErrorKind::UnsupportedMime => "UnsupportedMime"@,
            ContentResolutionErrorKind::RawContentNotAllowed => "RawContentNotAllowed"@,
            ContentResolutionErrorKind::MaxBytesExceeded => "MaxBytesExceeded"@,
        }
    }

    /// Returns the variant name, as the derived `Debug` output spells it.
    pub fn debug_name(&self) -> (res: &'static str)
        ensures
            res@ == self.debug_name_spec(),
    {
        match self {
            ContentResolutionErrorKind::Missing => "Missing",
            ContentResolutionErrorKind::Expired => "Expired",
            ContentResolutionErrorKind::PermissionDenied => "PermissionDenied",
            ContentResolutionErrorKind::StorageUnavailable => "StorageUnavailable",
            ContentResolutionErrorKind::VersionMismatch => "VersionMismatch",
            ContentResolutionErrorKind::HashMismatch => "HashMismatch",
            ContentResolutionErrorKind::UnsupportedMime => "UnsupportedMime",
            ContentResolutionErrorKind::RawContentNotAllowed => "RawContentNotAllowed",
            ContentResolutionErrorKind::MaxBytesExceeded => "MaxBytesExceeded",
        }
    }
}

/// Failure of a content resolution.
#[derive(Debug)]
pub struct ContentResolutionError {
    pub kind: ContentResolutionErrorKind,
    pub content_ref: ContentRef,
    pub policy_refs: Vec<PolicyRef>,
    pub redacted_summary: String,
}

impl ContentResolutionError {
    /// Field-wise equality, with vectors compared by their contents.
    pub open spec fn same_as(&self, other: &Self) -> bool {
        &&& self.kind == other.kind
        &&& self.content_ref == other.content_ref
        &&& self.policy_refs@ == other.policy_refs@
        &&& self.redacted_summary == other.redacted_summary
    }
}

impl Clone for ContentResolutionError {
    fn clone(&self) -> (res: Self)
        ensures
            res.same_as(self),
    {
        let policy_refs_copy = self.policy_refs.clone();
        proof { assert(policy_refs_copy@ =~= self.policy_refs@); }
        ContentResolutionError {
            kind: self.kind,
            content_ref: self.content_ref.clone(),
            policy_refs: policy_refs_copy,
            redacted_summary: self.redacted_summary.clone(),
        }
    }
}

impl ArtifactRef {
    /// A reference with no mime, size, hash or destination, classified as content refs
    /// only, run scoped and host provided.
    pub fn new(
        artifact_id: ArtifactId,
        version: ArtifactVersion,
        scope: ContentScope,
        storage_ref: AdapterRef,
        producer_ref: EntityRef,
        source_ref: SourceRef,
        redacted_summary: String,
    ) -> (res: Self)
        ensures
            res.artifact_id == artifact_id,
            res.version == version,
            res.scope == scope,
            res.storage_ref == storage_ref,
            res.mime is None,
            res.size_bytes is None,
            res.content_hash is None,
            res.producer_ref == producer_ref,
            res.source_ref == source_ref,
            res.destination_ref is None,
            res.privacy_class == PrivacyClass::ContentRefsOnly,
            res.retention_class == RetentionClass::RunScoped,
            res.trust_class == TrustClass::HostProvided,
            res.redacted_summary == redacted_summary,
    {
        ArtifactRef {
            artifact_id,
            version,
            scope,
            storage_ref,
            mime: None,
            size_bytes: None,
            content_hash: None,
            producer_ref,
            source_ref,
            destination_ref: None,
            privacy_class: PrivacyClass::ContentRefsOnly,
            retention_class: RetentionClass::RunScoped,
            trust_class: TrustClass::HostProvided,
            redacted_summary,
        }
    }
}

impl ContentRef {
    /// A reference with no artifact, destination, mime, size or hash, classified as
    /// content refs only, run scoped and host provided.
    pub fn new(
        content_id: ContentId,
        version: ContentVersion,
        kind: ContentKind,
        scope: ContentScope,
        producer_ref: EntityRef,
        source_ref: SourceRef,
        resolver_ref: AdapterRef,
        redacted_summary: String,
    ) -> (res: Self)
        ensures
            res.content_id == content_id,
            res.version == version,
            res.kind == kind,
            res.artifact_ref is None,
            res.scope == scope,
            res.producer_ref == producer_ref,
            res.source_ref == source_ref,
            res.destination_ref is None,
            res.mime is None,
            res.size_bytes is None,
            res.content_hash is None,
            res.privacy_class == PrivacyClass::ContentRefsOnly,
            res.retention_class == RetentionClass::RunScoped,
            res.trust_class == TrustClass::HostProvided,
            res.resolver_ref == resolver_ref,
            res.redacted_summary == redacted_summary,
    {
        ContentRef {
            content_id,
            version,
            kind,
            artifact_ref: None,
            scope,
            producer_ref,
            source_ref,
            destination_ref: None,
            mime: None,
            size_bytes: None,
            content_hash: None,
            privacy_class: PrivacyClass::ContentRefsOnly,
            retention_class: RetentionClass::RunScoped,
            trust_class: TrustClass::HostProvided,
            resolver_ref,
            redacted_summary,
        }
    }

    /// The text default events carry: the redacted summary.
    pub fn summary_for_default_events(&self) -> (res: &str)
        ensures
            res@ == self.redacted_summary@,
    {
        self.redacted_summary.as_str()
    }

    /// A content reference never reaches a provider without context admission.
    pub fn provider_visible_without_context_admission(&self) -> (r: bool)
        ensures
            !r,
    {
        false
    }
}

impl ContentResolutionPolicy {
    /// The policy `redacted_context(caller_ref, destination_ref, policy_ref)` builds.
    pub open spec fn is_redacted_context(&self, caller_ref: EntityRef, destination_ref: DestinationRef, policy_ref: PolicyRef) -> bool {
        &&& self.caller_ref == caller_ref
        &&& self.destination_ref == destination_ref
        &&& self.purpose == ContentResolutionPurpose::ContextProjection
        &&& self.allowed_privacy_classes@ == seq![PrivacyClass::Public, PrivacyClass::ContentRefsOnly]
        &&& self.max_bytes == 0
        &&& self.require_hash_match
        &&& self.retention_use == RetentionUse::ProviderProjection
        &&& self.on_missing == MissingContentPolicy::Fail
        &&& !self.allow_raw_content
        &&& self.policy_refs@ == seq![policy_ref]
    }

    /// Context projection that admits public and content-ref-only items, reads no bytes,
    /// requires a hash match, fails on missing content and never allows raw content.
    pub fn redacted_context(caller_ref: EntityRef, destination_ref: DestinationRef, policy_ref: PolicyRef) -> (res: Self)
        ensures
            res.is_redacted_context(caller_ref, destination_ref, policy_ref),
    {
        let ghost pr = policy_ref;
        let res = ContentResolutionPolicy {
            caller_ref,
            destination_ref,
            purpose: ContentResolutionPurpose::ContextProjection,
            allowed_privacy_classes: vec![PrivacyClass::Public, PrivacyClass::ContentRefsOnly],
            max_bytes: 0,
            require_hash_match: true,
            retention_use: RetentionUse::ProviderProjection,
            on_missing: MissingContentPolicy::Fail,
            allow_raw_content: false,
            policy_refs: vec![policy_ref],
        };
        proof {
            assert(res.allowed_privacy_classes@ =~= seq![PrivacyClass::Public, PrivacyClass::ContentRefsOnly]);
            assert(res.policy_refs@ =~= seq![pr]);
        }
        res
    }

    /// The redacted context policy with raw content allowed up to `max_bytes`; every other
    /// field is as `redacted_context` sets it.
    pub fn raw_context(caller_ref: EntityRef, destination_ref: DestinationRef, policy_ref: PolicyRef, max_bytes: u64) -> (res: Self)
        ensures
            res.caller_ref == caller_ref,
            res.destination_ref == destination_ref,
            res.purpose == ContentResolutionPurpose::ContextProjection,
            res.allowed_privacy_classes@ == seq![PrivacyClass::Public, PrivacyClass::ContentRefsOnly],
            res.max_bytes == max_bytes,
            res.require_hash_match,
            res.retention_use == RetentionUse::ProviderProjection,
            res.on_missing == MissingContentPolicy::Fail,
            res.allow_raw_content,
            res.policy_refs@ == seq![policy_ref],
    {
        let mut policy = Self::redacted_context(caller_ref, destination_ref, policy_ref);
        policy.allowed_privacy_classes = vec![PrivacyClass::Public, PrivacyClass::ContentRefsOnly];
        policy.max_bytes = max_bytes;
        policy.allow_raw_content = true;
        proof {
            assert(policy.allowed_privacy_classes@ =~= seq![PrivacyClass::Public, PrivacyClass::ContentRefsOnly]);
        }
        policy
    }
}

impl ContentResolveRequest {
    /// A request for the version the reference carries.
    pub fn new(content_ref: ContentRef) -> (res: Self)
        ensures
            res.content_ref == content_ref,
            res.requested_version == content_ref.version,
    {
        ContentResolveRequest { requested_version: content_ref.version.clone(), content_ref }
    }
}

impl ResolvedContent {
    /// A resolution without bytes: mime and summary come from the reference, and no raw
    /// content is included.
    pub fn redacted(content_ref: ContentRef, policy_refs: Vec<PolicyRef>) -> (res: Self)
        ensures
            res.content_ref == content_ref,
            res.mime == content_ref.mime,
            res.bytes is None,
            res.redacted_summary == content_ref.redacted_summary,
            res.policy_refs@ == policy_refs@,
            !res.raw_content_included,
    {
        ResolvedContent {
            mime: content_ref.mime.clone(),
            redacted_summary: content_ref.redacted_summary.clone(),
            content_ref,
            bytes: None,
            policy_refs,
            raw_content_included: false,
        }
    }
}

/// The message of a content resolution failure of `kind`.
pub open spec fn resolution_failure_message(kind: ContentResolutionErrorKind) -> Seq<char> {
    "content resolution failed: "@ + kind.debug_name_spec()
}

/// How a content resolution failure of `kind` may be retried: missing content needs
/// repair, unavailable storage may be retried, anything else may not.
pub open spec fn resolution_retry(kind: ContentResolutionErrorKind) -> RetryClassification {
    match kind {
        ContentResolutionErrorKind::Missing => RetryClassification::RepairNeeded,
        ContentResolutionErrorKind::StorageUnavailable => RetryClassification::Retryable,
        _ => RetryClassification::NotRetryable,
    }
}

impl ContentResolutionError {
    /// The message the error displays.
    pub fn message(&self) -> (res: String)
        ensures
            res@ == resolution_failure_message(self.kind),
    {
        concat2("content resolution failed: ", self.kind.debug_name())
    }

    /// The agent error for this failure: a projection failure with the retry
    /// classification of its kind and the displayed message.
    pub fn to_agent_error(&self) -> (res: AgentError)
        ensures
            res.kind == AgentErrorKind::ProjectionFailure,
            res.retry == resolution_retry(self.kind),
            res.message@ == resolution_failure_message(self.kind),
    {
        let retry = match self.kind {
            ContentResolutionErrorKind::Missing => RetryClassification::RepairNeeded,
            ContentResolutionErrorKind::StorageUnavailable => RetryClassification::Retryable,
            _ => RetryClassification::NotRetryable,
        };
        AgentError::new(AgentErrorKind::ProjectionFailure, retry, self.message())
    }
}

/// A resolution error of `kind` about `content_ref`, summarised as the reference is.
#[allow(dead_code)]
pub(crate) fn resolution_error(kind: ContentResolutionErrorKind, content_ref: ContentRef, policy_refs: Vec<PolicyRef>) -> (res: ContentResolutionError)
    ensures
        res.kind == kind,
        res.content_ref == content_ref,
        res.policy_refs@ == policy_refs@,
        res.redacted_summary == content_ref.redacted_summary,
{
    ContentResolutionError { kind, redacted_summary: content_ref.redacted_summary.clone(), content_ref, policy_refs }
}

} // verus!
