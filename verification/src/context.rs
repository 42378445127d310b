use vstd::prelude::*;
use crate::content::{ContentRef};
use crate::domain::{AgentError, AgentErrorKind, ContentId, ContextItemId, ContextProjectionId, DestinationKind, DestinationRef, EntityKind, EntityRef, LineageRef, MessageId, PolicyKind, PolicyRef, PrivacyClass, RetentionClass, RetryClassification, SourceKind, SourceRef, TrustClass, ValueEq};
use crate::journal::{entity_is};
use crate::policy::{lemma_merge_policy_refs_concat, merge_policy_refs, merge_policy_refs_spec};

verus! {

/// Identifier of a context contribution.
#[derive(Debug)]
pub struct ContextContributionId(String);

impl View for ContextContributionId {
    type V = Seq<char>;

    closed spec fn view(&self) -> Seq<char> {
        self.0@
    }
}

impl Clone for ContextContributionId {
    fn clone(&self) -> (res: Self)
        ensures
            res == *self,
    {
        ContextContributionId(self.0.clone())
    }
}

impl crate::domain::ValueEq for ContextContributionId {
    open spec fn value_eq(&self, other: &Self) -> bool {
        self@ == other@
    }

    fn equals(&self, other: &Self) -> (r: bool) {
        let r = self.0 == other.0;
        proof {
            assert(self@ == self.0@ && other@ == other.0@);
            assert(r == (self@ == other@));
            assert(r == self.value_eq(other));
        }
        r
    }
}

impl ContextContributionId {
    /// Builds the identifier from a value that passes `validate_identifier`.
    pub fn new(value: String) -> (res: Self)
        requires
            crate::domain::identifier_check(value@) is Ok,
        ensures
            res@ == value@,
    {
        ContextContributionId(value)
    }

    /// Validates the value and builds the identifier, or returns the validation error.
    pub fn try_new(value: String) -> (res: Result<Self, crate::domain::IdValidationError>)
        ensures
            match res {
                Ok(id) => crate::domain::identifier_check(value@) is Ok && id@ == value@,
                Err(e) => crate::domain::identifier_check(value@) == Err::<(), crate::domain::IdValidationError>(e),
            },
    {
        match crate::domain::validate_identifier(value.as_str()) {
            Ok(()) => Ok(ContextContributionId(value)),
            Err(e) => Err(e),
        }
    }

    /// Returns the identifier text.
    pub fn as_str(&self) -> (res: &str)
        ensures
            res@ == self@,
    {
        self.0.as_str()
    }
}

/// Role of an agent message.
#[derive(Clone, Copy, Debug, PartialEq, Eq, Structural)]
pub enum AgentMessageRole {
    System,
    Developer,
    User,
    Assistant,
    Tool,
}

impl crate::domain::ValueEq for AgentMessageRole {
    open spec fn value_eq(&self, other: &Self) -> bool {
        *self == *other
    }

    fn equals(&self, other: &Self) -> (r: bool) {
        *self == *other
    }
}

/// One part of an agent message.
#[derive(Debug)]
pub enum AgentMessagePart {
    Text { text: String },
    ContentRef { content_ref: ContentRef },
    Redacted { redacted_summary: String, content_ref: Option<ContentRef> },
}

impl Clone for AgentMessagePart {
    fn clone(&self) -> (res: Self)
        ensures
            res == *self,
    {
        match self {
            AgentMessagePart::Text { text } => { AgentMessagePart::Text { text: text.clone() } }
            AgentMessagePart::ContentRef { content_ref } => { AgentMessagePart::ContentRef { content_ref: content_ref.clone() } }
            AgentMessagePart::Redacted { redacted_summary, content_ref } => { AgentMessagePart::Redacted { redacted_summary: redacted_summary.clone(), content_ref: content_ref.clone() } }
        }
    }
}

/// An agent message with its provenance and classification.
#[derive(Debug)]
pub struct AgentMessage {
    pub message_id: MessageId,
    pub role: AgentMessageRole,
    pub parts: Vec<AgentMessagePart>,
    pub producer_ref: EntityRef,
    pub source_ref: SourceRef,
    pub destination_ref: Option<DestinationRef>,
    pub policy_refs: Vec<PolicyRef>,
    pub privacy_class: PrivacyClass,
    pub retention_class: RetentionClass,
    pub trust_class: TrustClass,
    pub lineage_refs: Vec<LineageRef>,
    pub redacted_summary: String,
    pub provider_projected: bool,
}

impl AgentMessage {
    /// Field-wise equality, with vectors compared by their contents.
    pub open spec fn same_as(&self, other: &Self) -> bool {
        &&& self.message_id == other.message_id
        &&& self.role == other.role
        &&& self.parts@ == other.parts@
        &&& self.producer_ref == other.producer_ref
        &&& self.source_ref == other.source_ref
        &&& self.destination_ref == other.destination_ref
        &&& self.policy_refs@ == other.policy_refs@
        &&& self.privacy_class == other.privacy_class
        &&& self.retention_class == other.retention_class
        &&& self.trust_class == other.trust_class
        &&& self.lineage_refs@ == other.lineage_refs@
        &&& self.redacted_summary == other.redacted_summary
        &&& self.provider_projected == other.provider_projected
    }
}

impl Clone for AgentMessage {
    fn clone(&self) -> (res: Self)
        ensures
            res.same_as(self),
    {
        let parts_copy = self.parts.clone();
        proof { assert(parts_copy@ =~= self.parts@); }
        let policy_refs_copy = self.policy_refs.clone();
        proof { assert(policy_refs_copy@ =~= self.policy_refs@); }
        let lineage_refs_copy = self.lineage_refs.clone();
        proof { assert(lineage_refs_copy@ =~= self.lineage_refs@); }
        AgentMessage {
            message_id: self.message_id.clone(),
            role: self.role,
            parts: parts_copy,
            producer_ref: self.producer_ref.clone(),
            source_ref: self.source_ref.clone(),
            destination_ref: self.destination_ref.clone(),
            policy_refs: policy_refs_copy,
            privacy_class: self.privacy_class,
            retention_class: self.retention_class,
            trust_class: self.trust_class,
            lineage_refs: lineage_refs_copy,
            redacted_summary: self.redacted_summary.clone(),
            provider_projected: self.provider_projected,
        }
    }
}

/// Kind of context contribution.
#[derive(Clone, Copy, Debug, PartialEq, Eq, Structural)]
pub enum ContextContributionKind {
    UserInput,
    HostContext,
    MemoryRecall,
    ToolResult,
    SkillResult,
    FileContext,
    RemoteChannel,
    AgentPoolMessage,
    SubagentHandoff,
    CompactionSummary,
    SystemInstruction,
    OutputSchemaHint,
}

impl crate::domain::ValueEq for ContextContributionKind {
    open spec fn value_eq(&self, other: &Self) -> bool {
        *self == *other
    }

    fn equals(&self, other: &Self) -> (r: bool) {
        *self == *other
    }
}

/// Budget hint attached to a contribution.
#[derive(Debug)]
pub struct ContextBudgetHint {
    pub token_estimate: Option<u32>,
    pub byte_estimate: Option<u64>,
    pub priority: u16,
}

impl Clone for ContextBudgetHint {
    fn clone(&self) -> (res: Self)
        ensures
            res == *self,
    {
        ContextBudgetHint {
            token_estimate: self.token_estimate.clone(),
            byte_estimate: self.byte_estimate.clone(),
            priority: self.priority,
        }
    }
}

/// A candidate for the provider context.
#[derive(Debug)]
pub struct ContextContribution {
    pub contribution_id: ContextContributionId,
    pub kind: ContextContributionKind,
    pub producer_ref: EntityRef,
    pub source_ref: SourceRef,
    pub content_ref: Option<ContentRef>,
    pub inline_redacted_summary: Option<String>,
    pub derived_from: Vec<EntityRef>,
    pub policy_refs: Vec<PolicyRef>,
    pub privacy_class: PrivacyClass,
    pub retention_class: RetentionClass,
    pub trust_class: TrustClass,
    pub budget_hint: Option<ContextBudgetHint>,
    pub required: bool,
    pub protected: bool,
    pub redacted_summary: String,
}

impl ContextContribution {
    /// Field-wise equality, with vectors compared by their contents.
    pub open spec fn same_as(&self, other: &Self) -> bool {
        &&& self.contribution_id == other.contribution_id
        &&& self.kind == other.kind
        &&& self.producer_ref == other.producer_ref
        &&& self.source_ref == other.source_ref
        &&& self.content_ref == other.content_ref
        &&& self.inline_redacted_summary == other.inline_redacted_summary
        &&& self.derived_from@ == other.derived_from@
        &&& self.policy_refs@ == other.policy_refs@
        &&& self.privacy_class == other.privacy_class
        &&& self.retention_class == other.retention_class
        &&& self.trust_class == other.trust_class
        &&& self.budget_hint == other.budget_hint
        &&& self.required == other.required
        &&& self.protected == other.protected
        &&& self.redacted_summary == other.redacted_summary
    }
}

impl Clone for ContextContribution {
    fn clone(&self) -> (res: Self)
        ensures
            res.same_as(self),
    {
        let derived_from_copy = self.derived_from.clone();
        proof { assert(derived_from_copy@ =~= self.derived_from@); }
        let policy_refs_copy = self.policy_refs.clone();
        proof { assert(policy_refs_copy@ =~= self.policy_refs@); }
        ContextContribution {
            contribution_id: self.contribution_id.clone(),
            kind: self.kind,
            producer_ref: self.producer_ref.clone(),
            source_ref: self.source_ref.clone(),
            content_ref: self.content_ref.clone(),
            inline_redacted_summary: self.inline_redacted_summary.clone(),
            derived_from: derived_from_copy,
            policy_refs: policy_refs_copy,
            privacy_class: self.privacy_class,
            retention_class: self.retention_class,
            trust_class: self.trust_class,
            budget_hint: self.budget_hint.clone(),
            required: self.required,
            protected: self.protected,
            redacted_summary: self.redacted_summary.clone(),
        }
    }
}

/// Role an item plays in the provider projection.
#[derive(Clone, Copy, Debug, PartialEq, Eq, Structural)]
pub enum ProjectionRole {
    System,
    Developer,
    User,
    AssistantContext,
    ToolResult,
    SchemaHint,
}

impl crate::domain::ValueEq for ProjectionRole {
    open spec fn value_eq(&self, other: &Self) -> bool {
        *self == *other
    }

    fn equals(&self, other: &Self) -> (r: bool) {
        *self == *other
    }
}

/// Why a contribution was included in or omitted from the projection.
#[derive(Clone, Copy, Debug, PartialEq, Eq, Structural)]
pub enum ContextSelectionReason {
    Required,
    Pinned,
    Relevant,
    Recent,
    ToolResultRequired,
    Compacted,
    Redacted,
    OmittedBudget,
    OmittedPolicy,
    OmittedDuplicate,
    OmittedTrust,
    OmittedStale,
    OmittedMissingRef,
    ProtectedOmittedByPolicy,
}

impl crate::domain::ValueEq for ContextSelectionReason {
    open spec fn value_eq(&self, other: &Self) -> bool {
        *self == *other
    }

    fn equals(&self, other: &Self) -> (r: bool) {
        *self == *other
    }
}

/// The selection decision about one contribution.
#[derive(Debug)]
pub struct ContextSelectionDecision {
    pub contribution_id: Option<ContextContributionId>,
    pub context_item_id: Option<ContextItemId>,
    pub reason: ContextSelectionReason,
    pub producer_ref: EntityRef,
    pub source_ref: SourceRef,
    pub content_ref: Option<ContentRef>,
    pub policy_refs: Vec<PolicyRef>,
    pub privacy_class: PrivacyClass,
    pub retention_class: RetentionClass,
    pub trust_class: TrustClass,
    pub required: bool,
    pub protected: bool,
    pub redacted_summary: String,
}

impl ContextSelectionDecision {
    /// Field-wise equality, with vectors compared by their contents.
    pub open spec fn same_as(&self, other: &Self) -> bool {
        &&& self.contribution_id == other.contribution_id
        &&& self.context_item_id == other.context_item_id
        &&& self.reason == other.reason
        &&& self.producer_ref == other.producer_ref
        &&& self.source_ref == other.source_ref
        &&& self.content_ref == other.content_ref
        &&& self.policy_refs@ == other.policy_refs@
        &&& self.privacy_class == other.privacy_class
        &&& self.retention_class == other.retention_class
        &&& self.trust_class == other.trust_class
        &&& self.required == other.required
        &&& self.protected == other.protected
        &&& self.redacted_summary == other.redacted_summary
    }
}

impl Clone for ContextSelectionDecision {
    fn clone(&self) -> (res: Self)
        ensures
            res.same_as(self),
    {
        let policy_refs_copy = self.policy_refs.clone();
        proof { assert(policy_refs_copy@ =~= self.policy_refs@); }
        ContextSelectionDecision {
            contribution_id: self.contribution_id.clone(),
            context_item_id: self.context_item_id.clone(),
            reason: self.reason,
            producer_ref: self.producer_ref.clone(),
            source_ref: self.source_ref.clone(),
            content_ref: self.content_ref.clone(),
            policy_refs: policy_refs_copy,
            privacy_class: self.privacy_class,
            retention_class: self.retention_class,
            trust_class: self.trust_class,
            required: self.required,
            protected: self.protected,
            redacted_summary: self.redacted_summary.clone(),
        }
    }
}

/// A contribution admitted to the context.
#[derive(Debug)]
pub struct ContextItem {
    pub context_item_id: ContextItemId,
    pub contribution_id: Option<ContextContributionId>,
    pub kind: ContextContributionKind,
    pub producer_ref: EntityRef,
    pub source_ref: SourceRef,
    pub destination_ref: DestinationRef,
    pub content_ref: Option<ContentRef>,
    pub inline_redacted_summary: Option<String>,
    pub derived_from: Vec<EntityRef>,
    pub projection_role: ProjectionRole,
    pub policy_refs: Vec<PolicyRef>,
    pub privacy_class: PrivacyClass,
    pub retention_class: RetentionClass,
    pub trust_class: TrustClass,
    pub budget_hint: Option<ContextBudgetHint>,
    pub selection: ContextSelectionDecision,
    pub lineage_refs: Vec<LineageRef>,
    pub redacted_summary: String,
}

impl ContextItem {
    /// Field-wise equality, with vectors compared by their contents.
    pub open spec fn same_as(&self, other: &Self) -> bool {
        &&& self.context_item_id == other.context_item_id
        &&& self.contribution_id == other.contribution_id
        &&& self.kind == other.kind
        &&& self.producer_ref == other.producer_ref
        &&& self.source_ref == other.source_ref
        &&& self.destination_ref == other.destination_ref
        &&& self.content_ref == other.content_ref
        &&& self.inline_redacted_summary == other.inline_redacted_summary
        &&& self.derived_from@ == other.derived_from@
        &&& self.projection_role == other.projection_role
        &&& self.policy_refs@ == other.policy_refs@
        &&& self.privacy_class == other.privacy_class
        &&& self.retention_class == other.retention_class
        &&& self.trust_class == other.trust_class
        &&& self.budget_hint == other.budget_hint
        &&& self.selection.same_as(&other.selection)
        &&& self.lineage_refs@ == other.lineage_refs@
        &&& self.redacted_summary == other.redacted_summary
    }
}

impl Clone for ContextItem {
    fn clone(&self) -> (res: Self)
        ensures
            res.same_as(self),
    {
        let derived_from_copy = self.derived_from.clone();
        proof { assert(derived_from_copy@ =~= self.derived_from@); }
        let policy_refs_copy = self.policy_refs.clone();
        proof { assert(policy_refs_copy@ =~= self.policy_refs@); }
        let lineage_refs_copy = self.lineage_refs.clone();
        proof { assert(lineage_refs_copy@ =~= self.lineage_refs@); }
        ContextItem {
            context_item_id: self.context_item_id.clone(),
            contribution_id: self.contribution_id.clone(),
            kind: self.kind,
            producer_ref: self.producer_ref.clone(),
            source_ref: self.source_ref.clone(),
            destination_ref: self.destination_ref.clone(),
            content_ref: self.content_ref.clone(),
            inline_redacted_summary: self.inline_redacted_summary.clone(),
            derived_from: derived_from_copy,
            projection_role: self.projection_role,
            policy_refs: policy_refs_copy,
            privacy_class: self.privacy_class,
            retention_class: self.retention_class,
            trust_class: self.trust_class,
            budget_hint: self.budget_hint.clone(),
            selection: self.selection.clone(),
            lineage_refs: lineage_refs_copy,
            redacted_summary: self.redacted_summary.clone(),
        }
    }
}

/// The provider-visible part of a context item; never raw content.
#[derive(Debug)]
pub struct ProjectedContextPart {
    pub context_item_id: ContextItemId,
    pub role: ProjectionRole,
    pub content_ref: Option<ContentRef>,
    pub text: Option<String>,
    pub redacted_summary: String,
    pub raw_content_included: bool,
    pub privacy_class: PrivacyClass,
    pub retention_class: RetentionClass,
}

impl Clone for ProjectedContextPart {
    fn clone(&self) -> (res: Self)
        ensures
            res == *self,
    {
        ProjectedContextPart {
            context_item_id: self.context_item_id.clone(),
            role: self.role,
            content_ref: self.content_ref.clone(),
            text: self.text.clone(),
            redacted_summary: self.redacted_summary.clone(),
            raw_content_included: self.raw_content_included,
            privacy_class: self.privacy_class,
            retention_class: self.retention_class,
        }
    }
}

/// Budget totals of a projection.
#[derive(Debug)]
pub struct ContextBudgetSummary {
    pub max_tokens: Option<u32>,
    pub used_tokens: u32,
    pub max_items: Option<u32>,
    pub included_items: u32,
    pub omitted_items: u32,
}

impl Clone for ContextBudgetSummary {
    fn clone(&self) -> (res: Self)
        ensures
            res == *self,
    {
        ContextBudgetSummary {
            max_tokens: self.max_tokens.clone(),
            used_tokens: self.used_tokens,
            max_items: self.max_items.clone(),
            included_items: self.included_items,
            omitted_items: self.omitted_items,
        }
    }
}

/// Audit of a projection: every decision and the counts by reason.
#[derive(Debug)]
pub struct ContextProjectionAudit {
    pub projection_id: ContextProjectionId,
    pub source_message_ids: Vec<MessageId>,
    pub candidate_count: u32,
    pub included_count: u32,
    pub omitted_count: u32,
    pub compacted_count: u32,
    pub redacted_count: u32,
    pub policy_denied_count: u32,
    pub budget_denied_count: u32,
    pub missing_ref_count: u32,
    pub protected_omitted_count: u32,
    pub decisions: Vec<ContextSelectionDecision>,
    pub budget: ContextBudgetSummary,
    pub policy_refs: Vec<PolicyRef>,
    pub redaction_policy_id: PolicyRef,
    pub runtime_package_fingerprint: String,
}

impl ContextProjectionAudit {
    /// Field-wise equality, with vectors compared by their contents.
    pub open spec fn same_as(&self, other: &Self) -> bool {
        &&& self.projection_id == other.projection_id
        &&& self.source_message_ids@ == other.source_message_ids@
        &&& self.candidate_count == other.candidate_count
        &&& self.included_count == other.included_count
        &&& self.omitted_count == other.omitted_count
        &&& self.compacted_count == other.compacted_count
        &&& self.redacted_count == other.redacted_count
        &&& self.policy_denied_count == other.policy_denied_count
        &&& self.budget_denied_count == other.budget_denied_count
        &&& self.missing_ref_count == other.missing_ref_count
        &&& self.protected_omitted_count == other.protected_omitted_count
        &&& (self.decisions@.len() == other.decisions@.len() && (forall|i: int| 0 <= i < self.decisions@.len() ==> #[trigger] self.decisions@[i].same_as(&other.decisions@[i])))
        &&& self.budget == other.budget
        &&& self.policy_refs@ == other.policy_refs@
        &&& self.redaction_policy_id == other.redaction_policy_id
        &&& self.runtime_package_fingerprint == other.runtime_package_fingerprint
    }
}

impl Clone for ContextProjectionAudit {
    fn clone(&self) -> (res: Self)
        ensures
            res.same_as(self),
    {
        let source_message_ids_copy = self.source_message_ids.clone();
        proof { assert(source_message_ids_copy@ =~= self.source_message_ids@); }
        let decisions_copy = self.decisions.clone();
        proof { assert forall|i: int| 0 <= i < decisions_copy@.len() implies #[trigger] decisions_copy@[i].same_as(&self.decisions@[i]) by {} }
        let policy_refs_copy = self.policy_refs.clone();
        proof { assert(policy_refs_copy@ =~= self.policy_refs@); }
        ContextProjectionAudit {
            projection_id: self.projection_id.clone(),
            source_message_ids: source_message_ids_copy,
            candidate_count: self.candidate_count,
            included_count: self.included_count,
            omitted_count: self.omitted_count,
            compacted_count: self.compacted_count,
            redacted_count: self.redacted_count,
            policy_denied_count: self.policy_denied_count,
            budget_denied_count: self.budget_denied_count,
            missing_ref_count: self.missing_ref_count,
            protected_omitted_count: self.protected_omitted_count,
            decisions: decisions_copy,
            budget: self.budget.clone(),
            policy_refs: policy_refs_copy,
            redaction_policy_id: self.redaction_policy_id.clone(),
            runtime_package_fingerprint: self.runtime_package_fingerprint.clone(),
        }
    }
}

/// A context projection ready for a provider destination.
#[derive(Debug)]
pub struct ContextProjection {
    pub projection_id: ContextProjectionId,
    pub source_messages: Vec<AgentMessage>,
    pub items: Vec<ContextItem>,
    pub projected_parts: Vec<ProjectedContextPart>,
    pub audit: ContextProjectionAudit,
    pub provider_destination: DestinationRef,
}

impl ContextProjection {
    /// Field-wise equality, with vectors compared by their contents.
    pub open spec fn same_as(&self, other: &Self) -> bool {
        &&& self.projection_id == other.projection_id
        &&& (self.source_messages@.len() == other.source_messages@.len() && (forall|i: int| 0 <= i < self.source_messages@.len() ==> #[trigger] self.source_messages@[i].same_as(&other.source_messages@[i])))
        &&& (self.items@.len() == other.items@.len() && (forall|i: int| 0 <= i < self.items@.len() ==> #[trigger] self.items@[i].same_as(&other.items@[i])))
        &&& self.projected_parts@ == other.projected_parts@
        &&& self.audit.same_as(&other.audit)
        &&& self.provider_destination == other.provider_destination
    }
}

impl Clone for ContextProjection {
    fn clone(&self) -> (res: Self)
        ensures
            res.same_as(self),
    {
        let source_messages_copy = self.source_messages.clone();
        proof { assert forall|i: int| 0 <= i < source_messages_copy@.len() implies #[trigger] source_messages_copy@[i].same_as(&self.source_messages@[i]) by {} }
        let items_copy = self.items.clone();
        proof { assert forall|i: int| 0 <= i < items_copy@.len() implies #[trigger] items_copy@[i].same_as(&self.items@[i]) by {} }
        let projected_parts_copy = self.projected_parts.clone();
        proof { assert(projected_parts_copy@ =~= self.projected_parts@); }
        ContextProjection {
            projection_id: self.projection_id.clone(),
            source_messages: source_messages_copy,
            items: items_copy,
            projected_parts: projected_parts_copy,
            audit: self.audit.clone(),
            provider_destination: self.provider_destination.clone(),
        }
    }
}

impl AgentMessage {
    /// A user text message with one text part, attributed to the message itself.
    pub fn user_text(message_id: MessageId, text: String, source_ref: SourceRef, policy_ref: PolicyRef) -> (res: Self)
        ensures
            res.message_id == message_id,
            res.role == AgentMessageRole::User,
            res.parts@ == seq![AgentMessagePart::Text { text }],
            entity_is(res.producer_ref, EntityKind::Message, message_id@),
            res.source_ref == source_ref,
            res.destination_ref is None,
            res.policy_refs@ == seq![policy_ref],
            res.privacy_class == PrivacyClass::ContentRefsOnly,
            res.retention_class == RetentionClass::RunScoped,
            res.trust_class == TrustClass::UserProvided,
            res.lineage_refs@.len() == 0,
            res.redacted_summary@ == "user text message"@,
            !res.provider_projected,
    {
        let producer_ref = EntityRef::message(&message_id);
        let mut parts: Vec<AgentMessagePart> = Vec::new();
        parts.push(AgentMessagePart::Text { text });
        let mut policy_refs: Vec<PolicyRef> = Vec::new();
        policy_refs.push(policy_ref);
        proof {
            assert(parts@ =~= seq![AgentMessagePart::Text { text }]);
            assert(policy_refs@ =~= seq![policy_ref]);
        }
        AgentMessage {
            message_id,
            role: AgentMessageRole::User,
            parts,
            producer_ref,
            source_ref,
            destination_ref: None,
            policy_refs,
            privacy_class: PrivacyClass::ContentRefsOnly,
            retention_class: RetentionClass::RunScoped,
            trust_class: TrustClass::UserProvided,
            lineage_refs: Vec::new(),
            redacted_summary: "user text message".to_string(),
            provider_projected: false,
        }
    }
}

impl ContextContribution {
    /// A host-provided, run-scoped contribution under one policy, with no content ref,
    /// budget hint or lineage, neither required nor protected.
    pub fn new(
        contribution_id: ContextContributionId,
        kind: ContextContributionKind,
        producer_ref: EntityRef,
        source_ref: SourceRef,
        policy_ref: PolicyRef,
        redacted_summary: String,
    ) -> (res: Self)
        ensures
            res.contribution_id == contribution_id,
            res.kind == kind,
            res.producer_ref == producer_ref,
            res.source_ref == source_ref,
            res.content_ref is None,
            res.inline_redacted_summary is None,
            res.derived_from@.len() == 0,
            res.policy_refs@ == seq![policy_ref],
            res.privacy_class == PrivacyClass::ContentRefsOnly,
            res.retention_class == RetentionClass::RunScoped,
            res.trust_class == TrustClass::HostProvided,
            res.budget_hint is None,
            !res.required,
            !res.protected,
            res.redacted_summary == redacted_summary,
    {
        let mut policy_refs: Vec<PolicyRef> = Vec::new();
        policy_refs.push(policy_ref);
        proof {
            assert(policy_refs@ =~= seq![policy_ref]);
        }
        ContextContribution {
            contribution_id,
            kind,
            producer_ref,
            source_ref,
            content_ref: None,
            inline_redacted_summary: None,
            derived_from: Vec::new(),
            policy_refs,
            privacy_class: PrivacyClass::ContentRefsOnly,
            retention_class: RetentionClass::RunScoped,
            trust_class: TrustClass::HostProvided,
            budget_hint: None,
            required: false,
            protected: false,
            redacted_summary,
        }
    }

    /// The contribution with its content ref set.
    pub fn with_content_ref(self, content_ref: ContentRef) -> (res: Self)
        ensures
            res == (ContextContribution { content_ref: Some(content_ref), ..self }),
    {
        let mut contribution = self;
        contribution.content_ref = Some(content_ref);
        contribution
    }

    /// The contribution, marked required.
    pub fn required(self) -> (res: Self)
        ensures
            res == (ContextContribution { required: true, ..self }),
    {
        let mut contribution = self;
        contribution.required = true;
        contribution
    }

    /// The contribution, marked protected.
    pub fn protected(self) -> (res: Self)
        ensures
            res == (ContextContribution { protected: true, ..self }),
    {
        let mut contribution = self;
        contribution.protected = true;
        contribution
    }
}

impl ContextSelectionReason {
    /// Whether the reason includes the contribution in the projection.
    pub open spec fn is_included_spec(self) -> bool {
        match self {
            ContextSelectionReason::Required
            | ContextSelectionReason::Pinned
            | ContextSelectionReason::Relevant
            | ContextSelectionReason::Recent
            | ContextSelectionReason::ToolResultRequired
            | ContextSelectionReason::Compacted
            | ContextSelectionReason::Redacted => true,
            _ => false,
        }
    }

    /// Whether the reason includes the contribution in the projection.
    pub fn is_included(&self) -> (r: bool)
        ensures
            r == self.is_included_spec(),
    {
        match self {
            ContextSelectionReason::Required
            | ContextSelectionReason::Pinned
            | ContextSelectionReason::Relevant
            | ContextSelectionReason::Recent
            | ContextSelectionReason::ToolResultRequired
            | ContextSelectionReason::Compacted
            | ContextSelectionReason::Redacted => true,
            _ => false,
        }
    }
}

impl ContextSelectionDecision {
    /// Whether this decision copies `contribution`'s provenance and classification, with
    /// the given item and reason.
    pub open spec fn decides(
        &self,
        contribution: ContextContribution,
        context_item_id: Option<ContextItemId>,
        reason: ContextSelectionReason,
    ) -> bool {
        &&& self.contribution_id == Some(contribution.contribution_id)
        &&& self.context_item_id == context_item_id
        &&& self.reason == reason
        &&& self.producer_ref == contribution.producer_ref
        &&& self.source_ref == contribution.source_ref
        &&& self.content_ref == contribution.content_ref
        &&& self.policy_refs@ == contribution.policy_refs@
        &&& self.privacy_class == contribution.privacy_class
        &&& self.retention_class == contribution.retention_class
        &&& self.trust_class == contribution.trust_class
        &&& self.required == contribution.required
        &&& self.protected == contribution.protected
        &&& self.redacted_summary == contribution.redacted_summary
    }

    /// The selection of a contribution as the given item: required if the contribution is,
    /// relevant otherwise.
    pub fn selected(contribution: &ContextContribution, context_item_id: ContextItemId) -> (res: Self)
        ensures
            res.decides(
                *contribution,
                Some(context_item_id),
                if contribution.required {
                    ContextSelectionReason::Required
                } else {
                    ContextSelectionReason::Relevant
                },
            ),
    {
        let reason = if contribution.required {
            ContextSelectionReason::Required
        } else {
            ContextSelectionReason::Relevant
        };
        Self::from_contribution(contribution, Some(context_item_id), reason)
    }

    /// The omission of a contribution, for the given reason.
    pub fn omitted(contribution: &ContextContribution, reason: ContextSelectionReason) -> (res: Self)
        ensures
            res.decides(*contribution, None, reason),
    {
        Self::from_contribution(contribution, None, reason)
    }

    fn from_contribution(
        contribution: &ContextContribution,
        context_item_id: Option<ContextItemId>,
        reason: ContextSelectionReason,
    ) -> (res: Self)
        ensures
            res.decides(*contribution, context_item_id, reason),
    {
        let policy_refs = contribution.policy_refs.clone();
        proof {
            assert(policy_refs@ =~= contribution.policy_refs@);
        }
        ContextSelectionDecision {
            contribution_id: Some(contribution.contribution_id.clone()),
            context_item_id,
            reason,
            producer_ref: contribution.producer_ref.clone(),
            source_ref: contribution.source_ref.clone(),
            content_ref: contribution.content_ref.clone(),
            policy_refs,
            privacy_class: contribution.privacy_class,
            retention_class: contribution.retention_class,
            trust_class: contribution.trust_class,
            required: contribution.required,
            protected: contribution.protected,
            redacted_summary: contribution.redacted_summary.clone(),
        }
    }
}

impl ContextItem {
    /// Accepts a contribution as an item for `destination_ref` in the given role; the item
    /// records its selection.
    pub fn accept(
        contribution: ContextContribution,
        context_item_id: ContextItemId,
        destination_ref: DestinationRef,
        projection_role: ProjectionRole,
    ) -> (res: Self)
        ensures
            res.context_item_id == context_item_id,
            res.contribution_id == Some(contribution.contribution_id),
            res.kind == contribution.kind,
            res.producer_ref == contribution.producer_ref,
            res.source_ref == contribution.source_ref,
            res.destination_ref == destination_ref,
            res.content_ref == contribution.content_ref,
            res.inline_redacted_summary == contribution.inline_redacted_summary,
            res.derived_from == contribution.derived_from,
            res.projection_role == projection_role,
            res.policy_refs == contribution.policy_refs,
            res.privacy_class == contribution.privacy_class,
            res.retention_class == contribution.retention_class,
            res.trust_class == contribution.trust_class,
            res.budget_hint == contribution.budget_hint,
            res.selection.decides(
                contribution,
                Some(context_item_id),
                if contribution.required {
                    ContextSelectionReason::Required
                } else {
                    ContextSelectionReason::Relevant
                },
            ),
            res.lineage_refs@.len() == 0,
            res.redacted_summary == contribution.redacted_summary,
    {
        let selection = ContextSelectionDecision::selected(&contribution, context_item_id.clone());
        ContextItem {
            context_item_id,
            contribution_id: Some(contribution.contribution_id),
            kind: contribution.kind,
            producer_ref: contribution.producer_ref,
            source_ref: contribution.source_ref,
            destination_ref,
            content_ref: contribution.content_ref,
            inline_redacted_summary: contribution.inline_redacted_summary,
            derived_from: contribution.derived_from,
            projection_role,
            policy_refs: contribution.policy_refs,
            privacy_class: contribution.privacy_class,
            retention_class: contribution.retention_class,
            trust_class: contribution.trust_class,
            budget_hint: contribution.budget_hint,
            selection,
            lineage_refs: Vec::new(),
            redacted_summary: contribution.redacted_summary,
        }
    }

    /// Whether `part` is the provider part of this item.
    pub open spec fn projects_to(&self, part: ProjectedContextPart) -> bool {
        &&& part.context_item_id == self.context_item_id
        &&& part.role == self.projection_role
        &&& part.content_ref == self.content_ref
        &&& part.text == self.inline_redacted_summary
        &&& part.redacted_summary == self.redacted_summary
        &&& !part.raw_content_included
        &&& part.privacy_class == self.privacy_class
        &&& part.retention_class == self.retention_class
    }

    /// The provider-visible part of this item: its ref and redacted text, never raw content.
    pub fn provider_part(&self) -> (res: ProjectedContextPart)
        ensures
            self.projects_to(res),
    {
        ProjectedContextPart {
            context_item_id: self.context_item_id.clone(),
            role: self.projection_role,
            content_ref: self.content_ref.clone(),
            text: self.inline_redacted_summary.clone(),
            redacted_summary: self.redacted_summary.clone(),
            raw_content_included: false,
            privacy_class: self.privacy_class,
            retention_class: self.retention_class,
        }
    }
}

impl Default for ContextBudgetSummary {
    /// No limits, nothing used or counted.
    fn default() -> (res: Self)
        ensures
            res.max_tokens is None,
            res.used_tokens == 0,
            res.max_items is None,
            res.included_items == 0,
            res.omitted_items == 0,
    {
        ContextBudgetSummary { max_tokens: None, used_tokens: 0, max_items: None, included_items: 0, omitted_items: 0 }
    }
}

/// The (reason, required, protected) flags of each decision.
pub open spec fn decision_flags(decisions: Seq<ContextSelectionDecision>) -> Seq<(ContextSelectionReason, bool, bool)> {
    decisions.map_values(|d: ContextSelectionDecision| (d.reason, d.required, d.protected))
}

/// The policy refs of the decisions, in order, concatenated.
pub open spec fn decision_policy_refs(decisions: Seq<ContextSelectionDecision>) -> Seq<PolicyRef>
    decreases decisions.len(),
{
    if decisions.len() == 0 {
        Seq::empty()
    } else {
        decision_policy_refs(decisions.drop_last()) + decisions.last().policy_refs@
    }
}

/// Number of the decisions that include their contribution, over (reason, required, protected) flags.
pub open spec fn count_included(flags: Seq<(ContextSelectionReason, bool, bool)>) -> nat
    decreases flags.len(),
{
    if flags.len() == 0 {
        0
    } else {
        let r = flags.last();
        count_included(flags.drop_last()) + if r.0.is_included_spec() { 1nat } else { 0nat }
    }
}

/// Number of the decisions that omit their contribution, over (reason, required, protected) flags.
pub open spec fn count_omitted(flags: Seq<(ContextSelectionReason, bool, bool)>) -> nat
    decreases flags.len(),
{
    if flags.len() == 0 {
        0
    } else {
        let r = flags.last();
        count_omitted(flags.drop_last()) + if !r.0.is_included_spec() { 1nat } else { 0nat }
    }
}

/// Number of the decisions made for compaction, over (reason, required, protected) flags.
pub open spec fn count_compacted(flags: Seq<(ContextSelectionReason, bool, bool)>) -> nat
    decreases flags.len(),
{
    if flags.len() == 0 {
        0
    } else {
        let r = flags.last();
        count_compacted(flags.drop_last()) + if r.0 == ContextSelectionReason::Compacted { 1nat } else { 0nat }
    }
}

/// Number of the decisions made for redaction, over (reason, required, protected) flags.
pub open spec fn count_redacted(flags: Seq<(ContextSelectionReason, bool, bool)>) -> nat
    decreases flags.len(),
{
    if flags.len() == 0 {
        0
    } else {
        let r = flags.last();
        count_redacted(flags.drop_last()) + if r.0 == ContextSelectionReason::Redacted { 1nat } else { 0nat }
    }
}

/// Number of the omissions by policy, protected or not, over (reason, required, protected) flags.
pub open spec fn count_policy_denied(flags: Seq<(ContextSelectionReason, bool, bool)>) -> nat
    decreases flags.len(),
{
    if flags.len() == 0 {
        0
    } else {
        let r = flags.last();
        count_policy_denied(flags.drop_last()) + if r.0 == ContextSelectionReason::OmittedPolicy || r.0 == ContextSelectionReason::ProtectedOmittedByPolicy { 1nat } else { 0nat }
    }
}

/// Number of the omissions for budget, over (reason, required, protected) flags.
pub open spec fn count_budget_denied(flags: Seq<(ContextSelectionReason, bool, bool)>) -> nat
    decreases flags.len(),
{
    if flags.len() == 0 {
        0
    } else {
        let r = flags.last();
        count_budget_denied(flags.drop_last()) + if r.0 == ContextSelectionReason::OmittedBudget { 1nat } else { 0nat }
    }
}

/// Number of the omissions for a missing content ref, over (reason, required, protected) flags.
pub open spec fn count_missing_ref(flags: Seq<(ContextSelectionReason, bool, bool)>) -> nat
    decreases flags.len(),
{
    if flags.len() == 0 {
        0
    } else {
        let r = flags.last();
        count_missing_ref(flags.drop_last()) + if r.0 == ContextSelectionReason::OmittedMissingRef { 1nat } else { 0nat }
    }
}

/// Number of the omissions of protected contributions, over (reason, required, protected) flags.
pub open spec fn count_protected_omitted(flags: Seq<(ContextSelectionReason, bool, bool)>) -> nat
    decreases flags.len(),
{
    if flags.len() == 0 {
        0
    } else {
        let r = flags.last();
        count_protected_omitted(flags.drop_last()) + if r.2 && !r.0.is_included_spec() { 1nat } else { 0nat }
    }
}


/// Some decision omitted a required contribution for a missing content ref.
pub open spec fn has_blocking_missing_required_ref_spec(decisions: Seq<ContextSelectionDecision>) -> bool {
    exists|i: int|
        0 <= i < decisions.len() && (#[trigger] decisions[i]).required && decisions[i].reason
            == ContextSelectionReason::OmittedMissingRef
}

proof fn lemma_count_protected_omitted_positive(flags: Seq<(ContextSelectionReason, bool, bool)>)
    ensures
        count_protected_omitted(flags) > 0 <==> exists|i: int|
            0 <= i < flags.len() && (#[trigger] flags[i]).2 && !flags[i].0.is_included_spec(),
    decreases flags.len(),
{
    if flags.len() > 0 {
        let init = flags.drop_last();
        lemma_count_protected_omitted_positive(init);
        if exists|i: int| 0 <= i < init.len() && (#[trigger] init[i]).2 && !init[i].0.is_included_spec() {
            let i = choose|i: int| 0 <= i < init.len() && (#[trigger] init[i]).2 && !init[i].0.is_included_spec();
            assert(flags[i] == init[i]);
        }
        if exists|i: int| 0 <= i < flags.len() && (#[trigger] flags[i]).2 && !flags[i].0.is_included_spec() {
            let i = choose|i: int| 0 <= i < flags.len() && (#[trigger] flags[i]).2 && !flags[i].0.is_included_spec();
            if i < init.len() {
                assert(init[i] == flags[i]);
            }
        }
    }
}

proof fn lemma_included_plus_omitted(flags: Seq<(ContextSelectionReason, bool, bool)>)
    ensures
        count_included(flags) + count_omitted(flags) == flags.len(),
    decreases flags.len(),
{
    if flags.len() > 0 {
        lemma_included_plus_omitted(flags.drop_last());
    }
}

impl ContextProjectionAudit {
    /// Whether the counts, budget item totals and merged policy refs agree with the
    /// decisions.
    pub open spec fn counts_agree(&self) -> bool {
        let flags = decision_flags(self.decisions@);
        &&& self.candidate_count == self.decisions@.len()
        &&& self.included_count == count_included(flags)
        &&& self.omitted_count == count_omitted(flags)
        &&& self.compacted_count == count_compacted(flags)
        &&& self.redacted_count == count_redacted(flags)
        &&& self.policy_denied_count == count_policy_denied(flags)
        &&& self.budget_denied_count == count_budget_denied(flags)
        &&& self.missing_ref_count == count_missing_ref(flags)
        &&& self.protected_omitted_count == count_protected_omitted(flags)
        &&& self.policy_refs@ == merge_policy_refs_spec(Seq::empty(), decision_policy_refs(self.decisions@))
        &&& self.budget.included_items == self.included_count
        &&& self.budget.omitted_items == self.omitted_count
    }

    /// The audit of `decisions`: counts by reason, the distinct policy refs, and `budget`
    /// with its item totals set to the included and omitted counts.
    pub fn from_decisions(
        projection_id: ContextProjectionId,
        source_message_ids: Vec<MessageId>,
        decisions: Vec<ContextSelectionDecision>,
        budget: ContextBudgetSummary,
        redaction_policy_id: PolicyRef,
        runtime_package_fingerprint: String,
    ) -> (res: Self)
        requires
            decisions@.len() <= u32::MAX,
        ensures
            res.projection_id == projection_id,
            res.source_message_ids == source_message_ids,
            res.decisions == decisions,
            res.counts_agree(),
            res.included_count + res.omitted_count == res.candidate_count,
            res.budget.max_tokens == budget.max_tokens,
            res.budget.used_tokens == budget.used_tokens,
            res.budget.max_items == budget.max_items,
            res.redaction_policy_id == redaction_policy_id,
            res.runtime_package_fingerprint == runtime_package_fingerprint,
    {
        let ghost ds = decisions@;
        let ghost flags = decision_flags(ds);
        let n = decisions.len();
        let mut included: u32 = 0;
        let mut omitted: u32 = 0;
        let mut compacted: u32 = 0;
        let mut redacted: u32 = 0;
        let mut policy_denied: u32 = 0;
        let mut budget_denied: u32 = 0;
        let mut missing_ref: u32 = 0;
        let mut protected_omitted: u32 = 0;
        let mut policy_refs: Vec<PolicyRef> = Vec::new();
        let mut i: usize = 0;
        while i < n
            invariant
                n == ds.len(),
                n <= u32::MAX,
                ds == decisions@,
                flags == decision_flags(ds),
                0 <= i <= n,
                included == count_included(flags.take(i as int)),
                omitted == count_omitted(flags.take(i as int)),
                compacted == count_compacted(flags.take(i as int)),
                redacted == count_redacted(flags.take(i as int)),
                policy_denied == count_policy_denied(flags.take(i as int)),
                budget_denied == count_budget_denied(flags.take(i as int)),
                missing_ref == count_missing_ref(flags.take(i as int)),
                protected_omitted == count_protected_omitted(flags.take(i as int)),
                included <= i && omitted <= i && compacted <= i && redacted <= i && policy_denied <= i
                    && budget_denied <= i && missing_ref <= i && protected_omitted <= i,
                policy_refs@ == merge_policy_refs_spec(Seq::empty(), decision_policy_refs(ds.take(i as int))),
            decreases n - i,
        {
            let decision = &decisions[i];
            proof {
                assert(flags.take(i + 1).drop_last() =~= flags.take(i as int));
                assert(flags.take(i + 1).last() == (decision.reason, decision.required, decision.protected));
                assert(ds.take(i + 1).drop_last() =~= ds.take(i as int));
                lemma_merge_policy_refs_concat(Seq::empty(), decision_policy_refs(ds.take(i as int)), decision.policy_refs@);
            }
            let is_included = decision.reason.is_included();
            if is_included {
                included = included + 1;
            } else {
                omitted = omitted + 1;
            }
            match decision.reason {
                ContextSelectionReason::Compacted => {
                    compacted = compacted + 1;
                },
                ContextSelectionReason::Redacted => {
                    redacted = redacted + 1;
                },
                ContextSelectionReason::OmittedPolicy | ContextSelectionReason::ProtectedOmittedByPolicy => {
                    policy_denied = policy_denied + 1;
                },
                ContextSelectionReason::OmittedBudget => {
                    budget_denied = budget_denied + 1;
                },
                ContextSelectionReason::OmittedMissingRef => {
                    missing_ref = missing_ref + 1;
                },
                _ => {},
            }
            if decision.protected && !is_included {
                protected_omitted = protected_omitted + 1;
            }
            merge_policy_refs(&mut policy_refs, &decision.policy_refs);
            i = i + 1;
        }
        proof {
            assert(flags.take(n as int) =~= flags);
            assert(ds.take(n as int) =~= ds);
            lemma_included_plus_omitted(flags);
        }
        let mut budget = budget;
        budget.included_items = included;
        budget.omitted_items = omitted;
        ContextProjectionAudit {
            projection_id,
            source_message_ids,
            candidate_count: n as u32,
            included_count: included,
            omitted_count: omitted,
            compacted_count: compacted,
            redacted_count: redacted,
            policy_denied_count: policy_denied,
            budget_denied_count: budget_denied,
            missing_ref_count: missing_ref,
            protected_omitted_count: protected_omitted,
            decisions,
            budget,
            policy_refs,
            redaction_policy_id,
            runtime_package_fingerprint,
        }
    }

    /// Whether some decision omitted a required contribution for a missing content ref.
    pub fn has_blocking_missing_required_ref(&self) -> (r: bool)
        ensures
            r == has_blocking_missing_required_ref_spec(self.decisions@),
            r <==> exists|k: int|
                0 <= k < self.decisions@.len() && (#[trigger] self.decisions@[k]).required && self.decisions@[k].reason
                    == ContextSelectionReason::OmittedMissingRef,
    {
        let mut i: usize = 0;
        while i < self.decisions.len()
            invariant
                0 <= i <= self.decisions@.len(),
                forall|k: int|
                    0 <= k < i ==> !((#[trigger] self.decisions@[k]).required && self.decisions@[k].reason
                        == ContextSelectionReason::OmittedMissingRef),
            decreases self.decisions@.len() - i,
        {
            let decision = &self.decisions[i];
            if decision.required && decision.reason == ContextSelectionReason::OmittedMissingRef {
                return true;
            }
            i = i + 1;
        }
        false
    }

    /// Whether some protected contribution was omitted.
    pub fn has_protected_omission(&self) -> (r: bool)
        ensures
            r == (self.protected_omitted_count > 0),
    {
        self.protected_omitted_count > 0
    }
}

/// The decisions of a projection: each item's selection, then the omissions.
pub open spec fn projection_decisions(items: Seq<ContextItem>, omitted: Seq<ContextSelectionDecision>) -> Seq<
    ContextSelectionDecision,
> {
    items.map_values(|item: ContextItem| item.selection) + omitted
}

/// Some decision omitted a protected contribution.
pub open spec fn has_protected_omission_spec(decisions: Seq<ContextSelectionDecision>) -> bool {
    exists|i: int|
        0 <= i < decisions.len() && (#[trigger] decisions[i]).protected && !decisions[i].reason.is_included_spec()
}

/// Element-wise `same_as` of two decision lists.
pub open spec fn decisions_match(a: Seq<ContextSelectionDecision>, b: Seq<ContextSelectionDecision>) -> bool {
    a.len() == b.len() && forall|i: int| 0 <= i < a.len() ==> (#[trigger] a[i]).same_as(&b[i])
}

proof fn lemma_decisions_match(a: Seq<ContextSelectionDecision>, b: Seq<ContextSelectionDecision>)
    requires
        decisions_match(a, b),
    ensures
        decision_flags(a) == decision_flags(b),
        decision_policy_refs(a) == decision_policy_refs(b),
        has_blocking_missing_required_ref_spec(a) == has_blocking_missing_required_ref_spec(b),
        has_protected_omission_spec(a) == has_protected_omission_spec(b),
    decreases a.len(),
{
    assert(decision_flags(a) =~= decision_flags(b)) by {
        assert forall|i: int| 0 <= i < a.len() implies decision_flags(a)[i] == decision_flags(b)[i] by {
            assert(a[i].same_as(&b[i]));
        }
    }
    if a.len() > 0 {
        assert(decisions_match(a.drop_last(), b.drop_last())) by {
            assert forall|i: int| 0 <= i < a.len() - 1 implies (#[trigger] a.drop_last()[i]).same_as(&b.drop_last()[i]) by {
                assert(a[i].same_as(&b[i]));
            }
        }
        lemma_decisions_match(a.drop_last(), b.drop_last());
        assert(a.last().same_as(&b.last()));
    }
    if has_blocking_missing_required_ref_spec(a) {
        let i = choose|i: int| 0 <= i < a.len() && (#[trigger] a[i]).required && a[i].reason == ContextSelectionReason::OmittedMissingRef;
        assert(a[i].same_as(&b[i]));
    }
    if has_blocking_missing_required_ref_spec(b) {
        let i = choose|i: int| 0 <= i < b.len() && (#[trigger] b[i]).required && b[i].reason == ContextSelectionReason::OmittedMissingRef;
        assert(a[i].same_as(&b[i]));
    }
    if has_protected_omission_spec(a) {
        let i = choose|i: int| 0 <= i < a.len() && (#[trigger] a[i]).protected && !a[i].reason.is_included_spec();
        assert(a[i].same_as(&b[i]));
    }
    if has_protected_omission_spec(b) {
        let i = choose|i: int| 0 <= i < b.len() && (#[trigger] b[i]).protected && !b[i].reason.is_included_spec();
        assert(a[i].same_as(&b[i]));
    }
}

proof fn lemma_protected_omission_count(decisions: Seq<ContextSelectionDecision>)
    ensures
        count_protected_omitted(decision_flags(decisions)) > 0 <==> has_protected_omission_spec(decisions),
{
    let flags = decision_flags(decisions);
    lemma_count_protected_omitted_positive(flags);
    if has_protected_omission_spec(decisions) {
        let i = choose|i: int| 0 <= i < decisions.len() && (#[trigger] decisions[i]).protected && !decisions[i].reason.is_included_spec();
        assert(flags[i].2 && !flags[i].0.is_included_spec());
    }
    if exists|i: int| 0 <= i < flags.len() && (#[trigger] flags[i]).2 && !flags[i].0.is_included_spec() {
        let i = choose|i: int| 0 <= i < flags.len() && (#[trigger] flags[i]).2 && !flags[i].0.is_included_spec();
        assert(decisions[i].protected && !decisions[i].reason.is_included_spec());
    }
}

/// Message of the error that blocks a projection.
pub open spec fn projection_blocked_message() -> Seq<char> {
    "context projection blocked by required missing ref or protected omission"@
}

impl ContextProjection {
    /// The audited projection of `items` for `provider_destination`; refused when a
    /// required contribution was omitted for a missing ref or a protected one was omitted.
    /// Every projected part carries refs and redacted text only.
    pub fn build(
        projection_id: ContextProjectionId,
        source_messages: Vec<AgentMessage>,
        items: Vec<ContextItem>,
        omitted: Vec<ContextSelectionDecision>,
        provider_destination: DestinationRef,
        budget: ContextBudgetSummary,
        redaction_policy_id: PolicyRef,
        runtime_package_fingerprint: String,
    ) -> (res: Result<Self, AgentError>)
        requires
            items@.len() + omitted@.len() <= u32::MAX,
        ensures
            forall|j: int|
                0 <= j < omitted@.len() && (#[trigger] omitted@[j]).required && omitted@[j].reason
                    == ContextSelectionReason::OmittedMissingRef ==> res is Err,
            forall|j: int|
                0 <= j < items@.len() && (#[trigger] items@[j]).selection.required && items@[j].selection.reason
                    == ContextSelectionReason::OmittedMissingRef ==> res is Err,
            res is Err <==> (has_blocking_missing_required_ref_spec(projection_decisions(items@, omitted@))
                || has_protected_omission_spec(projection_decisions(items@, omitted@))),
            res is Err ==> {
                let e = res->Err_0;
                &&& e.kind == AgentErrorKind::ProjectionFailure
                &&& e.retry == RetryClassification::RepairNeeded
                &&& e.message@ == projection_blocked_message()
            },
            res is Ok ==> {
                let p = res->Ok_0;
                &&& p.projection_id == projection_id
                &&& p.source_messages == source_messages
                &&& p.items == items
                &&& p.projected_parts@.len() == items@.len()
                &&& (forall|i: int| 0 <= i < items@.len() ==> items@[i].projects_to(#[trigger] p.projected_parts@[i]))
                &&& (forall|i: int| 0 <= i < p.projected_parts@.len() ==> !(#[trigger] p.projected_parts@[i]).raw_content_included)
                &&& p.audit.projection_id == projection_id
                &&& p.audit.source_message_ids@ == source_messages@.map_values(|m: AgentMessage| m.message_id)
                &&& decisions_match(p.audit.decisions@, projection_decisions(items@, omitted@))
                &&& p.audit.counts_agree()
                &&& p.audit.budget.max_tokens == budget.max_tokens
                &&& p.audit.budget.used_tokens == budget.used_tokens
                &&& p.audit.budget.max_items == budget.max_items
                &&& p.audit.redaction_policy_id == redaction_policy_id
                &&& p.audit.runtime_package_fingerprint == runtime_package_fingerprint
                &&& p.provider_destination == provider_destination
            },
    {
        let ghost expected = projection_decisions(items@, omitted@);
        proof {
            assert forall|j: int|
                0 <= j < omitted@.len() && (#[trigger] omitted@[j]).required && omitted@[j].reason
                    == ContextSelectionReason::OmittedMissingRef implies has_blocking_missing_required_ref_spec(
                expected,
            ) by {
                lemma_omitted_missing_required_ref_blocks(items@, omitted@, j);
            }
            assert forall|j: int|
                0 <= j < items@.len() && (#[trigger] items@[j]).selection.required && items@[j].selection.reason
                    == ContextSelectionReason::OmittedMissingRef implies has_blocking_missing_required_ref_spec(
                expected,
            ) by {
                lemma_item_missing_required_ref_blocks(items@, omitted@, j);
            }
        }
        let mut decisions: Vec<ContextSelectionDecision> = Vec::new();
        let mut i: usize = 0;
        while i < items.len()
            invariant
                0 <= i <= items@.len(),
                decisions@.len() == i,
                forall|k: int| 0 <= k < i ==> (#[trigger] decisions@[k]).same_as(&items@[k].selection),
            decreases items@.len() - i,
        {
            decisions.push(items[i].selection.clone());
            i = i + 1;
        }
        let mut j: usize = 0;
        while j < omitted.len()
            invariant
                0 <= j <= omitted@.len(),
                decisions@.len() == items@.len() + j,
                forall|k: int| 0 <= k < items@.len() ==> (#[trigger] decisions@[k]).same_as(&items@[k].selection),
                forall|k: int| 0 <= k < j ==> (#[trigger] decisions@[items@.len() + k]).same_as(&omitted@[k]),
            decreases omitted@.len() - j,
        {
            decisions.push(omitted[j].clone());
            j = j + 1;
        }
        proof {
            assert forall|k: int| 0 <= k < expected.len() implies (#[trigger] decisions@[k]).same_as(&expected[k]) by {
                if k >= items@.len() {
                    assert(decisions@[items@.len() + (k - items@.len())].same_as(&omitted@[k - items@.len()]));
                }
            }
            lemma_decisions_match(decisions@, expected);
        }
        let mut message_ids: Vec<MessageId> = Vec::new();
        let mut m: usize = 0;
        while m < source_messages.len()
            invariant
                0 <= m <= source_messages@.len(),
                message_ids@ == source_messages@.take(m as int).map_values(|msg: AgentMessage| msg.message_id),
            decreases source_messages@.len() - m,
        {
            message_ids.push(source_messages[m].message_id.clone());
            proof {
                assert(source_messages@.take(m + 1).map_values(|msg: AgentMessage| msg.message_id) =~= source_messages@.take(
                    m as int,
                ).map_values(|msg: AgentMessage| msg.message_id).push(source_messages@[m as int].message_id));
            }
            m = m + 1;
        }
        proof {
            assert(source_messages@.take(source_messages@.len() as int) =~= source_messages@);
        }
        let ghost audit_decisions = decisions@;
        let audit = ContextProjectionAudit::from_decisions(
            projection_id.clone(),
            message_ids,
            decisions,
            budget,
            redaction_policy_id,
            runtime_package_fingerprint,
        );
        proof {
            lemma_protected_omission_count(audit_decisions);
        }
        if audit.has_blocking_missing_required_ref() || audit.has_protected_omission() {
            return Err(AgentError::new(
                AgentErrorKind::ProjectionFailure,
                RetryClassification::RepairNeeded,
                "context projection blocked by required missing ref or protected omission".to_string(),
            ));
        }
        let mut projected_parts: Vec<ProjectedContextPart> = Vec::new();
        let mut p: usize = 0;
        while p < items.len()
            invariant
                0 <= p <= items@.len(),
                projected_parts@.len() == p,
                forall|k: int| 0 <= k < p ==> items@[k].projects_to(#[trigger] projected_parts@[k]),
            decreases items@.len() - p,
        {
            projected_parts.push(items[p].provider_part());
            p = p + 1;
        }
        Ok(ContextProjection { projection_id, source_messages, items, projected_parts, audit, provider_destination })
    }

    /// The content ids of the parts that carry a content ref, in order.
    pub fn provider_visible_content_ids(&self) -> (res: Vec<ContentId>)
        ensures
            res@ == visible_content_ids(self.projected_parts@),
    {
        let mut out: Vec<ContentId> = Vec::new();
        let mut i: usize = 0;
        while i < self.projected_parts.len()
            invariant
                0 <= i <= self.projected_parts@.len(),
                out@ == visible_content_ids(self.projected_parts@.take(i as int)),
            decreases self.projected_parts@.len() - i,
        {
            proof {
                assert(self.projected_parts@.take(i + 1).drop_last() =~= self.projected_parts@.take(i as int));
            }
            match &self.projected_parts[i].content_ref {
                Some(content_ref) => {
                    out.push(content_ref.content_id.clone());
                },
                None => {},
            }
            i = i + 1;
        }
        proof {
            assert(self.projected_parts@.take(self.projected_parts@.len() as int) =~= self.projected_parts@);
        }
        out
    }
}

/// The content ids of the parts that carry a content ref, in order.
pub open spec fn visible_content_ids(parts: Seq<ProjectedContextPart>) -> Seq<ContentId>
    decreases parts.len(),
{
    if parts.len() == 0 {
        Seq::empty()
    } else {
        let init = visible_content_ids(parts.drop_last());
        match parts.last().content_ref {
            Some(content_ref) => init.push(content_ref.content_id),
            None => init,
        }
    }
}

impl Default for ContextProjection {
    /// An empty projection for the default provider destination.
    fn default() -> (res: Self)
        ensures
            res.projection_id@ == "context.projection.default"@,
            res.source_messages@.len() == 0,
            res.items@.len() == 0,
            res.projected_parts@.len() == 0,
            res.audit.projection_id == res.projection_id,
            res.audit.source_message_ids@.len() == 0,
            res.audit.decisions@.len() == 0,
            res.audit.counts_agree(),
            res.audit.budget.max_tokens is None,
            res.audit.budget.used_tokens == 0,
            res.audit.budget.max_items is None,
            res.audit.redaction_policy_id.kind == PolicyKind::Redaction,
            res.audit.redaction_policy_id.id@ == "policy.redaction.default"@,
            res.audit.redaction_policy_id.version is None,
            res.audit.runtime_package_fingerprint@ == "runtime.package.default"@,
            res.provider_destination.kind == DestinationKind::Provider,
            res.provider_destination.id@ == "destination.provider.default"@,
    {
        let projection_id = ContextProjectionId::new("context.projection.default".to_string());
        let destination = DestinationRef::with_kind(DestinationKind::Provider, "destination.provider.default");
        let redaction = PolicyRef::with_kind(PolicyKind::Redaction, "policy.redaction.default");
        let audit = ContextProjectionAudit::from_decisions(
            projection_id.clone(),
            Vec::new(),
            Vec::new(),
            ContextBudgetSummary::default(),
            redaction,
            "runtime.package.default".to_string(),
        );
        ContextProjection {
            projection_id,
            source_messages: Vec::new(),
            items: Vec::new(),
            projected_parts: Vec::new(),
            audit,
            provider_destination: destination,
        }
    }
}

/// The SDK's default context policy.
pub fn sdk_context_policy_ref() -> (res: PolicyRef)
    ensures
        res.kind == PolicyKind::Context,
        res.id@ == "policy.context.sdk.default"@,
        res.version is None,
{
    PolicyRef::with_kind(PolicyKind::Context, "policy.context.sdk.default")
}

/// The SDK's context source.
pub fn sdk_source_ref() -> (res: SourceRef)
    ensures
        res.kind == SourceKind::Sdk,
        res.id@ == "source.sdk.context"@,
{
    SourceRef::with_kind(SourceKind::Sdk, "source.sdk.context")
}

/// A contribution as an entity.
pub fn contribution_entity_ref(contribution_id: &ContextContributionId) -> (res: EntityRef)
    ensures
        entity_is(res, EntityKind::ContextContribution, contribution_id@),
{
    EntityRef::new(EntityKind::ContextContribution, contribution_id.as_str())
}

/// A required contribution omitted for a missing content ref blocks the projection,
/// wherever it stands among the omissions and whatever items come before it.
pub proof fn lemma_omitted_missing_required_ref_blocks(items: Seq<ContextItem>, omitted: Seq<ContextSelectionDecision>, j: int)
    requires
        0 <= j < omitted.len(),
        omitted[j].required,
        omitted[j].reason == ContextSelectionReason::OmittedMissingRef,
    ensures
        has_blocking_missing_required_ref_spec(projection_decisions(items, omitted)),
{
    let d = projection_decisions(items, omitted);
    assert(d[items.len() + j] == omitted[j]);
}

/// An item whose recorded selection is a required contribution omitted for a missing ref
/// blocks the projection, wherever it stands.
pub proof fn lemma_item_missing_required_ref_blocks(items: Seq<ContextItem>, omitted: Seq<ContextSelectionDecision>, j: int)
    requires
        0 <= j < items.len(),
        items[j].selection.required,
        items[j].selection.reason == ContextSelectionReason::OmittedMissingRef,
    ensures
        has_blocking_missing_required_ref_spec(projection_decisions(items, omitted)),
{
    let d = projection_decisions(items, omitted);
    assert(d[j] == items[j].selection);
}

/// Blocking for a missing required ref does not depend on order: a decision list is
/// blocked exactly when some decision in it is a required contribution omitted for a
/// missing ref, so prepending or appending other decisions never unblocks it.
pub proof fn lemma_blocking_is_any_position(before: Seq<ContextSelectionDecision>, d: ContextSelectionDecision, after: Seq<ContextSelectionDecision>)
    requires
        d.required,
        d.reason == ContextSelectionReason::OmittedMissingRef,
    ensures
        has_blocking_missing_required_ref_spec(before + seq![d] + after),
{
    let all = before + seq![d] + after;
    assert(all[before.len() as int] == d);
}

/// Whether a reason leaves the contribution out of the projection.
pub open spec fn is_omission_reason(reason: ContextSelectionReason) -> bool {
    ||| reason == ContextSelectionReason::OmittedBudget
    ||| reason == ContextSelectionReason::OmittedPolicy
    ||| reason == ContextSelectionReason::OmittedDuplicate
    ||| reason == ContextSelectionReason::OmittedTrust
    ||| reason == ContextSelectionReason::OmittedStale
    ||| reason == ContextSelectionReason::OmittedMissingRef
    ||| reason == ContextSelectionReason::ProtectedOmittedByPolicy
}

/// A protected contribution left out for any omission reason blocks the projection,
/// wherever it stands among the omissions; one kept for any other reason does not count
/// as omitted.
pub proof fn lemma_protected_omission_blocks(items: Seq<ContextItem>, omitted: Seq<ContextSelectionDecision>, j: int)
    requires
        0 <= j < omitted.len(),
        omitted[j].protected,
        is_omission_reason(omitted[j].reason),
    ensures
        has_protected_omission_spec(projection_decisions(items, omitted)),
{
    let d = projection_decisions(items, omitted);
    assert(d[items.len() + j] == omitted[j]);
}

/// The reasons that include a contribution are exactly those that are not omissions.
pub proof fn lemma_included_reasons(reason: ContextSelectionReason)
    ensures
        reason.is_included_spec() <==> !is_omission_reason(reason),
{
}

} // verus!
