use agent_sdk_core::content::{ContentKind, ContentRef, ContentScope, ContentVersion};
use agent_sdk_core::context::{
    contribution_entity_ref, sdk_context_policy_ref, sdk_source_ref, AgentMessage, AgentMessagePart, AgentMessageRole,
    ContextBudgetSummary, ContextContribution, ContextContributionId, ContextContributionKind, ContextItem,
    ContextProjection, ContextProjectionAudit, ContextSelectionDecision, ContextSelectionReason, ProjectionRole,
};
use agent_sdk_core::domain::{
    AdapterRef, AgentErrorKind, ContentId, ContextItemId, ContextProjectionId, DestinationKind, DestinationRef,
    EntityKind, EntityRef, MessageId, PolicyKind, PolicyRef, RetryClassification, SourceKind, SourceRef,
};

fn contribution(id: &str, policy: &str) -> ContextContribution {
    ContextContribution::new(
        ContextContributionId::try_new(id.to_string()).unwrap(),
        ContextContributionKind::HostContext,
        EntityRef::new(EntityKind::Run, "run-1"),
        SourceRef::new("host"),
        PolicyRef::new(policy),
        format!("summary of {id}"),
    )
}

fn content_ref(id: &str) -> ContentRef {
    ContentRef::new(
        ContentId::new(id.to_string()),
        ContentVersion::new("v1".to_string()),
        ContentKind::Document,
        ContentScope::Run,
        EntityRef::new(EntityKind::Run, "run-1"),
        SourceRef::new("host"),
        AdapterRef::new("resolver".to_string()),
        "doc".to_string(),
    )
}

fn provider() -> DestinationRef {
    DestinationRef::with_kind(DestinationKind::Provider, "provider")
}

fn item(c: ContextContribution, id: &str) -> ContextItem {
    ContextItem::accept(c, ContextItemId::new(id.to_string()), provider(), ProjectionRole::User)
}

fn build(items: Vec<ContextItem>, omitted: Vec<ContextSelectionDecision>) -> Result<ContextProjection, agent_sdk_core::domain::AgentError> {
    ContextProjection::build(
        ContextProjectionId::new("projection-1".to_string()),
        vec![AgentMessage::user_text(
            MessageId::new("message-1".to_string()),
            "hello".to_string(),
            SourceRef::new("user"),
            PolicyRef::new("policy.user"),
        )],
        items,
        omitted,
        provider(),
        ContextBudgetSummary::default(),
        PolicyRef::with_kind(PolicyKind::Redaction, "policy.redaction"),
        "fp".to_string(),
    )
}

#[test]
fn user_text_message_defaults() {
    let m = AgentMessage::user_text(
        MessageId::new("message-1".to_string()),
        "hi".to_string(),
        SourceRef::new("user"),
        PolicyRef::new("policy.user"),
    );
    assert_eq!(m.role, AgentMessageRole::User);
    assert_eq!(m.producer_ref.kind, EntityKind::Message);
    assert_eq!(m.producer_ref.id, "message-1");
    assert_eq!(m.redacted_summary, "user text message");
    assert!(!m.provider_projected);
    match &m.parts[0] {
        AgentMessagePart::Text { text } => assert_eq!(text, "hi"),
        _ => panic!("expected a text part"),
    }
}

#[test]
fn contribution_builders_set_flags() {
    let c = contribution("c1", "p").required().protected().with_content_ref(content_ref("content-1"));
    assert!(c.required);
    assert!(c.protected);
    assert_eq!(c.content_ref.as_ref().unwrap().content_id.as_str(), "content-1");
    assert_eq!(c.policy_refs.len(), 1);
}

#[test]
fn selection_reasons_classify_inclusion() {
    assert!(ContextSelectionReason::Required.is_included());
    assert!(ContextSelectionReason::Compacted.is_included());
    assert!(ContextSelectionReason::Redacted.is_included());
    assert!(!ContextSelectionReason::OmittedBudget.is_included());
    assert!(!ContextSelectionReason::ProtectedOmittedByPolicy.is_included());
}

#[test]
fn accepted_item_records_its_selection() {
    let required = item(contribution("c1", "p").required(), "item-1");
    assert_eq!(required.selection.reason, ContextSelectionReason::Required);
    assert_eq!(required.selection.context_item_id.as_ref().unwrap().as_str(), "item-1");
    let relevant = item(contribution("c2", "p"), "item-2");
    assert_eq!(relevant.selection.reason, ContextSelectionReason::Relevant);
    let part = relevant.provider_part();
    assert!(!part.raw_content_included);
    assert_eq!(part.role, ProjectionRole::User);
    assert_eq!(part.redacted_summary, "summary of c2");
}

#[test]
fn audit_counts_decisions_by_reason() {
    let a = contribution("a", "p1");
    let b = contribution("b", "p2");
    let c = contribution("c", "p1").protected();
    let d = contribution("d", "p3");
    let decisions = vec![
        ContextSelectionDecision::selected(&a, ContextItemId::new("i-a".to_string())),
        ContextSelectionDecision::omitted(&b, ContextSelectionReason::OmittedBudget),
        ContextSelectionDecision::omitted(&c, ContextSelectionReason::ProtectedOmittedByPolicy),
        ContextSelectionDecision::omitted(&d, ContextSelectionReason::Compacted),
    ];
    let audit = ContextProjectionAudit::from_decisions(
        ContextProjectionId::new("p".to_string()),
        Vec::new(),
        decisions,
        ContextBudgetSummary::default(),
        PolicyRef::new("r"),
        "fp".to_string(),
    );
    assert_eq!(audit.candidate_count, 4);
    assert_eq!(audit.included_count, 2);
    assert_eq!(audit.omitted_count, 2);
    assert_eq!(audit.compacted_count, 1);
    assert_eq!(audit.budget_denied_count, 1);
    assert_eq!(audit.policy_denied_count, 1);
    assert_eq!(audit.protected_omitted_count, 1);
    assert_eq!(audit.budget.included_items, 2);
    assert_eq!(audit.budget.omitted_items, 2);
    let ids: Vec<&str> = audit.policy_refs.iter().map(|p| p.id.as_str()).collect();
    assert_eq!(ids, vec!["p1", "p2", "p3"]);
    assert!(audit.has_protected_omission());
    assert!(!audit.has_blocking_missing_required_ref());
}

#[test]
fn projection_of_accepted_items_succeeds() {
    let p = build(
        vec![item(contribution("a", "p").with_content_ref(content_ref("content-a")), "i-a"), item(contribution("b", "p"), "i-b")],
        vec![ContextSelectionDecision::omitted(&contribution("c", "p"), ContextSelectionReason::OmittedDuplicate)],
    )
    .unwrap();
    assert_eq!(p.projected_parts.len(), 2);
    assert!(p.projected_parts.iter().all(|part| !part.raw_content_included));
    assert_eq!(p.audit.candidate_count, 3);
    assert_eq!(p.audit.included_count, 2);
    assert_eq!(p.audit.omitted_count, 1);
    assert_eq!(p.audit.source_message_ids[0].as_str(), "message-1");
    let ids: Vec<String> = p.provider_visible_content_ids().iter().map(|c| c.as_str().to_string()).collect();
    assert_eq!(ids, vec!["content-a".to_string()]);
}

#[test]
fn projection_refuses_missing_required_ref() {
    let omitted = ContextSelectionDecision::omitted(&contribution("a", "p").required(), ContextSelectionReason::OmittedMissingRef);
    let e = build(Vec::new(), vec![omitted]).unwrap_err();
    assert_eq!(e.kind, AgentErrorKind::ProjectionFailure);
    assert_eq!(e.retry, RetryClassification::RepairNeeded);
    assert_eq!(e.message, "context projection blocked by required missing ref or protected omission");
}

#[test]
fn projection_refuses_protected_omission() {
    let omitted = ContextSelectionDecision::omitted(&contribution("a", "p").protected(), ContextSelectionReason::OmittedBudget);
    assert!(build(Vec::new(), vec![omitted]).is_err());
}

#[test]
fn projection_allows_missing_optional_ref() {
    let omitted = ContextSelectionDecision::omitted(&contribution("a", "p"), ContextSelectionReason::OmittedMissingRef);
    let p = build(Vec::new(), vec![omitted]).unwrap();
    assert_eq!(p.audit.missing_ref_count, 1);
    assert!(p.provider_visible_content_ids().is_empty());
}

#[test]
fn default_projection_is_empty() {
    let p = ContextProjection::default();
    assert_eq!(p.projection_id.as_str(), "context.projection.default");
    assert_eq!(p.audit.candidate_count, 0);
    assert_eq!(p.provider_destination.id, "destination.provider.default");
    assert_eq!(p.audit.redaction_policy_id.id, "policy.redaction.default");
}

#[test]
fn sdk_refs() {
    let p = sdk_context_policy_ref();
    assert_eq!(p.kind, PolicyKind::Context);
    assert_eq!(p.id, "policy.context.sdk.default");
    let s = sdk_source_ref();
    assert_eq!(s.kind, SourceKind::Sdk);
    assert_eq!(s.id, "source.sdk.context");
    let e = contribution_entity_ref(&ContextContributionId::try_new("c9".to_string()).unwrap());
    assert_eq!(e.kind, EntityKind::ContextContribution);
    assert_eq!(e.id, "c9");
}

#[test]
fn contribution_id_rejects_whitespace() {
    assert!(ContextContributionId::try_new("has space".to_string()).is_err());
    assert!(ContextContributionId::try_new(String::new()).is_err());
}
