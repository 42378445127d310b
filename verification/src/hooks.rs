use vstd::prelude::*;
use crate::domain::{AgentId, EffectId, EntityKind, EntityRef, PolicyRef, PrivacyClass, RunId, SourceKind, SourceRef};
use crate::effect::{EffectIntent, EffectKind, EffectResult, EffectTerminalStatus};
use crate::journal::{EventIndexProjection, JOURNAL_SCHEMA_VERSION, JournalRecord, JournalRecordBase, JournalRecordKind, JournalRecordPayload, entity_is};
use crate::package::{HookId, HookPoint, HookResponseClass, HookSpec};
use crate::text::{concat2, concat3, concat4, string_views};

verus! {

/// Journal payload of the hook feature.
#[derive(Debug)]
pub struct HookRecord {
    pub schema_version: u16,
    pub hook_id: HookId,
    pub point: HookPoint,
    pub payload: HookRecordPayload,
}

impl HookRecord {
    /// Field-wise equality, with vectors compared by their contents.
    pub open spec fn same_as(&self, other: &Self) -> bool {
        &&& self.schema_version == other.schema_version
        &&& self.hook_id == other.hook_id
        &&& self.point == other.point
        &&& self.payload.same_as(&other.payload)
    }
}

impl Clone for HookRecord {
    fn clone(&self) -> (res: Self)
        ensures
            res.same_as(self),
    {
        HookRecord {
            schema_version: self.schema_version,
            hook_id: self.hook_id.clone(),
            point: self.point,
            payload: self.payload.clone(),
        }
    }
}

/// What happened to a hook.
#[derive(Debug)]
pub enum HookRecordPayload {
    Registered { spec_hash: String, executor_ref: String, policy_ref: PolicyRef },
    InvocationStarted { invocation_id: String },
    Completed { invocation_id: String, elapsed_ms: u64 },
    TimedOut { invocation_id: String, elapsed_ms: u64, failure_policy: String },
    Cancelled { invocation_id: String },
    Failed { invocation_id: String, failure_policy: String, redacted_summary: String },
    ResponseDecision { invocation_id: String, decision: HookResponseDecision, response_class: HookResponseClass, mutation_right_decision: String, target_domain_refs: Vec<EntityRef> },
}

impl HookRecordPayload {
    /// Variant-wise equality, with vectors compared by their contents.
    pub open spec fn same_as(&self, other: &Self) -> bool {
        match (*self, *other) {
            (HookRecordPayload::Registered{ spec_hash: a_spec_hash, executor_ref: a_executor_ref, policy_ref: a_policy_ref }, HookRecordPayload::Registered{ spec_hash: b_spec_hash, executor_ref: b_executor_ref, policy_ref: b_policy_ref }) => (a_spec_hash == b_spec_hash) && (a_executor_ref == b_executor_ref) && (a_policy_ref == b_policy_ref),
            (HookRecordPayload::InvocationStarted{ invocation_id: a_invocation_id }, HookRecordPayload::InvocationStarted{ invocation_id: b_invocation_id }) => (a_invocation_id == b_invocation_id),
            (HookRecordPayload::Completed{ invocation_id: a_invocation_id, elapsed_ms: a_elapsed_ms }, HookRecordPayload::Completed{ invocation_id: b_invocation_id, elapsed_ms: b_elapsed_ms }) => (a_invocation_id == b_invocation_id) && (a_elapsed_ms == b_elapsed_ms),
            (HookRecordPayload::TimedOut{ invocation_id: a_invocation_id, elapsed_ms: a_elapsed_ms, failure_policy: a_failure_policy }, HookRecordPayload::TimedOut{ invocation_id: b_invocation_id, elapsed_ms: b_elapsed_ms, failure_policy: b_failure_policy }) => (a_invocation_id == b_invocation_id) && (a_elapsed_ms == b_elapsed_ms) && (a_failure_policy == b_failure_policy),
            (HookRecordPayload::Cancelled{ invocation_id: a_invocation_id }, HookRecordPayload::Cancelled{ invocation_id: b_invocation_id }) => (a_invocation_id == b_invocation_id),
            (HookRecordPayload::Failed{ invocation_id: a_invocation_id, failure_policy: a_failure_policy, redacted_summary: a_redacted_summary }, HookRecordPayload::Failed{ invocation_id: b_invocation_id, failure_policy: b_failure_policy, redacted_summary: b_redacted_summary }) => (a_invocation_id == b_invocation_id) && (a_failure_policy == b_failure_policy) && (a_redacted_summary == b_redacted_summary),
            (HookRecordPayload::ResponseDecision{ invocation_id: a_invocation_id, decision: a_decision, response_class: a_response_class, mutation_right_decision: a_mutation_right_decision, target_domain_refs: a_target_domain_refs }, HookRecordPayload::ResponseDecision{ invocation_id: b_invocation_id, decision: b_decision, response_class: b_response_class, mutation_right_decision: b_mutation_right_decision, target_domain_refs: b_target_domain_refs }) => (a_invocation_id == b_invocation_id) && (a_decision == b_decision) && (a_response_class == b_response_class) && (a_mutation_right_decision == b_mutation_right_decision) && (a_target_domain_refs@ == b_target_domain_refs@),
            _ => false,
        }
    }
}

impl Clone for HookRecordPayload {
    fn clone(&self) -> (res: Self)
        ensures
            res.same_as(self),
    {
        match self {
            HookRecordPayload::Registered { spec_hash, executor_ref, policy_ref } => { HookRecordPayload::Registered { spec_hash: spec_hash.clone(), executor_ref: executor_ref.clone(), policy_ref: policy_ref.clone() } }
            HookRecordPayload::InvocationStarted { invocation_id } => { HookRecordPayload::InvocationStarted { invocation_id: invocation_id.clone() } }
            HookRecordPayload::Completed { invocation_id, elapsed_ms } => { HookRecordPayload::Completed { invocation_id: invocation_id.clone(), elapsed_ms: *elapsed_ms } }
            HookRecordPayload::TimedOut { invocation_id, elapsed_ms, failure_policy } => { HookRecordPayload::TimedOut { invocation_id: invocation_id.clone(), elapsed_ms: *elapsed_ms, failure_policy: failure_policy.clone() } }
            HookRecordPayload::Cancelled { invocation_id } => { HookRecordPayload::Cancelled { invocation_id: invocation_id.clone() } }
            HookRecordPayload::Failed { invocation_id, failure_policy, redacted_summary } => { HookRecordPayload::Failed { invocation_id: invocation_id.clone(), failure_policy: failure_policy.clone(), redacted_summary: redacted_summary.clone() } }
            HookRecordPayload::ResponseDecision { invocation_id, decision, response_class, mutation_right_decision, target_domain_refs } => { let target_domain_refs_copy = target_domain_refs.clone(); proof { assert(target_domain_refs_copy@ =~= target_domain_refs@); } HookRecordPayload::ResponseDecision { invocation_id: invocation_id.clone(), decision: *decision, response_class: *response_class, mutation_right_decision: mutation_right_decision.clone(), target_domain_refs: target_domain_refs_copy } }
        }
    }
}

/// Decision about a hook response.
#[derive(Clone, Copy, Debug, PartialEq, Eq, Structural)]
pub enum HookResponseDecision {
    AcceptedJournaledBeforeApply,
    RejectedMutationRight,
    RejectedPointMatrix,
    RejectedPolicy,
}

impl crate::domain::ValueEq for HookResponseDecision {
    open spec fn value_eq(&self, other: &Self) -> bool {
        *self == *other
    }

    fn equals(&self, other: &Self) -> (r: bool) {
        *self == *other
    }
}

/// The journal records an accepted mutating hook response produces, in order.
#[derive(Debug)]
pub struct HookMutationJournalPlan {
    pub hook_record: HookRecord,
    pub effect_intent: EffectIntent,
    pub hook_journal_record: JournalRecord,
    pub intent_journal_record: JournalRecord,
    pub result_journal_record: JournalRecord,
}

impl HookMutationJournalPlan {
    /// Field-wise equality, with vectors compared by their contents.
    pub open spec fn same_as(&self, other: &Self) -> bool {
        &&& self.hook_record.same_as(&other.hook_record)
        &&& self.effect_intent.same_as(&other.effect_intent)
        &&& self.hook_journal_record.same_as(&other.hook_journal_record)
        &&& self.intent_journal_record.same_as(&other.intent_journal_record)
        &&& self.result_journal_record.same_as(&other.result_journal_record)
    }
}

impl Clone for HookMutationJournalPlan {
    fn clone(&self) -> (res: Self)
        ensures
            res.same_as(self),
    {
        HookMutationJournalPlan {
            hook_record: self.hook_record.clone(),
            effect_intent: self.effect_intent.clone(),
            hook_journal_record: self.hook_journal_record.clone(),
            intent_journal_record: self.intent_journal_record.clone(),
            result_journal_record: self.result_journal_record.clone(),
        }
    }
}

/// Schema version of hook records.
pub const HOOK_RECORD_SCHEMA_VERSION: u16 = 1;

/// Redaction policy of the journal records of hook responses.
pub open spec fn hook_redaction_policy() -> Seq<char> {
    "policy.redaction.hook.default"@
}

/// Mutation right decision recorded with every hook response decision.
pub open spec fn mutation_right_checked() -> Seq<char> {
    "checked_against_point_and_spec_rights"@
}

/// The reference to a hook as an entity.
pub fn hook_entity_ref(hook_id: &HookId) -> (res: EntityRef)
    ensures
        entity_is(res, EntityKind::Hook, hook_id@),
{
    EntityRef::new(EntityKind::Hook, hook_id.as_str())
}

impl HookRecord {
    /// Whether this record is about the hook that `spec` describes, in the current schema.
    pub open spec fn for_spec(&self, spec: HookSpec) -> bool {
        &&& self.schema_version == HOOK_RECORD_SCHEMA_VERSION
        &&& self.hook_id == spec.hook_id
        &&& self.point == spec.point
    }

    /// Whether this record is the response decision that `response_decision` builds.
    pub open spec fn is_response_decision(
        &self,
        spec: HookSpec,
        invocation_id: Seq<char>,
        decision: HookResponseDecision,
        response_class: HookResponseClass,
        target_domain_refs: Seq<EntityRef>,
    ) -> bool {
        &&& self.for_spec(spec)
        &&& self.payload matches HookRecordPayload::ResponseDecision {
            invocation_id: i,
            decision: d,
            response_class: c,
            mutation_right_decision: m,
            target_domain_refs: t,
        } && i@ == invocation_id && d == decision && c == response_class && m@ == mutation_right_checked()
            && t@ == target_domain_refs
    }

    /// A hook registration, with the hash of its spec.
    pub fn registered(spec: &HookSpec, spec_hash: String) -> (res: Self)
        ensures
            res.for_spec(*spec),
            res.payload matches HookRecordPayload::Registered { spec_hash: h, executor_ref: e, policy_ref: p }
                && h == spec_hash && e@ == spec.executor_ref@ && p == spec.policy_ref,
    {
        HookRecord {
            schema_version: HOOK_RECORD_SCHEMA_VERSION,
            hook_id: spec.hook_id.clone(),
            point: spec.point,
            payload: HookRecordPayload::Registered {
                spec_hash,
                executor_ref: spec.executor_ref.as_str().to_string(),
                policy_ref: spec.policy_ref.clone(),
            },
        }
    }

    /// A hook invocation started.
    pub fn invocation_started(spec: &HookSpec, invocation_id: String) -> (res: Self)
        ensures
            res.for_spec(*spec),
            res.payload == (HookRecordPayload::InvocationStarted { invocation_id }),
    {
        HookRecord {
            schema_version: HOOK_RECORD_SCHEMA_VERSION,
            hook_id: spec.hook_id.clone(),
            point: spec.point,
            payload: HookRecordPayload::InvocationStarted { invocation_id },
        }
    }

    /// A hook invocation completed after `elapsed_ms`.
    pub fn completed(spec: &HookSpec, invocation_id: String, elapsed_ms: u64) -> (res: Self)
        ensures
            res.for_spec(*spec),
            res.payload == (HookRecordPayload::Completed { invocation_id, elapsed_ms }),
    {
        HookRecord {
            schema_version: HOOK_RECORD_SCHEMA_VERSION,
            hook_id: spec.hook_id.clone(),
            point: spec.point,
            payload: HookRecordPayload::Completed { invocation_id, elapsed_ms },
        }
    }

    /// A hook invocation timed out; records the spec's failure policy by name.
    pub fn timeout(spec: &HookSpec, invocation_id: String, elapsed_ms: u64) -> (res: Self)
        ensures
            res.for_spec(*spec),
            res.payload matches HookRecordPayload::TimedOut { invocation_id: i, elapsed_ms: e, failure_policy: f }
                && i == invocation_id && e == elapsed_ms && f@ == spec.failure.debug_name_spec(),
    {
        HookRecord {
            schema_version: HOOK_RECORD_SCHEMA_VERSION,
            hook_id: spec.hook_id.clone(),
            point: spec.point,
            payload: HookRecordPayload::TimedOut {
                invocation_id,
                elapsed_ms,
                failure_policy: spec.failure.debug_name().to_string(),
            },
        }
    }

    /// A hook invocation was cancelled.
    pub fn cancelled(spec: &HookSpec, invocation_id: String) -> (res: Self)
        ensures
            res.for_spec(*spec),
            res.payload == (HookRecordPayload::Cancelled { invocation_id }),
    {
        HookRecord {
            schema_version: HOOK_RECORD_SCHEMA_VERSION,
            hook_id: spec.hook_id.clone(),
            point: spec.point,
            payload: HookRecordPayload::Cancelled { invocation_id },
        }
    }

    /// A hook invocation failed; records the spec's failure policy by name.
    pub fn failed(spec: &HookSpec, invocation_id: String, redacted_summary: String) -> (res: Self)
        ensures
            res.for_spec(*spec),
            res.payload matches HookRecordPayload::Failed { invocation_id: i, failure_policy: f, redacted_summary: s }
                && i == invocation_id && f@ == spec.failure.debug_name_spec() && s == redacted_summary,
    {
        HookRecord {
            schema_version: HOOK_RECORD_SCHEMA_VERSION,
            hook_id: spec.hook_id.clone(),
            point: spec.point,
            payload: HookRecordPayload::Failed {
                invocation_id,
                failure_policy: spec.failure.debug_name().to_string(),
                redacted_summary,
            },
        }
    }

    /// The decision taken about a hook response, after checking mutation rights.
    pub fn response_decision(
        spec: &HookSpec,
        invocation_id: String,
        decision: HookResponseDecision,
        response_class: HookResponseClass,
        target_domain_refs: Vec<EntityRef>,
    ) -> (res: Self)
        ensures
            res.is_response_decision(*spec, invocation_id@, decision, response_class, target_domain_refs@),
    {
        HookRecord {
            schema_version: HOOK_RECORD_SCHEMA_VERSION,
            hook_id: spec.hook_id.clone(),
            point: spec.point,
            payload: HookRecordPayload::ResponseDecision {
                invocation_id,
                decision,
                response_class,
                mutation_right_decision: "checked_against_point_and_spec_rights".to_string(),
                target_domain_refs,
            },
        }
    }

    /// A rejected hook response and its journal record (sequence `journal_seq`, id
    /// `<record_id>.response`).
    pub fn rejected_response_journal_record(
        journal_seq: u64,
        record_id: &str,
        run_id: RunId,
        agent_id: AgentId,
        source: SourceRef,
        spec: &HookSpec,
        invocation_id: String,
        decision: HookResponseDecision,
        response_class: HookResponseClass,
        runtime_package_fingerprint: String,
    ) -> (res: (Self, JournalRecord))
        ensures
            res.0.is_response_decision(*spec, invocation_id@, decision, response_class, Seq::empty()),
            res.1.has_lineage(
                journal_seq as int,
                record_id@ + ".response"@,
                run_id,
                agent_id,
                runtime_package_fingerprint@,
                PrivacyClass::ContentRefsOnly,
                hook_redaction_policy(),
            ),
            res.1.is_hook_record(res.0, "hook_response_decision"@),
    {
        let hook_record = Self::response_decision(spec, invocation_id, decision, response_class, Vec::new());
        let mut base = JournalRecordBase::new(journal_seq, concat2(record_id, ".response"), run_id, agent_id, source);
        base.runtime_package_fingerprint = runtime_package_fingerprint;
        base.privacy = PrivacyClass::ContentRefsOnly;
        base.redaction_policy_id = "policy.redaction.hook.default".to_string();
        let journal_record = hook_journal_record(
            base,
            hook_record.clone(),
            SourceRef::with_kind(SourceKind::Hook, spec.hook_id.as_str()),
            "hook_response_decision",
        );
        (hook_record, journal_record)
    }
}

impl JournalRecord {
    /// Whether this is the hook journal record of `record`, sourced from the hook, with the
    /// given event kind: the hook is subject, the tag is `hook`, and there are no related or
    /// content refs or keys.
    pub open spec fn is_hook_record(&self, record: HookRecord, event_kind: Seq<char>) -> bool {
        &&& self.record_kind == JournalRecordKind::Hook
        &&& entity_is(self.subject_ref, EntityKind::Hook, record.hook_id@)
        &&& self.related_refs@.len() == 0
        &&& self.source.kind == SourceKind::Hook
        &&& self.source.id@ == record.hook_id@
        &&& self.destination is None
        &&& string_views(self.tags@) == seq!["hook"@]
        &&& self.content_refs@.len() == 0
        &&& self.idempotency_key is None
        &&& self.dedupe_key is None
        &&& self.event_index.describes(
            self.run_id,
            self.session_id,
            self.agent_id,
            self.turn_id,
            "hook"@,
            event_kind,
            self.source,
            None,
            self.privacy,
            seq!["hook"@],
        )
        &&& self.event_index.subject_ref == self.subject_ref
        &&& self.event_index.related_refs@.len() == 0
        &&& self.payload matches JournalRecordPayload::Hook(r) && r.same_as(&record)
    }
}

fn hook_tags() -> (res: Vec<String>)
    ensures
        string_views(res@) == seq!["hook"@],
{
    let mut tags: Vec<String> = Vec::new();
    tags.push("hook".to_string());
    proof {
        assert(string_views(tags@) =~= seq!["hook"@]);
    }
    tags
}

fn hook_journal_record(base: JournalRecordBase, record: HookRecord, source: SourceRef, event_kind: &str) -> (res: JournalRecord)
    requires
        source.kind == SourceKind::Hook,
        source.id@ == record.hook_id@,
        base.destination is None,
    ensures
        res.journal_schema_version == JOURNAL_SCHEMA_VERSION,
        res.journal_seq == base.journal_seq,
        res.record_id == base.record_id,
        res.run_id == base.run_id,
        res.session_id == base.session_id,
        res.agent_id == base.agent_id,
        res.turn_id == base.turn_id,
        res.attempt_id == base.attempt_id,
        res.causal_refs == base.causal_refs,
        res.correlation_keys@.len() == 0,
        res.delivery_semantics@ == "journal_backed"@,
        res.timestamp_millis == base.timestamp_millis,
        res.runtime_package_fingerprint == base.runtime_package_fingerprint,
        res.privacy == base.privacy,
        res.redaction_policy_id == base.redaction_policy_id,
        res.checkpoint_ref == base.checkpoint_ref,
        res.is_hook_record(record, event_kind@),
{
    let subject_ref = hook_entity_ref(&record.hook_id);
    let ghost record0 = record;
    JournalRecord {
        journal_schema_version: JOURNAL_SCHEMA_VERSION,
        journal_seq: base.journal_seq,
        record_id: base.record_id,
        record_kind: JournalRecordKind::Hook,
        run_id: base.run_id.clone(),
        session_id: base.session_id.clone(),
        agent_id: base.agent_id.clone(),
        turn_id: base.turn_id.clone(),
        attempt_id: base.attempt_id,
        subject_ref: subject_ref.clone(),
        related_refs: Vec::new(),
        causal_refs: base.causal_refs,
        source: source.clone(),
        destination: base.destination.clone(),
        correlation_keys: Vec::new(),
        tags: hook_tags(),
        delivery_semantics: "journal_backed".to_string(),
        event_index: EventIndexProjection {
            run_id: base.run_id,
            session_id: base.session_id,
            agent_id: base.agent_id,
            turn_id: base.turn_id,
            event_family: "hook".to_string(),
            event_kind: event_kind.to_string(),
            source,
            destination: base.destination,
            subject_ref: subject_ref.clone(),
            related_refs: Vec::new(),
            correlation_keys: Vec::new(),
            tags: hook_tags(),
            privacy_class: base.privacy,
            delivery_semantics: "journal_backed".to_string(),
        },
        timestamp_millis: base.timestamp_millis,
        runtime_package_fingerprint: base.runtime_package_fingerprint,
        privacy: base.privacy,
        content_refs: Vec::new(),
        redaction_policy_id: base.redaction_policy_id,
        idempotency_key: None,
        dedupe_key: None,
        checkpoint_ref: base.checkpoint_ref,
        payload: JournalRecordPayload::Hook(record),
    }
}

fn hook_lineage_base(journal_seq: u64, record_id: String, run_id: RunId, agent_id: AgentId, source: SourceRef, runtime_package_fingerprint: String) -> (res: JournalRecordBase)
    ensures
        res.journal_seq == journal_seq,
        res.record_id == record_id,
        res.run_id == run_id,
        res.session_id is None,
        res.agent_id == agent_id,
        res.turn_id is None,
        res.attempt_id is None,
        res.source == source,
        res.destination is None,
        res.causal_refs@.len() == 0,
        res.tags@.len() == 0,
        res.timestamp_millis == 0,
        res.runtime_package_fingerprint == runtime_package_fingerprint,
        res.privacy == PrivacyClass::ContentRefsOnly,
        res.redaction_policy_id@ == hook_redaction_policy(),
        res.checkpoint_ref is None,
{
    let mut base = JournalRecordBase::new(journal_seq, record_id, run_id, agent_id, source);
    base.runtime_package_fingerprint = runtime_package_fingerprint;
    base.privacy = PrivacyClass::ContentRefsOnly;
    base.redaction_policy_id = "policy.redaction.hook.default".to_string();
    base
}

impl HookMutationJournalPlan {
    /// The records of an accepted mutating hook response, journaled before the mutation
    /// applies: the hook response (sequence `journal_seq`), the intent of the hook mutation
    /// effect (`journal_seq + 1`), and its completed result (`journal_seq + 2`). The effect
    /// id is `effect.hook.<hook id>.<invocation id>`.
    pub fn accepted_response(
        journal_seq: u64,
        record_id: &str,
        run_id: RunId,
        agent_id: AgentId,
        source: SourceRef,
        spec: &HookSpec,
        invocation_id: String,
        response_class: HookResponseClass,
        runtime_package_fingerprint: String,
    ) -> (res: Self)
        requires
            journal_seq + 2 <= u64::MAX,
        ensures
            res.hook_record.is_response_decision(
                *spec,
                invocation_id@,
                HookResponseDecision::AcceptedJournaledBeforeApply,
                response_class,
                seq![res.hook_record.payload->target_domain_refs@[0]],
            ),
            entity_is(res.hook_record.payload->target_domain_refs@[0], EntityKind::Hook, spec.hook_id@),
            res.effect_intent.effect_id@ == "effect.hook."@ + spec.hook_id@ + "."@ + invocation_id@,
            res.effect_intent.kind == EffectKind::HookMutation,
            entity_is(res.effect_intent.subject_ref, EntityKind::Hook, spec.hook_id@),
            res.effect_intent.source.kind == SourceKind::Hook,
            res.effect_intent.source.id@ == spec.hook_id@,
            res.effect_intent.destination is None,
            res.effect_intent.policy_refs@ == seq![spec.policy_ref],
            res.effect_intent.idempotency_key is None,
            res.effect_intent.dedupe_key is None,
            res.effect_intent.content_refs@.len() == 0,
            res.effect_intent.redacted_summary@ == "accepted hook response "@ + response_class.debug_name_spec(),
            res.hook_journal_record.has_lineage(
                journal_seq as int,
                record_id@ + ".response"@,
                run_id,
                agent_id,
                runtime_package_fingerprint@,
                PrivacyClass::ContentRefsOnly,
                hook_redaction_policy(),
            ),
            res.hook_journal_record.is_hook_record(res.hook_record, "hook_response_decision"@),
            res.intent_journal_record.has_lineage(
                journal_seq + 1,
                record_id@ + ".intent"@,
                run_id,
                agent_id,
                runtime_package_fingerprint@,
                PrivacyClass::ContentRefsOnly,
                hook_redaction_policy(),
            ),
            res.intent_journal_record.record_kind == JournalRecordKind::EffectIntent,
            res.intent_journal_record.subject_ref == res.effect_intent.subject_ref,
            res.intent_journal_record.source == res.effect_intent.source,
            res.intent_journal_record.payload matches JournalRecordPayload::EffectIntent(i) && i.same_as(&res.effect_intent),
            res.result_journal_record.has_lineage(
                journal_seq + 2,
                record_id@ + ".result"@,
                run_id,
                agent_id,
                runtime_package_fingerprint@,
                PrivacyClass::ContentRefsOnly,
                hook_redaction_policy(),
            ),
            res.result_journal_record.record_kind == JournalRecordKind::EffectResult,
            entity_is(res.result_journal_record.subject_ref, EntityKind::Effect, res.effect_intent.effect_id@),
            res.result_journal_record.source == source,
            res.result_journal_record.payload matches JournalRecordPayload::EffectResult(r) && r.is_plain(
                res.effect_intent.effect_id,
                EffectTerminalStatus::Completed,
                "accepted hook response "@ + response_class.debug_name_spec() + " journaled before apply"@,
            ),
    {
        let mut targets: Vec<EntityRef> = Vec::new();
        targets.push(hook_entity_ref(&spec.hook_id));
        let hook_record = HookRecord::response_decision(
            spec,
            invocation_id.clone(),
            HookResponseDecision::AcceptedJournaledBeforeApply,
            response_class,
            targets,
        );
        let effect_id = EffectId::new(concat4("effect.hook.", spec.hook_id.as_str(), ".", invocation_id.as_str()));
        let mut intent = EffectIntent::new(
            effect_id,
            EffectKind::HookMutation,
            hook_entity_ref(&spec.hook_id),
            SourceRef::with_kind(SourceKind::Hook, spec.hook_id.as_str()),
            concat2("accepted hook response ", response_class.debug_name()),
        );
        let mut policy_refs: Vec<PolicyRef> = Vec::new();
        policy_refs.push(spec.policy_ref.clone());
        intent.policy_refs = policy_refs;

        let response_base = hook_lineage_base(
            journal_seq,
            concat2(record_id, ".response"),
            run_id.clone(),
            agent_id.clone(),
            source.clone(),
            runtime_package_fingerprint.clone(),
        );
        let intent_base = hook_lineage_base(
            journal_seq + 1,
            concat2(record_id, ".intent"),
            run_id.clone(),
            agent_id.clone(),
            source.clone(),
            runtime_package_fingerprint.clone(),
        );
        let result_base = hook_lineage_base(
            journal_seq + 2,
            concat2(record_id, ".result"),
            run_id,
            agent_id,
            source,
            runtime_package_fingerprint,
        );
        let hook_journal_record = hook_journal_record(
            response_base,
            hook_record.clone(),
            SourceRef::with_kind(SourceKind::Hook, spec.hook_id.as_str()),
            "hook_response_decision",
        );
        let intent_journal_record = JournalRecord::effect_intent(intent_base, intent.clone());
        let summary = concat3("accepted hook response ", response_class.debug_name(), " journaled before apply");
        let result = EffectResult::completed(intent.effect_id.clone(), summary);
        let result_journal_record = JournalRecord::effect_result(result_base, result);
        HookMutationJournalPlan {
            hook_record,
            effect_intent: intent,
            hook_journal_record,
            intent_journal_record,
            result_journal_record,
        }
    }
}

} // verus!
