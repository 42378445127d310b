use vstd::prelude::*;
use crate::domain::{ContentRefId, DestinationRef, EffectId, EntityKind, EntityRef, IdempotencyKey, PolicyRef, PrivacyClass, RetentionClass, RunId, SourceRef, TurnId};
use crate::effect::{EffectIntent, EffectResult, EffectTerminalStatus};
use crate::journal::{entity_is};
use crate::package::{ExtensionActionKind, ExtensionActionRef, ExtensionActionRequestId};
use crate::policy::{RiskClass};

verus! {

/// Journal payload of one extension action.
#[derive(Debug)]
pub struct ExtensionActionRecord {
    pub request_id: ExtensionActionRequestId,
    pub run_id: RunId,
    pub turn_id: Option<TurnId>,
    pub action_ref: ExtensionActionRef,
    pub action_kind: ExtensionActionKind,
    pub source: SourceRef,
    pub destination: DestinationRef,
    pub policy_refs: Vec<PolicyRef>,
    pub risk_class: RiskClass,
    pub privacy: PrivacyClass,
    pub retention: RetentionClass,
    pub input_refs: Vec<ContentRefId>,
    pub redacted_input_summary: String,
    pub idempotency_key: Option<IdempotencyKey>,
    pub status: ExtensionActionRecordStatus,
    pub approval_request_ref: Option<String>,
    pub effect_intent: Option<EffectIntent>,
    pub effect_result: Option<EffectResult>,
    pub denied_reason: Option<String>,
    pub unsafe_pending_reason: Option<String>,
}

impl ExtensionActionRecord {
    /// Field-wise equality, with vectors compared by their contents.
    pub open spec fn same_as(&self, other: &Self) -> bool {
        &&& self.request_id == other.request_id
        &&& self.run_id == other.run_id
        &&& self.turn_id == other.turn_id
        &&& self.action_ref == other.action_ref
        &&& self.action_kind == other.action_kind
        &&& self.source == other.source
        &&& self.destination == other.destination
        &&& self.policy_refs@ == other.policy_refs@
        &&& self.risk_class == other.risk_class
        &&& self.privacy == other.privacy
        &&& self.retention == other.retention
        &&& self.input_refs@ == other.input_refs@
        &&& self.redacted_input_summary == other.redacted_input_summary
        &&& self.idempotency_key == other.idempotency_key
        &&& self.status == other.status
        &&& self.approval_request_ref == other.approval_request_ref
        &&& (self.effect_intent.is_some() == other.effect_intent.is_some() && (self.effect_intent.is_some() ==> self.effect_intent.unwrap().same_as(&other.effect_intent.unwrap())))
        &&& (self.effect_result.is_some() == other.effect_result.is_some() && (self.effect_result.is_some() ==> self.effect_result.unwrap().same_as(&other.effect_result.unwrap())))
        &&& self.denied_reason == other.denied_reason
        &&& self.unsafe_pending_reason == other.unsafe_pending_reason
    }
}

impl Clone for ExtensionActionRecord {
    fn clone(&self) -> (res: Self)
        ensures
            res.same_as(self),
    {
        let policy_refs_copy = self.policy_refs.clone();
        proof { assert(policy_refs_copy@ =~= self.policy_refs@); }
        let input_refs_copy = self.input_refs.clone();
        proof { assert(input_refs_copy@ =~= self.input_refs@); }
        ExtensionActionRecord {
            request_id: self.request_id.clone(),
            run_id: self.run_id.clone(),
            turn_id: self.turn_id.clone(),
            action_ref: self.action_ref.clone(),
            action_kind: self.action_kind,
            source: self.source.clone(),
            destination: self.destination.clone(),
            policy_refs: policy_refs_copy,
            risk_class: self.risk_class,
            privacy: self.privacy,
            retention: self.retention,
            input_refs: input_refs_copy,
            redacted_input_summary: self.redacted_input_summary.clone(),
            idempotency_key: self.idempotency_key.clone(),
            status: self.status,
            approval_request_ref: self.approval_request_ref.clone(),
            effect_intent: match &self.effect_intent { Some(x13) => {  Some(x13.clone()) }, None => None },
            effect_result: match &self.effect_result { Some(x14) => {  Some(x14.clone()) }, None => None },
            denied_reason: self.denied_reason.clone(),
            unsafe_pending_reason: self.unsafe_pending_reason.clone(),
        }
    }
}

/// Inputs of a submitted extension action record.
#[derive(Debug)]
pub struct ExtensionActionRecordParams {
    pub request_id: ExtensionActionRequestId,
    pub run_id: RunId,
    pub turn_id: Option<TurnId>,
    pub action_ref: ExtensionActionRef,
    pub action_kind: ExtensionActionKind,
    pub source: SourceRef,
    pub destination: DestinationRef,
    pub policy_refs: Vec<PolicyRef>,
    pub risk_class: RiskClass,
    pub privacy: PrivacyClass,
    pub retention: RetentionClass,
    pub input_refs: Vec<ContentRefId>,
    pub redacted_input_summary: String,
    pub idempotency_key: Option<IdempotencyKey>,
}

impl ExtensionActionRecordParams {
    /// Field-wise equality, with vectors compared by their contents.
    pub open spec fn same_as(&self, other: &Self) -> bool {
        &&& self.request_id == other.request_id
        &&& self.run_id == other.run_id
        &&& self.turn_id == other.turn_id
        &&& self.action_ref == other.action_ref
        &&& self.action_kind == other.action_kind
        &&& self.source == other.source
        &&& self.destination == other.destination
        &&& self.policy_refs@ == other.policy_refs@
        &&& self.risk_class == other.risk_class
        &&& self.privacy == other.privacy
        &&& self.retention == other.retention
        &&& self.input_refs@ == other.input_refs@
        &&& self.redacted_input_summary == other.redacted_input_summary
        &&& self.idempotency_key == other.idempotency_key
    }
}

impl Clone for ExtensionActionRecordParams {
    fn clone(&self) -> (res: Self)
        ensures
            res.same_as(self),
    {
        let policy_refs_copy = self.policy_refs.clone();
        proof { assert(policy_refs_copy@ =~= self.policy_refs@); }
        let input_refs_copy = self.input_refs.clone();
        proof { assert(input_refs_copy@ =~= self.input_refs@); }
        ExtensionActionRecordParams {
            request_id: self.request_id.clone(),
            run_id: self.run_id.clone(),
            turn_id: self.turn_id.clone(),
            action_ref: self.action_ref.clone(),
            action_kind: self.action_kind,
            source: self.source.clone(),
            destination: self.destination.clone(),
            policy_refs: policy_refs_copy,
            risk_class: self.risk_class,
            privacy: self.privacy,
            retention: self.retention,
            input_refs: input_refs_copy,
            redacted_input_summary: self.redacted_input_summary.clone(),
            idempotency_key: self.idempotency_key.clone(),
        }
    }
}

/// Status of an extension action record.
#[derive(Clone, Copy, Debug, PartialEq, Eq, Structural)]
pub enum ExtensionActionRecordStatus {
    Submitted,
    Started,
    Completed,
    Failed,
    TimedOut,
    Cancelled,
    Denied,
    Unknown,
    RecoveryRequired,
}

impl crate::domain::ValueEq for ExtensionActionRecordStatus {
    open spec fn value_eq(&self, other: &Self) -> bool {
        *self == *other
    }

    fn equals(&self, other: &Self) -> (r: bool) {
        *self == *other
    }
}

/// Event about an extension action.
#[derive(Debug)]
pub struct ExtensionActionEvent {
    pub kind: ExtensionActionEventKind,
    pub request_id: ExtensionActionRequestId,
    pub action_ref: ExtensionActionRef,
    pub effect_id: Option<EffectId>,
    pub policy_refs: Vec<PolicyRef>,
    pub runtime_package_fingerprint: String,
    pub privacy: PrivacyClass,
    pub redacted_summary: String,
}

impl ExtensionActionEvent {
    /// Field-wise equality, with vectors compared by their contents.
    pub open spec fn same_as(&self, other: &Self) -> bool {
        &&& self.kind == other.kind
        &&& self.request_id == other.request_id
        &&& self.action_ref == other.action_ref
        &&& self.effect_id == other.effect_id
        &&& self.policy_refs@ == other.policy_refs@
        &&& self.runtime_package_fingerprint == other.runtime_package_fingerprint
        &&& self.privacy == other.privacy
        &&& self.redacted_summary == other.redacted_summary
    }
}

impl Clone for ExtensionActionEvent {
    fn clone(&self) -> (res: Self)
        ensures
            res.same_as(self),
    {
        let policy_refs_copy = self.policy_refs.clone();
        proof { assert(policy_refs_copy@ =~= self.policy_refs@); }
        ExtensionActionEvent {
            kind: self.kind,
            request_id: self.request_id.clone(),
            action_ref: self.action_ref.clone(),
            effect_id: self.effect_id.clone(),
            policy_refs: policy_refs_copy,
            runtime_package_fingerprint: self.runtime_package_fingerprint.clone(),
            privacy: self.privacy,
            redacted_summary: self.redacted_summary.clone(),
        }
    }
}

/// Kind of extension action event.
#[derive(Clone, Copy, Debug, PartialEq, Eq, Structural)]
pub enum ExtensionActionEventKind {
    Submitted,
    Started,
    Completed,
    Failed,
    Denied,
}

impl crate::domain::ValueEq for ExtensionActionEventKind {
    open spec fn value_eq(&self, other: &Self) -> bool {
        *self == *other
    }

    fn equals(&self, other: &Self) -> (r: bool) {
        *self == *other
    }
}

/// Recovery from an extension protocol error.
#[derive(Debug)]
pub struct ExtensionProtocolRecoveryRecord {
    pub protocol_request_id: String,
    pub error_kind: String,
    pub redacted_summary: String,
    pub runtime_package_fingerprint: String,
    pub policy_refs: Vec<PolicyRef>,
}

impl ExtensionProtocolRecoveryRecord {
    /// Field-wise equality, with vectors compared by their contents.
    pub open spec fn same_as(&self, other: &Self) -> bool {
        &&& self.protocol_request_id == other.protocol_request_id
        &&& self.error_kind == other.error_kind
        &&& self.redacted_summary == other.redacted_summary
        &&& self.runtime_package_fingerprint == other.runtime_package_fingerprint
        &&& self.policy_refs@ == other.policy_refs@
    }
}

impl Clone for ExtensionProtocolRecoveryRecord {
    fn clone(&self) -> (res: Self)
        ensures
            res.same_as(self),
    {
        let policy_refs_copy = self.policy_refs.clone();
        proof { assert(policy_refs_copy@ =~= self.policy_refs@); }
        ExtensionProtocolRecoveryRecord {
            protocol_request_id: self.protocol_request_id.clone(),
            error_kind: self.error_kind.clone(),
            redacted_summary: self.redacted_summary.clone(),
            runtime_package_fingerprint: self.runtime_package_fingerprint.clone(),
            policy_refs: policy_refs_copy,
        }
    }
}

impl ExtensionActionRecord {
    /// A submitted action, with no outcome yet.
    pub fn submitted(params: ExtensionActionRecordParams) -> (res: Self)
        ensures
            res.request_id == params.request_id,
            res.run_id == params.run_id,
            res.turn_id == params.turn_id,
            res.action_ref == params.action_ref,
            res.action_kind == params.action_kind,
            res.source == params.source,
            res.destination == params.destination,
            res.policy_refs == params.policy_refs,
            res.risk_class == params.risk_class,
            res.privacy == params.privacy,
            res.retention == params.retention,
            res.input_refs == params.input_refs,
            res.redacted_input_summary == params.redacted_input_summary,
            res.idempotency_key == params.idempotency_key,
            res.status == ExtensionActionRecordStatus::Submitted,
            res.approval_request_ref is None,
            res.effect_intent is None,
            res.effect_result is None,
            res.denied_reason is None,
            res.unsafe_pending_reason is None,
    {
        ExtensionActionRecord {
            request_id: params.request_id,
            run_id: params.run_id,
            turn_id: params.turn_id,
            action_ref: params.action_ref,
            action_kind: params.action_kind,
            source: params.source,
            destination: params.destination,
            policy_refs: params.policy_refs,
            risk_class: params.risk_class,
            privacy: params.privacy,
            retention: params.retention,
            input_refs: params.input_refs,
            redacted_input_summary: params.redacted_input_summary,
            idempotency_key: params.idempotency_key,
            status: ExtensionActionRecordStatus::Submitted,
            approval_request_ref: None,
            effect_intent: None,
            effect_result: None,
            denied_reason: None,
            unsafe_pending_reason: None,
        }
    }

    /// The action's subject as an entity.
    pub fn subject_ref(&self) -> (res: EntityRef)
        ensures
            entity_is(res, EntityKind::ExtensionAction, self.action_ref.subject@),
    {
        EntityRef::new(EntityKind::ExtensionAction, self.action_ref.subject_id())
    }

    /// The action, denied for a reason.
    pub fn with_denial(self, reason: String) -> (res: Self)
        ensures
            res == (ExtensionActionRecord {
                status: ExtensionActionRecordStatus::Denied,
                denied_reason: Some(reason),
                ..self
            }),
    {
        let mut record = self;
        record.status = ExtensionActionRecordStatus::Denied;
        record.denied_reason = Some(reason);
        record
    }

    /// The action, started with its effect intent.
    pub fn with_intent(self, intent: EffectIntent) -> (res: Self)
        ensures
            res == (ExtensionActionRecord {
                status: ExtensionActionRecordStatus::Started,
                effect_intent: Some(intent),
                ..self
            }),
    {
        let mut record = self;
        record.status = ExtensionActionRecordStatus::Started;
        record.effect_intent = Some(intent);
        record
    }

    /// The action, with its effect result; the status follows the terminal status.
    pub fn with_result(self, result: EffectResult) -> (res: Self)
        ensures
            res == (ExtensionActionRecord {
                status: ExtensionActionRecordStatus::from_terminal_status_spec(result.terminal_status),
                effect_result: Some(result),
                ..self
            }),
    {
        let mut record = self;
        record.status = ExtensionActionRecordStatus::from_terminal_status(&result.terminal_status);
        record.effect_result = Some(result);
        record
    }

    /// The action, whose outcome needs recovery.
    pub fn with_recovery_required(self, result: EffectResult, unsafe_pending_reason: String) -> (res: Self)
        ensures
            res == (ExtensionActionRecord {
                status: ExtensionActionRecordStatus::RecoveryRequired,
                effect_result: Some(result),
                unsafe_pending_reason: Some(unsafe_pending_reason),
                ..self
            }),
    {
        let mut record = self;
        record.status = ExtensionActionRecordStatus::RecoveryRequired;
        record.effect_result = Some(result);
        record.unsafe_pending_reason = Some(unsafe_pending_reason);
        record
    }
}

impl ExtensionActionRecordStatus {
    /// The record status of an effect's terminal status; a denial before execution is a
    /// denial.
    pub open spec fn from_terminal_status_spec(status: EffectTerminalStatus) -> Self {
        match status {
            EffectTerminalStatus::Completed => ExtensionActionRecordStatus::Completed,
            EffectTerminalStatus::Failed => ExtensionActionRecordStatus::Failed,
            EffectTerminalStatus::TimedOut => ExtensionActionRecordStatus::TimedOut,
            EffectTerminalStatus::Cancelled => ExtensionActionRecordStatus::Cancelled,
            EffectTerminalStatus::DeniedBeforeExecution => ExtensionActionRecordStatus::Denied,
            EffectTerminalStatus::Unknown => ExtensionActionRecordStatus::Unknown,
        }
    }

    fn from_terminal_status(status: &EffectTerminalStatus) -> (res: Self)
        ensures
            res == Self::from_terminal_status_spec(*status),
    {
        match status {
            EffectTerminalStatus::Completed => ExtensionActionRecordStatus::Completed,
            EffectTerminalStatus::Failed => ExtensionActionRecordStatus::Failed,
            EffectTerminalStatus::TimedOut => ExtensionActionRecordStatus::TimedOut,
            EffectTerminalStatus::Cancelled => ExtensionActionRecordStatus::Cancelled,
            EffectTerminalStatus::DeniedBeforeExecution => ExtensionActionRecordStatus::Denied,
            EffectTerminalStatus::Unknown => ExtensionActionRecordStatus::Unknown,
        }
    }
}

impl ExtensionActionEvent {
    /// An event about an action: the effect is the result's if there is one, else the
    /// intent's.
    pub fn from_record(
        kind: ExtensionActionEventKind,
        record: &ExtensionActionRecord,
        runtime_package_fingerprint: String,
        redacted_summary: String,
    ) -> (res: Self)
        ensures
            res.kind == kind,
            res.request_id == record.request_id,
            res.action_ref == record.action_ref,
            res.effect_id == match record.effect_result {
                Some(r) => Some(r.effect_id),
                None => match record.effect_intent {
                    Some(i) => Some(i.effect_id),
                    None => None,
                },
            },
            res.policy_refs@ == record.policy_refs@,
            res.runtime_package_fingerprint == runtime_package_fingerprint,
            res.privacy == record.privacy,
            res.redacted_summary == redacted_summary,
    {
        let effect_id = match &record.effect_result {
            Some(result) => Some(result.effect_id.clone()),
            None => match &record.effect_intent {
                Some(intent) => Some(intent.effect_id.clone()),
                None => None,
            },
        };
        let policy_refs = record.policy_refs.clone();
        proof {
            assert(policy_refs@ =~= record.policy_refs@);
        }
        ExtensionActionEvent {
            kind,
            request_id: record.request_id.clone(),
            action_ref: record.action_ref.clone(),
            effect_id,
            policy_refs,
            runtime_package_fingerprint,
            privacy: record.privacy,
            redacted_summary,
        }
    }
}

} // verus!
