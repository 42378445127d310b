use vstd::prelude::*;
use crate::domain::{ContentRefId, DestinationRef, EffectId, EntityRef, PolicyRef, SourceRef};
use crate::effect::{EffectKind};
use crate::package::{ToolPackId};
use crate::tool::{CanonicalToolName};

verus! {

/// Effect lineage of a tool-pack tool.
#[derive(Debug)]
pub struct ToolPackEffectLineage {
    pub pack_id: ToolPackId,
    pub tool_name: CanonicalToolName,
    pub effect_id: EffectId,
    pub effect_kind: EffectKind,
    pub subject_ref: EntityRef,
    pub source: SourceRef,
    pub destination: DestinationRef,
    pub policy_refs: Vec<PolicyRef>,
    pub content_refs: Vec<ContentRefId>,
    pub mutation: Option<WorkspaceMutationLineage>,
    pub redacted_summary: String,
}

impl ToolPackEffectLineage {
    /// Field-wise equality, with vectors compared by their contents.
    pub open spec fn same_as(&self, other: &Self) -> bool {
        &&& self.pack_id == other.pack_id
        &&& self.tool_name == other.tool_name
        &&& self.effect_id == other.effect_id
        &&& self.effect_kind == other.effect_kind
        &&& self.subject_ref == other.subject_ref
        &&& self.source == other.source
        &&& self.destination == other.destination
        &&& self.policy_refs@ == other.policy_refs@
        &&& self.content_refs@ == other.content_refs@
        &&& self.mutation == other.mutation
        &&& self.redacted_summary == other.redacted_summary
    }
}

impl Clone for ToolPackEffectLineage {
    fn clone(&self) -> (res: Self)
        ensures
            res.same_as(self),
    {
        let policy_refs_copy = self.policy_refs.clone();
        proof { assert(policy_refs_copy@ =~= self.policy_refs@); }
        let content_refs_copy = self.content_refs.clone();
        proof { assert(content_refs_copy@ =~= self.content_refs@); }
        ToolPackEffectLineage {
            pack_id: self.pack_id.clone(),
            tool_name: self.tool_name.clone(),
            effect_id: self.effect_id.clone(),
            effect_kind: self.effect_kind,
            subject_ref: self.subject_ref.clone(),
            source: self.source.clone(),
            destination: self.destination.clone(),
            policy_refs: policy_refs_copy,
            content_refs: content_refs_copy,
            mutation: self.mutation.clone(),
            redacted_summary: self.redacted_summary.clone(),
        }
    }
}

/// Lineage of a workspace mutation.
#[derive(Debug)]
pub struct WorkspaceMutationLineage {
    pub path: String,
    pub before_hash: Option<String>,
    pub after_hash: Option<String>,
    pub diff_ref: Option<ContentRefId>,
    pub inverse_candidate_ref: Option<ContentRefId>,
    pub non_reversible_reason: Option<String>,
}

impl Clone for WorkspaceMutationLineage {
    fn clone(&self) -> (res: Self)
        ensures
            res == *self,
    {
        WorkspaceMutationLineage {
            path: self.path.clone(),
            before_hash: self.before_hash.clone(),
            after_hash: self.after_hash.clone(),
            diff_ref: self.diff_ref.clone(),
            inverse_candidate_ref: self.inverse_candidate_ref.clone(),
            non_reversible_reason: self.non_reversible_reason.clone(),
        }
    }
}

/// Lineage of a workspace read.
#[derive(Debug)]
pub struct WorkspaceReadLineage {
    pub path: String,
    pub content_hash: String,
    pub byte_len: u64,
    pub truncated: bool,
    pub mime_type: String,
    pub anchors_ref: ContentRefId,
}

impl Clone for WorkspaceReadLineage {
    fn clone(&self) -> (res: Self)
        ensures
            res == *self,
    {
        WorkspaceReadLineage {
            path: self.path.clone(),
            content_hash: self.content_hash.clone(),
            byte_len: self.byte_len,
            truncated: self.truncated,
            mime_type: self.mime_type.clone(),
            anchors_ref: self.anchors_ref.clone(),
        }
    }
}

/// Lineage of a shell process.
#[derive(Debug)]
pub struct ShellProcessLineage {
    pub argv_summary: String,
    pub sandbox_policy_ref: PolicyRef,
    pub timeout_ms: u64,
    pub agent_owned: bool,
    pub detach_requested: bool,
}

impl Clone for ShellProcessLineage {
    fn clone(&self) -> (res: Self)
        ensures
            res == *self,
    {
        ShellProcessLineage {
            argv_summary: self.argv_summary.clone(),
            sandbox_policy_ref: self.sandbox_policy_ref.clone(),
            timeout_ms: self.timeout_ms,
            agent_owned: self.agent_owned,
            detach_requested: self.detach_requested,
        }
    }
}

/// Lineage of a tool discovery query.
#[derive(Debug)]
pub struct ToolDiscoveryLineage {
    pub discovery_index_id: String,
    pub query: String,
    pub returned_candidates: Vec<String>,
    pub package_delta_required: bool,
}

impl ToolDiscoveryLineage {
    /// Field-wise equality, with vectors compared by their contents.
    pub open spec fn same_as(&self, other: &Self) -> bool {
        &&& self.discovery_index_id == other.discovery_index_id
        &&& self.query == other.query
        &&& self.returned_candidates@ == other.returned_candidates@
        &&& self.package_delta_required == other.package_delta_required
    }
}

impl Clone for ToolDiscoveryLineage {
    fn clone(&self) -> (res: Self)
        ensures
            res.same_as(self),
    {
        let returned_candidates_copy = self.returned_candidates.clone();
        proof { assert(returned_candidates_copy@ =~= self.returned_candidates@); }
        ToolDiscoveryLineage {
            discovery_index_id: self.discovery_index_id.clone(),
            query: self.query.clone(),
            returned_candidates: returned_candidates_copy,
            package_delta_required: self.package_delta_required,
        }
    }
}

impl ToolPackEffectLineage {
    /// Whether the mutation names an inverse candidate; such a candidate is advisory.
    pub fn inverse_candidate_is_advisory(&self) -> (r: bool)
        ensures
            r == (self.mutation is Some && self.mutation.unwrap().inverse_candidate_ref is Some),
    {
        match &self.mutation {
            Some(mutation) => mutation.inverse_candidate_ref.is_some(),
            None => false,
        }
    }
}

} // verus!
