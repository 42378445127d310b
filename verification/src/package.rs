use vstd::prelude::*;
use crate::domain::{ContentRefId, PolicyRef};

verus! {

/// Identifier of a capability.
#[derive(Debug)]
pub struct CapabilityId(String);

impl View for CapabilityId {
    type V = Seq<char>;

    closed spec fn view(&self) -> Seq<char> {
        self.0@
    }
}

impl Clone for CapabilityId {
    fn clone(&self) -> (res: Self)
        ensures
            res == *self,
    {
        CapabilityId(self.0.clone())
    }
}

impl crate::domain::ValueEq for CapabilityId {
    open spec fn value_eq(&self, other: &Self) -> bool {
        self@ == other@
    }

    fn equals(&self, other: &Self) -> (r: bool) {
        let r = self.0 == other.0;
        proof {
            assert(self@ == self.0@ && other@ == other.0@);
            assert(r == (self@ == other@));
            assert(r == self.value_eq(other));
        }
        r
    }
}

impl CapabilityId {
    /// Builds the identifier from its string value.
    pub fn new(value: String) -> (res: Self)
        ensures
            res@ == value@,
    {
        CapabilityId(value)
    }

    /// Returns the identifier text.
    pub fn as_str(&self) -> (res: &str)
        ensures
            res@ == self@,
    {
        self.0.as_str()
    }
}

/// Namespace of a capability.
#[derive(Debug)]
pub struct CapabilityNamespace(String);

impl View for CapabilityNamespace {
    type V = Seq<char>;

    closed spec fn view(&self) -> Seq<char> {
        self.0@
    }
}

impl Clone for CapabilityNamespace {
    fn clone(&self) -> (res: Self)
        ensures
            res == *self,
    {
        CapabilityNamespace(self.0.clone())
    }
}

impl crate::domain::ValueEq for CapabilityNamespace {
    open spec fn value_eq(&self, other: &Self) -> bool {
        self@ == other@
    }

    fn equals(&self, other: &Self) -> (r: bool) {
        let r = self.0 == other.0;
        proof {
            assert(self@ == self.0@ && other@ == other.0@);
            assert(r == (self@ == other@));
            assert(r == self.value_eq(other));
        }
        r
    }
}

impl CapabilityNamespace {
    /// Builds the identifier from its string value.
    pub fn new(value: String) -> (res: Self)
        ensures
            res@ == value@,
    {
        CapabilityNamespace(value)
    }

    /// Returns the identifier text.
    pub fn as_str(&self) -> (res: &str)
        ensures
            res@ == self@,
    {
        self.0.as_str()
    }
}

/// Reference to an executor.
#[derive(Debug)]
pub struct ExecutorRef(String);

impl View for ExecutorRef {
    type V = Seq<char>;

    closed spec fn view(&self) -> Seq<char> {
        self.0@
    }
}

impl Clone for ExecutorRef {
    fn clone(&self) -> (res: Self)
        ensures
            res == *self,
    {
        ExecutorRef(self.0.clone())
    }
}

impl crate::domain::ValueEq for ExecutorRef {
    open spec fn value_eq(&self, other: &Self) -> bool {
        self@ == other@
    }

    fn equals(&self, other: &Self) -> (r: bool) {
        let r = self.0 == other.0;
        proof {
            assert(self@ == self.0@ && other@ == other.0@);
            assert(r == (self@ == other@));
            assert(r == self.value_eq(other));
        }
        r
    }
}

impl ExecutorRef {
    /// Builds the identifier from its string value.
    pub fn new(value: String) -> (res: Self)
        ensures
            res@ == value@,
    {
        ExecutorRef(value)
    }

    /// Returns the identifier text.
    pub fn as_str(&self) -> (res: &str)
        ensures
            res@ == self@,
    {
        self.0.as_str()
    }
}

/// Reference to a package sidecar.
#[derive(Debug)]
pub struct PackageSidecarRef(String);

impl View for PackageSidecarRef {
    type V = Seq<char>;

    closed spec fn view(&self) -> Seq<char> {
        self.0@
    }
}

impl Clone for PackageSidecarRef {
    fn clone(&self) -> (res: Self)
        ensures
            res == *self,
    {
        PackageSidecarRef(self.0.clone())
    }
}

impl crate::domain::ValueEq for PackageSidecarRef {
    open spec fn value_eq(&self, other: &Self) -> bool {
        self@ == other@
    }

    fn equals(&self, other: &Self) -> (r: bool) {
        let r = self.0 == other.0;
        proof {
            assert(self@ == self.0@ && other@ == other.0@);
            assert(r == (self@ == other@));
            assert(r == self.value_eq(other));
        }
        r
    }
}

impl PackageSidecarRef {
    /// Builds the identifier from its string value.
    pub fn new(value: String) -> (res: Self)
        ensures
            res@ == value@,
    {
        PackageSidecarRef(value)
    }

    /// Returns the identifier text.
    pub fn as_str(&self) -> (res: &str)
        ensures
            res@ == self@,
    {
        self.0.as_str()
    }
}

/// Identifier of a tool pack.
#[derive(Debug)]
pub struct ToolPackId(String);

impl View for ToolPackId {
    type V = Seq<char>;

    closed spec fn view(&self) -> Seq<char> {
        self.0@
    }
}

impl Clone for ToolPackId {
    fn clone(&self) -> (res: Self)
        ensures
            res == *self,
    {
        ToolPackId(self.0.clone())
    }
}

impl crate::domain::ValueEq for ToolPackId {
    open spec fn value_eq(&self, other: &Self) -> bool {
        self@ == other@
    }

    fn equals(&self, other: &Self) -> (r: bool) {
        let r = self.0 == other.0;
        proof {
            assert(self@ == self.0@ && other@ == other.0@);
            assert(r == (self@ == other@));
            assert(r == self.value_eq(other));
        }
        r
    }
}

impl ToolPackId {
    /// Builds the identifier from its string value.
    pub fn new(value: String) -> (res: Self)
        ensures
            res@ == value@,
    {
        ToolPackId(value)
    }

    /// Returns the identifier text.
    pub fn as_str(&self) -> (res: &str)
        ensures
            res@ == self@,
    {
        self.0.as_str()
    }
}

/// Identifier of a hook.
#[derive(Debug)]
pub struct HookId(String);

impl View for HookId {
    type V = Seq<char>;

    closed spec fn view(&self) -> Seq<char> {
        self.0@
    }
}

impl Clone for HookId {
    fn clone(&self) -> (res: Self)
        ensures
            res == *self,
    {
        HookId(self.0.clone())
    }
}

impl crate::domain::ValueEq for HookId {
    open spec fn value_eq(&self, other: &Self) -> bool {
        self@ == other@
    }

    fn equals(&self, other: &Self) -> (r: bool) {
        let r = self.0 == other.0;
        proof {
            assert(self@ == self.0@ && other@ == other.0@);
            assert(r == (self@ == other@));
            assert(r == self.value_eq(other));
        }
        r
    }
}

impl HookId {
    /// Builds the identifier from its string value.
    pub fn new(value: String) -> (res: Self)
        ensures
            res@ == value@,
    {
        HookId(value)
    }

    /// Returns the identifier text.
    pub fn as_str(&self) -> (res: &str)
        ensures
            res@ == self@,
    {
        self.0.as_str()
    }
}

/// Point in the loop at which a hook runs.
#[derive(Clone, Copy, Debug, PartialEq, Eq, Structural)]
pub enum HookPoint {
    BeforeProviderRequest,
    AfterProviderResponse,
    BeforeToolCall,
    AfterToolCall,
    BeforeOutputDelivery,
    RunTerminal,
}

impl crate::domain::ValueEq for HookPoint {
    open spec fn value_eq(&self, other: &Self) -> bool {
        *self == *other
    }

    fn equals(&self, other: &Self) -> (r: bool) {
        *self == *other
    }
}

/// Class of response a hook returned.
#[derive(Clone, Copy, Debug, PartialEq, Eq, Structural)]
pub enum HookResponseClass {
    Observe,
    Annotate,
    MutateContext,
    MutateToolArgs,
    Block,
}

impl crate::domain::ValueEq for HookResponseClass {
    open spec fn value_eq(&self, other: &Self) -> bool {
        *self == *other
    }

    fn equals(&self, other: &Self) -> (r: bool) {
        *self == *other
    }
}

impl HookResponseClass {
    /// The variant name, as the derived `Debug` output spells it.
    pub open spec fn debug_name_spec(self) -> Seq<char> {
        match self {
            HookResponseClass::Observe => "Observe"@,
            HookResponseClass::Annotate => "Annotate"@,
            HookResponseClass::MutateContext => "MutateContext"@,
            HookResponseClass::MutateToolArgs => "MutateToolArgs"@,
            HookResponseClass::Block => "Block"@,
        }
    }

    /// Returns the variant name, as the derived `Debug` output spells it.
    pub fn debug_name(&self) -> (res: &'static str)
        ensures
            res@ == self.debug_name_spec(),
    {
        match self {
            HookResponseClass::Observe => "Observe",
            HookResponseClass::Annotate => "Annotate",
            HookResponseClass::MutateContext => "MutateContext",
            HookResponseClass::MutateToolArgs => "MutateToolArgs",
            HookResponseClass::Block => "Block",
        }
    }
}

/// What happens when a hook fails.
#[derive(Clone, Copy, Debug, PartialEq, Eq, Structural)]
pub enum HookFailurePolicy {
    FailOpen,
    FailClosed,
}

impl crate::domain::ValueEq for HookFailurePolicy {
    open spec fn value_eq(&self, other: &Self) -> bool {
        *self == *other
    }

    fn equals(&self, other: &Self) -> (r: bool) {
        *self == *other
    }
}

impl HookFailurePolicy {
    /// The variant name, as the derived `Debug` output spells it.
    pub open spec fn debug_name_spec(self) -> Seq<char> {
        match self {
            HookFailurePolicy::FailOpen => "FailOpen"@,
            HookFailurePolicy::FailClosed => "FailClosed"@,
        }
    }

    /// Returns the variant name, as the derived `Debug` output spells it.
    pub fn debug_name(&self) -> (res: &'static str)
        ensures
            res@ == self.debug_name_spec(),
    {
        match self {
            HookFailurePolicy::FailOpen => "FailOpen",
            HookFailurePolicy::FailClosed => "FailClosed",
        }
    }
}

/// Registered hook specification.
#[derive(Debug)]
pub struct HookSpec {
    pub hook_id: HookId,
    pub point: HookPoint,
    pub executor_ref: ExecutorRef,
    pub policy_ref: PolicyRef,
    pub failure: HookFailurePolicy,
    pub timeout_ms: u64,
}

impl Clone for HookSpec {
    fn clone(&self) -> (res: Self)
        ensures
            res == *self,
    {
        HookSpec {
            hook_id: self.hook_id.clone(),
            point: self.point,
            executor_ref: self.executor_ref.clone(),
            policy_ref: self.policy_ref.clone(),
            failure: self.failure,
            timeout_ms: self.timeout_ms,
        }
    }
}

/// Identifier of an isolated execution environment.
#[derive(Debug)]
pub struct ExecutionEnvironmentId(String);

impl View for ExecutionEnvironmentId {
    type V = Seq<char>;

    closed spec fn view(&self) -> Seq<char> {
        self.0@
    }
}

impl Clone for ExecutionEnvironmentId {
    fn clone(&self) -> (res: Self)
        ensures
            res == *self,
    {
        ExecutionEnvironmentId(self.0.clone())
    }
}

impl crate::domain::ValueEq for ExecutionEnvironmentId {
    open spec fn value_eq(&self, other: &Self) -> bool {
        self@ == other@
    }

    fn equals(&self, other: &Self) -> (r: bool) {
        let r = self.0 == other.0;
        proof {
            assert(self@ == self.0@ && other@ == other.0@);
            assert(r == (self@ == other@));
            assert(r == self.value_eq(other));
        }
        r
    }
}

impl ExecutionEnvironmentId {
    /// Builds the identifier from its string value.
    pub fn new(value: String) -> (res: Self)
        ensures
            res@ == value@,
    {
        ExecutionEnvironmentId(value)
    }

    /// Returns the identifier text.
    pub fn as_str(&self) -> (res: &str)
        ensures
            res@ == self@,
    {
        self.0.as_str()
    }
}

/// Reference to an isolation requirement.
#[derive(Debug)]
pub struct IsolationRequirementRef(String);

impl View for IsolationRequirementRef {
    type V = Seq<char>;

    closed spec fn view(&self) -> Seq<char> {
        self.0@
    }
}

impl Clone for IsolationRequirementRef {
    fn clone(&self) -> (res: Self)
        ensures
            res == *self,
    {
        IsolationRequirementRef(self.0.clone())
    }
}

impl crate::domain::ValueEq for IsolationRequirementRef {
    open spec fn value_eq(&self, other: &Self) -> bool {
        self@ == other@
    }

    fn equals(&self, other: &Self) -> (r: bool) {
        let r = self.0 == other.0;
        proof {
            assert(self@ == self.0@ && other@ == other.0@);
            assert(r == (self@ == other@));
            assert(r == self.value_eq(other));
        }
        r
    }
}

impl IsolationRequirementRef {
    /// Builds the identifier from its string value.
    pub fn new(value: String) -> (res: Self)
        ensures
            res@ == value@,
    {
        IsolationRequirementRef(value)
    }

    /// Returns the identifier text.
    pub fn as_str(&self) -> (res: &str)
        ensures
            res@ == self@,
    {
        self.0.as_str()
    }
}

/// Reference to an isolation runtime adapter.
#[derive(Debug)]
pub struct IsolationRuntimeRef(String);

impl View for IsolationRuntimeRef {
    type V = Seq<char>;

    closed spec fn view(&self) -> Seq<char> {
        self.0@
    }
}

impl Clone for IsolationRuntimeRef {
    fn clone(&self) -> (res: Self)
        ensures
            res == *self,
    {
        IsolationRuntimeRef(self.0.clone())
    }
}

impl crate::domain::ValueEq for IsolationRuntimeRef {
    open spec fn value_eq(&self, other: &Self) -> bool {
        self@ == other@
    }

    fn equals(&self, other: &Self) -> (r: bool) {
        let r = self.0 == other.0;
        proof {
            assert(self@ == self.0@ && other@ == other.0@);
            assert(r == (self@ == other@));
            assert(r == self.value_eq(other));
        }
        r
    }
}

impl IsolationRuntimeRef {
    /// Builds the identifier from its string value.
    pub fn new(value: String) -> (res: Self)
        ensures
            res@ == value@,
    {
        IsolationRuntimeRef(value)
    }

    /// Returns the identifier text.
    pub fn as_str(&self) -> (res: &str)
        ensures
            res@ == self@,
    {
        self.0.as_str()
    }
}

/// Reference to a prepared environment.
#[derive(Debug)]
pub struct PreparedEnvironmentRef(String);

impl View for PreparedEnvironmentRef {
    type V = Seq<char>;

    closed spec fn view(&self) -> Seq<char> {
        self.0@
    }
}

impl Clone for PreparedEnvironmentRef {
    fn clone(&self) -> (res: Self)
        ensures
            res == *self,
    {
        PreparedEnvironmentRef(self.0.clone())
    }
}

impl crate::domain::ValueEq for PreparedEnvironmentRef {
    open spec fn value_eq(&self, other: &Self) -> bool {
        self@ == other@
    }

    fn equals(&self, other: &Self) -> (r: bool) {
        let r = self.0 == other.0;
        proof {
            assert(self@ == self.0@ && other@ == other.0@);
            assert(r == (self@ == other@));
            assert(r == self.value_eq(other));
        }
        r
    }
}

impl PreparedEnvironmentRef {
    /// Builds the identifier from its string value.
    pub fn new(value: String) -> (res: Self)
        ensures
            res@ == value@,
    {
        PreparedEnvironmentRef(value)
    }

    /// Returns the identifier text.
    pub fn as_str(&self) -> (res: &str)
        ensures
            res@ == self@,
    {
        self.0.as_str()
    }
}

/// Reference to an isolated process.
#[derive(Debug)]
pub struct IsolatedProcessRef(String);

impl View for IsolatedProcessRef {
    type V = Seq<char>;

    closed spec fn view(&self) -> Seq<char> {
        self.0@
    }
}

impl Clone for IsolatedProcessRef {
    fn clone(&self) -> (res: Self)
        ensures
            res == *self,
    {
        IsolatedProcessRef(self.0.clone())
    }
}

impl crate::domain::ValueEq for IsolatedProcessRef {
    open spec fn value_eq(&self, other: &Self) -> bool {
        self@ == other@
    }

    fn equals(&self, other: &Self) -> (r: bool) {
        let r = self.0 == other.0;
        proof {
            assert(self@ == self.0@ && other@ == other.0@);
            assert(r == (self@ == other@));
            assert(r == self.value_eq(other));
        }
        r
    }
}

impl IsolatedProcessRef {
    /// Builds the identifier from its string value.
    pub fn new(value: String) -> (res: Self)
        ensures
            res@ == value@,
    {
        IsolatedProcessRef(value)
    }

    /// Returns the identifier text.
    pub fn as_str(&self) -> (res: &str)
        ensures
            res@ == self@,
    {
        self.0.as_str()
    }
}

/// Reference to a process statistics snapshot.
#[derive(Debug)]
pub struct ProcessStatsSnapshotRef(String);

impl View for ProcessStatsSnapshotRef {
    type V = Seq<char>;

    closed spec fn view(&self) -> Seq<char> {
        self.0@
    }
}

impl Clone for ProcessStatsSnapshotRef {
    fn clone(&self) -> (res: Self)
        ensures
            res == *self,
    {
        ProcessStatsSnapshotRef(self.0.clone())
    }
}

impl crate::domain::ValueEq for ProcessStatsSnapshotRef {
    open spec fn value_eq(&self, other: &Self) -> bool {
        self@ == other@
    }

    fn equals(&self, other: &Self) -> (r: bool) {
        let r = self.0 == other.0;
        proof {
            assert(self@ == self.0@ && other@ == other.0@);
            assert(r == (self@ == other@));
            assert(r == self.value_eq(other));
        }
        r
    }
}

impl ProcessStatsSnapshotRef {
    /// Builds the identifier from its string value.
    pub fn new(value: String) -> (res: Self)
        ensures
            res@ == value@,
    {
        ProcessStatsSnapshotRef(value)
    }

    /// Returns the identifier text.
    pub fn as_str(&self) -> (res: &str)
        ensures
            res@ == self@,
    {
        self.0.as_str()
    }
}

/// Reference to a cleanup plan.
#[derive(Debug)]
pub struct CleanupPlanRef(String);

impl View for CleanupPlanRef {
    type V = Seq<char>;

    closed spec fn view(&self) -> Seq<char> {
        self.0@
    }
}

impl Clone for CleanupPlanRef {
    fn clone(&self) -> (res: Self)
        ensures
            res == *self,
    {
        CleanupPlanRef(self.0.clone())
    }
}

impl crate::domain::ValueEq for CleanupPlanRef {
    open spec fn value_eq(&self, other: &Self) -> bool {
        self@ == other@
    }

    fn equals(&self, other: &Self) -> (r: bool) {
        let r = self.0 == other.0;
        proof {
            assert(self@ == self.0@ && other@ == other.0@);
            assert(r == (self@ == other@));
            assert(r == self.value_eq(other));
        }
        r
    }
}

impl CleanupPlanRef {
    /// Builds the identifier from its string value.
    pub fn new(value: String) -> (res: Self)
        ensures
            res@ == value@,
    {
        CleanupPlanRef(value)
    }

    /// Returns the identifier text.
    pub fn as_str(&self) -> (res: &str)
        ensures
            res@ == self@,
    {
        self.0.as_str()
    }
}

/// Reference to a network namespace.
#[derive(Debug)]
pub struct NetworkNamespaceRef(String);

impl View for NetworkNamespaceRef {
    type V = Seq<char>;

    closed spec fn view(&self) -> Seq<char> {
        self.0@
    }
}

impl Clone for NetworkNamespaceRef {
    fn clone(&self) -> (res: Self)
        ensures
            res == *self,
    {
        NetworkNamespaceRef(self.0.clone())
    }
}

impl crate::domain::ValueEq for NetworkNamespaceRef {
    open spec fn value_eq(&self, other: &Self) -> bool {
        self@ == other@
    }

    fn equals(&self, other: &Self) -> (r: bool) {
        let r = self.0 == other.0;
        proof {
            assert(self@ == self.0@ && other@ == other.0@);
            assert(r == (self@ == other@));
            assert(r == self.value_eq(other));
        }
        r
    }
}

impl NetworkNamespaceRef {
    /// Builds the identifier from its string value.
    pub fn new(value: String) -> (res: Self)
        ensures
            res@ == value@,
    {
        NetworkNamespaceRef(value)
    }

    /// Returns the identifier text.
    pub fn as_str(&self) -> (res: &str)
        ensures
            res@ == self@,
    {
        self.0.as_str()
    }
}

/// Reference to a policy decision.
#[derive(Debug)]
pub struct PolicyDecisionRef(String);

impl View for PolicyDecisionRef {
    type V = Seq<char>;

    closed spec fn view(&self) -> Seq<char> {
        self.0@
    }
}

impl Clone for PolicyDecisionRef {
    fn clone(&self) -> (res: Self)
        ensures
            res == *self,
    {
        PolicyDecisionRef(self.0.clone())
    }
}

impl crate::domain::ValueEq for PolicyDecisionRef {
    open spec fn value_eq(&self, other: &Self) -> bool {
        self@ == other@
    }

    fn equals(&self, other: &Self) -> (r: bool) {
        let r = self.0 == other.0;
        proof {
            assert(self@ == self.0@ && other@ == other.0@);
            assert(r == (self@ == other@));
            assert(r == self.value_eq(other));
        }
        r
    }
}

impl PolicyDecisionRef {
    /// Builds the identifier from its string value.
    pub fn new(value: String) -> (res: Self)
        ensures
            res@ == value@,
    {
        PolicyDecisionRef(value)
    }

    /// Returns the identifier text.
    pub fn as_str(&self) -> (res: &str)
        ensures
            res@ == self@,
    {
        self.0.as_str()
    }
}

/// Isolation strength classes.
#[derive(Clone, Copy, Debug, PartialEq, Eq, Structural)]
pub enum IsolationClass {
    NoIsolation,
    Process,
    Container,
    MicroVm,
}

impl crate::domain::ValueEq for IsolationClass {
    open spec fn value_eq(&self, other: &Self) -> bool {
        *self == *other
    }

    fn equals(&self, other: &Self) -> (r: bool) {
        *self == *other
    }
}

/// Isolation capabilities an adapter may report.
#[derive(Clone, Copy, Debug, PartialEq, Eq, Structural)]
pub enum IsolationCapability {
    FilesystemIsolation,
    NetworkIsolation,
    ProcessLimits,
    SecretScoping,
}

impl crate::domain::ValueEq for IsolationCapability {
    open spec fn value_eq(&self, other: &Self) -> bool {
        *self == *other
    }

    fn equals(&self, other: &Self) -> (r: bool) {
        *self == *other
    }
}

/// Trust fields an isolation adapter attests.
#[derive(Clone, Copy, Debug, PartialEq, Eq, Structural)]
pub enum IsolationTrustField {
    ImageProvenance,
    KernelBoundary,
    NetworkPolicy,
}

impl crate::domain::ValueEq for IsolationTrustField {
    open spec fn value_eq(&self, other: &Self) -> bool {
        *self == *other
    }

    fn equals(&self, other: &Self) -> (r: bool) {
        *self == *other
    }
}

/// Outcome of an environment cleanup.
#[derive(Clone, Copy, Debug, PartialEq, Eq, Structural)]
pub enum CleanupStatus {
    Completed,
    Failed,
    Partial,
}

impl crate::domain::ValueEq for CleanupStatus {
    open spec fn value_eq(&self, other: &Self) -> bool {
        *self == *other
    }

    fn equals(&self, other: &Self) -> (r: bool) {
        *self == *other
    }
}

/// Scope of an isolation policy decision.
#[derive(Clone, Copy, Debug, PartialEq, Eq, Structural)]
pub enum PolicyDecisionScope {
    Run,
    Session,
    Host,
}

impl crate::domain::ValueEq for PolicyDecisionScope {
    open spec fn value_eq(&self, other: &Self) -> bool {
        *self == *other
    }

    fn equals(&self, other: &Self) -> (r: bool) {
        *self == *other
    }
}

/// One captured frame of isolated process output.
#[derive(Debug)]
pub struct ProcessIoFrame {
    pub process_ref: IsolatedProcessRef,
    pub stream_name: String,
    pub content_ref: Option<ContentRefId>,
    pub byte_len: u64,
    pub redacted_summary: String,
}

impl Clone for ProcessIoFrame {
    fn clone(&self) -> (res: Self)
        ensures
            res == *self,
    {
        ProcessIoFrame {
            process_ref: self.process_ref.clone(),
            stream_name: self.stream_name.clone(),
            content_ref: self.content_ref.clone(),
            byte_len: self.byte_len,
            redacted_summary: self.redacted_summary.clone(),
        }
    }
}

/// Identifier of an extension action request.
#[derive(Debug)]
pub struct ExtensionActionRequestId(String);

impl View for ExtensionActionRequestId {
    type V = Seq<char>;

    closed spec fn view(&self) -> Seq<char> {
        self.0@
    }
}

impl Clone for ExtensionActionRequestId {
    fn clone(&self) -> (res: Self)
        ensures
            res == *self,
    {
        ExtensionActionRequestId(self.0.clone())
    }
}

impl crate::domain::ValueEq for ExtensionActionRequestId {
    open spec fn value_eq(&self, other: &Self) -> bool {
        self@ == other@
    }

    fn equals(&self, other: &Self) -> (r: bool) {
        let r = self.0 == other.0;
        proof {
            assert(self@ == self.0@ && other@ == other.0@);
            assert(r == (self@ == other@));
            assert(r == self.value_eq(other));
        }
        r
    }
}

impl ExtensionActionRequestId {
    /// Builds the identifier from its string value.
    pub fn new(value: String) -> (res: Self)
        ensures
            res@ == value@,
    {
        ExtensionActionRequestId(value)
    }

    /// Returns the identifier text.
    pub fn as_str(&self) -> (res: &str)
        ensures
            res@ == self@,
    {
        self.0.as_str()
    }
}

/// Kinds of extension actions.
#[derive(Clone, Copy, Debug, PartialEq, Eq, Structural)]
pub enum ExtensionActionKind {
    Query,
    Command,
    Notification,
}

impl crate::domain::ValueEq for ExtensionActionKind {
    open spec fn value_eq(&self, other: &Self) -> bool {
        *self == *other
    }

    fn equals(&self, other: &Self) -> (r: bool) {
        *self == *other
    }
}

/// Reference to an extension action and the subject it acts on.
#[derive(Debug)]
pub struct ExtensionActionRef {
    pub extension_id: String,
    pub action_name: String,
    pub subject: String,
}

impl Clone for ExtensionActionRef {
    fn clone(&self) -> (res: Self)
        ensures
            res == *self,
    {
        ExtensionActionRef {
            extension_id: self.extension_id.clone(),
            action_name: self.action_name.clone(),
            subject: self.subject.clone(),
        }
    }
}

/// Identifier of a subagent request.
#[derive(Debug)]
pub struct SubagentRequestId(String);

impl View for SubagentRequestId {
    type V = Seq<char>;

    closed spec fn view(&self) -> Seq<char> {
        self.0@
    }
}

impl Clone for SubagentRequestId {
    fn clone(&self) -> (res: Self)
        ensures
            res == *self,
    {
        SubagentRequestId(self.0.clone())
    }
}

impl crate::domain::ValueEq for SubagentRequestId {
    open spec fn value_eq(&self, other: &Self) -> bool {
        self@ == other@
    }

    fn equals(&self, other: &Self) -> (r: bool) {
        let r = self.0 == other.0;
        proof {
            assert(self@ == self.0@ && other@ == other.0@);
            assert(r == (self@ == other@));
            assert(r == self.value_eq(other));
        }
        r
    }
}

impl SubagentRequestId {
    /// Builds the identifier from its string value.
    pub fn new(value: String) -> (res: Self)
        ensures
            res@ == value@,
    {
        SubagentRequestId(value)
    }

    /// Returns the identifier text.
    pub fn as_str(&self) -> (res: &str)
        ensures
            res@ == self@,
    {
        self.0.as_str()
    }
}

/// What context a subagent receives at handoff.
#[derive(Clone, Copy, Debug, PartialEq, Eq, Structural)]
pub enum ContextHandoffPolicy {
    SummaryOnly,
    SelectedContentRefs,
    FullTranscriptIfPolicyAllows,
}

impl crate::domain::ValueEq for ContextHandoffPolicy {
    open spec fn value_eq(&self, other: &Self) -> bool {
        *self == *other
    }

    fn equals(&self, other: &Self) -> (r: bool) {
        *self == *other
    }
}

/// Which tools a subagent may use.
#[derive(Clone, Copy, Debug, PartialEq, Eq, Structural)]
pub enum SubagentToolPolicy {
    InheritParent,
    Restricted,
    NoTools,
}

impl crate::domain::ValueEq for SubagentToolPolicy {
    open spec fn value_eq(&self, other: &Self) -> bool {
        *self == *other
    }

    fn equals(&self, other: &Self) -> (r: bool) {
        *self == *other
    }
}

/// Why a provider stopped generating.
#[derive(Clone, Copy, Debug, PartialEq, Eq, Structural)]
pub enum ProviderStopReason {
    EndTurn,
    MaxTokens,
    ToolUse,
    StopSequence,
    ContentFilter,
}

impl crate::domain::ValueEq for ProviderStopReason {
    open spec fn value_eq(&self, other: &Self) -> bool {
        *self == *other
    }

    fn equals(&self, other: &Self) -> (r: bool) {
        *self == *other
    }
}

/// Token usage a provider reported.
#[derive(Debug)]
pub struct ProviderUsage {
    pub input_tokens: Option<u32>,
    pub output_tokens: Option<u32>,
    pub total_tokens: Option<u32>,
}

impl Clone for ProviderUsage {
    fn clone(&self) -> (res: Self)
        ensures
            res == *self,
    {
        ProviderUsage {
            input_tokens: self.input_tokens.clone(),
            output_tokens: self.output_tokens.clone(),
            total_tokens: self.total_tokens.clone(),
        }
    }
}

impl ExtensionActionRef {
    /// The subject the action acts on.
    pub fn subject_id(&self) -> (res: &str)
        ensures
            res@ == self.subject@,
    {
        self.subject.as_str()
    }
}

} // verus!
