use vstd::prelude::*;
use crate::domain::{AgentId, AttemptId, DedupeKey, DestinationRef, EntityRef, EventId, JournalCursor, PolicyRef, PrivacyClass, RetentionClass, RunId, SourceRef, SpanId, TraceId, TurnId};
use crate::event::{EventCursor, EventFamily, EventKind};
use crate::package::{ProviderUsage};

verus! {

/// Identifier of a telemetry projection.
#[derive(Debug)]
pub struct TelemetryProjectionId(String);

impl View for TelemetryProjectionId {
    type V = Seq<char>;

    closed spec fn view(&self) -> Seq<char> {
        self.0@
    }
}

impl Clone for TelemetryProjectionId {
    fn clone(&self) -> (res: Self)
        ensures
            res == *self,
    {
        TelemetryProjectionId(self.0.clone())
    }
}

impl crate::domain::ValueEq for TelemetryProjectionId {
    open spec fn value_eq(&self, other: &Self) -> bool {
        self@ == other@
    }

    fn equals(&self, other: &Self) -> (r: bool) {
        let r = self.0 == other.0;
        proof {
            assert(self@ == self.0@ && other@ == other.0@);
            assert(r == (self@ == other@));
            assert(r == self.value_eq(other));
        }
        r
    }
}

impl TelemetryProjectionId {
    /// Builds the identifier from its string value.
    pub fn new(value: String) -> (res: Self)
        ensures
            res@ == value@,
    {
        TelemetryProjectionId(value)
    }

    /// Returns the identifier text.
    pub fn as_str(&self) -> (res: &str)
        ensures
            res@ == self@,
    {
        self.0.as_str()
    }
}

/// Identifier of a telemetry record.
#[derive(Debug)]
pub struct TelemetryRecordId(String);

impl View for TelemetryRecordId {
    type V = Seq<char>;

    closed spec fn view(&self) -> Seq<char> {
        self.0@
    }
}

impl Clone for TelemetryRecordId {
    fn clone(&self) -> (res: Self)
        ensures
            res == *self,
    {
        TelemetryRecordId(self.0.clone())
    }
}

impl crate::domain::ValueEq for TelemetryRecordId {
    open spec fn value_eq(&self, other: &Self) -> bool {
        self@ == other@
    }

    fn equals(&self, other: &Self) -> (r: bool) {
        let r = self.0 == other.0;
        proof {
            assert(self@ == self.0@ && other@ == other.0@);
            assert(r == (self@ == other@));
            assert(r == self.value_eq(other));
        }
        r
    }
}

impl TelemetryRecordId {
    /// Builds the identifier from its string value.
    pub fn new(value: String) -> (res: Self)
        ensures
            res@ == value@,
    {
        TelemetryRecordId(value)
    }

    /// Returns the identifier text.
    pub fn as_str(&self) -> (res: &str)
        ensures
            res@ == self@,
    {
        self.0.as_str()
    }
}

/// Identifier of a telemetry sink.
#[derive(Debug)]
pub struct TelemetrySinkId(String);

impl View for TelemetrySinkId {
    type V = Seq<char>;

    closed spec fn view(&self) -> Seq<char> {
        self.0@
    }
}

impl Clone for TelemetrySinkId {
    fn clone(&self) -> (res: Self)
        ensures
            res == *self,
    {
        TelemetrySinkId(self.0.clone())
    }
}

impl crate::domain::ValueEq for TelemetrySinkId {
    open spec fn value_eq(&self, other: &Self) -> bool {
        self@ == other@
    }

    fn equals(&self, other: &Self) -> (r: bool) {
        let r = self.0 == other.0;
        proof {
            assert(self@ == self.0@ && other@ == other.0@);
            assert(r == (self@ == other@));
            assert(r == self.value_eq(other));
        }
        r
    }
}

impl TelemetrySinkId {
    /// Builds the identifier from its string value.
    pub fn new(value: String) -> (res: Self)
        ensures
            res@ == value@,
    {
        TelemetrySinkId(value)
    }

    /// Returns the identifier text.
    pub fn as_str(&self) -> (res: &str)
        ensures
            res@ == self@,
    {
        self.0.as_str()
    }
}

/// Identifier of a telemetry export attempt.
#[derive(Debug)]
pub struct TelemetryExportAttemptId(String);

impl View for TelemetryExportAttemptId {
    type V = Seq<char>;

    closed spec fn view(&self) -> Seq<char> {
        self.0@
    }
}

impl Clone for TelemetryExportAttemptId {
    fn clone(&self) -> (res: Self)
        ensures
            res == *self,
    {
        TelemetryExportAttemptId(self.0.clone())
    }
}

impl crate::domain::ValueEq for TelemetryExportAttemptId {
    open spec fn value_eq(&self, other: &Self) -> bool {
        self@ == other@
    }

    fn equals(&self, other: &Self) -> (r: bool) {
        let r = self.0 == other.0;
        proof {
            assert(self@ == self.0@ && other@ == other.0@);
            assert(r == (self@ == other@));
            assert(r == self.value_eq(other));
        }
        r
    }
}

impl TelemetryExportAttemptId {
    /// Builds the identifier from its string value.
    pub fn new(value: String) -> (res: Self)
        ensures
            res@ == value@,
    {
        TelemetryExportAttemptId(value)
    }

    /// Returns the identifier text.
    pub fn as_str(&self) -> (res: &str)
        ensures
            res@ == self@,
    {
        self.0.as_str()
    }
}

/// Identifier of a usage record.
#[derive(Debug)]
pub struct TelemetryUsageRecordId(String);

impl View for TelemetryUsageRecordId {
    type V = Seq<char>;

    closed spec fn view(&self) -> Seq<char> {
        self.0@
    }
}

impl Clone for TelemetryUsageRecordId {
    fn clone(&self) -> (res: Self)
        ensures
            res == *self,
    {
        TelemetryUsageRecordId(self.0.clone())
    }
}

impl crate::domain::ValueEq for TelemetryUsageRecordId {
    open spec fn value_eq(&self, other: &Self) -> bool {
        self@ == other@
    }

    fn equals(&self, other: &Self) -> (r: bool) {
        let r = self.0 == other.0;
        proof {
            assert(self@ == self.0@ && other@ == other.0@);
            assert(r == (self@ == other@));
            assert(r == self.value_eq(other));
        }
        r
    }
}

impl TelemetryUsageRecordId {
    /// Builds the identifier from its string value.
    pub fn new(value: String) -> (res: Self)
        ensures
            res@ == value@,
    {
        TelemetryUsageRecordId(value)
    }

    /// Returns the identifier text.
    pub fn as_str(&self) -> (res: &str)
        ensures
            res@ == self@,
    {
        self.0.as_str()
    }
}

/// Identifier of a cost record.
#[derive(Debug)]
pub struct TelemetryCostRecordId(String);

impl View for TelemetryCostRecordId {
    type V = Seq<char>;

    closed spec fn view(&self) -> Seq<char> {
        self.0@
    }
}

impl Clone for TelemetryCostRecordId {
    fn clone(&self) -> (res: Self)
        ensures
            res == *self,
    {
        TelemetryCostRecordId(self.0.clone())
    }
}

impl crate::domain::ValueEq for TelemetryCostRecordId {
    open spec fn value_eq(&self, other: &Self) -> bool {
        self@ == other@
    }

    fn equals(&self, other: &Self) -> (r: bool) {
        let r = self.0 == other.0;
        proof {
            assert(self@ == self.0@ && other@ == other.0@);
            assert(r == (self@ == other@));
            assert(r == self.value_eq(other));
        }
        r
    }
}

impl TelemetryCostRecordId {
    /// Builds the identifier from its string value.
    pub fn new(value: String) -> (res: Self)
        ensures
            res@ == value@,
    {
        TelemetryCostRecordId(value)
    }

    /// Returns the identifier text.
    pub fn as_str(&self) -> (res: &str)
        ensures
            res@ == self@,
    {
        self.0.as_str()
    }
}

/// Version of a cost rate table.
#[derive(Debug)]
pub struct RateTableVersion(String);

impl View for RateTableVersion {
    type V = Seq<char>;

    closed spec fn view(&self) -> Seq<char> {
        self.0@
    }
}

impl Clone for RateTableVersion {
    fn clone(&self) -> (res: Self)
        ensures
            res == *self,
    {
        RateTableVersion(self.0.clone())
    }
}

impl crate::domain::ValueEq for RateTableVersion {
    open spec fn value_eq(&self, other: &Self) -> bool {
        self@ == other@
    }

    fn equals(&self, other: &Self) -> (r: bool) {
        let r = self.0 == other.0;
        proof {
            assert(self@ == self.0@ && other@ == other.0@);
            assert(r == (self@ == other@));
            assert(r == self.value_eq(other));
        }
        r
    }
}

impl RateTableVersion {
    /// Builds the identifier from its string value.
    pub fn new(value: String) -> (res: Self)
        ensures
            res@ == value@,
    {
        RateTableVersion(value)
    }

    /// Returns the identifier text.
    pub fn as_str(&self) -> (res: &str)
        ensures
            res@ == self@,
    {
        self.0.as_str()
    }
}

/// Kind of telemetry sink.
#[derive(Clone, Copy, Debug, PartialEq, Eq, Structural)]
pub enum TelemetrySinkKind {
    OpenTelemetry,
    DurableTrace,
    LocalDiagnostic,
    CliSummary,
    Test,
}

impl crate::domain::ValueEq for TelemetrySinkKind {
    open spec fn value_eq(&self, other: &Self) -> bool {
        *self == *other
    }

    fn equals(&self, other: &Self) -> (r: bool) {
        *self == *other
    }
}

/// How much content telemetry captures.
#[derive(Clone, Copy, Debug, PartialEq, Eq, Structural)]
pub enum TelemetryContentCaptureMode {
    Off,
    MetadataOnly,
    RedactedSummary,
    PayloadRefs,
    RawContent,
}

impl crate::domain::ValueEq for TelemetryContentCaptureMode {
    open spec fn value_eq(&self, other: &Self) -> bool {
        *self == *other
    }

    fn equals(&self, other: &Self) -> (r: bool) {
        *self == *other
    }
}

/// Kind of telemetry projection.
#[derive(Clone, Copy, Debug, PartialEq, Eq, Structural)]
pub enum TelemetryProjectionKind {
    Progress,
    RunTerminal,
    Usage,
    CostEstimate,
    CostCorrection,
    SinkHealth,
    RepairCursor,
}

impl crate::domain::ValueEq for TelemetryProjectionKind {
    open spec fn value_eq(&self, other: &Self) -> bool {
        *self == *other
    }

    fn equals(&self, other: &Self) -> (r: bool) {
        *self == *other
    }
}

/// A telemetry projection of one source record.
#[derive(Debug)]
pub struct TelemetryProjection {
    pub schema_version: u16,
    pub projection_id: TelemetryProjectionId,
    pub projection_kind: TelemetryProjectionKind,
    pub source_record: TelemetrySourceRecord,
    pub run_id: RunId,
    pub agent_id: AgentId,
    pub turn_id: Option<TurnId>,
    pub attempt_id: Option<AttemptId>,
    pub event_id: Option<EventId>,
    pub journal_cursor: Option<JournalCursor>,
    pub trace_id: Option<TraceId>,
    pub span_id: Option<SpanId>,
    pub runtime_package_fingerprint: String,
    pub source: SourceRef,
    pub destination: Option<DestinationRef>,
    pub subject_ref: EntityRef,
    pub policy_refs: Vec<PolicyRef>,
    pub privacy: PrivacyClass,
    pub retention: RetentionClass,
    pub content_capture: TelemetryContentCaptureMode,
    pub redaction_policy_id: String,
    pub provider_id: Option<String>,
    pub model_id: Option<String>,
    pub tool_name: Option<String>,
    pub usage: Option<UsageUnits>,
    pub cost: Option<CostUnits>,
    pub terminal_status: Option<TelemetryTerminalStatus>,
    pub sink_health: Option<TelemetrySinkHealth>,
    pub redacted_summary: String,
    pub raw_content: Option<String>,
}

impl TelemetryProjection {
    /// Field-wise equality, with vectors compared by their contents.
    pub open spec fn same_as(&self, other: &Self) -> bool {
        &&& self.schema_version == other.schema_version
        &&& self.projection_id == other.projection_id
        &&& self.projection_kind == other.projection_kind
        &&& self.source_record == other.source_record
        &&& self.run_id == other.run_id
        &&& self.agent_id == other.agent_id
        &&& self.turn_id == other.turn_id
        &&& self.attempt_id == other.attempt_id
        &&& self.event_id == other.event_id
        &&& self.journal_cursor == other.journal_cursor
        &&& self.trace_id == other.trace_id
        &&& self.span_id == other.span_id
        &&& self.runtime_package_fingerprint == other.runtime_package_fingerprint
        &&& self.source == other.source
        &&& self.destination == other.destination
        &&& self.subject_ref == other.subject_ref
        &&& self.policy_refs@ == other.policy_refs@
        &&& self.privacy == other.privacy
        &&& self.retention == other.retention
        &&& self.content_capture == other.content_capture
        &&& self.redaction_policy_id == other.redaction_policy_id
        &&& self.provider_id == other.provider_id
        &&& self.model_id == other.model_id
        &&& self.tool_name == other.tool_name
        &&& self.usage == other.usage
        &&& self.cost == other.cost
        &&& self.terminal_status == other.terminal_status
        &&& self.sink_health == other.sink_health
        &&& self.redacted_summary == other.redacted_summary
        &&& self.raw_content == other.raw_content
    }
}

impl Clone for TelemetryProjection {
    fn clone(&self) -> (res: Self)
        ensures
            res.same_as(self),
    {
        let policy_refs_copy = self.policy_refs.clone();
        proof { assert(policy_refs_copy@ =~= self.policy_refs@); }
        TelemetryProjection {
            schema_version: self.schema_version,
            projection_id: self.projection_id.clone(),
            projection_kind: self.projection_kind,
            source_record: self.source_record.clone(),
            run_id: self.run_id.clone(),
            agent_id: self.agent_id.clone(),
            turn_id: self.turn_id.clone(),
            attempt_id: self.attempt_id.clone(),
            event_id: self.event_id.clone(),
            journal_cursor: self.journal_cursor.clone(),
            trace_id: self.trace_id.clone(),
            span_id: self.span_id.clone(),
            runtime_package_fingerprint: self.runtime_package_fingerprint.clone(),
            source: self.source.clone(),
            destination: self.destination.clone(),
            subject_ref: self.subject_ref.clone(),
            policy_refs: policy_refs_copy,
            privacy: self.privacy,
            retention: self.retention,
            content_capture: self.content_capture,
            redaction_policy_id: self.redaction_policy_id.clone(),
            provider_id: self.provider_id.clone(),
            model_id: self.model_id.clone(),
            tool_name: self.tool_name.clone(),
            usage: self.usage.clone(),
            cost: self.cost.clone(),
            terminal_status: self.terminal_status.clone(),
            sink_health: self.sink_health.clone(),
            redacted_summary: self.redacted_summary.clone(),
            raw_content: self.raw_content.clone(),
        }
    }
}

/// Source event of a telemetry projection.
#[derive(Debug)]
pub struct TelemetrySourceRecord {
    pub event_family: EventFamily,
    pub event_kind: EventKind,
    pub event_cursor: Option<EventCursor>,
    pub source_cursor: Option<TelemetrySourceCursor>,
}

impl Clone for TelemetrySourceRecord {
    fn clone(&self) -> (res: Self)
        ensures
            res == *self,
    {
        TelemetrySourceRecord {
            event_family: self.event_family,
            event_kind: self.event_kind,
            event_cursor: self.event_cursor.clone(),
            source_cursor: self.source_cursor.clone(),
        }
    }
}

/// Cursor of the source a telemetry projection came from.
#[derive(Debug)]
pub enum TelemetrySourceCursor {
    Journal(JournalCursor),
    Event(EventCursor),
    Archive(String),
    Usage(TelemetryUsageRecordId),
    Cost(TelemetryCostRecordId),
}

impl Clone for TelemetrySourceCursor {
    fn clone(&self) -> (res: Self)
        ensures
            res == *self,
    {
        match self {
            TelemetrySourceCursor::Journal(v0) => { TelemetrySourceCursor::Journal(v0.clone()) }
            TelemetrySourceCursor::Event(v0) => { TelemetrySourceCursor::Event(v0.clone()) }
            TelemetrySourceCursor::Archive(v0) => { TelemetrySourceCursor::Archive(v0.clone()) }
            TelemetrySourceCursor::Usage(v0) => { TelemetrySourceCursor::Usage(v0.clone()) }
            TelemetrySourceCursor::Cost(v0) => { TelemetrySourceCursor::Cost(v0.clone()) }
        }
    }
}

/// Export progress of a telemetry sink.
#[derive(Debug)]
pub struct TelemetryExportCursor {
    pub sink_id: TelemetrySinkId,
    pub export_seq: u64,
    pub last_acknowledged_source: Option<TelemetrySourceCursor>,
    pub last_attempted_source: Option<TelemetrySourceCursor>,
    pub sink_dedupe_key: Option<DedupeKey>,
}

impl Clone for TelemetryExportCursor {
    fn clone(&self) -> (res: Self)
        ensures
            res == *self,
    {
        TelemetryExportCursor {
            sink_id: self.sink_id.clone(),
            export_seq: self.export_seq,
            last_acknowledged_source: self.last_acknowledged_source.clone(),
            last_attempted_source: self.last_attempted_source.clone(),
            sink_dedupe_key: self.sink_dedupe_key.clone(),
        }
    }
}

/// Usage units.
#[derive(Debug)]
pub struct UsageUnits {
    pub input_tokens: Option<u32>,
    pub output_tokens: Option<u32>,
    pub total_tokens: Option<u32>,
    pub bytes: Option<u64>,
    pub media_duration_ms: Option<u64>,
}

impl Clone for UsageUnits {
    fn clone(&self) -> (res: Self)
        ensures
            res == *self,
    {
        UsageUnits {
            input_tokens: self.input_tokens.clone(),
            output_tokens: self.output_tokens.clone(),
            total_tokens: self.total_tokens.clone(),
            bytes: self.bytes.clone(),
            media_duration_ms: self.media_duration_ms.clone(),
        }
    }
}

/// Cost units.
#[derive(Debug)]
pub struct CostUnits {
    pub amount_micros: u64,
    pub currency: String,
    pub rate_table_version: RateTableVersion,
    pub estimate_status: CostEstimateStatus,
}

impl Clone for CostUnits {
    fn clone(&self) -> (res: Self)
        ensures
            res == *self,
    {
        CostUnits {
            amount_micros: self.amount_micros,
            currency: self.currency.clone(),
            rate_table_version: self.rate_table_version.clone(),
            estimate_status: self.estimate_status,
        }
    }
}

/// Whether a cost was estimated, reported, or corrected.
#[derive(Clone, Copy, Debug, PartialEq, Eq, Structural)]
pub enum CostEstimateStatus {
    Estimated,
    ProviderReported,
    Corrected,
}

impl crate::domain::ValueEq for CostEstimateStatus {
    open spec fn value_eq(&self, other: &Self) -> bool {
        *self == *other
    }

    fn equals(&self, other: &Self) -> (r: bool) {
        *self == *other
    }
}

/// Terminal status telemetry reports.
#[derive(Clone, Copy, Debug, PartialEq, Eq, Structural)]
pub enum TelemetryTerminalStatus {
    Completed,
    Failed,
    Cancelled,
    TimedOut,
    Unknown,
}

impl crate::domain::ValueEq for TelemetryTerminalStatus {
    open spec fn value_eq(&self, other: &Self) -> bool {
        *self == *other
    }

    fn equals(&self, other: &Self) -> (r: bool) {
        *self == *other
    }
}

/// Health of a telemetry sink.
#[derive(Debug)]
pub struct TelemetrySinkHealth {
    pub sink_id: TelemetrySinkId,
    pub sink_kind: TelemetrySinkKind,
    pub state: TelemetrySinkHealthState,
    pub failure_kind: Option<TelemetrySinkFailureKind>,
    pub terminal_preserved: bool,
    pub dropped_count: u64,
    pub export_cursor: Option<TelemetryExportCursor>,
    pub unsafe_pending_reason: Option<String>,
}

impl Clone for TelemetrySinkHealth {
    fn clone(&self) -> (res: Self)
        ensures
            res == *self,
    {
        TelemetrySinkHealth {
            sink_id: self.sink_id.clone(),
            sink_kind: self.sink_kind,
            state: self.state,
            failure_kind: self.failure_kind.clone(),
            terminal_preserved: self.terminal_preserved,
            dropped_count: self.dropped_count,
            export_cursor: self.export_cursor.clone(),
            unsafe_pending_reason: self.unsafe_pending_reason.clone(),
        }
    }
}

/// Health state of a telemetry sink.
#[derive(Clone, Copy, Debug, PartialEq, Eq, Structural)]
pub enum TelemetrySinkHealthState {
    Healthy,
    Failed,
    Recovered,
}

impl crate::domain::ValueEq for TelemetrySinkHealthState {
    open spec fn value_eq(&self, other: &Self) -> bool {
        *self == *other
    }

    fn equals(&self, other: &Self) -> (r: bool) {
        *self == *other
    }
}

/// Why a telemetry sink failed.
#[derive(Clone, Copy, Debug, PartialEq, Eq, Structural)]
pub enum TelemetrySinkFailureKind {
    Overflow,
    ExportRejected,
    Serialization,
    SchemaMismatch,
    SinkUnavailable,
}

impl crate::domain::ValueEq for TelemetrySinkFailureKind {
    open spec fn value_eq(&self, other: &Self) -> bool {
        *self == *other
    }

    fn equals(&self, other: &Self) -> (r: bool) {
        *self == *other
    }
}

/// A durable telemetry record.
#[derive(Debug)]
pub struct TelemetryRecord {
    pub schema_version: u16,
    pub record_id: TelemetryRecordId,
    pub run_id: RunId,
    pub agent_id: AgentId,
    pub source_cursor: Option<TelemetrySourceCursor>,
    pub runtime_package_fingerprint: String,
    pub privacy: PrivacyClass,
    pub retention: RetentionClass,
    pub content_capture: TelemetryContentCaptureMode,
    pub redaction_policy_id: String,
    pub policy_refs: Vec<PolicyRef>,
    pub payload: TelemetryRecordPayload,
}

impl TelemetryRecord {
    /// Field-wise equality, with vectors compared by their contents.
    pub open spec fn same_as(&self, other: &Self) -> bool {
        &&& self.schema_version == other.schema_version
        &&& self.record_id == other.record_id
        &&& self.run_id == other.run_id
        &&& self.agent_id == other.agent_id
        &&& self.source_cursor == other.source_cursor
        &&& self.runtime_package_fingerprint == other.runtime_package_fingerprint
        &&& self.privacy == other.privacy
        &&& self.retention == other.retention
        &&& self.content_capture == other.content_capture
        &&& self.redaction_policy_id == other.redaction_policy_id
        &&& self.policy_refs@ == other.policy_refs@
        &&& self.payload == other.payload
    }
}

impl Clone for TelemetryRecord {
    fn clone(&self) -> (res: Self)
        ensures
            res.same_as(self),
    {
        let policy_refs_copy = self.policy_refs.clone();
        proof { assert(policy_refs_copy@ =~= self.policy_refs@); }
        TelemetryRecord {
            schema_version: self.schema_version,
            record_id: self.record_id.clone(),
            run_id: self.run_id.clone(),
            agent_id: self.agent_id.clone(),
            source_cursor: self.source_cursor.clone(),
            runtime_package_fingerprint: self.runtime_package_fingerprint.clone(),
            privacy: self.privacy,
            retention: self.retention,
            content_capture: self.content_capture,
            redaction_policy_id: self.redaction_policy_id.clone(),
            policy_refs: policy_refs_copy,
            payload: self.payload.clone(),
        }
    }
}

/// Payload of a telemetry record.
#[derive(Debug)]
pub enum TelemetryRecordPayload {
    Usage(UsageTelemetryRecord),
    Cost(CostTelemetryRecord),
    SinkFailed(TelemetrySinkFailureRecord),
    SinkRecovered(TelemetrySinkRecoveryRecord),
    ExportCursor(TelemetryExportCursorRecord),
}

impl Clone for TelemetryRecordPayload {
    fn clone(&self) -> (res: Self)
        ensures
            res == *self,
    {
        match self {
            TelemetryRecordPayload::Usage(v0) => { TelemetryRecordPayload::Usage(v0.clone()) }
            TelemetryRecordPayload::Cost(v0) => { TelemetryRecordPayload::Cost(v0.clone()) }
            TelemetryRecordPayload::SinkFailed(v0) => { TelemetryRecordPayload::SinkFailed(v0.clone()) }
            TelemetryRecordPayload::SinkRecovered(v0) => { TelemetryRecordPayload::SinkRecovered(v0.clone()) }
            TelemetryRecordPayload::ExportCursor(v0) => { TelemetryRecordPayload::ExportCursor(v0.clone()) }
        }
    }
}

/// Usage telemetry.
#[derive(Debug)]
pub struct UsageTelemetryRecord {
    pub usage_record_id: TelemetryUsageRecordId,
    pub units: UsageUnits,
    pub provider_id: Option<String>,
    pub model_id: Option<String>,
}

impl Clone for UsageTelemetryRecord {
    fn clone(&self) -> (res: Self)
        ensures
            res == *self,
    {
        UsageTelemetryRecord {
            usage_record_id: self.usage_record_id.clone(),
            units: self.units.clone(),
            provider_id: self.provider_id.clone(),
            model_id: self.model_id.clone(),
        }
    }
}

/// Cost telemetry.
#[derive(Debug)]
pub struct CostTelemetryRecord {
    pub cost_record_id: TelemetryCostRecordId,
    pub units: CostUnits,
    pub correction_ref: Option<TelemetryCostRecordId>,
}

impl Clone for CostTelemetryRecord {
    fn clone(&self) -> (res: Self)
        ensures
            res == *self,
    {
        CostTelemetryRecord {
            cost_record_id: self.cost_record_id.clone(),
            units: self.units.clone(),
            correction_ref: self.correction_ref.clone(),
        }
    }
}

/// Telemetry sink failure.
#[derive(Debug)]
pub struct TelemetrySinkFailureRecord {
    pub sink_id: TelemetrySinkId,
    pub sink_kind: TelemetrySinkKind,
    pub failure_kind: TelemetrySinkFailureKind,
    pub terminal_preserved: bool,
    pub dropped_count: u64,
    pub last_acknowledged_cursor: Option<TelemetryExportCursor>,
    pub repair_cursor: Option<TelemetrySourceCursor>,
    pub unsafe_pending_reason: Option<String>,
    pub redacted_summary: String,
}

impl Clone for TelemetrySinkFailureRecord {
    fn clone(&self) -> (res: Self)
        ensures
            res == *self,
    {
        TelemetrySinkFailureRecord {
            sink_id: self.sink_id.clone(),
            sink_kind: self.sink_kind,
            failure_kind: self.failure_kind,
            terminal_preserved: self.terminal_preserved,
            dropped_count: self.dropped_count,
            last_acknowledged_cursor: self.last_acknowledged_cursor.clone(),
            repair_cursor: self.repair_cursor.clone(),
            unsafe_pending_reason: self.unsafe_pending_reason.clone(),
            redacted_summary: self.redacted_summary.clone(),
        }
    }
}

/// Telemetry sink recovery.
#[derive(Debug)]
pub struct TelemetrySinkRecoveryRecord {
    pub sink_id: TelemetrySinkId,
    pub sink_kind: TelemetrySinkKind,
    pub export_cursor: TelemetryExportCursor,
    pub redacted_summary: String,
}

impl Clone for TelemetrySinkRecoveryRecord {
    fn clone(&self) -> (res: Self)
        ensures
            res == *self,
    {
        TelemetrySinkRecoveryRecord {
            sink_id: self.sink_id.clone(),
            sink_kind: self.sink_kind,
            export_cursor: self.export_cursor.clone(),
            redacted_summary: self.redacted_summary.clone(),
        }
    }
}

/// Telemetry export cursor checkpoint.
#[derive(Debug)]
pub struct TelemetryExportCursorRecord {
    pub cursor: TelemetryExportCursor,
}

impl Clone for TelemetryExportCursorRecord {
    fn clone(&self) -> (res: Self)
        ensures
            res == *self,
    {
        TelemetryExportCursorRecord {
            cursor: self.cursor.clone(),
        }
    }
}

/// Schema version of telemetry records.
pub const TELEMETRY_SCHEMA_VERSION: u16 = 1;

impl TelemetryContentCaptureMode {
    /// Whether the mode captures raw content.
    pub fn captures_raw_content(&self) -> (r: bool)
        ensures
            r == (*self is RawContent),
    {
        match self {
            TelemetryContentCaptureMode::RawContent => true,
            _ => false,
        }
    }
}

impl Default for TelemetryContentCaptureMode {
    /// Nothing is captured.
    fn default() -> (res: Self)
        ensures
            res is Off,
    {
        TelemetryContentCaptureMode::Off
    }
}

impl TelemetryProjectionKind {
    /// Whether projections of this kind survive sink overflow: every kind but progress.
    pub open spec fn is_terminal_preserved_spec(self) -> bool {
        !(self is Progress)
    }

    /// Whether projections of this kind survive sink overflow.
    pub fn is_terminal_preserved(&self) -> (r: bool)
        ensures
            r == self.is_terminal_preserved_spec(),
    {
        match self {
            TelemetryProjectionKind::RunTerminal
            | TelemetryProjectionKind::Usage
            | TelemetryProjectionKind::CostEstimate
            | TelemetryProjectionKind::CostCorrection
            | TelemetryProjectionKind::SinkHealth
            | TelemetryProjectionKind::RepairCursor => true,
            TelemetryProjectionKind::Progress => false,
        }
    }
}

impl TelemetryProjection {
    /// Whether the projection survives sink overflow.
    pub fn is_terminal_preserved(&self) -> (r: bool)
        ensures
            r == self.projection_kind.is_terminal_preserved_spec(),
    {
        self.projection_kind.is_terminal_preserved()
    }

    /// The projection without raw content; a raw capture mode falls back to redacted summary.
    pub fn without_raw_content(self) -> (res: Self)
        ensures
            res == (TelemetryProjection {
                raw_content: None,
                content_capture: if self.content_capture is RawContent {
                    TelemetryContentCaptureMode::RedactedSummary
                } else {
                    self.content_capture
                },
                ..self
            }),
            res.raw_content is None,
            !(res.content_capture is RawContent),
    {
        let mut projection = self;
        projection.raw_content = None;
        if projection.content_capture.captures_raw_content() {
            projection.content_capture = TelemetryContentCaptureMode::RedactedSummary;
        }
        projection
    }
}

impl TelemetryExportCursor {
    /// A cursor that has exported nothing.
    pub fn new(sink_id: TelemetrySinkId) -> (res: Self)
        ensures
            res.sink_id == sink_id,
            res.export_seq == 0,
            res.last_acknowledged_source is None,
            res.last_attempted_source is None,
            res.sink_dedupe_key is None,
    {
        TelemetryExportCursor {
            sink_id,
            export_seq: 0,
            last_acknowledged_source: None,
            last_attempted_source: None,
            sink_dedupe_key: None,
        }
    }

    /// The cursor after attempting to export `source`.
    pub fn attempted(self, source: Option<TelemetrySourceCursor>) -> (res: Self)
        ensures
            res == (TelemetryExportCursor { last_attempted_source: source, ..self }),
    {
        let mut cursor = self;
        cursor.last_attempted_source = source;
        cursor
    }

    /// The cursor after the sink acknowledged `source`: one more export, nothing in flight.
    pub fn acknowledged(self, source: Option<TelemetrySourceCursor>) -> (res: Self)
        requires
            self.export_seq < u64::MAX,
        ensures
            res == (TelemetryExportCursor {
                export_seq: (self.export_seq + 1) as u64,
                last_acknowledged_source: source,
                last_attempted_source: None,
                ..self
            }),
    {
        let mut cursor = self;
        cursor.export_seq = cursor.export_seq + 1;
        cursor.last_acknowledged_source = source;
        cursor.last_attempted_source = None;
        cursor
    }
}

impl Default for UsageUnits {
    /// No units known.
    fn default() -> (res: Self)
        ensures
            res == (UsageUnits {
                input_tokens: None,
                output_tokens: None,
                total_tokens: None,
                bytes: None,
                media_duration_ms: None,
            }),
    {
        UsageUnits { input_tokens: None, output_tokens: None, total_tokens: None, bytes: None, media_duration_ms: None }
    }
}

impl UsageUnits {
    /// The token counts a provider reported; no bytes or media duration.
    pub fn from_provider_usage(usage: ProviderUsage) -> (res: Self)
        ensures
            res == (UsageUnits {
                input_tokens: usage.input_tokens,
                output_tokens: usage.output_tokens,
                total_tokens: usage.total_tokens,
                bytes: None,
                media_duration_ms: None,
            }),
    {
        UsageUnits {
            input_tokens: usage.input_tokens,
            output_tokens: usage.output_tokens,
            total_tokens: usage.total_tokens,
            bytes: None,
            media_duration_ms: None,
        }
    }
}

impl TelemetryRecord {
    /// Whether this record carries `projection`'s lineage and classification, under
    /// `record_id`, in the current schema.
    pub open spec fn projects(&self, record_id: TelemetryRecordId, projection: TelemetryProjection) -> bool {
        &&& self.schema_version == TELEMETRY_SCHEMA_VERSION
        &&& self.record_id == record_id
        &&& self.run_id == projection.run_id
        &&& self.agent_id == projection.agent_id
        &&& self.source_cursor == projection.source_record.source_cursor
        &&& self.runtime_package_fingerprint == projection.runtime_package_fingerprint
        &&& self.privacy == projection.privacy
        &&& self.retention == projection.retention
        &&& self.content_capture == projection.content_capture
        &&& self.redaction_policy_id == projection.redaction_policy_id
        &&& self.policy_refs@ == projection.policy_refs@
    }

    /// A usage record: the projection's usage (none known when absent), provider and model.
    pub fn usage(record_id: TelemetryRecordId, projection: &TelemetryProjection, usage_record_id: TelemetryUsageRecordId) -> (res: Self)
        ensures
            res.projects(record_id, *projection),
            res.payload == TelemetryRecordPayload::Usage(UsageTelemetryRecord {
                usage_record_id,
                units: match projection.usage {
                    Some(u) => u,
                    None => UsageUnits {
                        input_tokens: None,
                        output_tokens: None,
                        total_tokens: None,
                        bytes: None,
                        media_duration_ms: None,
                    },
                },
                provider_id: projection.provider_id,
                model_id: projection.model_id,
            }),
    {
        let units = match &projection.usage {
            Some(u) => u.clone(),
            None => UsageUnits::default(),
        };
        Self::from_projection(
            record_id,
            projection,
            TelemetryRecordPayload::Usage(UsageTelemetryRecord {
                usage_record_id,
                units,
                provider_id: projection.provider_id.clone(),
                model_id: projection.model_id.clone(),
            }),
        )
    }

    /// A cost record of a projection that has cost units.
    pub fn cost(
        record_id: TelemetryRecordId,
        projection: &TelemetryProjection,
        cost_record_id: TelemetryCostRecordId,
        correction_ref: Option<TelemetryCostRecordId>,
    ) -> (res: Self)
        requires
            projection.cost is Some,
        ensures
            res.projects(record_id, *projection),
            res.payload == TelemetryRecordPayload::Cost(
                CostTelemetryRecord { cost_record_id, units: projection.cost.unwrap(), correction_ref },
            ),
    {
        let units = projection.cost.clone().unwrap();
        Self::from_projection(
            record_id,
            projection,
            TelemetryRecordPayload::Cost(CostTelemetryRecord { cost_record_id, units, correction_ref }),
        )
    }

    /// A sink failure record.
    pub fn sink_failed(record_id: TelemetryRecordId, projection: &TelemetryProjection, failure: TelemetrySinkFailureRecord) -> (res: Self)
        ensures
            res.projects(record_id, *projection),
            res.payload == TelemetryRecordPayload::SinkFailed(failure),
    {
        Self::from_projection(record_id, projection, TelemetryRecordPayload::SinkFailed(failure))
    }

    /// A sink recovery record.
    pub fn sink_recovered(record_id: TelemetryRecordId, projection: &TelemetryProjection, recovery: TelemetrySinkRecoveryRecord) -> (res: Self)
        ensures
            res.projects(record_id, *projection),
            res.payload == TelemetryRecordPayload::SinkRecovered(recovery),
    {
        Self::from_projection(record_id, projection, TelemetryRecordPayload::SinkRecovered(recovery))
    }

    /// An export cursor checkpoint.
    pub fn export_cursor(record_id: TelemetryRecordId, projection: &TelemetryProjection, cursor: TelemetryExportCursor) -> (res: Self)
        ensures
            res.projects(record_id, *projection),
            res.payload == TelemetryRecordPayload::ExportCursor(TelemetryExportCursorRecord { cursor }),
    {
        Self::from_projection(record_id, projection, TelemetryRecordPayload::ExportCursor(TelemetryExportCursorRecord { cursor }))
    }

    fn from_projection(record_id: TelemetryRecordId, projection: &TelemetryProjection, payload: TelemetryRecordPayload) -> (res: Self)
        ensures
            res.projects(record_id, *projection),
            res.payload == payload,
    {
        let policy_refs = projection.policy_refs.clone();
        proof {
            assert(policy_refs@ =~= projection.policy_refs@);
        }
        TelemetryRecord {
            schema_version: TELEMETRY_SCHEMA_VERSION,
            record_id,
            run_id: projection.run_id.clone(),
            agent_id: projection.agent_id.clone(),
            source_cursor: projection.source_record.source_cursor.clone(),
            runtime_package_fingerprint: projection.runtime_package_fingerprint.clone(),
            privacy: projection.privacy,
            retention: projection.retention,
            content_capture: projection.content_capture,
            redaction_policy_id: projection.redaction_policy_id.clone(),
            policy_refs,
            payload,
        }
    }
}

} // verus!
