use vstd::prelude::*;
use crate::domain::{AgentError, AgentErrorKind, AgentId, AttemptId, ContentRefId, DestinationRef, EffectId, EntityKind, EntityRef, MAX_ID_LEN, MessageId, PolicyKind, PolicyRef, PrivacyClass, RetentionClass, RetryClassification, RunId, SourceKind, SourceRef, ToolCallId, TurnId, identifier_check, is_plain_id_char, lemma_plain_identifier, outcome_parts};
use crate::effect::{EffectIntent, EffectKind, EffectResult};
use crate::hashing::{sha256_digest_spec, sha256_fingerprint, sha256_fingerprint_of_text, sha256_fingerprint_spec};
use crate::journal::{JournalRecord, JournalRecordBase, JournalRecordKind, JournalRecordPayload, entity_is};
use crate::realtime::{RealtimeSessionId};
use crate::text::{concat2, concat3, concat4, contains_seq, contains_str, decimal, hex_lower, is_lower_hex_char, lemma_hex_lower_chars, occurs_at, string_from_chars, u64_to_decimal, utf8_len_exceeds};

verus! {

/// Identifier of a stream delta.
#[derive(Debug)]
pub struct StreamDeltaId(String);

impl View for StreamDeltaId {
    type V = Seq<char>;

    closed spec fn view(&self) -> Seq<char> {
        self.0@
    }
}

impl Clone for StreamDeltaId {
    fn clone(&self) -> (res: Self)
        ensures
            res == *self,
    {
        StreamDeltaId(self.0.clone())
    }
}

impl crate::domain::ValueEq for StreamDeltaId {
    open spec fn value_eq(&self, other: &Self) -> bool {
        self@ == other@
    }

    fn equals(&self, other: &Self) -> (r: bool) {
        let r = self.0 == other.0;
        proof {
            assert(self@ == self.0@ && other@ == other.0@);
            assert(r == (self@ == other@));
            assert(r == self.value_eq(other));
        }
        r
    }
}

impl StreamDeltaId {
    /// Builds the identifier from a value that passes `validate_identifier`.
    pub fn new(value: String) -> (res: Self)
        requires
            crate::domain::identifier_check(value@) is Ok,
        ensures
            res@ == value@,
    {
        StreamDeltaId(value)
    }

    /// Validates the value and builds the identifier, or returns the validation error.
    pub fn try_new(value: String) -> (res: Result<Self, crate::domain::IdValidationError>)
        ensures
            match res {
                Ok(id) => crate::domain::identifier_check(value@) is Ok && id@ == value@,
                Err(e) => crate::domain::identifier_check(value@) == Err::<(), crate::domain::IdValidationError>(e),
            },
    {
        match crate::domain::validate_identifier(value.as_str()) {
            Ok(()) => Ok(StreamDeltaId(value)),
            Err(e) => Err(e),
        }
    }

    /// Returns the identifier text.
    pub fn as_str(&self) -> (res: &str)
        ensures
            res@ == self@,
    {
        self.0.as_str()
    }
}

/// Identifier of a stream rule.
#[derive(Debug)]
pub struct StreamRuleId(String);

impl View for StreamRuleId {
    type V = Seq<char>;

    closed spec fn view(&self) -> Seq<char> {
        self.0@
    }
}

impl Clone for StreamRuleId {
    fn clone(&self) -> (res: Self)
        ensures
            res == *self,
    {
        StreamRuleId(self.0.clone())
    }
}

impl crate::domain::ValueEq for StreamRuleId {
    open spec fn value_eq(&self, other: &Self) -> bool {
        self@ == other@
    }

    fn equals(&self, other: &Self) -> (r: bool) {
        let r = self.0 == other.0;
        proof {
            assert(self@ == self.0@ && other@ == other.0@);
            assert(r == (self@ == other@));
            assert(r == self.value_eq(other));
        }
        r
    }
}

impl StreamRuleId {
    /// Builds the identifier from a value that passes `validate_identifier`.
    pub fn new(value: String) -> (res: Self)
        requires
            crate::domain::identifier_check(value@) is Ok,
        ensures
            res@ == value@,
    {
        StreamRuleId(value)
    }

    /// Validates the value and builds the identifier, or returns the validation error.
    pub fn try_new(value: String) -> (res: Result<Self, crate::domain::IdValidationError>)
        ensures
            match res {
                Ok(id) => crate::domain::identifier_check(value@) is Ok && id@ == value@,
                Err(e) => crate::domain::identifier_check(value@) == Err::<(), crate::domain::IdValidationError>(e),
            },
    {
        match crate::domain::validate_identifier(value.as_str()) {
            Ok(()) => Ok(StreamRuleId(value)),
            Err(e) => Err(e),
        }
    }

    /// Returns the identifier text.
    pub fn as_str(&self) -> (res: &str)
        ensures
            res@ == self@,
    {
        self.0.as_str()
    }
}

/// Identifier of a stream intervention.
#[derive(Debug)]
pub struct StreamInterventionId(String);

impl View for StreamInterventionId {
    type V = Seq<char>;

    closed spec fn view(&self) -> Seq<char> {
        self.0@
    }
}

impl Clone for StreamInterventionId {
    fn clone(&self) -> (res: Self)
        ensures
            res == *self,
    {
        StreamInterventionId(self.0.clone())
    }
}

impl crate::domain::ValueEq for StreamInterventionId {
    open spec fn value_eq(&self, other: &Self) -> bool {
        self@ == other@
    }

    fn equals(&self, other: &Self) -> (r: bool) {
        let r = self.0 == other.0;
        proof {
            assert(self@ == self.0@ && other@ == other.0@);
            assert(r == (self@ == other@));
            assert(r == self.value_eq(other));
        }
        r
    }
}

impl StreamInterventionId {
    /// Builds the identifier from a value that passes `validate_identifier`.
    pub fn new(value: String) -> (res: Self)
        requires
            crate::domain::identifier_check(value@) is Ok,
        ensures
            res@ == value@,
    {
        StreamInterventionId(value)
    }

    /// Validates the value and builds the identifier, or returns the validation error.
    pub fn try_new(value: String) -> (res: Result<Self, crate::domain::IdValidationError>)
        ensures
            match res {
                Ok(id) => crate::domain::identifier_check(value@) is Ok && id@ == value@,
                Err(e) => crate::domain::identifier_check(value@) == Err::<(), crate::domain::IdValidationError>(e),
            },
    {
        match crate::domain::validate_identifier(value.as_str()) {
            Ok(()) => Ok(StreamInterventionId(value)),
            Err(e) => Err(e),
        }
    }

    /// Returns the identifier text.
    pub fn as_str(&self) -> (res: &str)
        ensures
            res@ == self@,
    {
        self.0.as_str()
    }
}

/// Identifier of a stream match.
#[derive(Debug)]
pub struct StreamMatchId(String);

impl View for StreamMatchId {
    type V = Seq<char>;

    closed spec fn view(&self) -> Seq<char> {
        self.0@
    }
}

impl Clone for StreamMatchId {
    fn clone(&self) -> (res: Self)
        ensures
            res == *self,
    {
        StreamMatchId(self.0.clone())
    }
}

impl crate::domain::ValueEq for StreamMatchId {
    open spec fn value_eq(&self, other: &Self) -> bool {
        self@ == other@
    }

    fn equals(&self, other: &Self) -> (r: bool) {
        let r = self.0 == other.0;
        proof {
            assert(self@ == self.0@ && other@ == other.0@);
            assert(r == (self@ == other@));
            assert(r == self.value_eq(other));
        }
        r
    }
}

impl StreamMatchId {
    /// Builds the identifier from a value that passes `validate_identifier`.
    pub fn new(value: String) -> (res: Self)
        requires
            crate::domain::identifier_check(value@) is Ok,
        ensures
            res@ == value@,
    {
        StreamMatchId(value)
    }

    /// Validates the value and builds the identifier, or returns the validation error.
    pub fn try_new(value: String) -> (res: Result<Self, crate::domain::IdValidationError>)
        ensures
            match res {
                Ok(id) => crate::domain::identifier_check(value@) is Ok && id@ == value@,
                Err(e) => crate::domain::identifier_check(value@) == Err::<(), crate::domain::IdValidationError>(e),
            },
    {
        match crate::domain::validate_identifier(value.as_str()) {
            Ok(()) => Ok(StreamMatchId(value)),
            Err(e) => Err(e),
        }
    }

    /// Returns the identifier text.
    pub fn as_str(&self) -> (res: &str)
        ensures
            res@ == self@,
    {
        self.0.as_str()
    }
}

/// Identifier of a typed stream marker.
#[derive(Debug)]
pub struct MarkerId(String);

impl View for MarkerId {
    type V = Seq<char>;

    closed spec fn view(&self) -> Seq<char> {
        self.0@
    }
}

impl Clone for MarkerId {
    fn clone(&self) -> (res: Self)
        ensures
            res == *self,
    {
        MarkerId(self.0.clone())
    }
}

impl crate::domain::ValueEq for MarkerId {
    open spec fn value_eq(&self, other: &Self) -> bool {
        self@ == other@
    }

    fn equals(&self, other: &Self) -> (r: bool) {
        let r = self.0 == other.0;
        proof {
            assert(self@ == self.0@ && other@ == other.0@);
            assert(r == (self@ == other@));
            assert(r == self.value_eq(other));
        }
        r
    }
}

impl MarkerId {
    /// Builds the identifier from a value that passes `validate_identifier`.
    pub fn new(value: String) -> (res: Self)
        requires
            crate::domain::identifier_check(value@) is Ok,
        ensures
            res@ == value@,
    {
        MarkerId(value)
    }

    /// Validates the value and builds the identifier, or returns the validation error.
    pub fn try_new(value: String) -> (res: Result<Self, crate::domain::IdValidationError>)
        ensures
            match res {
                Ok(id) => crate::domain::identifier_check(value@) is Ok && id@ == value@,
                Err(e) => crate::domain::identifier_check(value@) == Err::<(), crate::domain::IdValidationError>(e),
            },
    {
        match crate::domain::validate_identifier(value.as_str()) {
            Ok(()) => Ok(MarkerId(value)),
            Err(e) => Err(e),
        }
    }

    /// Returns the identifier text.
    pub fn as_str(&self) -> (res: &str)
        ensures
            res@ == self@,
    {
        self.0.as_str()
    }
}

/// Version of a typed stream marker.
#[derive(Debug)]
pub struct MarkerVersion(String);

impl View for MarkerVersion {
    type V = Seq<char>;

    closed spec fn view(&self) -> Seq<char> {
        self.0@
    }
}

impl Clone for MarkerVersion {
    fn clone(&self) -> (res: Self)
        ensures
            res == *self,
    {
        MarkerVersion(self.0.clone())
    }
}

impl crate::domain::ValueEq for MarkerVersion {
    open spec fn value_eq(&self, other: &Self) -> bool {
        self@ == other@
    }

    fn equals(&self, other: &Self) -> (r: bool) {
        let r = self.0 == other.0;
        proof {
            assert(self@ == self.0@ && other@ == other.0@);
            assert(r == (self@ == other@));
            assert(r == self.value_eq(other));
        }
        r
    }
}

impl MarkerVersion {
    /// Builds the identifier from a value that passes `validate_identifier`.
    pub fn new(value: String) -> (res: Self)
        requires
            crate::domain::identifier_check(value@) is Ok,
        ensures
            res@ == value@,
    {
        MarkerVersion(value)
    }

    /// Validates the value and builds the identifier, or returns the validation error.
    pub fn try_new(value: String) -> (res: Result<Self, crate::domain::IdValidationError>)
        ensures
            match res {
                Ok(id) => crate::domain::identifier_check(value@) is Ok && id@ == value@,
                Err(e) => crate::domain::identifier_check(value@) == Err::<(), crate::domain::IdValidationError>(e),
            },
    {
        match crate::domain::validate_identifier(value.as_str()) {
            Ok(()) => Ok(MarkerVersion(value)),
            Err(e) => Err(e),
        }
    }

    /// Returns the identifier text.
    pub fn as_str(&self) -> (res: &str)
        ensures
            res@ == self@,
    {
        self.0.as_str()
    }
}

/// Reference to a host matcher engine.
#[derive(Debug)]
pub struct MatcherEngineRef(String);

impl View for MatcherEngineRef {
    type V = Seq<char>;

    closed spec fn view(&self) -> Seq<char> {
        self.0@
    }
}

impl Clone for MatcherEngineRef {
    fn clone(&self) -> (res: Self)
        ensures
            res == *self,
    {
        MatcherEngineRef(self.0.clone())
    }
}

impl crate::domain::ValueEq for MatcherEngineRef {
    open spec fn value_eq(&self, other: &Self) -> bool {
        self@ == other@
    }

    fn equals(&self, other: &Self) -> (r: bool) {
        let r = self.0 == other.0;
        proof {
            assert(self@ == self.0@ && other@ == other.0@);
            assert(r == (self@ == other@));
            assert(r == self.value_eq(other));
        }
        r
    }
}

impl MatcherEngineRef {
    /// Builds the identifier from a value that passes `validate_identifier`.
    pub fn new(value: String) -> (res: Self)
        requires
            crate::domain::identifier_check(value@) is Ok,
        ensures
            res@ == value@,
    {
        MatcherEngineRef(value)
    }

    /// Validates the value and builds the identifier, or returns the validation error.
    pub fn try_new(value: String) -> (res: Result<Self, crate::domain::IdValidationError>)
        ensures
            match res {
                Ok(id) => crate::domain::identifier_check(value@) is Ok && id@ == value@,
                Err(e) => crate::domain::identifier_check(value@) == Err::<(), crate::domain::IdValidationError>(e),
            },
    {
        match crate::domain::validate_identifier(value.as_str()) {
            Ok(()) => Ok(MatcherEngineRef(value)),
            Err(e) => Err(e),
        }
    }

    /// Returns the identifier text.
    pub fn as_str(&self) -> (res: &str)
        ensures
            res@ == self@,
    {
        self.0.as_str()
    }
}

/// Channel of a stream.
#[derive(Clone, Copy, Debug, PartialEq, Eq, Structural)]
pub enum StreamChannel {
    AssistantText,
    ReasoningSummary,
    ProviderExposedReasoning,
    ToolCallArguments,
    ToolResultText,
    RealtimeTranscript,
    RealtimeMedia,
    HiddenChainOfThought,
}

impl crate::domain::ValueEq for StreamChannel {
    open spec fn value_eq(&self, other: &Self) -> bool {
        *self == *other
    }

    fn equals(&self, other: &Self) -> (r: bool) {
        *self == *other
    }
}

/// Direction of a stream.
#[derive(Clone, Copy, Debug, PartialEq, Eq, Structural)]
pub enum StreamDirection {
    InputToProvider,
    OutputFromProvider,
}

impl crate::domain::ValueEq for StreamDirection {
    open spec fn value_eq(&self, other: &Self) -> bool {
        *self == *other
    }

    fn equals(&self, other: &Self) -> (r: bool) {
        *self == *other
    }
}

/// How precise a stream cursor is.
#[derive(Clone, Copy, Debug, PartialEq, Eq, Structural)]
pub enum StreamCursorPrecision {
    ByteOffset,
    ChunkSequenceOnly,
    Marker,
}

impl crate::domain::ValueEq for StreamCursorPrecision {
    open spec fn value_eq(&self, other: &Self) -> bool {
        *self == *other
    }

    fn equals(&self, other: &Self) -> (r: bool) {
        *self == *other
    }
}

/// Position in a stream.
#[derive(Debug)]
pub struct StreamCursor {
    pub chunk_sequence: u64,
    pub byte_offset: u64,
    pub precision: StreamCursorPrecision,
    pub label: Option<String>,
}

impl Clone for StreamCursor {
    fn clone(&self) -> (res: Self)
        ensures
            res == *self,
    {
        StreamCursor {
            chunk_sequence: self.chunk_sequence,
            byte_offset: self.byte_offset,
            precision: self.precision,
            label: self.label.clone(),
        }
    }
}

/// One delta of a provider stream; the text it carries for matching is never serialized.
#[derive(Debug)]
pub struct StreamDelta {
    pub delta_id: StreamDeltaId,
    pub run_id: RunId,
    pub agent_id: AgentId,
    pub turn_id: Option<TurnId>,
    pub attempt_id: Option<AttemptId>,
    pub message_id: Option<MessageId>,
    pub tool_call_id: Option<ToolCallId>,
    pub realtime_session_id: Option<RealtimeSessionId>,
    pub channel: StreamChannel,
    pub direction: Option<StreamDirection>,
    pub cursor: StreamCursor,
    pub source: SourceRef,
    pub destination: Option<DestinationRef>,
    pub policy_refs: Vec<PolicyRef>,
    pub privacy: PrivacyClass,
    pub retention: RetentionClass,
    pub content_ref: Option<ContentRefId>,
    pub marker_id: Option<MarkerId>,
    pub redacted_summary: String,
    pub runtime_package_fingerprint: String,
    pub match_text: Option<String>,
}

impl StreamDelta {
    /// Field-wise equality, with vectors compared by their contents.
    pub open spec fn same_as(&self, other: &Self) -> bool {
        &&& self.delta_id == other.delta_id
        &&& self.run_id == other.run_id
        &&& self.agent_id == other.agent_id
        &&& self.turn_id == other.turn_id
        &&& self.attempt_id == other.attempt_id
        &&& self.message_id == other.message_id
        &&& self.tool_call_id == other.tool_call_id
        &&& self.realtime_session_id == other.realtime_session_id
        &&& self.channel == other.channel
        &&& self.direction == other.direction
        &&& self.cursor == other.cursor
        &&& self.source == other.source
        &&& self.destination == other.destination
        &&& self.policy_refs@ == other.policy_refs@
        &&& self.privacy == other.privacy
        &&& self.retention == other.retention
        &&& self.content_ref == other.content_ref
        &&& self.marker_id == other.marker_id
        &&& self.redacted_summary == other.redacted_summary
        &&& self.runtime_package_fingerprint == other.runtime_package_fingerprint
        &&& self.match_text == other.match_text
    }
}

impl Clone for StreamDelta {
    fn clone(&self) -> (res: Self)
        ensures
            res.same_as(self),
    {
        let policy_refs_copy = self.policy_refs.clone();
        proof { assert(policy_refs_copy@ =~= self.policy_refs@); }
        StreamDelta {
            delta_id: self.delta_id.clone(),
            run_id: self.run_id.clone(),
            agent_id: self.agent_id.clone(),
            turn_id: self.turn_id.clone(),
            attempt_id: self.attempt_id.clone(),
            message_id: self.message_id.clone(),
            tool_call_id: self.tool_call_id.clone(),
            realtime_session_id: self.realtime_session_id.clone(),
            channel: self.channel,
            direction: self.direction.clone(),
            cursor: self.cursor.clone(),
            source: self.source.clone(),
            destination: self.destination.clone(),
            policy_refs: policy_refs_copy,
            privacy: self.privacy,
            retention: self.retention,
            content_ref: self.content_ref.clone(),
            marker_id: self.marker_id.clone(),
            redacted_summary: self.redacted_summary.clone(),
            runtime_package_fingerprint: self.runtime_package_fingerprint.clone(),
            match_text: self.match_text.clone(),
        }
    }
}

/// Which channel (and optionally direction) a rule watches.
#[derive(Debug)]
pub struct StreamChannelSelector {
    pub channel: StreamChannel,
    pub direction: Option<StreamDirection>,
}

impl Clone for StreamChannelSelector {
    fn clone(&self) -> (res: Self)
        ensures
            res == *self,
    {
        StreamChannelSelector {
            channel: self.channel,
            direction: self.direction.clone(),
        }
    }
}

/// Regex dialects a stream matcher accepts.
#[derive(Clone, Copy, Debug, PartialEq, Eq, Structural)]
pub enum RegexDialect {
    SafeSubset,
}

impl crate::domain::ValueEq for RegexDialect {
    open spec fn value_eq(&self, other: &Self) -> bool {
        *self == *other
    }

    fn equals(&self, other: &Self) -> (r: bool) {
        *self == *other
    }
}

/// How a stream rule recognizes a match.
#[derive(Debug)]
pub enum StreamMatcher {
    Literal { text: String, case_sensitive: bool, window_bytes: u64 },
    Regex { pattern: String, dialect: RegexDialect, window_bytes: u64, timeout_ms: u64 },
    Marker { marker_id: MarkerId, marker_version: MarkerVersion },
    HostMatcher { matcher_ref: MatcherEngineRef, risk_policy_ref: Option<PolicyRef> },
}

impl Clone for StreamMatcher {
    fn clone(&self) -> (res: Self)
        ensures
            res == *self,
    {
        match self {
            StreamMatcher::Literal { text, case_sensitive, window_bytes } => { StreamMatcher::Literal { text: text.clone(), case_sensitive: *case_sensitive, window_bytes: *window_bytes } }
            StreamMatcher::Regex { pattern, dialect, window_bytes, timeout_ms } => { StreamMatcher::Regex { pattern: pattern.clone(), dialect: *dialect, window_bytes: *window_bytes, timeout_ms: *timeout_ms } }
            StreamMatcher::Marker { marker_id, marker_version } => { StreamMatcher::Marker { marker_id: marker_id.clone(), marker_version: marker_version.clone() } }
            StreamMatcher::HostMatcher { matcher_ref, risk_policy_ref } => { StreamMatcher::HostMatcher { matcher_ref: matcher_ref.clone(), risk_policy_ref: risk_policy_ref.clone() } }
        }
    }
}

/// Scope in which a stream rule applies.
#[derive(Clone, Copy, Debug, PartialEq, Eq, Structural)]
pub enum StreamRuleScope {
    Run,
    Turn,
    Attempt,
    RealtimeSession,
}

impl crate::domain::ValueEq for StreamRuleScope {
    open spec fn value_eq(&self, other: &Self) -> bool {
        *self == *other
    }

    fn equals(&self, other: &Self) -> (r: bool) {
        *self == *other
    }
}

/// What happens to partial output when a rule fires.
#[derive(Clone, Copy, Debug, PartialEq, Eq, Structural)]
pub enum PartialOutputPolicy {
    Keep,
    Discard,
    Mask,
    ContentRefOnly,
}

impl crate::domain::ValueEq for PartialOutputPolicy {
    open spec fn value_eq(&self, other: &Self) -> bool {
        *self == *other
    }

    fn equals(&self, other: &Self) -> (r: bool) {
        *self == *other
    }
}

/// How often a stream rule may fire.
#[derive(Clone, Copy, Debug, PartialEq, Eq, Structural)]
pub enum RepeatPolicy {
    Always,
    OncePerRun,
    OncePerTurn,
    OncePerAttemptAndSpan,
}

impl crate::domain::ValueEq for RepeatPolicy {
    open spec fn value_eq(&self, other: &Self) -> bool {
        *self == *other
    }

    fn equals(&self, other: &Self) -> (r: bool) {
        *self == *other
    }
}

/// How a match is recorded.
#[derive(Clone, Copy, Debug, PartialEq, Eq, Structural)]
pub enum MatchPrivacyPolicy {
    HashLengthAndSummary,
    RawCaptureIfPolicyAllows,
}

impl crate::domain::ValueEq for MatchPrivacyPolicy {
    open spec fn value_eq(&self, other: &Self) -> bool {
        *self == *other
    }

    fn equals(&self, other: &Self) -> (r: bool) {
        *self == *other
    }
}

/// What a stream rule does when it matches.
#[derive(Debug)]
pub enum StreamAction {
    StopRun { reason: String, partial_output: PartialOutputPolicy },
    AbortAndRetry { injection_summary: String, retry_policy_ref: PolicyRef, partial_output: PartialOutputPolicy },
    PauseForApproval { approval_policy_ref: PolicyRef, resume_policy_ref: PolicyRef },
    MaskAndContinue { replacement: String },
    EmitOnly { notice_kind: String },
}

impl Clone for StreamAction {
    fn clone(&self) -> (res: Self)
        ensures
            res == *self,
    {
        match self {
            StreamAction::StopRun { reason, partial_output } => { StreamAction::StopRun { reason: reason.clone(), partial_output: *partial_output } }
            StreamAction::AbortAndRetry { injection_summary, retry_policy_ref, partial_output } => { StreamAction::AbortAndRetry { injection_summary: injection_summary.clone(), retry_policy_ref: retry_policy_ref.clone(), partial_output: *partial_output } }
            StreamAction::PauseForApproval { approval_policy_ref, resume_policy_ref } => { StreamAction::PauseForApproval { approval_policy_ref: approval_policy_ref.clone(), resume_policy_ref: resume_policy_ref.clone() } }
            StreamAction::MaskAndContinue { replacement } => { StreamAction::MaskAndContinue { replacement: replacement.clone() } }
            StreamAction::EmitOnly { notice_kind } => { StreamAction::EmitOnly { notice_kind: notice_kind.clone() } }
        }
    }
}

/// A stream rule.
#[derive(Debug)]
pub struct StreamRule {
    pub id: StreamRuleId,
    pub version: RuleVersion,
    pub source: SourceRef,
    pub matcher: StreamMatcher,
    pub channels: Vec<StreamChannelSelector>,
    pub scope: StreamRuleScope,
    pub action: StreamAction,
    pub repeat: RepeatPolicy,
    pub privacy: MatchPrivacyPolicy,
    pub policy_refs: Vec<PolicyRef>,
}

impl StreamRule {
    /// Field-wise equality, with vectors compared by their contents.
    pub open spec fn same_as(&self, other: &Self) -> bool {
        &&& self.id == other.id
        &&& self.version == other.version
        &&& self.source == other.source
        &&& self.matcher == other.matcher
        &&& self.channels@ == other.channels@
        &&& self.scope == other.scope
        &&& self.action == other.action
        &&& self.repeat == other.repeat
        &&& self.privacy == other.privacy
        &&& self.policy_refs@ == other.policy_refs@
    }
}

impl Clone for StreamRule {
    fn clone(&self) -> (res: Self)
        ensures
            res.same_as(self),
    {
        let channels_copy = self.channels.clone();
        proof { assert(channels_copy@ =~= self.channels@); }
        let policy_refs_copy = self.policy_refs.clone();
        proof { assert(policy_refs_copy@ =~= self.policy_refs@); }
        StreamRule {
            id: self.id.clone(),
            version: self.version,
            source: self.source.clone(),
            matcher: self.matcher.clone(),
            channels: channels_copy,
            scope: self.scope,
            action: self.action.clone(),
            repeat: self.repeat,
            privacy: self.privacy,
            policy_refs: policy_refs_copy,
        }
    }
}

/// Builder of a stream rule; `build` validates.
#[derive(Debug)]
pub struct StreamRuleBuilder {
    rule: StreamRule,
}

impl StreamRuleBuilder {
    /// Field-wise equality, with vectors compared by their contents.
    pub closed spec fn same_as(&self, other: &Self) -> bool {
        &&& self.rule.same_as(&other.rule)
    }
}

impl Clone for StreamRuleBuilder {
    fn clone(&self) -> (res: Self)
        ensures
            res.same_as(self),
    {
        StreamRuleBuilder {
            rule: self.rule.clone(),
        }
    }
}

/// A match recorded by hash, length, and summary; never raw text.
#[derive(Debug)]
pub struct RedactedMatch {
    pub match_id: StreamMatchId,
    pub channel: StreamChannel,
    pub direction: Option<StreamDirection>,
    pub cursor: StreamCursor,
    pub byte_len: usize,
    pub text_hash: String,
    pub redacted_summary: String,
    pub privacy: PrivacyClass,
    pub retention: RetentionClass,
}

impl Clone for RedactedMatch {
    fn clone(&self) -> (res: Self)
        ensures
            res == *self,
    {
        RedactedMatch {
            match_id: self.match_id.clone(),
            channel: self.channel,
            direction: self.direction.clone(),
            cursor: self.cursor.clone(),
            byte_len: self.byte_len,
            text_hash: self.text_hash.clone(),
            redacted_summary: self.redacted_summary.clone(),
            privacy: self.privacy,
            retention: self.retention,
        }
    }
}

/// Reference to a match and the rule version that produced it.
#[derive(Debug)]
pub struct StreamMatchRef {
    pub match_id: StreamMatchId,
    pub rule_id: StreamRuleId,
    pub rule_version: RuleVersion,
}

impl Clone for StreamMatchRef {
    fn clone(&self) -> (res: Self)
        ensures
            res == *self,
    {
        StreamMatchRef {
            match_id: self.match_id.clone(),
            rule_id: self.rule_id.clone(),
            rule_version: self.rule_version,
        }
    }
}

/// An intervention a rule match requests.
#[derive(Debug)]
pub struct StreamIntervention {
    pub intervention_id: StreamInterventionId,
    pub rule_ref: EntityRef,
    pub requested_action: StreamAction,
    pub applied_action: Option<StreamAction>,
    pub match_ref: StreamMatchRef,
    pub redacted_match: RedactedMatch,
    pub partial_output_policy: PartialOutputPolicy,
    pub policy_refs: Vec<PolicyRef>,
    pub effect_intent_ref: Option<EffectId>,
    pub effect_result_ref: Option<EffectId>,
    pub effect_intent: Option<EffectIntent>,
    pub effect_result: Option<EffectResult>,
}

impl StreamIntervention {
    /// Field-wise equality, with vectors compared by their contents.
    pub open spec fn same_as(&self, other: &Self) -> bool {
        &&& self.intervention_id == other.intervention_id
        &&& self.rule_ref == other.rule_ref
        &&& self.requested_action == other.requested_action
        &&& self.applied_action == other.applied_action
        &&& self.match_ref == other.match_ref
        &&& self.redacted_match == other.redacted_match
        &&& self.partial_output_policy == other.partial_output_policy
        &&& self.policy_refs@ == other.policy_refs@
        &&& self.effect_intent_ref == other.effect_intent_ref
        &&& self.effect_result_ref == other.effect_result_ref
        &&& (self.effect_intent.is_some() == other.effect_intent.is_some() && (self.effect_intent.is_some() ==> self.effect_intent.unwrap().same_as(&other.effect_intent.unwrap())))
        &&& (self.effect_result.is_some() == other.effect_result.is_some() && (self.effect_result.is_some() ==> self.effect_result.unwrap().same_as(&other.effect_result.unwrap())))
    }
}

impl Clone for StreamIntervention {
    fn clone(&self) -> (res: Self)
        ensures
            res.same_as(self),
    {
        let policy_refs_copy = self.policy_refs.clone();
        proof { assert(policy_refs_copy@ =~= self.policy_refs@); }
        StreamIntervention {
            intervention_id: self.intervention_id.clone(),
            rule_ref: self.rule_ref.clone(),
            requested_action: self.requested_action.clone(),
            applied_action: self.applied_action.clone(),
            match_ref: self.match_ref.clone(),
            redacted_match: self.redacted_match.clone(),
            partial_output_policy: self.partial_output_policy,
            policy_refs: policy_refs_copy,
            effect_intent_ref: self.effect_intent_ref.clone(),
            effect_result_ref: self.effect_result_ref.clone(),
            effect_intent: match &self.effect_intent { Some(x4) => {  Some(x4.clone()) }, None => None },
            effect_result: match &self.effect_result { Some(x5) => {  Some(x5.clone()) }, None => None },
        }
    }
}

/// Kind of stream rule record.
#[derive(Clone, Copy, Debug, PartialEq, Eq, Structural)]
pub enum StreamRuleRecordKind {
    Registered,
    CompileFailed,
    Matched,
    InterventionIntent,
    InterventionResult,
    RepeatState,
}

impl crate::domain::ValueEq for StreamRuleRecordKind {
    open spec fn value_eq(&self, other: &Self) -> bool {
        *self == *other
    }

    fn equals(&self, other: &Self) -> (r: bool) {
        *self == *other
    }
}

/// Repeat state of a stream rule.
#[derive(Debug)]
pub struct StreamRuleRepeatStateSnapshot {
    pub seen_match_keys: Vec<String>,
}

impl StreamRuleRepeatStateSnapshot {
    /// Field-wise equality, with vectors compared by their contents.
    pub open spec fn same_as(&self, other: &Self) -> bool {
        &&& self.seen_match_keys@ == other.seen_match_keys@
    }
}

impl Clone for StreamRuleRepeatStateSnapshot {
    fn clone(&self) -> (res: Self)
        ensures
            res.same_as(self),
    {
        let seen_match_keys_copy = self.seen_match_keys.clone();
        proof { assert(seen_match_keys_copy@ =~= self.seen_match_keys@); }
        StreamRuleRepeatStateSnapshot {
            seen_match_keys: seen_match_keys_copy,
        }
    }
}

/// Journal payload of the stream rule feature.
#[derive(Debug)]
pub struct StreamRuleRecord {
    pub record_kind: StreamRuleRecordKind,
    pub rule_id: StreamRuleId,
    pub rule_version: RuleVersion,
    pub channel: Option<StreamChannel>,
    pub direction: Option<StreamDirection>,
    pub cursor: Option<StreamCursor>,
    pub redacted_match: Option<RedactedMatch>,
    pub intervention: Option<StreamIntervention>,
    pub repeat_state: Option<StreamRuleRepeatStateSnapshot>,
    pub policy_refs: Vec<PolicyRef>,
    pub redacted_summary: String,
}

impl StreamRuleRecord {
    /// Field-wise equality, with vectors compared by their contents.
    pub open spec fn same_as(&self, other: &Self) -> bool {
        &&& self.record_kind == other.record_kind
        &&& self.rule_id == other.rule_id
        &&& self.rule_version == other.rule_version
        &&& self.channel == other.channel
        &&& self.direction == other.direction
        &&& self.cursor == other.cursor
        &&& self.redacted_match == other.redacted_match
        &&& (self.intervention.is_some() == other.intervention.is_some() && (self.intervention.is_some() ==> self.intervention.unwrap().same_as(&other.intervention.unwrap())))
        &&& (self.repeat_state.is_some() == other.repeat_state.is_some() && (self.repeat_state.is_some() ==> self.repeat_state.unwrap().same_as(&other.repeat_state.unwrap())))
        &&& self.policy_refs@ == other.policy_refs@
        &&& self.redacted_summary == other.redacted_summary
    }
}

impl Clone for StreamRuleRecord {
    fn clone(&self) -> (res: Self)
        ensures
            res.same_as(self),
    {
        let policy_refs_copy = self.policy_refs.clone();
        proof { assert(policy_refs_copy@ =~= self.policy_refs@); }
        StreamRuleRecord {
            record_kind: self.record_kind,
            rule_id: self.rule_id.clone(),
            rule_version: self.rule_version,
            channel: self.channel.clone(),
            direction: self.direction.clone(),
            cursor: self.cursor.clone(),
            redacted_match: self.redacted_match.clone(),
            intervention: match &self.intervention { Some(x6) => {  Some(x6.clone()) }, None => None },
            repeat_state: match &self.repeat_state { Some(x7) => {  Some(x7.clone()) }, None => None },
            policy_refs: policy_refs_copy,
            redacted_summary: self.redacted_summary.clone(),
        }
    }
}

/// Version of a stream rule; nonzero.
#[derive(Clone, Copy, Debug, PartialEq, Eq, Structural)]
pub struct RuleVersion(pub u32);

impl RuleVersion {
    /// Builds a rule version; the version must be nonzero.
    pub fn new(version: u32) -> (res: Self)
        requires
            version > 0,
        ensures
            res.0 == version,
    {
        RuleVersion(version)
    }
}

impl StreamChannel {
    /// Whether policy may see the channel: every channel but hidden chain of thought.
    pub fn is_policy_visible(&self) -> (r: bool)
        ensures
            r == !(*self is HiddenChainOfThought),
    {
        match self {
            StreamChannel::HiddenChainOfThought => false,
            _ => true,
        }
    }

    /// The channel's name in the stream contract.
    pub open spec fn contract_name_spec(&self) -> Seq<char> {
        match self {
            StreamChannel::AssistantText => "assistant_text"@,
            StreamChannel::ReasoningSummary => "reasoning_summary"@,
            StreamChannel::ProviderExposedReasoning => "provider_exposed_reasoning"@,
            StreamChannel::ToolCallArguments => "tool_call_arguments"@,
            StreamChannel::ToolResultText => "tool_result_text"@,
            StreamChannel::RealtimeTranscript => "realtime_transcript"@,
            StreamChannel::RealtimeMedia => "realtime_media"@,
            StreamChannel::HiddenChainOfThought => "hidden_chain_of_thought"@,
        }
    }

    /// The channel's name in the stream contract.
    pub fn as_contract_name(&self) -> (res: &'static str)
        ensures
            res@ == self.contract_name_spec(),
    {
        match self {
            StreamChannel::AssistantText => "assistant_text",
            StreamChannel::ReasoningSummary => "reasoning_summary",
            StreamChannel::ProviderExposedReasoning => "provider_exposed_reasoning",
            StreamChannel::ToolCallArguments => "tool_call_arguments",
            StreamChannel::ToolResultText => "tool_result_text",
            StreamChannel::RealtimeTranscript => "realtime_transcript",
            StreamChannel::RealtimeMedia => "realtime_media",
            StreamChannel::HiddenChainOfThought => "hidden_chain_of_thought",
        }
    }
}

impl StreamCursor {
    /// A cursor that only knows its chunk.
    pub fn chunk(chunk_sequence: u64) -> (res: Self)
        ensures
            res.chunk_sequence == chunk_sequence,
            res.byte_offset == 0,
            res.precision == StreamCursorPrecision::ChunkSequenceOnly,
            res.label is None,
    {
        StreamCursor { chunk_sequence, byte_offset: 0, precision: StreamCursorPrecision::ChunkSequenceOnly, label: None }
    }

    /// A cursor at a byte offset of a chunk.
    pub fn byte(chunk_sequence: u64, byte_offset: u64) -> (res: Self)
        ensures
            res.chunk_sequence == chunk_sequence,
            res.byte_offset == byte_offset,
            res.precision == StreamCursorPrecision::ByteOffset,
            res.label is None,
    {
        StreamCursor { chunk_sequence, byte_offset, precision: StreamCursorPrecision::ByteOffset, label: None }
    }

    /// A cursor at a labelled marker of a chunk.
    pub fn marker(chunk_sequence: u64, label: String) -> (res: Self)
        ensures
            res.chunk_sequence == chunk_sequence,
            res.byte_offset == 0,
            res.precision == StreamCursorPrecision::Marker,
            res.label == Some(label),
    {
        StreamCursor { chunk_sequence, byte_offset: 0, precision: StreamCursorPrecision::Marker, label: Some(label) }
    }
}

impl StreamDelta {
    /// Whether this delta carries the placeholder lineage, no optional ids, direction,
    /// destination, policy refs or content ref, run-scoped retention and the test fingerprint.
    pub open spec fn is_fresh(&self, delta_id: Seq<char>, channel: StreamChannel, cursor: StreamCursor, source: SourceRef) -> bool {
        &&& self.delta_id@ == delta_id
        &&& self.run_id@ == "run.stream.delta.unset"@
        &&& self.agent_id@ == "agent.stream.delta.unset"@
        &&& self.turn_id is None
        &&& self.attempt_id is None
        &&& self.message_id is None
        &&& self.tool_call_id is None
        &&& self.realtime_session_id is None
        &&& self.channel == channel
        &&& self.direction is None
        &&& self.cursor == cursor
        &&& self.source == source
        &&& self.destination is None
        &&& self.policy_refs@.len() == 0
        &&& self.retention == RetentionClass::RunScoped
        &&& self.content_ref is None
        &&& self.runtime_package_fingerprint@ == "runtime.package.fingerprint.test"@
    }

    /// A public delta of visible text; the text is kept for matching only.
    pub fn visible_text(delta_id: String, channel: StreamChannel, cursor: StreamCursor, text: String, source: SourceRef) -> (res: Self)
        requires
            identifier_check(delta_id@) is Ok,
            vstd::utf8::encode_utf8(text@).len() <= usize::MAX,
        ensures
            res.is_fresh(delta_id@, channel, cursor, source),
            res.privacy == PrivacyClass::Public,
            res.marker_id is None,
            res.redacted_summary@ == decimal(vstd::utf8::encode_utf8(text@).len()) + " bytes visible stream text"@,
            res.match_text == Some(text),
    {
        let len = text.as_str().len();
        let count = u64_to_decimal(len as u64);
        let redacted_summary = concat2(count.as_str(), " bytes visible stream text");
        StreamDelta {
            delta_id: StreamDeltaId::new(delta_id),
            run_id: RunId::new("run.stream.delta.unset".to_string()),
            agent_id: AgentId::new("agent.stream.delta.unset".to_string()),
            turn_id: None,
            attempt_id: None,
            message_id: None,
            tool_call_id: None,
            realtime_session_id: None,
            channel,
            direction: None,
            cursor,
            source,
            destination: None,
            policy_refs: Vec::new(),
            privacy: PrivacyClass::Public,
            retention: RetentionClass::RunScoped,
            content_ref: None,
            marker_id: None,
            redacted_summary,
            runtime_package_fingerprint: "runtime.package.fingerprint.test".to_string(),
            match_text: Some(text),
        }
    }

    /// An internal delta that carries a typed marker and no text.
    pub fn marker(delta_id: String, channel: StreamChannel, cursor: StreamCursor, marker_id: String, source: SourceRef) -> (res: Self)
        requires
            identifier_check(delta_id@) is Ok,
            identifier_check(marker_id@) is Ok,
        ensures
            res.is_fresh(delta_id@, channel, cursor, source),
            res.privacy == PrivacyClass::Internal,
            res.marker_id is Some && res.marker_id.unwrap()@ == marker_id@,
            res.redacted_summary@ == "typed stream marker"@,
            res.match_text is None,
    {
        let marker_id = MarkerId::new(marker_id);
        StreamDelta {
            delta_id: StreamDeltaId::new(delta_id),
            run_id: RunId::new("run.stream.delta.unset".to_string()),
            agent_id: AgentId::new("agent.stream.delta.unset".to_string()),
            turn_id: None,
            attempt_id: None,
            message_id: None,
            tool_call_id: None,
            realtime_session_id: None,
            channel,
            direction: None,
            cursor,
            source,
            destination: None,
            policy_refs: Vec::new(),
            privacy: PrivacyClass::Internal,
            retention: RetentionClass::RunScoped,
            content_ref: None,
            marker_id: Some(marker_id),
            redacted_summary: "typed stream marker".to_string(),
            runtime_package_fingerprint: "runtime.package.fingerprint.test".to_string(),
            match_text: None,
        }
    }

    /// The delta, attributed to a run and agent.
    pub fn with_run(self, run_id: RunId, agent_id: AgentId) -> (res: Self)
        ensures
            res == (StreamDelta { run_id, agent_id, ..self }),
    {
        let mut delta = self;
        delta.run_id = run_id;
        delta.agent_id = agent_id;
        delta
    }

    /// The delta, attributed to a turn.
    pub fn with_turn(self, turn_id: TurnId) -> (res: Self)
        ensures
            res == (StreamDelta { turn_id: Some(turn_id), ..self }),
    {
        let mut delta = self;
        delta.turn_id = Some(turn_id);
        delta
    }

    /// The delta, attributed to a model attempt.
    pub fn with_attempt(self, attempt_id: AttemptId) -> (res: Self)
        ensures
            res == (StreamDelta { attempt_id: Some(attempt_id), ..self }),
    {
        let mut delta = self;
        delta.attempt_id = Some(attempt_id);
        delta
    }

    /// The delta, with a direction.
    pub fn with_direction(self, direction: StreamDirection) -> (res: Self)
        ensures
            res == (StreamDelta { direction: Some(direction), ..self }),
    {
        let mut delta = self;
        delta.direction = Some(direction);
        delta
    }

    /// The delta, with a destination.
    pub fn with_destination(self, destination: DestinationRef) -> (res: Self)
        ensures
            res == (StreamDelta { destination: Some(destination), ..self }),
    {
        let mut delta = self;
        delta.destination = Some(destination);
        delta
    }

    /// The delta, with a content ref.
    pub fn with_content_ref(self, content_ref: ContentRefId) -> (res: Self)
        ensures
            res == (StreamDelta { content_ref: Some(content_ref), ..self }),
    {
        let mut delta = self;
        delta.content_ref = Some(content_ref);
        delta
    }

    /// The text a matcher may read: none on hidden channels or for secret deltas.
    pub fn matcher_text(&self) -> (res: Option<&str>)
        ensures
            (self.channel is HiddenChainOfThought || self.privacy == PrivacyClass::Secret || self.match_text is None)
                ==> res is None,
            !(self.channel is HiddenChainOfThought || self.privacy == PrivacyClass::Secret) && self.match_text is Some
                ==> res is Some && res.unwrap()@ == self.match_text.unwrap()@,
    {
        if !self.channel.is_policy_visible() || self.privacy == PrivacyClass::Secret {
            return None;
        }
        match &self.match_text {
            Some(text) => Some(text.as_str()),
            None => None,
        }
    }

    /// Whether the serialized delta (`None` when serialization failed) leaves out the text
    /// kept for matching.
    pub fn serialized_raw_text_absent(&self, serialized: Option<&str>) -> (r: bool)
        ensures
            r == match serialized {
                None => false,
                Some(json) => match self.match_text {
                    None => true,
                    Some(text) => !contains_seq(json@, text@),
                },
            },
    {
        match serialized {
            None => false,
            Some(json) => match &self.match_text {
                None => true,
                Some(text) => !contains_str(json, text.as_str()),
            },
        }
    }
}

impl StreamChannelSelector {
    /// Every delta of a channel, in either direction.
    pub fn channel(channel: StreamChannel) -> (res: Self)
        ensures
            res == (StreamChannelSelector { channel, direction: None }),
    {
        StreamChannelSelector { channel, direction: None }
    }

    /// Whether a delta is on the channel and, if a direction is selected, in that direction.
    pub fn matches(&self, delta: &StreamDelta) -> (r: bool)
        ensures
            r == (self.channel == delta.channel && (self.direction is None || delta.direction == self.direction)),
    {
        if self.channel != delta.channel {
            return false;
        }
        match (&self.direction, &delta.direction) {
            (None, _) => true,
            (Some(a), Some(b)) => *a == *b,
            (Some(_), None) => false,
        }
    }
}

/// Outcome of the window check: between 1 and 65536 bytes.
pub open spec fn window_check(window_bytes: u64) -> Result<(), (AgentErrorKind, RetryClassification, Seq<char>)> {
    if window_bytes == 0 || window_bytes > 64 * 1024 {
        Err(AgentError::contract_violation_spec("stream matcher window_bytes must be between 1 and 65536"@))
    } else {
        Ok(())
    }
}

fn validate_window(window_bytes: u64) -> (res: Result<(), AgentError>)
    ensures
        outcome_parts(res) == window_check(window_bytes),
{
    if window_bytes == 0 || window_bytes > 64 * 1024 {
        return Err(AgentError::contract_violation("stream matcher window_bytes must be between 1 and 65536"));
    }
    Ok(())
}

/// Outcome of the safe regex check: a nonempty pattern of at most 512 UTF-8 bytes without
/// lookaround, backreferences, nested quantifiers or open-ended repetition.
pub open spec fn safe_regex_check(pattern: Seq<char>) -> Result<(), (AgentErrorKind, RetryClassification, Seq<char>)> {
    if pattern.len() == 0 {
        Err(AgentError::missing_required_field_spec("stream_matcher.regex.pattern"@))
    } else if vstd::utf8::encode_utf8(pattern).len() > 512 {
        Err(AgentError::contract_violation_spec("stream regex pattern exceeds bounded length"@))
    } else if contains_seq(pattern, "(?"@) || contains_seq(pattern, "\\1"@) || contains_seq(pattern, "\\2"@) || contains_seq(pattern, "+)+"@) || contains_seq(pattern, "*)+"@) || contains_seq(pattern, "++"@) || contains_seq(pattern, "**"@) || contains_seq(pattern, "{0,"@) {
        Err(AgentError::contract_violation_spec("stream regex pattern uses unsupported or backtracking-prone syntax"@))
    } else {
        Ok(())
    }
}

/// Checks a regex pattern against `safe_regex_check`.
pub(crate) fn validate_safe_regex(pattern: &str) -> (res: Result<(), AgentError>)
    ensures
        outcome_parts(res) == safe_regex_check(pattern@),
{
    if pattern.is_empty() {
        return Err(AgentError::missing_required_field("stream_matcher.regex.pattern"));
    }
    if utf8_len_exceeds(pattern, 512) {
        return Err(AgentError::contract_violation("stream regex pattern exceeds bounded length"));
    }
    if contains_str(pattern, "(?") || contains_str(pattern, "\\1") || contains_str(pattern, "\\2") || contains_str(pattern, "+)+") || contains_str(pattern, "*)+") || contains_str(pattern, "++") || contains_str(pattern, "**") || contains_str(pattern, "{0,") {
        return Err(AgentError::contract_violation("stream regex pattern uses unsupported or backtracking-prone syntax"));
    }
    Ok(())
}

impl StreamMatcher {
    /// A literal matcher.
    pub fn literal(text: String, case_sensitive: bool, window_bytes: u64) -> (res: Self)
        ensures
            res == (StreamMatcher::Literal { text, case_sensitive, window_bytes }),
    {
        StreamMatcher::Literal { text, case_sensitive, window_bytes }
    }

    /// A safe-subset regex matcher with the given window and timeout.
    pub fn regex_with_limits(pattern: String, window_bytes: u64, timeout_ms: u64) -> (res: Self)
        ensures
            res == (StreamMatcher::Regex { pattern, dialect: RegexDialect::SafeSubset, window_bytes, timeout_ms }),
    {
        StreamMatcher::Regex { pattern, dialect: RegexDialect::SafeSubset, window_bytes, timeout_ms }
    }

    /// A matcher of a typed marker, version `marker.v1`.
    pub fn marker(marker_id: String) -> (res: Self)
        requires
            identifier_check(marker_id@) is Ok,
        ensures
            res matches StreamMatcher::Marker { marker_id: m, marker_version: v } && m@ == marker_id@
                && v@ == "marker.v1"@,
    {
        proof {
            lemma_marker_version_valid();
        }
        StreamMatcher::Marker { marker_id: MarkerId::new(marker_id), marker_version: MarkerVersion::new("marker.v1".to_string()) }
    }

    /// The matcher's window in bytes; zero for markers and host matchers.
    pub fn window_bytes(&self) -> (res: u64)
        ensures
            res == match *self {
                StreamMatcher::Literal { window_bytes, .. } => window_bytes,
                StreamMatcher::Regex { window_bytes, .. } => window_bytes,
                _ => 0,
            },
    {
        match self {
            StreamMatcher::Literal { window_bytes, .. } => *window_bytes,
            StreamMatcher::Regex { window_bytes, .. } => *window_bytes,
            StreamMatcher::Marker { .. } => 0,
            StreamMatcher::HostMatcher { .. } => 0,
        }
    }

    /// The matcher's kind name.
    pub fn kind_name(&self) -> (res: &'static str)
        ensures
            res@ == match *self {
                StreamMatcher::Literal { .. } => "literal"@,
                StreamMatcher::Regex { .. } => "regex"@,
                StreamMatcher::Marker { .. } => "marker"@,
                StreamMatcher::HostMatcher { .. } => "host_matcher"@,
            },
    {
        match self {
            StreamMatcher::Literal { .. } => "literal",
            StreamMatcher::Regex { .. } => "regex",
            StreamMatcher::Marker { .. } => "marker",
            StreamMatcher::HostMatcher { .. } => "host_matcher",
        }
    }

    /// Outcome of validating the matcher.
    pub open spec fn validation(&self) -> Result<(), (AgentErrorKind, RetryClassification, Seq<char>)> {
        match *self {
            StreamMatcher::Literal { text, window_bytes, .. } => if text@.len() == 0 {
                Err(AgentError::missing_required_field_spec("stream_matcher.literal.text"@))
            } else {
                window_check(window_bytes)
            },
            StreamMatcher::Regex { pattern, window_bytes, timeout_ms, .. } => match window_check(window_bytes) {
                Err(e) => Err(e),
                Ok(()) => if timeout_ms == 0 || timeout_ms > 1000 {
                    Err(AgentError::contract_violation_spec("stream regex timeout must be between 1 and 1000ms"@))
                } else {
                    safe_regex_check(pattern@)
                },
            },
            StreamMatcher::Marker { marker_id, .. } => if marker_id@.len() == 0 {
                Err(AgentError::missing_required_field_spec("stream_matcher.marker.marker_id"@))
            } else {
                Ok(())
            },
            StreamMatcher::HostMatcher { risk_policy_ref, .. } => if risk_policy_ref is None {
                Err(AgentError::contract_violation_spec("host stream matcher requires declared risk policy ref"@))
            } else {
                Ok(())
            },
        }
    }

    /// Checks the matcher: literal text present and window bounded; regex window, timeout
    /// (1 to 1000 ms) and pattern safe; marker id present; host matcher with a risk policy.
    pub fn validate(&self) -> (res: Result<(), AgentError>)
        ensures
            outcome_parts(res) == self.validation(),
    {
        match self {
            StreamMatcher::Literal { text, window_bytes, .. } => {
                if text.as_str().is_empty() {
                    return Err(AgentError::missing_required_field("stream_matcher.literal.text"));
                }
                validate_window(*window_bytes)
            },
            StreamMatcher::Regex { pattern, window_bytes, timeout_ms, .. } => {
                match validate_window(*window_bytes) {
                    Err(e) => {
                        return Err(e);
                    },
                    Ok(()) => {},
                }
                if *timeout_ms == 0 || *timeout_ms > 1000 {
                    return Err(AgentError::contract_violation("stream regex timeout must be between 1 and 1000ms"));
                }
                validate_safe_regex(pattern.as_str())
            },
            StreamMatcher::Marker { marker_id, .. } => {
                if marker_id.as_str().is_empty() {
                    return Err(AgentError::missing_required_field("stream_matcher.marker.marker_id"));
                }
                Ok(())
            },
            StreamMatcher::HostMatcher { risk_policy_ref, .. } => {
                if risk_policy_ref.is_none() {
                    return Err(AgentError::contract_violation("host stream matcher requires declared risk policy ref"));
                }
                Ok(())
            },
        }
    }
}

proof fn lemma_marker_version_valid()
    ensures
        identifier_check("marker.v1"@) is Ok,
{
    reveal_strlit("marker.v1");
    assert forall|k: int| 0 <= k < "marker.v1"@.len() implies is_plain_id_char(#[trigger] "marker.v1"@[k]) by {}
    lemma_plain_identifier("marker.v1"@);
}

impl StreamAction {
    /// Mask the match and continue.
    pub fn mask_and_continue(replacement: String) -> (res: Self)
        ensures
            res == (StreamAction::MaskAndContinue { replacement }),
    {
        StreamAction::MaskAndContinue { replacement }
    }

    /// Abort the attempt, discard partial output, and retry under a policy.
    pub fn abort_and_retry(injection_summary: String, retry_policy_ref: PolicyRef) -> (res: Self)
        ensures
            res == (StreamAction::AbortAndRetry {
                injection_summary,
                retry_policy_ref,
                partial_output: PartialOutputPolicy::Discard,
            }),
    {
        StreamAction::AbortAndRetry { injection_summary, retry_policy_ref, partial_output: PartialOutputPolicy::Discard }
    }

    /// Only emit a notice.
    pub fn emit_only(notice_kind: String) -> (res: Self)
        ensures
            res == (StreamAction::EmitOnly { notice_kind }),
    {
        StreamAction::EmitOnly { notice_kind }
    }

    /// The action's kind name.
    pub open spec fn action_kind_spec(&self) -> Seq<char> {
        match *self {
            StreamAction::StopRun { .. } => "stop_run"@,
            StreamAction::AbortAndRetry { .. } => "abort_and_retry"@,
            StreamAction::PauseForApproval { .. } => "pause_for_approval"@,
            StreamAction::MaskAndContinue { .. } => "mask_and_continue"@,
            StreamAction::EmitOnly { .. } => "emit_only"@,
        }
    }

    /// The action's kind name.
    pub fn action_kind(&self) -> (res: &'static str)
        ensures
            res@ == self.action_kind_spec(),
    {
        match self {
            StreamAction::StopRun { .. } => "stop_run",
            StreamAction::AbortAndRetry { .. } => "abort_and_retry",
            StreamAction::PauseForApproval { .. } => "pause_for_approval",
            StreamAction::MaskAndContinue { .. } => "mask_and_continue",
            StreamAction::EmitOnly { .. } => "emit_only",
        }
    }

    /// What happens to partial output: the action's own policy when it stops or retries,
    /// masking when it masks, keeping it otherwise.
    pub open spec fn partial_output_policy_spec(&self) -> PartialOutputPolicy {
        match *self {
            StreamAction::StopRun { partial_output, .. } => partial_output,
            StreamAction::AbortAndRetry { partial_output, .. } => partial_output,
            StreamAction::PauseForApproval { .. } => PartialOutputPolicy::Keep,
            StreamAction::EmitOnly { .. } => PartialOutputPolicy::Keep,
            StreamAction::MaskAndContinue { .. } => PartialOutputPolicy::Mask,
        }
    }

    /// What happens to partial output.
    pub fn partial_output_policy(&self) -> (res: PartialOutputPolicy)
        ensures
            res == self.partial_output_policy_spec(),
    {
        match self {
            StreamAction::StopRun { partial_output, .. } => *partial_output,
            StreamAction::AbortAndRetry { partial_output, .. } => *partial_output,
            StreamAction::PauseForApproval { .. } => PartialOutputPolicy::Keep,
            StreamAction::EmitOnly { .. } => PartialOutputPolicy::Keep,
            StreamAction::MaskAndContinue { .. } => PartialOutputPolicy::Mask,
        }
    }

    /// The side effect the action needs: a provider request to retry, an approval
    /// dispatch to pause; none otherwise.
    pub open spec fn effect_kind_hint_spec(&self) -> Option<EffectKind> {
        match *self {
            StreamAction::AbortAndRetry { .. } => Some(EffectKind::ProviderRequest),
            StreamAction::PauseForApproval { .. } => Some(EffectKind::ApprovalDispatch),
            _ => None,
        }
    }

    /// The side effect the action needs, if any.
    pub fn effect_kind_hint(&self) -> (res: Option<EffectKind>)
        ensures
            res == self.effect_kind_hint_spec(),
    {
        match self {
            StreamAction::AbortAndRetry { .. } => Some(EffectKind::ProviderRequest),
            StreamAction::PauseForApproval { .. } => Some(EffectKind::ApprovalDispatch),
            StreamAction::StopRun { .. } | StreamAction::MaskAndContinue { .. } | StreamAction::EmitOnly { .. } => None,
        }
    }
}

impl StreamRule {
    /// Outcome of validating the rule: a valid matcher, some channel, some policy ref.
    pub open spec fn validation(&self) -> Result<(), (AgentErrorKind, RetryClassification, Seq<char>)> {
        match self.matcher.validation() {
            Err(e) => Err(e),
            Ok(()) => if self.channels@.len() == 0 {
                Err(AgentError::missing_required_field_spec("stream_rule.channels"@))
            } else if self.policy_refs@.len() == 0 {
                Err(AgentError::missing_required_field_spec("stream_rule.policy_refs"@))
            } else {
                Ok(())
            },
        }
    }

    /// A builder of a rule with the given id.
    pub fn builder(id: StreamRuleId) -> (res: StreamRuleBuilder)
        ensures
            res.rule_spec().is_initial(id),
    {
        StreamRuleBuilder::new(id)
    }

    /// A builder of a rule that masks a regex with `[redacted]`, from the host source, with
    /// a 4096-byte window and a 25 ms timeout.
    pub fn mask_regex(id: String, pattern: String) -> (res: StreamRuleBuilder)
        requires
            identifier_check(id@) is Ok,
        ensures
            res.rule_spec().id@ == id@,
            res.rule_spec().version == RuleVersion(1),
            res.rule_spec().source.kind == SourceKind::Host,
            res.rule_spec().source.id@ == "source.host.stream_rules"@,
            res.rule_spec().matcher == (StreamMatcher::Regex {
                pattern,
                dialect: RegexDialect::SafeSubset,
                window_bytes: 4096,
                timeout_ms: 25,
            }),
            res.rule_spec().channels@.len() == 0,
            res.rule_spec().scope == StreamRuleScope::Run,
            res.rule_spec().action matches StreamAction::MaskAndContinue { replacement: r } && r@ == "[redacted]"@,
            res.rule_spec().repeat == RepeatPolicy::OncePerAttemptAndSpan,
            res.rule_spec().privacy == MatchPrivacyPolicy::HashLengthAndSummary,
            res.rule_spec().policy_refs@.len() == 0,
    {
        StreamRuleBuilder::new(StreamRuleId::new(id)).source(
            SourceRef::with_kind(SourceKind::Host, "source.host.stream_rules"),
        ).matcher(StreamMatcher::regex_with_limits(pattern, 4096, 25)).action(
            StreamAction::mask_and_continue("[redacted]".to_string()),
        )
    }

    /// Checks the matcher, then that the rule watches some channel and names some policy.
    pub fn validate(&self) -> (res: Result<(), AgentError>)
        ensures
            outcome_parts(res) == self.validation(),
    {
        match self.matcher.validate() {
            Err(e) => {
                return Err(e);
            },
            Ok(()) => {},
        }
        if self.channels.len() == 0 {
            return Err(AgentError::missing_required_field("stream_rule.channels"));
        }
        if self.policy_refs.len() == 0 {
            return Err(AgentError::missing_required_field("stream_rule.policy_refs"));
        }
        Ok(())
    }

    /// Whether this is the rule a new builder starts from.
    pub open spec fn is_initial(&self, id: StreamRuleId) -> bool {
        &&& self.id == id
        &&& self.version == RuleVersion(1)
        &&& self.source.kind == SourceKind::Host
        &&& self.source.id@ == "source.host.stream_rules"@
        &&& self.matcher matches StreamMatcher::Literal { text: t, case_sensitive: c, window_bytes: w } && t@ == "unset"@
            && c && w == 64
        &&& self.channels@.len() == 0
        &&& self.scope == StreamRuleScope::Run
        &&& self.action matches StreamAction::EmitOnly { notice_kind: n } && n@ == "notice"@
        &&& self.repeat == RepeatPolicy::OncePerAttemptAndSpan
        &&& self.privacy == MatchPrivacyPolicy::HashLengthAndSummary
        &&& self.policy_refs@.len() == 0
    }

    /// Whether the two rules agree on every field but the channels and policy refs.
    pub open spec fn same_settings(&self, other: StreamRule) -> bool {
        &&& self.id == other.id
        &&& self.version == other.version
        &&& self.source == other.source
        &&& self.matcher == other.matcher
        &&& self.scope == other.scope
        &&& self.action == other.action
        &&& self.repeat == other.repeat
        &&& self.privacy == other.privacy
    }
}

impl StreamRuleBuilder {
    /// The rule under construction.
    pub closed spec fn rule_spec(&self) -> StreamRule {
        self.rule
    }

    /// A builder of a literal placeholder rule, from the host source, emitting a notice.
    pub fn new(id: StreamRuleId) -> (res: Self)
        ensures
            res.rule_spec().is_initial(id),
    {
        StreamRuleBuilder {
            rule: StreamRule {
                id,
                version: RuleVersion::new(1),
                source: SourceRef::with_kind(SourceKind::Host, "source.host.stream_rules"),
                matcher: StreamMatcher::literal("unset".to_string(), true, 64),
                channels: Vec::new(),
                scope: StreamRuleScope::Run,
                action: StreamAction::emit_only("notice".to_string()),
                repeat: RepeatPolicy::OncePerAttemptAndSpan,
                privacy: MatchPrivacyPolicy::HashLengthAndSummary,
                policy_refs: Vec::new(),
            },
        }
    }

    /// Sets the source.
    pub fn source(self, source: SourceRef) -> (res: Self)
        ensures
            res.rule_spec() == (StreamRule { source, ..self.rule_spec() }),
    {
        let mut builder = self;
        builder.rule.source = source;
        builder
    }

    /// Sets the matcher.
    pub fn matcher(self, matcher: StreamMatcher) -> (res: Self)
        ensures
            res.rule_spec() == (StreamRule { matcher, ..self.rule_spec() }),
    {
        let mut builder = self;
        builder.rule.matcher = matcher;
        builder
    }

    /// Adds a watched channel, in either direction.
    pub fn on(self, channel: StreamChannel) -> (res: Self)
        ensures
            res.rule_spec().same_settings(self.rule_spec()),
            res.rule_spec().channels@ == self.rule_spec().channels@.push(
                StreamChannelSelector { channel, direction: None },
            ),
            res.rule_spec().policy_refs == self.rule_spec().policy_refs,
    {
        let mut builder = self;
        builder.rule.channels.push(StreamChannelSelector::channel(channel));
        builder
    }

    /// Sets the action.
    pub fn action(self, action: StreamAction) -> (res: Self)
        ensures
            res.rule_spec() == (StreamRule { action, ..self.rule_spec() }),
    {
        let mut builder = self;
        builder.rule.action = action;
        builder
    }

    /// Sets the repeat policy.
    pub fn repeat(self, repeat: RepeatPolicy) -> (res: Self)
        ensures
            res.rule_spec() == (StreamRule { repeat, ..self.rule_spec() }),
    {
        let mut builder = self;
        builder.rule.repeat = repeat;
        builder
    }

    /// Adds a policy ref.
    pub fn policy(self, policy_ref: PolicyRef) -> (res: Self)
        ensures
            res.rule_spec().same_settings(self.rule_spec()),
            res.rule_spec().channels == self.rule_spec().channels,
            res.rule_spec().policy_refs@ == self.rule_spec().policy_refs@.push(policy_ref),
    {
        let mut builder = self;
        builder.rule.policy_refs.push(policy_ref);
        builder
    }

    /// The rule, if it validates; the validation error otherwise.
    pub fn build(self) -> (res: Result<StreamRule, AgentError>)
        ensures
            res is Ok <==> self.rule_spec().validation() is Ok,
            res is Ok ==> res->Ok_0 == self.rule_spec(),
            res is Err ==> Err::<(), (AgentErrorKind, RetryClassification, Seq<char>)>(res->Err_0.parts())
                == self.rule_spec().validation(),
    {
        match self.rule.validate() {
            Err(e) => Err(e),
            Ok(()) => Ok(self.rule),
        }
    }
}

/// `value` with every character other than ASCII letters and digits, `.` and `_` replaced
/// by `.`.
pub open spec fn safe_id_fragment_spec(value: Seq<char>) -> Seq<char> {
    value.map_values(|c: char| if is_plain_id_char(c) { c } else { '.' })
}

/// Replaces every character other than ASCII letters and digits, `.` and `_` by `.`.
pub(crate) fn safe_id_fragment(value: &str) -> (res: String)
    ensures
        res@ == safe_id_fragment_spec(value@),
{
    let chars = crate::text::chars_of(value);
    let mut out: Vec<char> = Vec::new();
    let mut i: usize = 0;
    while i < chars.len()
        invariant
            chars@ == value@,
            0 <= i <= chars@.len(),
            out@ == safe_id_fragment_spec(value@.take(i as int)),
        decreases chars@.len() - i,
    {
        let c = chars[i];
        let keep = ('a' <= c && c <= 'z') || ('A' <= c && c <= 'Z') || ('0' <= c && c <= '9') || c == '.' || c == '_';
        if keep {
            out.push(c);
        } else {
            out.push('.');
        }
        proof {
            assert(safe_id_fragment_spec(value@.take(i + 1)) =~= safe_id_fragment_spec(value@.take(i as int)).push(
                if is_plain_id_char(c) { c } else { '.' },
            ));
        }
        i = i + 1;
    }
    proof {
        assert(value@.take(chars@.len() as int) =~= value@);
    }
    string_from_chars(&out)
}

proof fn lemma_safe_fragment_plain(value: Seq<char>)
    ensures
        safe_id_fragment_spec(value).len() == value.len(),
        forall|k: int| 0 <= k < value.len() ==> is_plain_id_char(#[trigger] safe_id_fragment_spec(value)[k]),
{
}

/// A policy ref of the runtime package.
pub fn stream_policy_ref(id: &str) -> (res: PolicyRef)
    ensures
        res.kind == PolicyKind::RuntimePackage,
        res.id@ == id@,
        res.version is None,
{
    PolicyRef::with_kind(PolicyKind::RuntimePackage, id)
}

/// The match id of a match of `rule_id` whose text hashes to `digest_hex`: the rule id made
/// safe, then the first 12 hex digits.
pub open spec fn match_id_spec(rule_id: Seq<char>, digest_hex: Seq<char>) -> Seq<char> {
    "stream.match."@ + safe_id_fragment_spec(rule_id) + "."@ + digest_hex.subrange(0, 12)
}

impl RedactedMatch {
    /// The redacted record of `matched_text`, matched by `rule` on `delta`: its sha256
    /// fingerprint, byte length and a summary; never the text.
    pub fn from_text(rule: &StreamRule, delta: &StreamDelta, matched_text: &str) -> (res: Self)
        requires
            rule.id@.len() <= 230,
            vstd::utf8::encode_utf8(matched_text@).len() <= usize::MAX,
        ensures
            res.match_id@ == match_id_spec(
                rule.id@,
                hex_lower(sha256_digest_spec(vstd::utf8::encode_utf8(matched_text@))),
            ),
            res.channel == delta.channel,
            res.direction == delta.direction,
            res.cursor == delta.cursor,
            res.byte_len == vstd::utf8::encode_utf8(matched_text@).len(),
            res.text_hash@ == sha256_fingerprint_spec(vstd::utf8::encode_utf8(matched_text@)),
            res.redacted_summary@ == "stream match redacted: "@ + decimal(vstd::utf8::encode_utf8(matched_text@).len())
                + " bytes on "@ + delta.channel.contract_name_spec(),
            res.privacy == PrivacyClass::ContentRefsOnly,
            res.retention == RetentionClass::RunScoped,
    {
        let hash = sha256_fingerprint_of_text(matched_text);
        let ghost digest = sha256_digest_spec(vstd::utf8::encode_utf8(matched_text@));
        proof {
            lemma_hex_lower_chars(digest);
            reveal_strlit("sha256:");
        }
        let short = hash.as_str().substring_char(7, 19);
        proof {
            assert(short@ =~= hex_lower(digest).subrange(0, 12));
        }
        let fragment = safe_id_fragment(rule.id.as_str());
        let id_text = concat4("stream.match.", fragment.as_str(), ".", short);
        proof {
            lemma_safe_fragment_plain(rule.id@);
            reveal_strlit("stream.match.");
            reveal_strlit(".");
            let p = "stream.match."@;
            let f = safe_id_fragment_spec(rule.id@);
            let h = hex_lower(digest).subrange(0, 12);
            assert forall|k: int| 0 <= k < id_text@.len() implies is_plain_id_char(#[trigger] id_text@[k]) by {
                if k < p.len() {
                } else if k < p.len() + f.len() {
                    assert(id_text@[k] == f[k - p.len()]);
                } else if k == p.len() + f.len() {
                } else {
                    assert(id_text@[k] == h[k - p.len() - f.len() - 1]);
                    assert(is_lower_hex_char(hex_lower(digest)[k - p.len() - f.len() - 1]));
                }
            }
            lemma_plain_identifier(id_text@);
        }
        let byte_len = matched_text.len();
        let count = u64_to_decimal(byte_len as u64);
        let redacted_summary = concat4("stream match redacted: ", count.as_str(), " bytes on ", delta.channel.as_contract_name());
        RedactedMatch {
            match_id: StreamMatchId::new(id_text),
            channel: delta.channel,
            direction: delta.direction,
            cursor: delta.cursor.clone(),
            byte_len,
            text_hash: hash,
            redacted_summary,
            privacy: PrivacyClass::ContentRefsOnly,
            retention: RetentionClass::RunScoped,
        }
    }
}

/// The name of an effect kind in the stream contract.
pub open spec fn effect_kind_name_spec(kind: EffectKind) -> Seq<char> {
    match kind {
            EffectKind::ProviderRequest => "provider_request"@,
            EffectKind::ToolExecution => "tool_execution"@,
            EffectKind::ApprovalDispatch => "approval_dispatch"@,
            EffectKind::MemoryWrite => "memory_write"@,
            EffectKind::ExtensionAction => "extension_action"@,
            EffectKind::OutputDelivery => "output_delivery"@,
            EffectKind::FileWrite => "file_write"@,
            EffectKind::ProcessStart => "process_start"@,
            EffectKind::ProcessSignal => "process_signal"@,
            EffectKind::IsolatedProcessStart => "isolated_process_start"@,
            EffectKind::ChildAgentStart => "child_agent_start"@,
            EffectKind::RunMessageDelivery => "run_message_delivery"@,
            EffectKind::ChildArtifactShutdown => "child_artifact_shutdown"@,
            EffectKind::DetachTransfer => "detach_transfer"@,
            EffectKind::HookMutation => "hook_mutation"@,
    }
}

fn effect_kind_name_of(kind: EffectKind) -> (res: &'static str)
    ensures
        res@ == effect_kind_name_spec(kind),
{
    match kind {
            EffectKind::ProviderRequest => "provider_request",
            EffectKind::ToolExecution => "tool_execution",
            EffectKind::ApprovalDispatch => "approval_dispatch",
            EffectKind::MemoryWrite => "memory_write",
            EffectKind::ExtensionAction => "extension_action",
            EffectKind::OutputDelivery => "output_delivery",
            EffectKind::FileWrite => "file_write",
            EffectKind::ProcessStart => "process_start",
            EffectKind::ProcessSignal => "process_signal",
            EffectKind::IsolatedProcessStart => "isolated_process_start",
            EffectKind::ChildAgentStart => "child_agent_start",
            EffectKind::RunMessageDelivery => "run_message_delivery",
            EffectKind::ChildArtifactShutdown => "child_artifact_shutdown",
            EffectKind::DetachTransfer => "detach_transfer",
            EffectKind::HookMutation => "hook_mutation",
    }
}

impl StreamIntervention {
    /// The intervention `rule` requests for `redacted_match`, not yet applied and with no
    /// effect; its id joins the safe forms of the rule id and match id.
    pub fn proposed(rule: &StreamRule, redacted_match: RedactedMatch) -> (res: Self)
        requires
            rule.id@.len() + redacted_match.match_id@.len() + 21 <= MAX_ID_LEN,
        ensures
            res.intervention_id@ == "stream.intervention."@ + safe_id_fragment_spec(rule.id@) + "."@
                + safe_id_fragment_spec(redacted_match.match_id@),
            entity_is(res.rule_ref, EntityKind::StreamRule, rule.id@),
            res.requested_action == rule.action,
            res.applied_action is None,
            res.match_ref == (StreamMatchRef {
                match_id: redacted_match.match_id,
                rule_id: rule.id,
                rule_version: rule.version,
            }),
            res.redacted_match == redacted_match,
            res.partial_output_policy == rule.action.partial_output_policy_spec(),
            res.policy_refs@ == rule.policy_refs@,
            res.effect_intent_ref is None,
            res.effect_result_ref is None,
            res.effect_intent is None,
            res.effect_result is None,
    {
        let match_ref = StreamMatchRef {
            match_id: redacted_match.match_id.clone(),
            rule_id: rule.id.clone(),
            rule_version: rule.version,
        };
        let rule_fragment = safe_id_fragment(rule.id.as_str());
        let match_fragment = safe_id_fragment(redacted_match.match_id.as_str());
        let mut id_text = concat3("stream.intervention.", rule_fragment.as_str(), ".");
        id_text.append(match_fragment.as_str());
        proof {
            lemma_safe_fragment_plain(rule.id@);
            lemma_safe_fragment_plain(redacted_match.match_id@);
            reveal_strlit("stream.intervention.");
            reveal_strlit(".");
            let p = "stream.intervention."@;
            let f = safe_id_fragment_spec(rule.id@);
            let g = safe_id_fragment_spec(redacted_match.match_id@);
            assert(id_text@ == p + f + "."@ + g);
            assert forall|k: int| 0 <= k < id_text@.len() implies is_plain_id_char(#[trigger] id_text@[k]) by {
                if k < p.len() {
                } else if k < p.len() + f.len() {
                    assert(id_text@[k] == f[k - p.len()]);
                } else if k == p.len() + f.len() {
                } else {
                    assert(id_text@[k] == g[k - p.len() - f.len() - 1]);
                }
            }
            lemma_plain_identifier(id_text@);
        }
        let policy_refs = rule.policy_refs.clone();
        proof {
            assert(policy_refs@ =~= rule.policy_refs@);
        }
        StreamIntervention {
            intervention_id: StreamInterventionId::new(id_text),
            rule_ref: EntityRef::new(EntityKind::StreamRule, rule.id.as_str()),
            requested_action: rule.action.clone(),
            applied_action: None,
            match_ref,
            redacted_match,
            partial_output_policy: rule.action.partial_output_policy(),
            policy_refs,
            effect_intent_ref: None,
            effect_result_ref: None,
            effect_intent: None,
            effect_result: None,
        }
    }

    /// The intervention with the intent of the effect its action needs, if any, under
    /// `effect_id`, sourced from the SDK's stream rule source and carrying its policy refs.
    pub fn with_effect_intent(self, effect_id: EffectId) -> (res: Self)
        ensures
            self.requested_action.effect_kind_hint_spec() is None ==> res == self,
            self.requested_action.effect_kind_hint_spec() is Some ==> {
                let intent = res.effect_intent.unwrap();
                &&& res.intervention_id == self.intervention_id
                &&& res.rule_ref == self.rule_ref
                &&& res.requested_action == self.requested_action
                &&& res.applied_action == self.applied_action
                &&& res.match_ref == self.match_ref
                &&& res.redacted_match == self.redacted_match
                &&& res.partial_output_policy == self.partial_output_policy
                &&& res.policy_refs == self.policy_refs
                &&& res.effect_result_ref == self.effect_result_ref
                &&& res.effect_result == self.effect_result
                &&& res.effect_intent_ref == Some(effect_id)
                &&& res.effect_intent is Some
                &&& intent.effect_id == effect_id
                &&& intent.kind == self.requested_action.effect_kind_hint_spec().unwrap()
                &&& intent.subject_ref == self.rule_ref
                &&& intent.source.kind == SourceKind::Sdk
                &&& intent.source.id@ == "source.sdk.stream_rule"@
                &&& intent.destination is None
                &&& intent.policy_refs@ == self.policy_refs@
                &&& intent.idempotency_key is None
                &&& intent.dedupe_key is None
                &&& intent.content_refs@.len() == 0
                &&& intent.redacted_summary@ == "stream intervention "@ + self.requested_action.action_kind_spec()
                    + " requested for redacted match"@
            },
    {
        let mut intervention = self;
        match intervention.requested_action.effect_kind_hint() {
            Some(kind) => {
                let summary = concat3(
                    "stream intervention ",
                    intervention.requested_action.action_kind(),
                    " requested for redacted match",
                );
                let mut intent = EffectIntent::new(
                    effect_id.clone(),
                    kind,
                    intervention.rule_ref.clone(),
                    SourceRef::with_kind(SourceKind::Sdk, "source.sdk.stream_rule"),
                    summary,
                );
                let policy_refs = intervention.policy_refs.clone();
                proof {
                    assert(policy_refs@ =~= intervention.policy_refs@);
                }
                intent.policy_refs = policy_refs;
                intervention.effect_intent_ref = Some(effect_id);
                intervention.effect_intent = Some(intent);
            },
            None => {},
        }
        intervention
    }

    /// The intervention with the result of its effect.
    pub fn with_effect_result(self, result: EffectResult) -> (res: Self)
        ensures
            res == (StreamIntervention {
                effect_result_ref: Some(result.effect_id),
                effect_result: Some(result),
                ..self
            }),
    {
        let mut intervention = self;
        intervention.effect_result_ref = Some(result.effect_id.clone());
        intervention.effect_result = Some(result);
        intervention
    }

    /// The contract name of the intended effect's kind, if there is an intent.
    pub fn effect_kind_name(&self) -> (res: Option<&'static str>)
        ensures
            res is Some <==> self.effect_intent is Some,
            res is Some ==> res.unwrap()@ == effect_kind_name_spec(self.effect_intent.unwrap().kind),
    {
        match &self.effect_intent {
            Some(intent) => Some(effect_kind_name_of(intent.kind)),
            None => None,
        }
    }
}

impl StreamRuleRecord {
    /// A match of `rule`, with the intervention it requests.
    pub fn matched(rule: &StreamRule, intervention: &StreamIntervention) -> (res: Self)
        ensures
            res.record_kind == StreamRuleRecordKind::Matched,
            res.rule_id == rule.id,
            res.rule_version == rule.version,
            res.channel == Some(intervention.redacted_match.channel),
            res.direction == intervention.redacted_match.direction,
            res.cursor == Some(intervention.redacted_match.cursor),
            res.redacted_match == Some(intervention.redacted_match),
            res.intervention is Some && res.intervention.unwrap().same_as(intervention),
            res.repeat_state is None,
            res.policy_refs@ == rule.policy_refs@,
            res.redacted_summary@ == "stream rule matched redacted content"@,
    {
        let policy_refs = rule.policy_refs.clone();
        proof {
            assert(policy_refs@ =~= rule.policy_refs@);
        }
        StreamRuleRecord {
            record_kind: StreamRuleRecordKind::Matched,
            rule_id: rule.id.clone(),
            rule_version: rule.version,
            channel: Some(intervention.redacted_match.channel),
            direction: intervention.redacted_match.direction,
            cursor: Some(intervention.redacted_match.cursor.clone()),
            redacted_match: Some(intervention.redacted_match.clone()),
            intervention: Some(intervention.clone()),
            repeat_state: None,
            policy_refs,
            redacted_summary: "stream rule matched redacted content".to_string(),
        }
    }

    /// A snapshot of `rule`'s repeat state.
    pub fn repeat_state(rule: &StreamRule, repeat_state: StreamRuleRepeatStateSnapshot) -> (res: Self)
        ensures
            res.record_kind == StreamRuleRecordKind::RepeatState,
            res.rule_id == rule.id,
            res.rule_version == rule.version,
            res.channel is None,
            res.direction is None,
            res.cursor is None,
            res.redacted_match is None,
            res.intervention is None,
            res.repeat_state == Some(repeat_state),
            res.policy_refs@ == rule.policy_refs@,
            res.redacted_summary@ == "stream rule repeat state snapshot"@,
    {
        let policy_refs = rule.policy_refs.clone();
        proof {
            assert(policy_refs@ =~= rule.policy_refs@);
        }
        StreamRuleRecord {
            record_kind: StreamRuleRecordKind::RepeatState,
            rule_id: rule.id.clone(),
            rule_version: rule.version,
            channel: None,
            direction: None,
            cursor: None,
            redacted_match: None,
            intervention: None,
            repeat_state: Some(repeat_state),
            policy_refs,
            redacted_summary: "stream rule repeat state snapshot".to_string(),
        }
    }

    /// The event kind of the record.
    pub open spec fn event_kind_name_spec(&self) -> Seq<char> {
        match self.record_kind {
            StreamRuleRecordKind::Registered => "stream_rule_registered"@,
            StreamRuleRecordKind::CompileFailed => "stream_rule_compile_failed"@,
            StreamRuleRecordKind::Matched => "stream_rule_matched"@,
            StreamRuleRecordKind::InterventionIntent => "stream_intervention_requested"@,
            StreamRuleRecordKind::InterventionResult => "stream_intervention_applied"@,
            StreamRuleRecordKind::RepeatState => "stream_rule_repeat_state_recorded"@,
        }
    }

    /// The event kind of the record.
    pub fn event_kind_name(&self) -> (res: &'static str)
        ensures
            res@ == self.event_kind_name_spec(),
    {
        match self.record_kind {
            StreamRuleRecordKind::Registered => "stream_rule_registered",
            StreamRuleRecordKind::CompileFailed => "stream_rule_compile_failed",
            StreamRuleRecordKind::Matched => "stream_rule_matched",
            StreamRuleRecordKind::InterventionIntent => "stream_intervention_requested",
            StreamRuleRecordKind::InterventionResult => "stream_intervention_applied",
            StreamRuleRecordKind::RepeatState => "stream_rule_repeat_state_recorded",
        }
    }

    /// The journal record of this record on `base`: the rule is subject, under the
    /// `stream_rule` family and the record's event kind.
    pub fn to_journal_record(&self, base: JournalRecordBase) -> (res: JournalRecord)
        ensures
            res.on_base(base),
            res.record_kind == JournalRecordKind::StreamRule,
            entity_is(res.subject_ref, EntityKind::StreamRule, self.rule_id@),
            res.related_refs@.len() == 0,
            res.source == base.source,
            res.destination == base.destination,
            res.tags == base.tags,
            res.content_refs@.len() == 0,
            res.idempotency_key is None,
            res.dedupe_key is None,
            res.checkpoint_ref == base.checkpoint_ref,
            res.event_index.indexes(base, "stream_rule"@, self.event_kind_name_spec()),
            res.event_index.subject_ref == res.subject_ref,
            res.event_index.related_refs@.len() == 0,
            res.payload matches JournalRecordPayload::StreamRule(r) && r.same_as(self),
    {
        JournalRecord::feature_record(
            base,
            JournalRecordKind::StreamRule,
            "stream_rule",
            self.event_kind_name(),
            EntityRef::new(EntityKind::StreamRule, self.rule_id.as_str()),
            Vec::new(),
            Vec::new(),
            JournalRecordPayload::StreamRule(self.clone()),
        )
    }
}

/// A rule that a builder returns from `build` passes its own validation.
pub proof fn lemma_built_rule_validates(builder: StreamRuleBuilder, rule: StreamRule)
    requires
        rule == builder.rule_spec(),
        builder.rule_spec().validation() is Ok,
    ensures
        rule.validation() is Ok,
{
}

/// The fingerprint of a stream rule, given the rule's serialized encoding: `sha256:` and
/// the hex digest of those bytes.
pub fn hash_rule_fingerprint(encoded_rule: &[u8]) -> (res: String)
    ensures
        res@ == sha256_fingerprint_spec(encoded_rule@),
{
    sha256_fingerprint(encoded_rule)
}

/// Fragments a safe regex may not contain: inline groups and lookaround `(?`,
/// backreferences `\1` and `\2`, nested quantifiers `+)+` and `*)+`, stacked quantifiers
/// `++` and `**`, and open-ended counted repetition `{0,`.
pub open spec fn is_backtracking_fragment(n: Seq<char>) -> bool {
    ||| n == "(?"@
    ||| n == "\\1"@
    ||| n == "\\2"@
    ||| n == "+)+"@
    ||| n == "*)+"@
    ||| n == "++"@
    ||| n == "**"@
    ||| n == "{0,"@
}

/// A regex matcher whose window and timeout are in bounds and whose pattern is nonempty
/// and at most 512 UTF-8 bytes is refused exactly when one of the backtracking fragments
/// occurs somewhere in the pattern, with the unsupported-syntax contract violation.
pub proof fn lemma_regex_fragments_decide(m: StreamMatcher)
    requires
        m is Regex,
        1 <= m->Regex_window_bytes <= 64 * 1024,
        1 <= m->Regex_timeout_ms <= 1000,
        m->Regex_pattern@.len() > 0,
        vstd::utf8::encode_utf8(m->Regex_pattern@).len() <= 512,
    ensures
        (exists|n: Seq<char>, k: int|
            is_backtracking_fragment(n) && 0 <= k && k + n.len() <= m->Regex_pattern@.len()
                && #[trigger] m->Regex_pattern@.subrange(k, k + n.len()) == n) ==> m.validation() == Err::<
            (),
            (AgentErrorKind, RetryClassification, Seq<char>),
        >(AgentError::contract_violation_spec("stream regex pattern uses unsupported or backtracking-prone syntax"@)),
        (forall|n: Seq<char>, k: int|
            is_backtracking_fragment(n) && 0 <= k && k + n.len() <= m->Regex_pattern@.len() ==> #[trigger] m->Regex_pattern@.subrange(
                k,
                k + n.len(),
            ) != n) ==> m.validation() is Ok,
{
    let p = m->Regex_pattern@;
    if exists|n: Seq<char>, k: int|
        is_backtracking_fragment(n) && 0 <= k && k + n.len() <= p.len() && #[trigger] p.subrange(k, k + n.len()) == n {
        let (n, k) = choose|n: Seq<char>, k: int|
            is_backtracking_fragment(n) && 0 <= k && k + n.len() <= p.len() && #[trigger] p.subrange(k, k + n.len()) == n;
        assert(occurs_at(p, n, k));
        assert(contains_seq(p, n));
    }
    if forall|n: Seq<char>, k: int|
        is_backtracking_fragment(n) && 0 <= k && k + n.len() <= p.len() ==> #[trigger] p.subrange(k, k + n.len()) != n {
        let needles = seq!["(?"@, "\\1"@, "\\2"@, "+)+"@, "*)+"@, "++"@, "**"@, "{0,"@];
        assert forall|i: int| 0 <= i < needles.len() implies !contains_seq(p, #[trigger] needles[i]) by {
            assert(is_backtracking_fragment(needles[i]));
            if contains_seq(p, needles[i]) {
                let k = choose|k: int| occurs_at(p, needles[i], k);
                assert(p.subrange(k, k + needles[i].len()) == needles[i]);
            }
        }
        assert(!contains_seq(p, needles[0]));
        assert(!contains_seq(p, needles[1]));
        assert(!contains_seq(p, needles[2]));
        assert(!contains_seq(p, needles[3]));
        assert(!contains_seq(p, needles[4]));
        assert(!contains_seq(p, needles[5]));
        assert(!contains_seq(p, needles[6]));
        assert(!contains_seq(p, needles[7]));
    }
}

} // verus!
