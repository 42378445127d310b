use vstd::prelude::*;
use crate::domain::{AgentId, ContentRefId, EffectId, PolicyRef, PrivacyClass, RetentionClass, RunId, identifier_check};
use crate::effect::{EffectIntent, EffectResult};
use crate::stream::{StreamChannel, StreamCursor, StreamCursorPrecision, StreamDirection};
use crate::text::{concat2};

verus! {

/// Identifier of a realtime session.
#[derive(Debug)]
pub struct RealtimeSessionId(String);

impl View for RealtimeSessionId {
    type V = Seq<char>;

    closed spec fn view(&self) -> Seq<char> {
        self.0@
    }
}

impl Clone for RealtimeSessionId {
    fn clone(&self) -> (res: Self)
        ensures
            res == *self,
    {
        RealtimeSessionId(self.0.clone())
    }
}

impl crate::domain::ValueEq for RealtimeSessionId {
    open spec fn value_eq(&self, other: &Self) -> bool {
        self@ == other@
    }

    fn equals(&self, other: &Self) -> (r: bool) {
        let r = self.0 == other.0;
        proof {
            assert(self@ == self.0@ && other@ == other.0@);
            assert(r == (self@ == other@));
            assert(r == self.value_eq(other));
        }
        r
    }
}

impl RealtimeSessionId {
    /// Builds the identifier from a value that passes `validate_identifier`.
    pub fn new(value: String) -> (res: Self)
        requires
            crate::domain::identifier_check(value@) is Ok,
        ensures
            res@ == value@,
    {
        RealtimeSessionId(value)
    }

    /// Validates the value and builds the identifier, or returns the validation error.
    pub fn try_new(value: String) -> (res: Result<Self, crate::domain::IdValidationError>)
        ensures
            match res {
                Ok(id) => crate::domain::identifier_check(value@) is Ok && id@ == value@,
                Err(e) => crate::domain::identifier_check(value@) == Err::<(), crate::domain::IdValidationError>(e),
            },
    {
        match crate::domain::validate_identifier(value.as_str()) {
            Ok(()) => Ok(RealtimeSessionId(value)),
            Err(e) => Err(e),
        }
    }

    /// Returns the identifier text.
    pub fn as_str(&self) -> (res: &str)
        ensures
            res@ == self@,
    {
        self.0.as_str()
    }
}

/// Identifier of a realtime connection.
#[derive(Debug)]
pub struct RealtimeConnectionId(String);

impl View for RealtimeConnectionId {
    type V = Seq<char>;

    closed spec fn view(&self) -> Seq<char> {
        self.0@
    }
}

impl Clone for RealtimeConnectionId {
    fn clone(&self) -> (res: Self)
        ensures
            res == *self,
    {
        RealtimeConnectionId(self.0.clone())
    }
}

impl crate::domain::ValueEq for RealtimeConnectionId {
    open spec fn value_eq(&self, other: &Self) -> bool {
        self@ == other@
    }

    fn equals(&self, other: &Self) -> (r: bool) {
        let r = self.0 == other.0;
        proof {
            assert(self@ == self.0@ && other@ == other.0@);
            assert(r == (self@ == other@));
            assert(r == self.value_eq(other));
        }
        r
    }
}

impl RealtimeConnectionId {
    /// Builds the identifier from a value that passes `validate_identifier`.
    pub fn new(value: String) -> (res: Self)
        requires
            crate::domain::identifier_check(value@) is Ok,
        ensures
            res@ == value@,
    {
        RealtimeConnectionId(value)
    }

    /// Validates the value and builds the identifier, or returns the validation error.
    pub fn try_new(value: String) -> (res: Result<Self, crate::domain::IdValidationError>)
        ensures
            match res {
                Ok(id) => crate::domain::identifier_check(value@) is Ok && id@ == value@,
                Err(e) => crate::domain::identifier_check(value@) == Err::<(), crate::domain::IdValidationError>(e),
            },
    {
        match crate::domain::validate_identifier(value.as_str()) {
            Ok(()) => Ok(RealtimeConnectionId(value)),
            Err(e) => Err(e),
        }
    }

    /// Returns the identifier text.
    pub fn as_str(&self) -> (res: &str)
        ensures
            res@ == self@,
    {
        self.0.as_str()
    }
}

/// Identifier of a realtime response.
#[derive(Debug)]
pub struct RealtimeResponseId(String);

impl View for RealtimeResponseId {
    type V = Seq<char>;

    closed spec fn view(&self) -> Seq<char> {
        self.0@
    }
}

impl Clone for RealtimeResponseId {
    fn clone(&self) -> (res: Self)
        ensures
            res == *self,
    {
        RealtimeResponseId(self.0.clone())
    }
}

impl crate::domain::ValueEq for RealtimeResponseId {
    open spec fn value_eq(&self, other: &Self) -> bool {
        self@ == other@
    }

    fn equals(&self, other: &Self) -> (r: bool) {
        let r = self.0 == other.0;
        proof {
            assert(self@ == self.0@ && other@ == other.0@);
            assert(r == (self@ == other@));
            assert(r == self.value_eq(other));
        }
        r
    }
}

impl RealtimeResponseId {
    /// Builds the identifier from a value that passes `validate_identifier`.
    pub fn new(value: String) -> (res: Self)
        requires
            crate::domain::identifier_check(value@) is Ok,
        ensures
            res@ == value@,
    {
        RealtimeResponseId(value)
    }

    /// Validates the value and builds the identifier, or returns the validation error.
    pub fn try_new(value: String) -> (res: Result<Self, crate::domain::IdValidationError>)
        ensures
            match res {
                Ok(id) => crate::domain::identifier_check(value@) is Ok && id@ == value@,
                Err(e) => crate::domain::identifier_check(value@) == Err::<(), crate::domain::IdValidationError>(e),
            },
    {
        match crate::domain::validate_identifier(value.as_str()) {
            Ok(()) => Ok(RealtimeResponseId(value)),
            Err(e) => Err(e),
        }
    }

    /// Returns the identifier text.
    pub fn as_str(&self) -> (res: &str)
        ensures
            res@ == self@,
    {
        self.0.as_str()
    }
}

/// Identifier of a realtime frame.
#[derive(Debug)]
pub struct RealtimeFrameId(String);

impl View for RealtimeFrameId {
    type V = Seq<char>;

    closed spec fn view(&self) -> Seq<char> {
        self.0@
    }
}

impl Clone for RealtimeFrameId {
    fn clone(&self) -> (res: Self)
        ensures
            res == *self,
    {
        RealtimeFrameId(self.0.clone())
    }
}

impl crate::domain::ValueEq for RealtimeFrameId {
    open spec fn value_eq(&self, other: &Self) -> bool {
        self@ == other@
    }

    fn equals(&self, other: &Self) -> (r: bool) {
        let r = self.0 == other.0;
        proof {
            assert(self@ == self.0@ && other@ == other.0@);
            assert(r == (self@ == other@));
            assert(r == self.value_eq(other));
        }
        r
    }
}

impl RealtimeFrameId {
    /// Builds the identifier from a value that passes `validate_identifier`.
    pub fn new(value: String) -> (res: Self)
        requires
            crate::domain::identifier_check(value@) is Ok,
        ensures
            res@ == value@,
    {
        RealtimeFrameId(value)
    }

    /// Validates the value and builds the identifier, or returns the validation error.
    pub fn try_new(value: String) -> (res: Result<Self, crate::domain::IdValidationError>)
        ensures
            match res {
                Ok(id) => crate::domain::identifier_check(value@) is Ok && id@ == value@,
                Err(e) => crate::domain::identifier_check(value@) == Err::<(), crate::domain::IdValidationError>(e),
            },
    {
        match crate::domain::validate_identifier(value.as_str()) {
            Ok(()) => Ok(RealtimeFrameId(value)),
            Err(e) => Err(e),
        }
    }

    /// Returns the identifier text.
    pub fn as_str(&self) -> (res: &str)
        ensures
            res@ == self@,
    {
        self.0.as_str()
    }
}

/// Media kind of a realtime frame.
#[derive(Clone, Copy, Debug, PartialEq, Eq, Structural)]
pub enum RealtimeMediaKind {
    Audio,
    Text,
    Image,
    Video,
    Transcript,
}

impl crate::domain::ValueEq for RealtimeMediaKind {
    open spec fn value_eq(&self, other: &Self) -> bool {
        *self == *other
    }

    fn equals(&self, other: &Self) -> (r: bool) {
        *self == *other
    }
}

/// Status of a realtime session.
#[derive(Clone, Copy, Debug, PartialEq, Eq, Structural)]
pub enum RealtimeSessionStatus {
    Connecting,
    Connected,
    InputSent,
    OutputReceived,
    Interrupted,
    RestartRequested,
    RestartStarted,
    RestartCompleted,
    RestartFailed,
    Closed,
    Failed,
    Detached,
    BackpressureApplied,
}

impl crate::domain::ValueEq for RealtimeSessionStatus {
    open spec fn value_eq(&self, other: &Self) -> bool {
        *self == *other
    }

    fn equals(&self, other: &Self) -> (r: bool) {
        *self == *other
    }
}

/// Why a realtime session closed.
#[derive(Clone, Copy, Debug, PartialEq, Eq, Structural)]
pub enum RealtimeCloseReason {
    Normal,
    Cancel,
    ProviderFailure,
    PolicyDenial,
    HostOwnedDetach,
}

impl crate::domain::ValueEq for RealtimeCloseReason {
    open spec fn value_eq(&self, other: &Self) -> bool {
        *self == *other
    }

    fn equals(&self, other: &Self) -> (r: bool) {
        *self == *other
    }
}

/// Action taken under backpressure.
#[derive(Clone, Copy, Debug, PartialEq, Eq, Structural)]
pub enum RealtimeBackpressureAction {
    Block,
    Gate,
    DropNoncritical,
    Summarize,
    FailSend,
}

impl crate::domain::ValueEq for RealtimeBackpressureAction {
    open spec fn value_eq(&self, other: &Self) -> bool {
        *self == *other
    }

    fn equals(&self, other: &Self) -> (r: bool) {
        *self == *other
    }
}

/// Backpressure counters of a realtime session.
#[derive(Debug)]
pub struct RealtimeBackpressureState {
    pub capacity: usize,
    pub queued_frames: usize,
    pub dropped_frames: usize,
    pub gated_frames: usize,
    pub last_action: Option<RealtimeBackpressureAction>,
    pub policy_ref: PolicyRef,
}

impl Clone for RealtimeBackpressureState {
    fn clone(&self) -> (res: Self)
        ensures
            res == *self,
    {
        RealtimeBackpressureState {
            capacity: self.capacity,
            queued_frames: self.queued_frames,
            dropped_frames: self.dropped_frames,
            gated_frames: self.gated_frames,
            last_action: self.last_action.clone(),
            policy_ref: self.policy_ref.clone(),
        }
    }
}

/// A realtime input frame, by content reference.
#[derive(Debug)]
pub struct RealtimeInputFrame {
    pub frame_id: RealtimeFrameId,
    pub media_kind: RealtimeMediaKind,
    pub content_refs: Vec<ContentRefId>,
    pub redacted_summary: String,
    pub cursor: StreamCursor,
    pub privacy: PrivacyClass,
    pub retention: RetentionClass,
}

impl RealtimeInputFrame {
    /// Field-wise equality, with vectors compared by their contents.
    pub open spec fn same_as(&self, other: &Self) -> bool {
        &&& self.frame_id == other.frame_id
        &&& self.media_kind == other.media_kind
        &&& self.content_refs@ == other.content_refs@
        &&& self.redacted_summary == other.redacted_summary
        &&& self.cursor == other.cursor
        &&& self.privacy == other.privacy
        &&& self.retention == other.retention
    }
}

impl Clone for RealtimeInputFrame {
    fn clone(&self) -> (res: Self)
        ensures
            res.same_as(self),
    {
        let content_refs_copy = self.content_refs.clone();
        proof { assert(content_refs_copy@ =~= self.content_refs@); }
        RealtimeInputFrame {
            frame_id: self.frame_id.clone(),
            media_kind: self.media_kind,
            content_refs: content_refs_copy,
            redacted_summary: self.redacted_summary.clone(),
            cursor: self.cursor.clone(),
            privacy: self.privacy,
            retention: self.retention,
        }
    }
}

/// A realtime output frame, by content reference.
#[derive(Debug)]
pub struct RealtimeOutputFrame {
    pub frame_id: RealtimeFrameId,
    pub response_id: RealtimeResponseId,
    pub media_kind: RealtimeMediaKind,
    pub content_refs: Vec<ContentRefId>,
    pub redacted_summary: String,
    pub cursor: StreamCursor,
    pub privacy: PrivacyClass,
    pub retention: RetentionClass,
}

impl RealtimeOutputFrame {
    /// Field-wise equality, with vectors compared by their contents.
    pub open spec fn same_as(&self, other: &Self) -> bool {
        &&& self.frame_id == other.frame_id
        &&& self.response_id == other.response_id
        &&& self.media_kind == other.media_kind
        &&& self.content_refs@ == other.content_refs@
        &&& self.redacted_summary == other.redacted_summary
        &&& self.cursor == other.cursor
        &&& self.privacy == other.privacy
        &&& self.retention == other.retention
    }
}

impl Clone for RealtimeOutputFrame {
    fn clone(&self) -> (res: Self)
        ensures
            res.same_as(self),
    {
        let content_refs_copy = self.content_refs.clone();
        proof { assert(content_refs_copy@ =~= self.content_refs@); }
        RealtimeOutputFrame {
            frame_id: self.frame_id.clone(),
            response_id: self.response_id.clone(),
            media_kind: self.media_kind,
            content_refs: content_refs_copy,
            redacted_summary: self.redacted_summary.clone(),
            cursor: self.cursor.clone(),
            privacy: self.privacy,
            retention: self.retention,
        }
    }
}

/// State of a realtime session.
#[derive(Debug)]
pub struct RealtimeSessionState {
    pub session_id: RealtimeSessionId,
    pub connection_id: RealtimeConnectionId,
    pub provider_route_ref: String,
    pub send_cursor: StreamCursor,
    pub receive_cursor: StreamCursor,
    pub restart_count: u32,
    pub backpressure_state: RealtimeBackpressureState,
    pub lifecycle_status: RealtimeSessionStatus,
    pub policy_refs: Vec<PolicyRef>,
}

impl RealtimeSessionState {
    /// Field-wise equality, with vectors compared by their contents.
    pub open spec fn same_as(&self, other: &Self) -> bool {
        &&& self.session_id == other.session_id
        &&& self.connection_id == other.connection_id
        &&& self.provider_route_ref == other.provider_route_ref
        &&& self.send_cursor == other.send_cursor
        &&& self.receive_cursor == other.receive_cursor
        &&& self.restart_count == other.restart_count
        &&& self.backpressure_state == other.backpressure_state
        &&& self.lifecycle_status == other.lifecycle_status
        &&& self.policy_refs@ == other.policy_refs@
    }
}

impl Clone for RealtimeSessionState {
    fn clone(&self) -> (res: Self)
        ensures
            res.same_as(self),
    {
        let policy_refs_copy = self.policy_refs.clone();
        proof { assert(policy_refs_copy@ =~= self.policy_refs@); }
        RealtimeSessionState {
            session_id: self.session_id.clone(),
            connection_id: self.connection_id.clone(),
            provider_route_ref: self.provider_route_ref.clone(),
            send_cursor: self.send_cursor.clone(),
            receive_cursor: self.receive_cursor.clone(),
            restart_count: self.restart_count,
            backpressure_state: self.backpressure_state.clone(),
            lifecycle_status: self.lifecycle_status,
            policy_refs: policy_refs_copy,
        }
    }
}

/// Kind of realtime session record.
#[derive(Clone, Copy, Debug, PartialEq, Eq, Structural)]
pub enum RealtimeSessionRecordKind {
    ConnectRequested,
    Connected,
    InputSendRequested,
    InputSent,
    OutputReceiveRequested,
    OutputReceived,
    InterruptRequested,
    Interrupted,
    RestartRequested,
    RestartStarted,
    RestartCompleted,
    RestartFailed,
    CloseRequested,
    Closed,
    BackpressureApplied,
}

impl crate::domain::ValueEq for RealtimeSessionRecordKind {
    open spec fn value_eq(&self, other: &Self) -> bool {
        *self == *other
    }

    fn equals(&self, other: &Self) -> (r: bool) {
        *self == *other
    }
}

/// Journal payload of the realtime session feature.
#[derive(Debug)]
pub struct RealtimeSessionRecord {
    pub kind: RealtimeSessionRecordKind,
    pub session_id: RealtimeSessionId,
    pub connection_id: Option<RealtimeConnectionId>,
    pub response_id: Option<RealtimeResponseId>,
    pub run_id: RunId,
    pub agent_id: AgentId,
    pub provider_route_ref: String,
    pub send_cursor: StreamCursor,
    pub receive_cursor: StreamCursor,
    pub restart_count: u32,
    pub backpressure_state: RealtimeBackpressureState,
    pub status: RealtimeSessionStatus,
    pub close_reason: Option<RealtimeCloseReason>,
    pub channel: StreamChannel,
    pub direction: Option<StreamDirection>,
    pub media_kind: RealtimeMediaKind,
    pub content_refs: Vec<ContentRefId>,
    pub policy_refs: Vec<PolicyRef>,
    pub privacy: PrivacyClass,
    pub retention: RetentionClass,
    pub redacted_summary: String,
    pub effect_intent_ref: Option<EffectId>,
    pub effect_result_ref: Option<EffectId>,
    pub effect_intent: Option<EffectIntent>,
    pub effect_result: Option<EffectResult>,
}

impl RealtimeSessionRecord {
    /// Field-wise equality, with vectors compared by their contents.
    pub open spec fn same_as(&self, other: &Self) -> bool {
        &&& self.kind == other.kind
        &&& self.session_id == other.session_id
        &&& self.connection_id == other.connection_id
        &&& self.response_id == other.response_id
        &&& self.run_id == other.run_id
        &&& self.agent_id == other.agent_id
        &&& self.provider_route_ref == other.provider_route_ref
        &&& self.send_cursor == other.send_cursor
        &&& self.receive_cursor == other.receive_cursor
        &&& self.restart_count == other.restart_count
        &&& self.backpressure_state == other.backpressure_state
        &&& self.status == other.status
        &&& self.close_reason == other.close_reason
        &&& self.channel == other.channel
        &&& self.direction == other.direction
        &&& self.media_kind == other.media_kind
        &&& self.content_refs@ == other.content_refs@
        &&& self.policy_refs@ == other.policy_refs@
        &&& self.privacy == other.privacy
        &&& self.retention == other.retention
        &&& self.redacted_summary == other.redacted_summary
        &&& self.effect_intent_ref == other.effect_intent_ref
        &&& self.effect_result_ref == other.effect_result_ref
        &&& (self.effect_intent.is_some() == other.effect_intent.is_some() && (self.effect_intent.is_some() ==> self.effect_intent.unwrap().same_as(&other.effect_intent.unwrap())))
        &&& (self.effect_result.is_some() == other.effect_result.is_some() && (self.effect_result.is_some() ==> self.effect_result.unwrap().same_as(&other.effect_result.unwrap())))
    }
}

impl Clone for RealtimeSessionRecord {
    fn clone(&self) -> (res: Self)
        ensures
            res.same_as(self),
    {
        let content_refs_copy = self.content_refs.clone();
        proof { assert(content_refs_copy@ =~= self.content_refs@); }
        let policy_refs_copy = self.policy_refs.clone();
        proof { assert(policy_refs_copy@ =~= self.policy_refs@); }
        RealtimeSessionRecord {
            kind: self.kind,
            session_id: self.session_id.clone(),
            connection_id: self.connection_id.clone(),
            response_id: self.response_id.clone(),
            run_id: self.run_id.clone(),
            agent_id: self.agent_id.clone(),
            provider_route_ref: self.provider_route_ref.clone(),
            send_cursor: self.send_cursor.clone(),
            receive_cursor: self.receive_cursor.clone(),
            restart_count: self.restart_count,
            backpressure_state: self.backpressure_state.clone(),
            status: self.status,
            close_reason: self.close_reason.clone(),
            channel: self.channel,
            direction: self.direction.clone(),
            media_kind: self.media_kind,
            content_refs: content_refs_copy,
            policy_refs: policy_refs_copy,
            privacy: self.privacy,
            retention: self.retention,
            redacted_summary: self.redacted_summary.clone(),
            effect_intent_ref: self.effect_intent_ref.clone(),
            effect_result_ref: self.effect_result_ref.clone(),
            effect_intent: match &self.effect_intent { Some(x8) => {  Some(x8.clone()) }, None => None },
            effect_result: match &self.effect_result { Some(x9) => {  Some(x9.clone()) }, None => None },
        }
    }
}

impl RealtimeBackpressureState {
    /// A state with the given capacity, nothing queued, dropped or gated.
    pub fn bounded(capacity: usize, policy_ref: PolicyRef) -> (res: Self)
        ensures
            res == (RealtimeBackpressureState {
                capacity,
                queued_frames: 0,
                dropped_frames: 0,
                gated_frames: 0,
                last_action: None,
                policy_ref,
            }),
    {
        RealtimeBackpressureState { capacity, queued_frames: 0, dropped_frames: 0, gated_frames: 0, last_action: None, policy_ref }
    }

    /// The state after gating one more frame.
    pub fn gate(self) -> (res: Self)
        requires
            self.gated_frames < usize::MAX,
        ensures
            res == (RealtimeBackpressureState {
                gated_frames: (self.gated_frames + 1) as usize,
                last_action: Some(RealtimeBackpressureAction::Gate),
                ..self
            }),
    {
        let mut state = self;
        state.gated_frames = state.gated_frames + 1;
        state.last_action = Some(RealtimeBackpressureAction::Gate);
        state
    }
}

/// The id of the frame that carries `content_ref`.
pub open spec fn frame_id_text(content_ref: Seq<char>) -> Seq<char> {
    "realtime.frame."@ + content_ref
}

impl RealtimeInputFrame {
    /// An input frame of one media content ref, at the first chunk, refs only, run-scoped.
    pub fn media_ref(media_kind: RealtimeMediaKind, content_ref: ContentRefId, redacted_summary: String) -> (res: Self)
        requires
            identifier_check(frame_id_text(content_ref@)) is Ok,
        ensures
            res.frame_id@ == frame_id_text(content_ref@),
            res.media_kind == media_kind,
            res.content_refs@ == seq![content_ref],
            res.redacted_summary == redacted_summary,
            res.cursor.chunk_sequence == 0,
            res.cursor.byte_offset == 0,
            res.cursor.precision == StreamCursorPrecision::ChunkSequenceOnly,
            res.cursor.label is None,
            res.privacy == PrivacyClass::ContentRefsOnly,
            res.retention == RetentionClass::RunScoped,
    {
        let frame_id = RealtimeFrameId::new(concat2("realtime.frame.", content_ref.as_str()));
        let mut content_refs: Vec<ContentRefId> = Vec::new();
        content_refs.push(content_ref);
        proof {
            assert(content_refs@ =~= seq![content_ref]);
        }
        RealtimeInputFrame {
            frame_id,
            media_kind,
            content_refs,
            redacted_summary,
            cursor: StreamCursor::chunk(0),
            privacy: PrivacyClass::ContentRefsOnly,
            retention: RetentionClass::RunScoped,
        }
    }

    /// The frame at another cursor.
    pub fn with_cursor(self, cursor: StreamCursor) -> (res: Self)
        ensures
            res == (RealtimeInputFrame { cursor, ..self }),
    {
        let mut frame = self;
        frame.cursor = cursor;
        frame
    }
}

impl RealtimeOutputFrame {
    /// A transcript frame of a response, carrying one content ref, at the first chunk.
    pub fn transcript(response_id: String, content_ref: String, redacted_summary: String) -> (res: Self)
        requires
            identifier_check(response_id@) is Ok,
            identifier_check(frame_id_text(content_ref@)) is Ok,
        ensures
            res.frame_id@ == frame_id_text(content_ref@),
            res.response_id@ == response_id@,
            res.media_kind == RealtimeMediaKind::Transcript,
            res.content_refs@.len() == 1,
            res.content_refs@[0]@ == content_ref@,
            res.redacted_summary == redacted_summary,
            res.cursor.chunk_sequence == 0,
            res.cursor.byte_offset == 0,
            res.cursor.precision == StreamCursorPrecision::ChunkSequenceOnly,
            res.cursor.label is None,
            res.privacy == PrivacyClass::ContentRefsOnly,
            res.retention == RetentionClass::RunScoped,
    {
        let content_ref = ContentRefId::new(content_ref);
        let frame_id = RealtimeFrameId::new(concat2("realtime.frame.", content_ref.as_str()));
        let mut content_refs: Vec<ContentRefId> = Vec::new();
        content_refs.push(content_ref);
        RealtimeOutputFrame {
            frame_id,
            response_id: RealtimeResponseId::new(response_id),
            media_kind: RealtimeMediaKind::Transcript,
            content_refs,
            redacted_summary,
            cursor: StreamCursor::chunk(0),
            privacy: PrivacyClass::ContentRefsOnly,
            retention: RetentionClass::RunScoped,
        }
    }

    /// The frame at another cursor.
    pub fn with_cursor(self, cursor: StreamCursor) -> (res: Self)
        ensures
            res == (RealtimeOutputFrame { cursor, ..self }),
    {
        let mut frame = self;
        frame.cursor = cursor;
        frame
    }
}

impl RealtimeSessionRecord {
    /// The event kind of the record.
    pub open spec fn event_kind_name_spec(&self) -> Seq<char> {
        match self.kind {
            RealtimeSessionRecordKind::ConnectRequested => "realtime_connect_requested"@,
            RealtimeSessionRecordKind::Connected => "realtime_connected"@,
            RealtimeSessionRecordKind::InputSendRequested => "realtime_input_send_requested"@,
            RealtimeSessionRecordKind::InputSent => "realtime_input_sent"@,
            RealtimeSessionRecordKind::OutputReceiveRequested => "realtime_output_receive_requested"@,
            RealtimeSessionRecordKind::OutputReceived => "realtime_output_received"@,
            RealtimeSessionRecordKind::InterruptRequested => "realtime_interrupt_requested"@,
            RealtimeSessionRecordKind::Interrupted => "realtime_interrupted"@,
            RealtimeSessionRecordKind::RestartRequested => "realtime_restart_requested"@,
            RealtimeSessionRecordKind::RestartStarted => "realtime_restart_started"@,
            RealtimeSessionRecordKind::RestartCompleted => "realtime_restart_completed"@,
            RealtimeSessionRecordKind::RestartFailed => "realtime_restart_failed"@,
            RealtimeSessionRecordKind::CloseRequested => "realtime_close_requested"@,
            RealtimeSessionRecordKind::Closed => "realtime_closed"@,
            RealtimeSessionRecordKind::BackpressureApplied => "realtime_backpressure_applied"@,
        }
    }

    /// The event kind of the record.
    pub fn event_kind_name(&self) -> (res: &'static str)
        ensures
            res@ == self.event_kind_name_spec(),
    {
        match self.kind {
            RealtimeSessionRecordKind::ConnectRequested => "realtime_connect_requested",
            RealtimeSessionRecordKind::Connected => "realtime_connected",
            RealtimeSessionRecordKind::InputSendRequested => "realtime_input_send_requested",
            RealtimeSessionRecordKind::InputSent => "realtime_input_sent",
            RealtimeSessionRecordKind::OutputReceiveRequested => "realtime_output_receive_requested",
            RealtimeSessionRecordKind::OutputReceived => "realtime_output_received",
            RealtimeSessionRecordKind::InterruptRequested => "realtime_interrupt_requested",
            RealtimeSessionRecordKind::Interrupted => "realtime_interrupted",
            RealtimeSessionRecordKind::RestartRequested => "realtime_restart_requested",
            RealtimeSessionRecordKind::RestartStarted => "realtime_restart_started",
            RealtimeSessionRecordKind::RestartCompleted => "realtime_restart_completed",
            RealtimeSessionRecordKind::RestartFailed => "realtime_restart_failed",
            RealtimeSessionRecordKind::CloseRequested => "realtime_close_requested",
            RealtimeSessionRecordKind::Closed => "realtime_closed",
            RealtimeSessionRecordKind::BackpressureApplied => "realtime_backpressure_applied",
        }
    }
}

} // verus!
