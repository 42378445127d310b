use vstd::prelude::*;

verus! {

/// Identifier of an approval request.
#[derive(Debug)]
pub struct ApprovalRequestId(String);

impl View for ApprovalRequestId {
    type V = Seq<char>;

    closed spec fn view(&self) -> Seq<char> {
        self.0@
    }
}

impl Clone for ApprovalRequestId {
    fn clone(&self) -> (res: Self)
        ensures
            res == *self,
    {
        ApprovalRequestId(self.0.clone())
    }
}

impl crate::domain::ValueEq for ApprovalRequestId {
    open spec fn value_eq(&self, other: &Self) -> bool {
        self@ == other@
    }

    fn equals(&self, other: &Self) -> (r: bool) {
        let r = self.0 == other.0;
        proof {
            assert(self@ == self.0@ && other@ == other.0@);
            assert(r == (self@ == other@));
            assert(r == self.value_eq(other));
        }
        r
    }
}

impl ApprovalRequestId {
    /// Builds the identifier from its string value.
    pub fn new(value: String) -> (res: Self)
        ensures
            res@ == value@,
    {
        ApprovalRequestId(value)
    }

    /// Returns the identifier text.
    pub fn as_str(&self) -> (res: &str)
        ensures
            res@ == self@,
    {
        self.0.as_str()
    }
}

/// Identifier of a side effect; links intents, results, and releases.
#[derive(Debug)]
pub struct EffectId(String);

impl View for EffectId {
    type V = Seq<char>;

    closed spec fn view(&self) -> Seq<char> {
        self.0@
    }
}

impl Clone for EffectId {
    fn clone(&self) -> (res: Self)
        ensures
            res == *self,
    {
        EffectId(self.0.clone())
    }
}

impl crate::domain::ValueEq for EffectId {
    open spec fn value_eq(&self, other: &Self) -> bool {
        self@ == other@
    }

    fn equals(&self, other: &Self) -> (r: bool) {
        let r = self.0 == other.0;
        proof {
            assert(self@ == self.0@ && other@ == other.0@);
            assert(r == (self@ == other@));
            assert(r == self.value_eq(other));
        }
        r
    }
}

impl EffectId {
    /// Builds the identifier from its string value.
    pub fn new(value: String) -> (res: Self)
        ensures
            res@ == value@,
    {
        EffectId(value)
    }

    /// Returns the identifier text.
    pub fn as_str(&self) -> (res: &str)
        ensures
            res@ == self@,
    {
        self.0.as_str()
    }
}

/// Identifier of one agent run.
#[derive(Debug)]
pub struct RunId(String);

impl View for RunId {
    type V = Seq<char>;

    closed spec fn view(&self) -> Seq<char> {
        self.0@
    }
}

impl Clone for RunId {
    fn clone(&self) -> (res: Self)
        ensures
            res == *self,
    {
        RunId(self.0.clone())
    }
}

impl crate::domain::ValueEq for RunId {
    open spec fn value_eq(&self, other: &Self) -> bool {
        self@ == other@
    }

    fn equals(&self, other: &Self) -> (r: bool) {
        let r = self.0 == other.0;
        proof {
            assert(self@ == self.0@ && other@ == other.0@);
            assert(r == (self@ == other@));
            assert(r == self.value_eq(other));
        }
        r
    }
}

impl RunId {
    /// Builds the identifier from its string value.
    pub fn new(value: String) -> (res: Self)
        ensures
            res@ == value@,
    {
        RunId(value)
    }

    /// Returns the identifier text.
    pub fn as_str(&self) -> (res: &str)
        ensures
            res@ == self@,
    {
        self.0.as_str()
    }
}

/// Identifier of a host session that groups runs.
#[derive(Debug)]
pub struct SessionId(String);

impl View for SessionId {
    type V = Seq<char>;

    closed spec fn view(&self) -> Seq<char> {
        self.0@
    }
}

impl Clone for SessionId {
    fn clone(&self) -> (res: Self)
        ensures
            res == *self,
    {
        SessionId(self.0.clone())
    }
}

impl crate::domain::ValueEq for SessionId {
    open spec fn value_eq(&self, other: &Self) -> bool {
        self@ == other@
    }

    fn equals(&self, other: &Self) -> (r: bool) {
        let r = self.0 == other.0;
        proof {
            assert(self@ == self.0@ && other@ == other.0@);
            assert(r == (self@ == other@));
            assert(r == self.value_eq(other));
        }
        r
    }
}

impl SessionId {
    /// Builds the identifier from its string value.
    pub fn new(value: String) -> (res: Self)
        ensures
            res@ == value@,
    {
        SessionId(value)
    }

    /// Returns the identifier text.
    pub fn as_str(&self) -> (res: &str)
        ensures
            res@ == self@,
    {
        self.0.as_str()
    }
}

/// Identifier of an agent.
#[derive(Debug)]
pub struct AgentId(String);

impl View for AgentId {
    type V = Seq<char>;

    closed spec fn view(&self) -> Seq<char> {
        self.0@
    }
}

impl Clone for AgentId {
    fn clone(&self) -> (res: Self)
        ensures
            res == *self,
    {
        AgentId(self.0.clone())
    }
}

impl crate::domain::ValueEq for AgentId {
    open spec fn value_eq(&self, other: &Self) -> bool {
        self@ == other@
    }

    fn equals(&self, other: &Self) -> (r: bool) {
        let r = self.0 == other.0;
        proof {
            assert(self@ == self.0@ && other@ == other.0@);
            assert(r == (self@ == other@));
            assert(r == self.value_eq(other));
        }
        r
    }
}

impl AgentId {
    /// Builds the identifier from its string value.
    pub fn new(value: String) -> (res: Self)
        ensures
            res@ == value@,
    {
        AgentId(value)
    }

    /// Returns the identifier text.
    pub fn as_str(&self) -> (res: &str)
        ensures
            res@ == self@,
    {
        self.0.as_str()
    }
}

/// Identifier of one loop turn inside a run.
#[derive(Debug)]
pub struct TurnId(String);

impl View for TurnId {
    type V = Seq<char>;

    closed spec fn view(&self) -> Seq<char> {
        self.0@
    }
}

impl Clone for TurnId {
    fn clone(&self) -> (res: Self)
        ensures
            res == *self,
    {
        TurnId(self.0.clone())
    }
}

impl crate::domain::ValueEq for TurnId {
    open spec fn value_eq(&self, other: &Self) -> bool {
        self@ == other@
    }

    fn equals(&self, other: &Self) -> (r: bool) {
        let r = self.0 == other.0;
        proof {
            assert(self@ == self.0@ && other@ == other.0@);
            assert(r == (self@ == other@));
            assert(r == self.value_eq(other));
        }
        r
    }
}

impl TurnId {
    /// Builds the identifier from its string value.
    pub fn new(value: String) -> (res: Self)
        ensures
            res@ == value@,
    {
        TurnId(value)
    }

    /// Returns the identifier text.
    pub fn as_str(&self) -> (res: &str)
        ensures
            res@ == self@,
    {
        self.0.as_str()
    }
}

/// Identifier of one tool call.
#[derive(Debug)]
pub struct ToolCallId(String);

impl View for ToolCallId {
    type V = Seq<char>;

    closed spec fn view(&self) -> Seq<char> {
        self.0@
    }
}

impl Clone for ToolCallId {
    fn clone(&self) -> (res: Self)
        ensures
            res == *self,
    {
        ToolCallId(self.0.clone())
    }
}

impl crate::domain::ValueEq for ToolCallId {
    open spec fn value_eq(&self, other: &Self) -> bool {
        self@ == other@
    }

    fn equals(&self, other: &Self) -> (r: bool) {
        let r = self.0 == other.0;
        proof {
            assert(self@ == self.0@ && other@ == other.0@);
            assert(r == (self@ == other@));
            assert(r == self.value_eq(other));
        }
        r
    }
}

impl ToolCallId {
    /// Builds the identifier from its string value.
    pub fn new(value: String) -> (res: Self)
        ensures
            res@ == value@,
    {
        ToolCallId(value)
    }

    /// Returns the identifier text.
    pub fn as_str(&self) -> (res: &str)
        ensures
            res@ == self@,
    {
        self.0.as_str()
    }
}

/// Identifier of one model attempt.
#[derive(Debug)]
pub struct AttemptId(String);

impl View for AttemptId {
    type V = Seq<char>;

    closed spec fn view(&self) -> Seq<char> {
        self.0@
    }
}

impl Clone for AttemptId {
    fn clone(&self) -> (res: Self)
        ensures
            res == *self,
    {
        AttemptId(self.0.clone())
    }
}

impl crate::domain::ValueEq for AttemptId {
    open spec fn value_eq(&self, other: &Self) -> bool {
        self@ == other@
    }

    fn equals(&self, other: &Self) -> (r: bool) {
        let r = self.0 == other.0;
        proof {
            assert(self@ == self.0@ && other@ == other.0@);
            assert(r == (self@ == other@));
            assert(r == self.value_eq(other));
        }
        r
    }
}

impl AttemptId {
    /// Builds the identifier from its string value.
    pub fn new(value: String) -> (res: Self)
        ensures
            res@ == value@,
    {
        AttemptId(value)
    }

    /// Returns the identifier text.
    pub fn as_str(&self) -> (res: &str)
        ensures
            res@ == self@,
    {
        self.0.as_str()
    }
}

/// Identifier of a stored artifact.
#[derive(Debug)]
pub struct ArtifactId(String);

impl View for ArtifactId {
    type V = Seq<char>;

    closed spec fn view(&self) -> Seq<char> {
        self.0@
    }
}

impl Clone for ArtifactId {
    fn clone(&self) -> (res: Self)
        ensures
            res == *self,
    {
        ArtifactId(self.0.clone())
    }
}

impl crate::domain::ValueEq for ArtifactId {
    open spec fn value_eq(&self, other: &Self) -> bool {
        self@ == other@
    }

    fn equals(&self, other: &Self) -> (r: bool) {
        let r = self.0 == other.0;
        proof {
            assert(self@ == self.0@ && other@ == other.0@);
            assert(r == (self@ == other@));
            assert(r == self.value_eq(other));
        }
        r
    }
}

impl ArtifactId {
    /// Builds the identifier from its string value.
    pub fn new(value: String) -> (res: Self)
        ensures
            res@ == value@,
    {
        ArtifactId(value)
    }

    /// Returns the identifier text.
    pub fn as_str(&self) -> (res: &str)
        ensures
            res@ == self@,
    {
        self.0.as_str()
    }
}

/// Identifier of a content item.
#[derive(Debug)]
pub struct ContentId(String);

impl View for ContentId {
    type V = Seq<char>;

    closed spec fn view(&self) -> Seq<char> {
        self.0@
    }
}

impl Clone for ContentId {
    fn clone(&self) -> (res: Self)
        ensures
            res == *self,
    {
        ContentId(self.0.clone())
    }
}

impl crate::domain::ValueEq for ContentId {
    open spec fn value_eq(&self, other: &Self) -> bool {
        self@ == other@
    }

    fn equals(&self, other: &Self) -> (r: bool) {
        let r = self.0 == other.0;
        proof {
            assert(self@ == self.0@ && other@ == other.0@);
            assert(r == (self@ == other@));
            assert(r == self.value_eq(other));
        }
        r
    }
}

impl ContentId {
    /// Builds the identifier from its string value.
    pub fn new(value: String) -> (res: Self)
        ensures
            res@ == value@,
    {
        ContentId(value)
    }

    /// Returns the identifier text.
    pub fn as_str(&self) -> (res: &str)
        ensures
            res@ == self@,
    {
        self.0.as_str()
    }
}

/// Identifier of an admitted context item.
#[derive(Debug)]
pub struct ContextItemId(String);

impl View for ContextItemId {
    type V = Seq<char>;

    closed spec fn view(&self) -> Seq<char> {
        self.0@
    }
}

impl Clone for ContextItemId {
    fn clone(&self) -> (res: Self)
        ensures
            res == *self,
    {
        ContextItemId(self.0.clone())
    }
}

impl crate::domain::ValueEq for ContextItemId {
    open spec fn value_eq(&self, other: &Self) -> bool {
        self@ == other@
    }

    fn equals(&self, other: &Self) -> (r: bool) {
        let r = self.0 == other.0;
        proof {
            assert(self@ == self.0@ && other@ == other.0@);
            assert(r == (self@ == other@));
            assert(r == self.value_eq(other));
        }
        r
    }
}

impl ContextItemId {
    /// Builds the identifier from its string value.
    pub fn new(value: String) -> (res: Self)
        ensures
            res@ == value@,
    {
        ContextItemId(value)
    }

    /// Returns the identifier text.
    pub fn as_str(&self) -> (res: &str)
        ensures
            res@ == self@,
    {
        self.0.as_str()
    }
}

/// Identifier of a context projection.
#[derive(Debug)]
pub struct ContextProjectionId(String);

impl View for ContextProjectionId {
    type V = Seq<char>;

    closed spec fn view(&self) -> Seq<char> {
        self.0@
    }
}

impl Clone for ContextProjectionId {
    fn clone(&self) -> (res: Self)
        ensures
            res == *self,
    {
        ContextProjectionId(self.0.clone())
    }
}

impl crate::domain::ValueEq for ContextProjectionId {
    open spec fn value_eq(&self, other: &Self) -> bool {
        self@ == other@
    }

    fn equals(&self, other: &Self) -> (r: bool) {
        let r = self.0 == other.0;
        proof {
            assert(self@ == self.0@ && other@ == other.0@);
            assert(r == (self@ == other@));
            assert(r == self.value_eq(other));
        }
        r
    }
}

impl ContextProjectionId {
    /// Builds the identifier from its string value.
    pub fn new(value: String) -> (res: Self)
        ensures
            res@ == value@,
    {
        ContextProjectionId(value)
    }

    /// Returns the identifier text.
    pub fn as_str(&self) -> (res: &str)
        ensures
            res@ == self@,
    {
        self.0.as_str()
    }
}

/// Identifier of an agent message.
#[derive(Debug)]
pub struct MessageId(String);

impl View for MessageId {
    type V = Seq<char>;

    closed spec fn view(&self) -> Seq<char> {
        self.0@
    }
}

impl Clone for MessageId {
    fn clone(&self) -> (res: Self)
        ensures
            res == *self,
    {
        MessageId(self.0.clone())
    }
}

impl crate::domain::ValueEq for MessageId {
    open spec fn value_eq(&self, other: &Self) -> bool {
        self@ == other@
    }

    fn equals(&self, other: &Self) -> (r: bool) {
        let r = self.0 == other.0;
        proof {
            assert(self@ == self.0@ && other@ == other.0@);
            assert(r == (self@ == other@));
            assert(r == self.value_eq(other));
        }
        r
    }
}

impl MessageId {
    /// Builds the identifier from its string value.
    pub fn new(value: String) -> (res: Self)
        ensures
            res@ == value@,
    {
        MessageId(value)
    }

    /// Returns the identifier text.
    pub fn as_str(&self) -> (res: &str)
        ensures
            res@ == self@,
    {
        self.0.as_str()
    }
}

/// Identifier of an event.
#[derive(Debug)]
pub struct EventId(String);

impl View for EventId {
    type V = Seq<char>;

    closed spec fn view(&self) -> Seq<char> {
        self.0@
    }
}

impl Clone for EventId {
    fn clone(&self) -> (res: Self)
        ensures
            res == *self,
    {
        EventId(self.0.clone())
    }
}

impl crate::domain::ValueEq for EventId {
    open spec fn value_eq(&self, other: &Self) -> bool {
        self@ == other@
    }

    fn equals(&self, other: &Self) -> (r: bool) {
        let r = self.0 == other.0;
        proof {
            assert(self@ == self.0@ && other@ == other.0@);
            assert(r == (self@ == other@));
            assert(r == self.value_eq(other));
        }
        r
    }
}

impl EventId {
    /// Builds the identifier from its string value.
    pub fn new(value: String) -> (res: Self)
        ensures
            res@ == value@,
    {
        EventId(value)
    }

    /// Returns the identifier text.
    pub fn as_str(&self) -> (res: &str)
        ensures
            res@ == self@,
    {
        self.0.as_str()
    }
}

/// Identifier of an archive cursor.
#[derive(Debug)]
pub struct ArchiveCursorId(String);

impl View for ArchiveCursorId {
    type V = Seq<char>;

    closed spec fn view(&self) -> Seq<char> {
        self.0@
    }
}

impl Clone for ArchiveCursorId {
    fn clone(&self) -> (res: Self)
        ensures
            res == *self,
    {
        ArchiveCursorId(self.0.clone())
    }
}

impl crate::domain::ValueEq for ArchiveCursorId {
    open spec fn value_eq(&self, other: &Self) -> bool {
        self@ == other@
    }

    fn equals(&self, other: &Self) -> (r: bool) {
        let r = self.0 == other.0;
        proof {
            assert(self@ == self.0@ && other@ == other.0@);
            assert(r == (self@ == other@));
            assert(r == self.value_eq(other));
        }
        r
    }
}

impl ArchiveCursorId {
    /// Builds the identifier from its string value.
    pub fn new(value: String) -> (res: Self)
        ensures
            res@ == value@,
    {
        ArchiveCursorId(value)
    }

    /// Returns the identifier text.
    pub fn as_str(&self) -> (res: &str)
        ensures
            res@ == self@,
    {
        self.0.as_str()
    }
}

/// Telemetry span identifier.
#[derive(Debug)]
pub struct SpanId(String);

impl View for SpanId {
    type V = Seq<char>;

    closed spec fn view(&self) -> Seq<char> {
        self.0@
    }
}

impl Clone for SpanId {
    fn clone(&self) -> (res: Self)
        ensures
            res == *self,
    {
        SpanId(self.0.clone())
    }
}

impl crate::domain::ValueEq for SpanId {
    open spec fn value_eq(&self, other: &Self) -> bool {
        self@ == other@
    }

    fn equals(&self, other: &Self) -> (r: bool) {
        let r = self.0 == other.0;
        proof {
            assert(self@ == self.0@ && other@ == other.0@);
            assert(r == (self@ == other@));
            assert(r == self.value_eq(other));
        }
        r
    }
}

impl SpanId {
    /// Builds the identifier from its string value.
    pub fn new(value: String) -> (res: Self)
        ensures
            res@ == value@,
    {
        SpanId(value)
    }

    /// Returns the identifier text.
    pub fn as_str(&self) -> (res: &str)
        ensures
            res@ == self@,
    {
        self.0.as_str()
    }
}

/// Telemetry trace identifier.
#[derive(Debug)]
pub struct TraceId(String);

impl View for TraceId {
    type V = Seq<char>;

    closed spec fn view(&self) -> Seq<char> {
        self.0@
    }
}

impl Clone for TraceId {
    fn clone(&self) -> (res: Self)
        ensures
            res == *self,
    {
        TraceId(self.0.clone())
    }
}

impl crate::domain::ValueEq for TraceId {
    open spec fn value_eq(&self, other: &Self) -> bool {
        self@ == other@
    }

    fn equals(&self, other: &Self) -> (r: bool) {
        let r = self.0 == other.0;
        proof {
            assert(self@ == self.0@ && other@ == other.0@);
            assert(r == (self@ == other@));
            assert(r == self.value_eq(other));
        }
        r
    }
}

impl TraceId {
    /// Builds the identifier from its string value.
    pub fn new(value: String) -> (res: Self)
        ensures
            res@ == value@,
    {
        TraceId(value)
    }

    /// Returns the identifier text.
    pub fn as_str(&self) -> (res: &str)
        ensures
            res@ == self@,
    {
        self.0.as_str()
    }
}

/// Key under which a side effect is deduplicated.
#[derive(Debug)]
pub struct DedupeKey(String);

impl View for DedupeKey {
    type V = Seq<char>;

    closed spec fn view(&self) -> Seq<char> {
        self.0@
    }
}

impl Clone for DedupeKey {
    fn clone(&self) -> (res: Self)
        ensures
            res == *self,
    {
        DedupeKey(self.0.clone())
    }
}

impl crate::domain::ValueEq for DedupeKey {
    open spec fn value_eq(&self, other: &Self) -> bool {
        self@ == other@
    }

    fn equals(&self, other: &Self) -> (r: bool) {
        let r = self.0 == other.0;
        proof {
            assert(self@ == self.0@ && other@ == other.0@);
            assert(r == (self@ == other@));
            assert(r == self.value_eq(other));
        }
        r
    }
}

impl DedupeKey {
    /// Builds the identifier from its string value.
    pub fn new(value: String) -> (res: Self)
        ensures
            res@ == value@,
    {
        DedupeKey(value)
    }

    /// Returns the identifier text.
    pub fn as_str(&self) -> (res: &str)
        ensures
            res@ == self@,
    {
        self.0.as_str()
    }
}

/// Key that makes a side effect idempotent.
#[derive(Debug)]
pub struct IdempotencyKey(String);

impl View for IdempotencyKey {
    type V = Seq<char>;

    closed spec fn view(&self) -> Seq<char> {
        self.0@
    }
}

impl Clone for IdempotencyKey {
    fn clone(&self) -> (res: Self)
        ensures
            res == *self,
    {
        IdempotencyKey(self.0.clone())
    }
}

impl crate::domain::ValueEq for IdempotencyKey {
    open spec fn value_eq(&self, other: &Self) -> bool {
        self@ == other@
    }

    fn equals(&self, other: &Self) -> (r: bool) {
        let r = self.0 == other.0;
        proof {
            assert(self@ == self.0@ && other@ == other.0@);
            assert(r == (self@ == other@));
            assert(r == self.value_eq(other));
        }
        r
    }
}

impl IdempotencyKey {
    /// Builds the identifier from its string value.
    pub fn new(value: String) -> (res: Self)
        ensures
            res@ == value@,
    {
        IdempotencyKey(value)
    }

    /// Returns the identifier text.
    pub fn as_str(&self) -> (res: &str)
        ensures
            res@ == self@,
    {
        self.0.as_str()
    }
}

/// Identifier of a validated structured output.
#[derive(Debug)]
pub struct ValidatedOutputId(String);

impl View for ValidatedOutputId {
    type V = Seq<char>;

    closed spec fn view(&self) -> Seq<char> {
        self.0@
    }
}

impl Clone for ValidatedOutputId {
    fn clone(&self) -> (res: Self)
        ensures
            res == *self,
    {
        ValidatedOutputId(self.0.clone())
    }
}

impl crate::domain::ValueEq for ValidatedOutputId {
    open spec fn value_eq(&self, other: &Self) -> bool {
        self@ == other@
    }

    fn equals(&self, other: &Self) -> (r: bool) {
        let r = self.0 == other.0;
        proof {
            assert(self@ == self.0@ && other@ == other.0@);
            assert(r == (self@ == other@));
            assert(r == self.value_eq(other));
        }
        r
    }
}

impl ValidatedOutputId {
    /// Builds the identifier from its string value.
    pub fn new(value: String) -> (res: Self)
        ensures
            res@ == value@,
    {
        ValidatedOutputId(value)
    }

    /// Returns the identifier text.
    pub fn as_str(&self) -> (res: &str)
        ensures
            res@ == self@,
    {
        self.0.as_str()
    }
}

/// Identifier of an output schema.
#[derive(Debug)]
pub struct OutputSchemaId(String);

impl View for OutputSchemaId {
    type V = Seq<char>;

    closed spec fn view(&self) -> Seq<char> {
        self.0@
    }
}

impl Clone for OutputSchemaId {
    fn clone(&self) -> (res: Self)
        ensures
            res == *self,
    {
        OutputSchemaId(self.0.clone())
    }
}

impl crate::domain::ValueEq for OutputSchemaId {
    open spec fn value_eq(&self, other: &Self) -> bool {
        self@ == other@
    }

    fn equals(&self, other: &Self) -> (r: bool) {
        let r = self.0 == other.0;
        proof {
            assert(self@ == self.0@ && other@ == other.0@);
            assert(r == (self@ == other@));
            assert(r == self.value_eq(other));
        }
        r
    }
}

impl OutputSchemaId {
    /// Builds the identifier from its string value.
    pub fn new(value: String) -> (res: Self)
        ensures
            res@ == value@,
    {
        OutputSchemaId(value)
    }

    /// Returns the identifier text.
    pub fn as_str(&self) -> (res: &str)
        ensures
            res@ == self@,
    {
        self.0.as_str()
    }
}

/// Identifier of one structured output repair attempt.
#[derive(Debug)]
pub struct RepairAttemptId(String);

impl View for RepairAttemptId {
    type V = Seq<char>;

    closed spec fn view(&self) -> Seq<char> {
        self.0@
    }
}

impl Clone for RepairAttemptId {
    fn clone(&self) -> (res: Self)
        ensures
            res == *self,
    {
        RepairAttemptId(self.0.clone())
    }
}

impl crate::domain::ValueEq for RepairAttemptId {
    open spec fn value_eq(&self, other: &Self) -> bool {
        self@ == other@
    }

    fn equals(&self, other: &Self) -> (r: bool) {
        let r = self.0 == other.0;
        proof {
            assert(self@ == self.0@ && other@ == other.0@);
            assert(r == (self@ == other@));
            assert(r == self.value_eq(other));
        }
        r
    }
}

impl RepairAttemptId {
    /// Builds the identifier from its string value.
    pub fn new(value: String) -> (res: Self)
        ensures
            res@ == value@,
    {
        RepairAttemptId(value)
    }

    /// Returns the identifier text.
    pub fn as_str(&self) -> (res: &str)
        ensures
            res@ == self@,
    {
        self.0.as_str()
    }
}

/// Identifier of one structured output validation attempt.
#[derive(Debug)]
pub struct ValidationAttemptId(String);

impl View for ValidationAttemptId {
    type V = Seq<char>;

    closed spec fn view(&self) -> Seq<char> {
        self.0@
    }
}

impl Clone for ValidationAttemptId {
    fn clone(&self) -> (res: Self)
        ensures
            res == *self,
    {
        ValidationAttemptId(self.0.clone())
    }
}

impl crate::domain::ValueEq for ValidationAttemptId {
    open spec fn value_eq(&self, other: &Self) -> bool {
        self@ == other@
    }

    fn equals(&self, other: &Self) -> (r: bool) {
        let r = self.0 == other.0;
        proof {
            assert(self@ == self.0@ && other@ == other.0@);
            assert(r == (self@ == other@));
            assert(r == self.value_eq(other));
        }
        r
    }
}

impl ValidationAttemptId {
    /// Builds the identifier from its string value.
    pub fn new(value: String) -> (res: Self)
        ensures
            res@ == value@,
    {
        ValidationAttemptId(value)
    }

    /// Returns the identifier text.
    pub fn as_str(&self) -> (res: &str)
        ensures
            res@ == self@,
    {
        self.0.as_str()
    }
}

/// Identifier of an agent pool.
#[derive(Debug)]
pub struct AgentPoolId(String);

impl View for AgentPoolId {
    type V = Seq<char>;

    closed spec fn view(&self) -> Seq<char> {
        self.0@
    }
}

impl Clone for AgentPoolId {
    fn clone(&self) -> (res: Self)
        ensures
            res == *self,
    {
        AgentPoolId(self.0.clone())
    }
}

impl crate::domain::ValueEq for AgentPoolId {
    open spec fn value_eq(&self, other: &Self) -> bool {
        self@ == other@
    }

    fn equals(&self, other: &Self) -> (r: bool) {
        let r = self.0 == other.0;
        proof {
            assert(self@ == self.0@ && other@ == other.0@);
            assert(r == (self@ == other@));
            assert(r == self.value_eq(other));
        }
        r
    }
}

impl AgentPoolId {
    /// Builds the identifier from its string value.
    pub fn new(value: String) -> (res: Self)
        ensures
            res@ == value@,
    {
        AgentPoolId(value)
    }

    /// Returns the identifier text.
    pub fn as_str(&self) -> (res: &str)
        ensures
            res@ == self@,
    {
        self.0.as_str()
    }
}

/// Identifier of a pool topic.
#[derive(Debug)]
pub struct TopicId(String);

impl View for TopicId {
    type V = Seq<char>;

    closed spec fn view(&self) -> Seq<char> {
        self.0@
    }
}

impl Clone for TopicId {
    fn clone(&self) -> (res: Self)
        ensures
            res == *self,
    {
        TopicId(self.0.clone())
    }
}

impl crate::domain::ValueEq for TopicId {
    open spec fn value_eq(&self, other: &Self) -> bool {
        self@ == other@
    }

    fn equals(&self, other: &Self) -> (r: bool) {
        let r = self.0 == other.0;
        proof {
            assert(self@ == self.0@ && other@ == other.0@);
            assert(r == (self@ == other@));
            assert(r == self.value_eq(other));
        }
        r
    }
}

impl TopicId {
    /// Builds the identifier from its string value.
    pub fn new(value: String) -> (res: Self)
        ensures
            res@ == value@,
    {
        TopicId(value)
    }

    /// Returns the identifier text.
    pub fn as_str(&self) -> (res: &str)
        ensures
            res@ == self@,
    {
        self.0.as_str()
    }
}

/// Identifier of a wake condition.
#[derive(Debug)]
pub struct WakeConditionId(String);

impl View for WakeConditionId {
    type V = Seq<char>;

    closed spec fn view(&self) -> Seq<char> {
        self.0@
    }
}

impl Clone for WakeConditionId {
    fn clone(&self) -> (res: Self)
        ensures
            res == *self,
    {
        WakeConditionId(self.0.clone())
    }
}

impl crate::domain::ValueEq for WakeConditionId {
    open spec fn value_eq(&self, other: &Self) -> bool {
        self@ == other@
    }

    fn equals(&self, other: &Self) -> (r: bool) {
        let r = self.0 == other.0;
        proof {
            assert(self@ == self.0@ && other@ == other.0@);
            assert(r == (self@ == other@));
            assert(r == self.value_eq(other));
        }
        r
    }
}

impl WakeConditionId {
    /// Builds the identifier from its string value.
    pub fn new(value: String) -> (res: Self)
        ensures
            res@ == value@,
    {
        WakeConditionId(value)
    }

    /// Returns the identifier text.
    pub fn as_str(&self) -> (res: &str)
        ensures
            res@ == self@,
    {
        self.0.as_str()
    }
}

/// Lineage reference for derived values.
#[derive(Debug)]
pub struct LineageRef(String);

impl View for LineageRef {
    type V = Seq<char>;

    closed spec fn view(&self) -> Seq<char> {
        self.0@
    }
}

impl Clone for LineageRef {
    fn clone(&self) -> (res: Self)
        ensures
            res == *self,
    {
        LineageRef(self.0.clone())
    }
}

impl crate::domain::ValueEq for LineageRef {
    open spec fn value_eq(&self, other: &Self) -> bool {
        self@ == other@
    }

    fn equals(&self, other: &Self) -> (r: bool) {
        let r = self.0 == other.0;
        proof {
            assert(self@ == self.0@ && other@ == other.0@);
            assert(r == (self@ == other@));
            assert(r == self.value_eq(other));
        }
        r
    }
}

impl LineageRef {
    /// Builds the identifier from its string value.
    pub fn new(value: String) -> (res: Self)
        ensures
            res@ == value@,
    {
        LineageRef(value)
    }

    /// Returns the identifier text.
    pub fn as_str(&self) -> (res: &str)
        ensures
            res@ == self@,
    {
        self.0.as_str()
    }
}

/// Reference to a host adapter (storage, resolver, sink).
#[derive(Debug)]
pub struct AdapterRef(String);

impl View for AdapterRef {
    type V = Seq<char>;

    closed spec fn view(&self) -> Seq<char> {
        self.0@
    }
}

impl Clone for AdapterRef {
    fn clone(&self) -> (res: Self)
        ensures
            res == *self,
    {
        AdapterRef(self.0.clone())
    }
}

impl crate::domain::ValueEq for AdapterRef {
    open spec fn value_eq(&self, other: &Self) -> bool {
        self@ == other@
    }

    fn equals(&self, other: &Self) -> (r: bool) {
        let r = self.0 == other.0;
        proof {
            assert(self@ == self.0@ && other@ == other.0@);
            assert(r == (self@ == other@));
            assert(r == self.value_eq(other));
        }
        r
    }
}

impl AdapterRef {
    /// Builds the identifier from its string value.
    pub fn new(value: String) -> (res: Self)
        ensures
            res@ == value@,
    {
        AdapterRef(value)
    }

    /// Returns the identifier text.
    pub fn as_str(&self) -> (res: &str)
        ensures
            res@ == self@,
    {
        self.0.as_str()
    }
}

/// Key of a correlation entry.
#[derive(Debug)]
pub struct CorrelationKey(String);

impl View for CorrelationKey {
    type V = Seq<char>;

    closed spec fn view(&self) -> Seq<char> {
        self.0@
    }
}

impl Clone for CorrelationKey {
    fn clone(&self) -> (res: Self)
        ensures
            res == *self,
    {
        CorrelationKey(self.0.clone())
    }
}

impl crate::domain::ValueEq for CorrelationKey {
    open spec fn value_eq(&self, other: &Self) -> bool {
        self@ == other@
    }

    fn equals(&self, other: &Self) -> (r: bool) {
        let r = self.0 == other.0;
        proof {
            assert(self@ == self.0@ && other@ == other.0@);
            assert(r == (self@ == other@));
            assert(r == self.value_eq(other));
        }
        r
    }
}

impl CorrelationKey {
    /// Builds the identifier from its string value.
    pub fn new(value: String) -> (res: Self)
        ensures
            res@ == value@,
    {
        CorrelationKey(value)
    }

    /// Returns the identifier text.
    pub fn as_str(&self) -> (res: &str)
        ensures
            res@ == self@,
    {
        self.0.as_str()
    }
}

/// Opaque position in a run journal.
#[derive(Debug)]
pub struct JournalCursor(String);

impl View for JournalCursor {
    type V = Seq<char>;

    closed spec fn view(&self) -> Seq<char> {
        self.0@
    }
}

impl Clone for JournalCursor {
    fn clone(&self) -> (res: Self)
        ensures
            res == *self,
    {
        JournalCursor(self.0.clone())
    }
}

impl crate::domain::ValueEq for JournalCursor {
    open spec fn value_eq(&self, other: &Self) -> bool {
        self@ == other@
    }

    fn equals(&self, other: &Self) -> (r: bool) {
        let r = self.0 == other.0;
        proof {
            assert(self@ == self.0@ && other@ == other.0@);
            assert(r == (self@ == other@));
            assert(r == self.value_eq(other));
        }
        r
    }
}

impl JournalCursor {
    /// Builds the identifier from its string value.
    pub fn new(value: String) -> (res: Self)
        ensures
            res@ == value@,
    {
        JournalCursor(value)
    }

    /// Returns the identifier text.
    pub fn as_str(&self) -> (res: &str)
        ensures
            res@ == self@,
    {
        self.0.as_str()
    }
}

/// Fingerprint of the runtime package snapshot in force.
#[derive(Debug)]
pub struct RuntimePackageFingerprint(String);

impl View for RuntimePackageFingerprint {
    type V = Seq<char>;

    closed spec fn view(&self) -> Seq<char> {
        self.0@
    }
}

impl Clone for RuntimePackageFingerprint {
    fn clone(&self) -> (res: Self)
        ensures
            res == *self,
    {
        RuntimePackageFingerprint(self.0.clone())
    }
}

impl crate::domain::ValueEq for RuntimePackageFingerprint {
    open spec fn value_eq(&self, other: &Self) -> bool {
        self@ == other@
    }

    fn equals(&self, other: &Self) -> (r: bool) {
        let r = self.0 == other.0;
        proof {
            assert(self@ == self.0@ && other@ == other.0@);
            assert(r == (self@ == other@));
            assert(r == self.value_eq(other));
        }
        r
    }
}

impl RuntimePackageFingerprint {
    /// Builds the identifier from its string value.
    pub fn new(value: String) -> (res: Self)
        ensures
            res@ == value@,
    {
        RuntimePackageFingerprint(value)
    }

    /// Returns the identifier text.
    pub fn as_str(&self) -> (res: &str)
        ensures
            res@ == self@,
    {
        self.0.as_str()
    }
}

/// Durable reference to a content item by its identifier text.
#[derive(Debug)]
pub struct ContentRefId(String);

impl View for ContentRefId {
    type V = Seq<char>;

    closed spec fn view(&self) -> Seq<char> {
        self.0@
    }
}

impl Clone for ContentRefId {
    fn clone(&self) -> (res: Self)
        ensures
            res == *self,
    {
        ContentRefId(self.0.clone())
    }
}

impl crate::domain::ValueEq for ContentRefId {
    open spec fn value_eq(&self, other: &Self) -> bool {
        self@ == other@
    }

    fn equals(&self, other: &Self) -> (r: bool) {
        let r = self.0 == other.0;
        proof {
            assert(self@ == self.0@ && other@ == other.0@);
            assert(r == (self@ == other@));
            assert(r == self.value_eq(other));
        }
        r
    }
}

impl ContentRefId {
    /// Builds the identifier from its string value.
    pub fn new(value: String) -> (res: Self)
        ensures
            res@ == value@,
    {
        ContentRefId(value)
    }

    /// Returns the identifier text.
    pub fn as_str(&self) -> (res: &str)
        ensures
            res@ == self@,
    {
        self.0.as_str()
    }
}

/// Privacy classification of a value.
#[derive(Clone, Copy, Debug, PartialEq, Eq, Structural)]
pub enum PrivacyClass {
    Public,
    Internal,
    ContentRefsOnly,
    Sensitive,
    Secret,
}

impl crate::domain::ValueEq for PrivacyClass {
    open spec fn value_eq(&self, other: &Self) -> bool {
        *self == *other
    }

    fn equals(&self, other: &Self) -> (r: bool) {
        *self == *other
    }
}

/// Retention classification of a value.
#[derive(Clone, Copy, Debug, PartialEq, Eq, Structural)]
pub enum RetentionClass {
    Ephemeral,
    RunScoped,
    SessionScoped,
    Durable,
}

impl crate::domain::ValueEq for RetentionClass {
    open spec fn value_eq(&self, other: &Self) -> bool {
        *self == *other
    }

    fn equals(&self, other: &Self) -> (r: bool) {
        *self == *other
    }
}

/// Trust classification of a value's origin.
#[derive(Clone, Copy, Debug, PartialEq, Eq, Structural)]
pub enum TrustClass {
    SdkProvided,
    HostProvided,
    UserProvided,
    ProviderProvided,
    ToolProvided,
    Untrusted,
}

impl crate::domain::ValueEq for TrustClass {
    open spec fn value_eq(&self, other: &Self) -> bool {
        *self == *other
    }

    fn equals(&self, other: &Self) -> (r: bool) {
        *self == *other
    }
}

/// Kind of entity an entity reference points at.
#[derive(Clone, Copy, Debug, PartialEq, Eq, Structural)]
pub enum EntityKind {
    Run,
    Turn,
    Agent,
    Message,
    Effect,
    ApprovalRequest,
    ToolCall,
    Content,
    Artifact,
    ContextContribution,
    ContextItem,
    StreamRule,
    OutputDelivery,
    Hook,
    ExtensionAction,
    SubagentRun,
    Policy,
}

impl crate::domain::ValueEq for EntityKind {
    open spec fn value_eq(&self, other: &Self) -> bool {
        *self == *other
    }

    fn equals(&self, other: &Self) -> (r: bool) {
        *self == *other
    }
}

/// Kind of source that produced a value.
#[derive(Clone, Copy, Debug, PartialEq, Eq, Structural)]
pub enum SourceKind {
    Sdk,
    Host,
    User,
    Provider,
    Tool,
    Hook,
    Extension,
    Subagent,
}

impl crate::domain::ValueEq for SourceKind {
    open spec fn value_eq(&self, other: &Self) -> bool {
        *self == *other
    }

    fn equals(&self, other: &Self) -> (r: bool) {
        *self == *other
    }
}

/// Kind of destination a value is addressed to.
#[derive(Clone, Copy, Debug, PartialEq, Eq, Structural)]
pub enum DestinationKind {
    Provider,
    Host,
    User,
    Tool,
    OutputSink,
    Journal,
    Telemetry,
}

impl crate::domain::ValueEq for DestinationKind {
    open spec fn value_eq(&self, other: &Self) -> bool {
        *self == *other
    }

    fn equals(&self, other: &Self) -> (r: bool) {
        *self == *other
    }
}

impl DestinationKind {
    /// The variant name, as the derived `Debug` output spells it.
    pub open spec fn debug_name_spec(self) -> Seq<char> {
        match self {
            DestinationKind::Provider => "Provider"@,
            DestinationKind::Host => "Host"@,
            DestinationKind::User => "User"@,
            DestinationKind::Tool => "Tool"@,
            DestinationKind::OutputSink => "OutputSink"@,
            DestinationKind::Journal => "Journal"@,
            DestinationKind::Telemetry => "Telemetry"@,
        }
    }

    /// Returns the variant name, as the derived `Debug` output spells it.
    pub fn debug_name(&self) -> (res: &'static str)
        ensures
            res@ == self.debug_name_spec(),
    {
        match self {
            DestinationKind::Provider => "Provider",
            DestinationKind::Host => "Host",
            DestinationKind::User => "User",
            DestinationKind::Tool => "Tool",
            DestinationKind::OutputSink => "OutputSink",
            DestinationKind::Journal => "Journal",
            DestinationKind::Telemetry => "Telemetry",
        }
    }
}

/// Kind of policy a policy reference names.
#[derive(Clone, Copy, Debug, PartialEq, Eq, Structural)]
pub enum PolicyKind {
    Context,
    Privacy,
    Redaction,
    RuntimePackage,
    Approval,
    Output,
    Tool,
}

impl crate::domain::ValueEq for PolicyKind {
    open spec fn value_eq(&self, other: &Self) -> bool {
        *self == *other
    }

    fn equals(&self, other: &Self) -> (r: bool) {
        *self == *other
    }
}

/// Kind of SDK error.
#[derive(Clone, Copy, Debug, PartialEq, Eq, Structural)]
pub enum AgentErrorKind {
    ContractViolation,
    MissingRequiredField,
    ProjectionFailure,
    StructuredOutputFailure,
}

impl crate::domain::ValueEq for AgentErrorKind {
    open spec fn value_eq(&self, other: &Self) -> bool {
        *self == *other
    }

    fn equals(&self, other: &Self) -> (r: bool) {
        *self == *other
    }
}

/// Whether a failed operation may be retried.
#[derive(Clone, Copy, Debug, PartialEq, Eq, Structural)]
pub enum RetryClassification {
    Retryable,
    NotRetryable,
    RepairNeeded,
}

impl crate::domain::ValueEq for RetryClassification {
    open spec fn value_eq(&self, other: &Self) -> bool {
        *self == *other
    }

    fn equals(&self, other: &Self) -> (r: bool) {
        *self == *other
    }
}

/// Reason an identifier was rejected.
#[derive(Debug)]
pub enum IdValidationError {
    Empty,
    TooLong { max: usize, actual: usize },
    ControlCharacter { index: usize },
    Whitespace { index: usize },
}

impl Clone for IdValidationError {
    fn clone(&self) -> (res: Self)
        ensures
            res == *self,
    {
        match self {
            IdValidationError::Empty => IdValidationError::Empty,
            IdValidationError::TooLong { max, actual } => { IdValidationError::TooLong { max: *max, actual: *actual } }
            IdValidationError::ControlCharacter { index } => { IdValidationError::ControlCharacter { index: *index } }
            IdValidationError::Whitespace { index } => { IdValidationError::Whitespace { index: *index } }
        }
    }
}

/// Reference to a policy by kind, identifier, and optional version.
#[derive(Debug)]
pub struct PolicyRef {
    pub kind: PolicyKind,
    pub id: String,
    pub version: Option<String>,
}

impl Clone for PolicyRef {
    fn clone(&self) -> (res: Self)
        ensures
            res == *self,
    {
        PolicyRef {
            kind: self.kind,
            id: self.id.clone(),
            version: self.version.clone(),
        }
    }
}

/// Label of the source of a value; it fetches nothing by itself.
#[derive(Debug)]
pub struct SourceRef {
    pub kind: SourceKind,
    pub id: String,
}

impl Clone for SourceRef {
    fn clone(&self) -> (res: Self)
        ensures
            res == *self,
    {
        SourceRef {
            kind: self.kind,
            id: self.id.clone(),
        }
    }
}

impl crate::domain::ValueEq for SourceRef {
    open spec fn value_eq(&self, other: &Self) -> bool {
        &&& self.kind == other.kind
        &&& self.id@ == other.id@
    }

    fn equals(&self, other: &Self) -> (r: bool) {
        if !(self.kind == other.kind) { return false; }
        if !(self.id == other.id) { return false; }
        true
    }
}

/// Label of the destination of a value; it delivers nothing by itself.
#[derive(Debug)]
pub struct DestinationRef {
    pub kind: DestinationKind,
    pub id: String,
}

impl Clone for DestinationRef {
    fn clone(&self) -> (res: Self)
        ensures
            res == *self,
    {
        DestinationRef {
            kind: self.kind,
            id: self.id.clone(),
        }
    }
}

impl crate::domain::ValueEq for DestinationRef {
    open spec fn value_eq(&self, other: &Self) -> bool {
        &&& self.kind == other.kind
        &&& self.id@ == other.id@
    }

    fn equals(&self, other: &Self) -> (r: bool) {
        if !(self.kind == other.kind) { return false; }
        if !(self.id == other.id) { return false; }
        true
    }
}

/// Reference to an entity by kind and identifier.
#[derive(Debug)]
pub struct EntityRef {
    pub kind: EntityKind,
    pub id: String,
}

impl Clone for EntityRef {
    fn clone(&self) -> (res: Self)
        ensures
            res == *self,
    {
        EntityRef {
            kind: self.kind,
            id: self.id.clone(),
        }
    }
}

impl crate::domain::ValueEq for EntityRef {
    open spec fn value_eq(&self, other: &Self) -> bool {
        &&& self.kind == other.kind
        &&& self.id@ == other.id@
    }

    fn equals(&self, other: &Self) -> (r: bool) {
        if !(self.kind == other.kind) { return false; }
        if !(self.id == other.id) { return false; }
        true
    }
}

/// One correlation key and value.
#[derive(Debug)]
pub struct CorrelationEntry {
    pub key: CorrelationKey,
    pub value: String,
}

impl Clone for CorrelationEntry {
    fn clone(&self) -> (res: Self)
        ensures
            res == *self,
    {
        CorrelationEntry {
            key: self.key.clone(),
            value: self.value.clone(),
        }
    }
}

/// Typed SDK error: kind, retry classification, and a redacted message.
#[derive(Debug)]
pub struct AgentError {
    pub kind: AgentErrorKind,
    pub retry: RetryClassification,
    pub message: String,
}

impl Clone for AgentError {
    fn clone(&self) -> (res: Self)
        ensures
            res == *self,
    {
        AgentError {
            kind: self.kind,
            retry: self.retry,
            message: self.message.clone(),
        }
    }
}

/// Exec equality of values whose spec equality is `value_eq`.
pub trait ValueEq: Sized {
    spec fn value_eq(&self, other: &Self) -> bool;

    fn equals(&self, other: &Self) -> (r: bool)
        ensures
            r == self.value_eq(other),
    ;
}

/// Longest identifier, in UTF-8 bytes.
pub const MAX_ID_LEN: usize = 256;

/// Unicode control characters (general category Cc), as `char::is_control` defines them.
pub open spec fn is_control_char(c: char) -> bool {
    (c as u32) < 0x20 || (0x7f <= (c as u32) && (c as u32) <= 0x9f)
}

/// Characters an identifier may not hold.
pub open spec fn is_identifier_breaking(c: char) -> bool {
    is_control_char(c) || c == ' '
}

/// Index of the first identifier-breaking character at or after `i`, or -1.
pub open spec fn first_breaking_from(s: Seq<char>, i: int) -> int
    decreases s.len() - i,
{
    if i < 0 || i >= s.len() {
        -1
    } else if is_identifier_breaking(s[i]) {
        i
    } else {
        first_breaking_from(s, i + 1)
    }
}

/// Byte offset of character `i` in the UTF-8 encoding of `s`.
pub open spec fn byte_offset(s: Seq<char>, i: int) -> nat {
    vstd::utf8::encode_utf8(s.subrange(0, i)).len()
}

/// Whether `s` is a valid identifier: nonempty, at most `MAX_ID_LEN` UTF-8 bytes,
/// without control characters or spaces. The error names the first violation.
pub open spec fn identifier_check(s: Seq<char>) -> Result<(), IdValidationError> {
    let len = vstd::utf8::encode_utf8(s).len();
    if s.len() == 0 {
        Err(IdValidationError::Empty)
    } else if len > MAX_ID_LEN {
        Err(IdValidationError::TooLong { max: MAX_ID_LEN, actual: len as usize })
    } else {
        let i = first_breaking_from(s, 0);
        if i < 0 {
            Ok(())
        } else if is_control_char(s[i]) {
            Err(IdValidationError::ControlCharacter { index: byte_offset(s, i) as usize })
        } else {
            Err(IdValidationError::Whitespace { index: byte_offset(s, i) as usize })
        }
    }
}

proof fn lemma_first_breaking_skip(s: Seq<char>, i: int)
    requires
        0 <= i < s.len(),
        !is_identifier_breaking(s[i]),
    ensures
        first_breaking_from(s, i) == first_breaking_from(s, i + 1),
{
}

/// The UTF-8 encoding of `s` has between one and four bytes per character.
pub proof fn lemma_encode_utf8_len_bounds(s: Seq<char>)
    ensures
        s.len() <= vstd::utf8::encode_utf8(s).len() <= 4 * s.len(),
    decreases s.len(),
{
    if s.len() > 0 {
        lemma_encode_utf8_len_bounds(s.drop_first());
        let e = vstd::utf8::encode_scalar(s[0] as u32);
        assert(1 <= e.len() <= 4);
    }
}

/// Whether `c` is a Unicode control character.
pub fn char_is_control(c: char) -> (r: bool)
    ensures
        r == is_control_char(c),
{
    let u = c as u32;
    u < 0x20 || (0x7f <= u && u <= 0x9f)
}

/// Checks `value` against `identifier_check`.
pub fn validate_identifier(value: &str) -> (r: Result<(), IdValidationError>)
    ensures
        r == identifier_check(value@),
{
    let n = value.unicode_len();
    if n == 0 {
        return Err(IdValidationError::Empty);
    }
    proof {
        lemma_encode_utf8_len_bounds(value@);
    }
    let byte_len = value.len();
    if n > MAX_ID_LEN || byte_len > MAX_ID_LEN {
        return Err(IdValidationError::TooLong { max: MAX_ID_LEN, actual: byte_len });
    }
    let mut i: usize = 0;
    while i < n
        invariant
            n == value@.len(),
            n > 0,
            vstd::utf8::encode_utf8(value@).len() <= MAX_ID_LEN,
            0 <= i <= n,
            first_breaking_from(value@, 0) == first_breaking_from(value@, i as int),
        decreases n - i,
    {
        let c = value.get_char(i);
        if char_is_control(c) || c == ' ' {
            let prefix = value.substring_char(0, i);
            let index = prefix.len();
            proof {
                assert(first_breaking_from(value@, i as int) == i as int);
            }
            if char_is_control(c) {
                return Err(IdValidationError::ControlCharacter { index });
            } else {
                return Err(IdValidationError::Whitespace { index });
            }
        }
        proof {
            lemma_first_breaking_skip(value@, i as int);
        }
        i = i + 1;
    }
    Ok(())
}

/// Message of a missing-field error.
pub open spec fn missing_field_message(field: Seq<char>) -> Seq<char> {
    "missing required field: "@ + field
}

impl AgentError {
    /// Builds an error from its parts.
    pub fn new(kind: AgentErrorKind, retry: RetryClassification, message: String) -> (res: Self)
        ensures
            res.kind == kind,
            res.retry == retry,
            res.message == message,
    {
        AgentError { kind, retry, message }
    }

    /// The error a missing required field produces.
    pub open spec fn missing_required_field_spec(field: Seq<char>) -> (AgentErrorKind, RetryClassification, Seq<char>) {
        (AgentErrorKind::MissingRequiredField, RetryClassification::NotRetryable, missing_field_message(field))
    }

    /// Whether this error is the one `missing_required_field(field)` builds.
    pub open spec fn is_missing_field(&self, field: Seq<char>) -> bool {
        (self.kind, self.retry, self.message@) == Self::missing_required_field_spec(field)
    }

    /// Whether this error is the contract violation `contract_violation(message)` builds.
    pub open spec fn is_contract_violation(&self, message: Seq<char>) -> bool {
        &&& self.kind == AgentErrorKind::ContractViolation
        &&& self.retry == RetryClassification::NotRetryable
        &&& self.message@ == message
    }

    /// A required field was missing; not retryable.
    pub fn missing_required_field(field: &str) -> (res: Self)
        ensures
            res.is_missing_field(field@),
    {
        let mut message = String::from_str("missing required field: ");
        message.append(field);
        AgentError {
            kind: AgentErrorKind::MissingRequiredField,
            retry: RetryClassification::NotRetryable,
            message,
        }
    }

    /// A contract was violated; not retryable.
    pub fn contract_violation(message: &str) -> (res: Self)
        ensures
            res.is_contract_violation(message@),
    {
        AgentError {
            kind: AgentErrorKind::ContractViolation,
            retry: RetryClassification::NotRetryable,
            message: String::from_str(message),
        }
    }
}

impl PolicyRef {
    /// A runtime-package policy reference with the given identifier and no version.
    pub fn new(id: &str) -> (res: Self)
        ensures
            res.kind == PolicyKind::RuntimePackage,
            res.id@ == id@,
            res.version is None,
    {
        PolicyRef { kind: PolicyKind::RuntimePackage, id: String::from_str(id), version: None }
    }

    /// A policy reference of the given kind and identifier, with no version.
    pub fn with_kind(kind: PolicyKind, id: &str) -> (res: Self)
        ensures
            res.kind == kind,
            res.id@ == id@,
            res.version is None,
    {
        PolicyRef { kind, id: String::from_str(id), version: None }
    }

    /// Returns the identifier text.
    pub fn as_str(&self) -> (res: &str)
        ensures
            res@ == self.id@,
    {
        self.id.as_str()
    }
}

impl ValueEq for PolicyRef {
    open spec fn value_eq(&self, other: &Self) -> bool {
        &&& self.kind == other.kind
        &&& self.id@ == other.id@
        &&& self.version.is_some() == other.version.is_some()
        &&& self.version.is_some() ==> self.version.unwrap()@ == other.version.unwrap()@
    }

    fn equals(&self, other: &Self) -> (r: bool) {
        if self.kind != other.kind || self.id != other.id {
            return false;
        }
        match (&self.version, &other.version) {
            (Some(a), Some(b)) => *a == *b,
            (None, None) => true,
            _ => false,
        }
    }
}

impl SourceRef {
    /// A source label of the given kind.
    pub fn with_kind(kind: SourceKind, id: &str) -> (res: Self)
        ensures
            res.kind == kind,
            res.id@ == id@,
    {
        SourceRef { kind, id: String::from_str(id) }
    }

    /// A host source label.
    pub fn new(id: &str) -> (res: Self)
        ensures
            res.kind == SourceKind::Host,
            res.id@ == id@,
    {
        SourceRef { kind: SourceKind::Host, id: String::from_str(id) }
    }
}

impl DestinationRef {
    /// A destination label of the given kind.
    pub fn with_kind(kind: DestinationKind, id: &str) -> (res: Self)
        ensures
            res.kind == kind,
            res.id@ == id@,
    {
        DestinationRef { kind, id: String::from_str(id) }
    }

    /// Returns the identifier text.
    pub fn as_str(&self) -> (res: &str)
        ensures
            res@ == self.id@,
    {
        self.id.as_str()
    }
}

impl EntityRef {
    /// A reference to the entity of the given kind and identifier.
    pub fn new(kind: EntityKind, id: &str) -> (res: Self)
        ensures
            res.kind == kind,
            res.id@ == id@,
    {
        EntityRef { kind, id: String::from_str(id) }
    }

    /// A reference to a run.
    pub fn run(run_id: &RunId) -> (res: Self)
        ensures
            res.kind == EntityKind::Run,
            res.id@ == run_id@,
    {
        EntityRef::new(EntityKind::Run, run_id.as_str())
    }

    /// A reference to a message.
    pub fn message(message_id: &MessageId) -> (res: Self)
        ensures
            res.kind == EntityKind::Message,
            res.id@ == message_id@,
    {
        EntityRef::new(EntityKind::Message, message_id.as_str())
    }
}

impl AgentError {
    /// Kind, retry classification and message text of this error.
    pub open spec fn parts(&self) -> (AgentErrorKind, RetryClassification, Seq<char>) {
        (self.kind, self.retry, self.message@)
    }

    /// The parts of the error `contract_violation(message)` builds.
    pub open spec fn contract_violation_spec(message: Seq<char>) -> (AgentErrorKind, RetryClassification, Seq<char>) {
        (AgentErrorKind::ContractViolation, RetryClassification::NotRetryable, message)
    }
}

/// The outcome of a check, with the error taken by its parts.
pub open spec fn outcome_parts(outcome: Result<(), AgentError>) -> Result<(), (AgentErrorKind, RetryClassification, Seq<char>)> {
    match outcome {
        Ok(()) => Ok(()),
        Err(e) => Err(e.parts()),
    }
}

/// Characters of generated identifiers: ASCII letters and digits, `.` and `_`.
pub open spec fn is_plain_id_char(c: char) -> bool {
    ('a' <= c && c <= 'z') || ('A' <= c && c <= 'Z') || ('0' <= c && c <= '9') || c == '.' || c == '_'
}

/// Visible ASCII characters: neither control characters nor spaces.
pub open spec fn is_visible_ascii(c: char) -> bool {
    '!' <= c && c <= '~'
}

proof fn lemma_no_breaking_from(s: Seq<char>, i: int)
    requires
        0 <= i <= s.len(),
        forall|k: int| 0 <= k < s.len() ==> is_visible_ascii(#[trigger] s[k]),
    ensures
        first_breaking_from(s, i) == -1,
    decreases s.len() - i,
{
    if i < s.len() {
        assert(is_visible_ascii(s[i]));
        lemma_no_breaking_from(s, i + 1);
    }
}

/// A nonempty sequence of at most `MAX_ID_LEN` visible ASCII characters is a valid
/// identifier.
pub proof fn lemma_visible_identifier(s: Seq<char>)
    requires
        0 < s.len() <= MAX_ID_LEN,
        forall|k: int| 0 <= k < s.len() ==> is_visible_ascii(#[trigger] s[k]),
    ensures
        identifier_check(s) is Ok,
{
    assert(vstd::utf8::is_ascii_chars(s)) by {
        assert forall|i: int| 0 <= i < s.len() implies '\0' <= #[trigger] s[i] <= '\u{7f}' by {
            assert(is_visible_ascii(s[i]));
        }
    }
    vstd::utf8::is_ascii_chars_encode_utf8(s);
    lemma_no_breaking_from(s, 0);
}

/// A nonempty sequence of at most `MAX_ID_LEN` plain characters is a valid identifier.
pub proof fn lemma_plain_identifier(s: Seq<char>)
    requires
        0 < s.len() <= MAX_ID_LEN,
        forall|k: int| 0 <= k < s.len() ==> is_plain_id_char(#[trigger] s[k]),
    ensures
        identifier_check(s) is Ok,
{
    assert forall|k: int| 0 <= k < s.len() implies is_visible_ascii(#[trigger] s[k]) by {
        assert(is_plain_id_char(s[k]));
    }
    lemma_visible_identifier(s);
}

} // verus!
