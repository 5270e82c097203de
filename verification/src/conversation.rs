//! The conversation log kept for the delegated assistant action.
//!
//! The assistant exchange itself (the request, the tool-call loop, the
//! transport) is the caller's collaborator; what is kept here is the
//! context: an identified, timestamped list of messages that grows by one
//! message at a time and can be cleared to a fresh identity.

use vstd::prelude::*;

verus! {

/// One message of the exchange: who spoke, what was said, and any tool
/// calls the assistant requested.
#[derive(Clone, Debug)]
pub struct ChatMessage {
    pub role: String,
    pub content: String,
    pub tool_calls: Option<Vec<ToolCall>>,
}

/// A tool call requested by the assistant.
#[derive(Clone, Debug)]
pub struct ToolCall {
    pub id: String,
    pub kind: String,
    pub function: FunctionCall,
}

/// The function a tool call names, with its raw argument text.
#[derive(Clone, Debug)]
pub struct FunctionCall {
    pub name: String,
    pub arguments: String,
}

/// What the assistant answered: plain text to show, or a request to run a
/// command, with its explanation and the tool call it answers.
#[derive(Clone, Debug)]
pub enum LlmResponse {
    TextResponse { content: String },
    CommandRequest { command: String, explanation: String, tool_call_id: String },
}

/// Relies on uuid::Uuid::new_v4 and its hyphenated display form: a fresh
/// random identifier, always thirty-six characters.
#[verifier::external_body]
fn fresh_conversation_id() -> (r: String)
    ensures
        r@.len() == 36,
{
    uuid::Uuid::new_v4().to_string()
}

/// Relies on chrono::Utc::now for the current time, in milliseconds since
/// the epoch.
#[verifier::external_body]
fn now_timestamp_millis() -> (r: i64) {
    chrono::Utc::now().timestamp_millis()
}

/// The conversation context: a fresh identity, a creation time, and the
/// messages so far in order.
#[derive(Clone, Debug)]
pub struct ConversationContext {
    pub id: String,
    pub messages: Vec<ChatMessage>,
    pub created_at: i64,
}

impl ConversationContext {
    /// An empty context under a fresh identifier.
    pub fn new() -> (c: ConversationContext)
        ensures
            c.messages@.len() == 0,
            c.id@.len() == 36,
    {
        ConversationContext {
            id: fresh_conversation_id(),
            messages: Vec::new(),
            created_at: now_timestamp_millis(),
        }
    }

    /// Append one message; everything already logged is kept in place.
    pub fn add_message(&mut self, message: ChatMessage)
        ensures
            final(self).messages@ == old(self).messages@.push(message),
            final(self).id == old(self).id,
            final(self).created_at == old(self).created_at,
    {
        self.messages.push(message);
    }

    /// Drop every message and start over under a fresh identifier.
    pub fn clear(&mut self)
        ensures
            final(self).messages@.len() == 0,
            final(self).id@.len() == 36,
    {
        self.messages.clear();
        self.id = fresh_conversation_id();
        self.created_at = now_timestamp_millis();
    }
}

} // verus!
