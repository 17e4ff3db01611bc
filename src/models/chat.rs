//! Chats and their messages.
use crate::text::str_eq;
use crate::models::account::JsonValue;
use crate::models::Pagination;
use crate::serde::naive_date::Instant;
use uuid::Uuid;
use vstd::prelude::*;

verus! {

/// Message type.
#[derive(Debug, Clone, Copy, PartialEq, Eq, Hash)]
pub enum MessageType {
    /// User message.
    UserMessage,
    /// Assistant message.
    AssistantMessage,
}

impl MessageType {
    /// The wire name of the value.
    pub open spec fn spec_name(self) -> Seq<char> {
        match self {
            MessageType::UserMessage => "user_message"@,
            MessageType::AssistantMessage => "assistant_message"@,
        }
    }

    /// Whether `s` names this value.
    pub open spec fn named_by(self, s: Seq<char>) -> bool {
        s == self.spec_name()
    }

    /// The wire name, as the value displays.
    pub fn to_string(&self) -> (r: String)
        ensures
            r@ == self.spec_name(),
    {
        match self {
            MessageType::UserMessage => "user_message".to_owned(),
            MessageType::AssistantMessage => "assistant_message".to_owned(),
        }
    }

    /// Reads a value from its wire name.
    pub fn from_name(s: &str) -> (r: Result<MessageType, ParseMessageTypeError>)
        ensures
            match r {
                Ok(v) => v.named_by(s@),
                Err(e) => (forall|v: MessageType| !#[trigger] v.named_by(s@)) && e.spec_text() == s@,
            },
    {
        if str_eq(s, "user_message") {
            Ok(MessageType::UserMessage)
        } else if str_eq(s, "assistant_message") {
            Ok(MessageType::AssistantMessage)
        } else {
            Err(ParseMessageTypeError(s.to_owned()))
        }
    }
}

impl std::str::FromStr for MessageType {
    type Err = ParseMessageTypeError;

    fn from_str(s: &str) -> Result<MessageType, ParseMessageTypeError> {
        MessageType::from_name(s)
    }
}

/// Error returned when parsing a `MessageType` from a string fails.
#[derive(Debug, Clone, PartialEq, Eq)]
pub struct ParseMessageTypeError(String);

impl ParseMessageTypeError {
    /// The text that was refused.
    pub closed spec fn spec_text(&self) -> Seq<char> {
        self.0@
    }

    /// The text that was refused.
    pub fn text(&self) -> (r: &str)
        ensures
            r@ == self.spec_text(),
    {
        self.0.as_str()
    }

    /// The error's message: `Invalid message type: ` and the refused text.
    pub fn to_string(&self) -> (r: String)
        ensures
            r@ == "Invalid message type: "@ + self.spec_text(),
    {
        "Invalid message type: ".to_owned().concat(self.0.as_str())
    }
}

/// Message role.
#[derive(Debug, Clone, Copy, PartialEq, Eq, Hash)]
pub enum MessageRole {
    /// User role.
    User,
    /// Assistant role.
    Assistant,
}

impl MessageRole {
    /// The wire name of the value.
    pub open spec fn spec_name(self) -> Seq<char> {
        match self {
            MessageRole::User => "user"@,
            MessageRole::Assistant => "assistant"@,
        }
    }

    /// Whether `s` names this value.
    pub open spec fn named_by(self, s: Seq<char>) -> bool {
        s == self.spec_name()
    }

    /// The wire name, as the value displays.
    pub fn to_string(&self) -> (r: String)
        ensures
            r@ == self.spec_name(),
    {
        match self {
            MessageRole::User => "user".to_owned(),
            MessageRole::Assistant => "assistant".to_owned(),
        }
    }

    /// Reads a value from its wire name.
    pub fn from_name(s: &str) -> (r: Result<MessageRole, ParseMessageRoleError>)
        ensures
            match r {
                Ok(v) => v.named_by(s@),
                Err(e) => (forall|v: MessageRole| !#[trigger] v.named_by(s@)) && e.spec_text() == s@,
            },
    {
        if str_eq(s, "user") {
            Ok(MessageRole::User)
        } else if str_eq(s, "assistant") {
            Ok(MessageRole::Assistant)
        } else {
            Err(ParseMessageRoleError(s.to_owned()))
        }
    }
}

impl std::str::FromStr for MessageRole {
    type Err = ParseMessageRoleError;

    fn from_str(s: &str) -> Result<MessageRole, ParseMessageRoleError> {
        MessageRole::from_name(s)
    }
}

/// Error returned when parsing a `MessageRole` from a string fails.
#[derive(Debug, Clone, PartialEq, Eq)]
pub struct ParseMessageRoleError(String);

impl ParseMessageRoleError {
    /// The text that was refused.
    pub closed spec fn spec_text(&self) -> Seq<char> {
        self.0@
    }

    /// The text that was refused.
    pub fn text(&self) -> (r: &str)
        ensures
            r@ == self.spec_text(),
    {
        self.0.as_str()
    }

    /// The error's message: `Invalid message role: ` and the refused text.
    pub fn to_string(&self) -> (r: String)
        ensures
            r@ == "Invalid message role: "@ + self.spec_text(),
    {
        "Invalid message role: ".to_owned().concat(self.0.as_str())
    }
}

/// Status of an AI response.
#[derive(Debug, Clone, Copy, PartialEq, Eq, Hash)]
pub enum AiResponseStatus {
    /// Pending.
    Pending,
    /// Complete.
    Complete,
    /// Failed.
    Failed,
}

impl AiResponseStatus {
    /// The wire name of the value.
    pub open spec fn spec_name(self) -> Seq<char> {
        match self {
            AiResponseStatus::Pending => "pending"@,
            AiResponseStatus::Complete => "complete"@,
            AiResponseStatus::Failed => "failed"@,
        }
    }

    /// Whether `s` names this value.
    pub open spec fn named_by(self, s: Seq<char>) -> bool {
        s == self.spec_name()
    }

    /// The wire name, as the value displays.
    pub fn to_string(&self) -> (r: String)
        ensures
            r@ == self.spec_name(),
    {
        match self {
            AiResponseStatus::Pending => "pending".to_owned(),
            AiResponseStatus::Complete => "complete".to_owned(),
            AiResponseStatus::Failed => "failed".to_owned(),
        }
    }

    /// Reads a value from its wire name.
    pub fn from_name(s: &str) -> (r: Result<AiResponseStatus, ParseAiResponseStatusError>)
        ensures
            match r {
                Ok(v) => v.named_by(s@),
                Err(e) => (forall|v: AiResponseStatus| !#[trigger] v.named_by(s@)) && e.spec_text() == s@,
            },
    {
        if str_eq(s, "pending") {
            Ok(AiResponseStatus::Pending)
        } else if str_eq(s, "complete") {
            Ok(AiResponseStatus::Complete)
        } else if str_eq(s, "failed") {
            Ok(AiResponseStatus::Failed)
        } else {
            Err(ParseAiResponseStatusError(s.to_owned()))
        }
    }
}

impl std::str::FromStr for AiResponseStatus {
    type Err = ParseAiResponseStatusError;

    fn from_str(s: &str) -> Result<AiResponseStatus, ParseAiResponseStatusError> {
        AiResponseStatus::from_name(s)
    }
}

/// Error returned when parsing an `AiResponseStatus` from a string fails.
#[derive(Debug, Clone, PartialEq, Eq)]
pub struct ParseAiResponseStatusError(String);

impl ParseAiResponseStatusError {
    /// The text that was refused.
    pub closed spec fn spec_text(&self) -> Seq<char> {
        self.0@
    }

    /// The text that was refused.
    pub fn text(&self) -> (r: &str)
        ensures
            r@ == self.spec_text(),
    {
        self.0.as_str()
    }

    /// The error's message: `Invalid AI response status: ` and the refused text.
    pub fn to_string(&self) -> (r: String)
        ensures
            r@ == "Invalid AI response status: "@ + self.spec_text(),
    {
        "Invalid AI response status: ".to_owned().concat(self.0.as_str())
    }
}

/// A tool call made while answering.
#[derive(Debug, Clone, PartialEq, Eq)]
pub struct ToolCall {
    /// Tool call identifier.
    pub id: Uuid,
    /// Function name.
    pub function_name: String,
    /// Function arguments.
    pub function_arguments: JsonValue,
    /// Function result.
    pub function_result: Option<JsonValue>,
    /// Creation time.
    pub created_at: Instant,
}

/// A message in a chat.
#[derive(Debug, Clone, PartialEq, Eq)]
pub struct Message {
    /// Message identifier.
    pub id: Uuid,
    /// Message type.
    pub message_type: MessageType,
    /// Message role.
    pub role: MessageRole,
    /// Message content.
    pub content: String,
    /// Model identifier.
    pub model: Option<String>,
    /// Creation time.
    pub created_at: Instant,
    /// Last update time.
    pub updated_at: Instant,
    /// Tool calls of the message.
    pub tool_calls: Option<Vec<ToolCall>>,
}

/// A message, with the state of its AI response.
#[derive(Debug, Clone, PartialEq, Eq)]
pub struct MessageResponse {
    /// Message identifier.
    pub id: Uuid,
    /// Message type.
    pub message_type: MessageType,
    /// Message role.
    pub role: MessageRole,
    /// Message content.
    pub content: String,
    /// Model identifier.
    pub model: Option<String>,
    /// Creation time.
    pub created_at: Instant,
    /// Last update time.
    pub updated_at: Instant,
    /// Tool calls of the message.
    pub tool_calls: Option<Vec<ToolCall>>,
    /// Chat identifier.
    pub chat_id: Uuid,
    /// Status of the AI response.
    pub ai_response_status: Option<AiResponseStatus>,
    /// AI response message.
    pub ai_response_message: Option<String>,
}

/// Base information of a chat.
#[derive(Debug, Clone, PartialEq, Eq)]
pub struct ChatResource {
    /// Chat identifier.
    pub id: Uuid,
    /// Chat title.
    pub title: String,
    /// Error message, if any.
    pub error: Option<String>,
    /// Creation time.
    pub created_at: Instant,
    /// Last update time.
    pub updated_at: Instant,
}

/// A chat with its message count.
#[derive(Debug, Clone, PartialEq, Eq)]
pub struct ChatSummary {
    /// Chat identifier.
    pub id: Uuid,
    /// Chat title.
    pub title: String,
    /// Error message, if any.
    pub error: Option<String>,
    /// Creation time.
    pub created_at: Instant,
    /// Last update time.
    pub updated_at: Instant,
    /// Number of messages.
    pub message_count: u32,
    /// Time of the last message.
    pub last_message_at: Option<Instant>,
}

/// A chat with its messages.
#[derive(Debug, Clone, PartialEq, Eq)]
pub struct ChatDetail {
    /// Chat identifier.
    pub id: Uuid,
    /// Chat title.
    pub title: String,
    /// Error message, if any.
    pub error: Option<String>,
    /// Creation time.
    pub created_at: Instant,
    /// Last update time.
    pub updated_at: Instant,
    /// Messages of the chat.
    pub messages: Vec<Message>,
    /// Pagination of the messages, if paginated.
    pub pagination: Option<Pagination>,
}

/// A list of chats.
#[derive(Debug, Clone)]
pub struct ChatCollection {
    /// The chats.
    pub chats: Vec<ChatSummary>,
}

/// Response to a retried message.
#[derive(Debug, Clone, PartialEq, Eq)]
pub struct RetryResponse {
    /// Response message.
    pub message: String,
    /// Message identifier.
    pub message_id: Uuid,
}

} // verus!
