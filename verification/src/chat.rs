//! Messages of `POST /v1/chat/completions`: roles, contents, tool calls.

use vstd::prelude::*;

verus! {

/// Role of a message in the conversation.
#[derive(Debug, Clone, Copy, PartialEq, Eq, Hash, Structural)]
pub enum Role {
    /// System instructions (often at the head of the conversation).
    System,
    /// User message.
    User,
    /// Answer of the model.
    Assistant,
    /// Result of a tool call.
    Tool,
    /// Developer role (`OpenAI` Responses API).
    Developer,
}

/// Content of a message: plain text or multimodal parts.
#[derive(Debug, Clone)]
pub enum ChatContent {
    /// Plain text.
    Text(String),
    /// Multimodal parts (text and images).
    Parts(Vec<ContentPart>),
}

impl From<String> for ChatContent {
    fn from(s: String) -> (res: Self) {
        ChatContent::Text(s)
    }
}

impl vstd::std_specs::convert::FromSpecImpl<String> for ChatContent {
    open spec fn obeys_from_spec() -> bool {
        true
    }

    open spec fn from_spec(s: String) -> Self {
        ChatContent::Text(s)
    }
}

impl<'a> From<&'a str> for ChatContent {
    fn from(s: &'a str) -> (res: Self)
        ensures
            res matches ChatContent::Text(t) && t@ == s@,
    {
        ChatContent::Text(s.to_owned())
    }
}

/// The conversion from `&str` has no spec-level form: a `String` is not
/// determined by its characters in the spec model, so no spec function can
/// name the one that `from` returns. What `from` gives is stated in its own
/// `ensures`: the text content holding the characters of `s`.
impl<'a> vstd::std_specs::convert::FromSpecImpl<&'a str> for ChatContent {
    open spec fn obeys_from_spec() -> bool {
        false
    }

    open spec fn from_spec(s: &'a str) -> Self {
        ChatContent::Text(choose|t: String| t@ == s@)
    }
}

/// One part of a multimodal content.
#[derive(Debug, Clone)]
pub enum ContentPart {
    /// Text block.
    Text {
        /// Text of the part.
        text: String,
    },
    /// Reference to an image (URL or base64 data URI).
    ImageUrl {
        /// The referenced image.
        image_url: ImageUrl,
    },
}

/// URL of an image (reference or base64 data URI).
#[derive(Debug, Clone)]
pub struct ImageUrl {
    /// URL or data URI (`data:image/png;base64,...`).
    pub url: String,
    /// Detail hint (`auto`, `low`, `high`) that some vision models accept.
    pub detail: Option<String>,
}

/// A message of a conversation (input or output).
#[derive(Debug, Clone)]
pub struct ChatMessage {
    /// Role of the speaker.
    pub role: Role,
    /// Content (may be absent when the message is a pure tool call).
    pub content: Option<ChatContent>,
    /// Optional name (to tell several users or tools apart).
    pub name: Option<String>,
    /// Refusal of the model (some moderated models give one).
    pub refusal: Option<String>,
    /// Attached annotations (URL citations, ...).
    pub annotations: Option<Vec<Annotation>>,
    /// Identifier of the tool call that this message answers (role `tool`).
    pub tool_call_id: Option<String>,
    /// Tool calls made by the model (role `assistant`).
    pub tool_calls: Option<Vec<ToolCall>>,
}

/// `m` is a plain text message of role `role` holding `text`, every other
/// field unset.
pub open spec fn is_text_message(m: ChatMessage, role: Role, text: Seq<char>) -> bool {
    &&& m.role == role
    &&& m.content matches Some(ChatContent::Text(t)) && t@ == text
    &&& m.name is None
    &&& m.refusal is None
    &&& m.annotations is None
    &&& m.tool_call_id is None
    &&& m.tool_calls is None
}

impl ChatMessage {
    fn text_message(role: Role, content: &str) -> (res: Self)
        ensures
            is_text_message(res, role, content@),
    {
        ChatMessage {
            role,
            content: Some(ChatContent::Text(content.to_owned())),
            name: None,
            refusal: None,
            annotations: None,
            tool_call_id: None,
            tool_calls: None,
        }
    }

    /// A plain text message of role `user`.
    pub fn user(content: &str) -> (res: Self)
        ensures
            is_text_message(res, Role::User, content@),
    {
        Self::text_message(Role::User, content)
    }

    /// A plain text message of role `system`.
    pub fn system(content: &str) -> (res: Self)
        ensures
            is_text_message(res, Role::System, content@),
    {
        Self::text_message(Role::System, content)
    }

    /// A plain text message of role `assistant`.
    pub fn assistant(content: &str) -> (res: Self)
        ensures
            is_text_message(res, Role::Assistant, content@),
    {
        Self::text_message(Role::Assistant, content)
    }
}

/// Source citation attached to a message.
#[derive(Debug, Clone)]
pub enum Annotation {
    /// Citation of a URL with the range of characters it covers.
    UrlCitation {
        /// The citation.
        url_citation: AnnotationUrlCitation,
    },
}

/// A URL citation.
#[derive(Debug, Clone)]
pub struct AnnotationUrlCitation {
    /// End index (exclusive) in the text content.
    pub end_index: u32,
    /// Start index (inclusive) in the text content.
    pub start_index: u32,
    /// Title of the cited page.
    pub title: String,
    /// Cited URL.
    pub url: String,
}

/// A tool call made by the model: a structured function or a custom tool.
#[derive(Debug, Clone)]
pub enum ToolCall {
    /// Structured function call.
    Function {
        /// Unique identifier of the call.
        id: String,
        /// The called function.
        function: FunctionDetails,
    },
    /// Custom tool call.
    Custom {
        /// Unique identifier of the call.
        id: String,
        /// The custom tool.
        custom: CustomDetails,
    },
}

/// A function call.
#[derive(Debug, Clone)]
pub struct FunctionDetails {
    /// Name of the function.
    pub name: String,
    /// JSON-encoded arguments (to parse on the caller's side).
    pub arguments: String,
}

/// A custom tool call.
#[derive(Debug, Clone)]
pub struct CustomDetails {
    /// Name of the tool.
    pub name: String,
    /// Raw input given by the model.
    pub input: String,
}

/// Why a generation ended.
#[derive(Debug, Clone, Copy, PartialEq, Eq, Hash, Structural)]
pub enum FinishReason {
    /// Natural stop (end of sequence).
    Stop,
    /// Token limit reached.
    Length,
    /// Tool calls returned.
    ToolCalls,
    /// Blocked by the content filter.
    ContentFilter,
    /// Function call (legacy).
    FunctionCall,
}

/// Stop conditions: one word or a list.
#[derive(Debug, Clone)]
pub enum Stop {
    /// A single stop pattern.
    Single(String),
    /// Several patterns (generation stops at the first one met).
    Many(Vec<String>),
}

/// Service tier (`OpenAI`; rarely used by self-hosted gateways).
#[derive(Debug, Clone, Copy, PartialEq, Eq, Hash, Structural)]
pub enum ServiceTier {
    /// Auto.
    Auto,
    /// Default.
    Default,
    /// Flex (best effort, variable latency).
    Flex,
    /// Scale.
    Scale,
    /// Priority.
    Priority,
}

} // verus!

verus! {

impl crate::client::Client {
    /// The URL of `POST /v1/chat/completions` (plain and streamed).
    pub fn chat_completions_url(&self) -> (res: Result<String, crate::error::Error>)
        ensures
            crate::client::url_outcome(
                res,
                crate::client::endpoint_url(self@.base_url, "/v1/chat/completions"@),
            ),
    {
        self.endpoint("/v1/chat/completions")
    }
}

} // verus!
