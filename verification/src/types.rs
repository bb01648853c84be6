//! The typed records of the protocol and the client's error taxonomy.
//!
//! The records mirror the server's JSON shapes field for field; an optional
//! field that is `None` is omitted from the wire shape (see `wire`). Open-ended
//! JSON payloads (an event's payload, a tool's parameter schema) are carried
//! as their raw JSON text, so that every field the client's logic reads is a
//! plain value.

use vstd::prelude::*;

verus! {

/// One decoded unit of the chat event stream: its kind tag, the raw JSON text
/// of its payload, and the two control fields the dispatcher reads, extracted
/// from the payload when they are present as strings.
#[derive(Debug, PartialEq, Eq)]
pub struct ChatEvent {
    pub event_type: String,
    pub data: String,
    pub conversation_id: Option<String>,
    pub message: Option<String>,
}

/// Mathematical value of a `ChatEvent`.
pub struct EventModel {
    pub kind: Seq<char>,
    pub data: Seq<char>,
    pub conversation_id: Option<Seq<char>>,
    pub message: Option<Seq<char>>,
}

/// The value of an optional string, `None` kept as `None`.
pub open spec fn opt_view(o: Option<String>) -> Option<Seq<char>> {
    match o {
        Some(s) => Some(s@),
        None => None,
    }
}

impl View for ChatEvent {
    type V = EventModel;

    open spec fn view(&self) -> EventModel {
        EventModel {
            kind: self.event_type@,
            data: self.data@,
            conversation_id: opt_view(self.conversation_id),
            message: opt_view(self.message),
        }
    }
}

/// Message in a conversation.
#[derive(Clone, Debug, PartialEq, Eq)]
pub struct Message {
    pub role: String,
    pub content: String,
    pub tool_name: Option<String>,
    pub tool_args: Option<String>,
}

/// Conversation metadata.
#[derive(Clone, Debug, PartialEq, Eq)]
pub struct Conversation {
    pub id: String,
    pub title: String,
    pub created_at: String,
    pub updated_at: String,
}

/// OpenAPI target configuration. On the wire, `base_url` is `baseUrl`,
/// `spec_url` is `spec`, `auth_type` is `authType`, and every optional field
/// is omitted when `None`.
#[derive(Clone, Debug, PartialEq, Eq)]
pub struct Target {
    pub name: String,
    pub base_url: String,
    pub spec_url: Option<String>,
    pub auth_type: Option<String>,
    pub token: Option<String>,
    pub description: Option<String>,
}

/// Mathematical value of a `Target`.
pub struct TargetModel {
    pub name: Seq<char>,
    pub base_url: Seq<char>,
    pub spec_url: Option<Seq<char>>,
    pub auth_type: Option<Seq<char>>,
    pub token: Option<Seq<char>>,
    pub description: Option<Seq<char>>,
}

impl View for Target {
    type V = TargetModel;

    open spec fn view(&self) -> TargetModel {
        TargetModel {
            name: self.name@,
            base_url: self.base_url@,
            spec_url: opt_view(self.spec_url),
            auth_type: opt_view(self.auth_type),
            token: opt_view(self.token),
            description: opt_view(self.description),
        }
    }
}

/// Tool definition; `parameters` carries the raw JSON text of the tool's
/// parameter schema, if any.
#[derive(Clone, Debug, PartialEq, Eq)]
pub struct Tool {
    pub target_name: String,
    pub name: String,
    pub description: String,
    pub parameters: Option<String>,
}

/// Tool source metadata.
#[derive(Clone, Debug, PartialEq, Eq)]
pub struct ToolSource {
    pub name: String,
    pub tools: Vec<ToolInfo>,
}

/// One tool of a tool source.
#[derive(Clone, Debug, PartialEq, Eq)]
pub struct ToolInfo {
    pub name: String,
    pub display_name: String,
    pub description: String,
}

/// Tool configuration for a conversation.
#[derive(Clone, Debug, PartialEq, Eq)]
pub struct ToolConfig {
    pub enabled_sources: Option<Vec<String>>,
    pub disabled_tools: Option<Vec<String>>,
}

/// The values of an optional list of strings.
pub open spec fn opt_list_view(o: Option<Vec<String>>) -> Option<Seq<Seq<char>>> {
    match o {
        Some(v) => Some(v@.map_values(|s: String| s@)),
        None => None,
    }
}

/// Mathematical value of a `ToolConfig`.
pub struct ToolConfigModel {
    pub enabled_sources: Option<Seq<Seq<char>>>,
    pub disabled_tools: Option<Seq<Seq<char>>>,
}

impl View for ToolConfig {
    type V = ToolConfigModel;

    open spec fn view(&self) -> ToolConfigModel {
        ToolConfigModel {
            enabled_sources: opt_list_view(self.enabled_sources),
            disabled_tools: opt_list_view(self.disabled_tools),
        }
    }
}

/// LLM configuration.
#[derive(Clone, Debug, PartialEq, Eq)]
pub struct LLMConfig {
    pub api_base: String,
    pub api_key: String,
    pub model: String,
}

/// Mathematical value of an `LLMConfig`.
pub struct LLMConfigModel {
    pub api_base: Seq<char>,
    pub api_key: Seq<char>,
    pub model: Seq<char>,
}

impl View for LLMConfig {
    type V = LLMConfigModel;

    open spec fn view(&self) -> LLMConfigModel {
        LLMConfigModel { api_base: self.api_base@, api_key: self.api_key@, model: self.model@ }
    }
}

/// Proxy configuration.
#[derive(Clone, Debug, PartialEq, Eq)]
pub struct ProxyConfig {
    pub url: String,
}

/// LLM provider metadata.
#[derive(Clone, Debug, PartialEq, Eq)]
pub struct LLMProvider {
    pub name: String,
    pub api_base: String,
}

/// Target probe result.
#[derive(Clone, Debug, PartialEq, Eq)]
pub struct ProbeResult {
    pub found: bool,
    pub spec_url: Option<String>,
    pub tools: Option<usize>,
}

/// Proxy test result.
#[derive(Clone, Debug, PartialEq, Eq)]
pub struct ProxyTestResult {
    pub success: bool,
    pub error: Option<String>,
}

/// Model list response.
#[derive(Clone, Debug, PartialEq, Eq)]
pub struct ModelsResponse {
    pub models: Vec<String>,
}

/// The client's error taxonomy: a transport failure, a JSON shape mismatch,
/// or an API-level failure (non-success status, or a broken event stream),
/// each carrying a human-readable message.
#[derive(Clone, Debug, PartialEq, Eq)]
pub enum NLUIError {
    RequestFailed(String),
    JsonError(String),
    ApiError(String),
}

/// Mathematical value of an `NLUIError`.
pub enum ErrModel {
    RequestFailed(Seq<char>),
    JsonError(Seq<char>),
    ApiError(Seq<char>),
}

impl View for NLUIError {
    type V = ErrModel;

    open spec fn view(&self) -> ErrModel {
        match self {
            NLUIError::RequestFailed(m) => ErrModel::RequestFailed(m@),
            NLUIError::JsonError(m) => ErrModel::JsonError(m@),
            NLUIError::ApiError(m) => ErrModel::ApiError(m@),
        }
    }
}

/// The message an error carries.
pub open spec fn err_text(e: ErrModel) -> Seq<char> {
    match e {
        ErrModel::RequestFailed(m) => m,
        ErrModel::JsonError(m) => m,
        ErrModel::ApiError(m) => m,
    }
}

impl NLUIError {
    /// The human-readable message this error carries.
    pub fn message(&self) -> (m: &String)
        ensures
            m@ == err_text(self@),
    {
        match self {
            NLUIError::RequestFailed(m) => m,
            NLUIError::JsonError(m) => m,
            NLUIError::ApiError(m) => m,
        }
    }
}

} // verus!
