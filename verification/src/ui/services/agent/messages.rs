//! Messages between the chat view and the background agent.

use vstd::prelude::*;

use crate::ui::permission_modal::{PermissionRequest, UserQuestionEvent};

verus! {

/// Requests from the chat view to the agent.
#[derive(Debug, Clone)]
pub enum AgentRequest {
    /// Start a turn with a user message and files to attach.
    Chat { content: String, files: Vec<std::path::PathBuf> },
    /// Cancel the turn in flight, if any.
    Cancel,
    /// Change the working directory of tool execution.
    SetWorkingDir(std::path::PathBuf),
    /// Clear the conversation.
    ClearHistory,
    /// Switch provider (e.g. `anthropic`, `openai`, `deepseek`, `ollama`).
    SetProvider(String),
    /// Switch model.
    SetModel(String),
    /// Replace the API key.
    SetApiKey(String),
    /// Replace the API base URL.
    SetBaseUrl(String),
    /// Replace key and base URL together.
    SetApiConfig { api_key: String, base_url: String },
}

/// Responses from the agent to the chat view.
pub enum AgentResponse {
    /// A streaming event of the current turn.
    TurnEvent(crate::agent::turn::TurnEvent),
    /// A tool asks for the user's approval.
    PermissionRequest(PermissionRequest),
    /// A tool asks the user a question.
    UserQuestion(UserQuestionEvent),
    /// The agent hit an error.
    Error(String),
}

/// A tool call to execute.
#[derive(Debug, Clone)]
pub struct ToolCallData {
    pub id: String,
    pub name: String,
    pub input: serde_json::Value,
}

/// A tool result returned to the agent.
#[derive(Debug, Clone)]
pub struct ToolResultData {
    pub tool_use_id: String,
    pub content: String,
    pub is_error: bool,
}

/// Who a displayed message comes from.
#[derive(Debug, Clone, Copy, PartialEq, Eq, Structural)]
pub enum MessageRole {
    User,
    Assistant,
    System,
    ToolCall,
    ToolResult,
}

} // verus!
