//! Provider-neutral streaming events, stop reasons and capabilities.

use vstd::prelude::*;

use crate::types::{ContentBlock, UsageInfo};

verus! {

/// Why the model stopped generating.
#[derive(Debug, Clone)]
pub enum StopReason {
    EndTurn,
    StopSequence,
    MaxTokens,
    ToolUse,
    ContentFiltered,
    Other(String),
}

/// One event of a provider's streamed response.
#[derive(Debug, Clone)]
pub enum StreamEvent {
    MessageStart { id: String, model: String, usage: UsageInfo },
    ContentBlockStart { index: usize, content_block: ContentBlock },
    TextDelta { index: usize, text: String },
    ThinkingDelta { index: usize, thinking: String },
    ReasoningDelta { index: usize, reasoning: String },
    InputJsonDelta { index: usize, partial_json: String },
    SignatureDelta { index: usize, signature: String },
    ContentBlockStop { index: usize },
    MessageDelta { stop_reason: Option<StopReason>, usage: Option<UsageInfo> },
    MessageStop,
    Error { error_type: String, message: String },
}

/// How a provider expects the system prompt to be sent.
#[derive(Debug, Clone, Copy, PartialEq, Eq, Structural)]
pub enum SystemPromptStyle {
    TopLevel,
    SystemMessage,
    Unsupported,
}

/// What a provider supports.
#[derive(Debug, Clone, Copy, PartialEq, Eq, Structural)]
pub struct ProviderCapabilities {
    pub streaming: bool,
    pub tool_calling: bool,
    pub thinking: bool,
    pub image_input: bool,
    pub pdf_input: bool,
    pub audio_input: bool,
    pub video_input: bool,
    pub caching: bool,
    pub structured_output: bool,
    pub system_prompt_style: SystemPromptStyle,
}

} // verus!

verus! {

/// One block of a structured system prompt.
#[derive(Debug, Clone)]
pub struct SystemBlock {
    pub text: String,
}

/// A system prompt: plain text or a list of blocks.
#[derive(Debug, Clone)]
pub enum SystemPrompt {
    Text(String),
    Blocks(Vec<SystemBlock>),
}

/// Extended-thinking settings of a request.
#[derive(Debug, Clone, Copy, PartialEq, Eq, Structural)]
pub struct ThinkingConfig {
    pub budget_tokens: u32,
}

/// A provider-neutral request for one model response. (Sampling
/// temperature and nucleus parameters are left to each provider's default.)
#[derive(Debug, Clone)]
pub struct ProviderRequest {
    pub model: String,
    pub messages: Vec<crate::types::Message>,
    pub system_prompt: Option<SystemPrompt>,
    pub tools: Vec<crate::types::ToolDefinition>,
    pub max_tokens: u32,
    pub top_k: Option<u32>,
    pub stop_sequences: Vec<String>,
    pub thinking: Option<ThinkingConfig>,
    pub provider_options: serde_json::Value,
}

} // verus!
