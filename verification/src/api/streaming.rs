//! Events of the Anthropic Messages streaming wire format.

use vstd::prelude::*;

use crate::types::{ContentBlock, UsageInfo};

verus! {

/// Delta payload of a `content_block_delta` event.
#[derive(Debug, Clone)]
pub enum ContentDelta {
    TextDelta { text: String },
    ThinkingDelta { thinking: String },
    InputJsonDelta { partial_json: String },
    SignatureDelta { signature: String },
}

/// One server-sent event of the Anthropic Messages stream.
#[derive(Debug, Clone)]
pub enum AnthropicStreamEvent {
    MessageStart { id: String, model: String, usage: UsageInfo },
    ContentBlockStart { index: usize, content_block: ContentBlock },
    ContentBlockDelta { index: usize, delta: ContentDelta },
    ContentBlockStop { index: usize },
    MessageDelta { stop_reason: Option<String>, usage: Option<UsageInfo> },
    MessageStop,
    Ping,
    Error { error_type: String, message: String },
}

} // verus!
