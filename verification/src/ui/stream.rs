//! The unified streaming events consumed by the chat view. Provider adapters
//! in `ui::provider` translate their wire formats into these.

use vstd::prelude::*;

use crate::types::UsageInfo;

verus! {

/// One UI-level stream event.
#[derive(Debug, Clone)]
pub enum StreamEvent {
    MessageStart { id: String, model: String },
    TextDelta { block: usize, text: String },
    ThinkingDelta { block: usize, text: String },
    ToolUseStart { block: usize, id: String, name: String },
    ToolUseDelta { block: usize, partial_json: String },
    MessageStop { stop_reason: String, usage: UsageInfo },
    Error { message: String, retryable: bool },
}

/// The mathematical content of a `StreamEvent`: its strings as character
/// sequences.
pub enum StreamEventView {
    MessageStart { id: Seq<char>, model: Seq<char> },
    TextDelta { block: usize, text: Seq<char> },
    ThinkingDelta { block: usize, text: Seq<char> },
    ToolUseStart { block: usize, id: Seq<char>, name: Seq<char> },
    ToolUseDelta { block: usize, partial_json: Seq<char> },
    MessageStop { stop_reason: Seq<char>, usage: UsageInfo },
    Error { message: Seq<char>, retryable: bool },
}

impl View for StreamEvent {
    type V = StreamEventView;

    open spec fn view(&self) -> StreamEventView {
        match self {
            StreamEvent::MessageStart { id, model } => StreamEventView::MessageStart {
                id: id@,
                model: model@,
            },
            StreamEvent::TextDelta { block, text } => StreamEventView::TextDelta {
                block: *block,
                text: text@,
            },
            StreamEvent::ThinkingDelta { block, text } => StreamEventView::ThinkingDelta {
                block: *block,
                text: text@,
            },
            StreamEvent::ToolUseStart { block, id, name } => StreamEventView::ToolUseStart {
                block: *block,
                id: id@,
                name: name@,
            },
            StreamEvent::ToolUseDelta { block, partial_json } => StreamEventView::ToolUseDelta {
                block: *block,
                partial_json: partial_json@,
            },
            StreamEvent::MessageStop { stop_reason, usage } => StreamEventView::MessageStop {
                stop_reason: stop_reason@,
                usage: *usage,
            },
            StreamEvent::Error { message, retryable } => StreamEventView::Error {
                message: message@,
                retryable: *retryable,
            },
        }
    }
}

impl StreamEvent {
    /// A copy of this event.
    pub fn duplicate(&self) -> (r: StreamEvent)
        ensures
            r@ == self@,
    {
        match self {
            StreamEvent::MessageStart { id, model } => StreamEvent::MessageStart {
                id: id.clone(),
                model: model.clone(),
            },
            StreamEvent::TextDelta { block, text } => StreamEvent::TextDelta {
                block: *block,
                text: text.clone(),
            },
            StreamEvent::ThinkingDelta { block, text } => StreamEvent::ThinkingDelta {
                block: *block,
                text: text.clone(),
            },
            StreamEvent::ToolUseStart { block, id, name } => StreamEvent::ToolUseStart {
                block: *block,
                id: id.clone(),
                name: name.clone(),
            },
            StreamEvent::ToolUseDelta { block, partial_json } => StreamEvent::ToolUseDelta {
                block: *block,
                partial_json: partial_json.clone(),
            },
            StreamEvent::MessageStop { stop_reason, usage } => StreamEvent::MessageStop {
                stop_reason: stop_reason.clone(),
                usage: *usage,
            },
            StreamEvent::Error { message, retryable } => StreamEvent::Error {
                message: message.clone(),
                retryable: *retryable,
            },
        }
    }
}

/// The views of a sequence of events.
pub open spec fn event_views(s: Seq<StreamEvent>) -> Seq<StreamEventView> {
    s.map_values(|e: StreamEvent| e@)
}

} // verus!
