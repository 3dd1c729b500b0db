//! Translates Anthropic wire stream events into the UI's `StreamEvent`.

use vstd::prelude::*;
use vstd::string::*;

use crate::api::streaming::{AnthropicStreamEvent, ContentDelta};
use crate::text::str_eq;
use crate::types::{ContentBlock, UsageInfo};
use crate::ui::stream::{event_views, StreamEvent, StreamEventView};

verus! {

/// Error types the Anthropic API asks clients to retry.
pub open spec fn is_retryable_error_type(error_type: Seq<char>) -> bool {
    error_type == "rate_limit_error"@ || error_type == "overloaded_error"@
}

/// The UI events one Anthropic stream event maps to.
pub open spec fn anthropic_events(ev: AnthropicStreamEvent) -> Seq<StreamEventView> {
    match ev {
        AnthropicStreamEvent::MessageStart { id, model, .. } => seq![
            StreamEventView::MessageStart { id: id@, model: model@ },
        ],
        AnthropicStreamEvent::ContentBlockStart { index, content_block } => match content_block {
            ContentBlock::ToolUse { id, name, .. } => seq![
                StreamEventView::ToolUseStart { block: index, id: id@, name: name@ },
            ],
            _ => Seq::empty(),
        },
        AnthropicStreamEvent::ContentBlockDelta { index, delta } => match delta {
            ContentDelta::TextDelta { text } => seq![
                StreamEventView::TextDelta { block: index, text: text@ },
            ],
            ContentDelta::ThinkingDelta { thinking } => seq![
                StreamEventView::ThinkingDelta { block: index, text: thinking@ },
            ],
            ContentDelta::InputJsonDelta { partial_json } => seq![
                StreamEventView::ToolUseDelta { block: index, partial_json: partial_json@ },
            ],
            ContentDelta::SignatureDelta { .. } => Seq::empty(),
        },
        AnthropicStreamEvent::MessageDelta { stop_reason, usage } => seq![
            StreamEventView::MessageStop {
                stop_reason: match stop_reason {
                    Some(s) => s@,
                    None => "end_turn"@,
                },
                usage: match usage {
                    Some(u) => u,
                    None => UsageInfo::zero(),
                },
            },
        ],
        AnthropicStreamEvent::ContentBlockStop { .. } => Seq::empty(),
        AnthropicStreamEvent::MessageStop => Seq::empty(),
        AnthropicStreamEvent::Ping => Seq::empty(),
        AnthropicStreamEvent::Error { error_type, message } => seq![
            StreamEventView::Error {
                message: error_type@ + ": "@ + message@,
                retryable: is_retryable_error_type(error_type@),
            },
        ],
    }
}

/// Translate one Anthropic stream event into zero or more UI events.
/// Rate-limit and overload errors are marked retryable.
pub fn translate(ev: &AnthropicStreamEvent) -> (out: Vec<StreamEvent>)
    ensures
        event_views(out@) == anthropic_events(*ev),
        *ev matches AnthropicStreamEvent::MessageDelta { stop_reason: Some(s), .. } ==> {
            &&& out@.len() == 1
            &&& out@[0] matches StreamEvent::MessageStop { stop_reason: r, .. }
            &&& r@ == s@
        },
{
    let out = match ev {
        AnthropicStreamEvent::MessageStart { id, model, .. } => vec![
            StreamEvent::MessageStart { id: id.clone(), model: model.clone() },
        ],
        AnthropicStreamEvent::ContentBlockStart { index, content_block } => match content_block {
            ContentBlock::ToolUse { id, name, .. } => vec![
                StreamEvent::ToolUseStart { block: *index, id: id.clone(), name: name.clone() },
            ],
            _ => Vec::new(),
        },
        AnthropicStreamEvent::ContentBlockDelta { index, delta } => match delta {
            ContentDelta::TextDelta { text } => vec![
                StreamEvent::TextDelta { block: *index, text: text.clone() },
            ],
            ContentDelta::ThinkingDelta { thinking } => vec![
                StreamEvent::ThinkingDelta { block: *index, text: thinking.clone() },
            ],
            ContentDelta::InputJsonDelta { partial_json } => vec![
                StreamEvent::ToolUseDelta { block: *index, partial_json: partial_json.clone() },
            ],
            ContentDelta::SignatureDelta { .. } => Vec::new(),
        },
        AnthropicStreamEvent::MessageDelta { stop_reason, usage } => {
            let sr = match stop_reason {
                Some(s) => s.clone(),
                None => String::from_str("end_turn"),
            };
            let u = match usage {
                Some(u) => *u,
                None => UsageInfo::default(),
            };
            vec![StreamEvent::MessageStop { stop_reason: sr, usage: u }]
        },
        AnthropicStreamEvent::ContentBlockStop { .. } => Vec::new(),
        AnthropicStreamEvent::MessageStop => Vec::new(),
        AnthropicStreamEvent::Ping => Vec::new(),
        AnthropicStreamEvent::Error { error_type, message } => {
            let mut text = error_type.clone();
            text.append(": ");
            text.append(message.as_str());
            let retryable = str_eq(error_type.as_str(), "rate_limit_error") || str_eq(
                error_type.as_str(),
                "overloaded_error",
            );
            vec![StreamEvent::Error { message: text, retryable }]
        },
    };
    assert(event_views(out@) =~= anthropic_events(*ev));
    out
}

/// A message delta ends the message with exactly one `MessageStop`, whose stop
/// reason is the one the delta carries; `end_turn` stands in only when the delta
/// carries none.
pub proof fn law_message_delta_keeps_stop_reason(
    stop_reason: Option<String>,
    usage: Option<UsageInfo>,
)
    ensures
        ({
            let out = anthropic_events(AnthropicStreamEvent::MessageDelta { stop_reason, usage });
            &&& out.len() == 1
            &&& out[0] matches StreamEventView::MessageStop { stop_reason: r, .. }
            &&& (stop_reason matches Some(s) ==> r == s@)
            &&& (stop_reason is None ==> r == "end_turn"@)
        }),
{
}

} // verus!
