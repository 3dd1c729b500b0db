//! Translates the provider-neutral `api::provider_types::StreamEvent` into the
//! UI's `ui::stream::StreamEvent`.
//!
//! The translator is stateful: the `MessageDelta` payload (stop reason and
//! usage) is held back until the trailing `MessageStop`, so the UI sees one
//! merged `MessageStop { stop_reason, usage }`.

use vstd::prelude::*;
use vstd::string::*;

use crate::api::provider_types::{StopReason, StreamEvent as PStream};
use crate::types::{ContentBlock, UsageInfo};
use crate::ui::stream::{event_views, StreamEvent, StreamEventView};

verus! {

/// What a translator holds between events: the buffered stop reason and
/// usage of the last `MessageDelta`.
pub struct TranslatorState {
    pub stop_reason: Option<StopReason>,
    pub usage: Option<UsageInfo>,
}

impl TranslatorState {
    /// Nothing buffered.
    pub open spec fn empty() -> TranslatorState {
        TranslatorState { stop_reason: None, usage: None }
    }
}

/// The wire name of a stop reason (`Other` carries its own text).
pub open spec fn stop_reason_text(sr: StopReason) -> Seq<char> {
    match sr {
        StopReason::EndTurn => "end_turn"@,
        StopReason::StopSequence => "stop_sequence"@,
        StopReason::MaxTokens => "max_tokens"@,
        StopReason::ToolUse => "tool_use"@,
        StopReason::ContentFiltered => "content_filtered"@,
        StopReason::Other(s) => s@,
    }
}

/// The merged `MessageStop` emitted for a buffered state: the buffered stop
/// reason (default `end_turn`) and usage (default all zero).
pub open spec fn merged_stop(st: TranslatorState) -> StreamEventView {
    StreamEventView::MessageStop {
        stop_reason: match st.stop_reason {
            Some(sr) => stop_reason_text(sr),
            None => "end_turn"@,
        },
        usage: match st.usage {
            Some(u) => u,
            None => UsageInfo::zero(),
        },
    }
}

/// One translation step: the state after `ev` and the UI events it yields.
pub open spec fn translate_step(st: TranslatorState, ev: PStream) -> (TranslatorState, Seq<
    StreamEventView,
>) {
    match ev {
        PStream::MessageStart { id, model, .. } => (
            st,
            seq![StreamEventView::MessageStart { id: id@, model: model@ }],
        ),
        PStream::ContentBlockStart { index, content_block } => (
            st,
            match content_block {
                ContentBlock::ToolUse { id, name, .. } => seq![
                    StreamEventView::ToolUseStart { block: index, id: id@, name: name@ },
                ],
                _ => Seq::empty(),
            },
        ),
        PStream::TextDelta { index, text } => (
            st,
            seq![StreamEventView::TextDelta { block: index, text: text@ }],
        ),
        PStream::ThinkingDelta { index, thinking } => (
            st,
            seq![StreamEventView::ThinkingDelta { block: index, text: thinking@ }],
        ),
        PStream::ReasoningDelta { index, reasoning } => (
            st,
            seq![StreamEventView::ThinkingDelta { block: index, text: reasoning@ }],
        ),
        PStream::InputJsonDelta { index, partial_json } => (
            st,
            seq![StreamEventView::ToolUseDelta { block: index, partial_json: partial_json@ }],
        ),
        PStream::SignatureDelta { .. } => (st, Seq::empty()),
        PStream::ContentBlockStop { .. } => (st, Seq::empty()),
        PStream::MessageDelta { stop_reason, usage } => (
            TranslatorState { stop_reason, usage },
            Seq::empty(),
        ),
        PStream::MessageStop => (TranslatorState::empty(), seq![merged_stop(st)]),
        PStream::Error { error_type, message } => (
            st,
            seq![
                StreamEventView::Error {
                    message: error_type@ + ": "@ + message@,
                    retryable: false,
                },
            ],
        ),
    }
}

/// Stateful translator. Holds the pending `MessageDelta` payload until
/// `MessageStop` arrives.
pub struct Translator {
    pending_stop_reason: Option<StopReason>,
    pending_usage: Option<UsageInfo>,
}

impl View for Translator {
    type V = TranslatorState;

    closed spec fn view(&self) -> TranslatorState {
        TranslatorState { stop_reason: self.pending_stop_reason, usage: self.pending_usage }
    }
}

impl Translator {
    /// A translator with nothing buffered.
    pub fn new() -> (r: Translator)
        ensures
            r@ == TranslatorState::empty(),
    {
        Translator { pending_stop_reason: None, pending_usage: None }
    }

    /// Push a provider event; return zero or more UI events.
    pub fn push(&mut self, ev: PStream) -> (out: Vec<StreamEvent>)
        ensures
            final(self)@ == translate_step(old(self)@, ev).0,
            event_views(out@) == translate_step(old(self)@, ev).1,
    {
        let ghost ev0 = ev;
        match ev {
            PStream::MessageStart { id, model, .. } => {
                let out = vec![StreamEvent::MessageStart { id, model }];
                assert(event_views(out@) =~= translate_step(old(self)@, ev0).1);
                out
            },
            PStream::ContentBlockStart { index, content_block } => match content_block {
                ContentBlock::ToolUse { id, name, .. } => {
                    let out = vec![StreamEvent::ToolUseStart { block: index, id, name }];
                    assert(event_views(out@) =~= translate_step(old(self)@, ev0).1);
                    out
                },
                _ => {
                    let out: Vec<StreamEvent> = Vec::new();
                    assert(event_views(out@) =~= translate_step(old(self)@, ev0).1);
                    out
                },
            },
            PStream::TextDelta { index, text } => {
                let out = vec![StreamEvent::TextDelta { block: index, text }];
                assert(event_views(out@) =~= translate_step(old(self)@, ev0).1);
                out
            },
            PStream::ThinkingDelta { index, thinking } => {
                let out = vec![StreamEvent::ThinkingDelta { block: index, text: thinking }];
                assert(event_views(out@) =~= translate_step(old(self)@, ev0).1);
                out
            },
            PStream::ReasoningDelta { index, reasoning } => {
                let out = vec![StreamEvent::ThinkingDelta { block: index, text: reasoning }];
                assert(event_views(out@) =~= translate_step(old(self)@, ev0).1);
                out
            },
            PStream::InputJsonDelta { index, partial_json } => {
                let out = vec![StreamEvent::ToolUseDelta { block: index, partial_json }];
                assert(event_views(out@) =~= translate_step(old(self)@, ev0).1);
                out
            },
            PStream::SignatureDelta { .. } | PStream::ContentBlockStop { .. } => {
                let out: Vec<StreamEvent> = Vec::new();
                assert(event_views(out@) =~= translate_step(old(self)@, ev0).1);
                out
            },
            PStream::MessageDelta { stop_reason, usage } => {
                self.pending_stop_reason = stop_reason;
                self.pending_usage = usage;
                let out: Vec<StreamEvent> = Vec::new();
                assert(event_views(out@) =~= translate_step(old(self)@, ev0).1);
                out
            },
            PStream::MessageStop => {
                let stop_reason = match self.pending_stop_reason.take() {
                    Some(sr) => stop_reason_to_string(sr),
                    None => String::from_str("end_turn"),
                };
                let usage = match self.pending_usage.take() {
                    Some(u) => u,
                    None => UsageInfo::default(),
                };
                let out = vec![StreamEvent::MessageStop { stop_reason, usage }];
                assert(event_views(out@) =~= translate_step(old(self)@, ev0).1);
                out
            },
            PStream::Error { error_type, message } => {
                let mut text = error_type;
                text.append(": ");
                text.append(message.as_str());
                let out = vec![StreamEvent::Error { message: text, retryable: false }];
                assert(event_views(out@) =~= translate_step(old(self)@, ev0).1);
                out
            },
        }
    }
}

impl Default for Translator {
    fn default() -> (r: Translator)
        ensures
            r@ == TranslatorState::empty(),
    {
        Translator::new()
    }
}

/// The wire name of a stop reason, as an owned string.
pub fn stop_reason_to_string(sr: StopReason) -> (r: String)
    ensures
        r@ == stop_reason_text(sr),
{
    match sr {
        StopReason::EndTurn => String::from_str("end_turn"),
        StopReason::StopSequence => String::from_str("stop_sequence"),
        StopReason::MaxTokens => String::from_str("max_tokens"),
        StopReason::ToolUse => String::from_str("tool_use"),
        StopReason::ContentFiltered => String::from_str("content_filtered"),
        StopReason::Other(s) => s,
    }
}

/// A `MessageDelta` followed by `MessageStop` yields exactly one UI
/// `MessageStop` carrying the delta's stop reason (or `end_turn`) and usage
/// (or zero usage), and leaves nothing buffered.
pub proof fn law_delta_then_stop_merges(
    st: TranslatorState,
    stop_reason: Option<StopReason>,
    usage: Option<UsageInfo>,
)
    ensures
        ({
            let (st1, out1) = translate_step(st, PStream::MessageDelta { stop_reason, usage });
            let (st2, out2) = translate_step(st1, PStream::MessageStop);
            &&& out1.len() == 0
            &&& out2 == seq![merged_stop(TranslatorState { stop_reason, usage })]
            &&& st2 == TranslatorState::empty()
        }),
{
}

/// Every `MessageStop` yields exactly one UI `MessageStop` and clears the
/// buffer; a `MessageStop` with nothing buffered reports `end_turn` with zero
/// usage.
pub proof fn law_stop_always_emits_one_stop(st: TranslatorState)
    ensures
        translate_step(st, PStream::MessageStop).1.len() == 1,
        translate_step(st, PStream::MessageStop).1[0] is MessageStop,
        translate_step(st, PStream::MessageStop).0 == TranslatorState::empty(),
        translate_step(TranslatorState::empty(), PStream::MessageStop).1[0]
            == (StreamEventView::MessageStop { stop_reason: "end_turn"@, usage: UsageInfo::zero() }),
{
}

/// Only `MessageDelta` and `MessageStop` touch the buffered state; every other
/// event leaves it unchanged, and every other event yields at most one UI
/// event.
pub proof fn law_other_events_keep_state(st: TranslatorState, ev: PStream)
    requires
        !(ev is MessageDelta),
        !(ev is MessageStop),
    ensures
        translate_step(st, ev).0 == st,
        translate_step(st, ev).1.len() <= 1,
{
}

/// A stop reason survives translation: a buffered `StopReason::Other(s)`
/// comes out as exactly `s`.
pub proof fn law_other_stop_reason_round_trips(st: TranslatorState, s: String)
    ensures
        ({
            let (st1, _) = translate_step(
                st,
                PStream::MessageDelta { stop_reason: Some(StopReason::Other(s)), usage: None },
            );
            translate_step(st1, PStream::MessageStop).1[0] matches StreamEventView::MessageStop {
                stop_reason,
                ..
            } && stop_reason == s@
        }),
{
}

} // verus!
