//! OpenAI chat-completions stream chunks into UI stream events. The
//! `reasoning_content` of reasoning models becomes thinking.

use vstd::prelude::*;
use vstd::string::*;

use crate::json::{json_as_str, json_element, json_elements, json_get, json_member, json_parse, json_str, parse_json};
use crate::api::providers::opt_view;
use crate::types::UsageInfo;
use crate::ui::stream::{StreamEvent, StreamEventView};

verus! {

/// What a chunk's first choice and its usage hold.
pub struct ChunkFields {
    /// `delta.content`, when it is a string.
    pub content: Option<String>,
    /// `delta.reasoning_content`, when it is a string.
    pub reasoning: Option<String>,
    /// `finish_reason`, when it is a string.
    pub finish_reason: Option<String>,
    /// The chunk's `usage`, when present and readable.
    pub usage: Option<UsageInfo>,
}

/// The events of a chunk: the text, then the reasoning (each when
/// non-empty), then a stop for a finish reason. Usage goes on that stop, or
/// on a stop of its own (reason `stop`) when there is none.
pub open spec fn chunk_events_spec(
    content: Option<Seq<char>>,
    reasoning: Option<Seq<char>>,
    finish_reason: Option<Seq<char>>,
    usage: Option<UsageInfo>,
) -> Seq<StreamEventView> {
    let text = match content {
        Some(t) => if t.len() > 0 {
            seq![StreamEventView::TextDelta { block: 0, text: t }]
        } else {
            Seq::empty()
        },
        None => Seq::empty(),
    };
    let think = match reasoning {
        Some(t) => if t.len() > 0 {
            seq![StreamEventView::ThinkingDelta { block: 0, text: t }]
        } else {
            Seq::empty()
        },
        None => Seq::empty(),
    };
    let stop = match (finish_reason, usage) {
        (Some(r), Some(u)) => seq![StreamEventView::MessageStop { stop_reason: r, usage: u }],
        (Some(r), None) => seq![StreamEventView::MessageStop { stop_reason: r, usage: UsageInfo::zero() }],
        (None, Some(u)) => seq![StreamEventView::MessageStop { stop_reason: "stop"@, usage: u }],
        (None, None) => Seq::empty(),
    };
    text + think + stop
}

/// The events of a chunk whose fields have been read.
pub fn chunk_events(fields: ChunkFields) -> (r: Vec<StreamEvent>)
    ensures
        r@.map_values(|e: StreamEvent| e@) == chunk_events_spec(
            opt_view(fields.content),
            opt_view(fields.reasoning),
            opt_view(fields.finish_reason),
            fields.usage,
        ),
{
    let ghost want = chunk_events_spec(
        opt_view(fields.content),
        opt_view(fields.reasoning),
        opt_view(fields.finish_reason),
        fields.usage,
    );
    let mut out: Vec<StreamEvent> = Vec::new();
    if let Some(t) = fields.content {
        if t.unicode_len() > 0 {
            out.push(StreamEvent::TextDelta { block: 0, text: t });
        }
    }
    if let Some(t) = fields.reasoning {
        if t.unicode_len() > 0 {
            out.push(StreamEvent::ThinkingDelta { block: 0, text: t });
        }
    }
    match fields.finish_reason {
        Some(reason) => {
            let usage = match fields.usage {
                Some(u) => u,
                None => UsageInfo::default(),
            };
            out.push(StreamEvent::MessageStop { stop_reason: reason, usage });
        },
        None => match fields.usage {
            Some(u) => {
                out.push(StreamEvent::MessageStop { stop_reason: String::from_str("stop"), usage: u });
            },
            None => {},
        },
    }
    assert(out@.map_values(|e: StreamEvent| e@) =~= want);
    out
}

/// The text of member `key` of `v`, when `v` is present and that member is
/// a string.
pub open spec fn member_text_of(v: Option<serde_json::Value>, key: Seq<char>) -> Option<Seq<char>> {
    match v {
        Some(o) => match json_get(o, key) {
            Some(m) => json_str(m),
            None => None,
        },
        None => None,
    }
}

/// The first element of a chunk's `choices` array, if any.
pub open spec fn first_choice(v: serde_json::Value) -> Option<serde_json::Value> {
    match json_get(v, "choices"@) {
        Some(c) => match json_elements(c) {
            Some(es) => if es.len() > 0 {
                Some(es[0])
            } else {
                None
            },
            None => None,
        },
        None => None,
    }
}

/// The events of a stream chunk line, given the chunk's usage.
pub open spec fn translate_chunk_spec(line: Seq<char>, usage: Option<UsageInfo>) -> Seq<StreamEventView> {
    match json_parse(line) {
        None => Seq::empty(),
        Some(v) => match first_choice(v) {
            None => Seq::empty(),
            Some(choice) => chunk_events_spec(
                member_text_of(json_get(choice, "delta"@), "content"@),
                member_text_of(json_get(choice, "delta"@), "reasoning_content"@),
                member_text_of(Some(choice), "finish_reason"@),
                usage,
            ),
        },
    }
}

/// The string member `key` of `v`, if it is one.
fn member_str(v: Option<&serde_json::Value>, key: &str) -> (r: Option<String>)
    ensures
        opt_view(r) == member_text_of(
            match v {
                Some(o) => Some(*o),
                None => None,
            },
            key@,
        ),
{
    match v {
        Some(o) => match json_member(o, key) {
            Some(m) => match json_as_str(m) {
                Some(s) => Some(String::from_str(s)),
                None => None,
            },
            None => None,
        },
        None => None,
    }
}

/// The `usage` member of a stream chunk line, when the line is JSON and
/// has one; the caller reads it as a usage record and hands it to
/// `translate_chunk` with the same line.
pub fn chunk_usage(line: &str) -> (r: Option<serde_json::Value>)
    ensures
        r == (match json_parse(line@) {
            Some(v) => json_get(v, "usage"@),
            None => None,
        }),
{
    match parse_json(line) {
        Some(v) => match json_member(&v, "usage") {
            Some(u) => Some(u.clone()),
            None => None,
        },
        None => None,
    }
}

/// Translate one stream chunk (a JSON line). `usage` is the chunk's usage
/// object as read by the caller, if any. A line that is not JSON, or has no
/// first choice, gives no event; otherwise the events are those of its
/// first choice's `delta.content`, `delta.reasoning_content` and
/// `finish_reason`, with `usage`.
pub fn translate_chunk(line: &str, usage: Option<UsageInfo>) -> (r: Vec<StreamEvent>)
    ensures
        r@.map_values(|e: StreamEvent| e@) == translate_chunk_spec(line@, usage),
{
    proof {
        reveal_strlit("choices");
        reveal_strlit("delta");
        reveal_strlit("content");
        reveal_strlit("reasoning_content");
        reveal_strlit("finish_reason");
    }
    let v = match parse_json(line) {
        Some(v) => v,
        None => {
            let out: Vec<StreamEvent> = Vec::new();
            assert(out@.map_values(|e: StreamEvent| e@) =~= Seq::<StreamEventView>::empty());
            return out;
        },
    };
    let choice = match json_member(&v, "choices") {
        Some(c) => match json_element(c, 0) {
            Some(first) => first,
            None => {
                let out: Vec<StreamEvent> = Vec::new();
                assert(out@.map_values(|e: StreamEvent| e@) =~= Seq::<StreamEventView>::empty());
                return out;
            },
        },
        None => {
            let out: Vec<StreamEvent> = Vec::new();
            assert(out@.map_values(|e: StreamEvent| e@) =~= Seq::<StreamEventView>::empty());
            return out;
        },
    };
    let delta = json_member(choice, "delta");
    let fields = ChunkFields {
        content: member_str(delta, "content"),
        reasoning: member_str(delta, "reasoning_content"),
        finish_reason: member_str(Some(choice), "finish_reason"),
        usage,
    };
    chunk_events(fields)
}

} // verus!
