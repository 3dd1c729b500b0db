//! Decisions of the streaming tool-use loop. The caller drives the provider
//! stream, runs tools and sends events; this module accumulates one round's
//! content blocks, decides what to report for each provider event, and
//! decides after the stream whether the turn is done or tools must run.

use vstd::prelude::*;
use vstd::string::*;

use crate::agent::buffers::InputBuffers;
use crate::json::{json_parse, parse_json};
use crate::api::provider_types::{ProviderRequest, StopReason, StreamEvent, SystemPrompt};
use crate::text::is_blank;
use crate::types::{ContentBlock, Message, MessageContent, Role, ToolResultContent, UsageInfo};

verus! {

/// Cap on consecutive tool-use rounds, to stop infinite loops.
pub const MAX_TOOL_ROUNDS: usize = 16;

/// Longest system prompt, in characters, logged verbatim.
pub const SYSTEM_PROMPT_LOG_PREVIEW: usize = 2000;

/// Why a turn failed.
#[derive(Debug)]
pub enum ClaudeError {
    /// The model API reported an error event.
    Api(String),
    /// The provider failed (its message).
    Provider(String),
    /// Anything else.
    Other(String),
}

/// Events reported to the turn's sink as the turn progresses.
#[derive(Debug)]
pub enum TurnEvent {
    /// Incremental text (or thinking) from the model.
    TextDelta { text: String },
    /// The model started a tool call.
    ToolUseStart { id: String, name: String },
    /// Incremental JSON input of an in-progress tool call.
    ToolUseDelta { id: String, partial_json: String },
    /// A tool call finished.
    ToolEnd { id: String, result: ToolResultContent, is_error: bool },
    /// The turn completed normally.
    Done { stop_reason: Option<StopReason>, usage: Option<UsageInfo> },
    /// The turn failed.
    Failed { error: ClaudeError },
    /// The turn was cancelled by the user.
    Cancelled,
}

/// The text of the events reported mid-stream.
pub enum DeltaView {
    Text(Seq<char>),
    ToolUseStart { id: Seq<char>, name: Seq<char> },
    ToolUseDelta { id: Seq<char>, partial_json: Seq<char> },
}

/// The content of a mid-stream event, if it is one.
pub open spec fn delta_view(e: TurnEvent) -> Option<DeltaView> {
    match e {
        TurnEvent::TextDelta { text } => Some(DeltaView::Text(text@)),
        TurnEvent::ToolUseStart { id, name } => Some(DeltaView::ToolUseStart { id: id@, name: name@ }),
        TurnEvent::ToolUseDelta { id, partial_json } => Some(
            DeltaView::ToolUseDelta { id: id@, partial_json: partial_json@ },
        ),
        _ => None,
    }
}

/// A round step reports only deltas: every event it reports is one.
pub proof fn lemma_block_step_reports_deltas(
    b0: Seq<ContentBlock>,
    m0: Map<Seq<char>, Seq<char>>,
    ev: StreamEvent,
    b1: Seq<ContentBlock>,
    m1: Map<Seq<char>, Seq<char>>,
    out: Seq<Option<DeltaView>>,
)
    requires
        block_step(b0, m0, ev, b1, m1, out),
    ensures
        forall|i: int| 0 <= i < out.len() ==> (#[trigger] out[i]) is Some,
{
}

/// What the stream loop does after an event.
#[derive(Debug)]
pub enum Flow {
    /// Keep reading the stream.
    Continue,
    /// The message is complete (`MessageStop`).
    Stop,
    /// The stream reported an error: fail the turn.
    Fail(ClaudeError),
}

/// The state of one round: the assistant's content blocks by index, the
/// JSON input streamed so far per tool-use id, and the stop reason and usage
/// of the last `MessageDelta`.
pub struct RoundState {
    pub blocks: Vec<ContentBlock>,
    pub input_buffer: InputBuffers,
    pub stop_reason: Option<StopReason>,
    pub usage: Option<UsageInfo>,
}

/// `b` is `a` with `more` appended to its text (for a text block) or its
/// thinking (for a thinking block, signature kept); other blocks unchanged.
pub open spec fn appended(a: ContentBlock, b: ContentBlock, more: Seq<char>) -> bool {
    match a {
        ContentBlock::Text { text } => b matches ContentBlock::Text { text: t2 } && t2@ == text@
            + more,
        ContentBlock::Thinking { thinking, signature } => b matches ContentBlock::Thinking {
            thinking: t2,
            signature: s2,
        } && t2@ == thinking@ + more && s2 == signature,
        _ => b == a,
    }
}

/// An empty text block (what fills the gap before a block started past the end).
pub open spec fn is_empty_text(b: ContentBlock) -> bool {
    b matches ContentBlock::Text { text } && text@ == Seq::<char>::empty()
}

/// Blocks `b` equal blocks `a` except possibly at `index`.
pub open spec fn same_except(a: Seq<ContentBlock>, b: Seq<ContentBlock>, index: int) -> bool {
    &&& a.len() == b.len()
    &&& forall|j: int| 0 <= j < a.len() && j != index ==> b[j] == a[j]
}

/// The buffer text of `id` before an append (empty when absent).
pub open spec fn buffer_text(m: Map<Seq<char>, Seq<char>>, id: Seq<char>) -> Seq<char> {
    if m.contains_key(id) {
        m[id]
    } else {
        Seq::empty()
    }
}

/// The relation between the round state before (`b0`, `m0`) and after
/// (`b1`, `m1`) a block event, and the events reported.
pub open spec fn block_step(
    b0: Seq<ContentBlock>,
    m0: Map<Seq<char>, Seq<char>>,
    ev: StreamEvent,
    b1: Seq<ContentBlock>,
    m1: Map<Seq<char>, Seq<char>>,
    out: Seq<Option<DeltaView>>,
) -> bool {
    match ev {
        StreamEvent::ContentBlockStart { index, content_block } => {
            &&& b1.len() == if index < b0.len() {
                b0.len() as int
            } else {
                index + 1
            }
            &&& b1[index as int] == content_block
            &&& forall|j: int| 0 <= j < b0.len() && j != index ==> b1[j] == b0[j]
            &&& forall|j: int|
                b0.len() <= j < index ==> is_empty_text(#[trigger] b1[j])
            &&& match content_block {
                ContentBlock::ToolUse { id, name, .. } => {
                    &&& m1 == m0.insert(id@, Seq::empty())
                    &&& out == seq![Some(DeltaView::ToolUseStart { id: id@, name: name@ })]
                },
                ContentBlock::Text { text } => {
                    &&& m1 == m0
                    &&& out == if text@.len() > 0 {
                        seq![Some(DeltaView::Text(text@))]
                    } else {
                        Seq::empty()
                    }
                },
                ContentBlock::Thinking { thinking, .. } => {
                    &&& m1 == m0
                    &&& out == if thinking@.len() > 0 {
                        seq![Some(DeltaView::Text(thinking@))]
                    } else {
                        Seq::empty()
                    }
                },
                _ => m1 == m0 && out.len() == 0,
            }
        },
        StreamEvent::TextDelta { index, text } => {
            &&& m1 == m0
            &&& same_except(b0, b1, index as int)
            &&& index < b0.len() ==> if b0[index as int] is Text {
                appended(b0[index as int], b1[index as int], text@)
            } else {
                b1[index as int] == b0[index as int]
            }
            &&& out == seq![Some(DeltaView::Text(text@))]
        },
        StreamEvent::ThinkingDelta { index, thinking } => {
            &&& m1 == m0
            &&& same_except(b0, b1, index as int)
            &&& index < b0.len() ==> if b0[index as int] is Thinking {
                appended(b0[index as int], b1[index as int], thinking@)
            } else {
                b1[index as int] == b0[index as int]
            }
            &&& out == seq![Some(DeltaView::Text(thinking@))]
        },
        StreamEvent::InputJsonDelta { index, partial_json } => if index < b0.len()
            && b0[index as int] is ToolUse {
            let id = b0[index as int]->ToolUse_id;
            let text = buffer_text(m0, id@) + partial_json@;
            &&& m1 == m0.insert(id@, text)
            &&& same_except(b0, b1, index as int)
            &&& b1[index as int] == (ContentBlock::ToolUse {
                id,
                name: b0[index as int]->ToolUse_name,
                input: match json_parse(text) {
                    Some(v) => v,
                    None => b0[index as int]->ToolUse_input,
                },
            })
            &&& out == seq![Some(DeltaView::ToolUseDelta { id: id@, partial_json: partial_json@ })]
        } else {
            b1 == b0 && m1 == m0 && out.len() == 0
        },
        _ => b1 == b0 && m1 == m0 && out.len() == 0,
    }
}

/// The flow after an event: stop at `MessageStop`, fail on `Error`,
/// continue otherwise.
pub open spec fn flow_after(ev: StreamEvent, f: Flow) -> bool {
    match ev {
        StreamEvent::MessageStop => f is Stop,
        StreamEvent::Error { error_type, message } => f matches Flow::Fail(ClaudeError::Api(m)) && m@
            == error_type@ + ": "@ + message@,
        _ => f is Continue,
    }
}

/// The tool calls of an assistant's blocks, in order: (id, name, input).
pub open spec fn tool_calls(blocks: Seq<ContentBlock>) -> Seq<(String, String, serde_json::Value)>
    decreases blocks.len(),
{
    if blocks.len() == 0 {
        Seq::empty()
    } else {
        let rest = tool_calls(blocks.drop_last());
        match blocks.last() {
            ContentBlock::ToolUse { id, name, input } => rest.push((id, name, input)),
            _ => rest,
        }
    }
}

/// How a round ends.
#[derive(Debug)]
pub enum RoundEnd {
    /// The model stopped for a reason other than tool use: the turn is done.
    Done { stop_reason: Option<StopReason>, usage: Option<UsageInfo> },
    /// The model asked for tools: run these calls (id, name, input) in order.
    ToolCalls(Vec<(String, String, serde_json::Value)>),
}

impl RoundState {
    /// A round with no blocks, buffers, stop reason or usage.
    pub fn new() -> (r: RoundState)
        ensures
            r.blocks@.len() == 0,
            r.input_buffer@ == Map::<Seq<char>, Seq<char>>::empty(),
            r.stop_reason is None,
            r.usage is None,
    {
        RoundState { blocks: Vec::new(), input_buffer: InputBuffers::new(), stop_reason: None, usage: None }
    }

    /// Apply one provider event: update the round, return the events to
    /// report (in order) and what the stream loop does next.
    pub fn apply(&mut self, ev: StreamEvent) -> (r: (Vec<TurnEvent>, Flow))
        requires
            ev matches StreamEvent::ContentBlockStart { index, .. } ==> index < usize::MAX,
        ensures
            ev is MessageDelta ==> {
                &&& final(self).stop_reason == ev->MessageDelta_stop_reason
                &&& final(self).usage == ev->MessageDelta_usage
                &&& final(self).blocks == old(self).blocks
                &&& final(self).input_buffer@ == old(self).input_buffer@
                &&& r.0@.len() == 0
            },
            !(ev is MessageDelta) ==> {
                &&& final(self).stop_reason == old(self).stop_reason
                &&& final(self).usage == old(self).usage
                &&& block_step(
                    old(self).blocks@,
                    old(self).input_buffer@,
                    ev,
                    final(self).blocks@,
                    final(self).input_buffer@,
                    r.0@.map_values(|e: TurnEvent| delta_view(e)),
                )
            },
            flow_after(ev, r.1),
    {
        let ghost ev0 = ev;
        let mut out: Vec<TurnEvent> = Vec::new();
        match ev {
            StreamEvent::ContentBlockStart { index, content_block } => {
                let ghost b0 = self.blocks@;
                let ghost m0 = self.input_buffer@;
                let ghost s0 = self.stop_reason;
                let ghost u0 = self.usage;
                while self.blocks.len() <= index
                    invariant
                        index < usize::MAX,
                        self.input_buffer@ == m0,
                        self.stop_reason == s0,
                        self.usage == u0,
                        b0.len() <= self.blocks@.len(),
                        self.blocks@.len() <= (if index < b0.len() { b0.len() as int } else { index + 1 }),
                        forall|j: int| 0 <= j < b0.len() ==> self.blocks@[j] == b0[j],
                        forall|j: int|
                            b0.len() <= j < self.blocks@.len() ==> is_empty_text(#[trigger] self.blocks@[j]),
                    decreases index + 1 - self.blocks@.len(),
                {
                    self.blocks.push(ContentBlock::Text { text: String::new() });
                }
                match &content_block {
                    ContentBlock::ToolUse { id, name, .. } => {
                        self.input_buffer.insert(id.clone(), String::new());
                        out.push(TurnEvent::ToolUseStart { id: id.clone(), name: name.clone() });
                    },
                    ContentBlock::Text { text } => {
                        if text.unicode_len() > 0 {
                            out.push(TurnEvent::TextDelta { text: text.clone() });
                        }
                    },
                    ContentBlock::Thinking { thinking, .. } => {
                        if thinking.unicode_len() > 0 {
                            out.push(TurnEvent::TextDelta { text: thinking.clone() });
                        }
                    },
                    _ => {},
                }
                self.blocks.set(index, content_block);
                assert(out@.map_values(|e: TurnEvent| delta_view(e)) =~= match ev0 {
                    StreamEvent::ContentBlockStart { content_block, .. } => match content_block {
                        ContentBlock::ToolUse { id, name, .. } => seq![
                            Some(DeltaView::ToolUseStart { id: id@, name: name@ }),
                        ],
                        ContentBlock::Text { text } => if text@.len() > 0 {
                            seq![Some(DeltaView::Text(text@))]
                        } else {
                            Seq::empty()
                        },
                        ContentBlock::Thinking { thinking, .. } => if thinking@.len() > 0 {
                            seq![Some(DeltaView::Text(thinking@))]
                        } else {
                            Seq::empty()
                        },
                        _ => Seq::empty(),
                    },
                    _ => Seq::empty(),
                });
                (out, Flow::Continue)
            },
            StreamEvent::TextDelta { index, text } => {
                if index < self.blocks.len() {
                    let updated = match &self.blocks[index] {
                        ContentBlock::Text { text: buf } => {
                            let mut t = buf.clone();
                            t.append(text.as_str());
                            Some(ContentBlock::Text { text: t })
                        },
                        _ => None,
                    };
                    if let Some(b) = updated {
                        self.blocks.set(index, b);
                    }
                }
                out.push(TurnEvent::TextDelta { text });
                assert(out@.map_values(|e: TurnEvent| delta_view(e)) =~= seq![
                    Some(DeltaView::Text(ev0->TextDelta_text@)),
                ]);
                (out, Flow::Continue)
            },
            StreamEvent::ThinkingDelta { index, thinking } => {
                if index < self.blocks.len() {
                    let updated = match &self.blocks[index] {
                        ContentBlock::Thinking { thinking: buf, signature } => {
                            let mut t = buf.clone();
                            t.append(thinking.as_str());
                            Some(ContentBlock::Thinking { thinking: t, signature: signature.clone() })
                        },
                        _ => None,
                    };
                    if let Some(b) = updated {
                        self.blocks.set(index, b);
                    }
                }
                out.push(TurnEvent::TextDelta { text: thinking });
                assert(out@.map_values(|e: TurnEvent| delta_view(e)) =~= seq![
                    Some(DeltaView::Text(ev0->ThinkingDelta_thinking@)),
                ]);
                (out, Flow::Continue)
            },
            StreamEvent::InputJsonDelta { index, partial_json } => {
                if index < self.blocks.len() {
                    let found = match &self.blocks[index] {
                        ContentBlock::ToolUse { id, name, input } => Some(
                            (id.clone(), name.clone(), input.clone()),
                        ),
                        _ => None,
                    };
                    if let Some((id, name, input)) = found {
                        let text = self.input_buffer.append(id.as_str(), partial_json.as_str());
                        let new_input = match parse_json(text.as_str()) {
                            Some(v) => v,
                            None => input,
                        };
                        out.push(TurnEvent::ToolUseDelta { id: id.clone(), partial_json });
                        self.blocks.set(index, ContentBlock::ToolUse { id, name, input: new_input });
                        assert(out@.map_values(|e: TurnEvent| delta_view(e)) =~= seq![
                            Some(
                                DeltaView::ToolUseDelta {
                                    id: old(self).blocks@[index as int]->ToolUse_id@,
                                    partial_json: ev0->InputJsonDelta_partial_json@,
                                },
                            ),
                        ]);
                    }
                }
                (out, Flow::Continue)
            },
            StreamEvent::MessageDelta { stop_reason, usage } => {
                self.stop_reason = stop_reason;
                self.usage = usage;
                (out, Flow::Continue)
            },
            StreamEvent::MessageStop => (out, Flow::Stop),
            StreamEvent::Error { error_type, message } => {
                let mut text = error_type;
                text.append(": ");
                text.append(message.as_str());
                (out, Flow::Fail(ClaudeError::Api(text)))
            },
            _ => (out, Flow::Continue),
        }
    }

    /// The round is over: the assistant message (its blocks, in order) and
    /// whether the turn is done or which tools to run.
    pub fn finish(self) -> (r: (Message, RoundEnd))
        ensures
            r.0 == Message::assistant_spec(self.blocks),
            match self.stop_reason {
                Some(StopReason::ToolUse) => r.1 matches RoundEnd::ToolCalls(calls) && calls@
                    == tool_calls(self.blocks@),
                _ => r.1 == (RoundEnd::Done { stop_reason: self.stop_reason, usage: self.usage }),
            },
    {
        let is_tool_use = match &self.stop_reason {
            Some(StopReason::ToolUse) => true,
            _ => false,
        };
        let end = if is_tool_use {
            let n = self.blocks.len();
            let mut calls: Vec<(String, String, serde_json::Value)> = Vec::new();
            let mut i: usize = 0;
            assert(self.blocks@.take(0) =~= Seq::<ContentBlock>::empty());
            while i < n
                invariant
                    n == self.blocks@.len(),
                    i <= n,
                    calls@ == tool_calls(self.blocks@.take(i as int)),
                decreases n - i,
            {
                assert(self.blocks@.take(i + 1).drop_last() =~= self.blocks@.take(i as int));
                match &self.blocks[i] {
                    ContentBlock::ToolUse { id, name, input } => {
                        calls.push((id.clone(), name.clone(), input.clone()));
                    },
                    _ => {},
                }
                i = i + 1;
            }
            assert(self.blocks@.take(n as int) =~= self.blocks@);
            RoundEnd::ToolCalls(calls)
        } else {
            RoundEnd::Done { stop_reason: self.stop_reason, usage: self.usage }
        };
        (Message::assistant_blocks(self.blocks), end)
    }
}

/// Whether a permission decision lets a tool run.
#[derive(Debug, Clone)]
pub enum PermissionDecision {
    Allow,
    AllowPermanently,
    Deny,
    Ask { reason: String },
}

/// Only `Allow` and `AllowPermanently` let a tool run.
pub fn permits(decision: &PermissionDecision) -> (r: bool)
    ensures
        r == (decision is Allow || decision is AllowPermanently),
{
    match decision {
        PermissionDecision::Allow | PermissionDecision::AllowPermanently => true,
        _ => false,
    }
}

/// What a tool asks permission for.
#[derive(Debug, Clone)]
pub struct PermissionRequest {
    pub tool_name: String,
    /// One-line summary of the operation.
    pub description: String,
    /// Extra detail, shown on demand.
    pub details: Option<String>,
    /// Whether the operation is free of side effects.
    pub is_read_only: bool,
    /// The target path, when the decision depends on it.
    pub path: Option<String>,
    pub working_dir: Option<std::path::PathBuf>,
    /// The directories the tool may touch.
    pub allowed_roots: Vec<std::path::PathBuf>,
    /// Why the tool needs permission.
    pub context_description: Option<String>,
}

/// A copy of a list of paths, in order.
fn copy_paths(paths: &Vec<std::path::PathBuf>) -> (r: Vec<std::path::PathBuf>)
    ensures
        r@ == paths@,
{
    let mut out: Vec<std::path::PathBuf> = Vec::new();
    let mut i: usize = 0;
    while i < paths.len()
        invariant
            i <= paths@.len(),
            out@ == paths@.take(i as int),
        decreases paths@.len() - i,
    {
        out.push(paths[i].clone());
        i = i + 1;
        assert(out@ =~= paths@.take(i as int));
    }
    assert(paths@.take(paths@.len() as int) =~= paths@);
    out
}

/// The permission request made before a tool call: not read-only, anchored
/// at the working directory, allowed to touch the workspace paths followed
/// by the additional directories.
pub fn tool_permission_request(
    tool_name: &str,
    working_dir: &std::path::PathBuf,
    workspace_paths: &Vec<std::path::PathBuf>,
    additional_dirs: &Vec<std::path::PathBuf>,
) -> (r: PermissionRequest)
    ensures
        r.tool_name@ == tool_name@,
        r.description@ == "Execute tool: "@ + tool_name@,
        r.details is None,
        !r.is_read_only,
        r.path is None,
        r.working_dir == Some(*working_dir),
        r.allowed_roots@ == workspace_paths@ + additional_dirs@,
        r.context_description is None,
{
    let mut description = String::from_str("Execute tool: ");
    description.append(tool_name);
    let mut roots = copy_paths(workspace_paths);
    let mut more = copy_paths(additional_dirs);
    roots.append(&mut more);
    PermissionRequest {
        tool_name: String::from_str(tool_name),
        description,
        details: None,
        is_read_only: false,
        path: None,
        working_dir: Some(working_dir.clone()),
        allowed_roots: roots,
        context_description: None,
    }
}

/// The position of the first tool named `name` among the registered tool
/// names, if any.
pub fn find_tool(names: &Vec<String>, name: &str) -> (r: Option<usize>)
    ensures
        match r {
            Some(i) => i < names@.len() && names@[i as int]@ == name@ && forall|j: int|
                0 <= j < i ==> (#[trigger] names@[j])@ != name@,
            None => forall|j: int| 0 <= j < names@.len() ==> (#[trigger] names@[j])@ != name@,
        },
{
    let mut i: usize = 0;
    while i < names.len()
        invariant
            i <= names@.len(),
            forall|j: int| 0 <= j < i ==> (#[trigger] names@[j])@ != name@,
        decreases names@.len() - i,
    {
        if crate::text::str_eq(names[i].as_str(), name) {
            return Some(i);
        }
        i = i + 1;
    }
    None
}

/// How one tool call ended.
#[derive(Debug, Clone)]
pub enum ToolOutcome {
    /// No tool of that name is registered.
    NotFound,
    /// The permission handler did not allow the call.
    Denied,
    /// The tool ran and returned this content.
    Finished { content: String, is_error: bool },
    /// The tool panicked.
    Panicked,
    /// The turn was cancelled before the tool ran.
    Cancelled,
}

/// The result text and error flag recorded for a tool call of `name`.
pub open spec fn outcome_result(name: Seq<char>, o: ToolOutcome) -> (Seq<char>, bool) {
    match o {
        ToolOutcome::NotFound => ("Tool '"@ + name + "' not found"@, true),
        ToolOutcome::Denied => ("Permission denied"@, true),
        ToolOutcome::Finished { content, is_error } => (content@, is_error),
        ToolOutcome::Panicked => ("tool panicked"@, true),
        ToolOutcome::Cancelled => ("cancelled"@, true),
    }
}

/// The `ToolEnd` event reported and the tool-result block recorded for call
/// `id` of tool `name`, both carrying `outcome_result(name, outcome)`.
pub fn tool_end(id: &str, name: &str, outcome: ToolOutcome) -> (r: (TurnEvent, ContentBlock))
    ensures
        r.0 matches TurnEvent::ToolEnd { id: i, result: ToolResultContent::Text(t), is_error: e } && i@
            == id@ && t@ == outcome_result(name@, outcome).0 && e == outcome_result(name@, outcome).1,
        r.1 matches ContentBlock::ToolResult {
            tool_use_id: i,
            content: ToolResultContent::Text(t),
            is_error: Some(e),
        } && i@ == id@ && t@ == outcome_result(name@, outcome).0 && e == outcome_result(
            name@,
            outcome,
        ).1,
{
    let (text, is_error) = match outcome {
        ToolOutcome::NotFound => (tool_not_found_message(name), true),
        ToolOutcome::Denied => (String::from_str("Permission denied"), true),
        ToolOutcome::Finished { content, is_error } => (content, is_error),
        ToolOutcome::Panicked => (String::from_str("tool panicked"), true),
        ToolOutcome::Cancelled => (String::from_str("cancelled"), true),
    };
    let event = TurnEvent::ToolEnd {
        id: String::from_str(id),
        result: ToolResultContent::Text(text.clone()),
        is_error,
    };
    (event, tool_result_block(String::from_str(id), text, is_error))
}

/// How the next round of a turn starts.
#[derive(Debug)]
pub enum RoundStart {
    /// The turn was cancelled: report `Cancelled` and stop.
    Cancelled,
    /// Stream the next round.
    Stream,
    /// Every allowed round asked for tools: fail the turn with this error.
    Exhausted(ClaudeError),
}

/// The rounds of one turn: at most `MAX_TOOL_ROUNDS` of them stream.
pub struct TurnLoop {
    rounds_started: usize,
}

impl TurnLoop {
    #[verifier::type_invariant]
    closed spec fn inv(&self) -> bool {
        self.rounds_started <= MAX_TOOL_ROUNDS
    }

    /// The rounds streamed so far.
    pub closed spec fn rounds(&self) -> nat {
        self.rounds_started as nat
    }

    /// A turn that has not streamed yet.
    pub fn new() -> (r: TurnLoop)
        ensures
            r.rounds() == 0,
    {
        TurnLoop { rounds_started: 0 }
    }

    /// Start the next round: stop when cancelled, fail once
    /// `MAX_TOOL_ROUNDS` rounds have streamed, stream otherwise.
    pub fn begin_round(&mut self, cancelled: bool) -> (r: RoundStart)
        ensures
            round_step(*old(self), cancelled, r, *final(self)),
    {
        proof {
            use_type_invariant(&*self);
        }
        if self.rounds_started >= MAX_TOOL_ROUNDS {
            RoundStart::Exhausted(max_rounds_error())
        } else if cancelled {
            RoundStart::Cancelled
        } else {
            self.rounds_started = self.rounds_started + 1;
            RoundStart::Stream
        }
    }
}

/// One round start: from `before`, with the turn `cancelled` or not, the
/// start `r` and the rounds `after`.
pub open spec fn round_step(before: TurnLoop, cancelled: bool, r: RoundStart, after: TurnLoop) -> bool {
    &&& before.rounds() < MAX_TOOL_ROUNDS && cancelled ==> r is Cancelled && after.rounds() == before.rounds()
    &&& before.rounds() < MAX_TOOL_ROUNDS && !cancelled ==> r is Stream && after.rounds() == before.rounds()
        + 1
    &&& before.rounds() >= MAX_TOOL_ROUNDS ==> (r matches RoundStart::Exhausted(ClaudeError::Other(m))
        && m@ == "max tool rounds exceeded"@) && after.rounds() == before.rounds()
    &&& after.rounds() <= MAX_TOOL_ROUNDS
}

/// How many of the starts stream a round.
pub open spec fn streamed(starts: Seq<RoundStart>) -> nat
    decreases starts.len(),
{
    if starts.len() == 0 {
        0
    } else {
        streamed(starts.drop_last()) + if starts.last() is Stream {
            1nat
        } else {
            0nat
        }
    }
}

/// However a turn goes, at most `MAX_TOOL_ROUNDS` of its rounds stream:
/// along any run of round starts from a fresh turn, the number that
/// stream is the round count, which never passes the cap.
pub proof fn law_rounds_are_capped(states: Seq<TurnLoop>, cancelled: Seq<bool>, starts: Seq<RoundStart>)
    requires
        states.len() == starts.len() + 1,
        cancelled.len() == starts.len(),
        states[0].rounds() == 0,
        forall|i: int|
            0 <= i < starts.len() ==> #[trigger] round_step(states[i], cancelled[i], starts[i], states[i + 1]),
    ensures
        streamed(starts) == states.last().rounds(),
        streamed(starts) <= MAX_TOOL_ROUNDS,
    decreases starts.len(),
{
    if starts.len() > 0 {
        let n = starts.len() - 1;
        assert(round_step(states[n], cancelled[n], starts[n], states[n + 1]));
        law_rounds_are_capped(states.drop_last(), cancelled.drop_last(), starts.drop_last());
        assert(states.drop_last().last() == states[n]);
    }
}

/// The next step of one tool call, from what is known of it so far.
#[derive(Debug, Clone, Copy, PartialEq, Eq, Structural)]
pub enum ToolStep {
    /// No tool of that name: the call ends as `NotFound`.
    NotFound,
    /// The tool at this index was found: ask the permission handler.
    AskPermission(usize),
    /// The handler did not allow the call: it ends as `Denied`.
    Denied,
    /// The handler allowed the call: run the tool at this index.
    Run(usize),
}

/// One tool call: look the tool up (`found`, as `find_tool` gives it), then
/// ask permission (`decision`, once asked), then run it. A missing tool
/// ends the call before permission is asked; only `Allow` and
/// `AllowPermanently` let it run.
pub fn single_tool_step(found: Option<usize>, decision: Option<PermissionDecision>) -> (r: ToolStep)
    ensures
        found is None ==> r == ToolStep::NotFound,
        found matches Some(i) ==> r == match decision {
            None => ToolStep::AskPermission(i),
            Some(d) => if d is Allow || d is AllowPermanently {
                ToolStep::Run(i)
            } else {
                ToolStep::Denied
            },
        },
{
    match found {
        None => ToolStep::NotFound,
        Some(i) => match decision {
            None => ToolStep::AskPermission(i),
            Some(d) => if permits(&d) {
                ToolStep::Run(i)
            } else {
                ToolStep::Denied
            },
        },
    }
}

/// The request of the next round after a round that asked for tools: the
/// assistant's message of that round, then a user message with the tool
/// results, appended to the history; everything else is kept.
pub fn next_request(req: ProviderRequest, assistant: Message, results: Vec<ContentBlock>) -> (r:
    ProviderRequest)
    ensures
        r.messages@ == req.messages@.push(assistant).push(
            Message { role: Role::User, content: MessageContent::Blocks(results), uuid: None },
        ),
        r.model == req.model,
        r.system_prompt == req.system_prompt,
        r.tools == req.tools,
        r.max_tokens == req.max_tokens,
        r.top_k == req.top_k,
        r.stop_sequences == req.stop_sequences,
        r.thinking == req.thinking,
        r.provider_options == req.provider_options,
{
    let mut req = req;
    req.messages.push(assistant);
    req.messages.push(Message::user_blocks(results));
    req
}

/// The outcome recorded for a tool call: `Cancelled` when the turn was
/// cancelled before it ran, else what running it gave.
pub fn call_outcome(cancelled: bool, ran: Option<ToolOutcome>) -> (r: ToolOutcome)
    requires
        !cancelled ==> ran is Some,
    ensures
        cancelled ==> r is Cancelled,
        !cancelled ==> r == ran->0,
{
    if cancelled {
        ToolOutcome::Cancelled
    } else {
        match ran {
            Some(o) => o,
            None => ToolOutcome::Cancelled,
        }
    }
}

/// The result text for a call of a tool that is not registered.
pub fn tool_not_found_message(name: &str) -> (r: String)
    ensures
        r@ == "Tool '"@ + name@ + "' not found"@,
{
    let mut s = String::from_str("Tool '");
    s.append(name);
    s.append("' not found");
    s
}

/// The tool-result block for call `id`: text content and error flag.
pub fn tool_result_block(id: String, text: String, is_error: bool) -> (r: ContentBlock)
    ensures
        r == (ContentBlock::ToolResult {
            tool_use_id: id,
            content: ToolResultContent::Text(text),
            is_error: Some(is_error),
        }),
{
    ContentBlock::ToolResult { tool_use_id: id, content: ToolResultContent::Text(text), is_error: Some(is_error) }
}

/// The error a turn fails with once `MAX_TOOL_ROUNDS` rounds all asked for
/// tools.
pub fn max_rounds_error() -> (r: ClaudeError)
    ensures
        r matches ClaudeError::Other(m) && m@ == "max tool rounds exceeded"@,
{
    ClaudeError::Other(String::from_str("max tool rounds exceeded"))
}

impl ClaudeError {
    /// The message the error carries.
    pub fn message(&self) -> (r: String)
        ensures
            r@ == match self {
                ClaudeError::Api(m) => m@,
                ClaudeError::Provider(m) => m@,
                ClaudeError::Other(m) => m@,
            },
    {
        match self {
            ClaudeError::Api(m) => m.clone(),
            ClaudeError::Provider(m) => m.clone(),
            ClaudeError::Other(m) => m.clone(),
        }
    }
}

/// A failed turn: the `Failed` event carrying `err`, and the error returned
/// to the caller, which holds the same message.
pub fn fail(err: ClaudeError) -> (r: (TurnEvent, ClaudeError))
    ensures
        r.0 == (TurnEvent::Failed { error: err }),
        r.1 matches ClaudeError::Other(m) && m@ == match err {
            ClaudeError::Api(m) => m@,
            ClaudeError::Provider(m) => m@,
            ClaudeError::Other(m) => m@,
        },
{
    let display = err.message();
    (TurnEvent::Failed { error: err }, ClaudeError::Other(display))
}

/// A `system_prompt` flattened to one text: empty when absent, block texts
/// joined by newlines.
pub open spec fn joined(blocks: Seq<Seq<char>>) -> Seq<char>
    decreases blocks.len(),
{
    if blocks.len() == 0 {
        Seq::empty()
    } else if blocks.len() == 1 {
        blocks[0]
    } else {
        joined(blocks.drop_last()) + "\n"@ + blocks.last()
    }
}

/// The text of a system prompt (blocks joined with `\n`).
pub fn system_prompt_text(sp: &Option<SystemPrompt>) -> (r: String)
    ensures
        r@ == match sp {
            None => Seq::empty(),
            Some(SystemPrompt::Text(s)) => s@,
            Some(SystemPrompt::Blocks(b)) => joined(
                b@.map_values(|x: crate::api::provider_types::SystemBlock| x.text@),
            ),
        },
{
    match sp {
        None => String::new(),
        Some(SystemPrompt::Text(s)) => s.clone(),
        Some(SystemPrompt::Blocks(blocks)) => {
            let ghost texts = blocks@.map_values(|x: crate::api::provider_types::SystemBlock| x.text@);
            let n = blocks.len();
            let mut out = String::new();
            let mut i: usize = 0;
            assert(texts.take(0) =~= Seq::<Seq<char>>::empty());
            while i < n
                invariant
                    n == blocks@.len(),
                    texts == blocks@.map_values(|x: crate::api::provider_types::SystemBlock| x.text@),
                    i <= n,
                    out@ == joined(texts.take(i as int)),
                decreases n - i,
            {
                assert(texts.take(i + 1).drop_last() =~= texts.take(i as int));
                if i > 0 {
                    out.append("\n");
                } else {
                    assert(texts.take(1) =~= seq![texts[0]]);
                }
                out.append(blocks[i].text.as_str());
                i = i + 1;
            }
            assert(texts.take(n as int) =~= texts);
            out
        },
    }
}

} // verus!

verus! {

/// The logged form of a system prompt: verbatim up to
/// `SYSTEM_PROMPT_LOG_PREVIEW` characters, else that many characters and a
/// note with the full length.
pub open spec fn prompt_preview_spec(text: Seq<char>) -> Seq<char> {
    if text.len() > SYSTEM_PROMPT_LOG_PREVIEW {
        text.take(SYSTEM_PROMPT_LOG_PREVIEW as int) + "...(truncated, "@ + crate::text::decimal(
            text.len(),
        ) + " chars total)"@
    } else {
        text
    }
}

/// The system prompt as the turn logs it.
pub fn system_prompt_preview(text: &str) -> (r: String)
    ensures
        r@ == prompt_preview_spec(text@),
{
    let n = text.unicode_len();
    if n > SYSTEM_PROMPT_LOG_PREVIEW {
        let mut out = String::from_str(text.substring_char(0, SYSTEM_PROMPT_LOG_PREVIEW));
        out.append("...(truncated, ");
        crate::text::push_decimal(&mut out, n as u64);
        out.append(" chars total)");
        out
    } else {
        String::from_str(text)
    }
}

} // verus!
