//! The UI turn: the decisions of the streaming loop as a state machine
//! (the caller owns the provider stream, the channel and cancellation), and
//! the construction of the user message and request.

use base64::Engine;
use vstd::prelude::*;
use vstd::string::*;

use crate::api::provider_types::{ProviderRequest, StreamEvent as PStream, SystemPrompt};
use crate::json::{json_entries, json_get, json_map_new, json_object};
use crate::types::{ContentBlock, DocumentSource, ImageSource, Message, MessageContent, Role};
use crate::ui::model::{Attachment, AttachmentKind};
use crate::ui::provider::unified::{merged_stop, translate_step, Translator, TranslatorState};
use crate::ui::stream::{event_views, StreamEvent, StreamEventView};

verus! {

/// What the turn reports to the chat view.
#[derive(Debug, Clone)]
pub enum TurnEvent {
    Stream(StreamEvent),
    ToolStart { id: String, name: String },
    ToolEnd { id: String, content: String, is_error: bool },
    Done { stop_reason: String },
    Failed { message: String, retryable: bool },
    Cancelled,
}

/// The content of a `TurnEvent`.
pub enum TurnEventView {
    Stream(StreamEventView),
    ToolStart { id: Seq<char>, name: Seq<char> },
    ToolEnd { id: Seq<char>, content: Seq<char>, is_error: bool },
    Done { stop_reason: Seq<char> },
    Failed { message: Seq<char>, retryable: bool },
    Cancelled,
}

impl View for TurnEvent {
    type V = TurnEventView;

    open spec fn view(&self) -> TurnEventView {
        match self {
            TurnEvent::Stream(e) => TurnEventView::Stream(e@),
            TurnEvent::ToolStart { id, name } => TurnEventView::ToolStart { id: id@, name: name@ },
            TurnEvent::ToolEnd { id, content, is_error } => TurnEventView::ToolEnd {
                id: id@,
                content: content@,
                is_error: *is_error,
            },
            TurnEvent::Done { stop_reason } => TurnEventView::Done { stop_reason: stop_reason@ },
            TurnEvent::Failed { message, retryable } => TurnEventView::Failed {
                message: message@,
                retryable: *retryable,
            },
            TurnEvent::Cancelled => TurnEventView::Cancelled,
        }
    }
}

/// The views of a sequence of turn events.
pub open spec fn turn_views(s: Seq<TurnEvent>) -> Seq<TurnEventView> {
    s.map_values(|e: TurnEvent| e@)
}

/// What the chat view is sent for UI stream events produced mid-stream: each
/// event, and after a `MessageStop` a `Done` with its stop reason.
pub open spec fn forwarded(evs: Seq<StreamEventView>) -> Seq<TurnEventView>
    decreases evs.len(),
{
    if evs.len() == 0 {
        Seq::empty()
    } else {
        let last = evs.last();
        forwarded(evs.drop_last()) + match last {
            StreamEventView::MessageStop { stop_reason, .. } => seq![
                TurnEventView::Stream(last),
                TurnEventView::Done { stop_reason },
            ],
            _ => seq![TurnEventView::Stream(last)],
        }
    }
}

/// Whether `evs` holds a `MessageStop`.
pub open spec fn has_stop(evs: Seq<StreamEventView>) -> bool {
    exists|i: int| 0 <= i < evs.len() && evs[i] is MessageStop
}

/// The state of a streaming turn.
pub struct TurnDriverState {
    pub translator: TranslatorState,
    pub saw_message_stop: bool,
}

/// The decisions of a streaming turn: translation of provider events and
/// when the turn is over.
pub struct TurnDriver {
    translator: Translator,
    saw_message_stop: bool,
}

impl View for TurnDriver {
    type V = TurnDriverState;

    closed spec fn view(&self) -> TurnDriverState {
        TurnDriverState { translator: self.translator@, saw_message_stop: self.saw_message_stop }
    }
}

fn forward_events(evs: Vec<StreamEvent>) -> (r: (Vec<TurnEvent>, bool))
    ensures
        turn_views(r.0@) == forwarded(event_views(evs@)),
        r.1 == has_stop(event_views(evs@)),
{
    let n = evs.len();
    let mut out: Vec<TurnEvent> = Vec::new();
    let mut saw = false;
    let mut i: usize = 0;
    while i < n
        invariant
            n == evs@.len(),
            i <= n,
            turn_views(out@) == forwarded(event_views(evs@.take(i as int))),
            saw == has_stop(event_views(evs@.take(i as int))),
        decreases n - i,
    {
        let ghost pre = event_views(evs@.take(i as int));
        let ev = evs[i].duplicate();
        let ghost v = ev@;
        proof {
            assert(event_views(evs@.take(i + 1)) =~= pre.push(v));
            assert(pre.push(v).drop_last() =~= pre);
        }
        let stop = match &ev {
            StreamEvent::MessageStop { stop_reason, .. } => Some(stop_reason.clone()),
            _ => None,
        };
        out.push(TurnEvent::Stream(ev));
        match stop {
            Some(sr) => {
                out.push(TurnEvent::Done { stop_reason: sr });
                saw = true;
            },
            None => {},
        }
        proof {
            assert(turn_views(out@) =~= forwarded(pre.push(v)));
            if v is MessageStop {
                assert(pre.push(v)[i as int] is MessageStop);
            } else {
                assert(has_stop(pre.push(v)) == has_stop(pre)) by {
                    if has_stop(pre.push(v)) {
                        let k = choose|k: int| 0 <= k < pre.push(v).len() && pre.push(v)[k] is MessageStop;
                        assert(pre[k] is MessageStop);
                    }
                    if has_stop(pre) {
                        let k = choose|k: int| 0 <= k < pre.len() && pre[k] is MessageStop;
                        assert(pre.push(v)[k] is MessageStop);
                    }
                }
            }
        }
        i = i + 1;
    }
    assert(evs@.take(n as int) =~= evs@);
    (out, saw)
}

impl TurnDriver {
    /// A turn that has not seen any event.
    pub fn new() -> (r: TurnDriver)
        ensures
            r@.translator == TranslatorState::empty(),
            !r@.saw_message_stop,
    {
        TurnDriver { translator: Translator::new(), saw_message_stop: false }
    }

    /// A provider event arrived: the events to send to the chat view, and
    /// whether the turn is over (a `MessageStop` was forwarded).
    pub fn on_event(&mut self, ev: PStream) -> (r: (Vec<TurnEvent>, bool))
        ensures
            final(self)@.translator == translate_step(old(self)@.translator, ev).0,
            turn_views(r.0@) == forwarded(translate_step(old(self)@.translator, ev).1),
            final(self)@.saw_message_stop == (old(self)@.saw_message_stop || has_stop(
                translate_step(old(self)@.translator, ev).1,
            )),
            r.1 == final(self)@.saw_message_stop,
    {
        let evs = self.translator.push(ev);
        let (out, saw) = forward_events(evs);
        if saw {
            self.saw_message_stop = true;
        }
        (out, self.saw_message_stop)
    }

    /// The stream ended without a `MessageStop`: report the merged stop
    /// event, then `Done` with its stop reason (the buffered one, or
    /// `end_turn`), so that, as when the stream stops itself, `Done` comes
    /// last.
    pub fn on_stream_end(&mut self) -> (r: Vec<TurnEvent>)
        ensures
            turn_views(r@) == (match merged_stop(old(self)@.translator) {
                StreamEventView::MessageStop { stop_reason, usage } => seq![
                    TurnEventView::Stream(merged_stop(old(self)@.translator)),
                    TurnEventView::Done { stop_reason },
                ],
                _ => Seq::empty(),
            }),
            final(self)@.translator == TranslatorState::empty(),
            final(self)@.saw_message_stop,
    {
        let evs = self.translator.push(PStream::MessageStop);
        let ghost evv = event_views(evs@);
        assert(evv.len() == 1);
        let mut out: Vec<TurnEvent> = Vec::new();
        let n = evs.len();
        let mut i: usize = 0;
        while i < n
            invariant
                n == evs@.len(),
                n == 1,
                evv == event_views(evs@),
                evv[0] is MessageStop,
                i <= n,
                i == 0 ==> out@.len() == 0,
                i == 1 ==> turn_views(out@) == (match evv[0] {
                    StreamEventView::MessageStop { stop_reason, usage } => seq![
                        TurnEventView::Stream(evv[0]),
                        TurnEventView::Done { stop_reason },
                    ],
                    _ => Seq::empty(),
                }),
                i == 1 ==> self.saw_message_stop,
                self.translator@ == TranslatorState::empty(),
            decreases n - i,
        {
            let ev = evs[i].duplicate();
            let done = match &ev {
                StreamEvent::MessageStop { stop_reason, .. } => Some(TurnEvent::Done { stop_reason: stop_reason.clone() }),
                _ => None,
            };
            out.push(TurnEvent::Stream(ev));
            if let Some(d) = done {
                out.push(d);
                self.saw_message_stop = true;
            }
            proof {
                assert(turn_views(out@) =~= (match evv[0] {
                    StreamEventView::MessageStop { stop_reason, usage } => seq![
                        TurnEventView::Stream(evv[0]),
                        TurnEventView::Done { stop_reason },
                    ],
                    _ => Seq::empty(),
                }));
            }
            i = i + 1;
        }
        if !self.saw_message_stop {
            out.push(TurnEvent::Done { stop_reason: String::from_str("end_turn") });
        }
        out
    }
}

/// The event reported when the provider refused to open a stream.
pub fn stream_open_failed(error: &str) -> (r: TurnEvent)
    ensures
        r@ == (TurnEventView::Failed {
            message: "create_message_stream: "@ + error@,
            retryable: true,
        }),
{
    let mut message = String::from_str("create_message_stream: ");
    message.append(error);
    TurnEvent::Failed { message, retryable: true }
}

/// The event reported when the stream yields an error.
pub fn stream_failed(error: &str) -> (r: TurnEvent)
    ensures
        r@ == (TurnEventView::Failed { message: "stream error: "@ + error@, retryable: true }),
{
    let mut message = String::from_str("stream error: ");
    message.append(error);
    TurnEvent::Failed { message, retryable: true }
}

/// A turn stops at its first `MessageStop`: once a `MessageStop` has been
/// forwarded the driver reports the turn over, whatever arrives after.
pub proof fn law_stop_ends_turn(st: TurnDriverState, ev: PStream)
    requires
        ev is MessageStop,
    ensures
        has_stop(translate_step(st.translator, ev).1),
        forwarded(translate_step(st.translator, ev).1).len() == 2,
        forwarded(translate_step(st.translator, ev).1)[1] is Done,
{
    let out = translate_step(st.translator, ev).1;
    assert(out[0] is MessageStop);
    assert(out.drop_last().len() == 0);
    assert(forwarded(out.drop_last()) =~= Seq::<TurnEventView>::empty());
}

} // verus!

verus! {

/// The digit of the standard base64 alphabet for a 6-bit value:
/// `A`-`Z`, `a`-`z`, `0`-`9`, `+`, `/`.
pub open spec fn base64_digit(v: int) -> char {
    if v < 26 {
        (65 + v) as char
    } else if v < 52 {
        (97 + v - 26) as char
    } else if v < 62 {
        (48 + v - 52) as char
    } else if v == 62 {
        '+'
    } else {
        '/'
    }
}

/// The standard base64 encoding of `bytes`, with `=` padding, as
/// `base64::engine::general_purpose::STANDARD` produces it: each group of
/// three bytes becomes four digits of six bits each; a last group of one
/// or two bytes becomes two or three digits (its last bits padded with
/// zeros) followed by `==` or `=`.
pub open spec fn base64_standard(bytes: Seq<u8>) -> Seq<char>
    decreases bytes.len(),
{
    if bytes.len() == 0 {
        Seq::empty()
    } else if bytes.len() == 1 {
        let a = bytes[0] as int;
        seq![base64_digit(a / 4), base64_digit((a % 4) * 16), '=', '=']
    } else if bytes.len() == 2 {
        let (a, b) = (bytes[0] as int, bytes[1] as int);
        seq![base64_digit(a / 4), base64_digit((a % 4) * 16 + b / 16), base64_digit((b % 16) * 4), '=']
    } else {
        let (a, b, c) = (bytes[0] as int, bytes[1] as int, bytes[2] as int);
        seq![
            base64_digit(a / 4),
            base64_digit((a % 4) * 16 + b / 16),
            base64_digit((b % 16) * 4 + c / 64),
            base64_digit(c % 64),
        ] + base64_standard(bytes.subrange(3, bytes.len() as int))
    }
}

/// Encode `bytes` with the standard base64 engine.
#[verifier::external_body]
fn base64_encode(bytes: &[u8]) -> (r: String)
    ensures
        r@ == base64_standard(bytes@),
{
    base64::engine::general_purpose::STANDARD.encode(bytes)
}

/// `String::from_utf8`: the text `bytes` encode, when they are valid UTF-8.
#[verifier::external_body]
fn utf8_to_string(bytes: Vec<u8>) -> (r: Option<String>)
    ensures
        r is Some <==> vstd::utf8::valid_utf8(bytes@),
        r matches Some(s) ==> s@ == vstd::utf8::decode_utf8(bytes@),
{
    String::from_utf8(bytes).ok()
}

/// An attachment's contents can be sent: they were read, and a text
/// attachment is valid UTF-8.
pub open spec fn readable(att: Attachment, data: Option<Vec<u8>>) -> bool {
    match data {
        Some(d) => att.kind != AttachmentKind::Text || vstd::utf8::valid_utf8(d@),
        None => false,
    }
}

/// `b` is the block attachment `att` with contents `data` becomes: images
/// and PDFs inline as base64, text files inline as text, titled with the
/// attachment's name (documents only).
pub open spec fn is_attachment_block(att: Attachment, data: Seq<u8>, b: ContentBlock) -> bool {
    match att.kind {
        AttachmentKind::Image => {
            &&& b matches ContentBlock::Image { source }
            &&& b->Image_source.source_type@ == "base64"@
            &&& b->Image_source.media_type matches Some(m) && m@ == att.mime@
            &&& b->Image_source.data matches Some(d) && d@ == base64_standard(data)
            &&& b->Image_source.url is None
            &&& b->Image_source.file_id is None
        },
        AttachmentKind::Pdf => {
            &&& b matches ContentBlock::Document { source, title, context, citations }
            &&& b->Document_source.source_type@ == "base64"@
            &&& b->Document_source.media_type matches Some(m) && m@ == att.mime@
            &&& b->Document_source.data matches Some(d) && d@ == base64_standard(data)
            &&& b->Document_source.url is None
            &&& b->Document_source.file_id is None
            &&& b->title matches Some(t) && t@ == att.display_name@
            &&& b->context is None
            &&& b->citations is None
        },
        AttachmentKind::Text => {
            &&& b matches ContentBlock::Document { source, title, context, citations }
            &&& b->Document_source.source_type@ == "text"@
            &&& b->Document_source.media_type matches Some(m) && m@ == att.mime@
            &&& b->Document_source.data matches Some(d) && d@ == vstd::utf8::decode_utf8(data)
            &&& b->Document_source.url is None
            &&& b->Document_source.file_id is None
            &&& b->title matches Some(t) && t@ == att.display_name@
            &&& b->context is None
            &&& b->citations is None
        },
    }
}

/// Convert an attachment and its contents (`None` when the file could not be
/// read) to a content block; `None` when there is nothing to send.
pub fn attachment_to_content_block(att: &Attachment, data: Option<Vec<u8>>) -> (r: Option<
    ContentBlock,
>)
    ensures
        r is Some <==> readable(*att, data),
        r matches Some(b) ==> is_attachment_block(*att, data->0@, b),
{
    let data = match data {
        Some(d) => d,
        None => return None,
    };
    match att.kind {
        AttachmentKind::Image => Some(
            ContentBlock::Image {
                source: ImageSource {
                    source_type: String::from_str("base64"),
                    media_type: Some(att.mime.clone()),
                    data: Some(base64_encode(data.as_slice())),
                    url: None,
                    file_id: None,
                },
            },
        ),
        AttachmentKind::Pdf => Some(
            ContentBlock::Document {
                source: DocumentSource {
                    source_type: String::from_str("base64"),
                    media_type: Some(att.mime.clone()),
                    data: Some(base64_encode(data.as_slice())),
                    url: None,
                    file_id: None,
                },
                title: Some(att.display_name.clone()),
                context: None,
                citations: None,
            },
        ),
        AttachmentKind::Text => {
            let body = match utf8_to_string(data) {
                Some(b) => b,
                None => return None,
            };
            Some(
                ContentBlock::Document {
                    source: DocumentSource {
                        source_type: String::from_str("text"),
                        media_type: Some(att.mime.clone()),
                        data: Some(body),
                        url: None,
                        file_id: None,
                    },
                    title: Some(att.display_name.clone()),
                    context: None,
                    citations: None,
                },
            )
        },
    }
}

/// `blocks` are, in order, the blocks of the readable attachments of `atts`
/// (with contents `datas`).
pub open spec fn attachment_blocks(
    atts: Seq<Attachment>,
    datas: Seq<Option<Vec<u8>>>,
    blocks: Seq<ContentBlock>,
) -> bool
    decreases atts.len(),
{
    if atts.len() == 0 || datas.len() == 0 {
        blocks.len() == 0
    } else if readable(atts.last(), datas.last()) {
        &&& blocks.len() > 0
        &&& is_attachment_block(atts.last(), datas.last()->0@, blocks.last())
        &&& attachment_blocks(atts.drop_last(), datas.drop_last(), blocks.drop_last())
    } else {
        attachment_blocks(atts.drop_last(), datas.drop_last(), blocks)
    }
}

/// Build the user message for a prompt and its attachments: one block per
/// readable attachment (in order), then the prompt text. `contents[i]` holds
/// the bytes of `attachments[i]`, `None` when it could not be read.
pub fn make_user_message(
    text: &str,
    attachments: &Vec<Attachment>,
    contents: Vec<Option<Vec<u8>>>,
) -> (r: Message)
    requires
        attachments@.len() == contents@.len(),
    ensures
        r.role == Role::User,
        r.uuid is None,
        r.content is Blocks,
        ({
            let blocks = r.content->Blocks_0@;
            &&& blocks.len() > 0
            &&& blocks.last() matches ContentBlock::Text { text: t } && t@ == text@
            &&& attachment_blocks(attachments@, contents@, blocks.drop_last())
        }),
{
    let ghost datas = contents@;
    let n = attachments.len();
    let mut blocks: Vec<ContentBlock> = Vec::new();
    let mut rest = contents;
    let mut taken: Vec<Option<Vec<u8>>> = Vec::new();
    let mut i: usize = 0;
    assert(attachments@.take(0) =~= Seq::<Attachment>::empty());
    assert(datas.take(0) =~= Seq::<Option<Vec<u8>>>::empty());
    while i < n
        invariant
            n == attachments@.len(),
            n == datas.len(),
            i <= n,
            rest@ == datas.skip(i as int),
            attachment_blocks(attachments@.take(i as int), datas.take(i as int), blocks@),
        decreases n - i,
    {
        let data = rest.remove(0);
        assert(data == datas[i as int]);
        proof {
            assert(attachments@.take(i + 1).drop_last() =~= attachments@.take(i as int));
            assert(datas.take(i + 1).drop_last() =~= datas.take(i as int));
            assert(attachments@.take(i + 1).last() == attachments@[i as int]);
            assert(datas.take(i + 1).last() == datas[i as int]);
            assert(rest@ =~= datas.skip(i + 1));
        }
        let ghost before = blocks@;
        match attachment_to_content_block(&attachments[i], data) {
            Some(cb) => {
                blocks.push(cb);
                assert(blocks@.drop_last() =~= before);
            },
            None => {},
        }
        i = i + 1;
    }
    assert(attachments@.take(n as int) =~= attachments@);
    assert(datas.take(n as int) =~= datas);
    let ghost before = blocks@;
    blocks.push(ContentBlock::Text { text: String::from_str(text) });
    assert(blocks@.drop_last() =~= before);
    Message { role: Role::User, content: MessageContent::Blocks(blocks), uuid: None }
}

/// An empty JSON object (`{}`), the default provider options.
fn empty_json_object() -> (r: serde_json::Value)
    ensures
        json_entries(r) is Some,
        forall|k: Seq<char>| #[trigger] json_get(r, k) is None,
{
    json_object(json_map_new())
}

/// A request for `model` with the given history: no system prompt, no
/// tools, no stop sequences, no thinking, empty provider options.
pub fn new_request(model: &str, max_tokens: u32, messages: Vec<Message>) -> (r: ProviderRequest)
    ensures
        r.model@ == model@,
        r.messages == messages,
        r.system_prompt is None,
        r.tools@.len() == 0,
        r.max_tokens == max_tokens,
        r.top_k is None,
        r.stop_sequences@.len() == 0,
        r.thinking is None,
        json_entries(r.provider_options) is Some,
        forall|k: Seq<char>| #[trigger] json_get(r.provider_options, k) is None,
{
    ProviderRequest {
        model: String::from_str(model),
        messages,
        system_prompt: None,
        tools: Vec::new(),
        max_tokens,
        top_k: None,
        stop_sequences: Vec::new(),
        thinking: None,
        provider_options: empty_json_object(),
    }
}

/// Attach a system prompt to a request.
pub fn with_system_prompt(req: ProviderRequest, system: String) -> (r: ProviderRequest)
    ensures
        r == (ProviderRequest { system_prompt: Some(SystemPrompt::Text(system)), ..req }),
{
    let mut req = req;
    req.system_prompt = Some(SystemPrompt::Text(system));
    req
}

/// The directory a session is anchored to: the path itself.
pub fn working_dir_marker(p: &std::path::Path) -> (r: &std::path::Path)
    ensures
        r == p,
{
    p
}

} // verus!
