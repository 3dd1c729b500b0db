//! The chat pane of a session: its messages and their blocks, the typed
//! input, and whether a turn is streaming. Submitting appends the user's
//! message and an assistant placeholder; text deltas of the turn land in
//! the placeholder's blocks. Ids and clock readings come from the caller.

use vstd::prelude::*;
use vstd::string::*;

use crate::api::providers::ProviderSpec;
use crate::api::registry::{lookup, ProviderRegistry};
use crate::api::providers::ProviderId;
use crate::text::{is_blank, is_blank_spec};
use crate::ui::model::{BlockKind, Role, UiBlock, UiMessage};
use crate::ui::stream::StreamEvent;
use crate::ui::turn::TurnEvent;

verus! {

/// A message of the pane with the blocks shown for it.
#[derive(Debug, Clone)]
pub struct RenderedMessage {
    pub msg: UiMessage,
    pub blocks: Vec<UiBlock>,
}

/// Whether a turn is streaming.
#[derive(Debug, Clone, Copy, PartialEq, Eq, Structural)]
pub enum Phase {
    Idle,
    Streaming,
}

/// The chat pane's state.
#[derive(Debug)]
pub struct SessionView {
    pub session_id: Option<String>,
    pub messages: Vec<RenderedMessage>,
    pub input: String,
    pub phase: Phase,
}

/// The ids a submit needs: the user message, its text block and the
/// assistant placeholder.
pub struct SubmitIds {
    pub user_message: String,
    pub user_block: String,
    pub assistant_message: String,
}

/// The pane's session id: its own, else `demo`.
pub open spec fn session_of(v: SessionView) -> Seq<char> {
    match v.session_id {
        Some(s) => s@,
        None => "demo"@,
    }
}

/// `after` is `before` with the user's message (one text block holding
/// `input`) and an empty assistant placeholder appended, both in session
/// `sid` at time `now_ms`, with the next ordinals.
pub open spec fn turn_pushed(
    before: Seq<RenderedMessage>,
    after: Seq<RenderedMessage>,
    input: String,
    ids: SubmitIds,
    now_ms: i64,
    sid: Seq<char>,
) -> bool {
    let n = before.len() as int;
    let u = after[n];
    let a = after[n + 1];
    &&& after.len() == before.len() + 2
    &&& after.subrange(0, n) == before
    &&& u.msg.id == ids.user_message
    &&& u.msg.session_id@ == sid
    &&& u.msg.role == Role::User
    &&& u.msg.created_at == now_ms
    &&& u.msg.ordinal == n
    &&& u.blocks@.len() == 1
    &&& u.blocks@[0].id == ids.user_block
    &&& u.blocks@[0].message_id == ids.user_message
    &&& u.blocks@[0].ordinal == 0
    &&& u.blocks@[0].kind == (BlockKind::Text { text: input })
    &&& a.msg.id == ids.assistant_message
    &&& a.msg.session_id@ == sid
    &&& a.msg.role == Role::Assistant
    &&& a.msg.created_at == now_ms
    &&& a.msg.ordinal == n + 1
    &&& a.blocks@.len() == 0
}

/// What a submit did.
pub enum Submitted<'a> {
    /// Nothing: the input was blank or a turn is streaming.
    Ignored,
    /// The messages were appended, but no provider serves the model, so
    /// the pane stays idle with its input.
    NoProvider,
    /// The turn starts in session `session_id` with `provider`, sending
    /// `text` (the input, now cleared).
    Start { session_id: String, provider: &'a ProviderSpec, text: String },
}

/// Whether a turn ends the stream loop: `Done`, `Cancelled` or `Failed`.
pub open spec fn ends_turn(ev: TurnEvent) -> bool {
    ev is Done || ev is Cancelled || ev is Failed
}

/// Whether a turn event ends the stream loop.
pub fn is_final_event(ev: &TurnEvent) -> (r: bool)
    ensures
        r == ends_turn(*ev),
{
    match ev {
        TurnEvent::Done { .. } | TurnEvent::Cancelled | TurnEvent::Failed { .. } => true,
        _ => false,
    }
}

/// The provider for a model: the one registered under the model's name,
/// else the registry's default.
pub fn pick_provider<'a>(registry: &'a ProviderRegistry, model: &str) -> (r: Option<&'a ProviderSpec>)
    ensures
        match lookup(registry@, model@) {
            Some(p) => r matches Some(q) && q@ == p,
            None => match lookup(registry@, registry@.default_id) {
                Some(p) => r matches Some(q) && q@ == p,
                None => r is None,
            },
        },
{
    match registry.get(&ProviderId::new(model)) {
        Some(p) => Some(p),
        None => registry.default_provider(),
    }
}

impl SessionView {
    /// An empty pane.
    pub fn new() -> (r: SessionView)
        ensures
            r.session_id is None,
            r.messages@.len() == 0,
            r.input@.len() == 0,
            r.phase == Phase::Idle,
    {
        SessionView { session_id: None, messages: Vec::new(), input: String::new(), phase: Phase::Idle }
    }

    /// Whether submitting starts a turn: the input is not blank and no turn
    /// is streaming.
    pub fn can_submit(&self) -> (r: bool)
        ensures
            r == (!is_blank_spec(self.input@) && self.phase == Phase::Idle),
    {
        !is_blank(self.input.as_str()) && self.phase == Phase::Idle
    }

    /// Append the user's message (one text block holding the input) and an
    /// empty assistant placeholder, both in the pane's session (`demo`
    /// when it has none) at time `now_ms`; return that session id.
    pub fn push_turn_messages(&mut self, ids: SubmitIds, now_ms: i64) -> (r: String)
        requires
            old(self).messages@.len() + 1 < i32::MAX,
        ensures
            r@ == match old(self).session_id {
                Some(s) => s@,
                None => "demo"@,
            },
            turn_pushed(old(self).messages@, final(self).messages@, old(self).input, ids, now_ms, r@),
            final(self).input == old(self).input,
            final(self).phase == old(self).phase,
            final(self).session_id == old(self).session_id,
    {
        let session_id = match &self.session_id {
            Some(s) => s.clone(),
            None => String::from_str("demo"),
        };
        let n = self.messages.len();
        let user_block = UiBlock {
            id: ids.user_block,
            message_id: ids.user_message.clone(),
            ordinal: 0,
            kind: BlockKind::Text { text: self.input.clone() },
        };
        let user_msg = UiMessage {
            id: ids.user_message,
            session_id: session_id.clone(),
            role: Role::User,
            created_at: now_ms,
            ordinal: n as i32,
        };
        self.messages.push(RenderedMessage { msg: user_msg, blocks: vec![user_block] });
        let assistant_msg = UiMessage {
            id: ids.assistant_message,
            session_id: session_id.clone(),
            role: Role::Assistant,
            created_at: now_ms,
            ordinal: (n + 1) as i32,
        };
        self.messages.push(RenderedMessage { msg: assistant_msg, blocks: Vec::new() });
        assert(self.messages@.subrange(0, n as int) =~= old(self).messages@);
        session_id
    }

    /// Submit the input: when it can be submitted, append the user's message
    /// and the assistant placeholder, then pick the provider for `model`
    /// (see `pick_provider`); with one, start streaming and hand over the
    /// input; without one, stay idle.
    pub fn submit<'a>(
        &mut self,
        registry: &'a ProviderRegistry,
        model: &str,
        ids: SubmitIds,
        now_ms: i64,
    ) -> (r: Submitted<'a>)
        requires
            old(self).messages@.len() + 1 < i32::MAX,
        ensures
            !(!is_blank_spec(old(self).input@) && old(self).phase == Phase::Idle) ==> (r is Ignored
                && *final(self) == *old(self)),
            (!is_blank_spec(old(self).input@) && old(self).phase == Phase::Idle) ==> {
                &&& turn_pushed(
                    old(self).messages@,
                    final(self).messages@,
                    old(self).input,
                    ids,
                    now_ms,
                    session_of(*old(self)),
                )
                &&& final(self).session_id == old(self).session_id
                &&& match lookup(registry@, model@) {
                    Some(p) => Some(p),
                    None => lookup(registry@, registry@.default_id),
                } matches Some(p) ==> {
                    &&& r matches Submitted::Start { session_id, provider, text }
                    &&& session_id@ == session_of(*old(self))
                    &&& provider@ == p
                    &&& text == old(self).input
                    &&& final(self).phase == Phase::Streaming
                    &&& final(self).input@.len() == 0
                }
                &&& match lookup(registry@, model@) {
                    Some(p) => Some(p),
                    None => lookup(registry@, registry@.default_id),
                } is None ==> {
                    &&& r is NoProvider
                    &&& final(self).phase == Phase::Idle
                    &&& final(self).input == old(self).input
                }
            },
    {
        if !self.can_submit() {
            return Submitted::Ignored;
        }
        let session_id = self.push_turn_messages(ids, now_ms);
        match pick_provider(registry, model) {
            Some(p) => {
                let text = self.start_streaming();
                Submitted::Start { session_id, provider: p, text }
            },
            None => Submitted::NoProvider,
        }
    }

    /// The turn started: mark the pane streaming and take the input (which
    /// is cleared).
    pub fn start_streaming(&mut self) -> (r: String)
        ensures
            r == old(self).input,
            final(self).input@.len() == 0,
            final(self).phase == Phase::Streaming,
            final(self).messages == old(self).messages,
            final(self).session_id == old(self).session_id,
    {
        self.phase = Phase::Streaming;
        let mut taken = String::new();
        std::mem::swap(&mut taken, &mut self.input);
        taken
    }

    /// A turn event arrived. A text delta for block `b` is appended to the
    /// last message's text block of ordinal `b`, or becomes a new text block
    /// (id `new_block_id`) when the message has no block of that ordinal;
    /// `Done`, `Cancelled` and `Failed` end the streaming.
    pub fn on_turn_event(&mut self, ev: TurnEvent, new_block_id: String)
        requires
            ev matches TurnEvent::Stream(StreamEvent::TextDelta { block, .. }) ==> block <= i32::MAX,
        ensures
            ends_turn(ev) ==> final(self).phase == Phase::Idle && final(self).messages == old(self).messages,
            !ends_turn(ev) ==> final(self).phase == old(self).phase,
            !(ev matches TurnEvent::Stream(StreamEvent::TextDelta { .. })) ==> final(self).messages
                == old(self).messages,
            final(self).messages@.len() == old(self).messages@.len(),
            final(self).input == old(self).input,
            ev matches TurnEvent::Stream(StreamEvent::TextDelta { block, text }) ==> (
            old(self).messages@.len() > 0 ==> {
                let n = old(self).messages@.len() - 1;
                let before = old(self).messages@[n];
                let after = final(self).messages@[n];
                &&& final(self).messages@.subrange(0, n) == old(self).messages@.subrange(0, n)
                &&& after.msg == before.msg
                &&& match first_block_at(before.blocks@, block) {
                    Some(i) => {
                        &&& after.blocks@.len() == before.blocks@.len()
                        &&& forall|j: int| 0 <= j < before.blocks@.len() && j != i ==> after.blocks@[j] == before.blocks@[j]
                        &&& (if before.blocks@[i].kind is Text {
                            after.blocks@[i].kind matches BlockKind::Text { text: t }
                                && t@ == before.blocks@[i].kind->Text_text@ + text@
                                && after.blocks@[i].id == before.blocks@[i].id
                                && after.blocks@[i].message_id == before.blocks@[i].message_id
                                && after.blocks@[i].ordinal == before.blocks@[i].ordinal
                        } else {
                            after.blocks@[i] == before.blocks@[i]
                        })
                    },
                    None => {
                        &&& after.blocks@ == before.blocks@.push(
                            UiBlock {
                                id: new_block_id,
                                message_id: before.msg.id,
                                ordinal: block as i32,
                                kind: BlockKind::Text { text },
                            },
                        )
                    },
                }
            }),
    {
        match ev {
            TurnEvent::Stream(StreamEvent::TextDelta { block, text }) => {
                let n = self.messages.len();
                if n > 0 {
                    let mut last = self.messages.pop().unwrap();
                    let ghost before = last;
                    let found = find_block(&last.blocks, block);
                    match found {
                        Some(i) => {
                            let updated = match &last.blocks[i].kind {
                                BlockKind::Text { text: t } => {
                                    let mut t2 = t.clone();
                                    t2.append(text.as_str());
                                    Some(
                                        UiBlock {
                                            id: last.blocks[i].id.clone(),
                                            message_id: last.blocks[i].message_id.clone(),
                                            ordinal: last.blocks[i].ordinal,
                                            kind: BlockKind::Text { text: t2 },
                                        },
                                    )
                                },
                                _ => None,
                            };
                            if let Some(b) = updated {
                                last.blocks.set(i, b);
                            }
                        },
                        None => {
                            let message_id = last.msg.id.clone();
                            last.blocks.push(
                                UiBlock {
                                    id: new_block_id,
                                    message_id,
                                    ordinal: block as i32,
                                    kind: BlockKind::Text { text },
                                },
                            );
                        },
                    }
                    let ghost popped = self.messages@;
                    self.messages.push(last);
                    assert(self.messages@.subrange(0, (n - 1) as int) =~= popped);
                    assert(old(self).messages@.subrange(0, (n - 1) as int) =~= popped);
                }
            },
            TurnEvent::Done { .. } | TurnEvent::Cancelled | TurnEvent::Failed { .. } => {
                self.phase = Phase::Idle;
            },
            _ => {},
        }
    }
}

/// The position of the first block whose ordinal, read as an index, is
/// `b`.
pub open spec fn first_block_at(blocks: Seq<UiBlock>, b: usize) -> Option<int>
    decreases blocks.len(),
{
    if blocks.len() == 0 {
        None
    } else {
        match first_block_at(blocks.drop_last(), b) {
            Some(i) => Some(i),
            None => if blocks.last().ordinal as usize == b {
                Some(blocks.len() - 1)
            } else {
                None
            },
        }
    }
}

fn find_block(blocks: &Vec<UiBlock>, b: usize) -> (r: Option<usize>)
    ensures
        r matches Some(k) ==> k < blocks@.len() && first_block_at(blocks@, b) == Some(k as int),
        r is None ==> first_block_at(blocks@, b) is None,
{
    let n = blocks.len();
    let mut i: usize = 0;
    assert(blocks@.take(0) =~= Seq::<UiBlock>::empty());
    while i < n
        invariant
            n == blocks@.len(),
            i <= n,
            first_block_at(blocks@.take(i as int), b) is None,
        decreases n - i,
    {
        assert(blocks@.take(i + 1).drop_last() =~= blocks@.take(i as int));
        if blocks[i].ordinal as usize == b {
            proof { lemma_first_block_prefix(blocks@, b, (i + 1) as int); }
            return Some(i);
        }
        i = i + 1;
    }
    assert(blocks@.take(n as int) =~= blocks@);
    None
}

proof fn lemma_first_block_prefix(blocks: Seq<UiBlock>, b: usize, k: int)
    requires
        0 <= k <= blocks.len(),
        first_block_at(blocks.take(k), b) is Some,
    ensures
        first_block_at(blocks, b) == first_block_at(blocks.take(k), b),
    decreases blocks.len() - k,
{
    if k < blocks.len() {
        assert(blocks.drop_last().take(k) =~= blocks.take(k));
        lemma_first_block_prefix(blocks.drop_last(), b, k);
    } else {
        assert(blocks.take(k) =~= blocks);
    }
}

} // verus!
