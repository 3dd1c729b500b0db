//! A whole tool-calling turn as one state machine: the caller checks for
//! cancellation, streams the provider's events, and runs tools when asked,
//! and hands back what happened; the machine says which events to send and
//! what to do next. It keeps a record of every event it has handed out, so
//! that what a turn sends can be stated: one final event, and it comes last.

use vstd::prelude::*;
use vstd::string::*;

use crate::agent::turn::{
    call_outcome, delta_view, fail, lemma_block_step_reports_deltas, next_request, outcome_result, tool_end,
    ClaudeError, Flow, RoundEnd, RoundStart, RoundState, ToolOutcome, TurnEvent, TurnLoop, MAX_TOOL_ROUNDS,
};
use crate::api::provider_types::{ProviderRequest, StreamEvent};
use crate::types::{ContentBlock, Message, MessageContent, Role, ToolResultContent};

verus! {

/// Whether an event ends a turn: `Done`, `Failed` or `Cancelled`.
pub open spec fn is_final(e: TurnEvent) -> bool {
    e is Done || e is Failed || e is Cancelled
}

/// The events a turn has sent: no final event but possibly the last one,
/// and a final last event exactly when the turn is over.
pub open spec fn log_ok(log: Seq<TurnEvent>, over: bool) -> bool {
    &&& forall|i: int| 0 <= i < log.len() - 1 ==> !is_final(#[trigger] log[i])
    &&& (over <==> (log.len() > 0 && is_final(log.last())))
}

/// Whether `b` is a tool result for call `id`.
pub open spec fn answers_call(b: ContentBlock, id: Seq<char>) -> bool {
    b matches ContentBlock::ToolResult { tool_use_id: i, .. } && i@ == id
}

/// Whether `b` is the tool result for call `id` with text `text` and error
/// flag `err`.
pub open spec fn tool_result_is(b: ContentBlock, id: Seq<char>, text: Seq<char>, err: bool) -> bool {
    b matches ContentBlock::ToolResult {
        tool_use_id: i,
        content: ToolResultContent::Text(t),
        is_error: Some(e),
    } && i@ == id && t@ == text && e == err
}

/// How a tool call ended, as the caller reports it: cancelled before it
/// ran, or the outcome of the run.
pub open spec fn reported_outcome(input: TurnInput) -> ToolOutcome {
    match input {
        TurnInput::ToolRan { cancelled, outcome } => if cancelled {
            ToolOutcome::Cancelled
        } else {
            outcome->0
        },
        _ => ToolOutcome::Cancelled,
    }
}

/// The request that follows a tool round: the previous request's messages,
/// then the round's assistant message, then one user message whose blocks
/// are exactly `results`.
pub open spec fn round_closed(
    before: ProviderRequest,
    after: ProviderRequest,
    assistant: Message,
    results: Seq<ContentBlock>,
) -> bool {
    let n = before.messages@.len();
    &&& after.messages@.len() == n + 2
    &&& after.messages@.subrange(0, n as int) == before.messages@
    &&& after.messages@[n as int] == assistant
    &&& after.messages@[n + 1int] matches Message {
        role: Role::User,
        content: MessageContent::Blocks(b),
        uuid: None,
    } && b@ == results
}

/// The blocks of the last message of `q` (none when it holds plain text).
pub open spec fn closing_blocks(q: ProviderRequest) -> Seq<ContentBlock> {
    match q.messages@.last().content {
        MessageContent::Blocks(b) => b@,
        MessageContent::Text(_) => Seq::empty(),
    }
}

/// What the caller hands back.
pub enum TurnInput {
    /// Whether the turn has been cancelled (asked for by `CheckCancel`).
    Check { cancelled: bool },
    /// The next event of the round's stream, and whether the turn was
    /// cancelled before it was handled.
    Event { cancelled: bool, event: StreamEvent },
    /// The round's stream ended.
    StreamEnd,
    /// The tool call asked for: whether the turn was cancelled before it
    /// ran, and, when it ran, how it ended.
    ToolRan { cancelled: bool, outcome: Option<ToolOutcome> },
}

/// What the caller does next.
pub enum TurnAction {
    /// Check for cancellation and hand back `Check`.
    CheckCancel,
    /// Start streaming the next round's response for `request()`, and hand
    /// back its events one by one (then `StreamEnd`).
    Stream,
    /// Hand back the next event of the stream (or `StreamEnd`).
    NextEvent,
    /// Run tool `name` on `input` for call `id` unless the turn was
    /// cancelled, and hand back `ToolRan`.
    RunTool { id: String, name: String, input: serde_json::Value },
    /// The turn is over with this result.
    Finished(Result<(), ClaudeError>),
    /// The turn was already over.
    Over,
}

/// Which input a turn waits for.
pub enum Waiting {
    /// A cancellation check (`Check`).
    Check,
    /// The round's next stream event (`Event` or `StreamEnd`).
    Stream,
    /// The outcome of a tool call (`ToolRan`).
    Tool,
    /// Nothing: the turn is over.
    Nothing,
}

enum RunPhase {
    Begin,
    Streaming(RoundState),
    Tools { assistant: Message, calls: Vec<(String, String, serde_json::Value)>, next: usize, results: Vec<ContentBlock> },
    Over,
}

/// A turn in progress.
pub struct TurnRun {
    phase: RunPhase,
    rounds: TurnLoop,
    request: Option<ProviderRequest>,
    log: Ghost<Seq<TurnEvent>>,
}

impl TurnRun {
    /// Every event the turn has handed out, in order.
    pub closed spec fn log(&self) -> Seq<TurnEvent> {
        self.log@
    }

    /// Whether the turn is over.
    pub closed spec fn is_over(&self) -> bool {
        self.phase is Over
    }

    /// Which input the turn waits for.
    pub closed spec fn waiting(&self) -> Waiting {
        match self.phase {
            RunPhase::Begin => Waiting::Check,
            RunPhase::Streaming(_) => Waiting::Stream,
            RunPhase::Tools { .. } => Waiting::Tool,
            RunPhase::Over => Waiting::Nothing,
        }
    }

    /// How many rounds have streamed.
    pub closed spec fn streams(&self) -> nat {
        self.rounds.rounds()
    }

    /// The tool calls of the current round, as (id, name), while they run.
    pub closed spec fn pending_calls(&self) -> Seq<(Seq<char>, Seq<char>)> {
        match self.phase {
            RunPhase::Tools { calls, .. } => calls@.map_values(
                |c: (String, String, serde_json::Value)| (c.0@, c.1@),
            ),
            _ => Seq::empty(),
        }
    }

    /// The position of the tool call whose outcome the turn waits for.
    pub closed spec fn next_call(&self) -> int {
        match self.phase {
            RunPhase::Tools { next, .. } => next as int,
            _ => 0,
        }
    }

    /// The assistant message of the round whose tools are running.
    pub closed spec fn round_message(&self) -> Option<Message> {
        match self.phase {
            RunPhase::Tools { assistant, .. } => Some(assistant),
            _ => None,
        }
    }

    /// The tool results of the round gathered so far, in call order.
    pub closed spec fn tool_results(&self) -> Seq<ContentBlock> {
        match self.phase {
            RunPhase::Tools { results, .. } => results@,
            _ => Seq::empty(),
        }
    }

    /// The machine's own consistency: its record is well formed, a tool
    /// call is pending in the tools phase, and a running turn has its
    /// request.
    pub closed spec fn wf(&self) -> bool {
        &&& log_ok(self.log@, self.phase is Over)
        &&& (self.phase matches RunPhase::Tools { calls, next, .. } ==> next < calls@.len())
        &&& (self.phase matches RunPhase::Tools { calls, next, results, .. } ==> {
            &&& results@.len() == next
            &&& forall|j: int| 0 <= j < next ==> answers_call(#[trigger] results@[j], calls@[j].0@)
        })
        &&& (!(self.phase is Over) ==> self.request is Some)
        &&& self.rounds.rounds() <= MAX_TOOL_ROUNDS
    }

    /// Whether `input` is what the turn waits for.
    pub closed spec fn accepts(&self, input: TurnInput) -> bool {
        &&& match self.phase {
            RunPhase::Begin => input is Check,
            RunPhase::Streaming(_) => input is Event || input is StreamEnd,
            RunPhase::Tools { .. } => input is ToolRan,
            RunPhase::Over => true,
        }
        &&& (input matches TurnInput::ToolRan { cancelled, outcome } ==> (cancelled || outcome is Some))
    }

    /// A turn for `request` that has not started.
    pub fn new(request: ProviderRequest) -> (r: TurnRun)
        ensures
            r.wf(),
            r.log().len() == 0,
            !r.is_over(),
            r.streams() == 0,
            r.accepts(TurnInput::Check { cancelled: true }),
            r.accepts(TurnInput::Check { cancelled: false }),
    {
        TurnRun { phase: RunPhase::Begin, rounds: TurnLoop::new(), request: Some(request), log: Ghost(Seq::empty()) }
    }

    /// The request of the current round (none once the turn is over).
    pub closed spec fn request_spec(&self) -> Option<ProviderRequest> {
        self.request
    }

    /// The request of the current round.
    pub fn request(&self) -> (r: Option<&ProviderRequest>)
        ensures
            r == match self.request_spec() {
                Some(q) => Some(&q),
                None => None::<&ProviderRequest>,
            },
    {
        match &self.request {
            Some(q) => Some(q),
            None => None,
        }
    }

    /// End the turn with `out` and then the final event `ev`.
    fn finish_with(&mut self, out: Vec<TurnEvent>, ev: TurnEvent, res: Result<(), ClaudeError>) -> (r: (
        Vec<TurnEvent>,
        TurnAction,
    ))
        requires
            log_ok(old(self).log@, false),
            old(self).rounds.rounds() <= MAX_TOOL_ROUNDS,
            forall|i: int| 0 <= i < out@.len() ==> !is_final(#[trigger] out@[i]),
            is_final(ev),
            res is Err <==> ev is Failed,
        ensures
            final(self).wf(),
            final(self).is_over(),
            final(self).log() == old(self).log() + r.0@,
            r.1 == TurnAction::Finished(res),
            r.0@ == out@.push(ev),
            final(self).rounds == old(self).rounds,
    {
        let mut out = out;
        out.push(ev);
        let ghost before = self.log@;
        self.log = Ghost(before + out@);
        self.phase = RunPhase::Over;
        proof {
            let l = before + out@;
            assert forall|i: int| 0 <= i < l.len() - 1 implies !is_final(#[trigger] l[i]) by {
                if i < before.len() {
                    if i < before.len() - 1 {
                        assert(!is_final(before[i]));
                    } else {
                        assert(!is_final(before.last()));
                    }
                } else {
                    assert(l[i] == out@[i - before.len()]);
                }
            }
        }
        (out, TurnAction::Finished(res))
    }

    /// Hand out non-final events `out` and go on.
    proof fn lemma_extend(before: Seq<TurnEvent>, out: Seq<TurnEvent>)
        requires
            log_ok(before, false),
            forall|i: int| 0 <= i < out.len() ==> !is_final(#[trigger] out[i]),
        ensures
            log_ok(before + out, false),
    {
        let l = before + out;
        assert forall|i: int| 0 <= i < l.len() implies !is_final(#[trigger] l[i]) by {
            if i < before.len() {
                if i < before.len() - 1 {
                    assert(!is_final(before[i]));
                } else {
                    assert(!is_final(before.last()));
                }
            } else {
                assert(l[i] == out[i - before.len()]);
            }
        }
        if l.len() > 0 {
            assert(!is_final(l[l.len() - 1]));
        }
    }

    /// The round's stream is over: finish the round; the turn is done, or
    /// the tools asked for are run, or (with none) the next round begins.
    fn end_round(&mut self, round: RoundState, out: Vec<TurnEvent>) -> (r: (Vec<TurnEvent>, TurnAction))
        requires
            log_ok(old(self).log@, false),
            old(self).rounds.rounds() <= MAX_TOOL_ROUNDS,
            old(self).request is Some,
            forall|i: int| 0 <= i < out@.len() ==> !is_final(#[trigger] out@[i]),
        ensures
            final(self).wf(),
            final(self).log() == old(self).log() + r.0@,
            final(self).rounds == old(self).rounds,
            r.1 is Finished <==> final(self).is_over(),
            r.1 matches TurnAction::Finished(res) ==> res is Ok && r.0@.last() is Done,
            !(r.1 is Stream) && !(r.1 is NextEvent) && !(r.1 is Over),
            r.1 is RunTool ==> final(self).phase is Tools,
            r.1 is CheckCancel ==> final(self).phase is Begin,
    {
        let (message, end) = round.finish();
        match end {
            RoundEnd::Done { stop_reason, usage } => self.finish_with(
                out,
                TurnEvent::Done { stop_reason, usage },
                Ok(()),
            ),
            RoundEnd::ToolCalls(calls) => {
                proof { Self::lemma_extend(self.log@, out@); }
                let ghost before = self.log@;
                self.log = Ghost(before + out@);
                if calls.len() == 0 {
                    let mut req = None;
                    std::mem::swap(&mut req, &mut self.request);
                    let q = req.unwrap();
                    self.request = Some(next_request(q, message, Vec::new()));
                    self.phase = RunPhase::Begin;
                    (out, TurnAction::CheckCancel)
                } else {
                    let id = calls[0].0.clone();
                    let name = calls[0].1.clone();
                    let input = calls[0].2.clone();
                    self.phase = RunPhase::Tools { assistant: message, calls, next: 0, results: Vec::new() };
                    (out, TurnAction::RunTool { id, name, input })
                }
            },
        }
    }

    /// Hand back what happened; get the events to send and what to do
    /// next. Once the turn is over nothing more is sent. Every event the
    /// turn sends before its end is a stream delta or a tool result; the
    /// turn ends with exactly one final event (`Done`, `Failed` or
    /// `Cancelled`), which is the last one it sends; it finishes with an
    /// error exactly when that event is `Failed`; and it streams at most
    /// `MAX_TOOL_ROUNDS` rounds.
    pub fn step(&mut self, input: TurnInput) -> (r: (Vec<TurnEvent>, TurnAction))
        requires
            old(self).wf(),
            old(self).accepts(input),
        ensures
            final(self).wf(),
            final(self).log() == old(self).log() + r.0@,
            old(self).is_over() ==> r.0@.len() == 0 && r.1 is Over && final(self).is_over(),
            r.1 is Finished <==> (!old(self).is_over() && final(self).is_over()),
            r.1 matches TurnAction::Finished(res) ==> (res is Err <==> final(self).log().last() is Failed),
            final(self).streams() <= MAX_TOOL_ROUNDS,
            r.1 is Stream ==> final(self).streams() == old(self).streams() + 1,
            !(r.1 is Stream) ==> final(self).streams() == old(self).streams(),
            !final(self).is_over() ==> (match r.1 {
                TurnAction::CheckCancel => final(self).accepts(TurnInput::Check { cancelled: true })
                    && final(self).accepts(TurnInput::Check { cancelled: false }),
                TurnAction::Stream | TurnAction::NextEvent => final(self).accepts(TurnInput::StreamEnd),
                TurnAction::RunTool { .. } => final(self).accepts(
                    TurnInput::ToolRan { cancelled: true, outcome: None },
                ),
                _ => true,
            }),
            !final(self).is_over() ==> (r.1 is Stream || r.1 is NextEvent) ==> forall|c: bool, e: StreamEvent|
                final(self).accepts(TurnInput::Event { cancelled: c, event: e }),
            !final(self).is_over() ==> r.1 is RunTool ==> forall|o: ToolOutcome|
                final(self).accepts(TurnInput::ToolRan { cancelled: false, outcome: Some(o) }),
            final(self).is_over() <==> final(self).waiting() is Nothing,
            r.1 is CheckCancel ==> final(self).waiting() is Check,
            (r.1 is Stream || r.1 is NextEvent) ==> final(self).waiting() is Stream,
            r.1 is RunTool ==> final(self).waiting() is Tool,
            old(self).waiting() is Check ==> match input {
                TurnInput::Check { cancelled } => if old(self).streams() >= MAX_TOOL_ROUNDS {
                    &&& r.0@.len() == 1
                    &&& r.0@[0] matches TurnEvent::Failed { error: ClaudeError::Other(m) }
                    &&& m@ == "max tool rounds exceeded"@
                    &&& r.1 matches TurnAction::Finished(Err(_))
                } else if cancelled {
                    &&& r.0@ == seq![TurnEvent::Cancelled]
                    &&& r.1 matches TurnAction::Finished(Ok(_))
                } else {
                    &&& r.0@.len() == 0
                    &&& r.1 is Stream
                },
                _ => true,
            },
            old(self).waiting() is Stream ==> (input matches TurnInput::Event { cancelled, .. } && cancelled
                ==> r.0@ == seq![TurnEvent::Cancelled] && r.1 matches TurnAction::Finished(Ok(_))),
            old(self).waiting() is Tool ==> {
                &&& r.0@.len() == 1
                &&& r.0@[0] is ToolEnd
                &&& (r.1 is RunTool || r.1 is CheckCancel)
            },
            old(self).waiting() is Tool ==> ({
                let calls = old(self).pending_calls();
                let k = old(self).next_call();
                let res = outcome_result(calls[k].1, reported_outcome(input));
                &&& r.0@[0] matches TurnEvent::ToolEnd { id: i, .. } && i@ == calls[k].0
                &&& k + 1 < calls.len() ==> {
                    &&& r.1 is RunTool
                    &&& final(self).pending_calls() == calls
                    &&& final(self).next_call() == k + 1
                    &&& final(self).round_message() == old(self).round_message()
                    &&& final(self).request_spec() == old(self).request_spec()
                    &&& final(self).tool_results().len() == k + 1
                    &&& final(self).tool_results().subrange(0, k) == old(self).tool_results()
                    &&& tool_result_is(final(self).tool_results()[k], calls[k].0, res.0, res.1)
                }
                &&& k + 1 == calls.len() ==> {
                    let after = final(self).request_spec()->0;
                    let blocks = closing_blocks(after);
                    &&& r.1 is CheckCancel
                    &&& final(self).request_spec() is Some
                    &&& round_closed(
                        old(self).request_spec()->0,
                        after,
                        old(self).round_message()->0,
                        blocks,
                    )
                    &&& blocks.len() == calls.len()
                    &&& blocks.subrange(0, k) == old(self).tool_results()
                    &&& tool_result_is(blocks[k], calls[k].0, res.0, res.1)
                    &&& forall|j: int| 0 <= j < calls.len() ==> answers_call(#[trigger] blocks[j], calls[j].0)
                }
            }),
    {
        let mut phase = RunPhase::Over;
        std::mem::swap(&mut phase, &mut self.phase);
        match phase {
            RunPhase::Over => (Vec::new(), TurnAction::Over),
            RunPhase::Begin => {
                let cancelled = match input {
                    TurnInput::Check { cancelled } => cancelled,
                    _ => true,
                };
                match self.rounds.begin_round(cancelled) {
                    RoundStart::Cancelled => self.finish_with(Vec::new(), TurnEvent::Cancelled, Ok(())),
                    RoundStart::Exhausted(e) => {
                        let (ev, err) = fail(e);
                        self.finish_with(Vec::new(), ev, Err(err))
                    },
                    RoundStart::Stream => {
                        self.phase = RunPhase::Streaming(RoundState::new());
                        (Vec::new(), TurnAction::Stream)
                    },
                }
            },
            RunPhase::Streaming(round) => match input {
                TurnInput::Event { cancelled, event } => {
                    if cancelled {
                        return self.finish_with(Vec::new(), TurnEvent::Cancelled, Ok(()));
                    }
                    let too_far = match &event {
                        StreamEvent::ContentBlockStart { index, .. } => *index == usize::MAX,
                        _ => false,
                    };
                    if too_far {
                        let (ev, err) = fail(ClaudeError::Provider(String::from_str("block index out of range")));
                        return self.finish_with(Vec::new(), ev, Err(err));
                    }
                    let mut round = round;
                    let ghost ev0 = event;
                    let ghost b0 = round.blocks@;
                    let ghost m0 = round.input_buffer@;
                    let (out, flow) = round.apply(event);
                    proof {
                        let views = out@.map_values(|e: TurnEvent| delta_view(e));
                        if !(ev0 is MessageDelta) {
                            lemma_block_step_reports_deltas(b0, m0, ev0, round.blocks@, round.input_buffer@, views);
                        }
                        assert forall|i: int| 0 <= i < out@.len() implies !is_final(#[trigger] out@[i]) by {
                            assert(views[i] == delta_view(out@[i]));
                        }
                    }
                    match flow {
                        Flow::Continue => {
                            proof { Self::lemma_extend(self.log@, out@); }
                            let ghost before = self.log@;
                            self.log = Ghost(before + out@);
                            self.phase = RunPhase::Streaming(round);
                            (out, TurnAction::NextEvent)
                        },
                        Flow::Stop => self.end_round(round, out),
                        Flow::Fail(e) => {
                            let (ev, err) = fail(e);
                            self.finish_with(out, ev, Err(err))
                        },
                    }
                },
                _ => self.end_round(round, Vec::new()),
            },
            RunPhase::Tools { assistant, calls, next, results } => {
                let ghost input0 = input;
                let ghost old_results = results@;
                let ghost cv = calls@.map_values(|c: (String, String, serde_json::Value)| (c.0@, c.1@));
                let (cancelled, ran) = match input {
                    TurnInput::ToolRan { cancelled, outcome } => (cancelled, outcome),
                    _ => (true, None),
                };
                assert(next < calls@.len());
                let outcome = call_outcome(cancelled, ran);
                let ghost o = outcome;
                assert(o == reported_outcome(input0));
                assert(cv[next as int] == (calls@[next as int].0@, calls@[next as int].1@));
                let (ev, block) = tool_end(calls[next].0.as_str(), calls[next].1.as_str(), outcome);
                let ghost res = outcome_result(cv[next as int].1, o);
                assert(tool_result_is(block, cv[next as int].0, res.0, res.1));
                let mut results = results;
                results.push(block);
                assert(results@.subrange(0, next as int) =~= old_results);
                assert(results@[next as int] == block);
                assert forall|j: int| 0 <= j <= next implies answers_call(#[trigger] results@[j], calls@[j].0@) by {
                    if j < next {
                        assert(results@[j] == old_results[j]);
                    }
                }
                let out = vec![ev];
                assert(out@.len() == 1 && !is_final(out@[0]));
                proof { Self::lemma_extend(self.log@, out@); }
                let ghost before = self.log@;
                self.log = Ghost(before + out@);
                if next < calls.len() - 1 {
                    let k = next + 1;
                    let id = calls[k].0.clone();
                    let name = calls[k].1.clone();
                    let input = calls[k].2.clone();
                    self.phase = RunPhase::Tools { assistant, calls, next: k, results };
                    (out, TurnAction::RunTool { id, name, input })
                } else {
                    let mut req = None;
                    std::mem::swap(&mut req, &mut self.request);
                    let q = req.unwrap();
                    let ghost q0 = q;
                    let ghost a0 = assistant;
                    let ghost rv = results@;
                    let q1 = next_request(q, assistant, results);
                    proof {
                        let n = q0.messages@.len();
                        assert(q1.messages@.subrange(0, n as int) =~= q0.messages@);
                        assert(q1.messages@[n as int] == a0);
                        assert(closing_blocks(q1) == rv);
                        assert forall|j: int| 0 <= j < cv.len() implies answers_call(#[trigger] rv[j], cv[j].0) by {
                            assert(cv[j] == (calls@[j].0@, calls@[j].1@));
                        }
                    }
                    self.request = Some(q1);
                    self.phase = RunPhase::Begin;
                    (out, TurnAction::CheckCancel)
                }
            },
        }
    }
}

/// While a round's tools run, the results gathered so far are one per call
/// already handed back, in call order: the result at position `j` answers
/// the call at position `j`, and the call awaited is the one after them.
pub proof fn law_tool_results_follow_calls(run: &TurnRun, j: int)
    requires
        run.wf(),
        run.waiting() is Tool,
        0 <= j < run.tool_results().len(),
    ensures
        run.tool_results().len() == run.next_call(),
        run.next_call() < run.pending_calls().len(),
        answers_call(run.tool_results()[j], run.pending_calls()[j].0),
{
}

/// What a turn sends (a record that `TurnRun::step` keeps well formed)
/// holds one final event at most, and only as its last event: no two of
/// its events are final, an event before the last is not final, and the
/// turn is over exactly when its last event is final.
pub proof fn law_one_final_event(log: Seq<TurnEvent>, over: bool, i: int, j: int)
    requires
        log_ok(log, over),
        0 <= i < j < log.len(),
    ensures
        !is_final(log[i]),
        !(is_final(log[i]) && is_final(log[j])),
        over <==> is_final(log.last()),
{
}

} // verus!
