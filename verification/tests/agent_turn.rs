use local_workflow_agent::agent::turn::{next_request, single_tool_step, ToolStep};
use local_workflow_agent::types::Message;
use local_workflow_agent::ui::services::agent::client::CancelSlot;
use local_workflow_agent::ui::turn::new_request;
use local_workflow_agent::agent::buffers::InputBuffers;
use local_workflow_agent::agent::turn::{call_outcome, RoundStart, TurnLoop};
use local_workflow_agent::agent::turn::{
    fail, find_tool, max_rounds_error, permits, system_prompt_preview, system_prompt_text, tool_end,
    ClaudeError, Flow, PermissionDecision, RoundEnd, RoundState, ToolOutcome, TurnEvent, MAX_TOOL_ROUNDS,
};
use local_workflow_agent::api::provider_types::{StopReason, StreamEvent, SystemBlock, SystemPrompt};
use local_workflow_agent::types::{ContentBlock, MessageContent, Role, ToolResultContent, UsageInfo};

fn empty_object() -> serde_json::Value {
    serde_json::Value::Object(serde_json::Map::new())
}

#[test]
fn text_round_ends_the_turn() {
    let mut st = RoundState::new();
    let (evs, flow) = st.apply(StreamEvent::ContentBlockStart { index: 0, content_block: ContentBlock::Text { text: String::new() } });
    assert!(evs.is_empty());
    assert!(matches!(flow, Flow::Continue));
    let (evs, _) = st.apply(StreamEvent::TextDelta { index: 0, text: "Hel".into() });
    assert!(matches!(evs.as_slice(), [TurnEvent::TextDelta { text }] if text == "Hel"));
    st.apply(StreamEvent::TextDelta { index: 0, text: "lo".into() });
    st.apply(StreamEvent::MessageDelta { stop_reason: Some(StopReason::EndTurn), usage: Some(UsageInfo::default()) });
    let (evs, flow) = st.apply(StreamEvent::MessageStop);
    assert!(evs.is_empty());
    assert!(matches!(flow, Flow::Stop));
    let (msg, end) = st.finish();
    assert_eq!(msg.role, Role::Assistant);
    match &msg.content {
        MessageContent::Blocks(b) => assert!(matches!(b.as_slice(), [ContentBlock::Text { text }] if text == "Hello")),
        other => panic!("expected blocks, got {other:?}"),
    }
    assert!(matches!(end, RoundEnd::Done { stop_reason: Some(StopReason::EndTurn), .. }));
}

#[test]
fn tool_round_collects_calls_and_parses_input() {
    let mut st = RoundState::new();
    let (evs, _) = st.apply(StreamEvent::ContentBlockStart {
        index: 1,
        content_block: ContentBlock::ToolUse { id: "t1".into(), name: "bash".into(), input: empty_object() },
    });
    assert!(matches!(evs.as_slice(), [TurnEvent::ToolUseStart { id, name }] if id == "t1" && name == "bash"));
    st.apply(StreamEvent::InputJsonDelta { index: 1, partial_json: "{\"cmd\":".into() });
    let (evs, _) = st.apply(StreamEvent::InputJsonDelta { index: 1, partial_json: " \"ls\"}".into() });
    assert!(matches!(evs.as_slice(), [TurnEvent::ToolUseDelta { id, partial_json }] if id == "t1" && partial_json == " \"ls\"}"));
    st.apply(StreamEvent::MessageDelta { stop_reason: Some(StopReason::ToolUse), usage: None });
    let (msg, end) = st.finish();
    match &msg.content {
        MessageContent::Blocks(b) => {
            assert_eq!(b.len(), 2);
            assert!(matches!(&b[0], ContentBlock::Text { text } if text.is_empty()));
        }
        other => panic!("expected blocks, got {other:?}"),
    }
    match end {
        RoundEnd::ToolCalls(calls) => {
            assert_eq!(calls.len(), 1);
            assert_eq!(calls[0].0, "t1");
            assert_eq!(calls[0].1, "bash");
            assert_eq!(calls[0].2["cmd"], serde_json::Value::String("ls".into()));
        }
        other => panic!("expected tool calls, got {other:?}"),
    }
}

#[test]
fn stream_error_fails_the_turn() {
    let mut st = RoundState::new();
    let (_, flow) = st.apply(StreamEvent::Error { error_type: "overloaded".into(), message: "busy".into() });
    match flow {
        Flow::Fail(ClaudeError::Api(m)) => assert_eq!(m, "overloaded: busy"),
        other => panic!("expected failure, got {other:?}"),
    }
    let (ev, err) = fail(ClaudeError::Provider("down".into()));
    assert!(matches!(ev, TurnEvent::Failed { error: ClaudeError::Provider(m) } if m == "down"));
    assert!(matches!(err, ClaudeError::Other(m) if m == "down"));
    assert!(matches!(max_rounds_error(), ClaudeError::Other(m) if m == "max tool rounds exceeded"));
    assert_eq!(MAX_TOOL_ROUNDS, 16);
}

#[test]
fn tool_outcomes_become_results() {
    let (ev, block) = tool_end("t9", "zap", ToolOutcome::NotFound);
    assert!(matches!(&ev, TurnEvent::ToolEnd { id, result: ToolResultContent::Text(t), is_error: true }
        if id == "t9" && t == "Tool 'zap' not found"));
    assert!(matches!(&block, ContentBlock::ToolResult { tool_use_id, content: ToolResultContent::Text(t), is_error: Some(true) }
        if tool_use_id == "t9" && t == "Tool 'zap' not found"));
    let (_, block) = tool_end("t9", "zap", ToolOutcome::Finished { content: "done".into(), is_error: false });
    assert!(matches!(&block, ContentBlock::ToolResult { content: ToolResultContent::Text(t), is_error: Some(false), .. } if t == "done"));
    for (o, text) in [
        (ToolOutcome::Denied, "Permission denied"),
        (ToolOutcome::Panicked, "tool panicked"),
        (ToolOutcome::Cancelled, "cancelled"),
    ] {
        let (ev, _) = tool_end("x", "y", o);
        assert!(matches!(&ev, TurnEvent::ToolEnd { result: ToolResultContent::Text(t), is_error: true, .. } if t == text));
    }
    assert!(permits(&PermissionDecision::Allow));
    assert!(permits(&PermissionDecision::AllowPermanently));
    assert!(!permits(&PermissionDecision::Deny));
    assert!(!permits(&PermissionDecision::Ask { reason: "r".into() }));
}

#[test]
fn tools_are_found_by_first_name() {
    let names = vec!["read".to_string(), "bash".to_string(), "bash".to_string()];
    assert_eq!(find_tool(&names, "bash"), Some(1));
    assert_eq!(find_tool(&names, "edit"), None);
}

#[test]
fn system_prompts_flatten_and_preview() {
    assert_eq!(system_prompt_text(&None), "");
    assert_eq!(system_prompt_text(&Some(SystemPrompt::Text("x".into()))), "x");
    let blocks = SystemPrompt::Blocks(vec![SystemBlock { text: "a".into() }, SystemBlock { text: "b".into() }]);
    assert_eq!(system_prompt_text(&Some(blocks)), "a\nb");
    assert_eq!(system_prompt_preview("short"), "short");
    let long: String = "é".repeat(2001);
    let p = system_prompt_preview(&long);
    assert!(p.starts_with(&"é".repeat(2000)));
    assert!(p.ends_with("...(truncated, 2001 chars total)"));
}

#[test]
fn input_buffers_accumulate_per_id() {
    let mut b = InputBuffers::new();
    assert_eq!(b.append("a", "{"), "{");
    assert_eq!(b.append("a", "}"), "{}");
    b.insert("c".into(), "x".into());
    assert_eq!(b.get("c").map(|s| s.as_str()), Some("x"));
    assert!(b.get("zz").is_none());
}

#[test]
fn rounds_stop_at_the_cap() {
    let mut l = TurnLoop::new();
    assert!(matches!(l.begin_round(true), RoundStart::Cancelled));
    let mut streamed = 0;
    for _ in 0..20 {
        match l.begin_round(false) {
            RoundStart::Stream => streamed += 1,
            RoundStart::Exhausted(ClaudeError::Other(m)) => assert_eq!(m, "max tool rounds exceeded"),
            other => panic!("unexpected {other:?}"),
        }
    }
    assert_eq!(streamed, MAX_TOOL_ROUNDS);
    assert!(matches!(call_outcome(true, None), ToolOutcome::Cancelled));
    assert!(matches!(call_outcome(false, Some(ToolOutcome::Denied)), ToolOutcome::Denied));
}

#[test]
fn tool_steps_follow_lookup_then_permission() {
    assert_eq!(single_tool_step(None, None), ToolStep::NotFound);
    assert_eq!(single_tool_step(None, Some(PermissionDecision::Allow)), ToolStep::NotFound);
    assert_eq!(single_tool_step(Some(2), None), ToolStep::AskPermission(2));
    assert_eq!(single_tool_step(Some(2), Some(PermissionDecision::AllowPermanently)), ToolStep::Run(2));
    assert_eq!(single_tool_step(Some(0), Some(PermissionDecision::Deny)), ToolStep::Denied);
    assert_eq!(
        single_tool_step(Some(0), Some(PermissionDecision::Ask { reason: "why".into() })),
        ToolStep::Denied
    );
}

#[test]
fn next_request_appends_assistant_then_results() {
    let req = new_request("m", 100, vec![Message::user("hi")]);
    let assistant = Message::assistant_blocks(vec![ContentBlock::Text { text: "calling".into() }]);
    let results = vec![ContentBlock::ToolResult {
        tool_use_id: "t1".into(),
        content: ToolResultContent::Text("ok".into()),
        is_error: Some(false),
    }];
    let next = next_request(req, assistant, results);
    assert_eq!(next.messages.len(), 3);
    assert_eq!(next.messages[1].role, Role::Assistant);
    assert_eq!(next.messages[2].role, Role::User);
    assert!(matches!(&next.messages[2].content, MessageContent::Blocks(b) if b.len() == 1));
    assert_eq!(next.model, "m");
    assert_eq!(next.max_tokens, 100);
}

#[test]
fn cancel_slot_cancels_each_turn_once() {
    let mut slot: CancelSlot<u32> = CancelSlot::new();
    assert_eq!(slot.take_for_cancel(), None);
    slot.started(7);
    slot.started(8);
    assert_eq!(slot.take_for_cancel(), Some(8));
    assert_eq!(slot.take_for_cancel(), None);
}
