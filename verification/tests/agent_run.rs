use local_workflow_agent::agent::run::{TurnAction, TurnInput, TurnRun};
use local_workflow_agent::agent::turn::{ClaudeError, ToolOutcome, TurnEvent, MAX_TOOL_ROUNDS};
use local_workflow_agent::api::provider_types::{StopReason, StreamEvent};
use local_workflow_agent::types::{ContentBlock, Message, UsageInfo};
use local_workflow_agent::ui::turn::new_request;

fn tool_round() -> Vec<StreamEvent> {
    vec![
        StreamEvent::ContentBlockStart {
            index: 0,
            content_block: ContentBlock::ToolUse {
                id: "t1".into(),
                name: "echo".into(),
                input: serde_json::Value::Object(serde_json::Map::new()),
            },
        },
        StreamEvent::MessageDelta { stop_reason: Some(StopReason::ToolUse), usage: None },
        StreamEvent::MessageStop,
    ]
}

fn text_round() -> Vec<StreamEvent> {
    vec![
        StreamEvent::ContentBlockStart { index: 0, content_block: ContentBlock::Text { text: String::new() } },
        StreamEvent::TextDelta { index: 0, text: "done".into() },
        StreamEvent::MessageDelta { stop_reason: Some(StopReason::EndTurn), usage: Some(UsageInfo::default()) },
        StreamEvent::MessageStop,
    ]
}

/// Drive a turn over scripted rounds; cancel once `cancel_after` events
/// were sent. The events sent, the result and the number of rounds.
fn drive(mut rounds: Vec<Vec<StreamEvent>>, cancel_after: usize) -> (Vec<TurnEvent>, Result<(), ClaudeError>, usize) {
    let mut run = TurnRun::new(new_request("m", 10, vec![Message::user("go")]));
    let mut sent: Vec<TurnEvent> = Vec::new();
    let mut stream = Vec::new().into_iter();
    let mut streamed = 0;
    let mut input = TurnInput::Check { cancelled: false };
    loop {
        let (events, action) = run.step(input);
        sent.extend(events);
        let cancelled = sent.len() >= cancel_after;
        input = match action {
            TurnAction::CheckCancel => TurnInput::Check { cancelled },
            TurnAction::Stream | TurnAction::NextEvent => {
                if let TurnAction::Stream = action {
                    streamed += 1;
                    stream = if rounds.is_empty() { tool_round() } else { rounds.remove(0) }.into_iter();
                }
                match stream.next() {
                    Some(event) => TurnInput::Event { cancelled, event },
                    None => TurnInput::StreamEnd,
                }
            }
            TurnAction::RunTool { name, .. } => TurnInput::ToolRan {
                cancelled,
                outcome: if cancelled { None } else { Some(ToolOutcome::Finished { content: name, is_error: false }) },
            },
            TurnAction::Finished(result) => return (sent, result, streamed),
            TurnAction::Over => panic!("stepped after the end"),
        };
    }
}

fn finals(events: &[TurnEvent]) -> usize {
    events
        .iter()
        .filter(|e| matches!(e, TurnEvent::Done { .. } | TurnEvent::Failed { .. } | TurnEvent::Cancelled))
        .count()
}

#[test]
fn a_tool_round_then_text_ends_with_done() {
    let (sent, result, streamed) = drive(vec![tool_round(), text_round()], usize::MAX);
    assert!(result.is_ok());
    assert_eq!(streamed, 2);
    assert_eq!(finals(&sent), 1);
    assert!(matches!(sent.last(), Some(TurnEvent::Done { stop_reason: Some(StopReason::EndTurn), .. })));
    assert!(sent.iter().any(|e| matches!(e, TurnEvent::ToolEnd { id, is_error: false, .. } if id == "t1")));
}

#[test]
fn endless_tool_rounds_fail_after_the_cap() {
    let (sent, result, streamed) = drive(vec![], usize::MAX);
    assert!(result.is_err());
    assert_eq!(streamed, MAX_TOOL_ROUNDS);
    assert_eq!(finals(&sent), 1);
    assert!(matches!(sent.last(), Some(TurnEvent::Failed { .. })));
}

#[test]
fn cancelling_ends_with_one_cancelled() {
    let (sent, result, _) = drive(vec![tool_round(), text_round()], 1);
    assert!(result.is_ok());
    assert_eq!(finals(&sent), 1);
    assert!(matches!(sent.last(), Some(TurnEvent::Cancelled)));
    let mut run = TurnRun::new(new_request("m", 10, vec![]));
    let (events, action) = run.step(TurnInput::Check { cancelled: true });
    assert!(matches!(events.as_slice(), [TurnEvent::Cancelled]));
    assert!(matches!(action, TurnAction::Finished(Ok(()))));
    let (events, action) = run.step(TurnInput::StreamEnd);
    assert!(events.is_empty());
    assert!(matches!(action, TurnAction::Over));
}
