use local_workflow_agent::api::streaming::{AnthropicStreamEvent, ContentDelta};
use local_workflow_agent::types::UsageInfo;
use local_workflow_agent::ui::provider::anthropic::translate;
use local_workflow_agent::ui::stream::StreamEvent;

#[test]
fn ui_stream_anthropic_text_delta_translates() {
    let ev = AnthropicStreamEvent::ContentBlockDelta { index: 0, delta: ContentDelta::TextDelta { text: "hi".into() } };
    let out = translate(&ev);
    assert_eq!(out.len(), 1);
    match &out[0] {
        StreamEvent::TextDelta { block, text } => {
            assert_eq!(*block, 0);
            assert_eq!(text, "hi");
        }
        other => panic!("expected TextDelta, got {other:?}"),
    }
}

#[test]
fn ui_stream_anthropic_thinking_delta_translates() {
    let ev = AnthropicStreamEvent::ContentBlockDelta {
        index: 1,
        delta: ContentDelta::ThinkingDelta { thinking: "…".into() },
    };
    let out = translate(&ev);
    assert_eq!(out.len(), 1);
    match &out[0] {
        StreamEvent::ThinkingDelta { block, text } => {
            assert_eq!(*block, 1);
            assert_eq!(text, "…");
        }
        other => panic!("expected ThinkingDelta, got {other:?}"),
    }
}

#[test]
fn error_marks_rate_limit_retryable() {
    let ev = AnthropicStreamEvent::Error { error_type: "rate_limit_error".into(), message: "slow down".into() };
    let out = translate(&ev);
    assert!(matches!(out.as_slice(), [StreamEvent::Error { retryable: true, .. }]));
}

#[test]
fn anthropic_other_errors_are_not_retryable_and_overload_is() {
    let ev = AnthropicStreamEvent::Error { error_type: "invalid_request_error".into(), message: "bad".into() };
    match translate(&ev).as_slice() {
        [StreamEvent::Error { message, retryable }] => {
            assert_eq!(message, "invalid_request_error: bad");
            assert!(!retryable);
        }
        other => panic!("expected one Error, got {other:?}"),
    }
    let ev = AnthropicStreamEvent::Error { error_type: "overloaded_error".into(), message: "busy".into() };
    assert!(matches!(translate(&ev).as_slice(), [StreamEvent::Error { retryable: true, .. }]));
}

#[test]
fn anthropic_ping_and_stop_events() {
    assert!(translate(&AnthropicStreamEvent::Ping).is_empty());
    assert!(translate(&AnthropicStreamEvent::ContentBlockStop { index: 3 }).is_empty());
    let out = translate(&AnthropicStreamEvent::MessageStart {
        id: "m1".into(),
        model: "model-a".into(),
        usage: UsageInfo::default(),
    });
    assert!(matches!(out.as_slice(), [StreamEvent::MessageStart { .. }]));
}
