use local_workflow_agent::api::providers::{Backend, ProviderId, ProviderSpec};
use local_workflow_agent::api::registry::ProviderRegistry;
use local_workflow_agent::ui::model::{BlockKind, Role};
use local_workflow_agent::ui::session::{is_final_event, pick_provider, Phase, SessionView, SubmitIds, Submitted};
use local_workflow_agent::ui::stream::StreamEvent;
use local_workflow_agent::ui::turn::TurnEvent;

fn ids(n: &str) -> SubmitIds {
    SubmitIds {
        user_message: format!("u{n}"),
        user_block: format!("b{n}"),
        assistant_message: format!("a{n}"),
    }
}

#[test]
fn submit_then_stream_into_placeholder() {
    let mut v = SessionView::new();
    assert!(!v.can_submit());
    v.input = "hello".into();
    assert!(v.can_submit());
    let sid = v.push_turn_messages(ids("1"), 42);
    assert_eq!(sid, "demo");
    assert_eq!(v.messages.len(), 2);
    assert_eq!(v.messages[0].msg.role, Role::User);
    assert_eq!(v.messages[0].msg.ordinal, 0);
    assert!(matches!(&v.messages[0].blocks[0].kind, BlockKind::Text { text } if text == "hello"));
    assert_eq!(v.messages[1].msg.role, Role::Assistant);
    assert_eq!(v.messages[1].msg.ordinal, 1);
    let prompt = v.start_streaming();
    assert_eq!(prompt, "hello");
    assert!(v.input.is_empty());
    assert_eq!(v.phase, Phase::Streaming);
    assert!(!v.can_submit());

    v.on_turn_event(TurnEvent::Stream(StreamEvent::TextDelta { block: 0, text: "Hi".into() }), "n1".into());
    v.on_turn_event(TurnEvent::Stream(StreamEvent::TextDelta { block: 0, text: " there".into() }), "n2".into());
    v.on_turn_event(TurnEvent::Stream(StreamEvent::TextDelta { block: 2, text: "x".into() }), "n3".into());
    let last = &v.messages[1];
    assert_eq!(last.blocks.len(), 2);
    assert_eq!(last.blocks[0].id, "n1");
    assert!(matches!(&last.blocks[0].kind, BlockKind::Text { text } if text == "Hi there"));
    assert_eq!(last.blocks[1].ordinal, 2);
    let done = TurnEvent::Done { stop_reason: "end_turn".into() };
    assert!(is_final_event(&done));
    v.on_turn_event(done, "n4".into());
    assert_eq!(v.phase, Phase::Idle);
}

#[test]
fn provider_by_model_or_default() {
    let mut r = ProviderRegistry::new();
    r.register(ProviderSpec::bare("ollama", Backend::OpenAiCompatible));
    r.register(ProviderSpec::bare("gpt-x", Backend::OpenAi));
    r.set_default(ProviderId::new("ollama"));
    assert_eq!(pick_provider(&r, "gpt-x").unwrap().id.as_str(), "gpt-x");
    assert_eq!(pick_provider(&r, "other").unwrap().id.as_str(), "ollama");
    assert!(pick_provider(&ProviderRegistry::new(), "other").is_none());
}

#[test]
fn submit_starts_a_turn_or_stays_idle() {
    let mut r = ProviderRegistry::new();
    r.register(ProviderSpec::bare("ollama", Backend::OpenAiCompatible));
    r.set_default(ProviderId::new("ollama"));
    let mut v = SessionView::new();
    assert!(matches!(v.submit(&r, "m", ids("0"), 1), Submitted::Ignored));
    assert!(v.messages.is_empty());
    v.input = "hi".into();
    match v.submit(&r, "m", ids("1"), 5) {
        Submitted::Start { session_id, provider, text } => {
            assert_eq!(session_id, "demo");
            assert_eq!(provider.id.as_str(), "ollama");
            assert_eq!(text, "hi");
        }
        _ => panic!("expected a start"),
    }
    assert_eq!(v.phase, Phase::Streaming);
    assert_eq!(v.messages.len(), 2);
    assert!(matches!(v.submit(&r, "m", ids("2"), 6), Submitted::Ignored));
    let mut w = SessionView::new();
    w.input = "hello".into();
    assert!(matches!(w.submit(&ProviderRegistry::new(), "m", ids("3"), 7), Submitted::NoProvider));
    assert_eq!(w.phase, Phase::Idle);
    assert_eq!(w.input, "hello");
    assert_eq!(w.messages.len(), 2);
}
