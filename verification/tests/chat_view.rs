use local_workflow_agent::agent::turn::{ClaudeError, TurnEvent as AgentEvent};
use local_workflow_agent::types::ToolResultContent;
use local_workflow_agent::ui::chat::{
    attachment_label, chat_turn_step, collected_provider, flush_updates_last, incoming_effect, save_requests,
    should_submit, startup_requests, ChatEffect, IncomingEffect,
};
use local_workflow_agent::ui::chat_settings::Settings;
use local_workflow_agent::ui::services::agent::messages::{AgentRequest, AgentResponse, MessageRole};

#[test]
fn streamed_text_is_flushed_when_due_and_at_the_end() {
    let mut s = String::new();
    let step = chat_turn_step(&mut s, AgentEvent::TextDelta { text: "Hel".into() }, false);
    assert!(step.effects.is_empty());
    assert!(!step.turn_over);
    let step = chat_turn_step(&mut s, AgentEvent::TextDelta { text: "lo".into() }, true);
    assert!(matches!(step.effects.as_slice(), [ChatEffect::Flush(t)] if t == "Hello"));
    let step = chat_turn_step(&mut s, AgentEvent::Done { stop_reason: None, usage: None }, false);
    assert!(matches!(step.effects.as_slice(), [ChatEffect::Flush(t)] if t == "Hello"));
    assert!(step.turn_over);
    assert!(s.is_empty());
}

#[test]
fn tool_events_and_failures_become_messages() {
    let mut s = String::new();
    let step = chat_turn_step(&mut s, AgentEvent::ToolUseStart { id: "1".into(), name: "grep".into() }, true);
    assert!(matches!(step.effects.as_slice(), [ChatEffect::System(t)] if t == "🔧 调用工具: grep..."));
    let step = chat_turn_step(
        &mut s,
        AgentEvent::ToolEnd { id: "1".into(), result: ToolResultContent::Text("ok".into()), is_error: false },
        true,
    );
    assert!(matches!(step.effects.as_slice(), [ChatEffect::System(t)] if t == "✓ 工具返回: ok"));
    let step = chat_turn_step(
        &mut s,
        AgentEvent::ToolEnd { id: "1".into(), result: ToolResultContent::Blocks(vec![]), is_error: true },
        true,
    );
    assert!(matches!(step.effects.as_slice(), [ChatEffect::System(t)] if t == "✗ 工具返回: [structured result]"));
    s.push_str("partial");
    let step = chat_turn_step(&mut s, AgentEvent::Cancelled, false);
    assert!(matches!(step.effects.as_slice(), [ChatEffect::Flush(t)] if t == "partial (已取消)"));
    let step = chat_turn_step(&mut s, AgentEvent::Failed { error: ClaudeError::Api("boom".into()) }, false);
    assert!(matches!(step.effects.as_slice(), [ChatEffect::Error(t)] if t == "boom"));
    assert!(step.turn_over);
    s.push_str("half an answer");
    let step = chat_turn_step(&mut s, AgentEvent::Failed { error: ClaudeError::Other("lost".into()) }, false);
    assert!(matches!(step.effects.as_slice(), [ChatEffect::Flush(t), ChatEffect::Error(e)] if t == "half an answer" && e == "lost"));
    assert!(s.is_empty());
}

#[test]
fn chat_labels_and_submit() {
    assert_eq!(attachment_label(0), "Attach file");
    assert_eq!(attachment_label(1), "1 file");
    assert_eq!(attachment_label(12), "12 files");
    assert!(!should_submit("  \n"));
    assert!(should_submit(" hi "));
    assert!(flush_updates_last(Some(MessageRole::Assistant)));
    assert!(!flush_updates_last(Some(MessageRole::User)));
    assert!(!flush_updates_last(None));
    assert_eq!(collected_provider(Some("")), "anthropic");
    assert_eq!(collected_provider(Some("groq")), "groq");
    assert_eq!(collected_provider(None), "anthropic");
}

fn settings(key: &str) -> Settings {
    Settings {
        provider: "openai".into(),
        api_key: key.into(),
        base_url: "".into(),
        model: "m".into(),
        working_dir: std::path::PathBuf::from("/w"),
    }
}

#[test]
fn agent_configuration_requests() {
    let r = startup_requests(&settings(" "));
    assert_eq!(r.len(), 3);
    assert!(matches!(&r[0], AgentRequest::SetProvider(p) if p == "openai"));
    assert!(matches!(&r[1], AgentRequest::SetModel(m) if m == "m"));
    let r = startup_requests(&settings("sk"));
    assert_eq!(r.len(), 4);
    assert!(matches!(&r[1], AgentRequest::SetApiConfig { api_key, base_url } if api_key == "sk" && base_url == "https://api.anthropic.com"));
    let r = save_requests(&settings(""));
    assert_eq!(r.len(), 4);
    assert!(matches!(&r[3], AgentRequest::SetWorkingDir(p) if p == &std::path::PathBuf::from("/w")));
}

#[test]
fn incoming_responses() {
    assert!(matches!(incoming_effect(&AgentResponse::Error("x".into())), IncomingEffect::ShowError(m) if m == "x"));
    assert!(matches!(
        incoming_effect(&AgentResponse::TurnEvent(AgentEvent::Done { stop_reason: None, usage: None })),
        IncomingEffect::StopLoading
    ));
    assert!(matches!(
        incoming_effect(&AgentResponse::TurnEvent(AgentEvent::TextDelta { text: "a".into() })),
        IncomingEffect::Nothing
    ));
}
