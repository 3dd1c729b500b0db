use local_workflow_agent::types::UsageInfo;
use local_workflow_agent::ui::provider::openai::{chunk_events, chunk_usage, translate_chunk, ChunkFields};
use local_workflow_agent::ui::stream::StreamEvent;

fn obj(pairs: Vec<(&str, serde_json::Value)>) -> serde_json::Value {
    let mut m = serde_json::Map::new();
    for (k, v) in pairs {
        m.insert(k.to_string(), v);
    }
    serde_json::Value::Object(m)
}

fn chunk(delta: serde_json::Value, finish: serde_json::Value) -> String {
    let choice = obj(vec![("delta", delta), ("finish_reason", finish)]);
    obj(vec![("choices", serde_json::Value::Array(vec![choice]))]).to_string()
}

#[test]
fn ui_stream_openai_text_delta_translates() {
    let json = chunk(obj(vec![("content", serde_json::Value::String("hi".into()))]), serde_json::Value::Null);
    let out = translate_chunk(&json, None);
    assert_eq!(out.len(), 1);
    match &out[0] {
        StreamEvent::TextDelta { block, text } => {
            assert_eq!(*block, 0);
            assert_eq!(text, "hi");
        }
        other => panic!("expected TextDelta, got {other:?}"),
    }
}

#[test]
fn reasoning_maps_to_thinking() {
    let json = chunk(
        obj(vec![("reasoning_content", serde_json::Value::String("let me think…".into()))]),
        serde_json::Value::Null,
    );
    let out = translate_chunk(&json, None);
    assert_eq!(out.len(), 1);
    match &out[0] {
        StreamEvent::ThinkingDelta { block, text } => {
            assert_eq!(*block, 0);
            assert_eq!(text, "let me think…");
        }
        other => panic!("expected ThinkingDelta, got {other:?}"),
    }
}

#[test]
fn finish_reason_maps_to_message_stop() {
    let json = chunk(obj(vec![]), serde_json::Value::String("stop".into()));
    let out = translate_chunk(&json, None);
    assert_eq!(out.len(), 1);
    match &out[0] {
        StreamEvent::MessageStop { stop_reason, .. } => assert_eq!(stop_reason, "stop"),
        other => panic!("expected MessageStop, got {other:?}"),
    }
}

#[test]
fn openai_bad_lines_give_nothing() {
    assert!(translate_chunk("not json", None).is_empty());
    assert!(translate_chunk("{\"choices\": []}", None).is_empty());
    assert!(translate_chunk("{}", Some(UsageInfo::default())).is_empty());
}

#[test]
fn openai_usage_goes_on_the_stop() {
    let u = UsageInfo { input_tokens: 3, output_tokens: 4, ..Default::default() };
    let json = chunk(obj(vec![("content", serde_json::Value::String("".into()))]), serde_json::Value::String("length".into()));
    let out = translate_chunk(&json, Some(u));
    assert_eq!(out.len(), 1);
    match &out[0] {
        StreamEvent::MessageStop { stop_reason, usage } => {
            assert_eq!(stop_reason, "length");
            assert_eq!(usage.output_tokens, 4);
        }
        other => panic!("expected MessageStop, got {other:?}"),
    }
    let out = chunk_events(ChunkFields { content: Some("a".into()), reasoning: None, finish_reason: None, usage: Some(u) });
    assert_eq!(out.len(), 2);
    match &out[1] {
        StreamEvent::MessageStop { stop_reason, usage } => {
            assert_eq!(stop_reason, "stop");
            assert_eq!(usage.input_tokens, 3);
        }
        other => panic!("expected MessageStop, got {other:?}"),
    }
}

#[test]
fn openai_chunk_usage_is_read_from_the_line() {
    let line = "{\"choices\": [], \"usage\": {\"input_tokens\": 3}}";
    let u = chunk_usage(line).expect("usage member");
    assert_eq!(u.get("input_tokens").and_then(|v| v.as_u64()), Some(3));
    assert!(chunk_usage("{\"choices\": []}").is_none());
    assert!(chunk_usage("not json").is_none());
}
