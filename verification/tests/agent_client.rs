use local_workflow_agent::api::provider_types::{ProviderCapabilities, SystemPrompt, SystemPromptStyle};
use local_workflow_agent::api::providers::Backend;
use local_workflow_agent::config::{Config, ProviderConfig};
use local_workflow_agent::types::{
    ContentBlock, DocumentSource, ImageSource, MessageContent as LibMessageContent, Role as LibRole,
};
use local_workflow_agent::ui::services::agent::client::{
    chat_user_content, message_to_lib, Agent, AgentAction, IMAGE_PLACEHOLDER, PDF_PLACEHOLDER,
};
use local_workflow_agent::ui::services::agent::messages::AgentRequest;
use local_workflow_agent::ui::services::agent::types::{Message, Tool};

fn caps(tools: bool, images: bool, pdfs: bool) -> ProviderCapabilities {
    ProviderCapabilities {
        streaming: true,
        tool_calling: tools,
        thinking: false,
        image_input: images,
        pdf_input: pdfs,
        audio_input: false,
        video_input: false,
        caching: false,
        structured_output: false,
        system_prompt_style: SystemPromptStyle::TopLevel,
    }
}

fn empty_config() -> Config {
    Config::new(vec![], None)
}

fn object_schema() -> serde_json::Value {
    let mut m = serde_json::Map::new();
    m.insert("type".to_string(), serde_json::Value::String("object".into()));
    serde_json::Value::Object(m)
}

#[test]
fn test_agent_builder() {
    let agent = Agent::builder()
        .api_key("test-key".to_string())
        .model("model-b-20250929".to_string())
        .system_prompt("You are a test assistant".to_string())
        .max_tokens(2048)
        .build(vec![], empty_config(), "fallback-model".to_string(), "default prompt".to_string());
    assert_eq!(agent.api_key(), "test-key");
    assert_eq!(agent.model(), "model-b-20250929");
    assert_eq!(agent.system_prompt(), "You are a test assistant");
    assert_eq!(agent.max_tokens(), 2048);
    assert_eq!(agent.provider_kind(), "anthropic");
    assert_eq!(agent.base_url(), "https://api.anthropic.com");
    let p = agent.provider();
    assert_eq!(p.backend, Backend::Anthropic);
    assert_eq!(p.api_key.as_deref(), Some("test-key"));
}

#[test]
fn builder_falls_back_to_configuration_and_defaults() {
    let config = Config::new(
        vec![(
            "deepseek".to_string(),
            ProviderConfig { enabled: true, api_key: Some("ds-key".into()), api_base: Some("https://ds.example".into()) },
        )],
        None,
    );
    let agent = Agent::builder()
        .provider("deepseek".to_string())
        .build(vec![], config, "fallback-model".to_string(), "default prompt".to_string());
    assert_eq!(agent.api_key(), "ds-key");
    assert_eq!(agent.base_url(), "https://ds.example");
    assert_eq!(agent.model(), "fallback-model");
    assert_eq!(agent.system_prompt(), "default prompt");
    assert_eq!(agent.max_tokens(), 4096);
    let p = agent.provider();
    assert_eq!(p.id.as_str(), "deepseek");
    assert_eq!(p.backend, Backend::OpenAiCompatible);
    assert_eq!(p.api_key.as_deref(), Some("ds-key"));
}

#[test]
fn build_provider_request_filters_tools_when_unsupported() {
    let tool = Tool { name: "echo".into(), description: "echo".into(), input_schema: object_schema() };
    let mut agent = Agent::builder()
        .api_key("test-key".to_string())
        .model("model-b-20250929".to_string())
        .build(vec![tool], empty_config(), "m".to_string(), "p".to_string());
    let req = agent.build_provider_request(vec![ContentBlock::Text { text: "hi".into() }], caps(true, true, true));
    assert_eq!(req.tools.len(), 1);
    assert_eq!(req.tools[0].name, "echo");
    let req = agent.build_provider_request(vec![ContentBlock::Text { text: "again".into() }], caps(false, true, true));
    assert_eq!(req.tools.len(), 0);
    assert_eq!(req.messages.len(), 2);
    assert_eq!(agent.get_conversation().len(), 2);
}

#[test]
fn build_provider_request_replaces_unreadable_media() {
    let mut agent = Agent::builder().build(vec![], empty_config(), "m".to_string(), "sys".to_string());
    let image = ContentBlock::Image { source: ImageSource::file("img") };
    let doc = ContentBlock::Document { source: DocumentSource::file("doc"), title: None, context: None, citations: None };
    let req = agent.build_provider_request(vec![image, doc, ContentBlock::Text { text: "t".into() }], caps(true, false, false));
    assert_eq!(req.model, "m");
    assert!(matches!(&req.system_prompt, Some(SystemPrompt::Text(s)) if s == "sys"));
    match &req.messages[0].content {
        LibMessageContent::Blocks(b) => {
            assert!(matches!(&b[0], ContentBlock::Text { text } if text == IMAGE_PLACEHOLDER));
            assert!(matches!(&b[1], ContentBlock::Text { text } if text == PDF_PLACEHOLDER));
            assert!(matches!(&b[2], ContentBlock::Text { text } if text == "t"));
        }
        _ => panic!("expected blocks"),
    }
    assert_eq!(IMAGE_PLACEHOLDER, "[Image not supported by this model]");
    assert_eq!(PDF_PLACEHOLDER, "[PDF not supported by this model]");
}

#[test]
fn message_to_lib_translates_user_message() {
    let msg = Message::User { role: "user".into(), content: vec![ContentBlock::Text { text: "hello".into() }] };
    let lib = message_to_lib(&msg);
    assert!(matches!(lib.role, LibRole::User));
    match lib.content {
        LibMessageContent::Blocks(blocks) => assert_eq!(blocks.len(), 1),
        _ => panic!("expected Blocks"),
    }
}

#[test]
fn requests_update_the_agent() {
    let mut agent = Agent::builder().build(vec![], empty_config(), "m".to_string(), "p".to_string());
    agent.add_user_message("hello".into());
    assert_eq!(agent.get_conversation().len(), 1);
    assert!(matches!(agent.handle_request(AgentRequest::SetApiKey("k2".into())), AgentAction::Updated));
    assert_eq!(agent.api_key(), "k2");
    assert_eq!(agent.get_conversation().len(), 1);
    assert!(matches!(agent.handle_request(AgentRequest::SetModel("m2".into())), AgentAction::Updated));
    assert_eq!(agent.model(), "m2");
    assert_eq!(agent.get_conversation().len(), 0);
    agent.add_user_message("again".into());
    assert!(matches!(agent.handle_request(AgentRequest::SetProvider("ollama".into())), AgentAction::Updated));
    assert_eq!(agent.provider_kind(), "ollama");
    assert_eq!(agent.provider().id.as_str(), "ollama");
    assert_eq!(agent.get_conversation().len(), 0);
    match agent.handle_request(AgentRequest::Chat { content: "c".into(), files: vec![] }) {
        AgentAction::StartTurn { content, files } => {
            assert_eq!(content, "c");
            assert!(files.is_empty());
        }
        _ => panic!("expected StartTurn"),
    }
    assert!(matches!(agent.handle_request(AgentRequest::Cancel), AgentAction::CancelTurn));
    agent.set_api_config("k3".into(), "  ".into());
    assert_eq!(agent.base_url(), "  ");
}

#[test]
fn anthropic_fallback_uses_default_endpoint_for_blank_base() {
    let mut agent = Agent::builder().build(vec![], empty_config(), "m".to_string(), "p".to_string());
    agent.set_api_config("key-1".into(), " ".into());
    let p = agent.provider();
    assert_eq!(p.backend, Backend::Anthropic);
    assert_eq!(p.api_key.as_deref(), Some("key-1"));
    assert_eq!(p.base_url.as_deref(), Some("https://api.anthropic.com"));
    agent.set_base_url("https://proxy.example".into());
    assert_eq!(agent.provider().base_url.as_deref(), Some("https://proxy.example"));
}

#[test]
fn chat_content_keeps_uploaded_files_in_order() {
    let (blocks, errors) = chat_user_content(
        "look".into(),
        vec![Ok("file-a".into()), Err("timeout".into()), Ok("file-b".into())],
    );
    assert_eq!(blocks.len(), 3);
    assert!(matches!(&blocks[0], ContentBlock::Text { text } if text == "look"));
    match (&blocks[1], &blocks[2]) {
        (ContentBlock::Document { source: a, .. }, ContentBlock::Document { source: b, .. }) => {
            assert_eq!(a.file_id.as_deref(), Some("file-a"));
            assert_eq!(b.file_id.as_deref(), Some("file-b"));
        }
        other => panic!("expected documents, got {other:?}"),
    }
    assert_eq!(errors, vec!["Failed to upload file: timeout".to_string()]);
}
