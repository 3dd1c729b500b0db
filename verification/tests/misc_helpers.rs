use local_workflow_agent::agent::mock_provider::MockProvider;
use local_workflow_agent::api::provider_types::StreamEvent;
use local_workflow_agent::api::uploads::{
    files_url, multipart_body, response_reports_error, upload_file_name, FileKind, UploadError, UPLOAD_BOUNDARY,
};
use local_workflow_agent::text::trim;
use local_workflow_agent::ui::app::{clean_api_key, with_api_key, with_default_model};
use local_workflow_agent::ui::chat_settings::Settings as ChatSettings;
use local_workflow_agent::ui::input::attachments::{check_attachment_size, display_name_of, stored_file_name};
use local_workflow_agent::ui::model::AttachmentKind;
use local_workflow_agent::ui::settings::Settings;

#[test]
fn multipart_body_layout() {
    let body = multipart_body("a.txt", "text/plain", b"hi");
    let expected = format!(
        "--{b}\r\nContent-Disposition: form-data; name=\"file\"; filename=\"a.txt\"\r\nContent-Type: text/plain\r\n\r\nhi\r\n--{b}--\r\n",
        b = UPLOAD_BOUNDARY
    );
    assert_eq!(body, expected.into_bytes());
    assert_eq!(files_url(), "https://api.anthropic.com/v1/files");
    assert!(response_reports_error("{\"type\":\"error\",\"error\":{}}"));
    assert!(!response_reports_error("{\"id\":\"file_1\"}"));
    assert_eq!(upload_file_name(None), "file");
    assert_eq!(
        UploadError::TooLarge { bytes: 10, limit: 5, kind: FileKind::Image }.message(),
        "File too large: 10 bytes exceeds 5 byte limit for Image"
    );
    assert_eq!(UploadError::Api("nope".into()).message(), "API error: nope");
}

#[test]
fn mock_provider_replays_scripts() {
    let mut p = MockProvider::with_scripts(vec![vec![StreamEvent::MessageStop, StreamEvent::MessageStop], vec![]]);
    assert_eq!(p.id().as_str(), "mock");
    assert_eq!(p.name(), "Mock");
    assert_eq!(p.next_stream().len(), 2);
    assert_eq!(p.next_stream().len(), 0);
    let last = p.next_stream();
    assert!(matches!(last.as_slice(), [StreamEvent::MessageStop]));
    assert!(p.capabilities().tool_calling);
    assert!(!p.capabilities().image_input);
}

#[test]
fn api_keys_are_trimmed_and_blank_ones_dropped() {
    assert_eq!(trim("  a b \n"), "a b");
    assert_eq!(trim("\u{3000}x\u{a0}"), "x");
    assert_eq!(clean_api_key(Some("  sk-1 ".into())), Some("sk-1".to_string()));
    assert_eq!(clean_api_key(Some("   ".into())), None);
    assert_eq!(clean_api_key(None), None);
    let s = Settings::defaults_with_keys(Some("old".into()), Some("o".into()), "m".into());
    let s = with_api_key(s, "anthropic", Some(" \t ".into()));
    assert_eq!(s.anthropic_api_key, None);
    assert_eq!(s.openai_api_key.as_deref(), Some("o"));
    let s = with_api_key(s, "openai", Some(" new ".into()));
    assert_eq!(s.openai_api_key.as_deref(), Some("new"));
    let s = with_api_key(s, "groq", Some("g".into()));
    assert_eq!(s.openai_api_key.as_deref(), Some("new"));
    let s = with_default_model(s, "openai", "gpt");
    assert_eq!(s.default_provider, "openai");
    assert_eq!(s.default_model, "gpt");
}

#[test]
fn attachment_ingest_helpers() {
    assert_eq!(stored_file_name("id1", Some("png")), "id1.png");
    assert_eq!(stored_file_name("id1", None), "id1.bin");
    assert_eq!(display_name_of(None), "file");
    assert!(check_attachment_size(AttachmentKind::Image, "a.png", 5 * 1024 * 1024).is_ok());
    assert_eq!(
        check_attachment_size(AttachmentKind::Image, "a.png", 5 * 1024 * 1024 + 1),
        Err("file too large: a.png (5242881 bytes)".to_string())
    );
}

#[test]
fn chat_settings_env_key_fallback() {
    let s = ChatSettings::defaults("m".into(), std::path::PathBuf::from("/h"));
    assert_eq!(s.provider, "anthropic");
    let s = s.with_env_key(Some("env-key".into()));
    assert_eq!(s.api_key, "env-key");
    let s = s.with_env_key(Some("other".into()));
    assert_eq!(s.api_key, "env-key");
}
