use local_workflow_agent::api::provider_types::{StopReason, StreamEvent as PStream};
use local_workflow_agent::types::{ContentBlock, MessageContent, Role, UsageInfo};
use local_workflow_agent::ui::model::{Attachment, AttachmentKind};
use local_workflow_agent::ui::stream::StreamEvent;
use local_workflow_agent::ui::turn::{
    attachment_to_content_block, make_user_message, new_request, stream_failed, stream_open_failed, with_system_prompt,
    working_dir_marker, TurnDriver, TurnEvent,
};

fn att(kind: AttachmentKind, mime: &str) -> Attachment {
    Attachment {
        id: "a".into(),
        kind,
        display_name: "f.bin".into(),
        mime: mime.into(),
        local_path: std::path::PathBuf::from("/tmp/f.bin"),
        size_bytes: 3,
    }
}

#[test]
fn driver_forwards_until_stop() {
    let mut d = TurnDriver::new();
    let (out, over) = d.on_event(PStream::TextDelta { index: 0, text: "hi".into() });
    assert!(!over);
    assert!(matches!(out.as_slice(), [TurnEvent::Stream(StreamEvent::TextDelta { .. })]));
    let (out, over) = d.on_event(PStream::MessageDelta { stop_reason: Some(StopReason::ToolUse), usage: None });
    assert!(!over);
    assert!(out.is_empty());
    let (out, over) = d.on_event(PStream::MessageStop);
    assert!(over);
    assert!(out.iter().any(|e| matches!(e, TurnEvent::Done { stop_reason } if stop_reason == "tool_use")));
}

#[test]
fn stream_end_without_stop_reports_done() {
    let mut d = TurnDriver::new();
    d.on_event(PStream::MessageStart { id: "m".into(), model: "x".into(), usage: UsageInfo::default() });
    let out = d.on_stream_end();
    assert!(matches!(out.last(), Some(TurnEvent::Done { stop_reason }) if stop_reason == "end_turn"));
    assert_eq!(out.len(), 2);
    match stream_open_failed("refused") {
        TurnEvent::Failed { message, retryable } => {
            assert_eq!(message, "create_message_stream: refused");
            assert!(retryable);
        }
        other => panic!("expected Failed, got {other:?}"),
    }
    assert!(matches!(stream_failed("eof"), TurnEvent::Failed { message, .. } if message == "stream error: eof"));
}

#[test]
fn attachments_become_inline_blocks() {
    match attachment_to_content_block(&att(AttachmentKind::Image, "image/png"), Some(b"abc".to_vec())) {
        Some(ContentBlock::Image { source }) => {
            assert_eq!(source.source_type, "base64");
            assert_eq!(source.data.as_deref(), Some("YWJj"));
            assert_eq!(source.media_type.as_deref(), Some("image/png"));
        }
        other => panic!("expected image, got {other:?}"),
    }
    match attachment_to_content_block(&att(AttachmentKind::Text, "text/plain"), Some("héllo".as_bytes().to_vec())) {
        Some(ContentBlock::Document { source, title, .. }) => {
            assert_eq!(source.source_type, "text");
            assert_eq!(source.data.as_deref(), Some("héllo"));
            assert_eq!(title.as_deref(), Some("f.bin"));
        }
        other => panic!("expected document, got {other:?}"),
    }
    assert!(attachment_to_content_block(&att(AttachmentKind::Text, "text/plain"), Some(vec![0xff, 0xfe])).is_none());
    assert!(attachment_to_content_block(&att(AttachmentKind::Pdf, "application/pdf"), None).is_none());
}

#[test]
fn user_message_puts_attachments_before_text() {
    let atts = vec![att(AttachmentKind::Pdf, "application/pdf"), att(AttachmentKind::Image, "image/png")];
    let m = make_user_message("see", &atts, vec![Some(vec![1, 2]), None]);
    assert_eq!(m.role, Role::User);
    match &m.content {
        MessageContent::Blocks(b) => {
            assert_eq!(b.len(), 2);
            assert!(matches!(&b[0], ContentBlock::Document { source, .. } if source.data.as_deref() == Some("AQI=")));
            assert!(matches!(&b[1], ContentBlock::Text { text } if text == "see"));
        }
        other => panic!("expected blocks, got {other:?}"),
    }
    let req = with_system_prompt(new_request("m", 100, vec![m]), "sys".into());
    assert_eq!(req.max_tokens, 100);
    assert_eq!(req.messages.len(), 1);
    let p = std::path::Path::new("/proj");
    assert_eq!(working_dir_marker(p), p);
}
