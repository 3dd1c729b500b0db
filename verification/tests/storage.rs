use local_workflow_agent::ui::model::{Attachment, AttachmentKind, BlockKind, Role};
use local_workflow_agent::ui::storage::{
    attachment_from_fields, attachment_kind_from_name, attachment_kind_name, block_from_fields, block_tag,
    decode_block, encode_block, role_from_name, role_name, BlockFields, DecodeError,
};

#[test]
fn role_names_round_trip() {
    for r in [Role::User, Role::Assistant, Role::ToolResult] {
        assert_eq!(role_from_name(role_name(r)), r);
    }
    assert_eq!(role_name(Role::ToolResult), "tool_result");
    assert_eq!(role_from_name("system"), Role::User);
}

#[test]
fn attachment_kind_names_round_trip() {
    for k in [AttachmentKind::Image, AttachmentKind::Text, AttachmentKind::Pdf] {
        assert_eq!(attachment_kind_from_name(Some(attachment_kind_name(k))), Some(k));
    }
    assert_eq!(attachment_kind_from_name(None), Some(AttachmentKind::Text));
    assert_eq!(attachment_kind_from_name(Some("video")), None);
}

fn no_fields() -> BlockFields {
    BlockFields {
        text: None,
        thinking: None,
        signature: None,
        id: None,
        name: None,
        input: serde_json::Value::Null,
        tool_use_id: None,
        content: None,
        is_error: None,
        items: vec![],
    }
}

#[test]
fn block_fields_defaults() {
    match block_from_fields("text", no_fields()) {
        Ok(BlockKind::Text { text }) => assert_eq!(text, ""),
        other => panic!("expected Text, got {other:?}"),
    }
    match block_from_fields("tool_result", no_fields()) {
        Ok(BlockKind::ToolResult { tool_use_id, content, is_error }) => {
            assert_eq!(tool_use_id, "");
            assert_eq!(content, "");
            assert!(!is_error);
        }
        other => panic!("expected ToolResult, got {other:?}"),
    }
    match block_from_fields("widget", no_fields()) {
        Err(e) => {
            assert!(matches!(&e, DecodeError::UnknownKind { tag } if tag == "widget"));
            assert_eq!(e.message(), "unknown block kind: widget");
        }
        other => panic!("expected error, got {other:?}"),
    }
}

#[test]
fn attachment_fields_defaults() {
    let a = attachment_from_fields(None, None, Some("n".into()), None, std::path::PathBuf::from("/x"), None).unwrap();
    assert_eq!(a.kind, AttachmentKind::Text);
    assert_eq!(a.id, "");
    assert_eq!(a.display_name, "n");
    assert_eq!(a.size_bytes, 0);
    assert!(attachment_from_fields(Some("audio"), None, None, None, std::path::PathBuf::new(), None).is_none());
}

#[test]
fn blocks_survive_encoding() {
    let blocks = vec![
        BlockKind::Text { text: "hello".into() },
        BlockKind::Thinking { thinking: "hmm".into(), signature: Some("sig".into()) },
        BlockKind::ToolUse { id: "t1".into(), name: "bash".into(), input: serde_json::Value::Bool(true) },
        BlockKind::ToolResult { tool_use_id: "t1".into(), content: "ok".into(), is_error: true },
        BlockKind::Attachments {
            items: vec![Attachment {
                id: "a1".into(),
                kind: AttachmentKind::Pdf,
                display_name: "doc.pdf".into(),
                mime: "application/pdf".into(),
                local_path: std::path::PathBuf::from("/tmp/doc.pdf"),
                size_bytes: 42,
            }],
        },
    ];
    for b in blocks {
        let (tag, payload) = encode_block(&b).expect("encodes");
        assert_eq!(tag, block_tag(&b));
        let back = decode_block(tag, &payload).expect("decodes");
        assert_eq!(format!("{:?}", back), format!("{:?}", b));
    }
}

#[test]
fn bad_payloads_are_rejected() {
    assert!(matches!(decode_block("text", b"{not json"), Err(DecodeError::BadPayload)));
    assert!(matches!(decode_block("gizmo", b"{}"), Err(DecodeError::UnknownKind { .. })));
}

#[test]
fn nested_tool_input_survives_encoding() {
    let mut inner = serde_json::Map::new();
    inner.insert("path".into(), serde_json::Value::String("a\"b\n".into()));
    inner.insert("count".into(), serde_json::Value::from(3u64));
    inner.insert("flags".into(), serde_json::Value::Array(vec![serde_json::Value::Bool(false), serde_json::Value::Null]));
    let input = serde_json::Value::Object(inner);
    let b = BlockKind::ToolUse { id: "t9".into(), name: "edit".into(), input: input.clone() };
    let (tag, payload) = encode_block(&b).expect("encodes");
    assert_eq!(tag, "tool_use");
    match decode_block(tag, &payload) {
        Ok(BlockKind::ToolUse { id, name, input: back }) => {
            assert_eq!(id, "t9");
            assert_eq!(name, "edit");
            assert_eq!(back, input);
        }
        other => panic!("expected ToolUse, got {other:?}"),
    }
}

#[test]
fn missing_members_read_as_defaults() {
    match decode_block("tool_use", b"{\"id\": 5}") {
        Ok(BlockKind::ToolUse { id, name, input }) => {
            assert_eq!(id, "");
            assert_eq!(name, "");
            assert_eq!(input, serde_json::Value::Null);
        }
        other => panic!("expected ToolUse, got {other:?}"),
    }
    match decode_block("thinking", b"{\"thinking\": \"t\", \"signature\": null}") {
        Ok(BlockKind::Thinking { thinking, signature }) => {
            assert_eq!(thinking, "t");
            assert_eq!(signature, None);
        }
        other => panic!("expected Thinking, got {other:?}"),
    }
    match decode_block("attachments", b"{\"items\": [{\"kind\": \"video\"}, {\"id\": \"x\"}]}") {
        Ok(BlockKind::Attachments { items }) => {
            assert_eq!(items.len(), 1);
            assert_eq!(items[0].kind, AttachmentKind::Text);
            assert_eq!(items[0].id, "x");
            assert_eq!(items[0].size_bytes, 0);
        }
        other => panic!("expected Attachments, got {other:?}"),
    }
}
