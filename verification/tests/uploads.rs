use local_workflow_agent::api::provider_types::{ProviderCapabilities, SystemPromptStyle};
use local_workflow_agent::api::uploads::{
    check_size, classify, get_mime_type, mime_for_extension, to_content_block, FileKind, UploadError,
    UploadedFile, DOCUMENT_LIMIT, IMAGE_LIMIT,
};
use local_workflow_agent::types::ContentBlock;

fn caps_all() -> ProviderCapabilities {
    ProviderCapabilities {
        streaming: true,
        tool_calling: true,
        thinking: true,
        image_input: true,
        pdf_input: true,
        audio_input: false,
        video_input: false,
        caching: true,
        structured_output: true,
        system_prompt_style: SystemPromptStyle::TopLevel,
    }
}

fn caps_none() -> ProviderCapabilities {
    ProviderCapabilities {
        streaming: false,
        tool_calling: false,
        thinking: false,
        image_input: false,
        pdf_input: false,
        audio_input: false,
        video_input: false,
        caching: false,
        structured_output: false,
        system_prompt_style: SystemPromptStyle::TopLevel,
    }
}

#[test]
fn get_mime_type_covers_all_extensions() {
    assert_eq!(get_mime_type(std::path::Path::new("a.pdf")), "application/pdf");
    assert_eq!(get_mime_type(std::path::Path::new("a.txt")), "text/plain");
    assert_eq!(get_mime_type(std::path::Path::new("a.md")), "text/plain");
    assert_eq!(get_mime_type(std::path::Path::new("a.json")), "application/json");
    assert_eq!(get_mime_type(std::path::Path::new("a.csv")), "text/csv");
    assert_eq!(get_mime_type(std::path::Path::new("a.jpg")), "image/jpeg");
    assert_eq!(get_mime_type(std::path::Path::new("a.jpeg")), "image/jpeg");
    assert_eq!(get_mime_type(std::path::Path::new("a.png")), "image/png");
    assert_eq!(get_mime_type(std::path::Path::new("a.gif")), "image/gif");
    assert_eq!(get_mime_type(std::path::Path::new("a.webp")), "image/webp");
    assert_eq!(get_mime_type(std::path::Path::new("a.xyz")), "application/octet-stream");
    assert_eq!(get_mime_type(std::path::Path::new("noext")), "application/octet-stream");
}

#[test]
fn mime_uses_only_the_last_extension() {
    assert_eq!(get_mime_type(std::path::Path::new("dir.d/report.tar.pdf")), "application/pdf");
    assert_eq!(get_mime_type(std::path::Path::new("dir.pdf/readme")), "application/octet-stream");
    assert_eq!(get_mime_type(std::path::Path::new(".png")), "application/octet-stream");
    assert_eq!(mime_for_extension(Some("PNG")), "application/octet-stream");
    assert_eq!(mime_for_extension(None), "application/octet-stream");
}

#[test]
fn classify_by_mime() {
    assert_eq!(classify("image/png"), FileKind::Image);
    assert_eq!(classify("image/jpeg"), FileKind::Image);
    assert_eq!(classify("application/pdf"), FileKind::Document);
    assert_eq!(classify("text/plain"), FileKind::Other);
    assert_eq!(classify("application/octet-stream"), FileKind::Other);
}

#[test]
fn check_size_allows_under_limit() {
    assert!(check_size(5 * 1024 * 1024, "image/png").is_ok());
    assert!(check_size(50 * 1024 * 1024, "application/pdf").is_ok());
}

#[test]
fn check_size_rejects_over_limit() {
    assert!(matches!(
        check_size(5 * 1024 * 1024 + 1, "image/png"),
        Err(UploadError::TooLarge { kind: FileKind::Image, .. })
    ));
    assert!(matches!(
        check_size(50 * 1024 * 1024 + 1, "application/pdf"),
        Err(UploadError::TooLarge { kind: FileKind::Document, .. })
    ));
}

#[test]
fn check_size_reports_bytes_and_limit() {
    match check_size(DOCUMENT_LIMIT + 7, "text/plain") {
        Err(UploadError::TooLarge { bytes, limit, kind }) => {
            assert_eq!(bytes, DOCUMENT_LIMIT + 7);
            assert_eq!(limit, DOCUMENT_LIMIT);
            assert_eq!(kind, FileKind::Other);
        }
        other => panic!("expected TooLarge, got {:?}", other),
    }
    assert_eq!(IMAGE_LIMIT, 5 * 1024 * 1024);
    assert!(check_size(IMAGE_LIMIT + 1, "application/pdf").is_ok());
}

#[test]
fn to_content_block_image_when_supported() {
    let up = UploadedFile {
        file_id: "f1".into(),
        filename: "a.png".into(),
        bytes: 100,
        mime: "image/png".into(),
    };
    let block = to_content_block(&up, &caps_all());
    match block {
        ContentBlock::Image { source } => {
            assert_eq!(source.source_type, "file");
            assert_eq!(source.file_id.as_deref(), Some("f1"));
        }
        other => panic!("expected Image, got {:?}", other),
    }
}

#[test]
fn to_content_block_image_fallback_when_unsupported() {
    let up = UploadedFile {
        file_id: "f1".into(),
        filename: "a.png".into(),
        bytes: 100,
        mime: "image/png".into(),
    };
    let block = to_content_block(&up, &caps_none());
    match block {
        ContentBlock::Text { text } => assert!(text.contains("Image not supported")),
        other => panic!("expected Text, got {:?}", other),
    }
}

#[test]
fn to_content_block_pdf_when_supported() {
    let up = UploadedFile {
        file_id: "f2".into(),
        filename: "a.pdf".into(),
        bytes: 100,
        mime: "application/pdf".into(),
    };
    let block = to_content_block(&up, &caps_all());
    match block {
        ContentBlock::Document { source, .. } => {
            assert_eq!(source.source_type, "file");
            assert_eq!(source.file_id.as_deref(), Some("f2"));
        }
        other => panic!("expected Document, got {:?}", other),
    }
}

#[test]
fn to_content_block_pdf_fallback_when_unsupported() {
    let up = UploadedFile {
        file_id: "f2".into(),
        filename: "a.pdf".into(),
        bytes: 100,
        mime: "application/pdf".into(),
    };
    let block = to_content_block(&up, &caps_none());
    match block {
        ContentBlock::Text { text } => assert!(text.contains("PDF not supported")),
        other => panic!("expected Text, got {:?}", other),
    }
}

#[test]
fn to_content_block_other_mime_yields_text_placeholder() {
    let up = UploadedFile {
        file_id: "f3".into(),
        filename: "a.txt".into(),
        bytes: 100,
        mime: "text/plain".into(),
    };
    let block = to_content_block(&up, &caps_all());
    match block {
        ContentBlock::Text { text } => assert!(text.contains("附件"), "got: {}", text),
        other => panic!("expected Text, got {:?}", other),
    }
}

#[test]
fn placeholders_name_the_file_exactly() {
    let up = UploadedFile {
        file_id: "f9".into(),
        filename: "scan.pdf".into(),
        bytes: 1,
        mime: "application/pdf".into(),
    };
    match to_content_block(&up, &caps_none()) {
        ContentBlock::Text { text } => assert_eq!(text, "[PDF not supported: scan.pdf]"),
        other => panic!("expected Text, got {:?}", other),
    }
    let up = UploadedFile { mime: "image/gif".into(), filename: "x.gif".into(), ..up };
    match to_content_block(&up, &caps_none()) {
        ContentBlock::Text { text } => assert_eq!(text, "[Image not supported: x.gif]"),
        other => panic!("expected Text, got {:?}", other),
    }
}
