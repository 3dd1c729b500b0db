use local_workflow_agent::ui::input::attachments::{classify, classify_mime, fits_limit, limit_for, plan_attachment};
use local_workflow_agent::ui::model::AttachmentKind;

#[test]
fn classify_known_types() {
    assert_eq!(classify("a.png"), Some(AttachmentKind::Image));
    assert_eq!(classify("a.pdf"), Some(AttachmentKind::Pdf));
    assert_eq!(classify("a.txt"), Some(AttachmentKind::Text));
    assert_eq!(classify("a.bin"), None);
}

#[test]
fn classify_mime_top_levels() {
    assert_eq!(classify_mime("image/webp"), Some(AttachmentKind::Image));
    assert_eq!(classify_mime("IMAGE/PNG"), Some(AttachmentKind::Image));
    assert_eq!(classify_mime("application/pdf"), Some(AttachmentKind::Pdf));
    assert_eq!(classify_mime("text/x-rust"), Some(AttachmentKind::Text));
    assert_eq!(classify_mime("application/json"), None);
    assert_eq!(classify("photo.JPG"), Some(AttachmentKind::Image));
    assert_eq!(classify("unknown.zzzz"), None);
}

#[test]
fn attachment_limits() {
    assert_eq!(limit_for(AttachmentKind::Image), 5 * 1024 * 1024);
    assert_eq!(limit_for(AttachmentKind::Pdf), 50 * 1024 * 1024);
    assert_eq!(limit_for(AttachmentKind::Text), 50 * 1024 * 1024);
    assert!(fits_limit(AttachmentKind::Image, 5 * 1024 * 1024));
    assert!(!fits_limit(AttachmentKind::Image, 5 * 1024 * 1024 + 1));
}

#[test]
fn planned_attachments_record_the_file() {
    let a = plan_attachment(AttachmentKind::Image, "/x/photo.jpg", "id9".into(), Some("photo.jpg"), 10, "/att/id9.jpg".into())
        .unwrap();
    assert_eq!(a.mime, "image/jpeg");
    assert_eq!(a.display_name, "photo.jpg");
    assert_eq!(a.size_bytes, 10);
    let e = plan_attachment(AttachmentKind::Image, "/x/big.png", "id".into(), None, 6 * 1024 * 1024, "/att/id.png".into());
    assert_eq!(e.unwrap_err(), "file too large: /x/big.png (6291456 bytes)");
}
