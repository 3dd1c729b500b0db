//! Pure data types of the chat UI: sessions, messages, blocks, attachments.

use vstd::prelude::*;

verus! {

/// `std::path::PathBuf` is carried in attachments (their on-disk copy).
#[verifier::external_type_specification]
#[verifier::external_body]
pub struct ExPathBuf(std::path::PathBuf);

/// `std::path::Path`, the borrowed form of a path.
#[verifier::external_type_specification]
#[verifier::external_body]
pub struct ExPath(std::path::Path);

/// `PathBuf`'s `Clone` copies the path, so the clone is the same value.
pub assume_specification[ <std::path::PathBuf as Clone>::clone ](p: &std::path::PathBuf) -> (r:
    std::path::PathBuf)
    ensures
        r == *p,
;

/// Who a UI message belongs to.
#[derive(Debug, Clone, Copy, PartialEq, Eq, Structural)]
pub enum Role {
    User,
    Assistant,
    ToolResult,
}

/// The kinds of file a user can attach.
#[derive(Debug, Clone, Copy, PartialEq, Eq, Structural)]
pub enum AttachmentKind {
    Image,
    Text,
    Pdf,
}

/// A file attached to a message, copied into the attachments directory.
#[derive(Debug, Clone)]
pub struct Attachment {
    pub id: String,
    pub kind: AttachmentKind,
    pub display_name: String,
    pub mime: String,
    pub local_path: std::path::PathBuf,
    pub size_bytes: u64,
}

/// An attachment as plain values.
pub struct AttachmentView {
    pub id: Seq<char>,
    pub kind: AttachmentKind,
    pub display_name: Seq<char>,
    pub mime: Seq<char>,
    pub local_path: std::path::PathBuf,
    pub size_bytes: u64,
}

impl View for Attachment {
    type V = AttachmentView;

    open spec fn view(&self) -> AttachmentView {
        AttachmentView {
            id: self.id@,
            kind: self.kind,
            display_name: self.display_name@,
            mime: self.mime@,
            local_path: self.local_path,
            size_bytes: self.size_bytes,
        }
    }
}

/// A chat session as listed in the session pane.
#[derive(Debug, Clone)]
pub struct UiSession {
    pub id: String,
    pub title: String,
    pub created_at: i64,
    pub updated_at: i64,
    pub provider: String,
    pub model: String,
}

/// One message of a session.
#[derive(Debug, Clone)]
pub struct UiMessage {
    pub id: String,
    pub session_id: String,
    pub role: Role,
    pub created_at: i64,
    pub ordinal: i32,
}

/// What a block of a UI message holds.
#[derive(Debug, Clone)]
pub enum BlockKind {
    Text { text: String },
    Thinking { thinking: String, signature: Option<String> },
    ToolUse { id: String, name: String, input: serde_json::Value },
    ToolResult { tool_use_id: String, content: String, is_error: bool },
    Attachments { items: Vec<Attachment> },
}

/// What a block holds, as plain values.
pub enum BlockView {
    Text { text: Seq<char> },
    Thinking { thinking: Seq<char>, signature: Option<Seq<char>> },
    ToolUse { id: Seq<char>, name: Seq<char>, input: serde_json::Value },
    ToolResult { tool_use_id: Seq<char>, content: Seq<char>, is_error: bool },
    Attachments { items: Seq<AttachmentView> },
}

impl View for BlockKind {
    type V = BlockView;

    open spec fn view(&self) -> BlockView {
        match self {
            BlockKind::Text { text } => BlockView::Text { text: text@ },
            BlockKind::Thinking { thinking, signature } => BlockView::Thinking {
                thinking: thinking@,
                signature: match signature {
                    Some(s) => Some(s@),
                    None => None,
                },
            },
            BlockKind::ToolUse { id, name, input } => BlockView::ToolUse {
                id: id@,
                name: name@,
                input: *input,
            },
            BlockKind::ToolResult { tool_use_id, content, is_error } => BlockView::ToolResult {
                tool_use_id: tool_use_id@,
                content: content@,
                is_error: *is_error,
            },
            BlockKind::Attachments { items } => BlockView::Attachments {
                items: items@.map_values(|a: Attachment| a@),
            },
        }
    }
}

/// One block of a UI message.
#[derive(Debug, Clone)]
pub struct UiBlock {
    pub id: String,
    pub message_id: String,
    pub ordinal: i32,
    pub kind: BlockKind,
}

} // verus!
