//! How chat messages and their blocks are stored: the role and block-kind
//! names written to the database, and the JSON payload of each block. The
//! database itself is driven by the caller.

use vstd::prelude::*;
use vstd::string::*;

use crate::json::{
    json_array, json_as_array, json_as_bool, json_as_str, json_as_u64, json_bool, json_bool_of,
    json_bytes_of, json_elements, json_entries, json_get, json_is_null_value, json_map_insert,
    json_map_members, json_map_new, json_member, json_null, json_object, json_parse_bytes,
    json_plain, json_str, json_string, json_to_vec, json_u64, json_u64_of,
    parse_json_bytes, path_from, path_lossy, path_of_text, path_text,
};
use crate::text::str_eq;
use crate::api::providers::opt_view;
use crate::ui::model::{Attachment, AttachmentKind, AttachmentView, BlockKind, BlockView, Role};

verus! {

/// The stored name of a message role.
pub open spec fn role_name_spec(role: Role) -> Seq<char> {
    match role {
        Role::User => "user"@,
        Role::Assistant => "assistant"@,
        Role::ToolResult => "tool_result"@,
    }
}

/// The stored name of a message role.
pub fn role_name(role: Role) -> (r: &'static str)
    ensures
        r@ == role_name_spec(role),
{
    match role {
        Role::User => "user",
        Role::Assistant => "assistant",
        Role::ToolResult => "tool_result",
    }
}

/// The role a stored name reads as; an unknown name reads as `User`.
pub open spec fn role_from_name_spec(name: Seq<char>) -> Role {
    if name == "assistant"@ {
        Role::Assistant
    } else if name == "tool_result"@ {
        Role::ToolResult
    } else {
        Role::User
    }
}

/// The role a stored name reads as; an unknown name reads as `User`.
pub fn role_from_name(name: &str) -> (r: Role)
    ensures
        r == role_from_name_spec(name@),
{
    if str_eq(name, "assistant") {
        Role::Assistant
    } else if str_eq(name, "tool_result") {
        Role::ToolResult
    } else {
        Role::User
    }
}

/// A stored role reads back as the role that was stored.
pub proof fn law_role_name_round_trip(role: Role)
    ensures
        role_from_name_spec(role_name_spec(role)) == role,
{
    reveal_strlit("user");
    reveal_strlit("assistant");
    reveal_strlit("tool_result");
    assert("user"@[0] == 'u' && "assistant"@[0] == 'a' && "tool_result"@[0] == 't');
}

/// The stored tag of a block.
pub open spec fn block_view_tag(b: BlockView) -> Seq<char> {
    match b {
        BlockView::Text { .. } => "text"@,
        BlockView::Thinking { .. } => "thinking"@,
        BlockView::ToolUse { .. } => "tool_use"@,
        BlockView::ToolResult { .. } => "tool_result"@,
        BlockView::Attachments { .. } => "attachments"@,
    }
}

/// The stored tag of a block kind.
pub open spec fn block_tag_spec(k: BlockKind) -> Seq<char> {
    block_view_tag(k@)
}

/// The stored tag of a block kind.
pub fn block_tag(k: &BlockKind) -> (r: &'static str)
    ensures
        r@ == block_tag_spec(*k),
{
    match k {
        BlockKind::Text { .. } => "text",
        BlockKind::Thinking { .. } => "thinking",
        BlockKind::ToolUse { .. } => "tool_use",
        BlockKind::ToolResult { .. } => "tool_result",
        BlockKind::Attachments { .. } => "attachments",
    }
}

/// The stored name of an attachment kind.
pub open spec fn attachment_kind_name_spec(k: AttachmentKind) -> Seq<char> {
    match k {
        AttachmentKind::Image => "image"@,
        AttachmentKind::Text => "text"@,
        AttachmentKind::Pdf => "pdf"@,
    }
}

/// The stored name of an attachment kind.
pub fn attachment_kind_name(k: AttachmentKind) -> (r: &'static str)
    ensures
        r@ == attachment_kind_name_spec(k),
{
    match k {
        AttachmentKind::Image => "image",
        AttachmentKind::Text => "text",
        AttachmentKind::Pdf => "pdf",
    }
}

/// The attachment kind a stored name reads as: a missing name reads as
/// `Text`, an unknown one as nothing (the attachment is dropped).
pub open spec fn attachment_kind_from_name_spec(name: Option<Seq<char>>) -> Option<AttachmentKind> {
    let n = match name {
        Some(n) => n,
        None => "text"@,
    };
    if n == "image"@ {
        Some(AttachmentKind::Image)
    } else if n == "text"@ {
        Some(AttachmentKind::Text)
    } else if n == "pdf"@ {
        Some(AttachmentKind::Pdf)
    } else {
        None
    }
}

/// The attachment kind a stored name reads as.
pub fn attachment_kind_from_name(name: Option<&str>) -> (r: Option<AttachmentKind>)
    ensures
        r == attachment_kind_from_name_spec(
            match name {
                Some(n) => Some(n@),
                None => None,
            },
        ),
{
    let n = match name {
        Some(n) => n,
        None => "text",
    };
    if str_eq(n, "image") {
        Some(AttachmentKind::Image)
    } else if str_eq(n, "text") {
        Some(AttachmentKind::Text)
    } else if str_eq(n, "pdf") {
        Some(AttachmentKind::Pdf)
    } else {
        None
    }
}

/// A stored attachment kind reads back as the kind that was stored.
pub proof fn law_attachment_kind_round_trip(k: AttachmentKind)
    ensures
        attachment_kind_from_name_spec(Some(attachment_kind_name_spec(k))) == Some(k),
{
    reveal_strlit("image");
    reveal_strlit("text");
    reveal_strlit("pdf");
    assert("image"@[0] == 'i' && "text"@[0] == 't' && "pdf"@[0] == 'p');
}

/// The fields of a stored block payload, as read from its JSON object.
pub struct BlockFields {
    pub text: Option<String>,
    pub thinking: Option<String>,
    pub signature: Option<String>,
    pub id: Option<String>,
    pub name: Option<String>,
    /// The `input` member (JSON `null` when absent).
    pub input: serde_json::Value,
    pub tool_use_id: Option<String>,
    pub content: Option<String>,
    pub is_error: Option<bool>,
    /// The attachments of the `items` array that could be read, in order.
    pub items: Vec<Attachment>,
}

/// A string field, empty when absent.
pub open spec fn or_empty(s: Option<String>) -> Seq<char> {
    match s {
        Some(t) => t@,
        None => Seq::empty(),
    }
}

fn take_or_empty(s: Option<String>) -> (r: String)
    ensures
        r@ == or_empty(s),
{
    match s {
        Some(t) => t,
        None => String::new(),
    }
}

/// Why a stored block could not be read.
#[derive(Debug, Clone)]
pub enum DecodeError {
    /// The payload is not JSON.
    BadPayload,
    /// The tag names no block kind.
    UnknownKind { tag: String },
}

impl DecodeError {
    /// The error message.
    pub fn message(&self) -> (r: String)
        ensures
            r@ == match self {
                DecodeError::BadPayload => "block payload is not valid JSON"@,
                DecodeError::UnknownKind { tag } => "unknown block kind: "@ + tag@,
            },
    {
        match self {
            DecodeError::BadPayload => String::from_str("block payload is not valid JSON"),
            DecodeError::UnknownKind { tag } => {
                let mut s = String::from_str("unknown block kind: ");
                s.append(tag.as_str());
                s
            },
        }
    }
}

/// The block a tag and its payload fields describe; missing strings read as
/// empty, a missing error flag as `false`.
pub fn block_from_fields(tag: &str, fields: BlockFields) -> (r: Result<BlockKind, DecodeError>)
    ensures
        tag@ == "text"@ ==> (r matches Ok(BlockKind::Text { text }) && text@ == or_empty(fields.text)),
        tag@ == "thinking"@ ==> (r matches Ok(BlockKind::Thinking { thinking, signature })
            && thinking@ == or_empty(fields.thinking) && signature == fields.signature),
        tag@ == "tool_use"@ ==> (r matches Ok(BlockKind::ToolUse { id, name, input }) && id@ == or_empty(
            fields.id,
        ) && name@ == or_empty(fields.name) && input == fields.input),
        tag@ == "tool_result"@ ==> (r matches Ok(BlockKind::ToolResult { tool_use_id, content, is_error })
            && tool_use_id@ == or_empty(fields.tool_use_id) && content@ == or_empty(fields.content)
            && is_error == (fields.is_error == Some(true))),
        tag@ == "attachments"@ ==> (r matches Ok(BlockKind::Attachments { items }) && items@
            == fields.items@),
        !(tag@ == "text"@ || tag@ == "thinking"@ || tag@ == "tool_use"@ || tag@ == "tool_result"@
            || tag@ == "attachments"@) ==> (r matches Err(DecodeError::UnknownKind { tag: t }) && t@
            == tag@),
{
    proof {
        reveal_strlit("text");
        reveal_strlit("thinking");
        reveal_strlit("tool_use");
        reveal_strlit("tool_result");
        reveal_strlit("attachments");
        assert("text"@.len() == 4 && "thinking"@.len() == 8 && "tool_use"@.len() == 8);
        assert("thinking"@[1] == 'h' && "tool_use"@[1] == 'o');
        assert("tool_result"@[0] == 't' && "attachments"@[0] == 'a' && "tool_result"@.len() == 11);
    }
    if str_eq(tag, "text") {
        Ok(BlockKind::Text { text: take_or_empty(fields.text) })
    } else if str_eq(tag, "thinking") {
        Ok(BlockKind::Thinking { thinking: take_or_empty(fields.thinking), signature: fields.signature })
    } else if str_eq(tag, "tool_use") {
        Ok(BlockKind::ToolUse { id: take_or_empty(fields.id), name: take_or_empty(fields.name), input: fields.input })
    } else if str_eq(tag, "tool_result") {
        let is_error = match fields.is_error {
            Some(b) => b,
            None => false,
        };
        Ok(
            BlockKind::ToolResult {
                tool_use_id: take_or_empty(fields.tool_use_id),
                content: take_or_empty(fields.content),
                is_error,
            },
        )
    } else if str_eq(tag, "attachments") {
        Ok(BlockKind::Attachments { items: fields.items })
    } else {
        Err(DecodeError::UnknownKind { tag: String::from_str(tag) })
    }
}

/// The attachment a stored item describes: dropped when its kind is unknown;
/// missing strings read as empty, a missing size as 0.
pub fn attachment_from_fields(
    kind: Option<&str>,
    id: Option<String>,
    display_name: Option<String>,
    mime: Option<String>,
    local_path: std::path::PathBuf,
    size_bytes: Option<u64>,
) -> (r: Option<Attachment>)
    ensures
        r is Some <==> attachment_kind_from_name_spec(
            match kind {
                Some(k) => Some(k@),
                None => None,
            },
        ) is Some,
        r matches Some(a) ==> {
            &&& Some(a.kind) == attachment_kind_from_name_spec(
                match kind {
                    Some(k) => Some(k@),
                    None => None,
                },
            )
            &&& a.id@ == or_empty(id)
            &&& a.display_name@ == or_empty(display_name)
            &&& a.mime@ == or_empty(mime)
            &&& a.local_path == local_path
            &&& a.size_bytes == match size_bytes {
                Some(n) => n,
                None => 0,
            }
        },
{
    let k = attachment_kind_from_name(kind)?;
    Some(
        Attachment {
            id: take_or_empty(id),
            kind: k,
            display_name: take_or_empty(display_name),
            mime: take_or_empty(mime),
            local_path,
            size_bytes: match size_bytes {
                Some(n) => n,
                None => 0,
            },
        },
    )
}

/// The text of member `key` of `v`, when it is a string.
pub open spec fn member_text(v: serde_json::Value, key: Seq<char>) -> Option<Seq<char>> {
    match json_get(v, key) {
        Some(m) => json_str(m),
        None => None,
    }
}

/// The number of member `key` of `v`, when it is an unsigned integer.
pub open spec fn member_u64(v: serde_json::Value, key: Seq<char>) -> Option<u64> {
    match json_get(v, key) {
        Some(m) => json_u64_of(m),
        None => None,
    }
}

/// A text, empty when absent.
pub open spec fn text_or_empty(t: Option<Seq<char>>) -> Seq<char> {
    match t {
        Some(s) => s,
        None => Seq::empty(),
    }
}

/// The attachment a stored JSON item reads as: nothing when its kind is
/// unknown; missing strings read as empty, a missing size as 0.
pub open spec fn attachment_of_json(v: serde_json::Value) -> Option<AttachmentView> {
    match attachment_kind_from_name_spec(member_text(v, "kind"@)) {
        Some(kind) => Some(
            AttachmentView {
                id: text_or_empty(member_text(v, "id"@)),
                kind,
                display_name: text_or_empty(member_text(v, "display_name"@)),
                mime: text_or_empty(member_text(v, "mime"@)),
                local_path: path_of_text(text_or_empty(member_text(v, "local_path"@))),
                size_bytes: match member_u64(v, "size_bytes"@) {
                    Some(n) => n,
                    None => 0,
                },
            },
        ),
        None => None,
    }
}

/// The attachments stored JSON items read as, in order, leaving out those
/// whose kind is unknown.
pub open spec fn attachments_of_json(items: Seq<serde_json::Value>) -> Seq<AttachmentView>
    decreases items.len(),
{
    if items.len() == 0 {
        Seq::empty()
    } else {
        let rest = attachments_of_json(items.drop_last());
        match attachment_of_json(items.last()) {
            Some(a) => rest.push(a),
            None => rest,
        }
    }
}

/// The attachments of a payload's `items` array (none when it has none).
pub open spec fn payload_items(p: serde_json::Value) -> Seq<AttachmentView> {
    match json_get(p, "items"@) {
        Some(m) => match json_elements(m) {
            Some(es) => attachments_of_json(es),
            None => Seq::empty(),
        },
        None => Seq::empty(),
    }
}

/// Whether the payload `p` of a block stored under `tag` reads as `b`:
/// missing strings read as empty, a missing error flag as `false`, a
/// missing tool input as `null`.
pub open spec fn payload_reads_as(tag: Seq<char>, p: serde_json::Value, b: BlockView) -> bool {
    if tag == "text"@ {
        b == BlockView::Text { text: text_or_empty(member_text(p, "text"@)) }
    } else if tag == "thinking"@ {
        b == BlockView::Thinking {
            thinking: text_or_empty(member_text(p, "thinking"@)),
            signature: member_text(p, "signature"@),
        }
    } else if tag == "tool_use"@ {
        &&& b matches BlockView::ToolUse { id, name, input }
        &&& id == text_or_empty(member_text(p, "id"@))
        &&& name == text_or_empty(member_text(p, "name"@))
        &&& match json_get(p, "input"@) {
            Some(x) => input == x,
            None => json_is_null_value(input),
        }
    } else if tag == "tool_result"@ {
        b == BlockView::ToolResult {
            tool_use_id: text_or_empty(member_text(p, "tool_use_id"@)),
            content: text_or_empty(member_text(p, "content"@)),
            is_error: match json_get(p, "is_error"@) {
                Some(x) => json_bool_of(x) == Some(true),
                None => false,
            },
        }
    } else if tag == "attachments"@ {
        b == BlockView::Attachments { items: payload_items(p) }
    } else {
        false
    }
}

/// The JSON object an attachment is stored as: exactly the members `id`,
/// `kind`, `display_name`, `mime`, `local_path` (the path's text) and
/// `size_bytes`.
pub open spec fn attachment_json(a: AttachmentView, v: serde_json::Value) -> bool {
    &&& json_entries(v) is Some
    &&& forall|k: Seq<char>|
        #![trigger json_get(v, k)]
        json_get(v, k) is Some <==> (k == "id"@ || k == "kind"@ || k == "display_name"@ || k
            == "mime"@ || k == "local_path"@ || k == "size_bytes"@)
    &&& member_text(v, "id"@) == Some(a.id)
    &&& member_text(v, "kind"@) == Some(attachment_kind_name_spec(a.kind))
    &&& member_text(v, "display_name"@) == Some(a.display_name)
    &&& member_text(v, "mime"@) == Some(a.mime)
    &&& member_text(v, "local_path"@) == Some(path_lossy(a.local_path))
    &&& member_u64(v, "size_bytes"@) == Some(a.size_bytes)
}

/// The JSON object a block is stored as: exactly the members of its kind.
pub open spec fn payload_of(b: BlockView, p: serde_json::Value) -> bool {
    &&& json_entries(p) is Some
    &&& match b {
        BlockView::Text { text } => {
            &&& forall|k: Seq<char>| #![trigger json_get(p, k)] json_get(p, k) is Some <==> k == "text"@
            &&& member_text(p, "text"@) == Some(text)
        },
        BlockView::Thinking { thinking, signature } => {
            &&& forall|k: Seq<char>|
                #![trigger json_get(p, k)]
                json_get(p, k) is Some <==> (k == "thinking"@ || k == "signature"@)
            &&& member_text(p, "thinking"@) == Some(thinking)
            &&& match signature {
                Some(s) => member_text(p, "signature"@) == Some(s),
                None => json_get(p, "signature"@) matches Some(x) && json_is_null_value(x)
                    && json_str(x) is None,
            }
        },
        BlockView::ToolUse { id, name, input } => {
            &&& forall|k: Seq<char>|
                #![trigger json_get(p, k)]
                json_get(p, k) is Some <==> (k == "id"@ || k == "name"@ || k == "input"@)
            &&& member_text(p, "id"@) == Some(id)
            &&& member_text(p, "name"@) == Some(name)
            &&& json_get(p, "input"@) == Some(input)
        },
        BlockView::ToolResult { tool_use_id, content, is_error } => {
            &&& forall|k: Seq<char>|
                #![trigger json_get(p, k)]
                json_get(p, k) is Some <==> (k == "tool_use_id"@ || k == "content"@ || k
                    == "is_error"@)
            &&& member_text(p, "tool_use_id"@) == Some(tool_use_id)
            &&& member_text(p, "content"@) == Some(content)
            &&& json_get(p, "is_error"@) matches Some(x) && json_bool_of(x) == Some(is_error)
        },
        BlockView::Attachments { items } => {
            &&& forall|k: Seq<char>| #![trigger json_get(p, k)] json_get(p, k) is Some <==> k == "items"@
            &&& json_get(p, "items"@) matches Some(arr) && json_elements(arr) matches Some(es)
                && es.len() == items.len() && forall|i: int|
                0 <= i < es.len() ==> attachment_json(items[i], #[trigger] es[i])
        },
    }
}

/// A block whose tool input, if any, is plain JSON (see `json_plain`)
/// nested fewer than 127 deep, so that the payload holding it (one level
/// more) is stored as text that parses back to the same payload.
pub open spec fn tool_input_plain(b: BlockView) -> bool {
    match b {
        BlockView::ToolUse { input, .. } => exists|d: nat| d < 127 && json_plain(input, d),
        _ => true,
    }
}

/// A block whose attachment paths, if any, are text: reading a path back
/// from its stored text gives the same path.
pub open spec fn attachment_paths_are_text(b: BlockView) -> bool {
    match b {
        BlockView::Attachments { items } => forall|i: int|
            0 <= i < items.len() ==> path_of_text(path_lossy(#[trigger] items[i].local_path))
                == items[i].local_path,
        _ => true,
    }
}

/// A JSON string, or `null` when absent.
fn json_opt_string(s: Option<String>) -> (r: serde_json::Value)
    ensures
        match s {
            Some(t) => json_str(r) == Some(t@),
            None => json_is_null_value(r) && json_str(r) is None,
        },
{
    match s {
        Some(t) => json_string(t),
        None => json_null(),
    }
}

/// The string member `key` of `v`, if it is one.
fn member_str(v: &serde_json::Value, key: &str) -> (r: Option<String>)
    ensures
        opt_view(r) == member_text(*v, key@),
{
    match json_member(v, key) {
        Some(m) => match json_as_str(m) {
            Some(s) => Some(String::from_str(s)),
            None => None,
        },
        None => None,
    }
}

/// The JSON object of a stored attachment.
fn attachment_to_json(a: &Attachment) -> (r: serde_json::Value)
    ensures
        attachment_json(a@, r),
{
    proof {
        reveal_strlit("id");
        reveal_strlit("kind");
        reveal_strlit("display_name");
        reveal_strlit("mime");
        reveal_strlit("local_path");
        reveal_strlit("size_bytes");
        assert("id"@.len() == 2 && "kind"@.len() == 4 && "display_name"@.len() == 12);
        assert("mime"@.len() == 4 && "local_path"@.len() == 10 && "size_bytes"@.len() == 10);
        assert("kind"@[0] != "mime"@[0]);
        assert("local_path"@[0] != "size_bytes"@[0]);
        assert("id"@ != "kind"@ && "id"@ != "display_name"@ && "id"@ != "mime"@);
        assert("id"@ != "local_path"@ && "id"@ != "size_bytes"@);
        assert("kind"@ != "display_name"@ && "kind"@ != "mime"@ && "kind"@ != "local_path"@);
        assert("kind"@ != "size_bytes"@ && "display_name"@ != "mime"@);
        assert("display_name"@ != "local_path"@ && "display_name"@ != "size_bytes"@);
        assert("mime"@ != "local_path"@ && "mime"@ != "size_bytes"@);
        assert("local_path"@ != "size_bytes"@);
    }
    let mut m = json_map_new();
    let id = json_string(a.id.clone());
    let kind = json_string(String::from_str(attachment_kind_name(a.kind)));
    let display = json_string(a.display_name.clone());
    let mime = json_string(a.mime.clone());
    let path = json_string(path_text(&a.local_path));
    let size = json_u64(a.size_bytes);
    json_map_insert(&mut m, "id", id);
    json_map_insert(&mut m, "kind", kind);
    json_map_insert(&mut m, "display_name", display);
    json_map_insert(&mut m, "mime", mime);
    json_map_insert(&mut m, "local_path", path);
    json_map_insert(&mut m, "size_bytes", size);
    let r = json_object(m);
    proof {
        assert(json_get(r, "id"@) == Some(id));
        assert(json_get(r, "kind"@) == Some(kind));
        assert(json_get(r, "display_name"@) == Some(display));
        assert(json_get(r, "mime"@) == Some(mime));
        assert(json_get(r, "local_path"@) == Some(path));
        assert(json_get(r, "size_bytes"@) == Some(size));
    }
    r
}

/// The attachment a stored JSON item describes; dropped when its kind is
/// unknown.
fn json_to_attachment(v: &serde_json::Value) -> (r: Option<Attachment>)
    ensures
        match r {
            Some(a) => attachment_of_json(*v) == Some(a@),
            None => attachment_of_json(*v) is None,
        },
{
    let kind = member_str(v, "kind");
    let local = match member_str(v, "local_path") {
        Some(p) => p,
        None => String::new(),
    };
    let size = match json_member(v, "size_bytes") {
        Some(n) => json_as_u64(n),
        None => None,
    };
    let kind_ref: Option<&str> = match &kind {
        Some(k) => Some(k.as_str()),
        None => None,
    };
    let id = member_str(v, "id");
    let display_name = member_str(v, "display_name");
    let mime = member_str(v, "mime");
    let r = attachment_from_fields(kind_ref, id, display_name, mime, path_from(local.as_str()), size);
    r
}

/// The JSON object a block is stored as.
fn block_payload(k: &BlockKind) -> (r: serde_json::Value)
    ensures
        payload_of(k@, r),
{
    proof {
        reveal_strlit("text");
        reveal_strlit("thinking");
        reveal_strlit("signature");
        reveal_strlit("id");
        reveal_strlit("name");
        reveal_strlit("input");
        reveal_strlit("tool_use_id");
        reveal_strlit("content");
        reveal_strlit("is_error");
        reveal_strlit("items");
        assert("thinking"@.len() == 8 && "signature"@.len() == 9);
        assert("id"@.len() == 2 && "name"@.len() == 4 && "input"@.len() == 5);
        assert("tool_use_id"@.len() == 11 && "content"@.len() == 7 && "is_error"@.len() == 8);
        assert("thinking"@ != "signature"@ && "id"@ != "name"@ && "id"@ != "input"@);
        assert("name"@ != "input"@ && "tool_use_id"@ != "content"@ && "tool_use_id"@ != "is_error"@);
        assert("content"@ != "is_error"@);
    }
    let mut m = json_map_new();
    match k {
        BlockKind::Text { text } => {
            let t = json_string(text.clone());
            json_map_insert(&mut m, "text", t);
            let r = json_object(m);
            assert(json_get(r, "text"@) == Some(t));
            r
        },
        BlockKind::Thinking { thinking, signature } => {
            let t = json_string(thinking.clone());
            let s = json_opt_string(crate::types::copy_opt_string(signature));
            json_map_insert(&mut m, "thinking", t);
            json_map_insert(&mut m, "signature", s);
            let r = json_object(m);
            assert(json_get(r, "thinking"@) == Some(t));
            assert(json_get(r, "signature"@) == Some(s));
            r
        },
        BlockKind::ToolUse { id, name, input } => {
            let i = json_string(id.clone());
            let n = json_string(name.clone());
            json_map_insert(&mut m, "id", i);
            json_map_insert(&mut m, "name", n);
            json_map_insert(&mut m, "input", input.clone());
            let r = json_object(m);
            assert(json_get(r, "id"@) == Some(i));
            assert(json_get(r, "name"@) == Some(n));
            r
        },
        BlockKind::ToolResult { tool_use_id, content, is_error } => {
            let t = json_string(tool_use_id.clone());
            let c = json_string(content.clone());
            let e = json_bool(*is_error);
            json_map_insert(&mut m, "tool_use_id", t);
            json_map_insert(&mut m, "content", c);
            json_map_insert(&mut m, "is_error", e);
            let r = json_object(m);
            assert(json_get(r, "tool_use_id"@) == Some(t));
            assert(json_get(r, "content"@) == Some(c));
            assert(json_get(r, "is_error"@) == Some(e));
            r
        },
        BlockKind::Attachments { items } => {
            let mut arr: Vec<serde_json::Value> = Vec::new();
            let mut i: usize = 0;
            while i < items.len()
                invariant
                    i <= items@.len(),
                    arr@.len() == i,
                    forall|j: int| 0 <= j < i ==> attachment_json(items@[j]@, #[trigger] arr@[j]),
                decreases items@.len() - i,
            {
                arr.push(attachment_to_json(&items[i]));
                i = i + 1;
            }
            let ghost elems = arr@;
            let a = json_array(arr);
            json_map_insert(&mut m, "items", a);
            let r = json_object(m);
            proof {
                assert(json_get(r, "items"@) == Some(a));
                let vs = items@.map_values(|x: Attachment| x@);
                assert forall|j: int| 0 <= j < elems.len() implies attachment_json(
                    vs[j],
                    #[trigger] elems[j],
                ) by {
                    assert(vs[j] == items@[j]@);
                }
            }
            r
        },
    }
}

/// A stored attachment object is plain JSON.
proof fn lemma_attachment_json_plain(a: AttachmentView, v: serde_json::Value)
    requires
        attachment_json(a, v),
    ensures
        json_plain(v, 1),
{
    assert forall|k: Seq<char>| (#[trigger] json_get(v, k) matches Some(x) ==> json_plain(x, 0)) by {
        if json_get(v, k) is Some {
            if k == "size_bytes"@ {
                assert(member_u64(v, k) is Some);
            } else {
                assert(member_text(v, k) is Some);
            }
        }
    }
}

/// A stored block payload is plain JSON when the block's tool input is.
proof fn lemma_payload_plain(b: BlockView, p: serde_json::Value)
    requires
        payload_of(b, p),
        tool_input_plain(b),
    ensures
        exists|d: nat| d < 128 && json_plain(p, d),
{
    reveal_strlit("text");
    reveal_strlit("thinking");
    reveal_strlit("signature");
    reveal_strlit("id");
    reveal_strlit("name");
    reveal_strlit("input");
    reveal_strlit("tool_use_id");
    reveal_strlit("content");
    reveal_strlit("is_error");
    reveal_strlit("items");
    match b {
        BlockView::ToolUse { id, name, input } => {
            let d = choose|d: nat| d < 127 && json_plain(input, d);
            assert forall|k: Seq<char>| (#[trigger] json_get(p, k) matches Some(x) ==> json_plain(
                x,
                d,
            )) by {
                if json_get(p, k) is Some {
                    if k == "input"@ {
                    } else {
                        assert(member_text(p, k) is Some);
                    }
                }
            }
            assert(json_plain(p, d + 1));
        },
        BlockView::Attachments { items } => {
            let arr = json_get(p, "items"@)->0;
            let es = json_elements(arr)->0;
            assert forall|i: int| 0 <= i < es.len() implies json_plain(#[trigger] es[i], 1) by {
                lemma_attachment_json_plain(items[i], es[i]);
            }
            assert(json_plain(arr, 2));
            assert forall|k: Seq<char>| (#[trigger] json_get(p, k) matches Some(x) ==> json_plain(
                x,
                2,
            )) by {}
            assert(json_plain(p, 3));
        },
        BlockView::Thinking { thinking, signature } => {
            assert forall|k: Seq<char>| (#[trigger] json_get(p, k) matches Some(x) ==> json_plain(
                x,
                0,
            )) by {
                if json_get(p, k) is Some && k == "thinking"@ {
                    assert(member_text(p, k) is Some);
                }
                if json_get(p, k) is Some && k == "signature"@ && signature is Some {
                    assert(member_text(p, k) is Some);
                }
            }
            assert(json_plain(p, 1));
        },
        BlockView::ToolResult { .. } => {
            assert forall|k: Seq<char>| (#[trigger] json_get(p, k) matches Some(x) ==> json_plain(
                x,
                0,
            )) by {
                if json_get(p, k) is Some && k != "is_error"@ {
                    assert(member_text(p, k) is Some);
                }
            }
            assert(json_plain(p, 1));
        },
        BlockView::Text { .. } => {
            assert forall|k: Seq<char>| (#[trigger] json_get(p, k) matches Some(x) ==> json_plain(
                x,
                0,
            )) by {
                if json_get(p, k) is Some {
                    assert(member_text(p, k) is Some);
                }
            }
            assert(json_plain(p, 1));
        },
    }
}

/// The tag and JSON payload a block is stored as: the payload is the JSON
/// text of the block's object, and parses back to that object when the
/// block's tool input is plain JSON. Encoding always succeeds.
pub fn encode_block(k: &BlockKind) -> (r: Option<(&'static str, Vec<u8>)>)
    ensures
        r is Some,
        r matches Some((tag, _)) ==> tag@ == block_tag_spec(*k),
        r matches Some((_, bytes)) ==> exists|p: serde_json::Value|
            payload_of(k@, p) && json_bytes_of(p) == Some(bytes@),
        r matches Some((_, bytes)) ==> (tool_input_plain(k@) ==> exists|p: serde_json::Value|
            payload_of(k@, p) && json_parse_bytes(bytes@) == Some(p)),
{
    let payload = block_payload(k);
    let bytes = json_to_vec(&payload)?;
    proof {
        if tool_input_plain(k@) {
            lemma_payload_plain(k@, payload);
        }
    }
    Some((block_tag(k), bytes))
}

/// Whether a tag names a block kind.
pub open spec fn known_tag(tag: Seq<char>) -> bool {
    tag == "text"@ || tag == "thinking"@ || tag == "tool_use"@ || tag == "tool_result"@ || tag
        == "attachments"@
}

/// Read a stored block: its payload must be JSON and its tag must name a
/// block kind; the block is what the payload reads as under that tag.
pub fn decode_block(tag: &str, payload: &[u8]) -> (r: Result<BlockKind, DecodeError>)
    ensures
        json_parse_bytes(payload@) is None ==> r matches Err(DecodeError::BadPayload),
        json_parse_bytes(payload@) matches Some(p) ==> {
            &&& r is Ok <==> known_tag(tag@)
            &&& r matches Ok(k) ==> payload_reads_as(tag@, p, k@)
            &&& !known_tag(tag@) ==> (r matches Err(DecodeError::UnknownKind { tag: t }) && t@ == tag@)
        },
{
    let json = match parse_json_bytes(payload) {
        Some(v) => v,
        None => return Err(DecodeError::BadPayload),
    };
    proof {
        reveal_strlit("text");
        reveal_strlit("thinking");
        reveal_strlit("signature");
        reveal_strlit("id");
        reveal_strlit("name");
        reveal_strlit("input");
        reveal_strlit("tool_use_id");
        reveal_strlit("content");
        reveal_strlit("is_error");
        reveal_strlit("items");
        reveal_strlit("tool_use");
        reveal_strlit("tool_result");
        reveal_strlit("attachments");
    }
    let mut items: Vec<Attachment> = Vec::new();
    if str_eq(tag, "attachments") {
        if let Some(m) = json_member(&json, "items") {
            if let Some(arr) = json_as_array(m) {
                let mut i: usize = 0;
                while i < arr.len()
                    invariant
                        i <= arr@.len(),
                        items@.map_values(|a: Attachment| a@) == attachments_of_json(
                            arr@.take(i as int),
                        ),
                    decreases arr@.len() - i,
                {
                    let ghost before = items@;
                    let one = json_to_attachment(&arr[i]);
                    proof {
                        assert(arr@.take(i as int + 1).drop_last() =~= arr@.take(i as int));
                        assert(arr@.take(i as int + 1).last() == arr@[i as int]);
                    }
                    if let Some(a) = one {
                        items.push(a);
                        assert(items@.map_values(|a: Attachment| a@) =~= before.map_values(
                            |a: Attachment| a@,
                        ).push(a@));
                    }
                    i = i + 1;
                }
                assert(arr@.take(arr@.len() as int) =~= arr@);
            }
        }
    }
    let ghost read_items = items@;
    let input = match json_member(&json, "input") {
        Some(v) => v.clone(),
        None => json_null(),
    };
    let is_error = match json_member(&json, "is_error") {
        Some(v) => json_as_bool(v),
        None => None,
    };
    let fields = BlockFields {
        text: member_str(&json, "text"),
        thinking: member_str(&json, "thinking"),
        signature: member_str(&json, "signature"),
        id: member_str(&json, "id"),
        name: member_str(&json, "name"),
        input,
        tool_use_id: member_str(&json, "tool_use_id"),
        content: member_str(&json, "content"),
        is_error,
        items,
    };
    let r = block_from_fields(tag, fields);
    proof {
        if tag@ == "attachments"@ {
            assert(read_items.map_values(|a: Attachment| a@) == payload_items(json));
        }
    }
    r
}

/// A block written by `encode_block` reads back, through `decode_block`,
/// as the same block, when its tool input is plain JSON (the condition
/// under which `encode_block` promises the payload parses back) and its
/// attachment paths are text: the payload parses, and the only block it
/// reads as under the block's tag is that block.
pub proof fn law_stored_block_reads_back(b: BlockView, bytes: Seq<u8>)
    requires
        exists|p: serde_json::Value| payload_of(b, p) && json_parse_bytes(bytes) == Some(p),
        attachment_paths_are_text(b),
    ensures
        json_parse_bytes(bytes) is Some,
        forall|b2: BlockView|
            payload_reads_as(block_view_tag(b), json_parse_bytes(bytes)->0, b2) <==> b2 == b,
{
    let p = choose|p: serde_json::Value| payload_of(b, p) && json_parse_bytes(bytes) == Some(p);
    lemma_payload_reads_back(b, p);
}

/// A payload describing `b` reads as `b`, and as nothing else.
proof fn lemma_payload_reads_back(b: BlockView, p: serde_json::Value)
    requires
        payload_of(b, p),
        attachment_paths_are_text(b),
    ensures
        forall|b2: BlockView| payload_reads_as(block_view_tag(b), p, b2) <==> b2 == b,
{
    reveal_strlit("text");
    reveal_strlit("thinking");
    reveal_strlit("tool_use");
    reveal_strlit("tool_result");
    reveal_strlit("attachments");
    assert("text"@.len() == 4 && "thinking"@.len() == 8 && "tool_use"@.len() == 8);
    assert("thinking"@[1] == 'h' && "tool_use"@[1] == 'o');
    assert("tool_result"@[0] == 't' && "attachments"@[0] == 'a' && "tool_result"@.len() == 11);
    match b {
        BlockView::Attachments { items } => {
            let arr = json_get(p, "items"@)->0;
            let es = json_elements(arr)->0;
            lemma_attachments_read_back(items, es);
        },
        BlockView::Thinking { thinking, signature } => {
            reveal_strlit("signature");
        },
        _ => {},
    }
}

/// Stored attachment objects read back as the attachments they were
/// written for, when their paths are text.
proof fn lemma_attachments_read_back(items: Seq<AttachmentView>, es: Seq<serde_json::Value>)
    requires
        es.len() == items.len(),
        forall|i: int| 0 <= i < es.len() ==> attachment_json(items[i], #[trigger] es[i]),
        forall|i: int|
            0 <= i < items.len() ==> path_of_text(path_lossy(#[trigger] items[i].local_path))
                == items[i].local_path,
    ensures
        attachments_of_json(es) == items,
    decreases es.len(),
{
    if es.len() > 0 {
        let n = es.len() - 1;
        lemma_attachments_read_back(items.drop_last(), es.drop_last());
        let a = items[n];
        let v = es[n];
        assert(attachment_json(a, v));
        assert(path_of_text(path_lossy(a.local_path)) == a.local_path);
        law_attachment_kind_round_trip(a.kind);
        assert(attachment_of_json(v) == Some(a));
        assert(items.drop_last().push(a) =~= items);
    }
}

} // verus!
