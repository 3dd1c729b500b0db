//! Message, content-block and usage types exchanged with LLM providers.

use vstd::prelude::*;
use vstd::string::*;

verus! {

/// `serde_json::Value` is carried through content blocks (tool inputs,
/// schemas) without being inspected.
#[verifier::external_type_specification]
#[verifier::external_body]
pub struct ExJsonValue(serde_json::Value);

/// `serde_json::Value`'s `Clone` is derived in serde_json, so a clone is
/// structurally the same value; this states exactly that.
pub assume_specification[ <serde_json::Value as Clone>::clone ](v: &serde_json::Value) -> (r:
    serde_json::Value)
    ensures
        r == *v,
;

/// Token usage reported by a provider for one response.
#[derive(Debug, Clone, Copy, PartialEq, Eq, Structural)]
pub struct UsageInfo {
    pub input_tokens: u64,
    pub output_tokens: u64,
    pub cache_creation_input_tokens: u64,
    pub cache_read_input_tokens: u64,
}

impl UsageInfo {
    /// Usage with every counter at zero.
    pub open spec fn zero() -> UsageInfo {
        UsageInfo {
            input_tokens: 0,
            output_tokens: 0,
            cache_creation_input_tokens: 0,
            cache_read_input_tokens: 0,
        }
    }
}

impl Default for UsageInfo {
    fn default() -> (r: UsageInfo)
        ensures
            r == UsageInfo::zero(),
    {
        UsageInfo {
            input_tokens: 0,
            output_tokens: 0,
            cache_creation_input_tokens: 0,
            cache_read_input_tokens: 0,
        }
    }
}

/// Source of an image block: inline base64 data, a URL, or an uploaded file.
#[derive(Debug, Clone)]
pub struct ImageSource {
    pub source_type: String,
    pub media_type: Option<String>,
    pub data: Option<String>,
    pub url: Option<String>,
    pub file_id: Option<String>,
}

impl ImageSource {
    /// An image that refers to a file uploaded through the Files API.
    pub fn file(file_id: &str) -> (r: ImageSource)
        ensures
            r.source_type@ == "file"@,
            r.media_type is None,
            r.data is None,
            r.url is None,
            r.file_id matches Some(f) && f@ == file_id@,
    {
        ImageSource {
            source_type: String::from_str("file"),
            media_type: None,
            data: None,
            url: None,
            file_id: Some(String::from_str(file_id)),
        }
    }
}

/// Source of a document block.
#[derive(Debug, Clone)]
pub struct DocumentSource {
    pub source_type: String,
    pub media_type: Option<String>,
    pub data: Option<String>,
    pub url: Option<String>,
    pub file_id: Option<String>,
}

impl DocumentSource {
    /// A document that refers to a file uploaded through the Files API.
    pub fn file(file_id: &str) -> (r: DocumentSource)
        ensures
            r.source_type@ == "file"@,
            r.media_type is None,
            r.data is None,
            r.url is None,
            r.file_id matches Some(f) && f@ == file_id@,
    {
        DocumentSource {
            source_type: String::from_str("file"),
            media_type: None,
            data: None,
            url: None,
            file_id: Some(String::from_str(file_id)),
        }
    }
}

/// Citation settings of a document block.
#[derive(Debug, Clone, Copy, PartialEq, Eq, Structural)]
pub struct CitationsConfig {
    pub enabled: bool,
}

/// A block inside a structured tool result.
#[derive(Debug, Clone)]
pub enum ToolResultBlock {
    Text { text: String },
    Image { source: ImageSource },
}

/// Content of a tool result: plain text or a list of blocks.
#[derive(Debug, Clone)]
pub enum ToolResultContent {
    Text(String),
    Blocks(Vec<ToolResultBlock>),
}

/// One block of message content.
#[derive(Debug, Clone)]
pub enum ContentBlock {
    Text { text: String },
    Image { source: ImageSource },
    Document {
        source: DocumentSource,
        title: Option<String>,
        context: Option<String>,
        citations: Option<CitationsConfig>,
    },
    ToolUse { id: String, name: String, input: serde_json::Value },
    ToolResult { tool_use_id: String, content: ToolResultContent, is_error: Option<bool> },
    Thinking { thinking: String, signature: String },
}

/// Who authored a message.
#[derive(Debug, Clone, Copy, PartialEq, Eq, Structural)]
pub enum Role {
    User,
    Assistant,
}

/// Content of a message: a plain string or a list of blocks.
#[derive(Debug, Clone)]
pub enum MessageContent {
    Text(String),
    Blocks(Vec<ContentBlock>),
}

/// A conversation message in provider-neutral form.
#[derive(Debug, Clone)]
pub struct Message {
    pub role: Role,
    pub content: MessageContent,
    pub uuid: Option<String>,
}

impl Message {
    /// An assistant message holding `blocks`.
    pub open spec fn assistant_spec(blocks: Vec<ContentBlock>) -> Message {
        Message { role: Role::Assistant, content: MessageContent::Blocks(blocks), uuid: None }
    }

    /// A user message made of the given blocks.
    pub fn user_blocks(blocks: Vec<ContentBlock>) -> (r: Message)
        ensures
            r.role == Role::User,
            r.content == MessageContent::Blocks(blocks),
            r.uuid is None,
    {
        Message { role: Role::User, content: MessageContent::Blocks(blocks), uuid: None }
    }

    /// An assistant message made of the given blocks.
    pub fn assistant_blocks(blocks: Vec<ContentBlock>) -> (r: Message)
        ensures
            r.role == Role::Assistant,
            r.content == MessageContent::Blocks(blocks),
            r.uuid is None,
    {
        Message { role: Role::Assistant, content: MessageContent::Blocks(blocks), uuid: None }
    }

    /// A user message holding plain text.
    pub fn user(text: &str) -> (r: Message)
        ensures
            r.role == Role::User,
            r.content matches MessageContent::Text(t) && t@ == text@,
            r.uuid is None,
    {
        Message { role: Role::User, content: MessageContent::Text(String::from_str(text)), uuid: None }
    }
}

/// A copy of an optional string.
pub fn copy_opt_string(s: &Option<String>) -> (r: Option<String>)
    ensures
        r == *s,
{
    match s {
        Some(t) => Some(t.clone()),
        None => None,
    }
}

impl ImageSource {
    /// A field-by-field copy.
    pub fn duplicate(&self) -> (r: ImageSource)
        ensures
            r == *self,
    {
        ImageSource {
            source_type: self.source_type.clone(),
            media_type: copy_opt_string(&self.media_type),
            data: copy_opt_string(&self.data),
            url: copy_opt_string(&self.url),
            file_id: copy_opt_string(&self.file_id),
        }
    }
}

impl DocumentSource {
    /// A field-by-field copy.
    pub fn duplicate(&self) -> (r: DocumentSource)
        ensures
            r == *self,
    {
        DocumentSource {
            source_type: self.source_type.clone(),
            media_type: copy_opt_string(&self.media_type),
            data: copy_opt_string(&self.data),
            url: copy_opt_string(&self.url),
            file_id: copy_opt_string(&self.file_id),
        }
    }
}

impl ToolResultBlock {
    /// A field-by-field copy.
    pub fn duplicate(&self) -> (r: ToolResultBlock)
        ensures
            r == *self,
    {
        match self {
            ToolResultBlock::Text { text } => ToolResultBlock::Text { text: text.clone() },
            ToolResultBlock::Image { source } => ToolResultBlock::Image { source: source.duplicate() },
        }
    }
}

/// Two tool-result contents hold the same text, or the same blocks in the
/// same order.
pub open spec fn same_result_content(a: ToolResultContent, b: ToolResultContent) -> bool {
    match a {
        ToolResultContent::Text(x) => b == ToolResultContent::Text(x),
        ToolResultContent::Blocks(x) => b matches ToolResultContent::Blocks(y) && y@ == x@,
    }
}

/// Two content blocks carry the same content (a tool result's block list
/// compared by its elements).
pub open spec fn same_block(a: ContentBlock, b: ContentBlock) -> bool {
    match a {
        ContentBlock::ToolResult { tool_use_id, content, is_error } => {
            &&& b is ToolResult
            &&& b->ToolResult_tool_use_id == tool_use_id
            &&& b->ToolResult_is_error == is_error
            &&& same_result_content(content, b->ToolResult_content)
        },
        _ => b == a,
    }
}

/// Two block lists carry the same content, block by block.
pub open spec fn same_blocks(a: Seq<ContentBlock>, b: Seq<ContentBlock>) -> bool {
    &&& a.len() == b.len()
    &&& forall|i: int| 0 <= i < a.len() ==> same_block(#[trigger] a[i], b[i])
}

impl ToolResultContent {
    /// A field-by-field copy.
    pub fn duplicate(&self) -> (r: ToolResultContent)
        ensures
            same_result_content(*self, r),
    {
        match self {
            ToolResultContent::Text(t) => ToolResultContent::Text(t.clone()),
            ToolResultContent::Blocks(blocks) => {
                let mut out: Vec<ToolResultBlock> = Vec::new();
                let mut i: usize = 0;
                while i < blocks.len()
                    invariant
                        i <= blocks@.len(),
                        out@ == blocks@.take(i as int),
                    decreases blocks@.len() - i,
                {
                    out.push(blocks[i].duplicate());
                    i = i + 1;
                    assert(out@ =~= blocks@.take(i as int));
                }
                assert(blocks@.take(blocks@.len() as int) =~= blocks@);
                ToolResultContent::Blocks(out)
            },
        }
    }
}

impl ContentBlock {
    /// A field-by-field copy.
    pub fn duplicate(&self) -> (r: ContentBlock)
        ensures
            same_block(*self, r),
    {
        match self {
            ContentBlock::Text { text } => ContentBlock::Text { text: text.clone() },
            ContentBlock::Image { source } => ContentBlock::Image { source: source.duplicate() },
            ContentBlock::Document { source, title, context, citations } => ContentBlock::Document {
                source: source.duplicate(),
                title: copy_opt_string(title),
                context: copy_opt_string(context),
                citations: *citations,
            },
            ContentBlock::ToolUse { id, name, input } => ContentBlock::ToolUse {
                id: id.clone(),
                name: name.clone(),
                input: input.clone(),
            },
            ContentBlock::ToolResult { tool_use_id, content, is_error } => ContentBlock::ToolResult {
                tool_use_id: tool_use_id.clone(),
                content: content.duplicate(),
                is_error: *is_error,
            },
            ContentBlock::Thinking { thinking, signature } => ContentBlock::Thinking {
                thinking: thinking.clone(),
                signature: signature.clone(),
            },
        }
    }
}

/// A copy of a list of blocks, in order.
pub fn duplicate_blocks(blocks: &Vec<ContentBlock>) -> (r: Vec<ContentBlock>)
    ensures
        same_blocks(blocks@, r@),
{
    let mut out: Vec<ContentBlock> = Vec::new();
    let mut i: usize = 0;
    while i < blocks.len()
        invariant
            i <= blocks@.len(),
            out@.len() == i,
            forall|j: int| 0 <= j < i ==> same_block(#[trigger] blocks@[j], out@[j]),
        decreases blocks@.len() - i,
    {
        out.push(blocks[i].duplicate());
        i = i + 1;
    }
    out
}

/// A tool offered to the model: name, description and JSON input schema.
#[derive(Debug, Clone)]
pub struct ToolDefinition {
    pub name: String,
    pub description: String,
    pub input_schema: serde_json::Value,
}

} // verus!
