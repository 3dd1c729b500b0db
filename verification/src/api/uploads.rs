//! Size limits and provider-capability-aware conversion of uploaded files
//! into content blocks (images ≤ 5 MB, PDFs and other files ≤ 50 MB).

use vstd::prelude::*;
use vstd::string::*;

use crate::api::provider_types::ProviderCapabilities;
use crate::text::{starts_with, starts_with_spec, str_eq};
use crate::types::{ContentBlock, DocumentSource, ImageSource};

verus! {

/// `std::io::Error`, carried by `UploadError::Io`.
#[verifier::external_type_specification]
#[verifier::external_body]
pub struct ExIoError(std::io::Error);

/// `reqwest::Error`, carried by `UploadError::Http`.
#[verifier::external_type_specification]
#[verifier::external_body]
pub struct ExReqwestError(reqwest::Error);

/// Metadata returned by a successful upload.
#[derive(Debug, Clone)]
pub struct UploadedFile {
    pub file_id: String,
    pub filename: String,
    pub bytes: u64,
    pub mime: String,
}

/// Category of file, used for size-limit enforcement.
#[derive(Debug, Clone, Copy, PartialEq, Eq, Structural)]
pub enum FileKind {
    Image,
    Document,
    Other,
}

/// Why an upload failed.
#[derive(Debug)]
pub enum UploadError {
    Io(std::io::Error),
    Http(reqwest::Error),
    Api(String),
    TooLarge { bytes: u64, limit: u64, kind: FileKind },
}

/// Image size limit: 5 MB.
pub const IMAGE_LIMIT: u64 = 5242880;

/// Document (and any other file) size limit: 50 MB.
pub const DOCUMENT_LIMIT: u64 = 52428800;

/// What std's `Path::extension` gives a path, as UTF-8 text: the part of
/// the file name after its last `.`, when there is one and it is valid
/// UTF-8.
pub uninterp spec fn path_extension(path: &std::path::Path) -> Option<Seq<char>>;

/// `std::path::Path::extension` of `path`, as UTF-8 text.
#[verifier::external_body]
fn std_path_extension(path: &std::path::Path) -> (r: Option<String>)
    ensures
        r matches Some(e) ==> path_extension(path) == Some(e@),
        r is None ==> path_extension(path) is None,
{
    path.extension().and_then(|e| e.to_str()).map(|e| e.to_string())
}

/// The MIME type this crate gives a file extension.
pub open spec fn mime_for_extension_spec(ext: Option<Seq<char>>) -> Seq<char> {
    match ext {
        Some(e) => if e == "pdf"@ {
            "application/pdf"@
        } else if e == "txt"@ || e == "md"@ {
            "text/plain"@
        } else if e == "json"@ {
            "application/json"@
        } else if e == "csv"@ {
            "text/csv"@
        } else if e == "jpg"@ || e == "jpeg"@ {
            "image/jpeg"@
        } else if e == "png"@ {
            "image/png"@
        } else if e == "gif"@ {
            "image/gif"@
        } else if e == "webp"@ {
            "image/webp"@
        } else {
            "application/octet-stream"@
        },
        None => "application/octet-stream"@,
    }
}

/// Extension → MIME type (lower-case extensions only, as matched).
pub fn mime_for_extension(ext: Option<&str>) -> (r: &'static str)
    ensures
        r@ == mime_for_extension_spec(
            match ext {
                Some(e) => Some(e@),
                None => None,
            },
        ),
{
    match ext {
        Some(e) => if str_eq(e, "pdf") {
            "application/pdf"
        } else if str_eq(e, "txt") || str_eq(e, "md") {
            "text/plain"
        } else if str_eq(e, "json") {
            "application/json"
        } else if str_eq(e, "csv") {
            "text/csv"
        } else if str_eq(e, "jpg") || str_eq(e, "jpeg") {
            "image/jpeg"
        } else if str_eq(e, "png") {
            "image/png"
        } else if str_eq(e, "gif") {
            "image/gif"
        } else if str_eq(e, "webp") {
            "image/webp"
        } else {
            "application/octet-stream"
        },
        None => "application/octet-stream",
    }
}

/// MIME type of a file path, from its extension.
pub fn get_mime_type(path: &std::path::Path) -> (r: &'static str)
    ensures
        r@ == mime_for_extension_spec(path_extension(path)),
{
    let ext = std_path_extension(path);
    match ext {
        Some(e) => mime_for_extension(Some(e.as_str())),
        None => mime_for_extension(None),
    }
}

/// The kind a MIME type falls under for size limits.
pub open spec fn classify_spec(mime: Seq<char>) -> FileKind {
    if starts_with_spec(mime, "image/"@) {
        FileKind::Image
    } else if mime == "application/pdf"@ {
        FileKind::Document
    } else {
        FileKind::Other
    }
}

/// Classify a file by MIME type for size-limit checks.
pub fn classify(mime: &str) -> (r: FileKind)
    ensures
        r == classify_spec(mime@),
{
    if starts_with(mime, "image/") {
        FileKind::Image
    } else if str_eq(mime, "application/pdf") {
        FileKind::Document
    } else {
        FileKind::Other
    }
}

/// The size limit of a file kind.
pub open spec fn limit_of(kind: FileKind) -> u64 {
    match kind {
        FileKind::Image => IMAGE_LIMIT,
        FileKind::Document | FileKind::Other => DOCUMENT_LIMIT,
    }
}

/// Enforce size limits: `TooLarge` exactly when `bytes` exceeds the limit of
/// the file's kind.
pub fn check_size(bytes: u64, mime: &str) -> (r: Result<(), UploadError>)
    ensures
        bytes <= limit_of(classify_spec(mime@)) <==> r is Ok,
        r matches Err(e) ==> e == (UploadError::TooLarge {
            bytes,
            limit: limit_of(classify_spec(mime@)),
            kind: classify_spec(mime@),
        }),
{
    let kind = classify(mime);
    let limit = match kind {
        FileKind::Image => IMAGE_LIMIT,
        FileKind::Document | FileKind::Other => DOCUMENT_LIMIT,
    };
    if bytes > limit {
        Err(UploadError::TooLarge { bytes, limit, kind })
    } else {
        Ok(())
    }
}

/// The block an uploaded file becomes for a provider with capabilities
/// `caps`, described by its variant and text.
pub open spec fn content_block_matches(
    b: ContentBlock,
    file_id: Seq<char>,
    filename: Seq<char>,
    mime: Seq<char>,
    caps: ProviderCapabilities,
) -> bool {
    match classify_spec(mime) {
        FileKind::Image => if caps.image_input {
            &&& b matches ContentBlock::Image { source }
            &&& source_is_file_image(b->Image_source, file_id)
        } else {
            b matches ContentBlock::Text { text } && text@ == "[Image not supported: "@
                + filename + "]"@
        },
        FileKind::Document => if caps.pdf_input {
            &&& b matches ContentBlock::Document { source, title, context, citations }
            &&& source_is_file_document(b->Document_source, file_id)
            &&& b->title is None
            &&& b->context is None
            &&& b->citations is None
        } else {
            b matches ContentBlock::Text { text } && text@ == "[PDF not supported: "@ + filename
                + "]"@
        },
        FileKind::Other => b matches ContentBlock::Text { text } && text@ == "[附件: "@
            + filename + "]"@,
    }
}

/// An image source that refers to uploaded file `file_id`.
pub open spec fn source_is_file_image(source: ImageSource, file_id: Seq<char>) -> bool {
    &&& source.source_type@ == "file"@
    &&& source.file_id is Some
    &&& source.file_id->0@ == file_id
    &&& source.media_type is None
    &&& source.data is None
    &&& source.url is None
}

/// A document source that refers to uploaded file `file_id`.
pub open spec fn source_is_file_document(source: DocumentSource, file_id: Seq<char>) -> bool {
    &&& source.source_type@ == "file"@
    &&& source.file_id is Some
    &&& source.file_id->0@ == file_id
    &&& source.media_type is None
    &&& source.data is None
    &&& source.url is None
}

fn bracketed(prefix: &str, name: &str) -> (r: String)
    ensures
        r@ == prefix@ + name@ + "]"@,
{
    let mut s = String::from_str(prefix);
    s.append(name);
    s.append("]");
    s
}

/// Convert an uploaded file into a content block the provider can take: an
/// image or document reference when supported, otherwise a text placeholder
/// naming the file.
pub fn to_content_block(up: &UploadedFile, caps: &ProviderCapabilities) -> (r: ContentBlock)
    ensures
        content_block_matches(r, up.file_id@, up.filename@, up.mime@, *caps),
{
    let kind = classify(up.mime.as_str());
    match kind {
        FileKind::Image => if caps.image_input {
            ContentBlock::Image { source: ImageSource::file(up.file_id.as_str()) }
        } else {
            ContentBlock::Text {
                text: bracketed("[Image not supported: ", up.filename.as_str()),
            }
        },
        FileKind::Document => if caps.pdf_input {
            ContentBlock::Document {
                source: DocumentSource::file(up.file_id.as_str()),
                title: None,
                context: None,
                citations: None,
            }
        } else {
            ContentBlock::Text { text: bracketed("[PDF not supported: ", up.filename.as_str()) }
        },
        FileKind::Other => ContentBlock::Text { text: bracketed("[附件: ", up.filename.as_str()) },
    }
}

/// The boundary of the multipart upload body.
pub const UPLOAD_BOUNDARY: &'static str = "----AnthropicFileBoundary";

/// The header part of the multipart upload body of a file.
pub open spec fn multipart_head(file_name: Seq<char>, mime: Seq<char>) -> Seq<char> {
    "--"@ + UPLOAD_BOUNDARY@ + "\r\n"@ + "Content-Disposition: form-data; name=\"file\"; filename=\""@
        + file_name + "\"\r\n"@ + "Content-Type: "@ + mime + "\r\n\r\n"@
}

/// The closing part of the multipart upload body.
pub open spec fn multipart_tail() -> Seq<char> {
    "\r\n"@ + "--"@ + UPLOAD_BOUNDARY@ + "--\r\n"@
}

/// The multipart/form-data body that uploads `data` as field `file`.
pub open spec fn multipart_spec(file_name: Seq<char>, mime: Seq<char>, data: Seq<u8>) -> Seq<u8> {
    vstd::utf8::encode_utf8(multipart_head(file_name, mime)) + data + vstd::utf8::encode_utf8(
        multipart_tail(),
    )
}

/// Append `more` to `out`.
fn append_bytes(out: &mut Vec<u8>, more: &[u8])
    ensures
        final(out)@ == old(out)@ + more@,
{
    let mut i: usize = 0;
    while i < more.len()
        invariant
            i <= more@.len(),
            out@ == old(out)@ + more@.take(i as int),
        decreases more@.len() - i,
    {
        out.push(more[i]);
        i = i + 1;
        assert(out@ =~= old(out)@ + more@.take(i as int));
    }
    assert(more@.take(more@.len() as int) =~= more@);
}

/// The multipart/form-data body that uploads a file's bytes.
pub fn multipart_body(file_name: &str, mime: &str, data: &[u8]) -> (r: Vec<u8>)
    ensures
        r@ == multipart_spec(file_name@, mime@, data@),
{
    let mut head = String::from_str("--");
    head.append(UPLOAD_BOUNDARY);
    head.append("\r\n");
    head.append("Content-Disposition: form-data; name=\"file\"; filename=\"");
    head.append(file_name);
    head.append("\"\r\n");
    head.append("Content-Type: ");
    head.append(mime);
    head.append("\r\n\r\n");
    let mut tail = String::from_str("\r\n");
    tail.append("--");
    tail.append(UPLOAD_BOUNDARY);
    tail.append("--\r\n");
    let mut body: Vec<u8> = Vec::new();
    append_bytes(&mut body, head.as_str().as_bytes());
    append_bytes(&mut body, data);
    append_bytes(&mut body, tail.as_str().as_bytes());
    proof {
        assert(head@ =~= multipart_head(file_name@, mime@));
        assert(tail@ =~= multipart_tail());
    }
    body
}

/// The Files API endpoint.
pub fn files_url() -> (r: String)
    ensures
        r@ == ANTHROPIC_BASE@ + "/v1/files"@,
{
    let mut s = String::from_str(ANTHROPIC_BASE);
    s.append("/v1/files");
    s
}

/// The Anthropic API endpoint the Files API lives under.
pub const ANTHROPIC_BASE: &'static str = "https://api.anthropic.com";

/// Whether an upload response reports an error (it mentions an `"error"`
/// member).
pub fn response_reports_error(response_text: &str) -> (r: bool)
    ensures
        r == crate::text::contains_spec(response_text@, "\"error\""@),
{
    crate::text::contains(response_text, "\"error\"")
}

/// The name a file is uploaded under: its file name, `file` when it has
/// none.
pub fn upload_file_name(file_name: Option<&str>) -> (r: String)
    ensures
        r@ == match file_name {
            Some(n) => n@,
            None => "file"@,
        },
{
    match file_name {
        Some(n) => String::from_str(n),
        None => String::from_str("file"),
    }
}

/// `Display` of `std::io::Error` (`to_string`). Nothing is stated of the
/// text: for an error from the operating system it is the system's message
/// for the error code, which depends on the machine.
#[verifier::external_body]
fn io_error_text(e: &std::io::Error) -> (r: String) {
    e.to_string()
}

/// What `reqwest::Error`'s `Display` writes for an error: its kind, then
/// the URL it concerns, if any.
pub uninterp spec fn http_error_display(e: reqwest::Error) -> Seq<char>;

/// `Display` of `reqwest::Error` (`to_string`).
#[verifier::external_body]
fn http_error_text(e: &reqwest::Error) -> (r: String)
    ensures
        r@ == http_error_display(*e),
{
    e.to_string()
}

/// The name of a file kind.
pub open spec fn kind_name(kind: FileKind) -> Seq<char> {
    match kind {
        FileKind::Image => "Image"@,
        FileKind::Document => "Document"@,
        FileKind::Other => "Other"@,
    }
}

impl UploadError {
    /// The error message (the underlying I/O or HTTP error's own text
    /// after its prefix). Of an I/O error's own text nothing is stated (see
    /// `io_error_text`).
    pub fn message(&self) -> (r: String)
        ensures
            self is Io ==> crate::text::starts_with_spec(r@, "IO error: "@),
            self matches UploadError::Http(e) ==> r@ == "HTTP error: "@ + http_error_display(*e),
            self matches UploadError::Api(m) ==> r@ == "API error: "@ + m@,
            self matches UploadError::TooLarge { bytes, limit, kind } ==> r@ == "File too large: "@
                + crate::text::decimal(*bytes as nat) + " bytes exceeds "@ + crate::text::decimal(
                *limit as nat,
            ) + " byte limit for "@ + kind_name(*kind),
    {
        match self {
            UploadError::Io(e) => {
                let mut s = String::from_str("IO error: ");
                s.append(io_error_text(e).as_str());
                proof {
                    reveal_strlit("IO error: ");
                }
                assert(s@.subrange(0, "IO error: "@.len() as int) =~= "IO error: "@);
                s
            },
            UploadError::Http(e) => {
                let mut s = String::from_str("HTTP error: ");
                s.append(http_error_text(e).as_str());
                proof {
                    reveal_strlit("HTTP error: ");
                }
                assert(s@.subrange(0, "HTTP error: "@.len() as int) =~= "HTTP error: "@);
                s
            },
            UploadError::Api(m) => {
                let mut s = String::from_str("API error: ");
                s.append(m.as_str());
                s
            },
            UploadError::TooLarge { bytes, limit, kind } => {
                let mut s = String::from_str("File too large: ");
                crate::text::push_decimal(&mut s, *bytes);
                s.append(" bytes exceeds ");
                crate::text::push_decimal(&mut s, *limit);
                s.append(" byte limit for ");
                s.append(
                    match kind {
                        FileKind::Image => "Image",
                        FileKind::Document => "Document",
                        FileKind::Other => "Other",
                    },
                );
                s
            },
        }
    }
}

} // verus!
