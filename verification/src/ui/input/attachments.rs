//! Which files can be attached, and how large they may be.

use vstd::prelude::*;
use vstd::string::*;

use crate::text::{ascii_lower_spec, eq_ascii_lower};
use crate::ui::model::{Attachment, AttachmentKind};

verus! {

/// Largest image attachment: 5 MB.
pub const MAX_IMAGE_BYTES: u64 = 5242880;

/// Largest text or PDF attachment: 50 MB.
pub const MAX_DOC_BYTES: u64 = 52428800;

/// The MIME type `mime_guess` gives a path: the first guess for its
/// extension, or `application/octet-stream` when there is none.
pub uninterp spec fn guessed_mime(path: Seq<char>) -> Seq<char>;

/// `mime_guess::from_path(path).first_or_octet_stream()`, rendered as text.
#[verifier::external_body]
pub(crate) fn guess_mime(path: &str) -> (r: String)
    ensures
        r@ == guessed_mime(path@),
{
    mime_guess::from_path(path).first_or_octet_stream().to_string()
}

/// The top-level type of a MIME string: everything before the first `/`
/// (the whole string when there is none).
pub open spec fn mime_top_level(mime: Seq<char>) -> Seq<char> {
    if exists|i: int| 0 <= i < mime.len() && mime[i] == '/' {
        mime.subrange(0, choose|i: int| 0 <= i < mime.len() && mime[i] == '/' && forall|j: int|
            0 <= j < i ==> mime[j] != '/')
    } else {
        mime
    }
}

/// The attachment kind a MIME type gives (names compared without regard to
/// ASCII case, as MIME names are).
pub open spec fn classify_mime_spec(mime: Seq<char>) -> Option<AttachmentKind> {
    if ascii_lower_spec(mime_top_level(mime)) == "image"@ {
        Some(AttachmentKind::Image)
    } else if ascii_lower_spec(mime) == "application/pdf"@ {
        Some(AttachmentKind::Pdf)
    } else if ascii_lower_spec(mime_top_level(mime)) == "text"@ {
        Some(AttachmentKind::Text)
    } else {
        None
    }
}

fn top_level_of(mime: &str) -> (r: &str)
    ensures
        r@ == mime_top_level(mime@),
{
    let n = mime.unicode_len();
    let mut i: usize = 0;
    while i < n
        invariant
            n == mime@.len(),
            i <= n,
            forall|j: int| 0 <= j < i ==> mime@[j] != '/',
        decreases n - i,
    {
        if mime.get_char(i) == '/' {
            proof {
                let k = choose|k: int|
                    0 <= k < mime@.len() && mime@[k] == '/' && forall|j: int|
                        0 <= j < k ==> mime@[j] != '/';
                assert(k == i as int) by {
                    if k < i as int {
                        assert(mime@[k] != '/');
                    }
                    if k > i as int {
                        assert(mime@[i as int] != '/');
                    }
                }
            }
            return mime.substring_char(0, i);
        }
        i = i + 1;
    }
    assert(mime@.subrange(0, n as int) =~= mime@);
    mime.substring_char(0, n)
}

/// Classify a MIME type as an attachment kind: images, PDFs and text; any
/// other type cannot be attached.
pub fn classify_mime(mime: &str) -> (r: Option<AttachmentKind>)
    ensures
        r == classify_mime_spec(mime@),
{
    let top = top_level_of(mime);
    if eq_ascii_lower(top, "image") {
        Some(AttachmentKind::Image)
    } else if eq_ascii_lower(mime, "application/pdf") {
        Some(AttachmentKind::Pdf)
    } else if eq_ascii_lower(top, "text") {
        Some(AttachmentKind::Text)
    } else {
        None
    }
}

/// Classify a file by the MIME type guessed from its extension.
pub fn classify(path: &str) -> (r: Option<AttachmentKind>)
    ensures
        r == classify_mime_spec(guessed_mime(path@)),
{
    let mime = guess_mime(path);
    classify_mime(mime.as_str())
}

/// The size limit for an attachment kind.
pub open spec fn limit_for_spec(kind: AttachmentKind) -> u64 {
    match kind {
        AttachmentKind::Image => MAX_IMAGE_BYTES,
        _ => MAX_DOC_BYTES,
    }
}

/// The size limit for an attachment kind: 5 MB for images, 50 MB otherwise.
pub fn limit_for(kind: AttachmentKind) -> (r: u64)
    ensures
        r == limit_for_spec(kind),
{
    match kind {
        AttachmentKind::Image => MAX_IMAGE_BYTES,
        _ => MAX_DOC_BYTES,
    }
}

/// Whether a file of `size_bytes` may be attached as `kind`.
pub fn fits_limit(kind: AttachmentKind, size_bytes: u64) -> (r: bool)
    ensures
        r == (size_bytes <= limit_for_spec(kind)),
{
    size_bytes <= limit_for(kind)
}

/// The name an attachment's copy is stored under: its id and the source's
/// extension (`bin` when it has none).
pub fn stored_file_name(id: &str, ext: Option<&str>) -> (r: String)
    ensures
        r@ == id@ + "."@ + match ext {
            Some(e) => e@,
            None => "bin"@,
        },
{
    let mut s = String::from_str(id);
    s.append(".");
    match ext {
        Some(e) => s.append(e),
        None => s.append("bin"),
    }
    s
}

/// The name an attachment is shown under: the source's file name, `file`
/// when it has none.
pub fn display_name_of(file_name: Option<&str>) -> (r: String)
    ensures
        r@ == match file_name {
            Some(n) => n@,
            None => "file"@,
        },
{
    match file_name {
        Some(n) => String::from_str(n),
        None => String::from_str("file"),
    }
}

/// Whether a file of `size_bytes` may be attached as `kind`, and the error
/// reported for `path` when it may not.
pub fn check_attachment_size(kind: AttachmentKind, path: &str, size_bytes: u64) -> (r: Result<(), String>)
    ensures
        r is Ok <==> size_bytes <= limit_for_spec(kind),
        r matches Err(m) ==> m@ == "file too large: "@ + path@ + " ("@ + crate::text::decimal(
            size_bytes as nat,
        ) + " bytes)"@,
{
    if fits_limit(kind, size_bytes) {
        Ok(())
    } else {
        let mut m = String::from_str("file too large: ");
        m.append(path);
        m.append(" (");
        crate::text::push_decimal(&mut m, size_bytes);
        m.append(" bytes)");
        Err(m)
    }
}

/// The attachment a file of kind `kind` becomes once copied to
/// `local_path` under `id`: shown under its file name (`file` when it has
/// none), typed with the MIME type guessed from its path, of `size_bytes`;
/// an error when it is over the kind's size limit.
pub fn plan_attachment(
    kind: AttachmentKind,
    path: &str,
    id: String,
    file_name: Option<&str>,
    size_bytes: u64,
    local_path: std::path::PathBuf,
) -> (r: Result<Attachment, String>)
    ensures
        r is Ok <==> size_bytes <= limit_for_spec(kind),
        r matches Err(m) ==> m@ == "file too large: "@ + path@ + " ("@ + crate::text::decimal(
            size_bytes as nat,
        ) + " bytes)"@,
        r matches Ok(a) ==> {
            &&& a.id == id
            &&& a.kind == kind
            &&& a.display_name@ == match file_name {
                Some(n) => n@,
                None => "file"@,
            }
            &&& a.mime@ == guessed_mime(path@)
            &&& a.local_path == local_path
            &&& a.size_bytes == size_bytes
        },
{
    check_attachment_size(kind, path, size_bytes)?;
    Ok(
        Attachment {
            id,
            kind,
            display_name: display_name_of(file_name),
            mime: guess_mime(path),
            local_path,
            size_bytes,
        },
    )
}

} // verus!
