//! How a new piece of content is stored: its text, its size, where it is
//! kept, its preview and its digest. The application reads the source file
//! and writes the database rows and files that the plan calls for.

use vstd::prelude::*;

use crate::domain::{contenttype_name, ContentType, ContentWriteInput};
use crate::error::{fails_validation, AppError};
use crate::services::channel_service::opt_view;
use crate::services::content_store::{
    chunk_count_spec, hex_digest, sha256_of, storage_kind_spec, ContentStorageKind, ContentStore, ImportedFile,
};
use crate::services::message_service::utf8_len;
use crate::services::transforms::{is_textual, is_textual_content_type};
use crate::text::hex_seq;

verus! {

/// Largest number of characters of a preview.
pub const PREVIEW_CHARS: usize = 1024;

/// The preview of a text: its first `PREVIEW_CHARS` characters.
pub open spec fn preview_of(text: Seq<char>) -> Seq<char> {
    if text.len() <= PREVIEW_CHARS {
        text
    } else {
        text.subrange(0, PREVIEW_CHARS as int)
    }
}

/// The preview of a text.
pub fn derive_preview_text(text: &str) -> (r: String)
    ensures
        r@ == preview_of(text@),
{
    let n = text.unicode_len();
    let end = if n <= PREVIEW_CHARS {
        n
    } else {
        PREVIEW_CHARS
    };
    proof {
        if n <= PREVIEW_CHARS {
            assert(text@.subrange(0, n as int) =~= text@);
        }
    }
    String::from_str(text.substring_char(0, end))
}

/// Whether content of this type is kept as a blob file: images, audio,
/// video, files and other binary content.
pub open spec fn prefers_file_ref_type(t: ContentType) -> bool {
    t == ContentType::Image || t == ContentType::Audio || t == ContentType::Video || t
        == ContentType::File || t == ContentType::Binary
}

/// Whether the content to write is kept as a blob file.
pub fn prefers_file_ref(input: &ContentWriteInput) -> (r: bool)
    ensures
        r == prefers_file_ref_type(input.content_type),
{
    match input.content_type {
        ContentType::Image | ContentType::Audio | ContentType::Video | ContentType::File
        | ContentType::Binary => true,
        _ => false,
    }
}

/// The lower-case hexadecimal SHA-256 digest of the UTF-8 bytes of a text.
pub open spec fn text_digest(text: Seq<char>) -> Seq<char> {
    hex_seq(sha256_of(vstd::utf8::encode_utf8(text)))
}

/// The text a new piece of content holds: the text given, else the text of
/// the source file for content that is not kept as a blob file.
pub open spec fn planned_text(input: ContentWriteInput, file_text: Option<Seq<char>>) -> Option<Seq<char>> {
    match input.text_content {
        Some(t) => Some(t@),
        None => if input.source_file_path is Some && !prefers_file_ref_type(input.content_type) {
            file_text
        } else {
            None
        },
    }
}

/// The size of a new piece of content: the bytes of its text, else the size
/// of its source file, else the size given in advance, else zero.
pub open spec fn planned_size(input: ContentWriteInput, text: Option<Seq<char>>, file_size: Option<u64>) -> int {
    match text {
        Some(t) => utf8_len(t) as int,
        None => if input.source_file_path is Some {
            match file_size {
                Some(s) => s as int,
                None => 0,
            }
        } else {
            match input.size_bytes_hint {
                Some(s) => s as int,
                None => 0,
            }
        },
    }
}

/// How the content is to be stored.
#[derive(Debug, Clone, PartialEq, Eq)]
pub struct ContentPlan {
    /// The text it holds, if any.
    pub text_content: Option<String>,
    /// Its size in bytes.
    pub size_bytes: u64,
    /// Where it is kept.
    pub storage_kind: ContentStorageKind,
    /// Its preview.
    pub preview_text: Option<String>,
    /// The digest of its text, for content kept inline or in chunks.
    pub sha256: Option<String>,
    /// The text written on the content's own row: the text, for content
    /// kept inline; none otherwise.
    pub row_text: Option<String>,
    /// How many chunk files hold the text: for content kept in chunks, its
    /// size in chunk files rounded up; none otherwise.
    pub chunk_count: u32,
}

/// How the content of `input` is kept: a blob at the place given when
/// there is one, else as its type, MIME type and planned size call for.
pub open spec fn planned_kind(input: ContentWriteInput, file_text: Option<Seq<char>>, file_size: Option<u64>) -> ContentStorageKind {
    if input.primary_storage_uri is Some {
        ContentStorageKind::FileRef
    } else {
        storage_kind_spec(
            contenttype_name(input.content_type),
            opt_view(input.mime_type),
            planned_size(input, planned_text(input, file_text), file_size) as u64,
        )
    }
}

/// Whether `p` is the plan for `input`, given the text and the size of its
/// source file as the application read them.
pub open spec fn is_plan_for(p: ContentPlan, input: ContentWriteInput, file_text: Option<Seq<char>>, file_size: Option<u64>) -> bool {
    let text = planned_text(input, file_text);
    &&& opt_view(p.text_content) == text
    &&& p.size_bytes as int == planned_size(input, text, file_size)
    &&& p.storage_kind == planned_kind(input, file_text, file_size)
    &&& opt_view(p.row_text) == if p.storage_kind == ContentStorageKind::Inline {
        text
    } else {
        None
    }
    &&& p.chunk_count == if p.storage_kind == ContentStorageKind::Chunked {
        chunk_count_spec(p.size_bytes)
    } else {
        0
    }
    &&& opt_view(p.preview_text) == match input.preview_text {
        Some(v) => Some(v@),
        None => match text {
            Some(t) => Some(preview_of(t)),
            None => None,
        },
    }
    &&& opt_view(p.sha256) == if p.storage_kind == ContentStorageKind::FileRef {
        None
    } else {
        Some(text_digest(text->0))
    }
}

/// The plan for storing `input`. `file_text` is the text of the source file
/// and `file_size` its size, where the application read them. Text that is
/// to be kept inline or in chunks must be there.
pub fn plan_content(
    store: &ContentStore,
    input: &ContentWriteInput,
    file_text: Option<String>,
    file_size: Option<u64>,
) -> (r: Result<ContentPlan, AppError>)
    requires
        match planned_text(*input, opt_view(file_text)) {
            Some(t) => utf8_len(t) <= usize::MAX,
            None => true,
        },
    ensures
        match r {
            Ok(p) => is_plan_for(p, *input, opt_view(file_text), file_size),
            Err(_) => planned_text(*input, opt_view(file_text)) is None && input.primary_storage_uri is None,
        },
        r is Err <==> (planned_text(*input, opt_view(file_text)) is None && planned_kind(
            *input,
            opt_view(file_text),
            file_size,
        ) != ContentStorageKind::FileRef),
        planned_text(*input, opt_view(file_text)) is None ==> match planned_kind(*input, opt_view(file_text), file_size) {
            ContentStorageKind::Inline => fails_validation(r, "VALIDATION_ERROR"@, "inline content requires text_content"@),
            ContentStorageKind::Chunked => fails_validation(r, "VALIDATION_ERROR"@, "chunked content requires text_content"@),
            ContentStorageKind::FileRef => r is Ok,
        },
{
    let text_content: Option<String> = match &input.text_content {
        Some(t) => Some(t.clone()),
        None => if input.source_file_path.is_some() && !prefers_file_ref(input) {
            file_text
        } else {
            None
        },
    };
    let size_bytes: u64 = match &text_content {
        Some(t) => t.as_str().len() as u64,
        None => if input.source_file_path.is_some() {
            match file_size {
                Some(s) => s,
                None => 0,
            }
        } else {
            match input.size_bytes_hint {
                Some(s) => s,
                None => 0,
            }
        },
    };
    let storage_kind = if input.primary_storage_uri.is_some() {
        ContentStorageKind::FileRef
    } else {
        let mime: Option<&str> = match &input.mime_type {
            Some(m) => Some(m.as_str()),
            None => None,
        };
        store.choose_storage_kind(input.content_type.as_str(), mime, size_bytes)
    };
    let preview_text = match &input.preview_text {
        Some(p) => Some(p.clone()),
        None => match &text_content {
            Some(t) => Some(derive_preview_text(t.as_str())),
            None => None,
        },
    };
    let sha256 = match storage_kind {
        ContentStorageKind::FileRef => None,
        ContentStorageKind::Inline => match &text_content {
            Some(t) => Some(hex_digest(t.as_str().as_bytes())),
            None => {
                return Err(AppError::validation("VALIDATION_ERROR", "inline content requires text_content"));
            },
        },
        ContentStorageKind::Chunked => match &text_content {
            Some(t) => Some(hex_digest(t.as_str().as_bytes())),
            None => {
                return Err(AppError::validation("VALIDATION_ERROR", "chunked content requires text_content"));
            },
        },
    };
    let row_text = match storage_kind {
        ContentStorageKind::Inline => text_content.clone(),
        _ => None,
    };
    let chunk_count: u32 = match storage_kind {
        ContentStorageKind::Chunked => store.chunk_count(size_bytes),
        _ => 0,
    };
    Ok(ContentPlan { text_content, size_bytes, storage_kind, preview_text, sha256, row_text, chunk_count })
}

/// Where the blob of a file reference comes from.
#[derive(Debug, Clone, PartialEq, Eq)]
pub enum FileRefSource {
    /// A blob already stored at a known place.
    Existing(ImportedFile),
    /// A file to import into the blob area.
    Import(String),
}

/// Where the blob of a file reference comes from: the place given, with the
/// size given in advance, or else the source file, which must be given.
pub fn resolve_file_ref(input: &ContentWriteInput) -> (r: Result<FileRefSource, AppError>)
    ensures
        match input.primary_storage_uri {
            Some(uri) => r matches Ok(FileRefSource::Existing(f)) && (f.primary_storage_uri@ == uri@
                && f.size_bytes == match input.size_bytes_hint {
                Some(s) => s,
                None => 0,
            } && f.sha256 is None),
            None => match input.source_file_path {
                Some(path) => r matches Ok(FileRefSource::Import(p)) && (p@ == path@),
                None => fails_validation(
                    r,
                    "VALIDATION_ERROR"@,
                    "file_ref content requires source_file_path or primary_storage_uri"@,
                ),
            },
        },
{
    match &input.primary_storage_uri {
        Some(uri) => {
            let size_bytes = match input.size_bytes_hint {
                Some(s) => s,
                None => 0,
            };
            Ok(FileRefSource::Existing(ImportedFile { primary_storage_uri: uri.clone(), size_bytes, sha256: None }))
        },
        None => match &input.source_file_path {
            Some(path) => Ok(FileRefSource::Import(path.clone())),
            None => Err(
                AppError::validation(
                    "VALIDATION_ERROR",
                    "file_ref content requires source_file_path or primary_storage_uri",
                ),
            ),
        },
    }
}

/// Content that must be text (a greeting, an agent's text or a user
/// profile's description) is refused in any other type; `label` names it
/// in the message.
pub fn ensure_textual_content(content_type: ContentType, label: &str) -> (r: Result<(), AppError>)
    ensures
        r is Ok <==> is_textual(content_type),
        r is Err ==> fails_validation(r, "VALIDATION_ERROR"@, label@ + " must be textual"@),
{
    if is_textual_content_type(content_type) {
        Ok(())
    } else {
        let mut message = String::from_str(label);
        message.append(" must be textual");
        Err(AppError::validation("VALIDATION_ERROR", message.as_str()))
    }
}

} // verus!
