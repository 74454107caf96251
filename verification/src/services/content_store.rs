//! Layout of the content store on disk and the decisions about how a piece
//! of content is kept: inline in the database, split into chunk files, or as
//! a reference to a blob file named by its SHA-256 digest.
//!
//! Paths are built as text with `/` as the separator; the application turns
//! them into platform paths when it touches the file system.

use vstd::prelude::*;

use vstd::slice::slice_subrange;
use crate::text::{join_path, path_join, str_eq, starts_with, to_hex, hex_seq, zero_padded, zero_padded_decimal};

verus! {

/// Largest size, in bytes, of a text kept inline.
pub const INLINE_TEXT_THRESHOLD_BYTES: u64 = 262144;

/// Size, in bytes, of one chunk file.
pub const CHUNK_SIZE_BYTES: u64 = 1048576;

/// How a piece of content is kept.
#[derive(Debug, Clone, Copy, PartialEq, Eq, Structural)]
pub enum ContentStorageKind {
    /// In the database row.
    Inline,
    /// In chunk files of `CHUNK_SIZE_BYTES`.
    Chunked,
    /// As a blob file, referenced by its path.
    FileRef,
}

/// The content store rooted at a directory.
#[derive(Debug, Clone)]
pub struct ContentStore {
    root: String,
}

/// A chunk file written for a text.
#[derive(Debug, Clone, PartialEq, Eq)]
pub struct PersistedChunk {
    pub id: String,
    pub chunk_index: u32,
    pub storage_uri: String,
    pub byte_offset: i64,
    pub byte_length: i64,
    pub compression: Option<String>,
    pub checksum: Option<String>,
}

/// Where one chunk of a text goes and what it holds: the bytes
/// `start..end` of the text.
#[derive(Debug, Clone, PartialEq, Eq)]
pub struct ChunkLayout {
    pub chunk_index: u32,
    pub storage_uri: String,
    pub byte_offset: i64,
    pub byte_length: i64,
    /// The SHA-256 of the chunk's bytes, in hexadecimal.
    pub checksum: String,
    pub start: usize,
    pub end: usize,
}

/// A file imported into the blob area.
#[derive(Debug, Clone, PartialEq, Eq)]
pub struct ImportedFile {
    pub primary_storage_uri: String,
    pub size_bytes: u64,
    pub sha256: Option<String>,
}

/// The SHA-256 digest of `data`: 32 bytes, as `sha2::Sha256` computes them.
pub uninterp spec fn sha256_of(data: Seq<u8>) -> Seq<u8>;

/// The SHA-256 digest of `data`, from `sha2::Sha256::digest`. The claims are
/// that the result is `sha256_of(data)`, a function of the bytes alone, and
/// that it is 32 bytes long, the output size of SHA-256.
#[verifier::external_body]
pub fn sha256_digest(data: &[u8]) -> (r: Vec<u8>)
    ensures
        r@ == sha256_of(data@),
        r@.len() == 32,
{
    <sha2::Sha256 as sha2::Digest>::digest(data).to_vec()
}

/// `bytes` in lower-case hexadecimal, two digits per byte.
pub fn format_digest(bytes: &[u8]) -> (r: String)
    ensures
        r@ == hex_seq(bytes@),
{
    to_hex(bytes)
}

/// The lower-case hexadecimal SHA-256 digest of `bytes`, as chunk checksums
/// and blob names use it.
pub fn hex_digest(bytes: &[u8]) -> (r: String)
    ensures
        r@ == hex_seq(sha256_of(bytes@)),
        r@.len() == 64,
{
    let digest = sha256_digest(bytes);
    proof {
        lemma_hex_len(digest@);
    }
    format_digest(digest.as_slice())
}

/// Two hexadecimal digits per byte.
pub proof fn lemma_hex_len(bytes: Seq<u8>)
    ensures
        hex_seq(bytes).len() == 2 * bytes.len(),
    decreases bytes.len(),
{
    if bytes.len() > 0 {
        lemma_hex_len(bytes.drop_last());
    }
}

/// Whether content of this type or MIME type is kept as a blob file: images,
/// audio, video and other binary content.
pub open spec fn prefers_file_ref_spec(content_type: Seq<char>, mime_type: Option<Seq<char>>) -> bool {
    ||| content_type == "image"@
    ||| content_type == "audio"@
    ||| content_type == "video"@
    ||| content_type == "file"@
    ||| content_type == "binary"@
    ||| match mime_type {
        Some(m) => "image/"@.is_prefix_of(m) || "audio/"@.is_prefix_of(m) || "video/"@.is_prefix_of(m)
            || m == "application/octet-stream"@,
        None => false,
    }
}

/// How content of this type and size is kept: binary content as a blob file,
/// text up to `INLINE_TEXT_THRESHOLD_BYTES` inline, longer text in chunks.
pub open spec fn storage_kind_spec(content_type: Seq<char>, mime_type: Option<Seq<char>>, size_bytes: u64) -> ContentStorageKind {
    if prefers_file_ref_spec(content_type, mime_type) {
        ContentStorageKind::FileRef
    } else if size_bytes <= INLINE_TEXT_THRESHOLD_BYTES {
        ContentStorageKind::Inline
    } else {
        ContentStorageKind::Chunked
    }
}

/// The number of chunk files for `size_bytes` bytes, rounded up, taken
/// modulo 2^32 as the `u32` it is stored in.
pub open spec fn chunk_count_spec(size_bytes: u64) -> u32 {
    let q: int = if size_bytes % CHUNK_SIZE_BYTES == 0 {
        (size_bytes / CHUNK_SIZE_BYTES) as int
    } else {
        (size_bytes / CHUNK_SIZE_BYTES) as int + 1
    };
    q as u32
}

/// The first two characters of `s`, or all of it when shorter.
pub open spec fn blob_prefix(s: Seq<char>) -> Seq<char> {
    if s.len() < 2 {
        s
    } else {
        s.subrange(0, 2)
    }
}

impl ContentStore {
    /// The root directory of the store.
    pub closed spec fn root_view(&self) -> Seq<char> {
        self.root@
    }

    /// A store rooted at `root`.
    pub fn new(root: String) -> (s: Self)
        ensures
            s.root_view() == root@,
    {
        ContentStore { root }
    }

    /// The root directory.
    pub fn root(&self) -> (r: &str)
        ensures
            r@ == self.root_view(),
    {
        self.root.as_str()
    }

    /// Where blobs are kept.
    pub fn blobs_dir(&self) -> (r: String)
        ensures
            r@ == path_join(self.root_view(), "blobs"@),
    {
        join_path(self.root.as_str(), "blobs")
    }

    /// Where chunk files are kept.
    pub fn chunks_dir(&self) -> (r: String)
        ensures
            r@ == path_join(self.root_view(), "chunks"@),
    {
        join_path(self.root.as_str(), "chunks")
    }

    /// Where previews are kept.
    pub fn previews_dir(&self) -> (r: String)
        ensures
            r@ == path_join(self.root_view(), "previews"@),
    {
        join_path(self.root.as_str(), "previews")
    }

    /// Where exports are written.
    pub fn exports_dir(&self) -> (r: String)
        ensures
            r@ == path_join(self.root_view(), "exports"@),
    {
        join_path(self.root.as_str(), "exports")
    }

    /// Where conversation exports are written.
    pub fn exports_conversations_dir(&self) -> (r: String)
        ensures
            r@ == path_join(path_join(self.root_view(), "exports"@), "conversations"@),
    {
        let exports = self.exports_dir();
        join_path(exports.as_str(), "conversations")
    }

    /// Where the export of one conversation is written.
    pub fn conversation_export_dir(&self, conversation_id: &str) -> (r: String)
        ensures
            r@ == path_join(
                path_join(path_join(self.root_view(), "exports"@), "conversations"@),
                conversation_id@,
            ),
    {
        let dir = self.exports_conversations_dir();
        join_path(dir.as_str(), conversation_id)
    }

    /// The file of the blob with the digest `sha256`:
    /// `blobs/<first two digits>/<digest>/blob`.
    pub fn blob_path(&self, sha256: &str) -> (r: String)
        ensures
            r@ == path_join(
                path_join(
                    path_join(path_join(self.root_view(), "blobs"@), blob_prefix(sha256@)),
                    sha256@,
                ),
                "blob"@,
            ),
    {
        let n = sha256.unicode_len();
        let end = if n < 2 {
            n
        } else {
            2
        };
        let prefix = sha256.substring_char(0, end);
        proof {
            if n < 2 {
                assert(sha256@.subrange(0, n as int) =~= sha256@);
            }
        }
        let blobs = self.blobs_dir();
        let dir = join_path(blobs.as_str(), prefix);
        let dir = join_path(dir.as_str(), sha256);
        join_path(dir.as_str(), "blob")
    }

    /// The file of the chunk `chunk_index` of the content `content_id`:
    /// `chunks/<content id>/<index in eight digits>.chunk`.
    pub fn chunk_path(&self, content_id: &str, chunk_index: u32) -> (r: String)
        ensures
            r@ == path_join(
                path_join(path_join(self.root_view(), "chunks"@), content_id@),
                zero_padded(chunk_index as nat, 8) + ".chunk"@,
            ),
    {
        let chunks = self.chunks_dir();
        let dir = join_path(chunks.as_str(), content_id);
        let mut name = zero_padded_decimal(chunk_index as u64, 8);
        name.append(".chunk");
        join_path(dir.as_str(), name.as_str())
    }

    /// The chunk files of a long text: one per `CHUNK_SIZE_BYTES` bytes, in
    /// order, the last one holding the rest; each with its file, its place
    /// in the text and the checksum of its bytes.
    pub fn plan_text_chunks(&self, content_id: &str, bytes: &[u8]) -> (r: Vec<ChunkLayout>)
        requires
            bytes@.len() <= u32::MAX as int * CHUNK_SIZE_BYTES,
        ensures
            r@.len() * CHUNK_SIZE_BYTES >= bytes@.len(),
            r@.len() * CHUNK_SIZE_BYTES < bytes@.len() + CHUNK_SIZE_BYTES,
            forall|k: int|
                0 <= k < r@.len() ==> {
                    let c = #[trigger] r@[k];
                    &&& c.chunk_index == k
                    &&& c.start == k * CHUNK_SIZE_BYTES
                    &&& c.end == if (k + 1) * CHUNK_SIZE_BYTES <= bytes@.len() {
                        (k + 1) * CHUNK_SIZE_BYTES
                    } else {
                        bytes@.len() as int
                    }
                    &&& c.byte_offset == c.start
                    &&& c.byte_length == c.end - c.start
                    &&& c.storage_uri@ == path_join(
                        path_join(path_join(self.root_view(), "chunks"@), content_id@),
                        zero_padded(k as nat, 8) + ".chunk"@,
                    )
                    &&& c.checksum@ == hex_seq(sha256_of(bytes@.subrange(c.start as int, c.end as int)))
                },
    {
        let mut r: Vec<ChunkLayout> = Vec::new();
        let mut start: usize = 0;
        let mut index: u32 = 0;
        let len = bytes.len();
        while start < len
            invariant
                len == bytes@.len(),
                len <= u32::MAX as int * CHUNK_SIZE_BYTES,
                start <= len,
                start < len ==> start == index as int * CHUNK_SIZE_BYTES,
                start == len ==> index as int * CHUNK_SIZE_BYTES >= len && (index == 0 || (index - 1) as int
                    * CHUNK_SIZE_BYTES < len),
                r@.len() == index,
                forall|k: int|
                    0 <= k < r@.len() ==> {
                        let c = #[trigger] r@[k];
                        &&& c.chunk_index == k
                        &&& c.start == k * CHUNK_SIZE_BYTES
                        &&& c.end == if (k + 1) * CHUNK_SIZE_BYTES <= len {
                            (k + 1) * CHUNK_SIZE_BYTES
                        } else {
                            len as int
                        }
                        &&& c.byte_offset == c.start
                        &&& c.byte_length == c.end - c.start
                        &&& c.storage_uri@ == path_join(
                            path_join(path_join(self.root_view(), "chunks"@), content_id@),
                            zero_padded(k as nat, 8) + ".chunk"@,
                        )
                        &&& c.checksum@ == hex_seq(sha256_of(bytes@.subrange(c.start as int, c.end as int)))
                    },
            decreases len - start,
        {
            assert((index as int) < u32::MAX) by (nonlinear_arith)
                requires
                    index as int * CHUNK_SIZE_BYTES < len,
                    len <= u32::MAX as int * CHUNK_SIZE_BYTES,
            ;
            let end: usize = if len - start >= CHUNK_SIZE_BYTES as usize {
                start + CHUNK_SIZE_BYTES as usize
            } else {
                len
            };
            let chunk = slice_subrange(bytes, start, end);
            let checksum = hex_digest(chunk);
            let storage_uri = self.chunk_path(content_id, index);
            r.push(
                ChunkLayout {
                    chunk_index: index,
                    storage_uri,
                    byte_offset: start as i64,
                    byte_length: (end - start) as i64,
                    checksum,
                    start,
                    end,
                },
            );
            proof {
                assert((index as int + 1) * CHUNK_SIZE_BYTES == index as int * CHUNK_SIZE_BYTES + CHUNK_SIZE_BYTES) by (nonlinear_arith);
            }
            start = end;
            index = index + 1;
        }
        proof {
            if index > 0 {
                assert((index - 1) as int * CHUNK_SIZE_BYTES + CHUNK_SIZE_BYTES == index as int * CHUNK_SIZE_BYTES) by (nonlinear_arith);
            }
        }
        r
    }

    /// How content of this type and size is kept.
    pub fn choose_storage_kind(&self, content_type: &str, mime_type: Option<&str>, size_bytes: u64) -> (r: ContentStorageKind)
        ensures
            r == storage_kind_spec(
                content_type@,
                match mime_type {
                    Some(m) => Some(m@),
                    None => None,
                },
                size_bytes,
            ),
    {
        if Self::prefers_file_ref(content_type, mime_type) {
            return ContentStorageKind::FileRef;
        }
        if size_bytes <= INLINE_TEXT_THRESHOLD_BYTES {
            ContentStorageKind::Inline
        } else {
            ContentStorageKind::Chunked
        }
    }

    /// The number of chunk files for `size_bytes` bytes.
    pub fn chunk_count(&self, size_bytes: u64) -> (r: u32)
        ensures
            r == chunk_count_spec(size_bytes),
    {
        if size_bytes == 0 {
            return 0;
        }
        let q = size_bytes / CHUNK_SIZE_BYTES;
        let q = if size_bytes % CHUNK_SIZE_BYTES == 0 {
            q
        } else {
            q + 1
        };
        q as u32
    }

    /// Whether content of this type or MIME type is kept as a blob file.
    pub fn prefers_file_ref(content_type: &str, mime_type: Option<&str>) -> (r: bool)
        ensures
            r == prefers_file_ref_spec(
                content_type@,
                match mime_type {
                    Some(m) => Some(m@),
                    None => None,
                },
            ),
    {
        if str_eq(content_type, "image") || str_eq(content_type, "audio") || str_eq(
            content_type,
            "video",
        ) || str_eq(content_type, "file") || str_eq(content_type, "binary") {
            return true;
        }
        match mime_type {
            Some(mime) => starts_with(mime, "image/") || starts_with(mime, "audio/") || starts_with(
                mime,
                "video/",
            ) || str_eq(mime, "application/octet-stream"),
            None => false,
        }
    }
}

/// Images, audio, video, files and other binary content are always kept as
/// a blob file, whatever their MIME type and size.
pub proof fn law_binary_content_is_a_blob_file(
    store: &ContentStore,
    content_type: &str,
    mime_type: Option<&str>,
    size_bytes: u64,
    r: ContentStorageKind,
)
    requires
        content_type@ == "image"@ || content_type@ == "audio"@ || content_type@ == "video"@
            || content_type@ == "file"@ || content_type@ == "binary"@,
        call_ensures(ContentStore::choose_storage_kind, (store, content_type, mime_type, size_bytes), r),
    ensures
        r == ContentStorageKind::FileRef,
{
}

/// Text without a MIME type is kept inline up to the inline threshold and in
/// chunks beyond it, never as a blob file.
pub proof fn law_text_is_inline_or_chunked_by_size(store: &ContentStore, size_bytes: u64, r: ContentStorageKind)
    requires
        call_ensures(ContentStore::choose_storage_kind, (store, "text", None::<&str>, size_bytes), r),
    ensures
        size_bytes <= 262144 ==> r == ContentStorageKind::Inline,
        size_bytes > 262144 ==> r == ContentStorageKind::Chunked,
{
    reveal_strlit("text");
    reveal_strlit("image");
    reveal_strlit("audio");
    reveal_strlit("video");
    reveal_strlit("file");
    reveal_strlit("binary");
    assert("text"@[0] != "image"@[0]);
    assert("text"@[0] != "audio"@[0]);
    assert("text"@[0] != "video"@[0]);
    assert("text"@[0] != "file"@[0]);
    assert("text"@[0] != "binary"@[0]);
}

/// Content whose MIME type is an image, audio or video type, or
/// `application/octet-stream`, is kept as a blob file whatever its declared
/// type and size.
pub proof fn law_binary_mime_is_a_blob_file(
    store: &ContentStore,
    content_type: &str,
    mime: &str,
    size_bytes: u64,
    r: ContentStorageKind,
)
    requires
        "image/"@.is_prefix_of(mime@) || "audio/"@.is_prefix_of(mime@) || "video/"@.is_prefix_of(mime@)
            || mime@ == "application/octet-stream"@,
        call_ensures(ContentStore::choose_storage_kind, (store, content_type, Some(mime), size_bytes), r),
    ensures
        r == ContentStorageKind::FileRef,
{
}

} // verus!
