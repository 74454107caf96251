use buyu::error::{AppError, ErrorKind};
use buyu::services::content_store::{format_digest, hex_digest, ContentStorageKind, ContentStore, CHUNK_SIZE_BYTES};
use buyu::services::keyring::KeyringService;

#[test]
fn content_store_layout() {
    let store = ContentStore::new("/data".to_string());
    assert_eq!(store.root(), "/data");
    assert_eq!(store.blobs_dir(), "/data/blobs");
    assert_eq!(store.chunks_dir(), "/data/chunks");
    assert_eq!(store.previews_dir(), "/data/previews");
    assert_eq!(store.exports_dir(), "/data/exports");
    assert_eq!(store.exports_conversations_dir(), "/data/exports/conversations");
    assert_eq!(store.conversation_export_dir("c9"), "/data/exports/conversations/c9");
    assert_eq!(store.blob_path("abcdef"), "/data/blobs/ab/abcdef/blob");
    assert_eq!(store.blob_path("a"), "/data/blobs/a/a/blob");
    assert_eq!(store.chunk_path("c1", 7), "/data/chunks/c1/00000007.chunk");
    assert_eq!(store.chunk_path("c1", 123456789), "/data/chunks/c1/123456789.chunk");
    let trailing = ContentStore::new("/data/".to_string());
    assert_eq!(trailing.blobs_dir(), "/data/blobs");
}

#[test]
fn storage_kind_follows_type_and_size() {
    let store = ContentStore::new("/r".to_string());
    assert_eq!(store.choose_storage_kind("text", None, 262_144), ContentStorageKind::Inline);
    assert_eq!(store.choose_storage_kind("text", None, 262_145), ContentStorageKind::Chunked);
    assert_eq!(store.choose_storage_kind("image", None, 1), ContentStorageKind::FileRef);
    assert_eq!(store.choose_storage_kind("binary", None, 1), ContentStorageKind::FileRef);
    assert_eq!(store.choose_storage_kind("text", Some("video/mp4"), 1), ContentStorageKind::FileRef);
    assert_eq!(
        store.choose_storage_kind("json", Some("application/octet-stream"), 1),
        ContentStorageKind::FileRef
    );
    assert_eq!(store.choose_storage_kind("json", Some("application/json"), 1), ContentStorageKind::Inline);
    assert!(ContentStore::prefers_file_ref("audio", None));
    assert!(!ContentStore::prefers_file_ref("markdown", Some("text/markdown")));
}

#[test]
fn chunk_count_rounds_up() {
    let store = ContentStore::new("/r".to_string());
    assert_eq!(store.chunk_count(0), 0);
    assert_eq!(store.chunk_count(1), 1);
    assert_eq!(store.chunk_count(1_048_576), 1);
    assert_eq!(store.chunk_count(1_048_577), 2);
    assert_eq!(store.chunk_count(10 * 1_048_576), 10);
}

#[test]
fn digests_are_lower_case_hex() {
    assert_eq!(format_digest(&[0x0f, 0xa0, 0xff]), "0fa0ff");
    assert_eq!(format_digest(&[]), "");
    assert_eq!(
        hex_digest(b"abc"),
        "ba7816bf8f01cfea414140de5dae2223b00361a396177a9cb410ff61f20015ad"
    );
    assert_ne!(hex_digest(b"abc"), hex_digest(b"abd"));
}

#[test]
fn keyring_reads_what_was_saved() {
    let mut keyring = KeyringService::new("buyu-test");
    assert_eq!(keyring.contains("openai").unwrap(), false);
    assert_eq!(keyring.get_optional("openai").unwrap(), None);
    let err = keyring.get("openai").unwrap_err();
    assert_eq!(err.kind, ErrorKind::Keyring);
    assert_eq!(err.message, "No matching entry found in secure storage");
    keyring.save("openai", "sk-1").unwrap();
    keyring.save("anthropic", "sk-2").unwrap();
    assert_eq!(keyring.get("openai").unwrap(), "sk-1");
    keyring.save("openai", "sk-3").unwrap();
    assert_eq!(keyring.get("openai").unwrap(), "sk-3");
    assert_eq!(keyring.get("anthropic").unwrap(), "sk-2");
    assert!(keyring.contains("anthropic").unwrap());
    keyring.delete("openai").unwrap();
    assert_eq!(keyring.get_optional("openai").unwrap(), None);
    assert_eq!(keyring.get("anthropic").unwrap(), "sk-2");
    keyring.delete("openai").unwrap();
    assert_eq!(AppError::keyring("x").code, "KEYRING_ERROR");
}

#[test]
fn long_texts_are_cut_into_checksummed_chunks() {
    let store = ContentStore::new("/data".to_string());
    let chunk = CHUNK_SIZE_BYTES as usize;
    let bytes: Vec<u8> = (0..(2 * chunk + 10)).map(|i| (i % 251) as u8).collect();
    let plan = store.plan_text_chunks("c-1", &bytes);
    assert_eq!(plan.len(), 3);
    assert_eq!(plan[0].storage_uri, "/data/chunks/c-1/00000000.chunk");
    assert_eq!(plan[2].storage_uri, "/data/chunks/c-1/00000002.chunk");
    assert_eq!((plan[1].start, plan[1].end), (chunk, 2 * chunk));
    assert_eq!(plan[2].byte_offset, (2 * chunk) as i64);
    assert_eq!(plan[2].byte_length, 10);
    assert_eq!(plan[2].checksum, hex_digest(&bytes[2 * chunk..]));
    assert!(store.plan_text_chunks("c-1", &[]).is_empty());
    assert_eq!(store.plan_text_chunks("c-1", &bytes[..chunk]).len(), 1);
}
