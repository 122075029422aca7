use container_registry::digest::Digest;
use container_registry::storage::{
    ImageLocation, ManifestReference, Reference, StorageError, UploadId,
};
use container_registry::store::MemoryStorage;

fn location(repository: &str, image: &str) -> ImageLocation {
    ImageLocation::new(repository.to_owned(), image.to_owned())
}

fn by_tag(repository: &str, image: &str, tag: &str) -> ManifestReference {
    ManifestReference::new(location(repository, image), Reference::new_tag(tag))
}

fn by_digest(repository: &str, image: &str, digest: Digest) -> ManifestReference {
    ManifestReference::new(location(repository, image), Reference::new_digest(digest))
}

fn stage(storage: &mut MemoryStorage, chunks: &[&[u8]]) -> UploadId {
    let upload = storage.begin_new_upload();
    let writer = storage.get_upload_writer(0, upload).unwrap();
    for chunk in chunks {
        storage.write_all(&writer, chunk).unwrap();
    }
    upload
}

#[test]
fn empty_store_serves_nothing() {
    let storage = MemoryStorage::new();
    let digest = Digest::from_contents(b"");
    assert_eq!(storage.get_blob_reader(digest), None);
    assert_eq!(storage.get_blob_metadata(digest), None);
    assert_eq!(storage.get_manifest(&by_tag("a", "b", "latest")), None);
    assert_eq!(storage.get_manifest(&by_digest("a", "b", digest)), None);
    assert_eq!(storage.upload_len(UploadId::from_u128(1)), None);
}

#[test]
fn new_upload_is_empty() {
    let mut storage = MemoryStorage::new();
    let upload = storage.begin_new_upload();
    assert_eq!(storage.upload_len(upload), Some(0));
    let other = storage.begin_new_upload();
    assert_ne!(upload, other);
    assert_eq!(storage.upload_len(other), Some(0));
}

#[test]
fn beginning_an_upload_again_empties_it() {
    let mut storage = MemoryStorage::new();
    let upload = UploadId::from_u128(5);
    storage.begin_upload(upload);
    let writer = storage.get_upload_writer(0, upload).unwrap();
    storage.write_all(&writer, b"abc").unwrap();
    assert_eq!(storage.upload_len(upload), Some(3));
    storage.begin_upload(upload);
    assert_eq!(storage.upload_len(upload), Some(0));
}

#[test]
fn writer_needs_an_upload_and_offset_zero() {
    let mut storage = MemoryStorage::new();
    let missing = UploadId::from_u128(9);
    assert_eq!(storage.get_upload_writer(0, missing).err(), Some(StorageError::NotFound));
    assert_eq!(storage.get_upload_writer(4, missing).err(), Some(StorageError::NotFound));
    let upload = storage.begin_new_upload();
    assert_eq!(storage.get_upload_writer(1, upload).err(), Some(StorageError::NotSupported));
    assert_eq!(storage.get_upload_writer(0, upload).unwrap().upload(), upload);
}

#[test]
fn writes_go_to_the_end_of_the_upload() {
    let mut storage = MemoryStorage::new();
    let upload = stage(&mut storage, &[b"hello ", b"", b"world"]);
    assert_eq!(storage.upload_len(upload), Some(11));
    let digest = Digest::from_contents(b"hello world");
    assert_eq!(storage.finalize_upload(upload, digest), Ok(()));
    assert_eq!(storage.get_blob_reader(digest), Some(b"hello world".to_vec()));
}

#[test]
fn writes_leave_other_uploads_alone() {
    let mut storage = MemoryStorage::new();
    let first = stage(&mut storage, &[b"one"]);
    let second = stage(&mut storage, &[b"second"]);
    assert_eq!(storage.upload_len(first), Some(3));
    assert_eq!(storage.upload_len(second), Some(6));
}

#[test]
fn write_to_a_finalized_upload_fails() {
    let mut storage = MemoryStorage::new();
    let upload = stage(&mut storage, &[b"data"]);
    let writer = storage.get_upload_writer(0, upload).unwrap();
    storage.finalize_upload(upload, Digest::from_contents(b"data")).unwrap();
    assert_eq!(storage.write_all(&writer, b"more"), Err(StorageError::NotFound));
    assert_eq!(storage.upload_len(upload), None);
}

#[test]
fn committed_blob_is_served_byte_for_byte() {
    let mut body = Vec::new();
    for i in 0..5000u32 {
        body.push((i.wrapping_mul(2654435761) >> 13) as u8);
    }
    let mut storage = MemoryStorage::new();
    let upload = stage(&mut storage, &[&body]);
    let digest = Digest::from_contents(&body);
    assert_eq!(storage.finalize_upload(upload, digest), Ok(()));
    assert_eq!(storage.get_blob_reader(digest), Some(body.clone()));
    assert_eq!(storage.get_blob_metadata(digest).unwrap().size(), 5000);
    // The upload left the staging area.
    assert_eq!(storage.upload_len(upload), None);
    assert_eq!(storage.finalize_upload(upload, digest), Err(StorageError::NotFound));
}

#[test]
fn empty_upload_commits_as_the_empty_blob() {
    let mut storage = MemoryStorage::new();
    let upload = storage.begin_new_upload();
    let digest = Digest::from_contents(b"");
    assert_eq!(storage.finalize_upload(upload, digest), Ok(()));
    assert_eq!(storage.get_blob_reader(digest), Some(Vec::new()));
    assert_eq!(storage.get_blob_metadata(digest).unwrap().size(), 0);
}

#[test]
fn finalize_with_wrong_digest_commits_nothing() {
    let mut storage = MemoryStorage::new();
    let upload = stage(&mut storage, &[b"actual bytes"]);
    let correct = Digest::from_contents(b"actual bytes");
    let supplied = Digest::from_contents(b"something else");
    assert_eq!(storage.finalize_upload(upload, supplied), Err(StorageError::DigestMismatch));
    assert_eq!(storage.get_blob_reader(correct), None);
    assert_eq!(storage.get_blob_reader(supplied), None);
    assert_eq!(storage.get_blob_metadata(correct), None);
    assert_eq!(storage.get_blob_metadata(supplied), None);
    // The staged bytes were discarded.
    assert_eq!(storage.upload_len(upload), None);
    assert_eq!(storage.finalize_upload(upload, correct), Err(StorageError::NotFound));
}

#[test]
fn finalize_with_wrong_digest_keeps_older_blobs() {
    let mut storage = MemoryStorage::new();
    let first = stage(&mut storage, &[b"kept"]);
    let kept = Digest::from_contents(b"kept");
    storage.finalize_upload(first, kept).unwrap();
    let second = stage(&mut storage, &[b"not kept"]);
    assert_eq!(storage.finalize_upload(second, kept), Err(StorageError::DigestMismatch));
    assert_eq!(storage.get_blob_reader(kept), Some(b"kept".to_vec()));
    assert_eq!(storage.get_blob_reader(Digest::from_contents(b"not kept")), None);
}

#[test]
fn finalize_of_unknown_upload_is_not_found() {
    let mut storage = MemoryStorage::new();
    let digest = Digest::from_contents(b"");
    assert_eq!(
        storage.finalize_upload(UploadId::from_u128(77), digest),
        Err(StorageError::NotFound)
    );
    assert_eq!(storage.get_blob_reader(digest), None);
}

#[test]
fn finalizing_the_same_bytes_twice_succeeds() {
    let mut storage = MemoryStorage::new();
    let digest = Digest::from_contents(b"layer");
    let first = stage(&mut storage, &[b"layer"]);
    let second = stage(&mut storage, &[b"lay", b"er"]);
    assert_eq!(storage.finalize_upload(first, digest), Ok(()));
    assert_eq!(storage.finalize_upload(second, digest), Ok(()));
    assert_eq!(storage.get_blob_reader(digest), Some(b"layer".to_vec()));
    assert_eq!(storage.upload_len(second), None);
}

#[test]
fn tagged_manifest_is_served_by_tag_and_by_digest() {
    let manifest = b"{\"schemaVersion\":2}";
    let mut storage = MemoryStorage::new();
    let digest = storage.put_manifest(&by_tag("tests", "sample", "latest"), manifest).unwrap();
    assert_eq!(digest, Digest::from_contents(manifest));
    assert_eq!(storage.get_manifest(&by_tag("tests", "sample", "latest")), Some(manifest.to_vec()));
    assert_eq!(
        storage.get_manifest(&by_digest("tests", "sample", digest)),
        Some(manifest.to_vec())
    );
    // Manifests belong to their location, tags to their name.
    assert_eq!(storage.get_manifest(&by_tag("tests", "sample", "other")), None);
    assert_eq!(storage.get_manifest(&by_tag("tests", "other", "latest")), None);
    assert_eq!(storage.get_manifest(&by_tag("other", "sample", "latest")), None);
    assert_eq!(storage.get_manifest(&by_digest("tests", "other", digest)), None);
}

#[test]
fn tag_names_the_manifest_stored_last() {
    let mut storage = MemoryStorage::new();
    let old = storage.put_manifest(&by_tag("r", "i", "latest"), b"old").unwrap();
    let new = storage.put_manifest(&by_tag("r", "i", "latest"), b"new").unwrap();
    assert_ne!(old, new);
    assert_eq!(storage.get_manifest(&by_tag("r", "i", "latest")), Some(b"new".to_vec()));
    // The older manifest stays reachable by its digest.
    assert_eq!(storage.get_manifest(&by_digest("r", "i", old)), Some(b"old".to_vec()));
    assert_eq!(storage.get_manifest(&by_digest("r", "i", new)), Some(b"new".to_vec()));
}

#[test]
fn several_tags_may_name_one_manifest() {
    let mut storage = MemoryStorage::new();
    let a = storage.put_manifest(&by_tag("r", "i", "v1"), b"same").unwrap();
    let b = storage.put_manifest(&by_tag("r", "i", "stable"), b"same").unwrap();
    assert_eq!(a, b);
    assert_eq!(storage.get_manifest(&by_tag("r", "i", "v1")), Some(b"same".to_vec()));
    assert_eq!(storage.get_manifest(&by_tag("r", "i", "stable")), Some(b"same".to_vec()));
}

#[test]
fn manifest_by_its_own_digest_is_stored() {
    let manifest = b"{\"mediaType\":\"m\"}";
    let digest = Digest::from_contents(manifest);
    let mut storage = MemoryStorage::new();
    assert_eq!(storage.put_manifest(&by_digest("r", "i", digest), manifest), Ok(digest));
    assert_eq!(storage.get_manifest(&by_digest("r", "i", digest)), Some(manifest.to_vec()));
}

#[test]
fn manifest_by_another_digest_is_refused() {
    let manifest = b"{\"mediaType\":\"m\"}";
    let other = Digest::from_contents(b"other");
    let mut storage = MemoryStorage::new();
    assert_eq!(
        storage.put_manifest(&by_digest("r", "i", other), manifest),
        Err(StorageError::DigestMismatch)
    );
    assert_eq!(storage.get_manifest(&by_digest("r", "i", other)), None);
    // The bytes were written under their own digest before the reference was tested.
    assert_eq!(
        storage.get_manifest(&by_digest("r", "i", Digest::from_contents(manifest))),
        Some(manifest.to_vec())
    );
}

#[test]
fn blobs_and_manifests_do_not_mix() {
    let mut storage = MemoryStorage::new();
    let bytes = b"{\"both\":true}";
    let digest = storage.put_manifest(&by_tag("r", "i", "t"), bytes).unwrap();
    assert_eq!(storage.get_blob_reader(digest), None);
    let upload = stage(&mut storage, &[b"blob"]);
    let blob = Digest::from_contents(b"blob");
    storage.finalize_upload(upload, blob).unwrap();
    assert_eq!(storage.get_manifest(&by_digest("r", "i", blob)), None);
}
