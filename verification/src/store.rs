//! The content-addressed store: staged uploads, blobs by digest, manifests by location
//! and digest, and tags that point at manifests. This store keeps everything in memory.

use crate::digest::{sha256, Digest};
use crate::storage::{
    check_manifest_digest, finalize_action, is_random_uuid, BlobMetadata, FinalizeAction,
    ImageLocation, LocationView, ManifestReference, Reference, ReferenceView, StorageError,
    UploadId,
};
use crate::table::{Key, Table};
use vstd::prelude::*;
use vstd::slice::slice_to_vec;

verus! {

/// What a store holds.
pub struct StorageView {
    /// The staged bytes of each open upload.
    pub uploads: Map<u128, Seq<u8>>,
    /// The bytes of each blob, by digest.
    pub blobs: Map<Seq<u8>, Seq<u8>>,
    /// The bytes of each manifest, by location and digest.
    pub manifests: Map<(LocationView, Seq<u8>), Seq<u8>>,
    /// The digest that each tag names, by location and tag.
    pub tags: Map<(LocationView, Seq<char>), Seq<u8>>,
}

impl StorageView {
    /// A store that holds nothing.
    pub open spec fn empty() -> StorageView {
        StorageView {
            uploads: Map::empty(),
            blobs: Map::empty(),
            manifests: Map::empty(),
            tags: Map::empty(),
        }
    }

    /// Every blob and every manifest hashes to the digest that it is stored under, and
    /// every tag names a manifest that is stored at its location.
    pub open spec fn valid(self) -> bool {
        &&& forall|d: Seq<u8>| #[trigger]
            self.blobs.contains_key(d) ==> sha256(self.blobs[d]) == d
        &&& forall|l: LocationView, d: Seq<u8>| #[trigger]
            self.manifests.contains_key((l, d)) ==> sha256(self.manifests[(l, d)]) == d
        &&& forall|l: LocationView, t: Seq<char>| #[trigger]
            self.tags.contains_key((l, t)) ==> self.manifests.contains_key((l, self.tags[(l, t)]))
    }

    /// The store after an empty upload was staged under `id`.
    pub open spec fn begin_upload(self, id: u128) -> StorageView {
        StorageView { uploads: self.uploads.insert(id, Seq::empty()), ..self }
    }

    /// The store after `chunk` was written to the end of the upload `id`; unchanged
    /// where there is no such upload.
    pub open spec fn write(self, id: u128, chunk: Seq<u8>) -> StorageView {
        if self.uploads.contains_key(id) {
            StorageView { uploads: self.uploads.insert(id, self.uploads[id] + chunk), ..self }
        } else {
            self
        }
    }

    /// How finalizing the upload `id` under the digest `expected` ends.
    pub open spec fn finalize_result(self, id: u128, expected: Seq<u8>) -> Result<
        (),
        StorageError,
    > {
        if !self.uploads.contains_key(id) {
            Err(StorageError::NotFound)
        } else if sha256(self.uploads[id]) != expected {
            Err(StorageError::DigestMismatch)
        } else {
            Ok(())
        }
    }

    /// The store after the upload `id` was finalized under the digest `expected`. An
    /// upload that exists leaves the staging area either way; its bytes become a blob
    /// where they hash to `expected` and no blob is stored under that digest yet.
    pub open spec fn finalize(self, id: u128, expected: Seq<u8>) -> StorageView {
        if !self.uploads.contains_key(id) {
            self
        } else if sha256(self.uploads[id]) != expected || self.blobs.contains_key(expected) {
            StorageView { uploads: self.uploads.remove(id), ..self }
        } else {
            StorageView {
                uploads: self.uploads.remove(id),
                blobs: self.blobs.insert(expected, self.uploads[id]),
                ..self
            }
        }
    }

    /// The bytes of the blob with the digest `d`, if it is stored.
    pub open spec fn blob(self, d: Seq<u8>) -> Option<Seq<u8>> {
        if self.blobs.contains_key(d) {
            Some(self.blobs[d])
        } else {
            None
        }
    }

    /// How storing the manifest `bytes` under `reference` ends: with the digest of the
    /// bytes, unless the reference is another digest.
    pub open spec fn put_manifest_result(reference: ReferenceView, bytes: Seq<u8>) -> Result<
        Seq<u8>,
        StorageError,
    > {
        match reference {
            ReferenceView::Digest(d) => if d == sha256(bytes) {
                Ok(d)
            } else {
                Err(StorageError::DigestMismatch)
            },
            ReferenceView::Tag(_) => Ok(sha256(bytes)),
        }
    }

    /// The store after the manifest `bytes` was stored at `location` under `reference`:
    /// the bytes lie under their own digest, and a tag names that digest.
    pub open spec fn put_manifest(
        self,
        location: LocationView,
        reference: ReferenceView,
        bytes: Seq<u8>,
    ) -> StorageView {
        let digest = sha256(bytes);
        let manifests = self.manifests.insert((location, digest), bytes);
        match reference {
            ReferenceView::Tag(tag) => StorageView {
                manifests,
                tags: self.tags.insert((location, tag), digest),
                ..self
            },
            ReferenceView::Digest(_) => StorageView { manifests, ..self },
        }
    }

    /// The digest that `reference` names at `location`: its own, or the one that the tag
    /// points at.
    pub open spec fn resolve(self, location: LocationView, reference: ReferenceView) -> Option<
        Seq<u8>,
    > {
        match reference {
            ReferenceView::Digest(d) => Some(d),
            ReferenceView::Tag(tag) => if self.tags.contains_key((location, tag)) {
                Some(self.tags[(location, tag)])
            } else {
                None
            },
        }
    }

    /// The bytes of the manifest that `reference` names at `location`, if it is stored.
    pub open spec fn manifest(self, location: LocationView, reference: ReferenceView) -> Option<
        Seq<u8>,
    > {
        match self.resolve(location, reference) {
            Some(d) => if self.manifests.contains_key((location, d)) {
                Some(self.manifests[(location, d)])
            } else {
                None
            },
            None => None,
        }
    }
}

/// No step of the store breaks its validity.
pub proof fn lemma_steps_keep_valid(
    s: StorageView,
    id: u128,
    chunk: Seq<u8>,
    expected: Seq<u8>,
    location: LocationView,
    reference: ReferenceView,
    bytes: Seq<u8>,
)
    requires
        s.valid(),
    ensures
        StorageView::empty().valid(),
        s.begin_upload(id).valid(),
        s.write(id, chunk).valid(),
        s.finalize(id, expected).valid(),
        s.put_manifest(location, reference, bytes).valid(),
{
    let after = s.put_manifest(location, reference, bytes);
    assert forall|l: LocationView, t: Seq<char>| #[trigger]
        after.tags.contains_key((l, t)) implies after.manifests.contains_key(
        (l, after.tags[(l, t)]),
    ) by {
        if s.tags.contains_key((l, t)) {
            assert(s.manifests.contains_key((l, s.tags[(l, t)])));
        }
    }
}

/// An upload whose bytes hash to the digest given at finalize is served as a blob under
/// that digest, byte for byte, where no other bytes are stored under the digest
/// already.
pub proof fn lemma_committed_blob_is_served(s: StorageView, id: u128)
    requires
        s.uploads.contains_key(id),
        s.blob(sha256(s.uploads[id])) is None || s.blob(sha256(s.uploads[id])) == Some(
            s.uploads[id],
        ),
    ensures
        s.finalize_result(id, sha256(s.uploads[id])) is Ok,
        s.finalize(id, sha256(s.uploads[id])).blob(sha256(s.uploads[id])) == Some(s.uploads[id]),
        !s.finalize(id, sha256(s.uploads[id])).uploads.contains_key(id),
{
}

/// Two uploads that hold the same bytes can both be finalized under the digest of
/// those bytes, one after the other: both calls succeed, and the blob is those bytes.
pub proof fn lemma_same_bytes_commit_twice(s: StorageView, first: u128, second: u128)
    requires
        first != second,
        s.uploads.contains_key(first),
        s.uploads.contains_key(second),
        s.uploads[first] == s.uploads[second],
        s.blob(sha256(s.uploads[first])) is None || s.blob(sha256(s.uploads[first])) == Some(
            s.uploads[first],
        ),
    ensures
        ({
            let d = sha256(s.uploads[first]);
            let once = s.finalize(first, d);
            &&& s.finalize_result(first, d) is Ok
            &&& once.finalize_result(second, d) is Ok
            &&& once.finalize(second, d).blob(d) == Some(s.uploads[first])
            &&& once.finalize(second, d).blobs == once.blobs
        }),
{
}

/// A blob that is served hashes to the digest that it is served under, in every valid
/// store; so does what a finalized upload is served as, whatever was stored before.
pub proof fn lemma_served_blob_hashes_to_its_digest(s: StorageView, id: u128, d: Seq<u8>)
    requires
        s.valid(),
    ensures
        s.blob(d) matches Some(bytes) ==> sha256(bytes) == d,
        s.finalize_result(id, d) is Ok ==> (s.finalize(id, d).blob(d) matches Some(bytes)
            && sha256(bytes) == d),
{
    assert(s.blobs.contains_key(d) ==> sha256(s.blobs[d]) == d);
}

/// Finalizing an upload under a digest that its bytes do not hash to fails, discards
/// the upload and leaves every blob as it was: what was not served before, under the
/// given digest or under the true one, is not served after.
pub proof fn lemma_mismatch_commits_nothing(s: StorageView, id: u128, expected: Seq<u8>)
    requires
        s.uploads.contains_key(id),
        sha256(s.uploads[id]) != expected,
    ensures
        s.finalize_result(id, expected) == Err::<(), StorageError>(StorageError::DigestMismatch),
        s.finalize(id, expected).blobs == s.blobs,
        s.finalize(id, expected).blob(expected) == s.blob(expected),
        s.finalize(id, expected).blob(sha256(s.uploads[id])) == s.blob(sha256(s.uploads[id])),
        !s.finalize(id, expected).uploads.contains_key(id),
        s.finalize(id, expected).manifests == s.manifests,
        s.finalize(id, expected).tags == s.tags,
{
}

/// A manifest stored under a tag is served under that tag and under its own digest,
/// byte for byte.
pub proof fn lemma_tagged_manifest_is_served_twice(
    s: StorageView,
    location: LocationView,
    tag: Seq<char>,
    bytes: Seq<u8>,
)
    ensures
        StorageView::put_manifest_result(ReferenceView::Tag(tag), bytes) == Ok::<
            Seq<u8>,
            StorageError,
        >(sha256(bytes)),
        s.put_manifest(location, ReferenceView::Tag(tag), bytes).manifest(
            location,
            ReferenceView::Tag(tag),
        ) == Some(bytes),
        s.put_manifest(location, ReferenceView::Tag(tag), bytes).manifest(
            location,
            ReferenceView::Digest(sha256(bytes)),
        ) == Some(bytes),
{
}

/// A tag names the manifest that was stored under it last; the one stored before stays
/// served under its own digest.
pub proof fn lemma_tag_names_the_latest(
    s: StorageView,
    location: LocationView,
    tag: Seq<char>,
    first: Seq<u8>,
    second: Seq<u8>,
)
    ensures
        ({
            let by_tag = ReferenceView::Tag(tag);
            let after = s.put_manifest(location, by_tag, first).put_manifest(
                location,
                by_tag,
                second,
            );
            &&& after.manifest(location, by_tag) == Some(second)
            &&& sha256(first) != sha256(second) ==> after.manifest(
                location,
                ReferenceView::Digest(sha256(first)),
            ) == Some(first)
        }),
{
}

/// Each step of the store touches only what it names: other uploads, other blobs, and
/// manifests and tags at other places stay as they were.
pub proof fn lemma_steps_leave_the_rest(
    s: StorageView,
    id: u128,
    chunk: Seq<u8>,
    expected: Seq<u8>,
    location: LocationView,
    reference: ReferenceView,
    bytes: Seq<u8>,
)
    ensures
        s.begin_upload(id).uploads.remove(id) == s.uploads.remove(id),
        s.begin_upload(id).blobs == s.blobs,
        s.begin_upload(id).manifests == s.manifests,
        s.begin_upload(id).tags == s.tags,
        s.write(id, chunk).uploads.remove(id) == s.uploads.remove(id),
        s.write(id, chunk).blobs == s.blobs,
        s.write(id, chunk).manifests == s.manifests,
        s.write(id, chunk).tags == s.tags,
        s.finalize(id, expected).uploads == s.uploads.remove(id),
        s.finalize(id, expected).blobs.remove(expected) == s.blobs.remove(expected),
        s.blobs.contains_key(expected) ==> s.finalize(id, expected).blobs == s.blobs,
        s.finalize(id, expected).manifests == s.manifests,
        s.finalize(id, expected).tags == s.tags,
        s.put_manifest(location, reference, bytes).uploads == s.uploads,
        s.put_manifest(location, reference, bytes).blobs == s.blobs,
        s.put_manifest(location, reference, bytes).manifests.remove((location, sha256(bytes)))
            == s.manifests.remove((location, sha256(bytes))),
        match reference {
            ReferenceView::Tag(tag) => s.put_manifest(location, reference, bytes).tags.remove(
                (location, tag),
            ) == s.tags.remove((location, tag)),
            ReferenceView::Digest(_) => s.put_manifest(location, reference, bytes).tags == s.tags,
        },
{
    assert(s.begin_upload(id).uploads.remove(id) =~= s.uploads.remove(id));
    assert(s.write(id, chunk).uploads.remove(id) =~= s.uploads.remove(id));
    assert(s.finalize(id, expected).uploads =~= s.uploads.remove(id));
    assert(s.finalize(id, expected).blobs.remove(expected) =~= s.blobs.remove(expected));
    assert(s.put_manifest(location, reference, bytes).manifests.remove((location, sha256(bytes)))
        =~= s.manifests.remove((location, sha256(bytes))));
    if let ReferenceView::Tag(tag) = reference {
        assert(s.put_manifest(location, reference, bytes).tags.remove((location, tag))
            =~= s.tags.remove((location, tag)));
    }
}

/// A manifest stored under its own digest is served under that digest, byte for byte;
/// under another digest the store refuses it.
pub proof fn lemma_manifest_by_digest(
    s: StorageView,
    location: LocationView,
    d: Seq<u8>,
    bytes: Seq<u8>,
)
    ensures
        d == sha256(bytes) ==> s.put_manifest(location, ReferenceView::Digest(d), bytes).manifest(
            location,
            ReferenceView::Digest(d),
        ) == Some(bytes),
        d != sha256(bytes) ==> StorageView::put_manifest_result(ReferenceView::Digest(d), bytes)
            == Err::<Seq<u8>, StorageError>(StorageError::DigestMismatch),
{
}

/// A manifest that is served by digest hashes to that digest, in every valid store.
pub proof fn lemma_served_manifest_hashes_to_its_digest(
    s: StorageView,
    location: LocationView,
    d: Seq<u8>,
)
    requires
        s.valid(),
    ensures
        s.manifest(location, ReferenceView::Digest(d)) matches Some(bytes) ==> sha256(bytes) == d,
{
    assert(s.manifests.contains_key((location, d)) ==> sha256(s.manifests[(location, d)]) == d);
}

/// The key of a manifest: where it is stored, and its digest.
pub struct ManifestKey {
    location: ImageLocation,
    digest: Digest,
}

impl View for ManifestKey {
    type V = (LocationView, Seq<u8>);

    closed spec fn view(&self) -> (LocationView, Seq<u8>) {
        (self.location@, self.digest@)
    }
}

impl Key for ManifestKey {
    fn same_key(&self, other: &ManifestKey) -> (same: bool) {
        self.location.same(&other.location) && self.digest == other.digest
    }
}

/// The key of a tag: where it is stored, and its name.
pub struct TagKey {
    location: ImageLocation,
    tag: String,
}

impl View for TagKey {
    type V = (LocationView, Seq<char>);

    closed spec fn view(&self) -> (LocationView, Seq<char>) {
        (self.location@, self.tag@)
    }
}

impl Key for TagKey {
    fn same_key(&self, other: &TagKey) -> (same: bool) {
        self.location.same(&other.location) && self.tag == other.tag
    }
}

/// A handle for writing to the end of one upload.
#[derive(Clone, Copy, Debug)]
pub struct UploadWriter {
    upload: UploadId,
}

impl UploadWriter {
    /// The upload that the writer writes to.
    #[verifier::when_used_as_spec(spec_upload)]
    pub fn upload(&self) -> (upload: UploadId)
        ensures
            upload == self.spec_upload(),
    {
        self.upload
    }

    /// The upload that the writer writes to.
    pub closed spec fn spec_upload(&self) -> UploadId {
        self.upload
    }
}

/// Adds `more` to the end of `bytes`.
fn append_bytes(bytes: &mut Vec<u8>, more: &[u8])
    ensures
        final(bytes)@ == old(bytes)@ + more@,
{
    let mut i: usize = 0;
    while i < more.len()
        invariant
            i <= more@.len(),
            bytes@ == old(bytes)@ + more@.take(i as int),
        decreases more@.len() - i,
    {
        bytes.push(more[i]);
        i = i + 1;
        assert(bytes@ =~= old(bytes)@ + more@.take(i as int));
    }
    assert(more@.take(i as int) =~= more@);
}

/// A store in memory.
pub struct MemoryStorage {
    uploads: Table<UploadId, Vec<u8>>,
    blobs: Table<Digest, Vec<u8>>,
    manifests: Table<ManifestKey, Vec<u8>>,
    tags: Table<TagKey, Digest>,
}

impl View for MemoryStorage {
    type V = StorageView;

    closed spec fn view(&self) -> StorageView {
        StorageView {
            uploads: self.uploads@,
            blobs: self.blobs@,
            manifests: self.manifests@,
            tags: self.tags@,
        }
    }
}

impl MemoryStorage {
    /// The store is well formed: what it holds is valid.
    pub closed spec fn wf(&self) -> bool {
        &&& self.uploads.wf()
        &&& self.blobs.wf()
        &&& self.manifests.wf()
        &&& self.tags.wf()
        &&& self@.valid()
    }

    /// What a well-formed store holds is valid.
    pub proof fn lemma_wf_is_valid(&self)
        requires
            self.wf(),
        ensures
            self@.valid(),
    {
    }

    /// Staging and writing leave a well-formed store valid.
    proof fn lemma_step_keeps_valid(&self, id: u128, chunk: Seq<u8>)
        requires
            self.wf(),
        ensures
            self@.begin_upload(id).valid(),
            self@.write(id, chunk).valid(),
    {
        lemma_steps_keep_valid(
            self@,
            id,
            chunk,
            Seq::empty(),
            (Seq::empty(), Seq::empty()),
            ReferenceView::Digest(Seq::empty()),
            Seq::empty(),
        );
    }

    /// An empty store.
    pub fn new() -> (storage: MemoryStorage)
        ensures
            storage.wf(),
            storage@ == StorageView::empty(),
    {
        MemoryStorage {
            uploads: Table::new(),
            blobs: Table::new(),
            manifests: Table::new(),
            tags: Table::new(),
        }
    }

    /// Stages an empty upload under `upload`, in place of any upload with that id.
    pub fn begin_upload(&mut self, upload: UploadId)
        requires
            old(self).wf(),
        ensures
            final(self).wf(),
            final(self)@ == old(self)@.begin_upload(upload@),
    {
        self.uploads.insert(upload, Vec::new());
        proof {
            old(self).lemma_step_keeps_valid(upload@, Seq::empty());
        }
    }

    /// Stages an empty upload under a new random id, a UUID of version 4, and gives the
    /// id.
    pub fn begin_new_upload(&mut self) -> (upload: UploadId)
        requires
            old(self).wf(),
        ensures
            final(self).wf(),
            is_random_uuid(upload@),
            final(self)@ == old(self)@.begin_upload(upload@),
    {
        let upload = UploadId::generate();
        self.begin_upload(upload);
        upload
    }

    /// A writer to the end of the upload `upload`. The upload must exist, and the writer
    /// can only start at offset 0.
    pub fn get_upload_writer(&self, offset: u64, upload: UploadId) -> (r: Result<
        UploadWriter,
        StorageError,
    >)
        requires
            self.wf(),
        ensures
            match r {
                Ok(writer) => self@.uploads.contains_key(upload@) && offset == 0
                    && writer.upload() == upload,
                Err(e) => if !self@.uploads.contains_key(upload@) {
                    e == StorageError::NotFound
                } else {
                    offset != 0 && e == StorageError::NotSupported
                },
            },
    {
        if !self.uploads.contains_key(&upload) {
            Err(StorageError::NotFound)
        } else if offset != 0 {
            Err(StorageError::NotSupported)
        } else {
            Ok(UploadWriter { upload })
        }
    }

    /// Writes `chunk` to the end of the writer's upload. Fails, and changes nothing,
    /// where the upload no longer exists.
    pub fn write_all(&mut self, writer: &UploadWriter, chunk: &[u8]) -> (r: Result<
        (),
        StorageError,
    >)
        requires
            old(self).wf(),
        ensures
            final(self).wf(),
            final(self)@ == old(self)@.write(writer.upload()@, chunk@),
            r == if old(self)@.uploads.contains_key(writer.upload()@) {
                Ok::<(), StorageError>(())
            } else {
                Err::<(), StorageError>(StorageError::NotFound)
            },
    {
        match self.uploads.remove(&writer.upload) {
            Some(staged) => {
                let mut staged = staged;
                append_bytes(&mut staged, chunk);
                self.uploads.insert(writer.upload, staged);
                assert(self.uploads@ =~= old(self)@.uploads.insert(
                    writer.upload@,
                    old(self)@.uploads[writer.upload@] + chunk@,
                ));
                proof {
                    old(self).lemma_step_keeps_valid(writer.upload@, chunk@);
                }
                Ok(())
            },
            None => {
                assert(self.uploads@ =~= old(self)@.uploads);
                Err(StorageError::NotFound)
            },
        }
    }

    /// The number of bytes staged for `upload`, if it exists.
    pub fn upload_len(&self, upload: UploadId) -> (len: Option<u64>)
        requires
            self.wf(),
        ensures
            match len {
                Some(n) => self@.uploads.contains_key(upload@) && n == self@.uploads[upload@].len(),
                None => !self@.uploads.contains_key(upload@),
            },
    {
        match self.uploads.get(&upload) {
            Some(staged) => Some(staged.len() as u64),
            None => None,
        }
    }

    /// Closes the upload and commits its bytes as the blob `expected`, if they hash to
    /// that digest. An upload that exists leaves the staging area either way.
    pub fn finalize_upload(&mut self, upload: UploadId, expected: Digest) -> (r: Result<
        (),
        StorageError,
    >)
        requires
            old(self).wf(),
        ensures
            final(self).wf(),
            final(self)@ == old(self)@.finalize(upload@, expected@),
            r == old(self)@.finalize_result(upload@, expected@),
    {
        proof {
            lemma_steps_keep_valid(
                self@,
                upload@,
                Seq::empty(),
                expected@,
                (Seq::empty(), Seq::empty()),
                ReferenceView::Digest(Seq::empty()),
                Seq::empty(),
            );
        }
        match self.uploads.remove(&upload) {
            None => {
                assert(self.uploads@ =~= old(self)@.uploads);
                Err(StorageError::NotFound)
            },
            Some(staged) => {
                let actual = Digest::from_contents(staged.as_slice());
                let stored = self.blobs.contains_key(&expected);
                match finalize_action(&actual, &expected, stored) {
                    FinalizeAction::Discard => Err(StorageError::DigestMismatch),
                    FinalizeAction::AlreadyStored => Ok(()),
                    FinalizeAction::Commit => {
                        self.blobs.insert(expected, staged);
                        Ok(())
                    },
                }
            },
        }
    }

    /// The bytes of the blob `digest`, if it is stored.
    pub fn get_blob_reader(&self, digest: Digest) -> (bytes: Option<Vec<u8>>)
        requires
            self.wf(),
        ensures
            match bytes {
                Some(b) => self@.blob(digest@) == Some(b@),
                None => self@.blob(digest@) is None,
            },
    {
        match self.blobs.get(&digest) {
            Some(stored) => Some(slice_to_vec(stored.as_slice())),
            None => None,
        }
    }

    /// The size of the blob `digest`, if it is stored.
    pub fn get_blob_metadata(&self, digest: Digest) -> (metadata: Option<BlobMetadata>)
        requires
            self.wf(),
        ensures
            match metadata {
                Some(m) => self@.blob(digest@) matches Some(b) && m.size() == b.len(),
                None => self@.blob(digest@) is None,
            },
    {
        match self.blobs.get(&digest) {
            Some(stored) => Some(BlobMetadata::new(stored.len() as u64)),
            None => None,
        }
    }

    /// Stores the manifest `bytes` under its own digest, and lets a tag name that
    /// digest. A reference by another digest is refused, after the bytes were stored.
    pub fn put_manifest(&mut self, reference: &ManifestReference, bytes: &[u8]) -> (r: Result<
        Digest,
        StorageError,
    >)
        requires
            old(self).wf(),
        ensures
            final(self).wf(),
            final(self)@ == old(self)@.put_manifest(reference@.0, reference@.1, bytes@),
            match StorageView::put_manifest_result(reference@.1, bytes@) {
                Ok(d) => r matches Ok(digest) && digest@ == d,
                Err(e) => r matches Err(err) && err == e,
            },
    {
        proof {
            lemma_steps_keep_valid(
                self@,
                0,
                Seq::empty(),
                Seq::empty(),
                reference@.0,
                reference@.1,
                bytes@,
            );
        }
        let digest = Digest::from_contents(bytes);
        let key = ManifestKey { location: reference.location().clone(), digest };
        self.manifests.insert(key, slice_to_vec(bytes));
        match reference.reference() {
            Reference::Tag(tag) => {
                let key = TagKey { location: reference.location().clone(), tag: tag.clone() };
                self.tags.insert(key, digest);
            },
            Reference::Digest(_) => {},
        }
        check_manifest_digest(reference.reference(), digest)
    }

    /// The bytes of the manifest that `reference` names, if it is stored.
    pub fn get_manifest(&self, reference: &ManifestReference) -> (bytes: Option<Vec<u8>>)
        requires
            self.wf(),
        ensures
            match bytes {
                Some(b) => self@.manifest(reference@.0, reference@.1) == Some(b@),
                None => self@.manifest(reference@.0, reference@.1) is None,
            },
    {
        let digest = match reference.reference() {
            Reference::Digest(digest) => *digest,
            Reference::Tag(tag) => {
                let key = TagKey { location: reference.location().clone(), tag: tag.clone() };
                match self.tags.get(&key) {
                    Some(digest) => *digest,
                    None => {
                        return None;
                    },
                }
            },
        };
        let key = ManifestKey { location: reference.location().clone(), digest };
        match self.manifests.get(&key) {
            Some(stored) => Some(slice_to_vec(stored.as_slice())),
            None => None,
        }
    }
}

} // verus!
