//! The registry: one handler for each endpoint of the push and pull protocol, over the
//! store and behind the authentication gate.

use crate::auth::{authenticate, authorized_user, AuthProvider};
use crate::digest::{
    image_digest_text, lemma_parse_of_format, parsed_image_digest, sha256, Digest, ImageDigest,
};
use crate::error::{realm_text, www_authenticate_text, RegistryError, RegistryErrorView};
use crate::manifest::json_string_member;
use crate::protocol::{
    blob_check_response, blob_check_response_view, blob_get_response, blob_get_response_view,
    check_finalize_body, check_range, finalize_body_check, finalize_response,
    finalize_response_view, index_response, index_response_view, manifest_get_outcome,
    manifest_get_response, manifest_put_response, manifest_put_response_view,
    manifest_response_view, range_check, UploadState, UploadStateView,
};
use crate::response::{
    header_view, Response, ResponseView, STATUS_BAD_REQUEST, STATUS_INTERNAL_SERVER_ERROR,
    STATUS_NOT_FOUND, STATUS_OK, STATUS_UNAUTHORIZED,
};
use crate::storage::{
    is_random_uuid, ImageLocation, LocationView, ManifestReference, ReferenceView, StorageError,
    UploadId,
};
use crate::store::{lemma_steps_keep_valid, MemoryStorage, StorageView};
use vstd::prelude::*;
use vstd::utf8::encode_utf8;

verus! {

/// What comes in of a request body: a chunk of bytes, or the news that the stream
/// broke off.
#[derive(Clone, Debug, PartialEq, Eq)]
pub enum Incoming {
    /// The next bytes of the body.
    Chunk(Vec<u8>),
    /// The client's stream could not be read any further.
    Aborted,
}

/// The bytes that were received of a body: those of its chunks, up to the end or to the
/// place where the stream broke off.
pub open spec fn received(body: Seq<Incoming>) -> Seq<u8>
    decreases body.len(),
{
    if body.len() == 0 {
        Seq::empty()
    } else {
        match body.first() {
            Incoming::Chunk(bytes) => bytes@ + received(body.drop_first()),
            Incoming::Aborted => Seq::empty(),
        }
    }
}

/// The stream of the body broke off.
pub open spec fn aborted(body: Seq<Incoming>) -> bool {
    exists|i: int| 0 <= i < body.len() && #[trigger] body[i] is Aborted
}

/// The size of the blob `d` in `s`, if it is stored.
pub open spec fn blob_size(s: StorageView, d: Seq<u8>) -> Option<u64> {
    match s.blob(d) {
        Some(bytes) => Some(bytes.len() as u64),
        None => None,
    }
}

/// The digest under which a request for a blob reaches the store, if it does: the
/// request is authorized and its digest is well formed, tested in this order.
pub open spec fn blob_request_digest(accepted: bool, digest: Seq<char>) -> Result<
    Seq<u8>,
    RegistryErrorView,
> {
    if !accepted {
        Err(RegistryErrorView::AuthRequired)
    } else {
        match parsed_image_digest(encode_utf8(digest)) {
            Err(e) => Err(RegistryErrorView::ParseDigest(e)),
            Ok(d) => Ok(d),
        }
    }
}

/// Decides under which digest a request for a blob reaches the store, if it does: from
/// whether its credentials were accepted, and the digest in its URL.
pub fn blob_request(accepted: bool, digest: &str) -> (r: Result<ImageDigest, RegistryError>)
    ensures
        match blob_request_digest(accepted, digest@) {
            Ok(d) => r matches Ok(image) && image@ == d,
            Err(e) => r matches Err(err) && err@ == e,
        },
{
    if !accepted {
        return Err(RegistryError::AuthRequired);
    }
    match ImageDigest::from_str(digest) {
        Ok(image) => Ok(image),
        Err(e) => Err(RegistryError::ParseDigest(e)),
    }
}

/// How a check for a blob ends.
pub open spec fn blob_check_result(s: StorageView, accepted: bool, digest: Seq<char>) -> Result<
    ResponseView,
    RegistryErrorView,
> {
    match blob_request_digest(accepted, digest) {
        Err(e) => Err(e),
        Ok(d) => Ok(blob_check_response_view(d, blob_size(s, d))),
    }
}

/// How a request for a blob ends.
pub open spec fn blob_get_result(s: StorageView, accepted: bool, digest: Seq<char>) -> Result<
    ResponseView,
    RegistryErrorView,
> {
    match blob_request_digest(accepted, digest) {
        Err(e) => Err(e),
        Ok(d) => match s.blob(d) {
            Some(bytes) => Ok(blob_get_response_view(bytes)),
            None => Err(RegistryErrorView::NotFound),
        },
    }
}

/// Whether a request with a body for an upload reaches the store: it is authorized and
/// carries no range, tested in this order.
pub open spec fn upload_chunk_check(accepted: bool, has_range: bool) -> Result<
    (),
    RegistryErrorView,
> {
    if !accepted {
        Err(RegistryErrorView::AuthRequired)
    } else {
        range_check(has_range)
    }
}

/// Decides whether a request with a body for an upload reaches the store, from whether
/// its credentials were accepted and whether it has a `Range` header.
pub fn chunk_request(accepted: bool, has_range: bool) -> (r: Result<(), RegistryError>)
    ensures
        match upload_chunk_check(accepted, has_range) {
            Ok(_) => r is Ok,
            Err(e) => r matches Err(err) && err@ == e,
        },
{
    if !accepted {
        return Err(RegistryError::AuthRequired);
    }
    check_range(has_range)
}

/// How a body for an upload ends: it is taken where the request is authorized, carries
/// no range and names an upload that exists, and where the stream did not break off.
pub open spec fn upload_add_chunk_result(
    s: StorageView,
    accepted: bool,
    location: LocationView,
    upload: u128,
    has_range: bool,
    body: Seq<Incoming>,
) -> Result<UploadStateView, RegistryErrorView> {
    match upload_chunk_check(accepted, has_range) {
        Err(e) => Err(e),
        Ok(_) => if !s.uploads.contains_key(upload) {
            Err(RegistryErrorView::Storage(StorageError::NotFound))
        } else if aborted(body) {
            Err(RegistryErrorView::IncomingReadFailed)
        } else {
            Ok((location, Some(received(body).len() as u64), upload))
        },
    }
}

/// The store after a body for an upload: what was received of it stands at the end of
/// the upload, also where the stream broke off; a request that was refused changed
/// nothing.
pub open spec fn upload_add_chunk_storage(
    s: StorageView,
    accepted: bool,
    upload: u128,
    has_range: bool,
    body: Seq<Incoming>,
) -> StorageView {
    if accepted && !has_range {
        s.write(upload, received(body))
    } else {
        s
    }
}

/// The digest under which a finalize request reaches the store, if it does: the request
/// is authorized, carries no body, and its digest is well formed.
pub open spec fn upload_finalize_digest(
    accepted: bool,
    digest: Seq<char>,
    content_length: Option<Seq<char>>,
) -> Result<Seq<u8>, RegistryErrorView> {
    if !accepted {
        Err(RegistryErrorView::AuthRequired)
    } else {
        match finalize_body_check(content_length) {
            Err(e) => Err(e),
            Ok(_) => match parsed_image_digest(encode_utf8(digest)) {
                Err(e) => Err(RegistryErrorView::ParseDigest(e)),
                Ok(d) => Ok(d),
            },
        }
    }
}

/// Decides under which digest a finalize request reaches the store, if it does: from
/// whether its credentials were accepted, the digest in its query, and the value of its
/// `Content-Length` header, tested in this order.
pub fn finalize_request(accepted: bool, digest: &str, content_length: Option<&str>) -> (r: Result<
    ImageDigest,
    RegistryError,
>)
    ensures
        match upload_finalize_digest(accepted, digest@, header_view(content_length)) {
            Ok(d) => r matches Ok(image) && image@ == d,
            Err(e) => r matches Err(err) && err@ == e,
        },
{
    if !accepted {
        return Err(RegistryError::AuthRequired);
    }
    match check_finalize_body(content_length) {
        Ok(_) => {},
        Err(e) => {
            return Err(e);
        },
    }
    match ImageDigest::from_str(digest) {
        Ok(image) => Ok(image),
        Err(e) => Err(RegistryError::ParseDigest(e)),
    }
}

/// How a finalize request ends.
pub open spec fn upload_finalize_result(
    s: StorageView,
    accepted: bool,
    location: LocationView,
    upload: u128,
    digest: Seq<char>,
    content_length: Option<Seq<char>>,
) -> Result<ResponseView, RegistryErrorView> {
    match upload_finalize_digest(accepted, digest, content_length) {
        Err(e) => Err(e),
        Ok(d) => match s.finalize_result(upload, d) {
            Err(e) => Err(RegistryErrorView::Storage(e)),
            Ok(_) => Ok(finalize_response_view(location, upload, d)),
        },
    }
}

/// The store after a finalize request.
pub open spec fn upload_finalize_storage(
    s: StorageView,
    accepted: bool,
    upload: u128,
    digest: Seq<char>,
    content_length: Option<Seq<char>>,
) -> StorageView {
    match upload_finalize_digest(accepted, digest, content_length) {
        Err(_) => s,
        Ok(d) => s.finalize(upload, d),
    }
}

/// How storing a manifest ends.
pub open spec fn manifest_put_result(
    accepted: bool,
    location: LocationView,
    reference: ReferenceView,
    body: Seq<u8>,
) -> Result<ResponseView, RegistryErrorView> {
    if !accepted {
        Err(RegistryErrorView::AuthRequired)
    } else {
        match StorageView::put_manifest_result(reference, body) {
            Err(e) => Err(RegistryErrorView::Storage(e)),
            Ok(d) => Ok(manifest_put_response_view(location, reference, d)),
        }
    }
}

/// The store after a manifest was put.
pub open spec fn manifest_put_storage(
    s: StorageView,
    accepted: bool,
    location: LocationView,
    reference: ReferenceView,
    body: Seq<u8>,
) -> StorageView {
    if accepted {
        s.put_manifest(location, reference, body)
    } else {
        s
    }
}

/// How a request for a manifest ends.
pub open spec fn manifest_get_result(
    s: StorageView,
    accepted: bool,
    location: LocationView,
    reference: ReferenceView,
) -> Result<ResponseView, RegistryErrorView> {
    if !accepted {
        Err(RegistryErrorView::AuthRequired)
    } else {
        match s.manifest(location, reference) {
            None => Err(RegistryErrorView::NotFound),
            Some(bytes) => manifest_get_outcome(bytes),
        }
    }
}

/// A request without an `Authorization` header is not authorized, whoever the provider
/// is.
pub proof fn lemma_no_header_is_refused<A: AuthProvider>(provider: &A)
    ensures
        authorized_user(provider, None) is None,
{
}

/// A request that is not authorized is answered with 401 and the challenge for the
/// realm, at every endpoint, and leaves the store as it was.
pub proof fn lemma_unauthorized_changes_nothing(
    s: StorageView,
    location: LocationView,
    upload: u128,
    has_range: bool,
    chunks: Seq<Incoming>,
    body: Seq<u8>,
    digest: Seq<char>,
    content_length: Option<Seq<char>>,
    reference: ReferenceView,
)
    ensures
        index_response_view(realm_text(), false).status == STATUS_UNAUTHORIZED,
        blob_check_result(s, false, digest) == Err::<ResponseView, RegistryErrorView>(
            RegistryErrorView::AuthRequired,
        ),
        blob_get_result(s, false, digest) == Err::<ResponseView, RegistryErrorView>(
            RegistryErrorView::AuthRequired,
        ),
        upload_add_chunk_result(s, false, location, upload, has_range, chunks) == Err::<
            UploadStateView,
            RegistryErrorView,
        >(RegistryErrorView::AuthRequired),
        upload_add_chunk_storage(s, false, upload, has_range, chunks) == s,
        upload_finalize_result(s, false, location, upload, digest, content_length) == Err::<
            ResponseView,
            RegistryErrorView,
        >(RegistryErrorView::AuthRequired),
        upload_finalize_storage(s, false, upload, digest, content_length) == s,
        manifest_put_result(false, location, reference, body) == Err::<
            ResponseView,
            RegistryErrorView,
        >(RegistryErrorView::AuthRequired),
        manifest_put_storage(s, false, location, reference, body) == s,
        manifest_get_result(s, false, location, reference) == Err::<
            ResponseView,
            RegistryErrorView,
        >(RegistryErrorView::AuthRequired),
        RegistryErrorView::AuthRequired.response().status == STATUS_UNAUTHORIZED,
        RegistryErrorView::AuthRequired.response().header("WWW-Authenticate"@) == Some(
            www_authenticate_text(realm_text()),
        ),
{
    let headers = RegistryErrorView::AuthRequired.response().headers;
    assert(headers[0].0 == "WWW-Authenticate"@);
}

/// A blob pushed whole is served byte for byte: after an upload was started, took the
/// whole body in one request, in whatever chunks, and was finalized under the digest of
/// the body, a request for that digest is answered with the body, and a check with its
/// size. This holds where the store held no other bytes under that digest before.
pub proof fn lemma_pushed_blob_is_served(
    s: StorageView,
    location: LocationView,
    upload: u128,
    chunks: Seq<Incoming>,
    digest: Digest,
)
    requires
        !aborted(chunks),
        digest@ == sha256(received(chunks)),
        s.blob(digest@) is None || s.blob(digest@) == Some(received(chunks)),
    ensures
        ({
            let body = received(chunks);
            let text = image_digest_text(digest@);
            let started = s.begin_upload(upload);
            let written = upload_add_chunk_storage(started, true, upload, false, chunks);
            let committed = upload_finalize_storage(written, true, upload, text, None);
            &&& started.uploads.contains_key(upload) && started.uploads[upload] == Seq::<
                u8,
            >::empty()
            &&& written.uploads.contains_key(upload) && written.uploads[upload] == body
            &&& !committed.uploads.contains_key(upload)
            &&& upload_add_chunk_result(started, true, location, upload, false, chunks) == Ok::<
                UploadStateView,
                RegistryErrorView,
            >((location, Some(body.len() as u64), upload))
            &&& upload_finalize_result(written, true, location, upload, text, None) == Ok::<
                ResponseView,
                RegistryErrorView,
            >(finalize_response_view(location, upload, digest@))
            &&& blob_get_result(committed, true, text) == Ok::<ResponseView, RegistryErrorView>(
                blob_get_response_view(body),
            )
            &&& blob_check_result(committed, true, text) == Ok::<ResponseView, RegistryErrorView>(
                blob_check_response_view(digest@, Some(body.len() as u64)),
            )
        }),
{
    digest.lemma_view(digest);
    lemma_parse_of_format(digest@);
    let started = s.begin_upload(upload);
    assert(started.uploads[upload] + received(chunks) =~= received(chunks));
}

/// A blob pushed whole is served in every valid store, whatever it held before: each
/// step of the push succeeds, and a request for the digest is answered with 200 and
/// bytes that hash to that digest. They are the body that was pushed, unless the store
/// already held other bytes under the digest, which finalize keeps.
pub proof fn lemma_pushed_blob_hashes_to_its_digest(
    s: StorageView,
    location: LocationView,
    upload: u128,
    chunks: Seq<Incoming>,
    digest: Digest,
)
    requires
        s.valid(),
        !aborted(chunks),
        digest@ == sha256(received(chunks)),
    ensures
        ({
            let body = received(chunks);
            let text = image_digest_text(digest@);
            let started = s.begin_upload(upload);
            let written = upload_add_chunk_storage(started, true, upload, false, chunks);
            let committed = upload_finalize_storage(written, true, upload, text, None);
            &&& upload_add_chunk_result(started, true, location, upload, false, chunks) == Ok::<
                UploadStateView,
                RegistryErrorView,
            >((location, Some(body.len() as u64), upload))
            &&& upload_finalize_result(written, true, location, upload, text, None) == Ok::<
                ResponseView,
                RegistryErrorView,
            >(finalize_response_view(location, upload, digest@))
            &&& committed.valid()
            &&& blob_get_result(committed, true, text) matches Ok(response) && response.status
                == STATUS_OK && sha256(response.body) == digest@ && (response.body == body
                || s.blob(digest@) == Some(response.body))
        }),
{
    digest.lemma_view(digest);
    lemma_parse_of_format(digest@);
    let started = s.begin_upload(upload);
    assert(started.uploads[upload] + received(chunks) =~= received(chunks));
    let written = started.write(upload, received(chunks));
    lemma_steps_keep_valid(
        s,
        upload,
        Seq::empty(),
        Seq::empty(),
        location,
        ReferenceView::Digest(Seq::empty()),
        Seq::empty(),
    );
    lemma_steps_keep_valid(
        started,
        upload,
        received(chunks),
        Seq::empty(),
        location,
        ReferenceView::Digest(Seq::empty()),
        Seq::empty(),
    );
    lemma_steps_keep_valid(
        written,
        upload,
        Seq::empty(),
        digest@,
        location,
        ReferenceView::Digest(Seq::empty()),
        Seq::empty(),
    );
    if s.blobs.contains_key(digest@) {
        assert(sha256(s.blobs[digest@]) == digest@);
    }
}

/// An upload finalized under a digest that its bytes do not hash to is refused with
/// 400; the upload is discarded, and every blob is served as before, or not served as
/// before.
pub proof fn lemma_wrong_digest_is_refused(
    s: StorageView,
    location: LocationView,
    upload: u128,
    digest: Digest,
)
    requires
        s.uploads.contains_key(upload),
        sha256(s.uploads[upload]) != digest@,
    ensures
        ({
            let text = image_digest_text(digest@);
            let after = upload_finalize_storage(s, true, upload, text, None);
            &&& upload_finalize_result(s, true, location, upload, text, None) == Err::<
                ResponseView,
                RegistryErrorView,
            >(RegistryErrorView::Storage(StorageError::DigestMismatch))
            &&& RegistryErrorView::Storage(StorageError::DigestMismatch).status()
                == STATUS_BAD_REQUEST
            &&& after.blobs == s.blobs
            &&& forall|text: Seq<char>| blob_get_result(after, true, text) == blob_get_result(s, true, text)
            &&& !after.uploads.contains_key(upload)
        }),
{
    digest.lemma_view(digest);
    lemma_parse_of_format(digest@);
}

/// A manifest stored under a tag is served under that tag and under its own digest,
/// byte for byte, with the media type that it declares.
pub proof fn lemma_tagged_manifest_is_served(
    s: StorageView,
    location: LocationView,
    tag: Seq<char>,
    body: Seq<u8>,
    media_type: Seq<char>,
)
    requires
        json_string_member(body, "mediaType"@) == Ok::<Option<Seq<char>>, Seq<char>>(
            Some(media_type),
        ),
    ensures
        ({
            let by_tag = ReferenceView::Tag(tag);
            let by_digest = ReferenceView::Digest(sha256(body));
            let stored = manifest_put_storage(s, true, location, by_tag, body);
            &&& manifest_put_result(true, location, by_tag, body) == Ok::<
                ResponseView,
                RegistryErrorView,
            >(manifest_put_response_view(location, by_tag, sha256(body)))
            &&& manifest_get_result(stored, true, location, by_tag) == Ok::<
                ResponseView,
                RegistryErrorView,
            >(manifest_response_view(media_type, body))
            &&& manifest_get_result(stored, true, location, by_digest) == Ok::<
                ResponseView,
                RegistryErrorView,
            >(manifest_response_view(media_type, body))
        }),
{
}

/// A digest that is malformed is refused with 400 wherever a request names one, and
/// the store stays as it was.
pub proof fn lemma_malformed_digest_is_refused(
    s: StorageView,
    location: LocationView,
    upload: u128,
    digest: Seq<char>,
)
    requires
        parsed_image_digest(encode_utf8(digest)) is Err,
    ensures
        ({
            let e = RegistryErrorView::ParseDigest(parsed_image_digest(encode_utf8(digest))->Err_0);
            &&& e.status() == STATUS_BAD_REQUEST
            &&& blob_check_result(s, true, digest) == Err::<ResponseView, RegistryErrorView>(e)
            &&& blob_get_result(s, true, digest) == Err::<ResponseView, RegistryErrorView>(e)
            &&& upload_finalize_result(s, true, location, upload, digest, None) == Err::<
                ResponseView,
                RegistryErrorView,
            >(e)
            &&& upload_finalize_storage(s, true, upload, digest, None) == s
        }),
{
}

/// A body whose stream broke off is refused with 500. What was received of it stays
/// staged, and no blob appears or changes.
pub proof fn lemma_aborted_body_commits_nothing(
    s: StorageView,
    location: LocationView,
    upload: u128,
    body: Seq<Incoming>,
)
    requires
        s.uploads.contains_key(upload),
        aborted(body),
    ensures
        upload_add_chunk_result(s, true, location, upload, false, body) == Err::<
            UploadStateView,
            RegistryErrorView,
        >(RegistryErrorView::IncomingReadFailed),
        RegistryErrorView::IncomingReadFailed.status() == STATUS_INTERNAL_SERVER_ERROR,
        upload_add_chunk_storage(s, true, upload, false, body).blobs == s.blobs,
        upload_add_chunk_storage(s, true, upload, false, body).uploads[upload] == s.uploads[upload]
            + received(body),
{
}

/// A chunk with a `Range` header is refused with 500, whatever else the request holds,
/// and the store stays as it was.
pub proof fn lemma_ranged_chunk_is_refused(
    s: StorageView,
    location: LocationView,
    upload: u128,
    body: Seq<Incoming>,
)
    ensures
        upload_add_chunk_result(s, true, location, upload, true, body) matches Err(e) && e
            is NotSupported && e.status() == STATUS_INTERNAL_SERVER_ERROR,
        upload_add_chunk_storage(s, true, upload, true, body) == s,
{
}

/// A finalize request without a `Content-Length` is taken as one without a body; with a
/// `Content-Length` that is a number other than zero it is refused with 500, with one
/// that is no number with 400, and the store stays as it was.
pub proof fn lemma_finalize_body_is_refused(
    s: StorageView,
    location: LocationView,
    upload: u128,
    digest: Seq<char>,
    content_length: Seq<char>,
)
    ensures
        finalize_body_check(None) is Ok,
        finalize_body_check(Some(content_length)) matches Err(e) ==> {
            &&& upload_finalize_result(s, true, location, upload, digest, Some(content_length))
                == Err::<ResponseView, RegistryErrorView>(e)
            &&& upload_finalize_storage(s, true, upload, digest, Some(content_length)) == s
            &&& e is NotSupported || e is ContentLengthMalformed
            &&& e is NotSupported ==> e.status() == STATUS_INTERNAL_SERVER_ERROR
            &&& e is ContentLengthMalformed ==> e.status() == STATUS_BAD_REQUEST
        },
{
}

/// A stored manifest that is not JSON, or declares no media type, is not served: the
/// request is refused with 400.
pub proof fn lemma_unreadable_manifest_is_refused(
    s: StorageView,
    location: LocationView,
    reference: ReferenceView,
)
    requires
        s.manifest(location, reference) matches Some(bytes) && !(json_string_member(
            bytes,
            "mediaType"@,
        ) matches Ok(Some(_))),
    ensures
        manifest_get_result(s, true, location, reference) matches Err(e) && e is ParseManifest
            && e.status() == STATUS_BAD_REQUEST,
{
}

/// A manifest that is not stored is answered with 404, by tag and by digest.
pub proof fn lemma_missing_manifest_is_not_found(
    s: StorageView,
    location: LocationView,
    reference: ReferenceView,
)
    requires
        s.manifest(location, reference) is None,
    ensures
        manifest_get_result(s, true, location, reference) == Err::<
            ResponseView,
            RegistryErrorView,
        >(RegistryErrorView::NotFound),
        RegistryErrorView::NotFound.status() == STATUS_NOT_FOUND,
{
}

/// `r` is the answer `expected`.
pub open spec fn answers(
    r: Result<Response, RegistryError>,
    expected: Result<ResponseView, RegistryErrorView>,
) -> bool {
    match expected {
        Ok(response) => r matches Ok(given) && given@ == response,
        Err(e) => r matches Err(given) && given@ == e,
    }
}

/// `r` reports the upload state `expected`.
pub open spec fn reports(
    r: Result<UploadState, RegistryError>,
    expected: Result<UploadStateView, RegistryErrorView>,
) -> bool {
    match expected {
        Ok(state) => r matches Ok(given) && given@ == state,
        Err(e) => r matches Err(given) && given@ == e,
    }
}

/// What a stored manifest is answered with: the response, and the reference that the
/// hook sink is to be told of, once.
#[derive(Debug, PartialEq, Eq)]
pub struct ManifestUploaded {
    /// The answer to the client.
    pub response: Response,
    /// The reference under which the manifest was stored.
    pub reference: ManifestReference,
}

/// A container registry that stores OCI images.
pub struct ContainerRegistry<A: AuthProvider> {
    realm: String,
    auth_provider: A,
    storage: MemoryStorage,
}

impl<A: AuthProvider> ContainerRegistry<A> {
    /// The registry is well formed: its store is, and its realm is the fixed one.
    pub closed spec fn wf(&self) -> bool {
        &&& self.storage.wf()
        &&& self.realm@ == realm_text()
    }

    /// What the registry's store holds.
    pub closed spec fn storage_view(&self) -> StorageView {
        self.storage@
    }

    /// The provider that the registry asks about credentials.
    pub closed spec fn provider(&self) -> A {
        self.auth_provider
    }

    /// Whether a request with the given `Authorization` header is authorized.
    pub open spec fn accepts(&self, authorization: Option<Seq<char>>) -> bool {
        authorized_user(&self.provider(), authorization) is Some
    }

    /// What a well-formed registry stores is valid.
    pub proof fn lemma_wf_is_valid(&self)
        requires
            self.wf(),
        ensures
            self.storage_view().valid(),
    {
        self.storage.lemma_wf_is_valid();
    }

    /// Creates a registry with an empty store, which asks `auth_provider` about
    /// credentials.
    pub fn new(auth_provider: A) -> (registry: Self)
        ensures
            registry.wf(),
            registry.storage_view() == StorageView::empty(),
            registry.provider() == auth_provider,
    {
        ContainerRegistry {
            realm: String::from_str("ContainerRegistry"),
            auth_provider,
            storage: MemoryStorage::new(),
        }
    }

    /// The registry's store, for reading.
    pub fn storage(&self) -> (storage: &MemoryStorage)
        requires
            self.wf(),
        ensures
            storage.wf(),
            storage@ == self.storage_view(),
    {
        &self.storage
    }

    /// The base endpoint: tells whether the credentials are good. This is the one
    /// endpoint that answers a request without credentials itself.
    pub fn index_v2(&self, authorization: Option<&str>) -> (response: Response)
        requires
            self.wf(),
        ensures
            response@ == index_response_view(
                realm_text(),
                self.accepts(header_view(authorization)),
            ),
    {
        let accepted = authenticate(&self.auth_provider, authorization).is_some();
        index_response(self.realm.as_str(), accepted)
    }

    /// Tells the size and digest of a blob.
    pub fn blob_check(&self, authorization: Option<&str>, digest: &str) -> (r: Result<
        Response,
        RegistryError,
    >)
        requires
            self.wf(),
        ensures
            answers(
                r,
                blob_check_result(
                    self.storage_view(),
                    self.accepts(header_view(authorization)),
                    digest@,
                ),
            ),
    {
        let accepted = authenticate(&self.auth_provider, authorization).is_some();
        let image = match blob_request(accepted, digest) {
            Ok(image) => image,
            Err(e) => {
                return Err(e);
            },
        };
        let metadata = self.storage.get_blob_metadata(image.digest());
        Ok(blob_check_response(&image, metadata))
    }

    /// Serves a blob.
    pub fn blob_get(&self, authorization: Option<&str>, digest: &str) -> (r: Result<
        Response,
        RegistryError,
    >)
        requires
            self.wf(),
        ensures
            answers(
                r,
                blob_get_result(
                    self.storage_view(),
                    self.accepts(header_view(authorization)),
                    digest@,
                ),
            ),
    {
        let accepted = authenticate(&self.auth_provider, authorization).is_some();
        let image = match blob_request(accepted, digest) {
            Ok(image) => image,
            Err(e) => {
                return Err(e);
            },
        };
        match self.storage.get_blob_reader(image.digest()) {
            Some(bytes) => Ok(blob_get_response(bytes)),
            None => Err(RegistryError::NotFound),
        }
    }

    /// Starts an upload: stages an empty upload under a new random id, a UUID of version
    /// 4.
    pub fn upload_new(&mut self, authorization: Option<&str>, location: ImageLocation) -> (r:
        Result<UploadState, RegistryError>)
        requires
            old(self).wf(),
        ensures
            final(self).wf(),
            final(self).provider() == old(self).provider(),
            match r {
                Ok(state) => {
                    &&& old(self).accepts(header_view(authorization))
                    &&& state@.0 == location@
                    &&& state@.1 is None
                    &&& is_random_uuid(state@.2)
                    &&& final(self).storage_view() == old(self).storage_view().begin_upload(
                        state@.2,
                    )
                },
                Err(e) => !old(self).accepts(header_view(authorization)) && e@
                    == RegistryErrorView::AuthRequired && final(self).storage_view() == old(
                    self,
                ).storage_view(),
            },
    {
        if authenticate(&self.auth_provider, authorization).is_none() {
            return Err(RegistryError::AuthRequired);
        }
        let upload = self.storage.begin_new_upload();
        Ok(UploadState::new(location, None, upload))
    }

    /// Takes the body of a blob for an upload and writes it to the end of what is staged,
    /// chunk by chunk as it comes in. A request with a `Range` header is refused. Where
    /// the stream breaks off, what came before stays staged and the request fails.
    pub fn upload_add_chunk(
        &mut self,
        authorization: Option<&str>,
        location: ImageLocation,
        upload: UploadId,
        has_range: bool,
        body: &Vec<Incoming>,
    ) -> (r: Result<UploadState, RegistryError>)
        requires
            old(self).wf(),
        ensures
            final(self).wf(),
            final(self).provider() == old(self).provider(),
            final(self).storage_view() == upload_add_chunk_storage(
                old(self).storage_view(),
                old(self).accepts(header_view(authorization)),
                upload@,
                has_range,
                body@,
            ),
            reports(
                r,
                upload_add_chunk_result(
                    old(self).storage_view(),
                    old(self).accepts(header_view(authorization)),
                    location@,
                    upload@,
                    has_range,
                    body@,
                ),
            ),
    {
        let accepted = authenticate(&self.auth_provider, authorization).is_some();
        match chunk_request(accepted, has_range) {
            Ok(_) => {},
            Err(e) => {
                return Err(e);
            },
        }
        let writer = match self.storage.get_upload_writer(0, upload) {
            Ok(writer) => writer,
            Err(e) => {
                assert(self.storage@.write(upload@, received(body@)) == self.storage@);
                return Err(RegistryError::Storage(e));
            },
        };
        let before: u64 = match self.storage.upload_len(upload) {
            Some(n) => n,
            None => 0,
        };
        let ghost start = self.storage@;
        let ghost mut written: Seq<u8> = Seq::empty();
        let mut complete = true;
        let mut i: usize = 0;
        proof {
            assert(body@.skip(0) =~= body@);
            assert(start.uploads[upload@] + written =~= start.uploads[upload@]);
            assert(start.write(upload@, written).uploads =~= start.uploads);
        }
        while complete && i < body.len()
            invariant
                i <= body@.len(),
                self.storage.wf(),
                self.realm@ == realm_text(),
                self.auth_provider == old(self).auth_provider,
                writer.upload() == upload,
                start == old(self).storage@,
                start.uploads.contains_key(upload@),
                self.storage@ == start.write(upload@, written),
                complete ==> received(body@) == written + received(body@.skip(i as int)),
                complete ==> forall|j: int| 0 <= j < i ==> !(#[trigger] body@[j] is Aborted),
                !complete ==> received(body@) == written && aborted(body@),
            decreases body@.len() - i, complete as int,
        {
            let ghost rest = body@.skip(i as int);
            proof {
                assert(rest.first() == body@[i as int]);
                assert(rest.drop_first() =~= body@.skip(i + 1));
            }
            match &body[i] {
                Incoming::Chunk(bytes) => {
                    let _ = self.storage.write_all(&writer, bytes.as_slice());
                    proof {
                        assert(start.uploads[upload@] + written + bytes@ =~= start.uploads[upload@]
                            + (written + bytes@));
                        assert(written + (bytes@ + received(rest.drop_first())) =~= (written
                            + bytes@) + received(rest.drop_first()));
                        written = written + bytes@;
                        assert(self.storage@.uploads =~= start.write(upload@, written).uploads);
                    }
                    i = i + 1;
                },
                Incoming::Aborted => {
                    proof {
                        assert(written + Seq::<u8>::empty() =~= written);
                    }
                    complete = false;
                },
            }
        }
        if !complete {
            return Err(RegistryError::IncomingReadFailed);
        }
        proof {
            assert(written + Seq::<u8>::empty() =~= written);
        }
        let after: u64 = match self.storage.upload_len(upload) {
            Some(n) => n,
            None => before,
        };
        let completed: u64 = after - before;
        Ok(UploadState::new(location, Some(completed), upload))
    }

    /// Finalizes an upload: commits what is staged as the blob with the given digest,
    /// if it hashes to that digest. The request must not carry a body.
    pub fn upload_finalize(
        &mut self,
        authorization: Option<&str>,
        location: &ImageLocation,
        upload: UploadId,
        digest: &str,
        content_length: Option<&str>,
    ) -> (r: Result<Response, RegistryError>)
        requires
            old(self).wf(),
        ensures
            final(self).wf(),
            final(self).provider() == old(self).provider(),
            final(self).storage_view() == upload_finalize_storage(
                old(self).storage_view(),
                old(self).accepts(header_view(authorization)),
                upload@,
                digest@,
                header_view(content_length),
            ),
            answers(
                r,
                upload_finalize_result(
                    old(self).storage_view(),
                    old(self).accepts(header_view(authorization)),
                    location@,
                    upload@,
                    digest@,
                    header_view(content_length),
                ),
            ),
    {
        let accepted = authenticate(&self.auth_provider, authorization).is_some();
        let image = match finalize_request(accepted, digest, content_length) {
            Ok(image) => image,
            Err(e) => {
                return Err(e);
            },
        };
        match self.storage.finalize_upload(upload, image.digest()) {
            Ok(_) => Ok(finalize_response(location, upload, &image)),
            Err(e) => Err(RegistryError::Storage(e)),
        }
    }

    /// Stores a manifest under a tag or under its digest. On success the answer comes
    /// with the reference of which the hook sink is to be told.
    pub fn manifest_put(
        &mut self,
        authorization: Option<&str>,
        reference: ManifestReference,
        body: &[u8],
    ) -> (r: Result<ManifestUploaded, RegistryError>)
        requires
            old(self).wf(),
        ensures
            final(self).wf(),
            final(self).provider() == old(self).provider(),
            final(self).storage_view() == manifest_put_storage(
                old(self).storage_view(),
                old(self).accepts(header_view(authorization)),
                reference@.0,
                reference@.1,
                body@,
            ),
            match manifest_put_result(
                old(self).accepts(header_view(authorization)),
                reference@.0,
                reference@.1,
                body@,
            ) {
                Ok(response) => r matches Ok(stored) && stored.response@ == response
                    && stored.reference@ == reference@,
                Err(e) => r matches Err(given) && given@ == e,
            },
    {
        if authenticate(&self.auth_provider, authorization).is_none() {
            return Err(RegistryError::AuthRequired);
        }
        match self.storage.put_manifest(&reference, body) {
            Ok(digest) => {
                let response = manifest_put_response(&reference, digest);
                Ok(ManifestUploaded { response, reference })
            },
            Err(e) => Err(RegistryError::Storage(e)),
        }
    }

    /// Serves a manifest, by tag or by digest, under the media type that it declares.
    pub fn manifest_get(&self, authorization: Option<&str>, reference: &ManifestReference) -> (r:
        Result<Response, RegistryError>)
        requires
            self.wf(),
        ensures
            answers(
                r,
                manifest_get_result(
                    self.storage_view(),
                    self.accepts(header_view(authorization)),
                    reference@.0,
                    reference@.1,
                ),
            ),
    {
        if authenticate(&self.auth_provider, authorization).is_none() {
            return Err(RegistryError::AuthRequired);
        }
        match self.storage.get_manifest(reference) {
            Some(bytes) => manifest_get_response(bytes),
            None => Err(RegistryError::NotFound),
        }
    }
}

} // verus!
