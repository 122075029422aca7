//! The answers of the endpoints, and the tests that a request passes before the store
//! is touched. Nothing here holds state.

use crate::digest::{image_digest_text, Digest, ImageDigest};
use crate::encoding::{decimal_text, parse_u64, parsed_u64, u64_to_decimal};
use crate::error::{www_authenticate, www_authenticate_text, RegistryError, RegistryErrorView};
use crate::manifest::{declared_media_type, json_string_member, media_type};
use crate::response::{
    header_view, Response, ResponseView, STATUS_ACCEPTED, STATUS_CREATED, STATUS_NOT_FOUND,
    STATUS_OK, STATUS_UNAUTHORIZED,
};
use crate::storage::{
    reference_text, uuid_text, BlobMetadata, ImageLocation, LocationView, ManifestReference,
    Reference, ReferenceView, UploadId,
};
use vstd::prelude::*;
use vstd::utf8::encode_utf8;

verus! {

/// The URL under which an upload takes chunks and is finalized.
pub open spec fn upload_location_text(location: LocationView, upload: u128) -> Seq<char> {
    "/v2/"@ + location.0 + "/"@ + location.1 + "/uploads/"@ + uuid_text(upload)
}

/// The URL of a manifest.
pub open spec fn manifest_location_text(location: LocationView, reference: ReferenceView) -> Seq<
    char,
> {
    "/v2/"@ + location.0 + "/"@ + location.1 + "/manifests/"@ + reference_text(reference)
}

/// Returns the URL under which an upload takes chunks and is finalized.
pub fn mk_upload_location(location: &ImageLocation, upload: UploadId) -> (url: String)
    ensures
        url@ == upload_location_text(location@, upload@),
{
    let mut url = String::from_str("/v2/");
    url.append(location.repository());
    url.append("/");
    url.append(location.image());
    url.append("/uploads/");
    let id = upload.to_string();
    url.append(id.as_str());
    url
}

/// Returns the URL of a manifest.
pub fn mk_manifest_location(location: &ImageLocation, reference: &Reference) -> (url: String)
    ensures
        url@ == manifest_location_text(location@, reference@),
{
    let mut url = String::from_str("/v2/");
    url.append(location.repository());
    url.append("/");
    url.append(location.image());
    url.append("/manifests/");
    let name = reference.to_string();
    url.append(name.as_str());
    url
}

/// The answer of the base endpoint: 200 where the credentials were accepted, else 401;
/// both name the realm.
pub open spec fn index_response_view(realm: Seq<char>, accepted: bool) -> ResponseView {
    ResponseView::empty(
        if accepted {
            STATUS_OK
        } else {
            STATUS_UNAUTHORIZED
        },
    ).with_header("WWW-Authenticate"@, www_authenticate_text(realm))
}

/// Answers the base endpoint.
pub fn index_response(realm: &str, accepted: bool) -> (response: Response)
    ensures
        response@ == index_response_view(realm@, accepted),
{
    let status = if accepted {
        STATUS_OK
    } else {
        STATUS_UNAUTHORIZED
    };
    Response::new(status).header("WWW-Authenticate", www_authenticate(realm))
}

/// The answer to a check for the blob `d`: its size and digest where it is stored in
/// `size` bytes, else 404.
pub open spec fn blob_check_response_view(d: Seq<u8>, size: Option<u64>) -> ResponseView {
    match size {
        Some(n) => ResponseView::empty(STATUS_OK).with_header(
            "Content-Length"@,
            decimal_text(n as nat),
        ).with_header("Docker-Content-Digest"@, image_digest_text(d)).with_header(
            "Content-Type"@,
            "application/octet-stream"@,
        ),
        None => ResponseView::empty(STATUS_NOT_FOUND),
    }
}

/// The size in `metadata`, as a view.
pub open spec fn size_view(metadata: Option<BlobMetadata>) -> Option<u64> {
    match metadata {
        Some(m) => Some(m.size()),
        None => None,
    }
}

/// Answers a check for a blob, from what the store knows of it.
pub fn blob_check_response(digest: &ImageDigest, metadata: Option<BlobMetadata>) -> (response:
    Response)
    ensures
        response@ == blob_check_response_view(digest@, size_view(metadata)),
{
    match metadata {
        Some(m) => Response::new(STATUS_OK).header(
            "Content-Length",
            u64_to_decimal(m.size()),
        ).header("Docker-Content-Digest", digest.to_string()).header(
            "Content-Type",
            String::from_str("application/octet-stream"),
        ),
        None => Response::new(STATUS_NOT_FOUND),
    }
}

/// The answer that serves the bytes of a blob.
pub open spec fn blob_get_response_view(bytes: Seq<u8>) -> ResponseView {
    ResponseView::empty(STATUS_OK).with_body(bytes)
}

/// Answers a request for a blob with its bytes.
pub fn blob_get_response(bytes: Vec<u8>) -> (response: Response)
    ensures
        response@ == blob_get_response_view(bytes@),
{
    Response::new(STATUS_OK).body(bytes)
}

/// The state of an upload, as a view: where the image is, how many bytes the last chunk
/// held, and the upload's id.
pub type UploadStateView = (LocationView, Option<u64>, u128);

/// The state of an upload, as the protocol reports it in headers.
#[derive(Debug, PartialEq, Eq)]
pub struct UploadState {
    location: ImageLocation,
    completed: Option<u64>,
    upload: UploadId,
}

impl View for UploadState {
    type V = UploadStateView;

    closed spec fn view(&self) -> UploadStateView {
        (self.location@, self.completed, self.upload@)
    }
}

/// The answer that reports the state of an upload: 202 either way, with a range once a
/// chunk was taken.
pub open spec fn upload_state_response_view(state: UploadStateView) -> ResponseView {
    match state.1 {
        None => ResponseView::empty(STATUS_ACCEPTED).with_header(
            "Location"@,
            upload_location_text(state.0, state.2),
        ).with_header("Content-Length"@, "0"@).with_header("Docker-Upload-UUID"@, uuid_text(state.2)),
        Some(completed) => ResponseView::empty(STATUS_ACCEPTED).with_header(
            "Location"@,
            upload_location_text(state.0, state.2),
        ).with_header("Range"@, "0-"@ + decimal_text(completed as nat)).with_header(
            "Docker-Upload-UUID"@,
            uuid_text(state.2),
        ),
    }
}

impl UploadState {
    /// The state of the upload `upload` at `location`; `completed` counts the bytes of
    /// the chunk just taken, and is `None` for an upload just started.
    pub fn new(location: ImageLocation, completed: Option<u64>, upload: UploadId) -> (state:
        UploadState)
        ensures
            state@ == (location@, completed, upload@),
    {
        UploadState { location, completed, upload }
    }

    /// Where the image is.
    pub fn location(&self) -> (location: &ImageLocation)
        ensures
            location@ == self@.0,
    {
        &self.location
    }

    /// The number of bytes of the chunk just taken, if one was.
    pub fn completed(&self) -> (completed: Option<u64>)
        ensures
            completed == self@.1,
    {
        self.completed
    }

    /// The upload's id.
    pub fn upload(&self) -> (upload: UploadId)
        ensures
            upload@ == self@.2,
    {
        self.upload
    }

    /// The answer that reports this state.
    pub fn into_response(self) -> (response: Response)
        ensures
            response@ == upload_state_response_view(self@),
    {
        let url = mk_upload_location(&self.location, self.upload);
        match self.completed {
            None => Response::new(STATUS_ACCEPTED).header("Location", url).header(
                "Content-Length",
                String::from_str("0"),
            ).header("Docker-Upload-UUID", self.upload.to_string()),
            Some(completed) => {
                let mut range = String::from_str("0-");
                let count = u64_to_decimal(completed);
                range.append(count.as_str());
                Response::new(STATUS_ACCEPTED).header("Location", url).header(
                    "Range",
                    range,
                ).header("Docker-Upload-UUID", self.upload.to_string())
            },
        }
    }
}

/// The name under which a ranged chunk is refused.
pub open spec fn chunked_uploads() -> Seq<char> {
    "chunked uploads"@
}

/// The name under which a body at finalize is refused.
pub open spec fn finalize_body() -> Seq<char> {
    "non-empty finalize body"@
}

/// Whether a chunk may be taken: only one without a `Range` header.
pub open spec fn range_check(has_range: bool) -> Result<(), RegistryErrorView> {
    if has_range {
        Err(RegistryErrorView::NotSupported(chunked_uploads()))
    } else {
        Ok(())
    }
}

/// Refuses a chunk that carries a `Range` header: uploads are taken whole.
pub fn check_range(has_range: bool) -> (r: Result<(), RegistryError>)
    ensures
        match range_check(has_range) {
            Ok(_) => r is Ok,
            Err(e) => r matches Err(err) && err@ == e,
        },
{
    if has_range {
        Err(RegistryError::NotSupported("chunked uploads"))
    } else {
        Ok(())
    }
}

/// Whether the `Content-Length` of a finalize request allows it: absent, or a number
/// that is zero.
pub open spec fn finalize_body_check(content_length: Option<Seq<char>>) -> Result<
    (),
    RegistryErrorView,
> {
    match content_length {
        None => Ok(()),
        Some(text) => match parsed_u64(encode_utf8(text)) {
            None => Err(RegistryErrorView::ContentLengthMalformed),
            Some(n) => if n == 0 {
                Ok(())
            } else {
                Err(RegistryErrorView::NotSupported(finalize_body()))
            },
        },
    }
}

/// Refuses a finalize request that carries a body: its `Content-Length`, where it has
/// one, must be a number and zero.
pub fn check_finalize_body(content_length: Option<&str>) -> (r: Result<(), RegistryError>)
    ensures
        match finalize_body_check(header_view(content_length)) {
            Ok(_) => r is Ok,
            Err(e) => r matches Err(err) && err@ == e,
        },
{
    match content_length {
        None => Ok(()),
        Some(text) => match parse_u64(text.as_bytes()) {
            None => Err(RegistryError::ContentLengthMalformed),
            Some(n) => if n == 0 {
                Ok(())
            } else {
                Err(RegistryError::NotSupported("non-empty finalize body"))
            },
        },
    }
}

/// The answer to a finalized upload: 201, with the digest of the blob.
pub open spec fn finalize_response_view(location: LocationView, upload: u128, d: Seq<u8>) -> ResponseView {
    ResponseView::empty(STATUS_CREATED).with_header(
        "Docker-Content-Digest"@,
        image_digest_text(d),
    ).with_header("Location"@, upload_location_text(location, upload))
}

/// Answers a finalized upload.
pub fn finalize_response(location: &ImageLocation, upload: UploadId, digest: &ImageDigest) -> (response:
    Response)
    ensures
        response@ == finalize_response_view(location@, upload@, digest@),
{
    Response::new(STATUS_CREATED).header("Docker-Content-Digest", digest.to_string()).header(
        "Location",
        mk_upload_location(location, upload),
    )
}

/// The answer to a stored manifest: 201, with the digest of its bytes and its URL.
pub open spec fn manifest_put_response_view(
    location: LocationView,
    reference: ReferenceView,
    d: Seq<u8>,
) -> ResponseView {
    ResponseView::empty(STATUS_CREATED).with_header(
        "Docker-Content-Digest"@,
        image_digest_text(d),
    ).with_header("Location"@, manifest_location_text(location, reference)).with_header(
        "Content-Length"@,
        "0"@,
    )
}

/// Answers a stored manifest.
pub fn manifest_put_response(reference: &ManifestReference, digest: Digest) -> (response: Response)
    ensures
        response@ == manifest_put_response_view(reference@.0, reference@.1, digest@),
{
    Response::new(STATUS_CREATED).header(
        "Docker-Content-Digest",
        ImageDigest::new(digest).to_string(),
    ).header(
        "Location",
        mk_manifest_location(reference.location(), reference.reference()),
    ).header("Content-Length", String::from_str("0"))
}

/// The answer that serves a manifest of the media type `media_type`.
pub open spec fn manifest_response_view(media_type: Seq<char>, bytes: Seq<u8>) -> ResponseView {
    ResponseView::empty(STATUS_OK).with_header("Content-Type"@, media_type).with_header(
        "Content-Length"@,
        decimal_text(bytes.len()),
    ).with_body(bytes)
}

/// Answers a request for a manifest with its bytes, once its media type is known.
pub fn manifest_response(media_type: String, bytes: Vec<u8>) -> (response: Response)
    ensures
        response@ == manifest_response_view(media_type@, bytes@),
{
    let size = u64_to_decimal(bytes.len() as u64);
    Response::new(STATUS_OK).header("Content-Type", media_type).header(
        "Content-Length",
        size,
    ).body(bytes)
}

/// How serving the stored manifest `bytes` ends: with its bytes under the media type
/// that it declares, or refused where it declares none.
pub open spec fn manifest_get_outcome(bytes: Seq<u8>) -> Result<ResponseView, RegistryErrorView> {
    match declared_media_type(json_string_member(bytes, "mediaType"@)) {
        Ok(declared) => Ok(manifest_response_view(declared, bytes)),
        Err(e) => Err(e),
    }
}

/// Answers a request for a manifest that is stored: reads the media type that it
/// declares and serves the bytes under it.
pub fn manifest_get_response(bytes: Vec<u8>) -> (r: Result<Response, RegistryError>)
    ensures
        match manifest_get_outcome(bytes@) {
            Ok(response) => r matches Ok(served) && served@ == response,
            Err(e) => r matches Err(err) && err@ == e,
        },
{
    match media_type(bytes.as_slice()) {
        Ok(declared) => Ok(manifest_response(declared, bytes)),
        Err(e) => Err(e),
    }
}

} // verus!
