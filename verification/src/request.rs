//! Requests as a transport hands them over once it has routed them, and the one entry
//! point that answers each with a response.

use crate::auth::AuthProvider;
use crate::error::{realm_text, RegistryError, RegistryErrorView};
use crate::protocol::{
    index_response_view, upload_state_response_view, UploadState, UploadStateView,
};
use crate::registry::{
    blob_check_result, blob_get_result, manifest_get_result, manifest_put_result,
    manifest_put_storage, upload_add_chunk_result, upload_add_chunk_storage,
    upload_finalize_result, upload_finalize_storage, ContainerRegistry, Incoming,
};
use crate::response::{header_view, Response, ResponseView};
use crate::storage::{is_random_uuid, ImageLocation, ManifestReference, UploadId};
use vstd::prelude::*;

verus! {

/// The endpoint that a request is for, with what its URL, query and body hold.
#[derive(Debug)]
pub enum Endpoint {
    /// `GET /v2/`.
    Index,
    /// `HEAD /v2/{repository}/{image}/blobs/{digest}`.
    BlobCheck { location: ImageLocation, digest: String },
    /// `GET /v2/{repository}/{image}/blobs/{digest}`.
    BlobGet { location: ImageLocation, digest: String },
    /// `POST /v2/{repository}/{image}/blobs/uploads/`.
    UploadNew { location: ImageLocation },
    /// `PATCH /v2/{repository}/{image}/uploads/{upload}`, with whether the request has a
    /// `Range` header, and its body as it came in.
    UploadAddChunk { location: ImageLocation, upload: UploadId, has_range: bool, body: Vec<Incoming> },
    /// `PUT /v2/{repository}/{image}/uploads/{upload}?digest={digest}`, with the value of
    /// the `Content-Length` header, if there is one.
    UploadFinalize {
        location: ImageLocation,
        upload: UploadId,
        digest: String,
        content_length: Option<String>,
    },
    /// `PUT /v2/{repository}/{image}/manifests/{reference}`, with the body.
    ManifestPut { reference: ManifestReference, body: Vec<u8> },
    /// `GET /v2/{repository}/{image}/manifests/{reference}`.
    ManifestGet { reference: ManifestReference },
}

/// A request: the value of its `Authorization` header, if it has one, and its endpoint.
#[derive(Debug)]
pub struct Request {
    /// The value of the `Authorization` header.
    pub authorization: Option<String>,
    /// What is asked.
    pub endpoint: Endpoint,
}

/// The answer to a request: the response, and the manifest reference of which the hook
/// sink is to be told, where a manifest was stored.
#[derive(Debug)]
pub struct Reply {
    /// The response for the client.
    pub response: Response,
    /// The reference under which a manifest was just stored.
    pub uploaded: Option<ManifestReference>,
}

/// The text of an optional header, as a view.
pub open spec fn text_view(value: Option<String>) -> Option<Seq<char>> {
    match value {
        Some(text) => Some(text@),
        None => None,
    }
}

/// An optional header as borrowed text.
fn as_text(value: &Option<String>) -> (text: Option<&str>)
    ensures
        header_view(text) == text_view(*value),
{
    match value {
        Some(text) => Some(text.as_str()),
        None => None,
    }
}

/// The response that the outcome of a handler becomes.
pub open spec fn response_of(outcome: Result<ResponseView, RegistryErrorView>) -> ResponseView {
    match outcome {
        Ok(response) => response,
        Err(e) => e.response(),
    }
}

/// The response that the outcome of an upload handler becomes.
pub open spec fn state_response_of(
    outcome: Result<UploadStateView, RegistryErrorView>,
) -> ResponseView {
    match outcome {
        Ok(state) => upload_state_response_view(state),
        Err(e) => e.response(),
    }
}

/// Turns the outcome of a handler into a response.
pub fn respond(outcome: Result<Response, RegistryError>) -> (response: Response)
    ensures
        response@ == match outcome {
            Ok(given) => given@,
            Err(e) => e@.response(),
        },
{
    match outcome {
        Ok(response) => response,
        Err(e) => e.into_response(),
    }
}

/// Turns the outcome of an upload handler into a response.
pub fn respond_state(outcome: Result<UploadState, RegistryError>) -> (response: Response)
    ensures
        response@ == match outcome {
            Ok(state) => upload_state_response_view(state@),
            Err(e) => e@.response(),
        },
{
    match outcome {
        Ok(state) => state.into_response(),
        Err(e) => e.into_response(),
    }
}

impl<A: AuthProvider> ContainerRegistry<A> {
    /// Answers a request. Only the endpoints that start an upload, take a chunk,
    /// finalize an upload or store a manifest change the store, and only for a request
    /// that is authorized.
    pub fn handle(&mut self, request: Request) -> (reply: Reply)
        requires
            old(self).wf(),
        ensures
            final(self).wf(),
            final(self).provider() == old(self).provider(),
            ({
                let s = old(self).storage_view();
                let after = final(self).storage_view();
                let accepted = old(self).accepts(text_view(request.authorization));
                match request.endpoint {
                    Endpoint::Index => {
                        &&& reply.response@ == index_response_view(realm_text(), accepted)
                        &&& after == s
                        &&& reply.uploaded is None
                    },
                    Endpoint::BlobCheck { location, digest } => {
                        &&& reply.response@ == response_of(blob_check_result(s, accepted, digest@))
                        &&& after == s
                        &&& reply.uploaded is None
                    },
                    Endpoint::BlobGet { location, digest } => {
                        &&& reply.response@ == response_of(blob_get_result(s, accepted, digest@))
                        &&& after == s
                        &&& reply.uploaded is None
                    },
                    Endpoint::UploadNew { location } => {
                        &&& reply.uploaded is None
                        &&& if accepted {
                            exists|upload: u128|
                                #![trigger s.begin_upload(upload)]
                                {
                                    &&& is_random_uuid(upload)
                                    &&& reply.response@ == upload_state_response_view(
                                        (location@, None, upload),
                                    )
                                    &&& after == s.begin_upload(upload)
                                }
                        } else {
                            &&& reply.response@ == RegistryErrorView::AuthRequired.response()
                            &&& after == s
                        }
                    },
                    Endpoint::UploadAddChunk { location, upload, has_range, body } => {
                        &&& reply.response@ == state_response_of(
                            upload_add_chunk_result(
                                s,
                                accepted,
                                location@,
                                upload@,
                                has_range,
                                body@,
                            ),
                        )
                        &&& after == upload_add_chunk_storage(
                            s,
                            accepted,
                            upload@,
                            has_range,
                            body@,
                        )
                        &&& reply.uploaded is None
                    },
                    Endpoint::UploadFinalize { location, upload, digest, content_length } => {
                        &&& reply.response@ == response_of(
                            upload_finalize_result(
                                s,
                                accepted,
                                location@,
                                upload@,
                                digest@,
                                text_view(content_length),
                            ),
                        )
                        &&& after == upload_finalize_storage(
                            s,
                            accepted,
                            upload@,
                            digest@,
                            text_view(content_length),
                        )
                        &&& reply.uploaded is None
                    },
                    Endpoint::ManifestPut { reference, body } => {
                        let outcome = manifest_put_result(
                            accepted,
                            reference@.0,
                            reference@.1,
                            body@,
                        );
                        &&& reply.response@ == response_of(outcome)
                        &&& after == manifest_put_storage(
                            s,
                            accepted,
                            reference@.0,
                            reference@.1,
                            body@,
                        )
                        &&& match reply.uploaded {
                            Some(told) => outcome is Ok && told@ == reference@,
                            None => outcome is Err,
                        }
                    },
                    Endpoint::ManifestGet { reference } => {
                        &&& reply.response@ == response_of(
                            manifest_get_result(s, accepted, reference@.0, reference@.1),
                        )
                        &&& after == s
                        &&& reply.uploaded is None
                    },
                }
            }),
    {
        let authorization = as_text(&request.authorization);
        match request.endpoint {
            Endpoint::Index => Reply { response: self.index_v2(authorization), uploaded: None },
            Endpoint::BlobCheck { location, digest } => Reply {
                response: respond(self.blob_check(authorization, digest.as_str())),
                uploaded: None,
            },
            Endpoint::BlobGet { location, digest } => Reply {
                response: respond(self.blob_get(authorization, digest.as_str())),
                uploaded: None,
            },
            Endpoint::UploadNew { location } => {
                let outcome = self.upload_new(authorization, location);
                Reply { response: respond_state(outcome), uploaded: None }
            },
            Endpoint::UploadAddChunk { location, upload, has_range, body } => {
                let outcome = self.upload_add_chunk(
                    authorization,
                    location,
                    upload,
                    has_range,
                    &body,
                );
                Reply { response: respond_state(outcome), uploaded: None }
            },
            Endpoint::UploadFinalize { location, upload, digest, content_length } => {
                let outcome = self.upload_finalize(
                    authorization,
                    &location,
                    upload,
                    digest.as_str(),
                    as_text(&content_length),
                );
                Reply { response: respond(outcome), uploaded: None }
            },
            Endpoint::ManifestPut { reference, body } => {
                match self.manifest_put(authorization, reference, body.as_slice()) {
                    Ok(stored) => Reply {
                        response: stored.response,
                        uploaded: Some(stored.reference),
                    },
                    Err(e) => Reply { response: e.into_response(), uploaded: None },
                }
            },
            Endpoint::ManifestGet { reference } => {
                let outcome = self.manifest_get(authorization, &reference);
                Reply { response: respond(outcome), uploaded: None }
            },
        }
    }
}

} // verus!
