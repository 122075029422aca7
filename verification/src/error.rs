//! The errors of the registry, and the response that each becomes.

use crate::digest::ImageDigestParseError;
use crate::response::{
    Response, ResponseView, STATUS_BAD_REQUEST, STATUS_INTERNAL_SERVER_ERROR, STATUS_NOT_FOUND,
    STATUS_UNAUTHORIZED,
};
use crate::storage::StorageError;
use vstd::prelude::*;
use vstd::utf8::encode_utf8;

verus! {

/// The realm that the registry names when it asks for credentials, as a view.
pub open spec fn realm_text() -> Seq<char> {
    "ContainerRegistry"@
}

/// The value of the `WWW-Authenticate` header for the realm `realm`.
pub open spec fn www_authenticate_text(realm: Seq<char>) -> Seq<char> {
    "Basic realm=\""@ + realm + "\""@
}

/// The body of a response for an item that is not there: the error envelope of the
/// distribution rules, with the code `BLOB_UNKNOWN`.
pub open spec fn not_found_body() -> Seq<char> {
    "{\"errors\":[{\"code\":\"BLOB_UNKNOWN\",\"message\":\"blob unknown to registry\",\"detail\":null}]}"@
}

/// The value of the `WWW-Authenticate` header for the realm `realm`.
pub fn www_authenticate(realm: &str) -> (value: String)
    ensures
        value@ == www_authenticate_text(realm@),
{
    let mut value = String::from_str("Basic realm=\"");
    value.append(realm);
    value.append("\"");
    value
}

/// A registry error, as a view.
pub enum RegistryErrorView {
    /// See [`RegistryError::NotFound`].
    NotFound,
    /// See [`RegistryError::Storage`].
    Storage(StorageError),
    /// See [`RegistryError::ParseDigest`].
    ParseDigest(ImageDigestParseError),
    /// See [`RegistryError::ParseManifest`].
    ParseManifest(Seq<char>),
    /// See [`RegistryError::NotSupported`].
    NotSupported(Seq<char>),
    /// See [`RegistryError::ContentLengthMalformed`].
    ContentLengthMalformed,
    /// See [`RegistryError::AuthRequired`].
    AuthRequired,
    /// See [`RegistryError::IncomingReadFailed`].
    IncomingReadFailed,
    /// See [`RegistryError::LocalWriteFailed`].
    LocalWriteFailed,
}

/// A registry error. Each has a response that is safe to hand to a client.
#[derive(Clone, Debug, PartialEq, Eq)]
pub enum RegistryError {
    /// A requested blob or manifest was not found.
    NotFound,
    /// The store failed.
    Storage(StorageError),
    /// A digest was malformed.
    ParseDigest(ImageDigestParseError),
    /// A manifest is not JSON or declares no media type; with the reason.
    ParseManifest(String),
    /// The request needs a feature that the registry does not offer; with its name.
    NotSupported(&'static str),
    /// The content length is not a number.
    ContentLengthMalformed,
    /// Credentials are missing or were refused.
    AuthRequired,
    /// The incoming stream could not be read.
    IncomingReadFailed,
    /// The incoming data could not be written to the store.
    LocalWriteFailed,
}

impl View for RegistryError {
    type V = RegistryErrorView;

    open spec fn view(&self) -> RegistryErrorView {
        match self {
            RegistryError::NotFound => RegistryErrorView::NotFound,
            RegistryError::Storage(e) => RegistryErrorView::Storage(*e),
            RegistryError::ParseDigest(e) => RegistryErrorView::ParseDigest(*e),
            RegistryError::ParseManifest(reason) => RegistryErrorView::ParseManifest(reason@),
            RegistryError::NotSupported(feature) => RegistryErrorView::NotSupported(feature@),
            RegistryError::ContentLengthMalformed => RegistryErrorView::ContentLengthMalformed,
            RegistryError::AuthRequired => RegistryErrorView::AuthRequired,
            RegistryError::IncomingReadFailed => RegistryErrorView::IncomingReadFailed,
            RegistryError::LocalWriteFailed => RegistryErrorView::LocalWriteFailed,
        }
    }
}

impl RegistryErrorView {
    /// The response for an item that is not there.
    pub open spec fn not_found() -> ResponseView {
        ResponseView::empty(STATUS_NOT_FOUND).with_header(
            "Content-Type"@,
            "application/json"@,
        ).with_body(encode_utf8(not_found_body()))
    }

    /// The status code of the error's response.
    pub open spec fn status(self) -> u16 {
        match self {
            RegistryErrorView::NotFound => STATUS_NOT_FOUND,
            RegistryErrorView::Storage(StorageError::NotFound) => STATUS_NOT_FOUND,
            RegistryErrorView::Storage(StorageError::DigestMismatch) => STATUS_BAD_REQUEST,
            RegistryErrorView::Storage(_) => STATUS_INTERNAL_SERVER_ERROR,
            RegistryErrorView::ParseDigest(_) => STATUS_BAD_REQUEST,
            RegistryErrorView::ParseManifest(_) => STATUS_BAD_REQUEST,
            RegistryErrorView::NotSupported(_) => STATUS_INTERNAL_SERVER_ERROR,
            RegistryErrorView::ContentLengthMalformed => STATUS_BAD_REQUEST,
            RegistryErrorView::AuthRequired => STATUS_UNAUTHORIZED,
            RegistryErrorView::IncomingReadFailed => STATUS_INTERNAL_SERVER_ERROR,
            RegistryErrorView::LocalWriteFailed => STATUS_INTERNAL_SERVER_ERROR,
        }
    }

    /// The response that the error becomes.
    pub open spec fn response(self) -> ResponseView {
        match self {
            RegistryErrorView::NotFound => RegistryErrorView::not_found(),
            RegistryErrorView::Storage(StorageError::NotFound) => RegistryErrorView::not_found(),
            RegistryErrorView::Storage(StorageError::DigestMismatch) => ResponseView::text(
                STATUS_BAD_REQUEST,
                "digest did not match"@,
            ),
            RegistryErrorView::Storage(_) => ResponseView::text(
                STATUS_INTERNAL_SERVER_ERROR,
                "storage error"@,
            ),
            RegistryErrorView::ParseDigest(e) => ResponseView::text(
                STATUS_BAD_REQUEST,
                "could not parse digest: "@ + match e {
                    ImageDigestParseError::WrongLength => "wrong length"@,
                    ImageDigestParseError::WrongPrefix => "wrong prefix"@,
                    ImageDigestParseError::HexDecodeError => "hex decoding error"@,
                },
            ),
            RegistryErrorView::ParseManifest(reason) => ResponseView::text(
                STATUS_BAD_REQUEST,
                "could not parse manifest: "@ + reason,
            ),
            RegistryErrorView::NotSupported(feature) => ResponseView::text(
                STATUS_INTERNAL_SERVER_ERROR,
                "feature not supported: "@ + feature,
            ),
            RegistryErrorView::ContentLengthMalformed => ResponseView::text(
                STATUS_BAD_REQUEST,
                "invalid content length value"@,
            ),
            RegistryErrorView::AuthRequired => ResponseView::empty(STATUS_UNAUTHORIZED).with_header(
                "WWW-Authenticate"@,
                www_authenticate_text(realm_text()),
            ),
            RegistryErrorView::IncomingReadFailed => ResponseView::text(
                STATUS_INTERNAL_SERVER_ERROR,
                "could not read input stream"@,
            ),
            RegistryErrorView::LocalWriteFailed => ResponseView::text(
                STATUS_INTERNAL_SERVER_ERROR,
                "could not write image locally"@,
            ),
        }
    }

    /// The status of an error's response is the status of the error.
    pub proof fn lemma_response_status(self)
        ensures
            self.response().status == self.status(),
    {
    }
}

/// The response for an item that is not there.
fn not_found_response() -> (response: Response)
    ensures
        response@ == RegistryErrorView::not_found(),
{
    let body =
        "{\"errors\":[{\"code\":\"BLOB_UNKNOWN\",\"message\":\"blob unknown to registry\",\"detail\":null}]}";
    Response::new(STATUS_NOT_FOUND).header(
        "Content-Type",
        String::from_str("application/json"),
    ).body(body.as_bytes_vec())
}

/// A text response whose message is `head` followed by `tail`.
fn text_response(status: u16, head: &str, tail: &str) -> (response: Response)
    ensures
        response@ == ResponseView::text(status, head@ + tail@),
{
    let mut message = String::from_str(head);
    message.append(tail);
    Response::text(status, message.as_str())
}

impl RegistryError {
    /// The status code of the error's response.
    pub fn status(&self) -> (status: u16)
        ensures
            status == self@.status(),
    {
        match self {
            RegistryError::NotFound => STATUS_NOT_FOUND,
            RegistryError::Storage(StorageError::NotFound) => STATUS_NOT_FOUND,
            RegistryError::Storage(StorageError::DigestMismatch) => STATUS_BAD_REQUEST,
            RegistryError::Storage(_) => STATUS_INTERNAL_SERVER_ERROR,
            RegistryError::ParseDigest(_) => STATUS_BAD_REQUEST,
            RegistryError::ParseManifest(_) => STATUS_BAD_REQUEST,
            RegistryError::NotSupported(_) => STATUS_INTERNAL_SERVER_ERROR,
            RegistryError::ContentLengthMalformed => STATUS_BAD_REQUEST,
            RegistryError::AuthRequired => STATUS_UNAUTHORIZED,
            RegistryError::IncomingReadFailed => STATUS_INTERNAL_SERVER_ERROR,
            RegistryError::LocalWriteFailed => STATUS_INTERNAL_SERVER_ERROR,
        }
    }

    /// The response that the error becomes.
    pub fn into_response(self) -> (response: Response)
        ensures
            response@ == self@.response(),
    {
        match self {
            RegistryError::NotFound => not_found_response(),
            RegistryError::Storage(StorageError::NotFound) => not_found_response(),
            RegistryError::Storage(StorageError::DigestMismatch) => Response::text(
                STATUS_BAD_REQUEST,
                "digest did not match",
            ),
            RegistryError::Storage(_) => Response::text(
                STATUS_INTERNAL_SERVER_ERROR,
                "storage error",
            ),
            RegistryError::ParseDigest(e) => text_response(
                STATUS_BAD_REQUEST,
                "could not parse digest: ",
                e.message(),
            ),
            RegistryError::ParseManifest(reason) => text_response(
                STATUS_BAD_REQUEST,
                "could not parse manifest: ",
                reason.as_str(),
            ),
            RegistryError::NotSupported(feature) => text_response(
                STATUS_INTERNAL_SERVER_ERROR,
                "feature not supported: ",
                feature,
            ),
            RegistryError::ContentLengthMalformed => Response::text(
                STATUS_BAD_REQUEST,
                "invalid content length value",
            ),
            RegistryError::AuthRequired => Response::new(STATUS_UNAUTHORIZED).header(
                "WWW-Authenticate",
                www_authenticate("ContainerRegistry"),
            ),
            RegistryError::IncomingReadFailed => Response::text(
                STATUS_INTERNAL_SERVER_ERROR,
                "could not read input stream",
            ),
            RegistryError::LocalWriteFailed => Response::text(
                STATUS_INTERNAL_SERVER_ERROR,
                "could not write image locally",
            ),
        }
    }
}

} // verus!
