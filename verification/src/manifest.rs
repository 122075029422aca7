//! Manifests: JSON documents that the registry stores as bytes and reads only for the
//! media type that they declare.

use crate::error::{RegistryError, RegistryErrorView};
use vstd::prelude::*;

verus! {

/// What `serde_json` finds in `document` under `key`: the string under that key of the
/// outermost object, if there is one; or, where the document is not JSON, what the
/// reader says is wrong with it.
pub uninterp spec fn json_string_member(document: Seq<u8>, key: Seq<char>) -> Result<
    Option<Seq<char>>,
    Seq<char>,
>;

/// `serde_json::from_slice` to a `serde_json::Value`, then `Value::get` with `key` and
/// `Value::as_str` on what it finds; for bytes that are not JSON, the `Display` of the
/// reader's error. Believed, not proved; what is found is only named.
#[verifier::external_body]
fn read_string_member(document: &[u8], key: &str) -> (r: Result<Option<String>, String>)
    ensures
        match r {
            Ok(Some(text)) => json_string_member(document@, key@) == Ok::<
                Option<Seq<char>>,
                Seq<char>,
            >(Some(text@)),
            Ok(None) => json_string_member(document@, key@) == Ok::<Option<Seq<char>>, Seq<char>>(
                None,
            ),
            Err(reason) => json_string_member(document@, key@) == Err::<
                Option<Seq<char>>,
                Seq<char>,
            >(reason@),
        },
{
    match serde_json::from_slice::<serde_json::Value>(document) {
        Ok(value) => Ok(value.get(key).and_then(serde_json::Value::as_str).map(str::to_owned)),
        Err(error) => Err(error.to_string()),
    }
}

/// The reason given for a manifest that is JSON and declares no media type.
pub open spec fn missing_media_type() -> Seq<char> {
    "missing field `mediaType`"@
}

/// The media type of a manifest, from what the JSON reader found in it.
pub open spec fn declared_media_type(found: Result<Option<Seq<char>>, Seq<char>>) -> Result<
    Seq<char>,
    RegistryErrorView,
> {
    match found {
        Ok(Some(declared)) => Ok(declared),
        Ok(None) => Err(RegistryErrorView::ParseManifest(missing_media_type())),
        Err(reason) => Err(RegistryErrorView::ParseManifest(reason)),
    }
}

/// The media type of a manifest, from what the JSON reader found: the string under
/// `mediaType`, or the reason why there is none.
pub fn media_type_from(found: Result<Option<String>, String>) -> (r: Result<String, RegistryError>)
    ensures
        match found {
            Ok(Some(declared)) => r matches Ok(media_type) && media_type@ == declared@,
            Ok(None) => r matches Err(e) && e@ == RegistryErrorView::ParseManifest(
                missing_media_type(),
            ),
            Err(reason) => r matches Err(e) && e@ == RegistryErrorView::ParseManifest(reason@),
        },
{
    match found {
        Ok(Some(declared)) => Ok(declared),
        Ok(None) => Err(RegistryError::ParseManifest(String::from_str("missing field `mediaType`"))),
        Err(reason) => Err(RegistryError::ParseManifest(reason)),
    }
}

/// The media type that the manifest `manifest` declares. A manifest that is not JSON is
/// refused with the reader's own reason.
pub fn media_type(manifest: &[u8]) -> (r: Result<String, RegistryError>)
    ensures
        match declared_media_type(json_string_member(manifest@, "mediaType"@)) {
            Ok(declared) => r matches Ok(media_type) && media_type@ == declared,
            Err(e) => r matches Err(err) && err@ == e,
        },
{
    media_type_from(read_string_member(manifest, "mediaType"))
}

} // verus!
