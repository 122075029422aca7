//! What the store is addressed by: upload ids, image locations and manifest references;
//! the errors of the store; and where each object lies below the store's root.

use crate::digest::{
    image_digest_text, lemma_parse_of_format, parsed_image_digest, Digest, ImageDigest,
};
use crate::encoding::hex_encoded;
use crate::table::Key;
use vstd::prelude::*;
use vstd::utf8::encode_utf8;

verus! {

/// The bytes of `value`, the most significant first.
pub open spec fn be_bytes(value: u128) -> Seq<u8> {
    Seq::new(16, |i: int| ((value >> ((8 * (15 - i)) as u128)) & 0xff) as u8)
}

/// `value` as a hyphenated UUID: its 16 bytes in lowercase hexadecimal, in groups of 8,
/// 4, 4, 4 and 12 digits.
pub open spec fn uuid_text(value: u128) -> Seq<char> {
    let digits = hex_encoded(be_bytes(value));
    digits.subrange(0, 8) + seq!['-'] + digits.subrange(8, 12) + seq!['-'] + digits.subrange(
        12,
        16,
    ) + seq!['-'] + digits.subrange(16, 20) + seq!['-'] + digits.subrange(20, 32)
}

/// `value` carries the marks of a random UUID: the version is 4, and the variant is
/// that of RFC 4122. The other 122 bits are free.
pub open spec fn is_random_uuid(value: u128) -> bool {
    value & 0x0000_0000_0000_f000_c000_0000_0000_0000
        == 0x0000_0000_0000_4000_8000_0000_0000_0000
}

/// `uuid::Uuid::new_v4`, as a number: a random UUID. The crate sets the version to 4 and
/// the variant to that of RFC 4122 in every UUID that it makes this way; that much is
/// believed of the value, not proved, and nothing else is claimed of it.
#[verifier::external_body]
fn random_uuid() -> (value: u128)
    ensures
        is_random_uuid(value),
{
    uuid::Uuid::new_v4().as_u128()
}

/// A random UUID is written with `4` as the first digit of its third group, and with
/// one of `8`, `9`, `a`, `b` as the first digit of its fourth.
pub proof fn lemma_random_uuid_text(value: u128)
    requires
        is_random_uuid(value),
    ensures
        uuid_text(value).len() == 36,
        uuid_text(value)[14] == '4',
        uuid_text(value)[19] == '8' || uuid_text(value)[19] == '9' || uuid_text(value)[19] == 'a'
            || uuid_text(value)[19] == 'b',
{
    let bytes = be_bytes(value);
    let digits = hex_encoded(bytes);
    let version = ((value >> 72) & 0xff) as u8;
    let variant = ((value >> 56) & 0xff) as u8;
    assert(bytes[6] == version);
    assert(bytes[8] == variant);
    assert(version / 16 == 4 && 8 <= variant / 16 <= 11) by (bit_vector)
        requires
            value & 0x0000_0000_0000_f000_c000_0000_0000_0000
                == 0x0000_0000_0000_4000_8000_0000_0000_0000,
            version == ((value >> 72) & 0xff) as u8,
            variant == ((value >> 56) & 0xff) as u8,
    ;
    assert(digits.len() == 32);
    assert(digits[12] == '4');
    assert(digits[16] == '8' || digits[16] == '9' || digits[16] == 'a' || digits[16] == 'b');
    assert(uuid_text(value)[14] == digits[12]);
    assert(uuid_text(value)[19] == digits[16]);
}

/// `Display` of `uuid::Uuid`, for the UUID that `uuid::Uuid::from_u128` makes of
/// `value`: the hyphenated lowercase form of its bytes, the most significant first.
/// Believed, not proved.
#[verifier::external_body]
fn format_uuid(value: u128) -> (text: String)
    ensures
        text@ == uuid_text(value),
{
    uuid::Uuid::from_u128(value).to_string()
}

/// The id of an upload: a UUID, held as a number.
#[derive(Clone, Copy, Debug, PartialEq, Eq, Structural)]
pub struct UploadId {
    value: u128,
}

impl View for UploadId {
    type V = u128;

    closed spec fn view(&self) -> u128 {
        self.value
    }
}

impl UploadId {
    /// The id with the given number.
    pub fn from_u128(value: u128) -> (id: UploadId)
        ensures
            id@ == value,
    {
        UploadId { value }
    }

    /// A new random id: a UUID of version 4.
    pub fn generate() -> (id: UploadId)
        ensures
            is_random_uuid(id@),
    {
        UploadId { value: random_uuid() }
    }

    /// The id as a number.
    pub fn as_u128(&self) -> (value: u128)
        ensures
            value == self@,
    {
        self.value
    }

    /// The id in hyphenated form.
    pub fn to_string(&self) -> (text: String)
        ensures
            text@ == uuid_text(self@),
    {
        format_uuid(self.value)
    }
}

impl Key for UploadId {
    fn same_key(&self, other: &UploadId) -> (same: bool) {
        self.value == other.value
    }
}

impl Key for Digest {
    fn same_key(&self, other: &Digest) -> (same: bool) {
        *self == *other
    }
}

/// A repository and an image in it, as their views.
pub type LocationView = (Seq<char>, Seq<char>);

/// The namespace of an image: a repository and an image name. Neither is validated.
#[derive(Debug, PartialEq, Eq)]
pub struct ImageLocation {
    repository: String,
    image: String,
}

impl View for ImageLocation {
    type V = LocationView;

    closed spec fn view(&self) -> LocationView {
        (self.repository@, self.image@)
    }
}

impl Clone for ImageLocation {
    fn clone(&self) -> (copy: ImageLocation)
        ensures
            copy@ == self@,
    {
        ImageLocation { repository: self.repository.clone(), image: self.image.clone() }
    }
}

impl ImageLocation {
    /// The location of `image` in `repository`.
    pub fn new(repository: String, image: String) -> (location: ImageLocation)
        ensures
            location@ == (repository@, image@),
    {
        ImageLocation { repository, image }
    }

    /// The repository.
    pub fn repository(&self) -> (repository: &str)
        ensures
            repository@ == self@.0,
    {
        self.repository.as_str()
    }

    /// The image name.
    pub fn image(&self) -> (image: &str)
        ensures
            image@ == self@.1,
    {
        self.image.as_str()
    }

    /// Whether two locations name the same repository and image.
    pub fn same(&self, other: &ImageLocation) -> (same: bool)
        ensures
            same == (self@ == other@),
    {
        self.repository == other.repository && self.image == other.image
    }
}

/// What a manifest reference names, as a view.
pub enum ReferenceView {
    /// A tag.
    Tag(Seq<char>),
    /// The digest of the manifest's bytes.
    Digest(Seq<u8>),
}

/// What `raw` refers to: a digest where it is the wire form of one, else a tag.
pub open spec fn parsed_reference(raw: Seq<char>) -> ReferenceView {
    match parsed_image_digest(encode_utf8(raw)) {
        Ok(d) => ReferenceView::Digest(d),
        Err(_) => ReferenceView::Tag(raw),
    }
}

/// How a reference is written in a URL.
pub open spec fn reference_text(reference: ReferenceView) -> Seq<char> {
    match reference {
        ReferenceView::Tag(tag) => tag,
        ReferenceView::Digest(d) => image_digest_text(d),
    }
}

/// A reference that is written and read again is the same reference: a digest always,
/// a tag unless it looks like a digest.
pub proof fn lemma_reference_round_trip(reference: ReferenceView)
    requires
        reference matches ReferenceView::Digest(d) ==> d.len() == 32,
        reference matches ReferenceView::Tag(tag) ==> parsed_image_digest(encode_utf8(tag)) is Err,
    ensures
        parsed_reference(reference_text(reference)) == reference,
{
    if let ReferenceView::Digest(d) = reference {
        lemma_parse_of_format(d);
    }
}

/// A name for a manifest within an image location.
#[derive(Debug, PartialEq, Eq)]
pub enum Reference {
    /// A human-readable name, such as `latest`.
    Tag(String),
    /// The SHA-256 of the manifest's bytes.
    Digest(Digest),
}

impl View for Reference {
    type V = ReferenceView;

    open spec fn view(&self) -> ReferenceView {
        match self {
            Reference::Tag(tag) => ReferenceView::Tag(tag@),
            Reference::Digest(digest) => ReferenceView::Digest(digest@),
        }
    }
}

impl Clone for Reference {
    fn clone(&self) -> (copy: Reference)
        ensures
            copy@ == self@,
    {
        match self {
            Reference::Tag(tag) => Reference::Tag(tag.clone()),
            Reference::Digest(digest) => Reference::Digest(*digest),
        }
    }
}

impl Reference {
    /// A reference by tag.
    pub fn new_tag(tag: &str) -> (reference: Reference)
        ensures
            reference@ == ReferenceView::Tag(tag@),
    {
        Reference::Tag(String::from_str(tag))
    }

    /// A reference by digest.
    pub fn new_digest(digest: Digest) -> (reference: Reference)
        ensures
            reference@ == ReferenceView::Digest(digest@),
    {
        Reference::Digest(digest)
    }

    /// Reads a reference as it stands in a URL: a digest where the text is the wire form
    /// of one, else a tag.
    pub fn parse(raw: &str) -> (reference: Reference)
        ensures
            reference@ == parsed_reference(raw@),
    {
        match ImageDigest::from_str(raw) {
            Ok(image) => Reference::Digest(image.digest()),
            Err(_) => Reference::Tag(String::from_str(raw)),
        }
    }

    /// The tag, if this is one.
    pub fn as_tag(&self) -> (tag: Option<&str>)
        ensures
            match tag {
                Some(text) => self@ == ReferenceView::Tag(text@),
                None => self@ is Digest,
            },
    {
        match self {
            Reference::Tag(tag) => Some(tag.as_str()),
            Reference::Digest(_) => None,
        }
    }

    /// The digest, if this is one.
    pub fn as_digest(&self) -> (digest: Option<Digest>)
        ensures
            match digest {
                Some(d) => self@ == ReferenceView::Digest(d@),
                None => self@ is Tag,
            },
    {
        match self {
            Reference::Tag(_) => None,
            Reference::Digest(digest) => Some(*digest),
        }
    }

    /// The reference as it is written in a URL.
    pub fn to_string(&self) -> (text: String)
        ensures
            text@ == reference_text(self@),
    {
        match self {
            Reference::Tag(tag) => tag.clone(),
            Reference::Digest(digest) => ImageDigest::new(*digest).to_string(),
        }
    }
}

/// An image location and a reference to a manifest in it.
#[derive(Debug, PartialEq, Eq)]
pub struct ManifestReference {
    location: ImageLocation,
    reference: Reference,
}

impl View for ManifestReference {
    type V = (LocationView, ReferenceView);

    closed spec fn view(&self) -> (LocationView, ReferenceView) {
        (self.location@, self.reference@)
    }
}

impl Clone for ManifestReference {
    fn clone(&self) -> (copy: ManifestReference)
        ensures
            copy@ == self@,
    {
        ManifestReference { location: self.location.clone(), reference: self.reference.clone() }
    }
}

impl ManifestReference {
    /// The reference `reference` at `location`.
    pub fn new(location: ImageLocation, reference: Reference) -> (manifest: ManifestReference)
        ensures
            manifest@ == (location@, reference@),
    {
        ManifestReference { location, reference }
    }

    /// The image location.
    pub fn location(&self) -> (location: &ImageLocation)
        ensures
            location@ == self@.0,
    {
        &self.location
    }

    /// The reference within the location.
    pub fn reference(&self) -> (reference: &Reference)
        ensures
            reference@ == self@.1,
    {
        &self.reference
    }
}

/// Why the store failed.
#[derive(Clone, Copy, Debug, PartialEq, Eq, Structural)]
pub enum StorageError {
    /// The upload, blob or manifest does not exist.
    NotFound,
    /// The bytes do not hash to the digest that was given for them.
    DigestMismatch,
    /// Reading or writing failed.
    Io,
    /// The store does not offer what was asked of it.
    NotSupported,
}

/// What finalizing an upload does with the staged bytes.
#[derive(Clone, Copy, Debug, PartialEq, Eq, Structural)]
pub enum FinalizeAction {
    /// The bytes hash to the digest and no blob is stored under it: they become the blob.
    Commit,
    /// The bytes hash to the digest and a blob is stored under it already: the blob
    /// stays, the staged bytes go, and the call succeeds.
    AlreadyStored,
    /// The bytes do not hash to the digest: they are discarded and the call fails.
    Discard,
}

/// Decides what finalizing an upload does: `actual` is the digest of the staged bytes,
/// `expected` the digest that the client gave, `stored` whether a blob is stored under
/// `expected`.
pub fn finalize_action(actual: &Digest, expected: &Digest, stored: bool) -> (action: FinalizeAction)
    ensures
        action == if actual@ != expected@ {
            FinalizeAction::Discard
        } else if stored {
            FinalizeAction::AlreadyStored
        } else {
            FinalizeAction::Commit
        },
{
    if !(*actual == *expected) {
        FinalizeAction::Discard
    } else if stored {
        FinalizeAction::AlreadyStored
    } else {
        FinalizeAction::Commit
    }
}

/// Decides whether a manifest may stand under `reference`: `actual` is the digest of
/// its bytes. A tag takes any manifest, a digest only the one that hashes to it.
pub fn check_manifest_digest(reference: &Reference, actual: Digest) -> (r: Result<
    Digest,
    StorageError,
>)
    ensures
        match r {
            Ok(digest) => digest == actual && (reference@ matches ReferenceView::Digest(d)
                ==> d == actual@),
            Err(e) => e == StorageError::DigestMismatch && (reference@ matches ReferenceView::Digest(
                d,
            ) && d != actual@),
        },
{
    match reference {
        Reference::Tag(_) => Ok(actual),
        Reference::Digest(named) => if *named == actual {
            Ok(actual)
        } else {
            Err(StorageError::DigestMismatch)
        },
    }
}

/// What the store knows of a blob without reading it.
#[derive(Clone, Copy, Debug, PartialEq, Eq, Structural)]
pub struct BlobMetadata {
    size: u64,
}

impl BlobMetadata {
    /// The metadata of a blob of `size` bytes.
    pub fn new(size: u64) -> (metadata: BlobMetadata)
        ensures
            metadata.size() == size,
    {
        BlobMetadata { size }
    }

    /// The size of the blob in bytes.
    #[verifier::when_used_as_spec(spec_size)]
    pub fn size(&self) -> (size: u64)
        ensures
            size == self.spec_size(),
    {
        self.size
    }

    /// The size of the blob in bytes.
    pub closed spec fn spec_size(&self) -> u64 {
        self.size
    }
}

/// Where the staged bytes of the upload `id` lie.
pub open spec fn upload_path_text(id: u128) -> Seq<char> {
    "uploads/"@ + uuid_text(id)
}

/// Where the blob with the digest `d` lies.
pub open spec fn blob_path_text(d: Seq<u8>) -> Seq<char> {
    "blobs/"@ + hex_encoded(d)
}

/// Where the manifest with the digest `d` lies at `location`.
pub open spec fn manifest_path_text(location: LocationView, d: Seq<u8>) -> Seq<char> {
    "manifests/"@ + location.0 + "/"@ + location.1 + "/revisions/"@ + hex_encoded(d)
}

/// Where the pointer of the tag `tag` lies at `location`.
pub open spec fn tag_path_text(location: LocationView, tag: Seq<char>) -> Seq<char> {
    "manifests/"@ + location.0 + "/"@ + location.1 + "/tags/"@ + tag
}

/// The path of an upload's staging file, below the store's root.
pub fn upload_path(upload: UploadId) -> (path: String)
    ensures
        path@ == upload_path_text(upload@),
{
    let mut path = String::from_str("uploads/");
    let id = upload.to_string();
    path.append(id.as_str());
    path
}

/// The path of a blob, below the store's root.
pub fn blob_path(digest: &Digest) -> (path: String)
    ensures
        path@ == blob_path_text(digest@),
{
    let mut path = String::from_str("blobs/");
    let digits = digest.to_hex();
    path.append(digits.as_str());
    path
}

/// The path of a manifest by digest, below the store's root.
pub fn manifest_path(location: &ImageLocation, digest: &Digest) -> (path: String)
    ensures
        path@ == manifest_path_text(location@, digest@),
{
    let mut path = String::from_str("manifests/");
    path.append(location.repository());
    path.append("/");
    path.append(location.image());
    path.append("/revisions/");
    let digits = digest.to_hex();
    path.append(digits.as_str());
    path
}

/// The path of a tag's pointer, below the store's root. The pointer holds the
/// hexadecimal digest of the manifest that the tag names.
pub fn tag_path(location: &ImageLocation, tag: &str) -> (path: String)
    ensures
        path@ == tag_path_text(location@, tag@),
{
    let mut path = String::from_str("manifests/");
    path.append(location.repository());
    path.append("/");
    path.append(location.image());
    path.append("/tags/");
    path.append(tag);
    path
}

} // verus!
