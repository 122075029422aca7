//! Content digests: the SHA-256 of a blob or manifest, and its wire form, the prefix
//! `sha256:` before 64 lowercase hexadecimal digits.

use crate::encoding::{
    ascii_bytes, ascii_chars, hex_decode_32, hex_decoded, hex_encode, hex_encoded,
    is_lower_hex_byte, is_lower_hex_text, lemma_hex_decode_encode, lemma_hex_encode_decode,
};
use vstd::prelude::*;
use vstd::slice::slice_subrange;
use vstd::std_specs::cmp::PartialEqSpecImpl;
use vstd::utf8::{encode_utf8, encode_utf8_decode_utf8, is_ascii_chars, is_ascii_chars_encode_utf8};

verus! {

/// The SHA-256 hash of `data`, as `sha2` computes it.
pub uninterp spec fn sha256(data: Seq<u8>) -> Seq<u8>;

/// `sha2::Sha256::digest`: the 32 bytes of the SHA-256 hash of `data`. Believed, not
/// proved; the hash itself is only named.
#[verifier::external_body]
fn sha256_of(data: &[u8]) -> (hash: [u8; 32])
    ensures
        hash@ == sha256(data@),
{
    <sha2::Sha256 as sha2::Digest>::digest(data).into()
}

/// A SHA-256 hash: 32 bytes.
#[derive(Clone, Copy, Debug)]
pub struct Digest {
    bytes: [u8; 32],
}

impl View for Digest {
    type V = Seq<u8>;

    closed spec fn view(&self) -> Seq<u8> {
        self.bytes@
    }
}

impl PartialEq for Digest {
    fn eq(&self, other: &Digest) -> (same: bool) {
        let mut i: usize = 0;
        while i < 32
            invariant
                i <= 32,
                forall|j: int| 0 <= j < i ==> self.bytes@[j] == other.bytes@[j],
            decreases 32 - i,
        {
            if self.bytes[i] != other.bytes[i] {
                return false;
            }
            i = i + 1;
        }
        assert(self.bytes@ =~= other.bytes@);
        true
    }
}

impl PartialEqSpecImpl for Digest {
    open spec fn obeys_eq_spec() -> bool {
        true
    }

    open spec fn eq_spec(&self, other: &Digest) -> bool {
        self@ == other@
    }
}

impl Eq for Digest {

}

impl Digest {
    /// A digest is 32 bytes long, and two digests of the same bytes are the same.
    pub proof fn lemma_view(self, other: Digest)
        ensures
            self@.len() == 32,
            self@ == other@ ==> self == other,
    {
        if self@ == other@ {
            assert(self.bytes =~= other.bytes);
        }
    }

    /// A digest of the given bytes.
    pub fn new(bytes: [u8; 32]) -> (digest: Digest)
        ensures
            digest@ == bytes@,
    {
        Digest { bytes }
    }

    /// The digest of `contents`.
    pub fn from_contents(contents: &[u8]) -> (digest: Digest)
        ensures
            digest@ == sha256(contents@),
    {
        Digest { bytes: sha256_of(contents) }
    }

    /// The 32 bytes of the hash.
    pub fn as_bytes(&self) -> (bytes: &[u8; 32])
        ensures
            bytes@ == self@,
    {
        &self.bytes
    }

    /// The hash in lowercase hexadecimal, 64 digits.
    pub fn to_hex(&self) -> (text: String)
        ensures
            text@ == hex_encoded(self@),
    {
        hex_encode(self.bytes.as_slice())
    }

    /// Reads 64 lowercase hexadecimal digits; `None` for any other text.
    pub fn from_hex(text: &[u8]) -> (r: Option<Digest>)
        ensures
            match r {
                Some(digest) => text@.len() == 64 && is_lower_hex_text(text@) && digest@
                    == hex_decoded(text@),
                None => !(text@.len() == 64 && is_lower_hex_text(text@)),
            },
    {
        if text.len() != 64 {
            return None;
        }
        let mut i: usize = 0;
        while i < 64
            invariant
                i <= 64,
                text@.len() == 64,
                forall|j: int| 0 <= j < i ==> is_lower_hex_byte(#[trigger] text@[j]),
            decreases 64 - i,
        {
            let b: u8 = text[i];
            if !((48 <= b && b <= 57) || (97 <= b && b <= 102)) {
                return None;
            }
            i = i + 1;
        }
        match hex_decode_32(text) {
            Ok(bytes) => Some(Digest { bytes }),
            Err(_) => None,
        }
    }
}

/// Why text is not the wire form of a digest.
#[derive(Clone, Copy, Debug, PartialEq, Eq, Structural)]
pub enum ImageDigestParseError {
    /// The text is not 71 bytes long.
    WrongLength,
    /// The text does not start with `sha256:`.
    WrongPrefix,
    /// What follows the prefix is not 64 lowercase hexadecimal digits.
    HexDecodeError,
}

impl ImageDigestParseError {
    /// The error in words.
    pub fn message(&self) -> (text: &'static str)
        ensures
            text@ == match *self {
                ImageDigestParseError::WrongLength => "wrong length"@,
                ImageDigestParseError::WrongPrefix => "wrong prefix"@,
                ImageDigestParseError::HexDecodeError => "hex decoding error"@,
            },
    {
        match self {
            ImageDigestParseError::WrongLength => "wrong length",
            ImageDigestParseError::WrongPrefix => "wrong prefix",
            ImageDigestParseError::HexDecodeError => "hex decoding error",
        }
    }
}

/// The wire form of the digest `d`.
pub open spec fn image_digest_text(d: Seq<u8>) -> Seq<char> {
    "sha256:"@ + hex_encoded(d)
}

/// What the bytes of a digest's wire form stand for: 71 bytes, the prefix `sha256:`,
/// then 64 lowercase hexadecimal digits, tested in this order.
pub open spec fn parsed_image_digest(raw: Seq<u8>) -> Result<Seq<u8>, ImageDigestParseError> {
    if raw.len() != 71 {
        Err(ImageDigestParseError::WrongLength)
    } else if raw.subrange(0, 7) != ascii_bytes("sha256:"@) {
        Err(ImageDigestParseError::WrongPrefix)
    } else if !is_lower_hex_text(raw.subrange(7, 71)) {
        Err(ImageDigestParseError::HexDecodeError)
    } else {
        Ok(hex_decoded(raw.subrange(7, 71)))
    }
}

/// Bytes are refused exactly where they are not 71 long, do not start with the prefix,
/// or hold something else than lowercase hexadecimal digits after it; what is read is
/// 32 bytes long.
pub proof fn lemma_parse_refuses(raw: Seq<u8>)
    ensures
        parsed_image_digest(raw) is Err <==> (raw.len() != 71 || raw.subrange(0, 7) != ascii_bytes(
            "sha256:"@,
        ) || !is_lower_hex_text(raw.subrange(7, 71))),
        parsed_image_digest(raw) matches Ok(d) ==> d.len() == 32,
{
}

/// A digest as clients name it: `sha256:` and the hash in hexadecimal.
#[derive(Clone, Copy, Debug, PartialEq, Eq)]
pub struct ImageDigest {
    digest: Digest,
}

impl View for ImageDigest {
    type V = Seq<u8>;

    closed spec fn view(&self) -> Seq<u8> {
        self.digest@
    }
}

impl ImageDigest {
    /// An image digest is 32 bytes long, and two of the same bytes are the same.
    pub proof fn lemma_view(self, other: ImageDigest)
        ensures
            self@.len() == 32,
            self@ == other@ ==> self == other,
    {
        self.digest.lemma_view(other.digest);
    }

    /// The image digest of an existing digest.
    pub fn new(digest: Digest) -> (image: ImageDigest)
        ensures
            image@ == digest@,
    {
        ImageDigest { digest }
    }

    /// The digest itself.
    pub fn digest(&self) -> (digest: Digest)
        ensures
            digest@ == self@,
    {
        self.digest
    }

    /// Reads the wire form of a digest.
    pub fn from_str(raw: &str) -> (r: Result<ImageDigest, ImageDigestParseError>)
        ensures
            match parsed_image_digest(encode_utf8(raw@)) {
                Ok(bytes) => r matches Ok(image) && image@ == bytes,
                Err(e) => r matches Err(err) && err == e,
            },
    {
        let bytes = raw.as_bytes();
        if bytes.len() != 71 {
            return Err(ImageDigestParseError::WrongLength);
        }
        proof {
            reveal_strlit("sha256:");
        }
        let ghost head = bytes@.subrange(0, 7);
        let ghost prefix = ascii_bytes("sha256:"@);
        assert(head[0] == bytes@[0] && head[1] == bytes@[1] && head[2] == bytes@[2] && head[3]
            == bytes@[3] && head[4] == bytes@[4] && head[5] == bytes@[5] && head[6] == bytes@[6]);
        assert(prefix.len() == 7 && prefix[0] == 115 && prefix[1] == 104 && prefix[2] == 97
            && prefix[3] == 50 && prefix[4] == 53 && prefix[5] == 54 && prefix[6] == 58);
        if !(bytes[0] == 115 && bytes[1] == 104 && bytes[2] == 97 && bytes[3] == 50 && bytes[4]
            == 53 && bytes[5] == 54 && bytes[6] == 58) {
            assert(head != prefix);
            return Err(ImageDigestParseError::WrongPrefix);
        }
        assert(head =~= prefix);
        let digits = slice_subrange(bytes, 7, 71);
        match Digest::from_hex(digits) {
            Some(digest) => Ok(ImageDigest { digest }),
            None => Err(ImageDigestParseError::HexDecodeError),
        }
    }

    /// Writes the wire form of the digest.
    pub fn to_string(&self) -> (text: String)
        ensures
            text@ == image_digest_text(self@),
    {
        let mut text = String::from_str("sha256:");
        let digits = self.digest.to_hex();
        text.append(digits.as_str());
        text
    }
}

/// The wire form of a digest is ASCII, and its bytes parse to that digest.
pub proof fn lemma_parse_of_format(d: Seq<u8>)
    requires
        d.len() == 32,
    ensures
        is_ascii_chars(image_digest_text(d)),
        parsed_image_digest(encode_utf8(image_digest_text(d))) == Ok::<
            Seq<u8>,
            ImageDigestParseError,
        >(d),
{
    reveal_strlit("sha256:");
    let text = image_digest_text(d);
    let digits = hex_encoded(d);
    lemma_hex_decode_encode(d);
    assert forall|i: int| 0 <= i < text.len() implies '\0' <= #[trigger] text[i] <= '\u{7f}' by {
        if i >= 7 {
            assert(text[i] == digits[i - 7]);
            assert(is_lower_hex_byte(ascii_bytes(digits)[i - 7]));
        }
    }
    is_ascii_chars_encode_utf8(text);
    let raw = encode_utf8(text);
    assert(raw =~= ascii_bytes(text));
    assert(raw.subrange(0, 7) =~= ascii_bytes("sha256:"@));
    assert(raw.subrange(7, 71) =~= ascii_bytes(digits));
}

/// Text whose bytes parse to a digest is the wire form of that digest.
pub proof fn lemma_format_of_parse(text: Seq<char>)
    requires
        parsed_image_digest(encode_utf8(text)) is Ok,
    ensures
        image_digest_text(parsed_image_digest(encode_utf8(text))->Ok_0) == text,
{
    reveal_strlit("sha256:");
    let raw = encode_utf8(text);
    let d = hex_decoded(raw.subrange(7, 71));
    let spelled = ascii_chars(raw);
    assert(raw.subrange(0, 7) == ascii_bytes("sha256:"@));
    assert forall|i: int| 0 <= i < 71 implies (raw[i] as int) < 128 by {
        if i < 7 {
            assert(raw[i] == raw.subrange(0, 7)[i]);
        } else {
            assert(raw[i] == raw.subrange(7, 71)[i - 7]);
            assert(is_lower_hex_byte(raw.subrange(7, 71)[i - 7]));
        }
    }
    assert(is_ascii_chars(spelled));
    is_ascii_chars_encode_utf8(spelled);
    assert(encode_utf8(spelled) =~= raw);
    encode_utf8_decode_utf8(spelled);
    encode_utf8_decode_utf8(text);
    assert(spelled == text);
    lemma_hex_encode_decode(raw.subrange(7, 71));
    assert forall|i: int| 0 <= i < 71 implies image_digest_text(d)[i] == text[i] by {
        if i < 7 {
            assert(raw[i] == raw.subrange(0, 7)[i]);
        } else {
            assert(raw[i] == raw.subrange(7, 71)[i - 7]);
            assert(hex_encoded(d)[i - 7] == ascii_chars(raw.subrange(7, 71))[i - 7]);
        }
    }
    assert(image_digest_text(d) =~= text);
}

} // verus!
