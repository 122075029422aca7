use container_registry::{Digest, ImageDigest, ImageDigestParseError};

const SAMPLE_HEX: &str = "596a7d877b33569d199046aaf293ecf45026445be36de1818d50b4f1850762ad";

fn sample_digest() -> Digest {
    Digest::new([
        0x59, 0x6a, 0x7d, 0x87, 0x7b, 0x33, 0x56, 0x9d, 0x19, 0x90, 0x46, 0xaa, 0xf2, 0x93, 0xec,
        0xf4, 0x50, 0x26, 0x44, 0x5b, 0xe3, 0x6d, 0xe1, 0x81, 0x8d, 0x50, 0xb4, 0xf1, 0x85, 0x07,
        0x62, 0xad,
    ])
}

#[test]
fn image_digest_formats_with_prefix_and_lowercase_hex() {
    let image = ImageDigest::new(sample_digest());
    assert_eq!(image.to_string(), format!("sha256:{}", SAMPLE_HEX));
    assert_eq!(sample_digest().to_hex(), SAMPLE_HEX);
}

#[test]
fn image_digest_parses_its_own_wire_form() {
    let parsed = ImageDigest::from_str(&format!("sha256:{}", SAMPLE_HEX)).unwrap();
    assert_eq!(parsed, ImageDigest::new(sample_digest()));
    assert_eq!(parsed.digest(), sample_digest());
    assert_eq!(parsed.digest().as_bytes()[0], 0x59);
    assert_eq!(parsed.digest().as_bytes()[31], 0xad);
}

#[test]
fn parse_then_format_is_the_identity_on_valid_text() {
    let text = "sha256:9ce67038e4f1297a0b1ce23be1b768ce3649fe9bd496ba8efe9ec1676d153430";
    assert_eq!(ImageDigest::from_str(text).unwrap().to_string(), text);
}

#[test]
fn format_then_parse_is_the_identity_on_digests() {
    let mut bytes = [0u8; 32];
    for (i, b) in bytes.iter_mut().enumerate() {
        *b = (i * 37 + 200) as u8;
    }
    let image = ImageDigest::new(Digest::new(bytes));
    assert_eq!(ImageDigest::from_str(&image.to_string()), Ok(image));
}

#[test]
fn image_digest_of_wrong_length_is_refused() {
    assert_eq!(ImageDigest::from_str(""), Err(ImageDigestParseError::WrongLength));
    assert_eq!(ImageDigest::from_str("sha256:"), Err(ImageDigestParseError::WrongLength));
    let short = format!("sha256:{}", &SAMPLE_HEX[1..]);
    assert_eq!(ImageDigest::from_str(&short), Err(ImageDigestParseError::WrongLength));
    let long = format!("sha256:{}0", SAMPLE_HEX);
    assert_eq!(ImageDigest::from_str(&long), Err(ImageDigestParseError::WrongLength));
    // The length is tested before the prefix.
    assert_eq!(ImageDigest::from_str("sha512:abcd"), Err(ImageDigestParseError::WrongLength));
}

#[test]
fn image_digest_with_wrong_prefix_is_refused() {
    let other = format!("sha512:{}", SAMPLE_HEX);
    assert_eq!(ImageDigest::from_str(&other), Err(ImageDigestParseError::WrongPrefix));
    let upper = format!("SHA256:{}", SAMPLE_HEX);
    assert_eq!(ImageDigest::from_str(&upper), Err(ImageDigestParseError::WrongPrefix));
    // 71 bytes without any prefix: the prefix is tested before the digits.
    let bare = format!("{}0000000", SAMPLE_HEX);
    assert_eq!(ImageDigest::from_str(&bare), Err(ImageDigestParseError::WrongPrefix));
}

#[test]
fn image_digest_with_bad_digits_is_refused() {
    let bad = format!("sha256:{}g", &SAMPLE_HEX[1..]);
    assert_eq!(ImageDigest::from_str(&bad), Err(ImageDigestParseError::HexDecodeError));
    let upper = format!("sha256:{}", SAMPLE_HEX.to_uppercase());
    assert_eq!(ImageDigest::from_str(&upper), Err(ImageDigestParseError::HexDecodeError));
    // 71 bytes, but fewer characters: a two-byte character among the digits.
    let wide = format!("sha256:{}\u{e9}", &SAMPLE_HEX[2..]);
    assert_eq!(wide.len(), 71);
    assert_eq!(ImageDigest::from_str(&wide), Err(ImageDigestParseError::HexDecodeError));
}

#[test]
fn parse_errors_have_messages() {
    assert_eq!(ImageDigestParseError::WrongLength.message(), "wrong length");
    assert_eq!(ImageDigestParseError::WrongPrefix.message(), "wrong prefix");
    assert_eq!(ImageDigestParseError::HexDecodeError.message(), "hex decoding error");
}

#[test]
fn digest_from_hex_decodes_each_pair_of_digits() {
    let digest = Digest::from_hex(SAMPLE_HEX.as_bytes()).unwrap();
    assert_eq!(digest, sample_digest());
    assert!(Digest::from_hex(SAMPLE_HEX.to_uppercase().as_bytes()).is_none());
    assert!(Digest::from_hex(&SAMPLE_HEX.as_bytes()[2..]).is_none());
    assert!(Digest::from_hex(b"").is_none());
}

#[test]
fn digest_of_contents_is_sha256() {
    // The SHA-256 test vectors for the empty message and for "abc".
    assert_eq!(
        Digest::from_contents(b"").to_hex(),
        "e3b0c44298fc1c149afbf4c8996fb92427ae41e4649b934ca495991b7852b855"
    );
    assert_eq!(
        Digest::from_contents(b"abc").to_hex(),
        "ba7816bf8f01cfea414140de5dae2223b00361a396177a9cb410ff61f20015ad"
    );
    assert_ne!(Digest::from_contents(b"abc"), Digest::from_contents(b"abd"));
}
