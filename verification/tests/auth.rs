use base64::Engine;
use container_registry::auth::{
    admit_user, authenticate, credentials_from_payload, parse_basic, AuthProvider, MasterKey,
    UnverifiedCredentials,
};

fn basic(payload: &[u8]) -> String {
    format!("Basic {}", base64::engine::general_purpose::STANDARD.encode(payload))
}

fn credentials(username: &str, password: &str) -> UnverifiedCredentials {
    UnverifiedCredentials::new(username.to_owned(), password.to_owned())
}

#[test]
fn basic_header_holds_user_and_password() {
    let parsed = parse_basic(&basic(b"user:secret")).unwrap();
    assert_eq!(parsed.username(), "user");
    assert_eq!(parsed.password(), "secret");
    // The example of RFC 7617.
    let parsed = parse_basic("Basic QWxhZGRpbjpvcGVuIHNlc2FtZQ==").unwrap();
    assert_eq!(parsed, credentials("Aladdin", "open sesame"));
}

#[test]
fn password_may_hold_colons_and_either_part_may_be_empty() {
    assert_eq!(parse_basic(&basic(b"user:a:b:c")), Some(credentials("user", "a:b:c")));
    assert_eq!(parse_basic(&basic(b":secret")), Some(credentials("", "secret")));
    assert_eq!(parse_basic(&basic(b"user:")), Some(credentials("user", "")));
    assert_eq!(parse_basic(&basic(b":")), Some(credentials("", "")));
}

#[test]
fn credentials_may_be_any_utf8() {
    let parsed = parse_basic(&basic("j\u{fc}rgen:p\u{e4}ss:w\u{f6}rd".as_bytes())).unwrap();
    assert_eq!(parsed.username(), "j\u{fc}rgen");
    assert_eq!(parsed.password(), "p\u{e4}ss:w\u{f6}rd");
}

#[test]
fn header_of_another_shape_holds_no_credentials() {
    assert_eq!(parse_basic(""), None);
    assert_eq!(parse_basic("Basic"), None);
    assert_eq!(parse_basic("Basic "), None);
    assert_eq!(parse_basic("Bearer QWxhZGRpbjpvcGVuIHNlc2FtZQ=="), None);
    assert_eq!(parse_basic("basic QWxhZGRpbjpvcGVuIHNlc2FtZQ=="), None);
    assert_eq!(parse_basic("BasicQWxhZGRpbjpvcGVuIHNlc2FtZQ=="), None);
    // Not base64.
    assert_eq!(parse_basic("Basic !!!!"), None);
    assert_eq!(parse_basic("Basic QWxhZGRpbjpvcGVuIHNlc2FtZQ"), None);
    assert_eq!(parse_basic("Basic  QWxhZGRpbjpvcGVuIHNlc2FtZQ=="), None);
    // No colon.
    assert_eq!(parse_basic(&basic(b"useronly")), None);
    // Not UTF-8.
    assert_eq!(parse_basic(&basic(b"us\xffer:secret")), None);
}

#[test]
fn payload_is_split_at_the_first_colon() {
    assert_eq!(credentials_from_payload(b"a:b".to_vec()), Some(credentials("a", "b")));
    assert_eq!(credentials_from_payload(b"a::b".to_vec()), Some(credentials("a", ":b")));
    assert_eq!(credentials_from_payload(b"ab".to_vec()), None);
    assert_eq!(credentials_from_payload(b"".to_vec()), None);
    assert_eq!(credentials_from_payload(vec![0xc3, 0x28, b':', b'x']), None);
}

#[test]
fn true_accepts_everyone_and_false_no_one() {
    assert!(true.check_credentials(&credentials("anyone", "anything")));
    assert!(true.check_credentials(&credentials("", "")));
    assert!(!false.check_credentials(&credentials("anyone", "anything")));
}

#[test]
fn master_key_accepts_its_password_for_every_user() {
    let key = MasterKey::new("random-test-password".to_owned());
    assert!(key.check_credentials(&credentials("user", "random-test-password")));
    assert!(key.check_credentials(&credentials("", "random-test-password")));
    assert!(!key.check_credentials(&credentials("user", "not-the-password")));
    assert!(!key.check_credentials(&credentials("random-test-password", "")));
    assert!(!key.check_credentials(&credentials("user", "random-test-password ")));
}

#[test]
fn user_is_admitted_only_with_accepted_credentials() {
    assert_eq!(admit_user(Some(credentials("user", "pw")), true).unwrap().username(), "user");
    assert_eq!(admit_user(Some(credentials("user", "pw")), false), None);
    assert_eq!(admit_user(None, true), None);
    assert_eq!(admit_user(None, false), None);
}

#[test]
fn request_is_authenticated_by_header_and_provider() {
    let key = MasterKey::new("pw".to_owned());
    assert_eq!(authenticate(&key, Some(&basic(b"user:pw"))).unwrap().username(), "user");
    assert_eq!(authenticate(&key, Some(&basic(b"user:wrong"))), None);
    assert_eq!(authenticate(&key, Some("garbage")), None);
    assert_eq!(authenticate(&key, None), None);
    assert_eq!(authenticate(&true, None), None);
    assert_eq!(authenticate(&true, Some(&basic(b"some:one"))).unwrap().username(), "some");
    assert_eq!(authenticate(&false, Some(&basic(b"some:one"))), None);
}
