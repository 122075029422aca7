//! The authentication gate: credentials from an `Authorization` header of the Basic
//! scheme, and the providers that accept or refuse them.

use crate::encoding::ascii_bytes;
use crate::response::header_view;
use vstd::prelude::*;
use vstd::slice::slice_subrange;
use vstd::utf8::{decode_utf8, encode_utf8, valid_utf8};

verus! {

/// What the standard base64 alphabet with padding decodes `text` to, as `base64` reads
/// it; `None` where it refuses the text.
pub uninterp spec fn base64_decoded(text: Seq<u8>) -> Option<Seq<u8>>;

/// `base64::DecodeError`, the error of the `base64` crate's decoders; nothing is known
/// of its inside.
#[verifier::external_type_specification]
#[verifier::external_body]
pub struct ExDecodeError(base64::DecodeError);

/// `std::string::FromUtf8Error`, the error of `String::from_utf8`; nothing is known of
/// its inside.
#[verifier::external_type_specification]
#[verifier::external_body]
pub struct ExFromUtf8Error(std::string::FromUtf8Error);

/// `base64::Engine::decode` of the engine `STANDARD`. Believed, not proved; the decoded
/// bytes are only named.
#[verifier::external_body]
fn base64_decode(text: &[u8]) -> (r: Result<Vec<u8>, base64::DecodeError>)
    ensures
        match r {
            Ok(bytes) => base64_decoded(text@) == Some(bytes@),
            Err(_) => base64_decoded(text@) is None,
        },
{
    base64::Engine::decode(&base64::engine::general_purpose::STANDARD, text)
}

/// `String::from_utf8`: the text that `bytes` encode, where they are UTF-8, and an error
/// where they are not. Believed, not proved.
#[verifier::external_body]
fn string_from_utf8(bytes: Vec<u8>) -> (r: Result<String, std::string::FromUtf8Error>)
    ensures
        match r {
            Ok(text) => valid_utf8(bytes@) && text@ == decode_utf8(bytes@),
            Err(_) => !valid_utf8(bytes@),
        },
{
    String::from_utf8(bytes)
}

/// A user name and a password, as a client gave them; nothing is known of them yet.
#[derive(Debug, PartialEq, Eq)]
pub struct UnverifiedCredentials {
    username: String,
    password: String,
}

impl View for UnverifiedCredentials {
    type V = (Seq<char>, Seq<char>);

    closed spec fn view(&self) -> (Seq<char>, Seq<char>) {
        (self.username@, self.password@)
    }
}

impl UnverifiedCredentials {
    /// The credentials of `username` with `password`.
    pub fn new(username: String, password: String) -> (credentials: UnverifiedCredentials)
        ensures
            credentials@ == (username@, password@),
    {
        UnverifiedCredentials { username, password }
    }

    /// The user name.
    pub fn username(&self) -> (username: &str)
        ensures
            username@ == self@.0,
    {
        self.username.as_str()
    }

    /// The password.
    pub fn password(&self) -> (password: &str)
        ensures
            password@ == self@.1,
    {
        self.password.as_str()
    }
}

/// The user name and the password in `text`: what stands before its first colon, and
/// what stands after it.
pub open spec fn split_credentials(text: Seq<char>) -> Option<(Seq<char>, Seq<char>)> {
    match text.index_of_first(':') {
        Some(at) => Some((text.take(at), text.skip(at + 1))),
        None => None,
    }
}

/// The credentials in the decoded payload of a Basic header: the payload is UTF-8 and
/// holds a colon.
pub open spec fn payload_credentials(payload: Seq<u8>) -> Option<(Seq<char>, Seq<char>)> {
    if valid_utf8(payload) {
        split_credentials(decode_utf8(payload))
    } else {
        None
    }
}

/// The credentials in the value of an `Authorization` header: `Basic`, a space, and the
/// base64 of user name, colon and password.
pub open spec fn basic_credentials(header: Seq<u8>) -> Option<(Seq<char>, Seq<char>)> {
    if header.len() < 6 || header.subrange(0, 6) != ascii_bytes("Basic "@) {
        None
    } else {
        match base64_decoded(header.subrange(6, header.len() as int)) {
            Some(payload) => payload_credentials(payload),
            None => None,
        }
    }
}

/// Reads the credentials in the decoded payload of a Basic header.
pub fn credentials_from_payload(payload: Vec<u8>) -> (r: Option<UnverifiedCredentials>)
    ensures
        match r {
            Some(credentials) => payload_credentials(payload@) == Some(credentials@),
            None => payload_credentials(payload@) is None,
        },
{
    let text = match string_from_utf8(payload) {
        Ok(text) => text,
        Err(_) => {
            return None;
        },
    };
    let whole = text.as_str();
    let n = whole.unicode_len();
    let mut i: usize = 0;
    while i < n
        invariant
            i <= n,
            n == whole@.len(),
            valid_utf8(payload@),
            whole@ == decode_utf8(payload@),
            forall|j: int| 0 <= j < i ==> whole@[j] != ':',
        decreases n - i,
    {
        if whole.get_char(i) == ':' {
            let username = whole.substring_char(0, i);
            let password = whole.substring_char(i + 1, n);
            proof {
                whole@.index_of_first_ensures(':');
                let first = whole@.index_of_first(':');
                assert(whole@[i as int] == ':');
                assert(whole@.contains(':'));
                let at = first->Some_0;
                assert(at == i);
                assert(whole@.take(at) =~= whole@.subrange(0, i as int));
                assert(whole@.skip(at + 1) =~= whole@.subrange(i + 1, n as int));
            }
            return Some(
                UnverifiedCredentials {
                    username: String::from_str(username),
                    password: String::from_str(password),
                },
            );
        }
        i = i + 1;
    }
    proof {
        whole@.index_of_first_ensures(':');
    }
    None
}

/// Reads the credentials in the value of an `Authorization` header.
pub fn parse_basic(header: &str) -> (r: Option<UnverifiedCredentials>)
    ensures
        match r {
            Some(credentials) => basic_credentials(encode_utf8(header@)) == Some(credentials@),
            None => basic_credentials(encode_utf8(header@)) is None,
        },
{
    let bytes = header.as_bytes();
    if bytes.len() < 6 {
        return None;
    }
    proof {
        reveal_strlit("Basic ");
    }
    let ghost head = bytes@.subrange(0, 6);
    let ghost scheme = ascii_bytes("Basic "@);
    assert(head[0] == bytes@[0] && head[1] == bytes@[1] && head[2] == bytes@[2] && head[3]
        == bytes@[3] && head[4] == bytes@[4] && head[5] == bytes@[5]);
    assert(scheme.len() == 6 && scheme[0] == 66 && scheme[1] == 97 && scheme[2] == 115
        && scheme[3] == 105 && scheme[4] == 99 && scheme[5] == 32);
    if !(bytes[0] == 66 && bytes[1] == 97 && bytes[2] == 115 && bytes[3] == 105 && bytes[4] == 99
        && bytes[5] == 32) {
        assert(head != scheme);
        return None;
    }
    assert(head =~= scheme);
    let token = slice_subrange(bytes, 6, bytes.len());
    match base64_decode(token) {
        Ok(payload) => credentials_from_payload(payload),
        Err(_) => None,
    }
}

/// Decides whether credentials are good. A provider must not change anything when it is
/// asked.
pub trait AuthProvider {
    /// Whether the provider accepts `username` with `password`.
    spec fn accepts(&self, username: Seq<char>, password: Seq<char>) -> bool;

    /// Checks the credentials that a client gave.
    fn check_credentials(&self, credentials: &UnverifiedCredentials) -> (accepted: bool)
        ensures
            accepted == self.accepts(credentials@.0, credentials@.1),
    ;
}

/// `true` accepts every user name and password, `false` none.
impl AuthProvider for bool {
    open spec fn accepts(&self, username: Seq<char>, password: Seq<char>) -> bool {
        *self
    }

    fn check_credentials(&self, credentials: &UnverifiedCredentials) -> (accepted: bool) {
        *self
    }
}

/// One password that every user name is accepted with.
#[derive(Debug)]
pub struct MasterKey {
    key: String,
}

impl MasterKey {
    /// The provider that accepts exactly the password `key`.
    pub fn new(key: String) -> (provider: MasterKey)
        ensures
            forall|username: Seq<char>, password: Seq<char>| #[trigger]
                provider.accepts(username, password) == (password == key@),
    {
        MasterKey { key }
    }
}

impl AuthProvider for MasterKey {
    closed spec fn accepts(&self, username: Seq<char>, password: Seq<char>) -> bool {
        password == self.key@
    }

    fn check_credentials(&self, credentials: &UnverifiedCredentials) -> (accepted: bool) {
        self.key == credentials.password
    }
}

/// A user whose credentials a provider accepted.
#[derive(Debug, PartialEq, Eq)]
pub struct ValidUser {
    username: String,
}

impl View for ValidUser {
    type V = Seq<char>;

    closed spec fn view(&self) -> Seq<char> {
        self.username@
    }
}

impl ValidUser {
    /// The user's name.
    pub fn username(&self) -> (username: &str)
        ensures
            username@ == self@,
    {
        self.username.as_str()
    }
}

/// The user behind a request: the one whose credentials its `Authorization` header
/// holds, where `provider` accepts them.
pub open spec fn authorized_user<A: AuthProvider>(
    provider: &A,
    authorization: Option<Seq<char>>,
) -> Option<Seq<char>> {
    match authorization {
        Some(header) => match basic_credentials(encode_utf8(header)) {
            Some(credentials) => if provider.accepts(credentials.0, credentials.1) {
                Some(credentials.0)
            } else {
                None
            },
            None => None,
        },
        None => None,
    }
}

/// Admits a user on the outcome of the header and of the provider: there must be
/// credentials, and the provider must have accepted them.
pub fn admit_user(credentials: Option<UnverifiedCredentials>, accepted: bool) -> (user: Option<
    ValidUser,
>)
    ensures
        match user {
            Some(u) => accepted && (credentials matches Some(c) && u@ == c@.0),
            None => !accepted || credentials is None,
        },
{
    match credentials {
        Some(c) => if accepted {
            Some(ValidUser { username: c.username })
        } else {
            None
        },
        None => None,
    }
}

/// Authenticates a request: reads the credentials in its `Authorization` header, if it
/// has one, and asks `provider` once.
pub fn authenticate<A: AuthProvider>(provider: &A, authorization: Option<&str>) -> (user: Option<
    ValidUser,
>)
    ensures
        match user {
            Some(u) => authorized_user(provider, header_view(authorization)) == Some(u@),
            None => authorized_user(provider, header_view(authorization)) is None,
        },
{
    match authorization {
        Some(header) => match parse_basic(header) {
            Some(credentials) => {
                let accepted = provider.check_credentials(&credentials);
                admit_user(Some(credentials), accepted)
            },
            None => None,
        },
        None => None,
    }
}

} // verus!
