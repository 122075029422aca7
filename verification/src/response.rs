//! What a handler answers: a status, headers in order, and a body.

use vstd::prelude::*;
use vstd::utf8::encode_utf8;

verus! {

/// The request succeeded.
pub const STATUS_OK: u16 = 200;

/// A blob was committed or a manifest stored.
pub const STATUS_CREATED: u16 = 201;

/// An upload was started or a chunk taken.
pub const STATUS_ACCEPTED: u16 = 202;

/// The request was malformed.
pub const STATUS_BAD_REQUEST: u16 = 400;

/// Credentials are missing or were refused.
pub const STATUS_UNAUTHORIZED: u16 = 401;

/// No such blob or manifest.
pub const STATUS_NOT_FOUND: u16 = 404;

/// The store failed, or the request needs what the registry does not offer.
pub const STATUS_INTERNAL_SERVER_ERROR: u16 = 500;

/// The value of a header that a request may have, as a view.
pub open spec fn header_view(header: Option<&str>) -> Option<Seq<char>> {
    match header {
        Some(text) => Some(text@),
        None => None,
    }
}

/// One header of a response.
#[derive(Clone, Debug, PartialEq, Eq)]
pub struct Header {
    /// The header's name.
    pub name: String,
    /// The header's value.
    pub value: String,
}

/// A response, as a view.
pub struct ResponseView {
    /// The status code.
    pub status: u16,
    /// The headers, name and value, in order.
    pub headers: Seq<(Seq<char>, Seq<char>)>,
    /// The body.
    pub body: Seq<u8>,
}

/// A response.
#[derive(Clone, Debug, PartialEq, Eq)]
pub struct Response {
    /// The status code.
    pub status: u16,
    /// The headers, in order.
    pub headers: Vec<Header>,
    /// The body.
    pub body: Vec<u8>,
}

impl View for Response {
    type V = ResponseView;

    open spec fn view(&self) -> ResponseView {
        ResponseView {
            status: self.status,
            headers: Seq::new(
                self.headers@.len(),
                |i: int| (self.headers@[i].name@, self.headers@[i].value@),
            ),
            body: self.body@,
        }
    }
}

impl ResponseView {
    /// A response with the given status, no header and an empty body.
    pub open spec fn empty(status: u16) -> ResponseView {
        ResponseView { status, headers: Seq::empty(), body: Seq::empty() }
    }

    /// The response with one more header at the end.
    pub open spec fn with_header(self, name: Seq<char>, value: Seq<char>) -> ResponseView {
        ResponseView { headers: self.headers.push((name, value)), ..self }
    }

    /// The response with the given body.
    pub open spec fn with_body(self, body: Seq<u8>) -> ResponseView {
        ResponseView { body, ..self }
    }

    /// A response whose body is the text `message`.
    pub open spec fn text(status: u16, message: Seq<char>) -> ResponseView {
        ResponseView::empty(status).with_header(
            "Content-Type"@,
            "text/plain; charset=utf-8"@,
        ).with_body(encode_utf8(message))
    }

    /// The value of the first header named `name`, if there is one.
    pub open spec fn header(self, name: Seq<char>) -> Option<Seq<char>> {
        first_header(self.headers, name)
    }
}

/// The value of the first of `headers` that is named `name`, if there is one.
pub open spec fn first_header(headers: Seq<(Seq<char>, Seq<char>)>, name: Seq<char>) -> Option<
    Seq<char>,
>
    decreases headers.len(),
{
    if headers.len() == 0 {
        None
    } else if headers[0].0 == name {
        Some(headers[0].1)
    } else {
        first_header(headers.drop_first(), name)
    }
}

impl Response {
    /// A response with the given status, no header and an empty body.
    pub fn new(status: u16) -> (response: Response)
        ensures
            response@ == ResponseView::empty(status),
    {
        let response = Response { status, headers: Vec::new(), body: Vec::new() };
        assert(response@.headers =~= Seq::empty());
        response
    }

    /// Adds a header at the end.
    pub fn header(self, name: &str, value: String) -> (response: Response)
        ensures
            response@ == self@.with_header(name@, value@),
    {
        let mut response = self;
        response.headers.push(Header { name: String::from_str(name), value });
        assert(response@.headers =~= self@.headers.push((name@, value@)));
        response
    }

    /// Sets the body.
    pub fn body(self, body: Vec<u8>) -> (response: Response)
        ensures
            response@ == self@.with_body(body@),
    {
        let mut response = self;
        response.body = body;
        assert(response@.headers =~= self@.headers);
        response
    }

    /// A response whose body is the text `message`.
    pub fn text(status: u16, message: &str) -> (response: Response)
        ensures
            response@ == ResponseView::text(status, message@),
    {
        Response::new(status).header(
            "Content-Type",
            String::from_str("text/plain; charset=utf-8"),
        ).body(message.as_bytes_vec())
    }

    /// The value of the first header named `name`, if there is one.
    pub fn header_value(&self, name: &str) -> (value: Option<String>)
        ensures
            match value {
                Some(v) => self@.header(name@) == Some(v@),
                None => self@.header(name@) is None,
            },
    {
        let wanted = String::from_str(name);
        let mut i: usize = 0;
        assert(self@.headers.skip(0) =~= self@.headers);
        while i < self.headers.len()
            invariant
                i <= self.headers@.len(),
                wanted@ == name@,
                self@.header(name@) == first_header(self@.headers.skip(i as int), name@),
            decreases self.headers@.len() - i,
        {
            let ghost rest = self@.headers.skip(i as int);
            assert(rest[0] == self@.headers[i as int]);
            assert(rest.drop_first() =~= self@.headers.skip(i + 1));
            if self.headers[i].name == wanted {
                return Some(self.headers[i].value.clone());
            }
            i = i + 1;
        }
        None
    }
}

} // verus!
