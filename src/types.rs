use vstd::prelude::*;
use vstd::string::*;

use crate::client::Tapper;
use crate::error::{ErrorKind, HttpError};
use crate::header::HeaderMap;
use crate::Respond;

verus! {

/// http's property bag, carried through requests and responses unread.
#[verifier::external_type_specification]
#[verifier::external_body]
pub struct ExExtensions(http::Extensions);

/// How many values a property bag holds.
pub uninterp spec fn extension_count(e: http::Extensions) -> nat;

/// Relies on http::Extensions::new: an empty property bag.
pub assume_specification[ http::Extensions::new ]() -> (r: http::Extensions)
    ensures
        extension_count(r) == 0,
;

/// The protocol version of a request or a response.
#[derive(PartialEq, Eq, Structural, Clone, Copy, Debug)]
pub enum Version {
    Http09,
    Http10,
    Http11,
    Http2,
    Http3,
}

impl Default for Version {
    fn default() -> (r: Version)
        ensures
            r == Version::Http11,
    {
        Version::Http11
    }
}

/// An owned incremental byte source: a boxed `std::io::Read`, which Verus cannot
/// name, so only `read_to_end` below reads it.
#[verifier::external_body]
pub struct ByteSource(pub Box<dyn std::io::Read>);

/// Relies on std::io::Read::read_to_end: drains the source, or reports the
/// error's text.
#[verifier::external_body]
pub(crate) fn read_to_end(source: ByteSource) -> (r: Result<Vec<u8>, String>) {
    let mut reader = source.0;
    let mut buf = Vec::new();
    match std::io::Read::read_to_end(&mut reader, &mut buf) {
        Ok(_) => Ok(buf),
        Err(e) => Err(e.to_string()),
    }
}

/// The body of a request before a backend specialises it.
pub enum RequestBody {
    Empty,
    Bytes(Vec<u8>),
    Read(ByteSource),
}

impl From<Vec<u8>> for RequestBody {
    fn from(b: Vec<u8>) -> (r: RequestBody) {
        RequestBody::Bytes(b)
    }
}

impl vstd::std_specs::convert::FromSpecImpl<Vec<u8>> for RequestBody {
    open spec fn obeys_from_spec() -> bool {
        true
    }

    open spec fn from_spec(b: Vec<u8>) -> RequestBody {
        RequestBody::Bytes(b)
    }
}

impl RequestBody {
    /// Whether the body is the byte buffer `b`.
    pub open spec fn holds_bytes(&self, b: Seq<u8>) -> bool {
        self matches RequestBody::Bytes(v) && v@ == b
    }

    /// A body holding the UTF-8 bytes of `s`.
    pub fn from_text(s: &str) -> (r: RequestBody)
        ensures
            r.holds_bytes(s.spec_bytes()),
    {
        RequestBody::Bytes(s.as_bytes_vec())
    }
}

/// A request: method, target, protocol version, headers, property bag and body.
pub struct Request<B> {
    pub method: String,
    pub uri: String,
    pub version: Version,
    pub headers: HeaderMap,
    pub extensions: http::Extensions,
    pub body: B,
}

impl<B> Request<B> {
    /// A GET request for "/" over HTTP/1.1 without headers.
    pub fn new(body: B) -> (r: Request<B>)
        ensures
            r.method@ == "GET"@,
            r.uri@ == "/"@,
            r.version == Version::Http11,
            r.headers@.len() == 0,
            extension_count(r.extensions) == 0,
            r.body == body,
    {
        Request {
            method: String::from_str("GET"),
            uri: String::from_str("/"),
            version: Version::Http11,
            headers: HeaderMap::new(),
            extensions: http::Extensions::new(),
            body,
        }
    }

    /// Everything but the body is the same in `self` and `other`.
    pub open spec fn same_head<C>(&self, other: Request<C>) -> bool {
        &&& self.method == other.method
        &&& self.uri == other.uri
        &&& self.version == other.version
        &&& self.headers == other.headers
        &&& self.extensions == other.extensions
    }

    /// Replaces the body by `f` of it, keeping the rest.
    pub fn map_body<B2, F: FnOnce(B) -> B2>(self, f: F) -> (r: Request<B2>)
        requires
            f.requires((self.body,)),
        ensures
            self.same_head(r),
            f.ensures((self.body,), r.body),
    {
        Request {
            method: self.method,
            uri: self.uri,
            version: self.version,
            headers: self.headers,
            extensions: self.extensions,
            body: f(self.body),
        }
    }
}

/// A request with what its submission carries: a timeout and a response tap.
pub struct RequestPre<B> {
    pub request: Request<B>,
    pub timeout: Option<std::time::Duration>,
    pub tap: Option<Tapper>,
}

impl<B> RequestPre<B> {
    /// Replaces the request's body by `f` of it, keeping the rest.
    pub fn map_body<B2, F: FnOnce(B) -> B2>(self, f: F) -> (r: RequestPre<B2>)
        requires
            f.requires((self.request.body,)),
        ensures
            self.request.same_head(r.request),
            f.ensures((self.request.body,), r.request.body),
            r.timeout == self.timeout,
            r.tap == self.tap,
    {
        RequestPre { request: self.request.map_body(f), timeout: self.timeout, tap: self.tap }
    }
}

/// An HTTP status code: three digits, 100 to 999, as http's `StatusCode` admits.
#[derive(PartialEq, Eq, Structural, Clone, Copy, Debug)]
pub struct StatusCode {
    code: u16,
}

impl StatusCode {
    #[verifier::type_invariant]
    spec fn in_range(&self) -> bool {
        100 <= self.code <= 999
    }

    /// The numeric code.
    pub closed spec fn code(&self) -> u16 {
        self.code
    }

    /// The code `n`, if it has three digits.
    pub fn from_u16(n: u16) -> (r: Option<StatusCode>)
        ensures
            r is Some <==> 100 <= n <= 999,
            r matches Some(c) ==> c.code() == n,
    {
        if 100 <= n && n <= 999 {
            Some(StatusCode { code: n })
        } else {
            None
        }
    }

    /// 200 OK.
    pub fn ok() -> (r: StatusCode)
        ensures
            r.code() == 200,
    {
        StatusCode { code: 200 }
    }

    pub fn as_u16(&self) -> (r: u16)
        ensures
            r == self.code(),
            100 <= r <= 999,
    {
        proof {
            use_type_invariant(self);
        }
        self.code
    }
}

/// Whether a status code is in the success class (200 to 299).
pub open spec fn is_success(status: StatusCode) -> bool {
    200 <= status.code() <= 299
}

/// A response: final URI if known, status, version, headers, property bag and body.
pub struct Response<B> {
    pub uri: Option<String>,
    pub status: StatusCode,
    pub version: Version,
    pub headers: HeaderMap,
    pub extensions: http::Extensions,
    pub body: B,
}

impl<B: Clone> Clone for Response<B> {
    /// A copy of the head and the body; the property bag starts empty.
    fn clone(&self) -> (r: Self)
        ensures
            r.uri == self.uri,
            r.status == self.status,
            r.version == self.version,
            r.headers@ == self.headers@,
            extension_count(r.extensions) == 0,
    {
        let uri = match &self.uri {
            Some(u) => Some(u.clone()),
            None => None,
        };
        Response {
            uri,
            status: self.status,
            version: self.version,
            headers: self.headers.clone(),
            extensions: http::Extensions::new(),
            body: self.body.clone(),
        }
    }
}

impl<B: Default> Default for Response<B> {
    fn default() -> (r: Self)
        ensures
            r.uri is None,
            r.status.code() == 200,
            r.version == Version::Http11,
            r.headers@.len() == 0,
            extension_count(r.extensions) == 0,
    {
        Response::new(B::default())
    }
}

impl<B> Response<B> {
    /// Everything but the body is the same in `self` and `other`.
    pub open spec fn same_head<C>(&self, other: Response<C>) -> bool {
        &&& self.uri == other.uri
        &&& self.status == other.status
        &&& self.version == other.version
        &&& self.headers == other.headers
        &&& self.extensions == other.extensions
    }

    /// A 200 response over HTTP/1.1 without URI or headers.
    pub fn new(body: B) -> (r: Response<B>)
        ensures
            r.uri is None,
            r.status.code() == 200,
            r.version == Version::Http11,
            r.headers@.len() == 0,
            extension_count(r.extensions) == 0,
            r.body == body,
    {
        Response {
            uri: None,
            status: StatusCode::ok(),
            version: Version::Http11,
            headers: HeaderMap::new(),
            extensions: http::Extensions::new(),
            body,
        }
    }

    pub fn status(&self) -> (r: StatusCode)
        ensures
            r == self.status,
    {
        self.status
    }

    pub fn status_mut(&mut self) -> (r: &mut StatusCode)
        ensures
            *r == old(self).status,
            *final(self) == (Response { status: *final(r), ..*old(self) }),
    {
        &mut self.status
    }

    pub fn version(&self) -> (r: Version)
        ensures
            r == self.version,
    {
        self.version
    }

    pub fn version_mut(&mut self) -> (r: &mut Version)
        ensures
            *r == old(self).version,
            *final(self) == (Response { version: *final(r), ..*old(self) }),
    {
        &mut self.version
    }

    pub fn uri_mut(&mut self) -> (r: &mut Option<String>)
        ensures
            *r == old(self).uri,
            *final(self) == (Response { uri: *final(r), ..*old(self) }),
    {
        &mut self.uri
    }

    pub fn extensions_mut(&mut self) -> (r: &mut http::Extensions)
        ensures
            *r == old(self).extensions,
            *final(self) == (Response { extensions: *final(r), ..*old(self) }),
    {
        &mut self.extensions
    }

    pub fn body_mut(&mut self) -> (r: &mut B)
        ensures
            *r == old(self).body,
            *final(self) == (Response { body: *final(r), ..*old(self) }),
    {
        &mut self.body
    }

    pub fn uri(&self) -> (r: &Option<String>)
        ensures
            *r == self.uri,
    {
        &self.uri
    }

    pub fn headers(&self) -> (r: &HeaderMap)
        ensures
            *r == self.headers,
    {
        &self.headers
    }

    pub fn headers_mut(&mut self) -> (r: &mut HeaderMap)
        ensures
            *r == old(self).headers,
            *final(self) == (Response { headers: *final(r), ..*old(self) }),
    {
        &mut self.headers
    }

    pub fn extensions(&self) -> (r: &http::Extensions)
        ensures
            *r == self.extensions,
    {
        &self.extensions
    }

    pub fn body(&self) -> (r: &B)
        ensures
            *r == self.body,
    {
        &self.body
    }

    pub fn into_body(self) -> (r: B)
        ensures
            r == self.body,
    {
        self.body
    }

    /// Replaces the body by `f` of it, keeping the head.
    pub fn map_body<U, F: FnOnce(B) -> U>(self, f: F) -> (r: Response<U>)
        requires
            f.requires((self.body,)),
        ensures
            self.same_head(r),
            f.ensures((self.body,), r.body),
    {
        Response {
            uri: self.uri,
            status: self.status,
            version: self.version,
            headers: self.headers,
            extensions: self.extensions,
            body: f(self.body),
        }
    }

    /// Replaces the body by `f` of it, keeping the head.
    pub fn map<U, F: FnOnce(B) -> U>(self, f: F) -> (r: Response<U>)
        requires
            f.requires((self.body,)),
        ensures
            self.same_head(r),
            f.ensures((self.body,), r.body),
    {
        self.map_body(f)
    }

    /// Splits the response into its head, with an empty body, and its body.
    pub fn take_body(self) -> (r: (Response<()>, B))
        ensures
            self.same_head(r.0),
            r.1 == self.body,
    {
        (
            Response {
                uri: self.uri,
                status: self.status,
                version: self.version,
                headers: self.headers,
                extensions: self.extensions,
                body: (),
            },
            self.body,
        )
    }

    /// Consumes the response and drains its body as one buffer.
    pub fn bytes(self) -> B::BytesOutput
        where
            B: Respond,
    {
        self.body.bytes()
    }

    /// The response itself for a success status, else a `NonSuccessStatus` error
    /// that carries the status.
    pub fn error_for_status(self) -> (r: Result<Self, HttpError>)
        ensures
            is_success(self.status) ==> r == Ok::<Self, HttpError>(self),
            !is_success(self.status) ==> (r matches Err(e) && e.kind() == ErrorKind::NonSuccessStatus(
                self.status.code(),
            ) && e.cause() is None && e.message() is None),
    {
        let code = self.status.as_u16();
        if 200 <= code && code <= 299 {
            Ok(self)
        } else {
            Err(HttpError::new(ErrorKind::NonSuccessStatus(code), None, None))
        }
    }
}

} // verus!
