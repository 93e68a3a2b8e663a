use vstd::prelude::*;
use vstd::string::*;
use vstd::utf8::encode_utf8;

use crate::client::Client;
use crate::error::{ErrorKind, HttpError};
use crate::header::{
    appended, extended, lemma_fixed_names, lemma_lowered_is_stored, lowered, parse_header_name, parse_header_value, set_field, valid_header_name,
    valid_header_value, FieldView, HeaderMap,
};
use crate::types::{extension_count, Request, RequestBody, RequestPre, Version};
use crate::HttpExecutor;

verus! {

/// A character that may stand in a method, as http's method table admits it.
pub open spec fn is_method_char(c: char) -> bool {
    let u = c as u32;
    u == 33 || u == 42 || u == 43 || u == 45 || u == 46 || (48 <= u && u <= 57) || (65 <= u && u
        <= 90) || (94 <= u && u <= 122) || u == 124 || u == 126
}

/// A method that http accepts: one or more method characters.
pub open spec fn valid_method(s: Seq<char>) -> bool {
    &&& s.len() >= 1
    &&& forall|i: int| 0 <= i < s.len() ==> is_method_char(#[trigger] s[i])
}

/// The canonical text of the URI that http parses from a text, if it parses.
pub uninterp spec fn uri_text(s: Seq<char>) -> Option<Seq<char>>;

/// Relies on http::Method::from_bytes: it accepts exactly the valid methods and
/// keeps them as given.
#[verifier::external_body]
pub(crate) fn parse_method(s: &str) -> (r: Result<String, String>)
    ensures
        r is Ok <==> valid_method(s@),
        r matches Ok(m) ==> m@ == s@,
{
    match http::Method::from_bytes(s.as_bytes()) {
        Ok(m) => Ok(m.as_str().to_string()),
        Err(e) => Err(e.to_string()),
    }
}

/// Relies on http::Uri's parser and its Display: the canonical text depends on
/// the input alone.
#[verifier::external_body]
pub(crate) fn parse_uri(s: &str) -> (r: Result<String, String>)
    ensures
        r is Ok <==> uri_text(s@) is Some,
        r matches Ok(u) ==> uri_text(s@) == Some(u@),
{
    match s.parse::<http::Uri>() {
        Ok(u) => Ok(u.to_string()),
        Err(e) => Err(e.to_string()),
    }
}

/// The standard base64 encoding, with padding, of some bytes.
pub uninterp spec fn base64_text(b: Seq<u8>) -> Seq<char>;

/// A character of the standard base64 alphabet, or the padding sign.
pub open spec fn is_base64_char(c: char) -> bool {
    let u = c as u32;
    (65 <= u && u <= 90) || (97 <= u && u <= 122) || (48 <= u && u <= 57) || u == 43 || u == 47 || u
        == 61
}

/// Relies on base64::encode: the standard alphabet with padding.
#[verifier::external_body]
fn encode_base64(b: &[u8]) -> (r: String)
    ensures
        r@ == base64_text(b@),
        forall|i: int| 0 <= i < r@.len() ==> is_base64_char(#[trigger] r@[i]),
{
    base64::encode(b)
}

/// Relies on serde_json::to_vec: the JSON text of the value, or the error's text.
#[verifier::external_body]
fn encode_json<T: serde::Serialize + ?Sized>(value: &T) -> Result<Vec<u8>, String> {
    serde_json::to_vec(value).map_err(|e| e.to_string())
}

/// Relies on serde_urlencoded::to_string: the form encoding of the value, or
/// the error's text.
#[verifier::external_body]
fn encode_form<T: serde::Serialize>(value: &T) -> Result<String, String> {
    serde_urlencoded::to_string(value).map_err(|e| e.to_string())
}

/// A builder step leaves an error that came before it as it was.
pub open spec fn keeps_error<B>(
    before: Result<RequestPre<B>, HttpError>,
    after: Result<RequestPre<B>, HttpError>,
) -> bool {
    before is Err ==> after == before
}

/// `b` differs from `a` at most in the request's headers.
pub open spec fn same_but_headers<B>(a: RequestPre<B>, b: RequestPre<B>) -> bool {
    b == (RequestPre { request: Request { headers: b.request.headers, ..a.request }, ..a })
}

/// `b` differs from `a` at most in the request's headers and body.
pub open spec fn same_but_headers_body<B>(a: RequestPre<B>, b: RequestPre<B>) -> bool {
    b == (RequestPre {
        request: Request { headers: b.request.headers, body: b.request.body, ..a.request },
        ..a
    })
}

/// An error raised while checking a request part.
pub open spec fn invalid_request<B>(r: Result<RequestPre<B>, HttpError>) -> bool {
    r matches Err(e) && e.kind() == ErrorKind::InvalidRequest && e.message() is None && e.cause() is Some
}

/// A request under construction: the first error stops every later step.
pub struct RequestBuilder<E: HttpExecutor> {
    client: Client<E>,
    result: Result<RequestPre<E::RequestBody>, HttpError>,
}

impl<E: HttpExecutor> RequestBuilder<E> {
    /// The request built so far, or the first error.
    pub closed spec fn outcome(&self) -> Result<RequestPre<E::RequestBody>, HttpError> {
        self.result
    }

    /// The client the request will be sent through.
    pub closed spec fn client_of(&self) -> Client<E> {
        self.client
    }

    /// A GET of "/" with an empty body, no headers, no timeout and no tap.
    pub fn new(client: Client<E>) -> (r: Self)
        ensures
            r.client_of() == client,
            r.outcome() matches Ok(pre) && pre.request.method@ == "GET"@ && pre.request.uri@ == "/"@
                && pre.request.version == Version::Http11 && pre.request.headers@.len() == 0
                && extension_count(pre.request.extensions) == 0
                && pre.request.body == client.executor().generic_body(RequestBody::Empty)
                && pre.timeout is None && pre.tap is None,
    {
        let body = client.exec().request_body_from_generic(RequestBody::Empty);
        let pre = RequestPre { request: Request::new(body), timeout: None, tap: None };
        RequestBuilder { client, result: Ok(pre) }
    }

    pub fn version(self, version: Version) -> (r: Self)
        ensures
            r.client_of() == self.client_of(),
            keeps_error(self.outcome(), r.outcome()),
            self.outcome() matches Ok(pre) ==> r.outcome() == Ok::<RequestPre<E::RequestBody>, HttpError>(
                RequestPre { request: Request { version: version, ..pre.request }, ..pre },
            ),
    {
        let RequestBuilder { client, result } = self;
        let result = match result {
            Ok(pre) => {
                let mut pre = pre;
                pre.request.version = version;
                Ok(pre)
            },
            Err(e) => Err(e),
        };
        RequestBuilder { client, result }
    }

    pub fn method(self, method: &str) -> (r: Self)
        ensures
            r.client_of() == self.client_of(),
            keeps_error(self.outcome(), r.outcome()),
            self.outcome() matches Ok(pre) ==> if valid_method(method@) {
                r.outcome() matches Ok(p) && p.request.method@ == method@ && p == (RequestPre {
                    request: Request { method: p.request.method, ..pre.request },
                    ..pre
                })
            } else {
                invalid_request(r.outcome())
            },
    {
        let RequestBuilder { client, result } = self;
        let result = match result {
            Ok(pre) => match parse_method(method) {
                Ok(m) => {
                    let mut pre = pre;
                    pre.request.method = m;
                    Ok(pre)
                },
                Err(cause) => Err(HttpError::new_invalid_request(cause, None)),
            },
            Err(e) => Err(e),
        };
        RequestBuilder { client, result }
    }

    pub fn uri(self, uri: &str) -> (r: Self)
        ensures
            r.client_of() == self.client_of(),
            keeps_error(self.outcome(), r.outcome()),
            self.outcome() matches Ok(pre) ==> if uri_text(uri@) is Some {
                r.outcome() matches Ok(p) && uri_text(uri@) == Some(p.request.uri@) && p == (
                RequestPre { request: Request { uri: p.request.uri, ..pre.request }, ..pre })
            } else {
                invalid_request(r.outcome())
            },
    {
        let RequestBuilder { client, result } = self;
        let result = match result {
            Ok(pre) => match parse_uri(uri) {
                Ok(u) => {
                    let mut pre = pre;
                    pre.request.uri = u;
                    Ok(pre)
                },
                Err(cause) => Err(HttpError::new_invalid_request(cause, None)),
            },
            Err(e) => Err(e),
        };
        RequestBuilder { client, result }
    }

    /// The target URI of the request built so far, for in-place changes; none
    /// once a step has failed.
    pub fn uri_mut(&mut self) -> (r: Option<&mut String>)
        ensures
            r is Some <==> old(self).outcome() is Ok,
            r matches Some(u) ==> *u == old(self).outcome()->Ok_0.request.uri,
            old(self).outcome() is Err ==> *final(self) == *old(self),
    {
        match &mut self.result {
            Ok(pre) => Some(&mut pre.request.uri),
            Err(_) => None,
        }
    }

    /// Appends a header whose value may be marked sensitive; earlier values of
    /// the same name stay.
    pub fn header_sensitive(self, key: &str, value: &str, is_sensitive: bool) -> (r: Self)
        ensures
            r.client_of() == self.client_of(),
            keeps_error(self.outcome(), r.outcome()),
            self.outcome() matches Ok(pre) ==> if valid_header_name(key@) && valid_header_value(
                value@,
            ) {
                r.outcome() matches Ok(p) && same_but_headers(pre, p) && exists|n: Seq<char>|
                    lowered(key@, n) && p.request.headers@ == appended(
                        pre.request.headers@,
                        n,
                        value@,
                        is_sensitive,
                    )
            } else {
                invalid_request(r.outcome())
            },
    {
        let RequestBuilder { client, result } = self;
        let result = match result {
            Ok(pre) => match parse_header_name(key) {
                Ok(n) => match parse_header_value(value) {
                    Ok(v) => {
                        let mut pre = pre;
                        proof {
                            lemma_lowered_is_stored(key@, n@);
                        }
                        pre.request.headers.append_field(n, v, is_sensitive);
                        Ok(pre)
                    },
                    Err(cause) => Err(HttpError::new_invalid_request(cause, None)),
                },
                Err(cause) => Err(HttpError::new_invalid_request(cause, None)),
            },
            Err(e) => Err(e),
        };
        RequestBuilder { client, result }
    }

    /// Appends a header; earlier values of the same name stay.
    pub fn header(self, key: &str, value: &str) -> (r: Self)
        ensures
            r.client_of() == self.client_of(),
            keeps_error(self.outcome(), r.outcome()),
            self.outcome() matches Ok(pre) ==> if valid_header_name(key@) && valid_header_value(
                value@,
            ) {
                r.outcome() matches Ok(p) && same_but_headers(pre, p) && exists|n: Seq<char>|
                    lowered(key@, n) && p.request.headers@ == appended(
                        pre.request.headers@,
                        n,
                        value@,
                        false,
                    )
            } else {
                invalid_request(r.outcome())
            },
    {
        self.header_sensitive(key, value, false)
    }

    /// Extends the headers: the first value of each name in `headers` replaces
    /// what was there under that name, later ones are appended.
    pub fn headers(self, headers: HeaderMap) -> (r: Self)
        ensures
            r.client_of() == self.client_of(),
            keeps_error(self.outcome(), r.outcome()),
            self.outcome() matches Ok(pre) ==> (r.outcome() matches Ok(p) && same_but_headers(pre, p)
                && p.request.headers@ == extended(pre.request.headers@, headers@)),
    {
        let RequestBuilder { client, result } = self;
        let result = match result {
            Ok(pre) => {
                let mut pre = pre;
                pre.request.headers.extend(headers);
                Ok(pre)
            },
            Err(e) => Err(e),
        };
        RequestBuilder { client, result }
    }

    /// Appends the sensitive header "authorization" with a ready value.
    fn authorization(self, value: &str) -> (r: Self)
        ensures
            r.client_of() == self.client_of(),
            keeps_error(self.outcome(), r.outcome()),
            self.outcome() matches Ok(pre) ==> if valid_header_value(value@) {
                r.outcome() matches Ok(p) && same_but_headers(pre, p) && p.request.headers@
                    == appended(pre.request.headers@, "authorization"@, value@, true)
            } else {
                invalid_request(r.outcome())
            },
    {
        let RequestBuilder { client, result } = self;
        let result = match result {
            Ok(pre) => match parse_header_value(value) {
                Ok(v) => {
                    let mut pre = pre;
                    proof {
                        lemma_fixed_names();
                    }
                    pre.request.headers.append_field(String::from_str("authorization"), v, true);
                    Ok(pre)
                },
                Err(cause) => Err(HttpError::new_invalid_request(cause, None)),
            },
            Err(e) => Err(e),
        };
        RequestBuilder { client, result }
    }

    /// Appends a sensitive "authorization" header `Basic <base64 of user:password>`.
    pub fn basic_auth(self, username: &str, password: Option<&str>) -> (r: Self)
        ensures
            r.client_of() == self.client_of(),
            keeps_error(self.outcome(), r.outcome()),
            self.outcome() matches Ok(pre) ==> (r.outcome() matches Ok(p) && same_but_headers(pre, p)
                && p.request.headers@ == appended(
                pre.request.headers@,
                "authorization"@,
                "Basic "@ + base64_text(
                    encode_utf8(username@ + ":"@ + match password {
                        Some(pw) => pw@,
                        None => Seq::<char>::empty(),
                    }),
                ),
                true,
            )),
    {
        let mut credentials = String::from_str(username);
        credentials.append(":");
        match password {
            Some(pw) => credentials.append(pw),
            None => {},
        }
        let bytes = credentials.as_str().as_bytes();
        let encoded = encode_base64(bytes);
        let mut value = String::from_str("Basic ");
        value.append(encoded.as_str());
        proof {
            reveal_strlit("Basic ");
            assert(value@ =~= "Basic "@ + encoded@);
            assert forall|i: int| 0 <= i < value@.len() implies {
                let u = (#[trigger] value@[i]) as u32;
                (u >= 32 && u != 127) || u == 9
            } by {
                if i >= 6 {
                    assert(value@[i] == encoded@[i - 6]);
                    assert(is_base64_char(encoded@[i - 6]));
                }
            }
        }
        self.authorization(value.as_str())
    }

    /// Appends a sensitive "authorization" header `Bearer <token>`.
    pub fn bearer_auth(self, token: &str) -> (r: Self)
        ensures
            r.client_of() == self.client_of(),
            keeps_error(self.outcome(), r.outcome()),
            self.outcome() matches Ok(pre) ==> if valid_header_value(token@) {
                r.outcome() matches Ok(p) && same_but_headers(pre, p) && p.request.headers@
                    == appended(pre.request.headers@, "authorization"@, "Bearer "@ + token@, true)
            } else {
                invalid_request(r.outcome())
            },
    {
        let mut value = String::from_str("Bearer ");
        value.append(token);
        proof {
            reveal_strlit("Bearer ");
            assert(value@ =~= "Bearer "@ + token@);
            if valid_header_value(token@) {
                assert forall|i: int| 0 <= i < value@.len() implies {
                    let u = (#[trigger] value@[i]) as u32;
                    (u >= 32 && u != 127) || u == 9
                } by {
                    if i >= 7 {
                        assert(value@[i] == token@[i - 7]);
                    }
                }
            } else {
                let j = choose|j: int| 0 <= j < token@.len() && !{
                    let u = (#[trigger] token@[j]) as u32;
                    (u >= 32 && u != 127) || u == 9
                };
                assert(value@[j + 7] == token@[j]);
            }
        }
        self.authorization(value.as_str())
    }

    /// Replaces the body.
    pub fn body(self, body: E::RequestBody) -> (r: Self)
        ensures
            r.client_of() == self.client_of(),
            keeps_error(self.outcome(), r.outcome()),
            self.outcome() matches Ok(pre) ==> r.outcome() == Ok::<RequestPre<E::RequestBody>, HttpError>(
                RequestPre { request: Request { body: body, ..pre.request }, ..pre },
            ),
    {
        let RequestBuilder { client, result } = self;
        let result = match result {
            Ok(pre) => {
                let mut pre = pre;
                pre.request.body = body;
                Ok(pre)
            },
            Err(e) => Err(e),
        };
        RequestBuilder { client, result }
    }

    /// Takes an encoded body: on success the body becomes those bytes, as the
    /// executor represents them, and "content-type" is set; an encoding error
    /// becomes `InvalidRequestJson` with its text as cause.
    pub fn encoded_body(self, encoded: Result<Vec<u8>, String>, content_type: &str) -> (r: Self)
        requires
            valid_header_value(content_type@),
        ensures
            r.client_of() == self.client_of(),
            keeps_error(self.outcome(), r.outcome()),
            self.outcome() matches Ok(pre) ==> match encoded {
                Ok(raw) => r.outcome() matches Ok(p) && same_but_headers_body(pre, p)
                    && p.request.body == self.client_of().executor().generic_body(RequestBody::Bytes(raw))
                    && p.request.headers@ == set_field(
                    pre.request.headers@,
                    "content-type"@,
                    content_type@,
                    false,
                ),
                Err(t) => r.outcome() matches Err(e) && e.kind() == ErrorKind::InvalidRequestJson
                    && e.cause() == Some(t@) && e.message() is None,
            },
    {
        let RequestBuilder { client, result } = self;
        let result = match result {
            Ok(pre) => match encoded {
                Ok(raw) => {
                    let mut pre = pre;
                    pre.request.body = client.exec().request_body_from_generic(RequestBody::Bytes(raw));
                    proof {
                        lemma_fixed_names();
                    }
                    pre.request.headers.set_field(
                        String::from_str("content-type"),
                        String::from_str(content_type),
                        false,
                    );
                    Ok(pre)
                },
                Err(cause) => Err(HttpError::new(ErrorKind::InvalidRequestJson, Some(cause), None)),
            },
            Err(e) => Err(e),
        };
        RequestBuilder { client, result }
    }

    /// Encodes the value as JSON into the body, with content type
    /// "application/json".
    pub fn json<T: serde::Serialize + ?Sized>(self, value: &T) -> (r: Self)
        ensures
            r.client_of() == self.client_of(),
            keeps_error(self.outcome(), r.outcome()),
            self.outcome() matches Ok(pre) ==> match r.outcome() {
                Ok(p) => same_but_headers_body(pre, p) && p.request.headers@ == set_field(
                    pre.request.headers@,
                    "content-type"@,
                    "application/json"@,
                    false,
                ) && exists|raw: Vec<u8>| p.request.body == self.client_of().executor().generic_body(
                    RequestBody::Bytes(raw),
                ),
                Err(e) => e.kind() == ErrorKind::InvalidRequestJson && e.cause() is Some
                    && e.message() is None,
            },
    {
        if self.result.is_err() {
            return self;
        }
        let encoded = encode_json(value);
        proof {
            reveal_strlit("application/json");
        }
        self.encoded_body(encoded, "application/json")
    }

    /// Encodes the value as a URL-encoded form into the body, with content type
    /// "application/x-www-form-urlencoded".
    pub fn form<T: serde::Serialize>(self, data: &T) -> (r: Self)
        ensures
            r.client_of() == self.client_of(),
            keeps_error(self.outcome(), r.outcome()),
            self.outcome() matches Ok(pre) ==> match r.outcome() {
                Ok(p) => same_but_headers_body(pre, p) && p.request.headers@ == set_field(
                    pre.request.headers@,
                    "content-type"@,
                    "application/x-www-form-urlencoded"@,
                    false,
                ) && exists|raw: Vec<u8>| p.request.body == self.client_of().executor().generic_body(
                    RequestBody::Bytes(raw),
                ),
                Err(e) => e.kind() == ErrorKind::InvalidRequestJson && e.cause() is Some
                    && e.message() is None,
            },
    {
        if self.result.is_err() {
            return self;
        }
        let encoded = match encode_form(data) {
            Ok(s) => Ok(s.as_str().as_bytes_vec()),
            Err(t) => Err(t),
        };
        proof {
            reveal_strlit("application/x-www-form-urlencoded");
        }
        self.encoded_body(encoded, "application/x-www-form-urlencoded")
    }

    pub fn timeout(self, timeout: std::time::Duration) -> (r: Self)
        ensures
            r.client_of() == self.client_of(),
            keeps_error(self.outcome(), r.outcome()),
            self.outcome() matches Ok(pre) ==> r.outcome() == Ok::<RequestPre<E::RequestBody>, HttpError>(
                RequestPre { timeout: Some(timeout), ..pre },
            ),
    {
        let RequestBuilder { client, result } = self;
        let result = match result {
            Ok(pre) => {
                let mut pre = pre;
                pre.timeout = Some(timeout);
                Ok(pre)
            },
            Err(e) => Err(e),
        };
        RequestBuilder { client, result }
    }

    /// The request built, or the first error, without sending anything.
    pub fn build(self) -> (r: Result<RequestPre<E::RequestBody>, HttpError>)
        ensures
            r == self.outcome(),
    {
        self.result
    }

    /// Takes the builder apart into its client and what it built.
    pub fn into_parts(self) -> (r: (Client<E>, Result<RequestPre<E::RequestBody>, HttpError>))
        ensures
            r.0 == self.client_of(),
            r.1 == self.outcome(),
    {
        (self.client, self.result)
    }

    /// Sends the request through the client (`Client::send_pre`), or hands the
    /// first error to the executor's `new_output_error`, so that the caller gets
    /// the executor's usual output.
    pub fn send(self) -> E::Output {
        let (client, result) = self.into_parts();
        match result {
            Ok(pre) => client.send_pre(pre),
            Err(e) => client.exec().new_output_error(e),
        }
    }
}

} // verus!
