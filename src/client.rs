use std::sync::Arc;
use std::sync::RwLock;

use vstd::prelude::*;
use vstd::string::*;

use crate::builder::{invalid_request, uri_text, valid_method, RequestBuilder};
use crate::header::{has_name, values_of, lemma_fixed_names, set_field, valid_header_value, FieldView, HeaderMap, parse_header_value};
use crate::types::{Request, RequestPre, Response, Version};
use crate::HttpExecutor;

verus! {

/// Cookie storage shared by a client and its tap: cookie_store's store behind
/// a lock, which Verus cannot hold; only the wrappers below touch it.
#[verifier::external_body]
pub struct CookieJar {
    store: RwLock<cookie_store::CookieStore>,
}

/// url's parsed URL, carried from the parser to the cookie store.
#[verifier::external_type_specification]
#[verifier::external_body]
pub struct ExUrl(url::Url);

/// cookie's parsed cookie, carried from the parser to the cookie store.
#[verifier::external_type_specification]
#[verifier::external_body]
pub struct ExCookie<'c>(cookie::Cookie<'c>);

/// Whether url's parser accepts a text as an absolute URL.
pub uninterp spec fn url_parses(s: Seq<char>) -> bool;

/// Relies on url::Url::parse: whether it succeeds depends on the text alone.
#[verifier::external_body]
fn parse_url(s: &str) -> (r: Option<url::Url>)
    ensures
        r is Some <==> url_parses(s@),
{
    url::Url::parse(s).ok()
}

/// Relies on cookie::Cookie::parse: reads one Set-Cookie value.
#[verifier::external_body]
fn parse_set_cookie(s: &str) -> Option<cookie::Cookie<'static>> {
    cookie::Cookie::parse(s.to_string()).ok()
}

/// Relies on cookie_store::CookieStore::default: an empty store.
#[verifier::external_body]
fn new_cookie_jar() -> CookieJar {
    CookieJar { store: RwLock::new(cookie_store::CookieStore::default()) }
}

/// Relies on cookie_store::CookieStore::get_request_values: name and value of
/// each stored cookie that matches the URL. What matches depends on what was
/// stored and on the time, so nothing is stated of it.
#[verifier::external_body]
fn jar_request_values(jar: &CookieJar, url: &url::Url) -> Vec<(String, String)> {
    let store = match jar.store.read() {
        Ok(guard) => guard,
        Err(poisoned) => poisoned.into_inner(),
    };
    store.get_request_values(url).map(|(n, v)| (n.to_string(), v.to_string())).collect()
}

/// Relies on cookie_store::CookieStore::store_response_cookies: stores a cookie
/// received from the URL.
#[verifier::external_body]
fn jar_store(jar: &CookieJar, cookie: cookie::Cookie<'static>, url: &url::Url) {
    let mut store = match jar.store.write() {
        Ok(guard) => guard,
        Err(poisoned) => poisoned.into_inner(),
    };
    store.store_response_cookies(std::iter::once(cookie), url);
}

/// The view of cookie name/value pairs.
pub open spec fn pairs_view(pairs: Seq<(String, String)>) -> Seq<(Seq<char>, Seq<char>)> {
    pairs.map_values(|p: (String, String)| (p.0@, p.1@))
}

/// One cookie as it stands in a Cookie header: `name=value`.
pub open spec fn cookie_pair(p: (Seq<char>, Seq<char>)) -> Seq<char> {
    p.0 + "="@ + p.1
}

/// The Cookie header line: every pair, joined by "; ".
pub open spec fn cookie_line(pairs: Seq<(Seq<char>, Seq<char>)>) -> Seq<char>
    decreases pairs.len(),
{
    if pairs.len() == 0 {
        Seq::empty()
    } else if pairs.len() == 1 {
        cookie_pair(pairs[0])
    } else {
        cookie_line(pairs.drop_last()) + "; "@ + cookie_pair(pairs.last())
    }
}

/// The headers after cookie injection: unchanged where a Cookie header is
/// already present, there is no cookie, or the line is not a valid value;
/// else the line is set.
pub open spec fn with_cookie_line(h: Seq<FieldView>, pairs: Seq<(Seq<char>, Seq<char>)>) -> Seq<FieldView> {
    if has_name(h, "cookie"@) || pairs.len() == 0 {
        h
    } else if valid_header_value(cookie_line(pairs)) {
        set_field(h, "cookie"@, cookie_line(pairs), false)
    } else {
        h
    }
}

/// Joins cookie pairs into one Cookie header line.
pub fn join_cookie_pairs(pairs: &Vec<(String, String)>) -> (r: String)
    ensures
        r@ == cookie_line(pairs_view(pairs@)),
{
    let ghost pv = pairs_view(pairs@);
    let mut out = String::new();
    let n = pairs.len();
    let mut i: usize = 0;
    while i < n
        invariant
            n == pairs@.len(),
            pv == pairs_view(pairs@),
            0 <= i <= n,
            out@ == cookie_line(pv.take(i as int)),
        decreases n - i,
    {
        proof {
            assert(pv.take(i as int + 1).drop_last() =~= pv.take(i as int));
            assert(pv.take(i as int + 1).last() == pv[i as int]);
        }
        if i > 0 {
            out.append("; ");
        }
        out.append(pairs[i].0.as_str());
        out.append("=");
        out.append(pairs[i].1.as_str());
        proof {
            if i == 0 {
                assert(out@ =~= cookie_pair(pv[0]));
                assert(cookie_line(pv.take(1)) == cookie_pair(pv.take(1)[0]));
                assert(pv.take(1)[0] == pv[0]);
            } else {
                assert(out@ =~= cookie_line(pv.take(i as int)) + "; "@ + cookie_pair(pv[i as int]));
            }
        }
        i = i + 1;
    }
    assert(pv.take(n as int) =~= pv);
    out
}

/// Sets the Cookie header to the joined pairs, unless the headers already hold
/// a Cookie header, there is no pair, or the line is not a valid header value.
pub fn add_cookie_header(headers: &mut HeaderMap, pairs: &Vec<(String, String)>)
    ensures
        final(headers)@ == with_cookie_line(old(headers)@, pairs_view(pairs@)),
{
    let name = String::from_str("cookie");
    if headers.has_field(&name) || pairs.len() == 0 {
        return;
    }
    let line = join_cookie_pairs(pairs);
    match parse_header_value(line.as_str()) {
        Ok(value) => {
            proof {
                lemma_fixed_names();
            }
            headers.set_field(name, value, false)
        },
        Err(_) => {},
    }
}

/// Where the cookies of a response head go: the URL its final URI parses to,
/// and its Set-Cookie values in order. None where the head has no URI or the
/// URI is not an absolute URL.
pub fn cookie_capture(res: &Response<()>) -> (r: Option<(url::Url, Vec<String>)>)
    ensures
        r is Some <==> (res.uri matches Some(u) && url_parses(u@)),
        r matches Some(c) ==> c.1@.map_values(|v: String| v@) == values_of(
            res.headers@,
            "set-cookie"@,
        ),
{
    let uri = match &res.uri {
        Some(u) => u,
        None => return None,
    };
    let url = match parse_url(uri.as_str()) {
        Some(url) => url,
        None => return None,
    };
    let values = res.headers.values_for(&String::from_str("set-cookie"));
    Some((url, values))
}

/// Hands every Set-Cookie value of the head that parses as a cookie to the
/// jar, with the URL of the head's final URI.
fn store_set_cookies(jar: &CookieJar, res: &Response<()>) {
    let (url, values) = match cookie_capture(res) {
        Some(c) => c,
        None => return,
    };
    let n = values.len();
    let mut i: usize = 0;
    while i < n
        invariant
            n == values@.len(),
            0 <= i <= n,
        decreases n - i,
    {
        match parse_set_cookie(values[i].as_str()) {
            Some(cookie) => jar_store(jar, cookie, &url),
            None => {},
        }
        i = i + 1;
    }
}

/// A function on response heads supplied by the caller, shared and safe to
/// call from several threads. Verus cannot hold the boxed closure, so only
/// `call` below touches it.
#[verifier::external_body]
pub struct TapFn(pub Box<dyn Fn(&mut Response<()>) + Send + Sync>);

impl TapFn {
    /// Relies on the wrapped function: calls it on the head.
    #[verifier::external_body]
    pub fn call(&self, res: &mut Response<()>) {
        (self.0)(res)
    }
}

/// A response hook, run on a response head before its body is handed out:
/// the cookie jar's capture of Set-Cookie values, or a function of the caller.
pub enum Tapper {
    CookieJar(Arc<CookieJar>),
    Custom(Arc<TapFn>),
}

impl Clone for Tapper {
    fn clone(&self) -> (r: Self)
        ensures
            r == *self,
    {
        match self {
            Tapper::CookieJar(jar) => Tapper::CookieJar(Arc::clone(jar)),
            Tapper::Custom(f) => Tapper::Custom(Arc::clone(f)),
        }
    }
}

impl Tapper {
    /// A tap that runs a caller's function on each response head.
    pub fn from_fn(f: TapFn) -> (r: Tapper)
        ensures
            r is Custom,
    {
        Tapper::Custom(Arc::new(f))
    }

    /// Runs the tap on a response head. The cookie jar's tap stores what
    /// `cookie_capture` finds and leaves the head as it was.
    pub fn call(&self, res: &mut Response<()>)
        ensures
            self is CookieJar ==> *final(res) == *old(res),
    {
        match self {
            Tapper::CookieJar(jar) => store_set_cookies(jar, res),
            Tapper::Custom(f) => f.call(res),
        }
    }
}

struct ClientInner<E> {
    backend: E,
    cookies: Option<Arc<CookieJar>>,
    tapper: Option<Tapper>,
}

/// A shared handle on one executor, with an optional cookie jar.
pub struct Client<E>(Arc<ClientInner<E>>);

impl<E> Clone for Client<E> {
    fn clone(&self) -> (r: Self)
        ensures
            r == *self,
    {
        Client(Arc::clone(&self.0))
    }
}

impl<E: HttpExecutor> Client<E> {
    /// The executor the client sends through.
    pub closed spec fn executor(&self) -> E {
        self.0.backend
    }

    /// The client's cookie jar, if any.
    pub closed spec fn jar_of(&self) -> Option<Arc<CookieJar>> {
        self.0.cookies
    }

    /// The tap the client attaches to requests that carry none.
    pub closed spec fn tap_of(&self) -> Option<Tapper> {
        self.0.tapper
    }

    /// Whether the client keeps a cookie jar.
    pub open spec fn has_cookie_jar(&self) -> bool {
        self.jar_of() is Some
    }

    /// What `map_request` makes of `r`: `out` is `r` but for the Cookie header,
    /// which the jar's cookies set only where the client has a jar, `r` has no
    /// Cookie header and its URI is an absolute URL.
    pub open spec fn cookie_mapped<B>(&self, r: Request<B>, out: Request<B>) -> bool {
        &&& !self.has_cookie_jar() ==> out == r
        &&& has_name(r.headers@, "cookie"@) ==> out == r
        &&& !url_parses(r.uri@) ==> out == r
        &&& out.method == r.method && out.uri == r.uri && out.version == r.version
        &&& out.extensions == r.extensions && out.body == r.body
        &&& self.has_cookie_jar() && !has_name(r.headers@, "cookie"@) && url_parses(r.uri@)
            ==> exists|p: Seq<(Seq<char>, Seq<char>)>|
            out.headers@ == with_cookie_line(r.headers@, p)
    }

    /// What `prepared` hands to the executor for `pre`: the cookie-mapped
    /// request, the same timeout, and the request's tap or else the client's.
    pub open spec fn prepared_from(&self, pre: RequestPre<E::RequestBody>, out: RequestPre<E::RequestBody>) -> bool {
        &&& self.cookie_mapped(pre.request, out.request)
        &&& out.timeout == pre.timeout
        &&& out.tap == (if pre.tap is Some { pre.tap } else { self.tap_of() })
    }

    pub fn new(exec: E) -> (r: Self)
        ensures
            r.executor() == exec,
            !r.has_cookie_jar(),
            r.tap_of() is None,
    {
        Client(Arc::new(ClientInner { backend: exec, cookies: None, tapper: None }))
    }

    /// A client whose requests carry the jar's cookies and whose responses
    /// feed the jar.
    pub fn new_with_cookie_jar(exec: E) -> (r: Self)
        ensures
            r.executor() == exec,
            r.has_cookie_jar(),
            r.jar_of() matches Some(j) && r.tap_of() == Some(Tapper::CookieJar(j)),
    {
        let jar = Arc::new(new_cookie_jar());
        let tap = Tapper::CookieJar(Arc::clone(&jar));
        Client(Arc::new(ClientInner { backend: exec, cookies: Some(jar), tapper: Some(tap) }))
    }

    pub(crate) fn exec(&self) -> (r: &E)
        ensures
            *r == self.executor(),
    {
        &self.0.backend
    }

    /// Adds the jar's cookies for the request's URL as a Cookie header, unless
    /// the client has no jar, the request already has a Cookie header, or its
    /// URI is not an absolute URL.
    pub fn map_request<B>(&self, r: Request<B>) -> (out: Request<B>)
        ensures
            self.cookie_mapped(r, out),
    {
        let jar = match &self.0.cookies {
            Some(jar) => jar,
            None => return r,
        };
        let mut r = r;
        if r.headers.has_field(&String::from_str("cookie")) {
            return r;
        }
        let url = match parse_url(r.uri.as_str()) {
            Some(url) => url,
            None => return r,
        };
        let pairs = jar_request_values(jar, &url);
        let ghost before = r.headers@;
        add_cookie_header(&mut r.headers, &pairs);
        assert(r.headers@ == with_cookie_line(before, pairs_view(pairs@)));
        r
    }

    /// The submission for `pre`: the jar's cookies applied to the request, and
    /// the client's tap attached where the request carries none.
    pub fn prepared(&self, pre: RequestPre<E::RequestBody>) -> (out: RequestPre<E::RequestBody>)
        ensures
            self.prepared_from(pre, out),
    {
        let RequestPre { request, timeout, tap } = pre;
        let request = self.map_request(request);
        let tap = match tap {
            Some(t) => Some(t),
            None => match &self.0.tapper {
                Some(t) => Some(t.clone()),
                None => None,
            },
        };
        RequestPre { request, timeout, tap }
    }

    /// Sends a request with no timeout and no tap of its own: the executor gets
    /// `prepared` of it.
    pub fn send(&self, request: Request<E::RequestBody>) -> E::Output {
        self.send_pre(RequestPre { request, timeout: None, tap: None })
    }

    /// Hands `prepared(pre)` to the executor and returns its output.
    pub fn send_pre(&self, pre: RequestPre<E::RequestBody>) -> E::Output {
        let submission = self.prepared(pre);
        self.0.backend.execute(submission)
    }

    /// A builder for a request with the given method and URI.
    pub fn request(&self, method: &str, uri: &str) -> (r: RequestBuilder<E>)
        ensures
            r.client_of() == *self,
            r.outcome() is Ok <==> valid_method(method@) && uri_text(uri@) is Some,
            r.outcome() matches Ok(pre) ==> pre.request.method@ == method@ && uri_text(uri@) == Some(
                pre.request.uri@,
            ) && pre.request.version == Version::Http11 && pre.request.headers@.len() == 0
                && pre.timeout is None && pre.tap is None,
            r.outcome() is Err ==> invalid_request(r.outcome()),
    {
        RequestBuilder::new(self.clone()).method(method).uri(uri)
    }

    pub fn get(&self, uri: &str) -> (r: RequestBuilder<E>)
        ensures
            r.client_of() == *self,
            r.outcome() is Ok <==> uri_text(uri@) is Some,
            r.outcome() matches Ok(pre) ==> pre.request.method@ == "GET"@ && uri_text(uri@) == Some(
                pre.request.uri@,
            ) && pre.request.headers@.len() == 0,
            r.outcome() is Err ==> invalid_request(r.outcome()),
    {
        proof { reveal_strlit("GET"); }
        self.request("GET", uri)
    }

    pub fn head(&self, uri: &str) -> (r: RequestBuilder<E>)
        ensures
            r.client_of() == *self,
            r.outcome() is Ok <==> uri_text(uri@) is Some,
            r.outcome() matches Ok(pre) ==> pre.request.method@ == "HEAD"@ && uri_text(uri@) == Some(
                pre.request.uri@,
            ) && pre.request.headers@.len() == 0,
            r.outcome() is Err ==> invalid_request(r.outcome()),
    {
        proof { reveal_strlit("HEAD"); }
        self.request("HEAD", uri)
    }

    pub fn patch(&self, uri: &str) -> (r: RequestBuilder<E>)
        ensures
            r.client_of() == *self,
            r.outcome() is Ok <==> uri_text(uri@) is Some,
            r.outcome() matches Ok(pre) ==> pre.request.method@ == "PATCH"@ && uri_text(uri@) == Some(
                pre.request.uri@,
            ) && pre.request.headers@.len() == 0,
            r.outcome() is Err ==> invalid_request(r.outcome()),
    {
        proof { reveal_strlit("PATCH"); }
        self.request("PATCH", uri)
    }

    pub fn post(&self, uri: &str) -> (r: RequestBuilder<E>)
        ensures
            r.client_of() == *self,
            r.outcome() is Ok <==> uri_text(uri@) is Some,
            r.outcome() matches Ok(pre) ==> pre.request.method@ == "POST"@ && uri_text(uri@) == Some(
                pre.request.uri@,
            ) && pre.request.headers@.len() == 0,
            r.outcome() is Err ==> invalid_request(r.outcome()),
    {
        proof { reveal_strlit("POST"); }
        self.request("POST", uri)
    }

    pub fn put(&self, uri: &str) -> (r: RequestBuilder<E>)
        ensures
            r.client_of() == *self,
            r.outcome() is Ok <==> uri_text(uri@) is Some,
            r.outcome() matches Ok(pre) ==> pre.request.method@ == "PUT"@ && uri_text(uri@) == Some(
                pre.request.uri@,
            ) && pre.request.headers@.len() == 0,
            r.outcome() is Err ==> invalid_request(r.outcome()),
    {
        proof { reveal_strlit("PUT"); }
        self.request("PUT", uri)
    }

    pub fn delete(&self, uri: &str) -> (r: RequestBuilder<E>)
        ensures
            r.client_of() == *self,
            r.outcome() is Ok <==> uri_text(uri@) is Some,
            r.outcome() matches Ok(pre) ==> pre.request.method@ == "DELETE"@ && uri_text(uri@) == Some(
                pre.request.uri@,
            ) && pre.request.headers@.len() == 0,
            r.outcome() is Err ==> invalid_request(r.outcome()),
    {
        proof { reveal_strlit("DELETE"); }
        self.request("DELETE", uri)
    }
}

} // verus!
