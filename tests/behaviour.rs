use std::sync::{Arc, Mutex};

use anyhttp::{
    ByteSource, Client, GenericResponseBody, HeaderMap, HttpError, HttpExecutor, RequestBody,
    RequestPre, Respond, Response, StatusCode, TapFn, Tapper,
};

/// A stub backend: answers every request with status 200 and a JSON body
/// `{"url": "<path>"}`, echoes the request body under "/echo", and sends a
/// Set-Cookie header under "/set". It keeps the Cookie values it was sent.
#[derive(Clone)]
struct StubExecutor {
    seen_cookies: Arc<Mutex<Vec<Vec<String>>>>,
}

fn body_of(bytes: Vec<u8>) -> GenericResponseBody {
    GenericResponseBody::Read(ByteSource(Box::new(std::io::Cursor::new(bytes))))
}

impl HttpExecutor for StubExecutor {
    type RequestBody = RequestBody;
    type ResponseBody = GenericResponseBody;
    type Output = Result<Response<GenericResponseBody>, HttpError>;

    fn generic_body(&self, body: RequestBody) -> RequestBody {
        body
    }

    fn request_body_from_generic(&self, body: RequestBody) -> RequestBody {
        body
    }

    fn new_output_error(&self, error: HttpError) -> Self::Output {
        Err(error)
    }

    fn execute(&self, pre: RequestPre<RequestBody>) -> Self::Output {
        let req = pre.request;
        self.seen_cookies.lock().unwrap().push(req.headers.get_all("cookie"));
        let path = req.uri.parse::<http::Uri>().unwrap().path().to_string();
        let mut head = Response::new(());
        head.uri = Some(req.uri.clone());
        let body = if path == "/echo" {
            match req.body {
                RequestBody::Bytes(b) => b,
                _ => Vec::new(),
            }
        } else {
            let mut obj = serde_json::Map::new();
            obj.insert("url".to_string(), serde_json::Value::String(path.clone()));
            serde_json::to_vec(&serde_json::Value::Object(obj)).unwrap()
        };
        if path == "/set" {
            head.headers.append("Set-Cookie", "a=b").unwrap();
        }
        if let Some(tap) = pre.tap {
            tap.call(&mut head);
        }
        Ok(head.map_body(|_| body_of(body)))
    }
}

fn stub() -> (StubExecutor, Arc<Mutex<Vec<Vec<String>>>>) {
    let seen = Arc::new(Mutex::new(Vec::new()));
    (StubExecutor { seen_cookies: seen.clone() }, seen)
}

/// A backend whose body is a length and whose output is the body it was sent.
struct LenExecutor;

impl HttpExecutor for LenExecutor {
    type RequestBody = usize;
    type ResponseBody = ();
    type Output = usize;

    fn generic_body(&self, body: RequestBody) -> usize {
        self.request_body_from_generic(body)
    }

    fn request_body_from_generic(&self, body: RequestBody) -> usize {
        match body {
            RequestBody::Bytes(b) => b.len(),
            _ => 0,
        }
    }

    fn new_output_error(&self, _error: HttpError) -> usize {
        0
    }

    fn execute(&self, pre: RequestPre<usize>) -> usize {
        pre.request.body
    }
}

struct FailingReader;

impl std::io::Read for FailingReader {
    fn read(&mut self, _buf: &mut [u8]) -> std::io::Result<usize> {
        Err(std::io::Error::new(std::io::ErrorKind::Other, "disk gone"))
    }
}

#[test]
fn get_echoes_url_as_json() {
    let (exec, _) = stub();
    let client = Client::new(exec);
    let res = client.get("http://127.0.0.1:44444/").send().unwrap().error_for_status().unwrap();
    assert_eq!(res.status().as_u16(), 200);
    assert_eq!(res.uri().clone(), Some("http://127.0.0.1:44444/".to_string()));
    let value: serde_json::Value = res.json_sync().unwrap();
    assert_eq!(value["url"], serde_json::Value::String("/".to_string()));
}

#[test]
fn repeated_header_keeps_both_values_in_order() {
    let (exec, _) = stub();
    let client = Client::new(exec);
    let pre = client.get("http://example.com/").header("X", "1").header("X", "2").build().unwrap();
    assert_eq!(pre.request.headers.get_all("x"), vec!["1".to_string(), "2".to_string()]);
    assert_eq!(pre.request.headers.get_all("X"), vec!["1".to_string(), "2".to_string()]);
}

#[test]
fn header_name_is_stored_lower_case() {
    let (exec, _) = stub();
    let pre = Client::new(exec).get("http://example.com/").header("X-Foo", "Bar").build().unwrap();
    assert_eq!(pre.request.headers.entries()[0].name, "x-foo");
    assert_eq!(pre.request.headers.entries()[0].value, "Bar");
    assert!(!pre.request.headers.entries()[0].sensitive);
}

#[test]
fn sent_headers_accumulate() {
    let (exec, seen) = stub();
    let client = Client::new(exec);
    client.get("http://example.com/").header("Cookie", "1").header("cookie", "2").send().unwrap();
    assert_eq!(seen.lock().unwrap()[0], vec!["1".to_string(), "2".to_string()]);
}

#[test]
fn cookie_jar_injects_stored_cookie() {
    let (exec, seen) = stub();
    let client = Client::new_with_cookie_jar(exec);
    client.get("http://example.com/set").send().unwrap();
    client.get("http://example.com/other").send().unwrap();
    let seen = seen.lock().unwrap();
    assert_eq!(seen[0], Vec::<String>::new());
    assert_eq!(seen[1], vec!["a=b".to_string()]);
}

#[test]
fn cookie_jar_keeps_explicit_cookie_header() {
    let (exec, seen) = stub();
    let client = Client::new_with_cookie_jar(exec);
    client.get("http://example.com/set").send().unwrap();
    client.get("http://example.com/other").header("Cookie", "x=y").send().unwrap();
    assert_eq!(seen.lock().unwrap()[1], vec!["x=y".to_string()]);
}

#[test]
fn client_without_jar_sends_no_cookie() {
    let (exec, seen) = stub();
    let client = Client::new(exec);
    client.get("http://example.com/set").send().unwrap();
    client.get("http://example.com/other").send().unwrap();
    assert_eq!(seen.lock().unwrap()[1], Vec::<String>::new());
}

#[test]
fn error_for_status_not_found() {
    let mut res = Response::new(());
    res.status = StatusCode::from_u16(404).unwrap();
    let err = res.error_for_status().err().unwrap();
    assert_eq!(err.as_status(), Some(404));
    assert!(err.is_not_found());
    assert!(!err.is_invalid_request());
    assert_eq!(err.to_string(), "Request failed with status 404(404)");
}

#[test]
fn error_for_status_ok_returns_response() {
    let mut res = Response::new(7u32);
    *res.status_mut() = StatusCode::ok();
    res.headers.append("X", "1").unwrap();
    let back = res.error_for_status().unwrap();
    assert_eq!(back.status().as_u16(), 200);
    assert_eq!(*back.body(), 7);
    assert_eq!(back.headers().get_all("x"), vec!["1".to_string()]);
}

#[test]
fn error_for_status_edges() {
    let mut res = Response::new(());
    res.status = StatusCode::from_u16(299).unwrap();
    assert!(res.error_for_status().is_ok());
    let mut res = Response::new(());
    res.status = StatusCode::from_u16(300).unwrap();
    assert_eq!(res.error_for_status().err().unwrap().as_status(), Some(300));
    let mut res = Response::new(());
    res.status = StatusCode::from_u16(199).unwrap();
    assert!(!res.error_for_status().err().unwrap().is_not_found());
}

#[test]
fn json_round_trip_through_echo() {
    let (exec, _) = stub();
    let client = Client::new(exec);
    let mut obj = serde_json::Map::new();
    obj.insert("a".to_string(), serde_json::Value::from(1));
    obj.insert("b".to_string(), serde_json::Value::from(vec!["x", "y"]));
    let value = serde_json::Value::Object(obj);
    let res = client.post("http://example.com/echo").json(&value).send().unwrap();
    let back: serde_json::Value = res.json_sync().unwrap();
    assert_eq!(back, value);
}

#[test]
fn json_sets_body_and_content_type() {
    let (exec, _) = stub();
    let pre = Client::new(exec)
        .post("http://example.com/")
        .header("Content-Type", "text/plain")
        .json(&vec![1, 2])
        .build()
        .unwrap();
    assert_eq!(pre.request.headers.get_all("content-type"), vec!["application/json".to_string()]);
    match pre.request.body {
        RequestBody::Bytes(b) => assert_eq!(b, b"[1,2]".to_vec()),
        _ => panic!("expected a byte body"),
    }
}

#[test]
fn form_sets_body_and_content_type() {
    let (exec, _) = stub();
    let pre = Client::new(exec)
        .post("http://example.com/")
        .form(&vec![("a", "1"), ("b", "x y")])
        .build()
        .unwrap();
    assert_eq!(
        pre.request.headers.get_all("content-type"),
        vec!["application/x-www-form-urlencoded".to_string()]
    );
    match pre.request.body {
        RequestBody::Bytes(b) => assert_eq!(b, b"a=1&b=x+y".to_vec()),
        _ => panic!("expected a byte body"),
    }
}

#[test]
fn form_error_is_invalid_request_json() {
    let (exec, _) = stub();
    let err = Client::new(exec).post("http://example.com/").form(&vec![1, 2]).build().err().unwrap();
    assert_eq!(err.kind_of(), anyhttp::ErrorKind::InvalidRequestJson);
    assert!(err.to_string().starts_with("invalid request json: "));
}

#[test]
fn encoded_body_error_carries_cause() {
    let (exec, _) = stub();
    let err = Client::new(exec)
        .post("http://example.com/")
        .encoded_body(Err("bad value".to_string()), "application/json")
        .build()
        .err()
        .unwrap();
    assert_eq!(err.to_string(), "invalid request json: bad value");
}

#[test]
fn invalid_json_response_is_reported() {
    let (exec, _) = stub();
    let res = Client::new(exec).post("http://example.com/echo").body(RequestBody::from_text("{")).send().unwrap();
    let err = res.json_sync::<serde_json::Value>().err().unwrap();
    assert_eq!(err.kind_of(), anyhttp::ErrorKind::InvalidResponseJson);
    assert!(err.to_string().starts_with("could not deserialize JSON response: "));
}

#[test]
fn first_error_wins() {
    let (exec, _) = stub();
    let err = Client::new(exec)
        .request("BAD METHOD", "http://example.com/")
        .uri("not a uri")
        .header("bad name", "1")
        .header("X", "1")
        .build()
        .err()
        .unwrap();
    assert!(err.is_invalid_request());
    assert_eq!(err.to_string(), "invalid request: invalid HTTP method");
}

#[test]
fn invalid_header_name_is_invalid_request() {
    let (exec, _) = stub();
    let err = Client::new(exec)
        .get("http://example.com/")
        .header("bad name", "1")
        .timeout(std::time::Duration::from_secs(3))
        .build()
        .err()
        .unwrap();
    assert!(err.is_invalid_request());
    assert_eq!(err.to_string(), "invalid request: invalid HTTP header name");
}

#[test]
fn invalid_header_value_is_invalid_request() {
    let (exec, _) = stub();
    let err = Client::new(exec).get("http://example.com/").header("X", "a\nb").build().err().unwrap();
    assert!(err.is_invalid_request());
}

#[test]
fn invalid_uri_is_invalid_request() {
    let (exec, _) = stub();
    let err = Client::new(exec).get("http://exa mple.com/").build().err().unwrap();
    assert!(err.is_invalid_request());
    assert!(err.to_string().starts_with("invalid request: "));
}

#[test]
fn send_of_failed_builder_gives_output_error() {
    let (exec, seen) = stub();
    let out = Client::new(exec).get("http://example.com/").header("bad name", "1").send();
    assert!(out.err().unwrap().is_invalid_request());
    assert!(seen.lock().unwrap().is_empty());
}

#[test]
fn uri_is_canonicalised() {
    let (exec, _) = stub();
    let pre = Client::new(exec).get("http://example.com").build().unwrap();
    assert_eq!(pre.request.uri, "http://example.com/");
    assert_eq!(pre.request.method, "GET");
}

#[test]
fn verbs_set_their_method() {
    let (exec, _) = stub();
    let client = Client::new(exec);
    assert_eq!(client.head("http://e.com/").build().unwrap().request.method, "HEAD");
    assert_eq!(client.post("http://e.com/").build().unwrap().request.method, "POST");
    assert_eq!(client.put("http://e.com/").build().unwrap().request.method, "PUT");
    assert_eq!(client.patch("http://e.com/").build().unwrap().request.method, "PATCH");
    assert_eq!(client.delete("http://e.com/").build().unwrap().request.method, "DELETE");
    assert_eq!(client.request("PURGE", "http://e.com/").build().unwrap().request.method, "PURGE");
}

#[test]
fn basic_auth_header_is_sensitive() {
    let (exec, _) = stub();
    let pre = Client::new(exec).get("http://e.com/").basic_auth("user", Some("pass")).build().unwrap();
    let e = &pre.request.headers.entries()[0];
    assert_eq!(e.name, "authorization");
    assert_eq!(e.value, "Basic dXNlcjpwYXNz");
    assert!(e.sensitive);
}

#[test]
fn basic_auth_without_password() {
    let (exec, _) = stub();
    let pre = Client::new(exec).get("http://e.com/").basic_auth("user", None).build().unwrap();
    assert_eq!(pre.request.headers.get_all("authorization"), vec!["Basic dXNlcjo=".to_string()]);
}

#[test]
fn bearer_auth_header() {
    let (exec, _) = stub();
    let pre = Client::new(exec).get("http://e.com/").bearer_auth("tok").build().unwrap();
    assert_eq!(pre.request.headers.get_all("Authorization"), vec!["Bearer tok".to_string()]);
    assert!(pre.request.headers.entries()[0].sensitive);
}

#[test]
fn sensitive_header_flag() {
    let (exec, _) = stub();
    let pre = Client::new(exec).get("http://e.com/").header_sensitive("X", "s", true).build().unwrap();
    assert!(pre.request.headers.entries()[0].sensitive);
}

#[test]
fn headers_extend_replaces_then_appends() {
    let (exec, _) = stub();
    let mut extra = HeaderMap::new();
    extra.append("X", "2").unwrap();
    extra.append("X", "3").unwrap();
    extra.append("Y", "4").unwrap();
    let pre = Client::new(exec)
        .get("http://e.com/")
        .header("X", "1")
        .header("Z", "0")
        .headers(extra)
        .build()
        .unwrap();
    assert_eq!(pre.request.headers.get_all("x"), vec!["2".to_string(), "3".to_string()]);
    assert_eq!(pre.request.headers.get_all("y"), vec!["4".to_string()]);
    assert_eq!(pre.request.headers.get_all("z"), vec!["0".to_string()]);
}

#[test]
fn version_and_timeout_are_kept() {
    let (exec, _) = stub();
    let pre = Client::new(exec)
        .get("http://e.com/")
        .version(anyhttp::Version::Http2)
        .timeout(std::time::Duration::from_millis(1500))
        .build()
        .unwrap();
    assert_eq!(pre.request.version, anyhttp::Version::Http2);
    assert_eq!(pre.timeout, Some(std::time::Duration::from_millis(1500)));
    assert!(pre.tap.is_none());
}

#[test]
fn header_map_insert_replaces() {
    let mut h = HeaderMap::new();
    h.append("A", "1").unwrap();
    h.append("B", "2").unwrap();
    h.append("a", "3").unwrap();
    h.insert("A", "4").unwrap();
    assert_eq!(h.get_all("a"), vec!["4".to_string()]);
    assert_eq!(h.get_all("b"), vec!["2".to_string()]);
    assert_eq!(h.len(), 2);
    assert!(h.contains_key("B"));
    assert!(!h.contains_key("c"));
    assert!(!h.contains_key("bad name"));
    assert!(h.append("bad name", "1").is_err());
    assert!(h.get_all("bad name").is_empty());
    assert_eq!(h.len(), 2);
}

#[test]
fn join_cookie_pairs_uses_semicolons() {
    let pairs = vec![("a".to_string(), "b".to_string()), ("c".to_string(), "d".to_string())];
    assert_eq!(anyhttp::client::join_cookie_pairs(&pairs), "a=b; c=d");
    assert_eq!(anyhttp::client::join_cookie_pairs(&Vec::new()), "");
}

#[test]
fn add_cookie_header_respects_existing() {
    let pairs = vec![("a".to_string(), "b".to_string())];
    let mut h = HeaderMap::new();
    anyhttp::client::add_cookie_header(&mut h, &pairs);
    assert_eq!(h.get_all("cookie"), vec!["a=b".to_string()]);
    let mut h = HeaderMap::new();
    h.append("Cookie", "x=y").unwrap();
    anyhttp::client::add_cookie_header(&mut h, &pairs);
    assert_eq!(h.get_all("cookie"), vec!["x=y".to_string()]);
    let mut h = HeaderMap::new();
    anyhttp::client::add_cookie_header(&mut h, &Vec::new());
    assert!(h.is_empty());
    let bad = vec![("a".to_string(), "b\u{1}".to_string())];
    let mut h = HeaderMap::new();
    anyhttp::client::add_cookie_header(&mut h, &bad);
    assert!(h.is_empty());
}

#[test]
fn error_rendering_joins_present_parts() {
    assert_eq!(HttpError::new_custom("boom".to_string()).to_string(), "boom");
    assert_eq!(
        HttpError::new_custom_with_cause("boom".to_string(), "why".to_string()).to_string(),
        "boom: why"
    );
    assert_eq!(HttpError::new_http("bad header".to_string()).to_string(), "bad header");
    assert_eq!(
        HttpError::new_io("disk full".to_string(), Some("could not write".to_string())).to_string(),
        "io error: could not write: disk full"
    );
    assert_eq!(
        HttpError::new_invalid_request("bad".to_string(), None).to_string(),
        "invalid request: bad"
    );
    assert_eq!(
        HttpError::new_response_read(None, "eof".to_string()).to_string(),
        "could not read response body: eof"
    );
    let mut res = Response::new(());
    res.status = StatusCode::from_u16(503).unwrap();
    assert_eq!(
        res.error_for_status().err().unwrap().to_string(),
        "Request failed with status 503(503)"
    );
}

#[test]
fn error_kinds_are_reported() {
    assert!(HttpError::new_invalid_request("x".to_string(), None).is_invalid_request());
    assert_eq!(HttpError::new_custom("x".to_string()).as_status(), None);
    assert!(!HttpError::new_custom("x".to_string()).is_not_found());
    assert_eq!(HttpError::new_io("x".to_string(), None).kind_of(), anyhttp::ErrorKind::Io);
}

#[test]
fn body_read_failure_is_io_error() {
    let body = GenericResponseBody::Read(ByteSource(Box::new(FailingReader)));
    let err = body.read_all().unwrap_err();
    assert_eq!(err.kind_of(), anyhttp::ErrorKind::Io);
    assert_eq!(err.to_string(), "io error: could not read response body: disk gone");
}

#[test]
fn body_bytes_reads_everything() {
    let body = GenericResponseBody::Read(ByteSource(Box::new(std::io::Cursor::new(b"hello".to_vec()))));
    assert_eq!(body.bytes().unwrap(), b"hello".to_vec());
    let boxed = Box::new(GenericResponseBody::Read(ByteSource(Box::new(std::io::Cursor::new(b"hi".to_vec())))));
    assert_eq!(boxed.into_chunks().unwrap(), b"hi".to_vec());
}

#[test]
fn request_defaults_and_map_body() {
    let req = anyhttp::Request::new(3u8);
    assert_eq!(req.method, "GET");
    assert_eq!(req.uri, "/");
    assert_eq!(req.version, anyhttp::Version::Http11);
    assert!(req.headers.is_empty());
    let mapped = req.map_body(|b| b as u32 + 1);
    assert_eq!(mapped.body, 4u32);
    assert_eq!(mapped.method, "GET");
}

#[test]
fn response_take_and_map_body() {
    let mut res = Response::new("x".to_string());
    res.status = StatusCode::from_u16(201).unwrap();
    let (head, body) = res.take_body();
    assert_eq!(head.status.as_u16(), 201);
    assert_eq!(body, "x");
    let again = head.map_body(|_| 5u8);
    assert_eq!(again.status().as_u16(), 201);
    assert_eq!(again.into_body(), 5u8);
    assert_eq!(Response::new(()).version(), anyhttp::Version::Http11);
    assert_eq!(anyhttp::Version::default(), anyhttp::Version::Http11);
}

#[test]
fn request_body_conversions() {
    assert!(matches!(RequestBody::from(vec![1u8, 2]), RequestBody::Bytes(ref b) if b == &vec![1u8, 2]));
    assert!(matches!(RequestBody::from_text("hé"), RequestBody::Bytes(ref b) if b == &"hé".as_bytes().to_vec()));
}

#[test]
fn execute_generic_converts_body() {
    let pre = RequestPre { request: anyhttp::Request::new(RequestBody::from(vec![0u8; 5])), timeout: None, tap: None };
    assert_eq!(LenExecutor.execute_generic(pre), 5);
    let shared = Arc::new(LenExecutor);
    let client = Client::new(shared);
    assert_eq!(client.post("http://e.com/").body(9).send(), 9);
}

#[test]
fn response_clone_and_default() {
    let mut res = Response::new(vec![1u8]);
    res.status = StatusCode::from_u16(418).unwrap();
    res.uri = Some("http://e.com/".to_string());
    res.headers.append("A", "1").unwrap();
    let copy = res.clone();
    assert_eq!(copy.status.as_u16(), 418);
    assert_eq!(copy.uri, Some("http://e.com/".to_string()));
    assert_eq!(copy.headers.get_all("a"), vec!["1".to_string()]);
    assert_eq!(copy.body, vec![1u8]);
    let d: Response<String> = Response::default();
    assert_eq!(d.status.as_u16(), 200);
    assert!(d.body.is_empty());
    assert!(d.uri.is_none());
}

#[test]
fn builder_uri_mut_edits_target() {
    let (exec, _) = stub();
    let mut b = Client::new(exec).get("http://e.com/a");
    *b.uri_mut().unwrap() = "http://e.com/b".to_string();
    assert_eq!(b.build().unwrap().request.uri, "http://e.com/b");
    let (exec, _) = stub();
    let mut bad = Client::new(exec).get("not a uri");
    assert!(bad.uri_mut().is_none());
}

#[test]
fn prepared_attaches_client_tap_and_cookies() {
    let (exec, _) = stub();
    let client = Client::new_with_cookie_jar(exec);
    client.get("http://example.com/set").send().unwrap();
    let pre = client.get("http://example.com/x").timeout(std::time::Duration::from_secs(2)).build().unwrap();
    let out = client.prepared(pre);
    assert!(out.tap.is_some());
    assert_eq!(out.timeout, Some(std::time::Duration::from_secs(2)));
    assert_eq!(out.request.headers.get_all("cookie"), vec!["a=b".to_string()]);
    assert_eq!(out.request.uri, "http://example.com/x");
}

#[test]
fn prepared_without_jar_keeps_request() {
    let (exec, _) = stub();
    let client = Client::new(exec);
    let pre = client.get("http://example.com/x").header("A", "1").build().unwrap();
    let out = client.prepared(pre);
    assert!(out.tap.is_none());
    assert_eq!(out.request.headers.len(), 1);
    assert_eq!(out.request.headers.get_all("a"), vec!["1".to_string()]);
}

#[test]
fn builder_into_parts_gives_outcome() {
    let (exec, _) = stub();
    let (_client, result) = Client::new(exec).get("http://e.com/").header("X", "1").into_parts();
    assert_eq!(result.unwrap().request.headers.get_all("x"), vec!["1".to_string()]);
}

#[test]
fn new_request_has_empty_property_bag() {
    assert!(anyhttp::Request::new(()).extensions.is_empty());
    assert_eq!(Response::new(()).extensions().len(), 0);
}

#[test]
fn status_code_range() {
    assert!(StatusCode::from_u16(99).is_none());
    assert!(StatusCode::from_u16(1000).is_none());
    assert_eq!(StatusCode::from_u16(100).unwrap().as_u16(), 100);
    assert_eq!(StatusCode::from_u16(999).unwrap().as_u16(), 999);
    assert_eq!(StatusCode::ok().as_u16(), 200);
}

#[test]
fn custom_tap_runs_on_the_head() {
    let hits = Arc::new(Mutex::new(0u32));
    let counter = hits.clone();
    let tap = Tapper::from_fn(TapFn(Box::new(move |res: &mut Response<()>| {
        *counter.lock().unwrap() += 1;
        res.status = StatusCode::from_u16(202).unwrap();
    })));
    let (exec, _) = stub();
    let client = Client::new(exec);
    let mut pre = client.get("http://e.com/").build().unwrap();
    pre.tap = Some(tap.clone());
    let res = client.send_pre(pre).unwrap();
    assert_eq!(*hits.lock().unwrap(), 1);
    assert_eq!(res.status().as_u16(), 202);
}

#[test]
fn cookie_capture_reads_uri_and_set_cookie_values() {
    let mut head = Response::new(());
    assert!(anyhttp::client::cookie_capture(&head).is_none());
    head.uri = Some("/relative".to_string());
    assert!(anyhttp::client::cookie_capture(&head).is_none());
    head.uri = Some("http://e.com/a".to_string());
    head.headers.append("Set-Cookie", "a=b").unwrap();
    head.headers.append("X", "y").unwrap();
    head.headers.append("set-cookie", "c=d").unwrap();
    let (url, values) = anyhttp::client::cookie_capture(&head).unwrap();
    assert_eq!(url.as_str(), "http://e.com/a");
    assert_eq!(values, vec!["a=b".to_string(), "c=d".to_string()]);
}
