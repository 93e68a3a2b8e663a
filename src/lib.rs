//! A backend-agnostic HTTP client: a canonical request/response model, a
//! pluggable executor, a request builder that defers its first error, and a
//! cookie jar that hooks into sending and receiving.

use vstd::prelude::*;

pub mod builder;
pub mod client;
pub mod error;
pub mod header;
pub mod laws;
pub mod sync;
pub mod types;

pub use builder::RequestBuilder;
pub use client::{Client, TapFn, Tapper};
pub use error::{ErrorKind, HttpError};
pub use header::{HeaderEntry, HeaderMap};
pub use sync::GenericResponseBody;
pub use types::{ByteSource, Request, RequestBody, RequestPre, Response, StatusCode, Version};

verus! {

/// How a response body can be drained: as chunks, as one buffer, or as a reader.
/// Each way consumes the body, so a body is read at most once.
pub trait Respond: 'static {
    type Chunks;
    type BytesOutput;
    type Reader;

    fn into_chunks(self) -> Self::Chunks where Self: Sized;

    fn into_chunks_boxed(self: Box<Self>) -> Self::Chunks;

    fn bytes(self) -> Self::BytesOutput where Self: Sized;

    fn bytes_boxed(self: Box<Self>) -> Self::BytesOutput;

    fn reader(self) -> Self::Reader where Self: Sized;

    fn reader_boxed(self: Box<Self>) -> Self::Reader;
}

impl<R: Respond + ?Sized> Respond for Box<R> {
    type Chunks = R::Chunks;
    type BytesOutput = R::BytesOutput;
    type Reader = R::Reader;

    fn into_chunks(self) -> Self::Chunks {
        R::into_chunks_boxed(self)
    }

    fn into_chunks_boxed(self: Box<Self>) -> Self::Chunks {
        R::into_chunks_boxed(*self)
    }

    fn bytes(self) -> Self::BytesOutput {
        R::bytes_boxed(self)
    }

    fn bytes_boxed(self: Box<Self>) -> Self::BytesOutput {
        R::bytes_boxed(*self)
    }

    fn reader(self) -> Self::Reader {
        R::reader_boxed(self)
    }

    fn reader_boxed(self: Box<Self>) -> Self::Reader {
        R::reader_boxed(*self)
    }
}

/// A backend: turns a request into its own output, a direct result or a
/// suspended one.
pub trait HttpExecutor {
    type RequestBody;
    type ResponseBody;
    type Output;

    /// The executor's own form of a canonical body: what
    /// `request_body_from_generic` returns for it.
    spec fn generic_body(&self, body: RequestBody) -> Self::RequestBody;

    fn request_body_from_generic(&self, body: RequestBody) -> (r: Self::RequestBody)
        ensures
            r == self.generic_body(body),
    ;

    fn new_output_error(&self, error: HttpError) -> Self::Output;

    fn execute(&self, pre: RequestPre<Self::RequestBody>) -> Self::Output;

    /// Converts the body with `request_body_from_generic` and hands the request,
    /// with the same head, timeout and tap, to `execute`.
    fn execute_generic(&self, pre: RequestPre<RequestBody>) -> Self::Output {
        let converted = pre.map_body(|b: RequestBody| self.request_body_from_generic(b));
        self.execute(converted)
    }
}

impl<E: HttpExecutor + ?Sized> HttpExecutor for std::sync::Arc<E> {
    type RequestBody = E::RequestBody;
    type ResponseBody = E::ResponseBody;
    type Output = E::Output;

    open spec fn generic_body(&self, body: RequestBody) -> Self::RequestBody {
        (&**self).generic_body(body)
    }

    fn request_body_from_generic(&self, body: RequestBody) -> Self::RequestBody {
        let inner: &E = &**self;
        let r = inner.request_body_from_generic(body);
        assert(r == inner.generic_body(body));
        assert(self.generic_body(body) == (**self).generic_body(body));
        r
    }

    fn new_output_error(&self, error: HttpError) -> Self::Output {
        E::new_output_error(&**self, error)
    }

    fn execute(&self, pre: RequestPre<Self::RequestBody>) -> Self::Output {
        E::execute(&**self, pre)
    }
}

} // verus!
