use vstd::prelude::*;
use vstd::string::*;

use crate::error::{ErrorKind, HttpError};
use crate::types::{read_to_end, ByteSource, Response};
use crate::Respond;

verus! {

/// A response body read from a blocking byte source.
pub enum GenericResponseBody {
    Read(ByteSource),
}

impl GenericResponseBody {
    /// Reads the whole body; a read failure is an `Io` error with a fixed message.
    pub fn read_all(self) -> (r: Result<Vec<u8>, HttpError>)
        ensures
            r matches Err(e) ==> e.kind() == ErrorKind::Io && e.message() == Some(
                "could not read response body"@,
            ) && e.cause() is Some,
    {
        match self {
            GenericResponseBody::Read(source) => match read_to_end(source) {
                Ok(buf) => Ok(buf),
                Err(cause) => Err(
                    HttpError::new_io(cause, Some(String::from_str("could not read response body"))),
                ),
            },
        }
    }
}

impl Respond for GenericResponseBody {
    type Chunks = Result<Vec<u8>, HttpError>;
    type BytesOutput = Result<Vec<u8>, HttpError>;
    type Reader = ByteSource;

    fn into_chunks(self) -> Self::Chunks {
        self.read_all()
    }

    fn into_chunks_boxed(self: Box<Self>) -> Self::Chunks {
        (*self).read_all()
    }

    fn bytes(self) -> Self::BytesOutput {
        self.read_all()
    }

    fn bytes_boxed(self: Box<Self>) -> Self::BytesOutput {
        (*self).read_all()
    }

    fn reader(self) -> Self::Reader {
        match self {
            GenericResponseBody::Read(source) => source,
        }
    }

    fn reader_boxed(self: Box<Self>) -> Self::Reader {
        match *self {
            GenericResponseBody::Read(source) => source,
        }
    }
}

/// Relies on serde_json::from_slice: decodes a value of `T`, or reports the
/// error's text.
#[verifier::external_body]
fn decode_json<T: serde::de::DeserializeOwned>(bytes: &[u8]) -> (r: Result<T, String>) {
    serde_json::from_slice(bytes).map_err(|e| e.to_string())
}

/// Decodes a drained body as JSON: a read error passes through, a decoding
/// error becomes `InvalidResponseJson` with the decoder's text as cause.
pub fn json_from_bytes<T: serde::de::DeserializeOwned>(bytes: Result<Vec<u8>, HttpError>) -> (r: Result<T, HttpError>)
    ensures
        bytes matches Err(e) ==> r matches Err(f) && f == e,
        bytes is Ok ==> (r is Ok || (r matches Err(f) && f.kind() == ErrorKind::InvalidResponseJson
            && f.message() is None && f.cause() is Some)),
{
    match bytes {
        Err(e) => Err(e),
        Ok(b) => match decode_json(b.as_slice()) {
            Ok(v) => Ok(v),
            Err(cause) => Err(HttpError::new(ErrorKind::InvalidResponseJson, Some(cause), None)),
        },
    }
}

impl<B: Respond<BytesOutput = Result<Vec<u8>, HttpError>>> Response<B> {
    /// Drains the body as one buffer.
    pub fn bytes_sync(self) -> Result<Vec<u8>, HttpError> {
        self.body.bytes()
    }

    /// Drains the body and decodes it as JSON.
    pub fn json_sync<T: serde::de::DeserializeOwned>(self) -> Result<T, HttpError> {
        json_from_bytes(self.bytes_sync())
    }
}

} // verus!
