//! The shapes of a response: a status with an empty body, with one of the
//! typed success bodies, or with the JSON error envelope.

use vstd::prelude::*;
use vstd::string::*;
use crate::model::BlogPostHashesResponseBody;
use crate::model::BlogPostPreviewResponseBody;
use crate::model::BlogPostResponseBody;

verus! {

#[verifier::external_type_specification]
#[verifier::external_body]
pub struct ExJsonError(serde_json::Error);

/// The JSON string literal for a text, quotes and escapes included, as
/// `serde_json` writes it.
pub uninterp spec fn json_string(text: Seq<char>) -> Seq<char>;

/// Calls `serde_json::to_string` on a string slice. The contract claims
/// that the call succeeds, since writing a string into memory has no failing
/// step and a string holds no map, and that the text it returns depends on
/// the characters of the argument alone.
#[verifier::external_body]
fn json_quote(text: &str) -> (r: Result<String, serde_json::Error>)
    ensures
        r is Ok,
        r->Ok_0@ == json_string(text@),
{
    serde_json::to_string(text)
}

/// The error envelope around an already quoted message: an object whose
/// one member `error` is that message.
pub open spec fn error_envelope(quoted: Seq<char>) -> Seq<char> {
    "{\"error\":"@ + quoted + "}"@
}

/// Something that can be turned into the text of a message.
pub trait Message {
    /// The text of the message.
    spec fn text(&self) -> Seq<char>;

    fn convert(self) -> (r: String)
        ensures
            r@ == self.text(),
    ;
}

impl Message for String {
    open spec fn text(&self) -> Seq<char> {
        self@
    }

    fn convert(self) -> (r: String) {
        self
    }
}

impl Message for &str {
    open spec fn text(&self) -> Seq<char> {
        self@
    }

    fn convert(self) -> (r: String) {
        self.to_owned()
    }
}

/// The body of every error response.
#[derive(Debug)]
pub struct ErrorBody {
    pub error: String,
}

impl ErrorBody {
    /// Puts a quoted message into the error envelope.
    pub fn envelope(quoted: &str) -> (r: String)
        ensures
            r@ == error_envelope(quoted@),
    {
        let mut r: String = String::from_str("{\"error\":");
        r.append(quoted);
        r.append("}");
        r
    }

    /// The JSON text of the error envelope for a message.
    pub fn json<M: Message>(message: M) -> (r: String)
        ensures
            r@ == error_envelope(json_string(message.text())),
    {
        let body: ErrorBody = ErrorBody { error: message.convert() };
        match json_quote(body.error.as_str()) {
            Ok(quoted) => ErrorBody::envelope(quoted.as_str()),
            Err(_) => String::new(),
        }
    }
}

/// What a response carries.
#[derive(Debug)]
pub enum Payload {
    /// Nothing.
    Empty,
    /// The listing of previews.
    Previews(BlogPostPreviewResponseBody),
    /// One full post.
    Post(BlogPostResponseBody),
    /// The listing of fingerprints.
    Hashes(BlogPostHashesResponseBody),
    /// The JSON text of an error envelope.
    Error(String),
}

/// A decided response: its status and what it carries.
#[derive(Debug)]
pub struct HttpResponse {
    pub status: u16,
    pub payload: Payload,
}

/// A response in the making, its status chosen.
#[derive(Debug)]
pub struct HttpResponseBuilder {
    pub status: u16,
}

impl HttpResponseBuilder {
    /// Status 200.
    pub fn ok() -> (r: HttpResponseBuilder)
        ensures
            r.status == 200,
    {
        HttpResponseBuilder { status: 200 }
    }

    /// Status 401.
    pub fn unauthorized() -> (r: HttpResponseBuilder)
        ensures
            r.status == 401,
    {
        HttpResponseBuilder { status: 401 }
    }

    /// Status 404.
    pub fn not_found() -> (r: HttpResponseBuilder)
        ensures
            r.status == 404,
    {
        HttpResponseBuilder { status: 404 }
    }

    /// Status 500.
    pub fn internal_server_error() -> (r: HttpResponseBuilder)
        ensures
            r.status == 500,
    {
        HttpResponseBuilder { status: 500 }
    }

    /// The response with this status and nothing in it.
    pub fn finish(self) -> (r: HttpResponse)
        ensures
            r.status == self.status,
            r.payload == Payload::Empty,
    {
        HttpResponse { status: self.status, payload: Payload::Empty }
    }
}

/// The capability to answer with a success body.
pub trait HttpJsonResponse {
    /// The status that the answer will have.
    spec fn status_of(&self) -> u16;

    fn into_json(self, body: Payload) -> (r: HttpResponse)
        ensures
            r.status == self.status_of(),
            r.payload == body,
    ;
}

/// The capability to answer with the error envelope.
pub trait HttpJsonErrorResponse {
    /// The status that the answer will have.
    spec fn error_status_of(&self) -> u16;

    fn into_json_error<M: Message>(self, message: M) -> (r: HttpResponse)
        ensures
            r.status == self.error_status_of(),
            r.payload matches Payload::Error(text) && text@ == error_envelope(
                json_string(message.text()),
            ),
    ;
}

impl HttpJsonResponse for HttpResponseBuilder {
    open spec fn status_of(&self) -> u16 {
        self.status
    }

    fn into_json(self, body: Payload) -> (r: HttpResponse) {
        HttpResponse { status: self.status, payload: body }
    }
}

impl HttpJsonErrorResponse for HttpResponseBuilder {
    open spec fn error_status_of(&self) -> u16 {
        self.status
    }

    fn into_json_error<M: Message>(self, message: M) -> (r: HttpResponse) {
        let body: String = ErrorBody::json(message);
        HttpResponse { status: self.status, payload: Payload::Error(body) }
    }
}

} // verus!
