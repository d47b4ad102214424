//! The HTTP responses the service produces, as plain values. The transport
//! layer turns a `HttpResponse` into status line, headers and body on the
//! wire; everything it needs is carried here, already checked.

use vstd::prelude::*;
use vstd::string::StringExecFns;
use vstd::utf8::encode_utf8;

use crate::ServerError;

verus! {

/// Fixed body of every 404 answer.
pub const NOT_FOUND_MSG: &'static str = "Not found";

pub const STATUS_OK: u16 = 200;

pub const STATUS_NOT_FOUND: u16 = 404;

pub const STATUS_INTERNAL_SERVER_ERROR: u16 = 500;

/// One HTTP response, ready to be written to a connection.
pub struct HttpResponse {
    /// HTTP status code.
    pub status: u16,
    /// Whether a `Content-Type: application/json` header is to be sent.
    pub content_type_json: bool,
    /// Value of the `Content-Length` header.
    pub content_length: u64,
    /// Response body.
    pub body: String,
}

impl HttpResponse {
    /// The declared length is the length of the body in UTF-8 bytes: what the
    /// transport will actually put on the wire.
    pub open spec fn wf(self) -> bool {
        self.content_length == encode_utf8(self.body@).len()
    }
}

/// Builds a response with the given body and status, carrying a JSON content
/// type and an accurate content length.
pub fn resp_with_msg(msg: &str, status: u16) -> (r: HttpResponse)
    ensures
        r.status == status,
        r.content_type_json,
        r.body@ == msg@,
        r.wf(),
{
    let n: usize = msg.as_bytes().len();
    HttpResponse { status, content_type_json: true, content_length: n as u64, body: msg.to_owned() }
}

/// The answer to every request whose method and path match no route: a plain
/// 404 with the fixed body and no content type, as for any unknown resource.
pub fn not_found() -> (r: HttpResponse)
    ensures
        r.status == STATUS_NOT_FOUND,
        !r.content_type_json,
        r.body@ == NOT_FOUND_MSG@,
        r.wf(),
{
    let n: usize = NOT_FOUND_MSG.as_bytes().len();
    HttpResponse {
        status: STATUS_NOT_FOUND,
        content_type_json: false,
        content_length: n as u64,
        body: NOT_FOUND_MSG.to_owned(),
    }
}

/// Maps the outcome of a request pipeline to the response sent back: a 200
/// with the JSON body on success, a 500 carrying the error's JSON body
/// otherwise.
pub fn make_resp(val: Result<String, ServerError>) -> (r: HttpResponse)
    ensures
        r.content_type_json,
        r.wf(),
        match val {
            Ok(body) => r.status == STATUS_OK && r.body@ == body@,
            Err(e) => r.status == STATUS_INTERNAL_SERVER_ERROR && r.body@ == e.spec_body(),
        },
{
    match val {
        Ok(body) => resp_with_msg(body.as_str(), STATUS_OK),
        Err(e) => resp_with_msg(e.body().as_str(), STATUS_INTERNAL_SERVER_ERROR),
    }
}

} // verus!
