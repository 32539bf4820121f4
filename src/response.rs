//! The responses that the remote protocol sends back, and their wire text.
use vstd::prelude::*;
use vstd::utf8::encode_utf8;

use crate::text::{decimal, push_decimal};

verus! {

/// The outcome of one request.
#[derive(Debug)]
pub enum Response {
    Success(Option<String>),
    Forbidden,
    BadRequest(Option<String>),
    NotFound,
}

/// The number of bytes that `s` takes in UTF-8.
pub open spec fn byte_len(s: Seq<char>) -> nat {
    encode_utf8(s).len()
}

/// A status line, content type and length, then the body.
pub open spec fn with_body(status: Seq<char>, content_type: Seq<char>, body: Seq<char>) -> Seq<char> {
    status + "\r\nContent-Type: "@ + content_type + "\r\nContent-Length: "@ + decimal(byte_len(body))
        + "\r\n\r\n"@ + body
}

/// The wire text of a response.
pub open spec fn response_text(r: Response) -> Seq<char> {
    match r {
        Response::Success(Some(b)) => with_body("HTTP/1.1 200 Ok "@, "text/json"@, b@),
        Response::Success(None) => "HTTP/1.1 200 Ok \r\n\r\n"@,
        Response::Forbidden => "HTTP/1.1 401 Unauthorized \r\n\r\n"@,
        Response::BadRequest(Some(b)) => with_body("HTTP/1.1 402 Bad request"@, "text/plain"@, b@),
        Response::BadRequest(None) => "HTTP/1.1 402 Bad request\r\n\r\n"@,
        Response::NotFound => "HTTP/1.1 404 Not found \r\n\r\n"@,
    }
}

/// Writes a status line, content type and length, then the body.
fn framed(status: &str, content_type: &str, body: &str) -> (r: String)
    ensures
        r@ == with_body(status@, content_type@, body@),
{
    let mut s = status.to_owned();
    s.append("\r\nContent-Type: ");
    s.append(content_type);
    s.append("\r\nContent-Length: ");
    let n = body.as_bytes().len();
    push_decimal(&mut s, n as u64);
    s.append("\r\n\r\n");
    s.append(body);
    assert(s@ =~= with_body(status@, content_type@, body@));
    s
}

impl Response {
    /// The response as it goes on the wire.
    pub fn get_responce(&self) -> (r: String)
        ensures
            r@ == response_text(*self),
    {
        match self {
            Response::Success(Some(b)) => framed("HTTP/1.1 200 Ok ", "text/json", b.as_str()),
            Response::Success(None) => "HTTP/1.1 200 Ok \r\n\r\n".to_owned(),
            Response::Forbidden => "HTTP/1.1 401 Unauthorized \r\n\r\n".to_owned(),
            Response::BadRequest(Some(b)) => framed(
                "HTTP/1.1 402 Bad request",
                "text/plain",
                b.as_str(),
            ),
            Response::BadRequest(None) => "HTTP/1.1 402 Bad request\r\n\r\n".to_owned(),
            Response::NotFound => "HTTP/1.1 404 Not found \r\n\r\n".to_owned(),
        }
    }
}

/// A successful response carrying JSON.
pub fn json_to_http(json: String) -> (r: String)
    ensures
        r@ == with_body("HTTP/1.1 200 Ok"@, "application/json"@, json@),
{
    framed("HTTP/1.1 200 Ok", "application/json", json.as_str())
}

} // verus!
