use crate::document::{json_text, Document};
use vstd::prelude::*;
use vstd::utf8::encode_utf8;

verus! {

/// An outgoing response: status code, content type, further headers, body.
pub struct Response {
    pub status: u16,
    pub content_type: String,
    pub headers: Vec<(String, String)>,
    pub body: Vec<u8>,
}

/// A response with a text body and no further header.
pub open spec fn text_response(r: Response, status: u16, content_type: Seq<char>, body: Seq<char>) -> bool {
    &&& r.status == status
    &&& r.content_type@ == content_type
    &&& r.headers@.len() == 0
    &&& r.body@ == encode_utf8(body)
}

pub fn build_response(body_text: String, status_code: u16, content_type: &str) -> (r: Response)
    ensures
        text_response(r, status_code, content_type@, body_text@),
{
    Response {
        status: status_code,
        content_type: content_type.to_owned(),
        headers: Vec::new(),
        body: body_text.as_str().as_bytes_vec(),
    }
}

pub fn response_json(body_text: String, status_code: u16) -> (r: Response)
    ensures
        text_response(r, status_code, "application/json"@, body_text@),
{
    build_response(body_text, status_code, "application/json")
}

/// A JSON response with the object's text.
pub fn ret_json(status_code: u16, v: &Document) -> (r: Response)
    ensures
        text_response(r, status_code, "application/json"@, json_text(v@)),
{
    response_json(v.to_json(), status_code)
}

/// A 200 JSON response with the object's text.
pub fn ok_json(v: &Document) -> (r: Response)
    ensures
        text_response(r, 200, "application/json"@, json_text(v@)),
{
    ret_json(200, v)
}

/// The 500 response for a failure: `Error: <description>`.
pub fn internal_server_error(error: &str) -> (r: Response)
    ensures
        text_response(r, 500, "text/html"@, "Error: "@ + error@),
{
    let mut body = String::from_str("Error: ");
    body.append(error);
    build_response(body, 500, "text/html")
}

/// The 404 response for a path that no view serves: `Not found: <path>`.
pub fn not_found(path: &str) -> (r: Response)
    ensures
        text_response(r, 404, "text/plain"@, "Not found: "@ + path@),
{
    let mut body = String::from_str("Not found: ");
    body.append(path);
    build_response(body, 404, "text/plain")
}

impl Response {
    /// Adds a header, after those already there.
    pub fn append_header(&mut self, name: String, value: String)
        ensures
            final(self).headers@ == old(self).headers@.push((name, value)),
            final(self).status == old(self).status,
            final(self).content_type == old(self).content_type,
            final(self).body == old(self).body,
    {
        self.headers.push((name, value));
    }
}

} // verus!
