//! The HTTP responses of the service, as plain data: a status code, the
//! headers the service sets, and the body bytes. The surrounding binary
//! turns one of these into a framework response without further decisions.

use vstd::prelude::*;
use vstd::string::StringSliceAdditionalSpecFns;
use crate::render::{
    dec_of, json_escaped, quoted_escaped, push_decimal, append_json_escaped,
    append_quoted_escaped,
};

verus! {

/// A response about to be sent: status, the two headers this service ever
/// sets, and the body. A `None` header is left to the transport's default.
pub struct Response {
    pub status: u16,
    pub content_type: Option<Vec<u8>>,
    pub content_disposition: Option<Vec<u8>>,
    pub body: Vec<u8>,
}

/// The mathematical shape of a `Response`.
pub struct ResponseModel {
    pub status: int,
    pub content_type: Option<Seq<u8>>,
    pub content_disposition: Option<Seq<u8>>,
    pub body: Seq<u8>,
}

impl View for Response {
    type V = ResponseModel;

    open spec fn view(&self) -> ResponseModel {
        ResponseModel {
            status: self.status as int,
            content_type: match self.content_type {
                Some(v) => Some(v@),
                None => None,
            },
            content_disposition: match self.content_disposition {
                Some(v) => Some(v@),
                None => None,
            },
            body: self.body@,
        }
    }
}

/// The content type of every JSON response.
pub open spec fn json_content_type() -> Seq<u8> {
    ("application/json").spec_bytes()
}

/// The content type under which stored files are served, and the one
/// recorded for every stored file.
pub open spec fn csv_content_type() -> Seq<u8> {
    ("text/csv").spec_bytes()
}

/// The body of a successful upload response: a JSON object carrying the
/// assigned id, a fixed message, the byte count, and the stored path.
pub open spec fn success_body(id: Seq<u8>, size: nat, path: Seq<u8>) -> Seq<u8> {
    ("{\"id\":\"").spec_bytes() + json_escaped(id) + (
    "\",\"message\":\"File uploaded successfully\",\"size\":").spec_bytes() + dec_of(size) + (
    ",\"path\":\"").spec_bytes() + json_escaped(path) + ("\"}").spec_bytes()
}

/// The response to a successful upload.
pub open spec fn success_response(id: Seq<u8>, size: nat, path: Seq<u8>) -> ResponseModel {
    ResponseModel {
        status: 200,
        content_type: Some(json_content_type()),
        content_disposition: None,
        body: success_body(id, size, path),
    }
}

/// The body of the rejection of a filename that does not end in `.csv`.
pub open spec fn bad_extension_body() -> Seq<u8> {
    ("{\"error\":\"Only CSV files are allowed\"}").spec_bytes()
}

/// The rejection of a filename that does not end in `.csv`.
pub open spec fn bad_extension_response() -> ResponseModel {
    ResponseModel {
        status: 400,
        content_type: Some(json_content_type()),
        content_disposition: None,
        body: bad_extension_body(),
    }
}

/// The response when no row matches a requested id.
pub open spec fn not_found_response() -> ResponseModel {
    ResponseModel {
        status: 404,
        content_type: None,
        content_disposition: None,
        body: ("File not found").spec_bytes(),
    }
}

/// The response to a multipart request that carries no part at all.
pub open spec fn no_file_response() -> ResponseModel {
    ResponseModel {
        status: 500,
        content_type: None,
        content_disposition: None,
        body: ("No file provided").spec_bytes(),
    }
}

/// The response to a part whose `Content-Disposition` names no filename.
pub open spec fn missing_filename_response() -> ResponseModel {
    ResponseModel {
        status: 500,
        content_type: None,
        content_disposition: None,
        body: ("No filename provided").spec_bytes(),
    }
}

/// The response when the metadata row cannot be recorded.
pub open spec fn insert_failed_response() -> ResponseModel {
    ResponseModel {
        status: 500,
        content_type: None,
        content_disposition: None,
        body: ("Failed to save file").spec_bytes(),
    }
}

/// The `Content-Disposition` value under which a stored file is served:
/// an attachment named by the original filename, quoted, with quote and
/// backslash escaped so the header cannot be broken by the name.
pub open spec fn attachment_value(name: Seq<u8>) -> Seq<u8> {
    ("attachment; filename=\"").spec_bytes() + quoted_escaped(name) + ("\"").spec_bytes()
}

/// The response that serves a stored file back.
pub open spec fn csv_file_response(name: Seq<u8>, bytes: Seq<u8>) -> ResponseModel {
    ResponseModel {
        status: 200,
        content_type: Some(csv_content_type()),
        content_disposition: Some(attachment_value(name)),
        body: bytes,
    }
}

/// Builds the successful upload response for `id`, `size` and `path`.
pub fn make_success_response(id: &Vec<u8>, size: i64, path: &Vec<u8>) -> (r: Response)
    requires
        size >= 0,
    ensures
        r@ == success_response(id@, size as nat, path@),
{
    let mut body: Vec<u8> = Vec::new();
    body.extend_from_slice("{\"id\":\"".as_bytes());
    append_json_escaped(&mut body, id);
    body.extend_from_slice("\",\"message\":\"File uploaded successfully\",\"size\":".as_bytes());
    push_decimal(&mut body, size as u64);
    body.extend_from_slice(",\"path\":\"".as_bytes());
    append_json_escaped(&mut body, path);
    body.extend_from_slice("\"}".as_bytes());
    proof {
        assert(body@ =~= success_body(id@, size as nat, path@));
    }
    Response {
        status: 200,
        content_type: Some(make_json_content_type()),
        content_disposition: None,
        body,
    }
}

/// Builds the JSON content type bytes.
pub fn make_json_content_type() -> (r: Vec<u8>)
    ensures
        r@ == json_content_type(),
{
    vstd::slice::slice_to_vec("application/json".as_bytes())
}

/// Builds the CSV content type bytes.
pub fn make_csv_content_type() -> (r: Vec<u8>)
    ensures
        r@ == csv_content_type(),
{
    vstd::slice::slice_to_vec("text/csv".as_bytes())
}

/// Builds the rejection of a filename that does not end in `.csv`.
pub fn make_bad_extension_response() -> (r: Response)
    ensures
        r@ == bad_extension_response(),
{
    Response {
        status: 400,
        content_type: Some(make_json_content_type()),
        content_disposition: None,
        body: vstd::slice::slice_to_vec("{\"error\":\"Only CSV files are allowed\"}".as_bytes()),
    }
}

/// Builds the response for an id that no row matches.
pub fn make_not_found_response() -> (r: Response)
    ensures
        r@ == not_found_response(),
{
    Response {
        status: 404,
        content_type: None,
        content_disposition: None,
        body: vstd::slice::slice_to_vec("File not found".as_bytes()),
    }
}

/// Builds the response for a multipart request without any part.
pub fn make_no_file_response() -> (r: Response)
    ensures
        r@ == no_file_response(),
{
    Response {
        status: 500,
        content_type: None,
        content_disposition: None,
        body: vstd::slice::slice_to_vec("No file provided".as_bytes()),
    }
}

/// Builds the response for a part that names no filename.
pub fn make_missing_filename_response() -> (r: Response)
    ensures
        r@ == missing_filename_response(),
{
    Response {
        status: 500,
        content_type: None,
        content_disposition: None,
        body: vstd::slice::slice_to_vec("No filename provided".as_bytes()),
    }
}

/// Builds the response for a metadata row that could not be recorded.
pub fn make_insert_failed_response() -> (r: Response)
    ensures
        r@ == insert_failed_response(),
{
    Response {
        status: 500,
        content_type: None,
        content_disposition: None,
        body: vstd::slice::slice_to_vec("Failed to save file".as_bytes()),
    }
}

/// Builds the response that serves a stored file back under its original
/// name.
pub fn make_csv_file_response(name: &Vec<u8>, bytes: Vec<u8>) -> (r: Response)
    ensures
        r@ == csv_file_response(name@, bytes@),
{
    let mut disposition: Vec<u8> = Vec::new();
    disposition.extend_from_slice("attachment; filename=\"".as_bytes());
    append_quoted_escaped(&mut disposition, name);
    disposition.extend_from_slice("\"".as_bytes());
    proof {
        assert(disposition@ =~= attachment_value(name@));
    }
    Response {
        status: 200,
        content_type: Some(make_csv_content_type()),
        content_disposition: Some(disposition),
        body: bytes,
    }
}

} // verus!
