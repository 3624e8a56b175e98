//! Requests that name the fields of their path, and send what is optional as
//! a query string.

use vstd::prelude::*;
use vstd::string::*;
use vstd::utf8::encode_utf8;

pub mod issues;
pub mod releases;

verus! {

/// The error of `serde_json`.
#[verifier::external_type_specification]
#[verifier::external_body]
pub struct ExJsonError(serde_json::Error);

/// What `serde_json` makes of the string `text`: the JSON string literal it
/// writes (the text in double quotes, with the characters escaped that JSON
/// asks for), or nothing where it reports an error.
pub uninterp spec fn json_encoded(text: Seq<char>) -> Option<Seq<char>>;

/// Calls `serde_json::to_string` on a string. The outcome depends on the
/// string alone, and the contract names it: what the call returns where it
/// succeeds, and that there is nothing where it fails. Nothing is claimed
/// about which of the two happens.
#[verifier::external_body]
fn encode_json(text: &str) -> (out: Result<String, serde_json::Error>)
    ensures
        out matches Ok(json) ==> json_encoded(text@) == Some(json@),
        out is Err ==> json_encoded(text@) is None,
{
    serde_json::to_string(text)
}

/// Why a request has no body.
#[derive(Clone, Copy, Debug, PartialEq, Eq, Structural)]
pub enum BodyError {
    /// A value could not be written as JSON.
    Encoding,
}

/// The JSON object with the one member `body`, whose value is written as
/// `json`.
pub open spec fn body_frame(json: Seq<char>) -> Seq<char> {
    "{\"body\":"@ + json + "}"@
}

/// The bytes of the JSON object with the one member `body`, whose value is
/// written as `json`.
pub fn frame_body(json: &str) -> (bytes: Vec<u8>)
    ensures
        bytes@ == encode_utf8(body_frame(json@)),
{
    let mut frame = String::from_str("{\"body\":");
    frame.append(json);
    frame.append("}");
    frame.as_str().as_bytes_vec()
}

/// The body that comes of an encoded value: the framed bytes where the
/// value was encoded, an error where it was not.
pub fn body_of(encoded: Result<String, serde_json::Error>) -> (out: Result<Vec<u8>, BodyError>)
    ensures
        out is Ok <==> encoded is Ok,
        out matches Ok(bytes) ==> bytes@ == encode_utf8(body_frame(encoded->Ok_0@)),
        out matches Err(error) ==> error == BodyError::Encoding,
{
    match encoded {
        Ok(json) => Ok(frame_body(json.as_str())),
        Err(_) => Err(BodyError::Encoding),
    }
}

/// The body of a request that sends the one member `body` with the value
/// `text`: there is one exactly when `text` can be written as JSON, and it
/// is the object framed around what was written.
pub fn comment_body(text: &str) -> (out: Result<Vec<u8>, BodyError>)
    ensures
        out is Ok <==> json_encoded(text@) is Some,
        out matches Ok(bytes) ==> bytes@ == encode_utf8(body_frame(json_encoded(text@)->0)),
        out matches Err(error) ==> error == BodyError::Encoding,
{
    body_of(encode_json(text))
}

} // verus!
