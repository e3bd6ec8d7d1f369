//! The replies the server sends, and what it makes of a script's run.

use vstd::prelude::*;
use vstd::utf8::{decode_utf8, valid_utf8};

verus! {

/// The status of a reply.
#[derive(PartialEq, Eq, Structural, Debug, Clone, Copy)]
pub enum ReplyStatus {
    /// 200 OK.
    Success,
    /// 500 Internal Server Error.
    InternalServerError,
}

/// The media type a reply declares.
#[derive(PartialEq, Eq, Structural, Debug, Clone, Copy)]
pub enum MediaType {
    /// `text/html`.
    Html,
}

/// A reply to a request: its status, the media type it declares, if any,
/// and its body, if any.
#[derive(Debug)]
pub struct HttpReply {
    pub status: ReplyStatus,
    pub content_type: Option<MediaType>,
    pub body: Option<String>,
}

/// The body of a reply, as the contracts speak of it.
pub open spec fn body_of(r: HttpReply) -> Option<Seq<char>> {
    match r.body {
        Some(b) => Some(b@),
        None => None,
    }
}

/// The reply that reports a failure: status 500, no media type, no body.
pub open spec fn is_error_reply(r: HttpReply) -> bool {
    &&& r.status == ReplyStatus::InternalServerError
    &&& r.content_type is None
    &&& r.body is None
}

/// A successful reply with the given body and no declared media type.
pub open spec fn is_ok_reply(r: HttpReply, body: Seq<char>) -> bool {
    &&& r.status == ReplyStatus::Success
    &&& r.content_type is None
    &&& body_of(r) == Some(body)
}

/// The reply that reports a failure: status 500 with no body.
pub fn generic_error_handler() -> (r: HttpReply)
    ensures
        is_error_reply(r),
{
    HttpReply { status: ReplyStatus::InternalServerError, content_type: None, body: None }
}

/// A successful reply carrying `body`.
pub fn ok_reply(body: String) -> (r: HttpReply)
    ensures
        is_ok_reply(r, body@),
{
    HttpReply { status: ReplyStatus::Success, content_type: None, body: Some(body) }
}

/// A successful reply carrying the HTML page `html`, declared as `text/html`.
pub fn html_reply(html: String) -> (r: HttpReply)
    ensures
        r.status == ReplyStatus::Success,
        r.content_type == Some(MediaType::Html),
        body_of(r) == Some(html@),
{
    HttpReply { status: ReplyStatus::Success, content_type: Some(MediaType::Html), body: Some(html) }
}

/// What a finished process left: whether it exited successfully, and what it
/// wrote to its standard output and standard error.
pub struct ProcessOutput {
    pub success: bool,
    pub stdout: Vec<u8>,
    pub stderr: Vec<u8>,
}

/// The process of a script could not be started.
#[derive(Debug)]
pub struct SpawnError;

/// The text that `String::from_utf8_lossy` makes of `bytes`.
pub uninterp spec fn utf8_lossy(bytes: Seq<u8>) -> Seq<char>;

/// Calls `String::from_utf8_lossy`. Trusted: the result is the function's
/// value on `bytes`, and where `bytes` is valid UTF-8 it is the text they
/// encode (the function replaces only invalid sequences, with U+FFFD). What
/// the replacement yields on invalid input is left unsaid.
#[verifier::external_body]
fn decode_lossy(bytes: &[u8]) -> (r: String)
    ensures
        r@ == utf8_lossy(bytes@),
        valid_utf8(bytes@) ==> r@ == decode_utf8(bytes@),
{
    String::from_utf8_lossy(bytes).into_owned()
}

/// The reply to a script's run: where the process ran and exited
/// successfully, status 200 with what it wrote to its standard output, read as
/// UTF-8 with invalid sequences replaced; otherwise the error reply.
pub fn generic_run(output: Result<ProcessOutput, SpawnError>) -> (r: HttpReply)
    ensures
        match output {
            Ok(o) => if o.success {
                is_ok_reply(r, utf8_lossy(o.stdout@)) && (valid_utf8(o.stdout@) ==> body_of(r)
                    == Some(decode_utf8(o.stdout@)))
            } else {
                is_error_reply(r)
            },
            Err(_) => is_error_reply(r),
        },
{
    match output {
        Ok(output) => {
            match output.success {
                true => {
                    let script_output = decode_lossy(output.stdout.as_slice());
                    ok_reply(script_output)
                },
                false => generic_error_handler(),
            }
        },
        Err(_) => generic_error_handler(),
    }
}

} // verus!
