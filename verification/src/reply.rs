//! Status codes, error replies, and the answers built for files that are
//! sent back to the client.

use vstd::prelude::*;
use crate::path::file_name_spec;
use crate::text::{is_control_char, push_char, utf8_lossy};
use vstd::utf8::{decode_utf8, valid_utf8};

verus! {

/// The HTTP statuses that the service answers with.
#[derive(Debug, Clone, Copy, PartialEq, Eq, Structural)]
pub enum Status {
    /// 200 OK.
    Success,
    Created,
    BadRequest,
    Forbidden,
    NotFound,
    Conflict,
    InternalServerError,
}

impl Status {
    /// The numeric HTTP status code.
    pub open spec fn code_spec(self) -> u16 {
        match self {
            Status::Success => 200,
            Status::Created => 201,
            Status::BadRequest => 400,
            Status::Forbidden => 403,
            Status::NotFound => 404,
            Status::Conflict => 409,
            Status::InternalServerError => 500,
        }
    }

    /// The numeric HTTP status code.
    pub fn code(&self) -> (c: u16)
        ensures
            c == self.code_spec(),
    {
        match self {
            Status::Success => 200,
            Status::Created => 201,
            Status::BadRequest => 400,
            Status::Forbidden => 403,
            Status::NotFound => 404,
            Status::Conflict => 409,
            Status::InternalServerError => 500,
        }
    }
}

/// The text of the root endpoint, which tells that the service is up.
pub fn root_handler() -> (r: &'static str)
    ensures
        r@ == "filesearcherV5-web active"@,
{
    "filesearcherV5-web active"
}

/// A refusal: a status and the text sent as the body.
#[derive(Debug, Clone)]
pub struct Reply {
    pub status: Status,
    pub message: String,
}

/// Whether `r` carries status `s` and message `m`.
pub open spec fn reply_is(r: Reply, s: Status, m: Seq<char>) -> bool {
    r.status == s && r.message@ == m
}

/// Builds a reply from a status and a fixed message.
pub(crate) fn reply(status: Status, message: &str) -> (r: Reply)
    ensures
        reply_is(r, status, message@),
{
    Reply { status, message: message.to_owned() }
}

/// Builds a reply whose message is `prefix` followed by `detail`.
pub(crate) fn reply_with(status: Status, prefix: &str, detail: &str) -> (r: Reply)
    ensures
        reply_is(r, status, prefix@ + detail@),
{
    let mut message = prefix.to_owned();
    append_str(&mut message, detail);
    Reply { status, message }
}

/// Appends `t` to `s` by `String::push_str`, which adds the text at the end.
#[verifier::external_body]
pub(crate) fn append_str(s: &mut String, t: &str)
    ensures
        final(s)@ == old(s)@ + t@,
{
    s.push_str(t);
}

/// The kinds of filesystem failure that the service tells apart.
#[derive(Debug, Clone, Copy, PartialEq, Eq, Structural)]
pub enum IoErrorKind {
    NotFound,
    PermissionDenied,
    Other,
}

/// A failed filesystem operation: its kind and its description, the text
/// that the error displays.
#[derive(Debug, Clone)]
pub struct IoFailure {
    pub kind: IoErrorKind,
    pub description: String,
}

/// What the filesystem reports about an entry.
#[derive(Debug, Clone, Copy)]
pub struct FileStat {
    pub is_file: bool,
    pub is_dir: bool,
    pub len: u64,
}

/// The status that a filesystem failure of kind `k` is answered with.
pub open spec fn io_error_status(k: IoErrorKind) -> Status {
    match k {
        IoErrorKind::NotFound => Status::NotFound,
        IoErrorKind::PermissionDenied => Status::Forbidden,
        IoErrorKind::Other => Status::InternalServerError,
    }
}

/// The message that a filesystem failure is answered with, where
/// `not_found` names what was missing.
pub open spec fn io_error_message(e: IoFailure, not_found: Seq<char>) -> Seq<char> {
    match e.kind {
        IoErrorKind::NotFound => not_found,
        IoErrorKind::PermissionDenied => "Access denied"@,
        IoErrorKind::Other => "IO error: "@ + e.description@,
    }
}

/// Whether `r` is the answer to filesystem failure `e`.
pub open spec fn is_io_reply(r: Reply, e: IoFailure, not_found: Seq<char>) -> bool {
    reply_is(r, io_error_status(e.kind), io_error_message(e, not_found))
}

/// Answers a failed filesystem operation: a missing entry with 404 and
/// `not_found_message`, a denied one with 403 "Access denied", anything else
/// with 500 and the error's description.
pub fn io_error_to_response(e: &IoFailure, not_found_message: &str) -> (r: Reply)
    ensures
        is_io_reply(r, *e, not_found_message@),
{
    match e.kind {
        IoErrorKind::NotFound => reply(Status::NotFound, not_found_message),
        IoErrorKind::PermissionDenied => reply(Status::Forbidden, "Access denied"),
        IoErrorKind::Other => reply_with(
            Status::InternalServerError,
            "IO error: ",
            e.description.as_str(),
        ),
    }
}

/// A character that may stand in the quoted file name of a
/// `Content-Disposition` header: no control character and no double quote.
pub open spec fn is_safe_name_char(c: char) -> bool {
    !is_control_char(c) && c != '"'
}

/// The characters of `s` that may stand in a quoted file name, in order.
pub open spec fn safe_text(s: Seq<char>) -> Seq<char>
    decreases s.len(),
{
    if s.len() == 0 {
        seq![]
    } else if is_safe_name_char(s.last()) {
        safe_text(s.drop_last()).push(s.last())
    } else {
        safe_text(s.drop_last())
    }
}

/// Drops from `s` the control characters and double quotes.
pub fn safe_filename(s: &str) -> (r: String)
    ensures
        r@ == safe_text(s@),
{
    broadcast use vstd::string::group_string_axioms;

    let mut out = String::new();
    for c in it: s.chars()
        invariant
            it.seq() == s@,
            out@ == safe_text(s@.take(it.index())),
    {
        let ghost k = it.index();
        assert(s@.take(k + 1).drop_last() =~= s@.take(k));
        assert(s@.take(k + 1).last() == c);
        if !crate::text::char_is_control(c) && c != '"' {
            push_char(&mut out, c);
        }
    }
    assert(s@.take(s@.len() as int) =~= s@);
    out
}

/// The value of the `Content-Disposition` header that offers a file for
/// download under the name `name`.
pub open spec fn disposition_spec(name: Seq<char>) -> Seq<char> {
    "attachment; filename=\""@ + safe_text(name) + "\""@
}

/// The name a file is offered under: the final name of its path, decoded
/// from UTF-8 (with invalid sequences replaced when it is not valid UTF-8),
/// or `fallback` when the path has no final name.
pub open spec fn offered_name(path: Seq<u8>, fallback: Seq<char>) -> Seq<char> {
    match file_name_spec(path) {
        Some(n) => if valid_utf8(n) {
            decode_utf8(n)
        } else {
            utf8_lossy(n)
        },
        None => fallback,
    }
}

/// What is needed to send a file: its length and the
/// `Content-Disposition` header value that names it.
#[derive(Debug, Clone)]
pub struct FileReply {
    pub len: u64,
    pub content_disposition: String,
}

impl FileReply {
    /// The `Content-Type` a file is sent with.
    pub fn content_type() -> (r: &'static str)
        ensures
            r@ == "application/octet-stream"@,
    {
        "application/octet-stream"
    }
}

/// Prepares the answer that sends the file at `path`, of length `len`,
/// named after the path's final name or `fallback`.
pub(crate) fn file_reply(path: &[u8], len: u64, fallback: &str) -> (r: FileReply)
    ensures
        r.len == len,
        r.content_disposition@ == disposition_spec(offered_name(path@, fallback@)),
{
    let name = match crate::path::file_name(path) {
        Some(n) => crate::text::text_of_bytes_lossy(n.as_slice()),
        None => fallback.to_owned(),
    };
    let safe = safe_filename(name.as_str());
    let mut value = "attachment; filename=\"".to_owned();
    append_str(&mut value, safe.as_str());
    append_str(&mut value, "\"");
    FileReply { len, content_disposition: value }
}

} // verus!
