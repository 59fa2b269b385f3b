//! The service's configuration and what it reads from request headers.

use vstd::prelude::*;
use vstd::utf8::encode_utf8;
use crate::reply::{reply, reply_is, Reply, Status};
use crate::text::{
    has_char, has_control_char, header_text, header_text_spec, is_blank, parse_i64_bytes,
    parse_i64_spec,
};

verus! {

/// The settings the service is started with.
pub struct Config {
    /// The directory that uploads go to and downloads come from.
    pub base_dir: String,
    /// The TCP port the service listens on.
    pub port: u16,
    /// The file served as the file database.
    pub file_db_path: String,
}

/// What every request handler shares: the storage directory, as the bytes
/// of its path.
#[derive(Debug, Clone)]
pub struct AppState {
    pub base_dir: Vec<u8>,
}

impl AppState {
    /// The state for a configuration: its storage directory.
    pub fn from_config(config: &Config) -> (r: AppState)
        ensures
            r.base_dir@ == encode_utf8(config.base_dir@),
    {
        AppState { base_dir: bytes_of(config.base_dir.as_str()) }
    }
}

/// The bytes of a text.
pub(crate) fn bytes_of(s: &str) -> (r: Vec<u8>)
    ensures
        r@ == encode_utf8(s@),
{
    let b = s.as_bytes();
    let mut out: Vec<u8> = Vec::new();
    crate::path::append_bytes(&mut out, b);
    out
}

/// The raw values of the headers that describe an upload, each present
/// when the request carried it.
pub struct MetadataHeaders {
    /// `X-File-Name`.
    pub file_name: Option<Vec<u8>>,
    /// `X-File-Time`.
    pub file_time: Option<Vec<u8>>,
    /// `X-Sub-Dir`.
    pub sub_dir: Option<Vec<u8>>,
}

/// The text of an optional header value, when it is present and readable.
pub open spec fn opt_header_text(h: Option<Vec<u8>>) -> Option<Seq<char>> {
    match h {
        Some(b) => header_text_spec(b@),
        None => None,
    }
}

/// The time an upload names: the value of its time header read as a decimal
/// `i64`, or nothing when the header is absent, unreadable or not a number.
pub open spec fn file_time_spec(h: Option<Vec<u8>>) -> Option<i64> {
    match h {
        Some(b) => if header_text_spec(b@) is Some {
            parse_i64_spec(b@)
        } else {
            None
        },
        None => None,
    }
}

/// The view of an optional text.
pub open spec fn opt_text(s: Option<String>) -> Option<Seq<char>> {
    match s {
        Some(t) => Some(t@),
        None => None,
    }
}

/// The description of an upload taken from its headers.
#[derive(Debug, Clone)]
pub struct FileMetadata {
    /// The name the client gives the file.
    pub filename: String,
    /// The modification time to give the stored file, in seconds since the
    /// Unix epoch.
    pub filetime: Option<i64>,
    /// Where the file came from on the client's side. It describes the
    /// upload and has no part in where the file is stored.
    pub sub_dir: Option<String>,
}

impl FileMetadata {
    /// Reads the description of an upload from its headers. The file name
    /// header is required and must be readable text; otherwise the request
    /// is refused with 400. The time and sub-directory headers are optional:
    /// when absent or unreadable they are taken as not given, and a time
    /// that is not a decimal `i64` is taken as not given.
    pub fn from_headers(headers: &MetadataHeaders) -> (r: Result<FileMetadata, Reply>)
        ensures
            r is Err <==> opt_header_text(headers.file_name) is None,
            r matches Err(e) ==> reply_is(
                e,
                Status::BadRequest,
                "Missing or invalid X-File-Name header"@,
            ),
            r matches Ok(m) ==> {
                &&& opt_header_text(headers.file_name) == Some(m.filename@)
                &&& m.filetime == file_time_spec(headers.file_time)
                &&& opt_text(m.sub_dir) == opt_header_text(headers.sub_dir)
            },
    {
        let filename = match &headers.file_name {
            Some(b) => header_text(b.as_slice()),
            None => None,
        };
        let filename = match filename {
            Some(f) => f,
            None => {
                return Err(reply(Status::BadRequest, "Missing or invalid X-File-Name header"));
            },
        };
        let filetime = match &headers.file_time {
            Some(b) => match header_text(b.as_slice()) {
                Some(_) => parse_i64_bytes(b.as_slice()),
                None => None,
            },
            None => None,
        };
        let sub_dir = match &headers.sub_dir {
            Some(b) => header_text(b.as_slice()),
            None => None,
        };
        Ok(FileMetadata { filename, filetime, sub_dir })
    }
}

/// The path a download or deletion request names.
#[derive(Debug, Clone)]
pub struct FilePath {
    pub path: String,
}

impl FilePath {
    /// Reads the `file-path` header: it is required and must be readable
    /// text; otherwise the request is refused with 400.
    pub fn from_header(value: Option<Vec<u8>>) -> (r: Result<FilePath, Reply>)
        ensures
            r is Err <==> opt_header_text(value) is None,
            r matches Err(e) ==> reply_is(e, Status::BadRequest, "Missing or invalid file-path header"@),
            r matches Ok(p) ==> opt_header_text(value) == Some(p.path@),
    {
        let text = match &value {
            Some(b) => header_text(b.as_slice()),
            None => None,
        };
        match text {
            Some(path) => Ok(FilePath { path }),
            None => Err(reply(Status::BadRequest, "Missing or invalid file-path header")),
        }
    }
}

/// Whether a requested path is unusable as given: blank, or holding a NUL
/// or another control character.
pub open spec fn path_text_invalid(path: Seq<char>) -> bool {
    is_blank(path) || has_char(path, '\0') || has_control_char(path)
}

/// Checks the text of a requested path, refusing a blank one or one with
/// a NUL or other control character with 400 "Invalid file-path header".
pub fn check_path_text(path: &str) -> (r: Result<(), Reply>)
    ensures
        r is Err <==> path_text_invalid(path@),
        r matches Err(e) ==> reply_is(e, Status::BadRequest, "Invalid file-path header"@),
{
    if crate::text::trims_to_empty(path) || crate::text::contains_char(path, '\0')
        || crate::text::contains_control_char(path) {
        Err(reply(Status::BadRequest, "Invalid file-path header"))
    } else {
        Ok(())
    }
}

} // verus!
