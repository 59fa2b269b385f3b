//! Downloads: the decisions between the filesystem operations that send a
//! stored file back to the client.
//!
//! Each step returns the next operation to perform together with what to
//! resume once it has been performed, so that the operations can only be
//! answered in the order the rules ask for them.

use vstd::prelude::*;
use vstd::utf8::encode_utf8;
use crate::path::{push_spec, starts_with, starts_with_spec};
use crate::reply::{
    io_error_message, io_error_status, disposition_spec, file_reply, io_error_to_response, is_io_reply, offered_name, reply,
    reply_is, FileReply, FileStat, IoFailure, Reply, Status,
};
use crate::request::{bytes_of, check_path_text, path_text_invalid, AppState, FilePath};
use crate::resolve::{request_path_refusal, resolve_request};

verus! {

/// The next step of a download.
pub enum DownloadAction {
    /// Resolve the path to its canonical absolute form, then resume.
    Canonicalize(Vec<u8>, AwaitBase),
    /// Resolve the path to its canonical absolute form, then resume.
    CanonicalizeFile(Vec<u8>, AwaitFile),
    /// Read what the filesystem reports about the path, then resume.
    ReadMetadata(Vec<u8>, AwaitStat),
    /// Open the file at the path for reading, then resume.
    Open(Vec<u8>, AwaitOpen),
    /// Answer 200 with the opened file as the body.
    Serve(FileReply),
    /// Answer with this refusal.
    Reject(Reply),
}

/// A download waiting for the canonical form of the storage directory.
pub struct AwaitBase {
    request: Vec<u8>,
}

/// A download waiting for the canonical form of the requested file.
pub struct AwaitFile {
    base: Vec<u8>,
}

/// A download waiting for what the filesystem reports about the file; the
/// file lies below the storage directory.
pub struct AwaitStat {
    base: Vec<u8>,
    file: Vec<u8>,
}

/// A download waiting for the file to be opened; the file lies below the
/// storage directory.
pub struct AwaitOpen {
    base: Vec<u8>,
    file: Vec<u8>,
    len: u64,
}

/// What a waiting download holds.
pub enum DownloadStage {
    Base { request: Seq<u8> },
    File { base: Seq<u8> },
    Stat { base: Seq<u8>, file: Seq<u8> },
    Open { base: Seq<u8>, file: Seq<u8>, len: u64 },
}

/// A step of a download: the operation asked for with the stage that waits
/// for its answer, or the final answer (for a file sent, its length and
/// `Content-Disposition` value).
pub enum DownloadStep {
    Canonicalize(Seq<u8>, DownloadStage),
    CanonicalizeFile(Seq<u8>, DownloadStage),
    ReadMetadata(Seq<u8>, DownloadStage),
    Open(Seq<u8>, DownloadStage),
    Serve(u64, Seq<char>),
    Reject(Status, Seq<char>),
}

impl View for DownloadAction {
    type V = DownloadStep;

    open spec fn view(&self) -> DownloadStep {
        match self {
            DownloadAction::Canonicalize(p, k) => DownloadStep::Canonicalize(
                p@,
                DownloadStage::Base { request: k.request() },
            ),
            DownloadAction::CanonicalizeFile(p, k) => DownloadStep::CanonicalizeFile(
                p@,
                DownloadStage::File { base: k.base() },
            ),
            DownloadAction::ReadMetadata(p, k) => DownloadStep::ReadMetadata(
                p@,
                DownloadStage::Stat { base: k.base(), file: k.file() },
            ),
            DownloadAction::Open(p, k) => DownloadStep::Open(
                p@,
                DownloadStage::Open { base: k.base(), file: k.file(), len: k.len() },
            ),
            DownloadAction::Serve(f) => DownloadStep::Serve(f.len, f.content_disposition@),
            DownloadAction::Reject(r) => DownloadStep::Reject(r.status, r.message@),
        }
    }
}

/// The answer to filesystem failure `e`, where `not_found` names what was
/// missing.
pub open spec fn download_reject_io(e: IoFailure, not_found: Seq<char>) -> DownloadStep {
    DownloadStep::Reject(io_error_status(e.kind), io_error_message(e, not_found))
}

/// The first step: a blank path, or one with a NUL or other control
/// character, is refused with 400 "Invalid file-path header"; otherwise the
/// storage directory is resolved.
pub open spec fn download_start(base_dir: Seq<u8>, path: Seq<char>) -> DownloadStep {
    if path_text_invalid(path) {
        DownloadStep::Reject(Status::BadRequest, "Invalid file-path header"@)
    } else {
        DownloadStep::Canonicalize(base_dir, DownloadStage::Base { request: encode_utf8(path) })
    }
}

/// Once the storage directory is resolved: a failure is answered as
/// filesystem failures are, with "Base directory not found"; then the
/// requested path is refused with 400 when it is absolute or has a `..`
/// component, and otherwise joined to the resolved directory and resolved.
pub open spec fn download_base_step(request: Seq<u8>, base: Result<Seq<u8>, IoFailure>) -> DownloadStep {
    match base {
        Err(e) => download_reject_io(e, "Base directory not found"@),
        Ok(b) => match request_path_refusal(request) {
            Some(m) => DownloadStep::Reject(Status::BadRequest, m),
            None => DownloadStep::CanonicalizeFile(
                push_spec(b, request),
                DownloadStage::File { base: b },
            ),
        },
    }
}

/// Once the requested file is resolved: a failure is answered as filesystem
/// failures are, with "File not found"; a file that does not lie below the
/// storage directory, by whole components, is refused with 403 "Access
/// denied"; otherwise its metadata is read.
pub open spec fn download_file_step(base: Seq<u8>, file: Result<Seq<u8>, IoFailure>) -> DownloadStep {
    match file {
        Err(e) => download_reject_io(e, "File not found"@),
        Ok(f) => if starts_with_spec(f, base) {
            DownloadStep::ReadMetadata(f, DownloadStage::Stat { base, file: f })
        } else {
            DownloadStep::Reject(Status::Forbidden, "Access denied"@)
        },
    }
}

/// Once the metadata is read: a failure is answered as filesystem failures
/// are, with "File not found"; anything but a regular file is answered with
/// 404 "Not a file"; a regular file is opened.
pub open spec fn download_stat_step(
    base: Seq<u8>,
    file: Seq<u8>,
    stat: Result<FileStat, IoFailure>,
) -> DownloadStep {
    match stat {
        Err(e) => download_reject_io(e, "File not found"@),
        Ok(s) => if s.is_file {
            DownloadStep::Open(file, DownloadStage::Open { base, file, len: s.len })
        } else {
            DownloadStep::Reject(Status::NotFound, "Not a file"@)
        },
    }
}

/// Once the file is opened: a failure is answered as filesystem failures
/// are, with "File not found"; otherwise the file is sent with its length,
/// offered under its final name, or "file" when it has none.
pub open spec fn download_open_step(file: Seq<u8>, len: u64, opened: Result<(), IoFailure>) -> DownloadStep {
    match opened {
        Err(e) => download_reject_io(e, "File not found"@),
        Ok(_) => DownloadStep::Serve(len, disposition_spec(offered_name(file, "file"@))),
    }
}

/// A resolved path, as contracts see it.
pub open spec fn resolved_answer(r: Result<Vec<u8>, IoFailure>) -> Result<Seq<u8>, IoFailure> {
    match r {
        Ok(p) => Ok(p@),
        Err(e) => Err(e),
    }
}

/// The answers a filesystem gives to the operations of a download, each as
/// a function of the path asked about.
pub struct DownloadFs {
    pub canonicalize: spec_fn(Seq<u8>) -> Result<Seq<u8>, IoFailure>,
    pub stat: spec_fn(Seq<u8>) -> Result<FileStat, IoFailure>,
    pub open: spec_fn(Seq<u8>) -> Result<(), IoFailure>,
}

/// A whole download: the file it opened, if any, and the final answer.
pub struct DownloadRun {
    pub opened: Option<Seq<u8>>,
    pub end: DownloadStep,
}

/// Performs the steps from `s` on, answering each from `fs`, for at most
/// `fuel` steps.
pub open spec fn download_drive(fs: DownloadFs, s: DownloadStep, fuel: nat) -> DownloadRun
    decreases fuel,
{
    if fuel == 0 {
        DownloadRun { opened: None, end: s }
    } else {
        let f = (fuel - 1) as nat;
        match s {
            DownloadStep::Canonicalize(p, DownloadStage::Base { request }) => download_drive(
                fs,
                download_base_step(request, (fs.canonicalize)(p)),
                f,
            ),
            DownloadStep::CanonicalizeFile(p, DownloadStage::File { base }) => download_drive(
                fs,
                download_file_step(base, (fs.canonicalize)(p)),
                f,
            ),
            DownloadStep::ReadMetadata(p, DownloadStage::Stat { base, file }) => download_drive(
                fs,
                download_stat_step(base, file, (fs.stat)(p)),
                f,
            ),
            DownloadStep::Open(p, DownloadStage::Open { base, file, len }) => {
                let rest = download_drive(fs, download_open_step(file, len, (fs.open)(p)), f);
                DownloadRun { opened: Some(p), end: rest.end }
            },
            _ => DownloadRun { opened: None, end: s },
        }
    }
}

/// The whole download of `path` from the storage directory `base_dir` on
/// the filesystem `fs` (it takes at most five steps).
pub open spec fn download_run(fs: DownloadFs, base_dir: Seq<u8>, path: Seq<char>) -> DownloadRun {
    download_drive(fs, download_start(base_dir, path), 5)
}

impl AwaitBase {
    /// The requested path, as bytes.
    pub closed spec fn request(self) -> Seq<u8> {
        self.request@
    }

    /// Continues once the storage directory has been resolved: a failure is
    /// answered as filesystem failures are, with "Base directory not found"
    /// for a missing directory; then the requested path is refused when it
    /// is absolute or has a `..` component, and otherwise joined to the
    /// resolved directory and resolved in turn.
    pub fn resume(self, base: Result<Vec<u8>, IoFailure>) -> (r: DownloadAction)
        ensures
            r@ == download_base_step(self.request(), resolved_answer(base)),
            match base {
                Err(e) => r matches DownloadAction::Reject(x) && is_io_reply(
                    x,
                    e,
                    "Base directory not found"@,
                ),
                Ok(b) => match request_path_refusal(self.request()) {
                    Some(m) => r matches DownloadAction::Reject(x) && reply_is(
                        x,
                        Status::BadRequest,
                        m,
                    ),
                    None => r matches DownloadAction::CanonicalizeFile(p, k) && p@ == push_spec(
                        b@,
                        self.request(),
                    ) && k.base() == b@,
                },
            },
    {
        match base {
            Err(e) => DownloadAction::Reject(io_error_to_response(&e, "Base directory not found")),
            Ok(b) => match resolve_request(b.as_slice(), self.request.as_slice()) {
                Err(x) => DownloadAction::Reject(x),
                Ok(joined) => DownloadAction::CanonicalizeFile(joined, AwaitFile { base: b }),
            },
        }
    }
}

impl AwaitFile {
    /// The canonical storage directory.
    pub closed spec fn base(self) -> Seq<u8> {
        self.base@
    }

    /// Continues once the requested file has been resolved: a failure is
    /// answered as filesystem failures are, with "File not found" for a
    /// missing file; a file that does not lie below the storage directory,
    /// by whole components, is refused with 403 "Access denied"; otherwise
    /// its metadata is read.
    pub fn resume(self, file: Result<Vec<u8>, IoFailure>) -> (r: DownloadAction)
        ensures
            r@ == download_file_step(self.base(), resolved_answer(file)),
            match file {
                Err(e) => r matches DownloadAction::Reject(x) && is_io_reply(
                    x,
                    e,
                    "File not found"@,
                ),
                Ok(f) => if starts_with_spec(f@, self.base()) {
                    r matches DownloadAction::ReadMetadata(p, k) && p@ == f@ && k.file() == f@
                        && k.base() == self.base()
                } else {
                    r matches DownloadAction::Reject(x) && reply_is(
                        x,
                        Status::Forbidden,
                        "Access denied"@,
                    )
                },
            },
    {
        match file {
            Err(e) => DownloadAction::Reject(io_error_to_response(&e, "File not found")),
            Ok(f) => {
                if !starts_with(f.as_slice(), self.base.as_slice()) {
                    return DownloadAction::Reject(reply(Status::Forbidden, "Access denied"));
                }
                let path = f.clone();
                assert(path@ == f@);
                DownloadAction::ReadMetadata(path, AwaitStat { base: self.base, file: f })
            },
        }
    }
}

impl AwaitStat {
    #[verifier::type_invariant]
    spec fn confined(self) -> bool {
        starts_with_spec(self.file@, self.base@)
    }

    /// The canonical storage directory.
    pub closed spec fn base(self) -> Seq<u8> {
        self.base@
    }

    /// The canonical path of the requested file.
    pub closed spec fn file(self) -> Seq<u8> {
        self.file@
    }

    /// Continues once the file's metadata has been read: a failure is
    /// answered as filesystem failures are, with "File not found" for a
    /// missing file; anything but a regular file is answered with 404
    /// "Not a file"; a regular file is opened, and it lies below the
    /// storage directory.
    pub fn resume(self, stat: Result<FileStat, IoFailure>) -> (r: DownloadAction)
        ensures
            r@ == download_stat_step(self.base(), self.file(), stat),
            match stat {
                Err(e) => r matches DownloadAction::Reject(x) && is_io_reply(
                    x,
                    e,
                    "File not found"@,
                ),
                Ok(s) => if s.is_file {
                    r matches DownloadAction::Open(p, k) && p@ == self.file() && k.file()
                        == self.file() && k.base() == self.base() && k.len() == s.len
                        && starts_with_spec(p@, self.base())
                } else {
                    r matches DownloadAction::Reject(x) && reply_is(
                        x,
                        Status::NotFound,
                        "Not a file"@,
                    )
                },
            },
    {
        proof {
            use_type_invariant(&self);
        }
        match stat {
            Err(e) => DownloadAction::Reject(io_error_to_response(&e, "File not found")),
            Ok(s) => {
                if !s.is_file {
                    return DownloadAction::Reject(reply(Status::NotFound, "Not a file"));
                }
                let path = self.file.clone();
                assert(path@ == self.file@);
                DownloadAction::Open(path, AwaitOpen { base: self.base, file: self.file, len: s.len })
            },
        }
    }
}

impl AwaitOpen {
    #[verifier::type_invariant]
    spec fn confined(self) -> bool {
        starts_with_spec(self.file@, self.base@)
    }

    /// The canonical storage directory.
    pub closed spec fn base(self) -> Seq<u8> {
        self.base@
    }

    /// The canonical path of the file being sent.
    pub closed spec fn file(self) -> Seq<u8> {
        self.file@
    }

    /// The length of the file being sent.
    pub closed spec fn len(self) -> u64 {
        self.len
    }

    /// Continues once the file has been opened: a failure is answered as
    /// filesystem failures are, with "File not found" for a missing file;
    /// otherwise the file is sent with its length and offered under its
    /// final name, or "file" when it has none.
    pub fn resume(self, opened: Result<(), IoFailure>) -> (r: DownloadAction)
        ensures
            r@ == download_open_step(self.file(), self.len(), opened),
            match opened {
                Err(e) => r matches DownloadAction::Reject(x) && is_io_reply(
                    x,
                    e,
                    "File not found"@,
                ),
                Ok(_) => r matches DownloadAction::Serve(f) && f.len == self.len()
                    && f.content_disposition@ == disposition_spec(
                    offered_name(self.file(), "file"@),
                ),
            },
    {
        match opened {
            Err(e) => DownloadAction::Reject(io_error_to_response(&e, "File not found")),
            Ok(_) => DownloadAction::Serve(file_reply(self.file.as_slice(), self.len, "file")),
        }
    }
}

/// Starts a download of the file named by `file_path`: a blank path, or one
/// with a NUL or other control character, is refused with 400 "Invalid
/// file-path header"; otherwise the storage directory is resolved first.
pub fn download_file_handler(state: &AppState, file_path: &FilePath) -> (r: DownloadAction)
    ensures
        r@ == download_start(state.base_dir@, file_path.path@),
        if path_text_invalid(file_path.path@) {
            r matches DownloadAction::Reject(x) && reply_is(
                x,
                Status::BadRequest,
                "Invalid file-path header"@,
            )
        } else {
            r matches DownloadAction::Canonicalize(p, k) && p@ == state.base_dir@ && k.request()
                == encode_utf8(file_path.path@)
        },
{
    match check_path_text(file_path.path.as_str()) {
        Err(x) => DownloadAction::Reject(x),
        Ok(()) => {
            let request = bytes_of(file_path.path.as_str());
            let base = state.base_dir.clone();
            assert(base@ == state.base_dir@);
            DownloadAction::Canonicalize(base, AwaitBase { request })
        },
    }
}

} // verus!
