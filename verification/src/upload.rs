//! Uploads: the decisions between the filesystem operations that store the
//! body of a request as a file.
//!
//! Each step returns the next operation to perform together with what to
//! resume once it has been performed.

use vstd::prelude::*;
use vstd::utf8::encode_utf8;
use crate::path::{file_name, file_name_spec, push_path, push_spec};
use crate::reply::{reply, reply_is, reply_with, IoFailure, Reply, Status};
use crate::request::{bytes_of, opt_text, AppState, FileMetadata};

verus! {

/// Where an upload is stored: the final name of the file name the client
/// gave, directly in the storage directory; nothing when that name has no
/// final name. The client's source directory plays no part in it.
pub open spec fn upload_destination(base: Seq<u8>, filename: Seq<char>) -> Option<Seq<u8>> {
    match file_name_spec(encode_utf8(filename)) {
        Some(n) => Some(push_spec(base, n)),
        None => None,
    }
}

/// What a waiting upload holds.
pub enum UploadStage {
    Dir { base: Seq<u8>, filename: Seq<char>, filetime: Option<i64> },
    Create { destination: Seq<u8>, filetime: Option<i64> },
    Write { destination: Seq<u8>, filetime: Option<i64> },
    Modified,
}

/// A step of an upload: the operation asked for with the stage that waits
/// for its answer, or the final answer.
pub enum UploadStep {
    CreateDir(Seq<u8>, UploadStage),
    CreateFile(Seq<u8>, UploadStage),
    WriteBody(UploadStage),
    SetModified(Seq<u8>, u64, UploadStage),
    Created,
    Reject(Status, Seq<char>),
}

impl View for UploadAction {
    type V = UploadStep;

    open spec fn view(&self) -> UploadStep {
        match self {
            UploadAction::CreateDir(p, k) => UploadStep::CreateDir(
                p@,
                UploadStage::Dir { base: k.base(), filename: k.filename(), filetime: k.filetime() },
            ),
            UploadAction::CreateFile(p, k) => UploadStep::CreateFile(
                p@,
                UploadStage::Create { destination: k.destination(), filetime: k.filetime() },
            ),
            UploadAction::WriteBody(k) => UploadStep::WriteBody(
                UploadStage::Write { destination: k.destination(), filetime: k.filetime() },
            ),
            UploadAction::SetModified(p, secs, _) => UploadStep::SetModified(
                p@,
                *secs,
                UploadStage::Modified,
            ),
            UploadAction::Created => UploadStep::Created,
            UploadAction::Reject(r) => UploadStep::Reject(r.status, r.message@),
        }
    }
}

/// The first step: the storage directory is created.
pub open spec fn upload_start(base_dir: Seq<u8>, filename: Seq<char>, filetime: Option<i64>) -> UploadStep {
    UploadStep::CreateDir(base_dir, UploadStage::Dir { base: base_dir, filename, filetime })
}

/// Once the storage directory is created: a failure is answered with 500; a
/// file name without a final name is refused with 400 "Invalid file name";
/// otherwise the file is created at its destination.
pub open spec fn upload_dir_step(
    base: Seq<u8>,
    filename: Seq<char>,
    filetime: Option<i64>,
    created: Result<(), IoFailure>,
) -> UploadStep {
    match created {
        Err(e) => UploadStep::Reject(
            Status::InternalServerError,
            "Failed to create storage directory: "@ + e.description@,
        ),
        Ok(_) => match upload_destination(base, filename) {
            None => UploadStep::Reject(Status::BadRequest, "Invalid file name"@),
            Some(d) => UploadStep::CreateFile(d, UploadStage::Create { destination: d, filetime }),
        },
    }
}

/// Once the file is created: a failure is answered with 500; otherwise the
/// body is written into it.
pub open spec fn upload_create_step(
    destination: Seq<u8>,
    filetime: Option<i64>,
    created: Result<(), IoFailure>,
) -> UploadStep {
    match created {
        Err(e) => UploadStep::Reject(
            Status::InternalServerError,
            "Failed to create file: "@ + e.description@,
        ),
        Ok(_) => UploadStep::WriteBody(UploadStage::Write { destination, filetime }),
    }
}

/// Once the body is written: a failure is answered with 500; otherwise the
/// modification time is set when the client gave one, its seconds taken as
/// an unsigned number, and the upload is done when it gave none.
pub open spec fn upload_write_step(
    destination: Seq<u8>,
    filetime: Option<i64>,
    written: Result<(), IoFailure>,
) -> UploadStep {
    match written {
        Err(e) => UploadStep::Reject(
            Status::InternalServerError,
            "Failed writing stream to disk: "@ + e.description@,
        ),
        Ok(_) => match filetime {
            Some(t) => UploadStep::SetModified(destination, t as u64, UploadStage::Modified),
            None => UploadStep::Created,
        },
    }
}

/// Once the modification time is set: a failure is answered with 500;
/// otherwise the upload is done.
pub open spec fn upload_modified_step(set: Result<(), IoFailure>) -> UploadStep {
    match set {
        Err(e) => UploadStep::Reject(
            Status::InternalServerError,
            "Failed to set mtime: "@ + e.description@,
        ),
        Ok(_) => UploadStep::Created,
    }
}

/// The answers a filesystem gives to the operations of an upload: creating
/// a directory, creating a file, writing the body into the created file,
/// and setting a file's modification time.
pub struct UploadFs {
    pub create_dir: spec_fn(Seq<u8>) -> Result<(), IoFailure>,
    pub create_file: spec_fn(Seq<u8>) -> Result<(), IoFailure>,
    pub write: spec_fn(Seq<u8>) -> Result<(), IoFailure>,
    pub set_modified: spec_fn(Seq<u8>, u64) -> Result<(), IoFailure>,
}

/// A whole upload: the file it created, the file it wrote the body into,
/// the modification time it set and on which file, and the final answer.
pub struct UploadRun {
    pub created: Option<Seq<u8>>,
    pub written: Option<Seq<u8>>,
    pub modified: Option<(Seq<u8>, u64)>,
    pub end: UploadStep,
}

/// Performs the steps from `s` on, answering each from `fs`, for at most
/// `fuel` steps.
pub open spec fn upload_drive(fs: UploadFs, s: UploadStep, fuel: nat) -> UploadRun
    decreases fuel,
{
    if fuel == 0 {
        UploadRun { created: None, written: None, modified: None, end: s }
    } else {
        let f = (fuel - 1) as nat;
        match s {
            UploadStep::CreateDir(p, UploadStage::Dir { base, filename, filetime }) => upload_drive(
                fs,
                upload_dir_step(base, filename, filetime, (fs.create_dir)(p)),
                f,
            ),
            UploadStep::CreateFile(p, UploadStage::Create { destination, filetime }) => {
                let rest = upload_drive(
                    fs,
                    upload_create_step(destination, filetime, (fs.create_file)(p)),
                    f,
                );
                UploadRun { created: Some(p), ..rest }
            },
            UploadStep::WriteBody(UploadStage::Write { destination, filetime }) => {
                let rest = upload_drive(
                    fs,
                    upload_write_step(destination, filetime, (fs.write)(destination)),
                    f,
                );
                UploadRun { written: Some(destination), ..rest }
            },
            UploadStep::SetModified(p, secs, _) => {
                let rest = upload_drive(fs, upload_modified_step((fs.set_modified)(p, secs)), f);
                UploadRun { modified: Some((p, secs)), ..rest }
            },
            _ => UploadRun { created: None, written: None, modified: None, end: s },
        }
    }
}

/// The whole upload of a body under `filename` into the storage directory
/// `base_dir` on the filesystem `fs` (it takes at most five steps).
pub open spec fn upload_run(
    fs: UploadFs,
    base_dir: Seq<u8>,
    filename: Seq<char>,
    filetime: Option<i64>,
) -> UploadRun {
    upload_drive(fs, upload_start(base_dir, filename, filetime), 5)
}

/// The next step of an upload.
pub enum UploadAction {
    /// Create the directory and any missing parents, then resume.
    CreateDir(Vec<u8>, AwaitDir),
    /// Create (or truncate) the file at the path, then resume.
    CreateFile(Vec<u8>, AwaitCreate),
    /// Copy the request body into the created file, then resume.
    WriteBody(AwaitWrite),
    /// Set the modification time of the file at the path to the given
    /// number of seconds after the Unix epoch, then resume.
    SetModified(Vec<u8>, u64, AwaitModified),
    /// Answer 201: the file is stored.
    Created,
    /// Answer with this refusal.
    Reject(Reply),
}

/// An upload waiting for the storage directory to be created.
pub struct AwaitDir {
    base: Vec<u8>,
    metadata: FileMetadata,
}

/// An upload waiting for its file to be created.
pub struct AwaitCreate {
    destination: Vec<u8>,
    filetime: Option<i64>,
}

/// An upload waiting for the body to be written to its file.
pub struct AwaitWrite {
    destination: Vec<u8>,
    filetime: Option<i64>,
}

/// An upload waiting for the modification time of its file to be set.
pub struct AwaitModified {}

impl AwaitDir {
    /// The storage directory.
    pub closed spec fn base(self) -> Seq<u8> {
        self.base@
    }

    /// The file name the client gave.
    pub closed spec fn filename(self) -> Seq<char> {
        self.metadata.filename@
    }

    /// The directory the file came from on the client's side.
    pub closed spec fn sub_dir(self) -> Option<Seq<char>> {
        opt_text(self.metadata.sub_dir)
    }

    /// The modification time the client asked for.
    pub closed spec fn filetime(self) -> Option<i64> {
        self.metadata.filetime
    }

    /// Continues once the storage directory has been created: a failure is
    /// answered with 500; a file name without a final name is refused with
    /// 400 "Invalid file name"; otherwise the file is created under that
    /// final name directly in the storage directory.
    pub fn resume(self, created: Result<(), IoFailure>) -> (r: UploadAction)
        ensures
            r@ == upload_dir_step(self.base(), self.filename(), self.filetime(), created),
            match created {
                Err(e) => r matches UploadAction::Reject(x) && reply_is(
                    x,
                    Status::InternalServerError,
                    "Failed to create storage directory: "@ + e.description@,
                ),
                Ok(_) => match upload_destination(self.base(), self.filename()) {
                    None => r matches UploadAction::Reject(x) && reply_is(
                        x,
                        Status::BadRequest,
                        "Invalid file name"@,
                    ),
                    Some(d) => r matches UploadAction::CreateFile(p, k) && p@ == d
                        && k.destination() == d && k.filetime() == self.filetime(),
                },
            },
    {
        match created {
            Err(e) => UploadAction::Reject(
                reply_with(
                    Status::InternalServerError,
                    "Failed to create storage directory: ",
                    e.description.as_str(),
                ),
            ),
            Ok(_) => {
                let requested = bytes_of(self.metadata.filename.as_str());
                let name = match file_name(requested.as_slice()) {
                    Some(n) => n,
                    None => {
                        return UploadAction::Reject(reply(Status::BadRequest, "Invalid file name"));
                    },
                };
                let destination = push_path(self.base.as_slice(), name.as_slice());
                let path = destination.clone();
                assert(path@ == destination@);
                UploadAction::CreateFile(
                    path,
                    AwaitCreate { destination, filetime: self.metadata.filetime },
                )
            },
        }
    }
}

impl AwaitCreate {
    /// Where the file is stored.
    pub closed spec fn destination(self) -> Seq<u8> {
        self.destination@
    }

    /// The modification time the client asked for.
    pub closed spec fn filetime(self) -> Option<i64> {
        self.filetime
    }

    /// Continues once the file has been created: a failure is answered with
    /// 500; otherwise the body is written into it.
    pub fn resume(self, created: Result<(), IoFailure>) -> (r: UploadAction)
        ensures
            r@ == upload_create_step(self.destination(), self.filetime(), created),
            match created {
                Err(e) => r matches UploadAction::Reject(x) && reply_is(
                    x,
                    Status::InternalServerError,
                    "Failed to create file: "@ + e.description@,
                ),
                Ok(_) => r matches UploadAction::WriteBody(k) && k.destination()
                    == self.destination() && k.filetime() == self.filetime(),
            },
    {
        match created {
            Err(e) => UploadAction::Reject(
                reply_with(
                    Status::InternalServerError,
                    "Failed to create file: ",
                    e.description.as_str(),
                ),
            ),
            Ok(_) => UploadAction::WriteBody(
                AwaitWrite { destination: self.destination, filetime: self.filetime },
            ),
        }
    }
}

impl AwaitWrite {
    /// Where the file is stored.
    pub closed spec fn destination(self) -> Seq<u8> {
        self.destination@
    }

    /// The modification time the client asked for.
    pub closed spec fn filetime(self) -> Option<i64> {
        self.filetime
    }

    /// Continues once the body has been written: a failure is answered with
    /// 500; otherwise the modification time is set when the client gave
    /// one, its seconds taken as an unsigned number, and the upload is
    /// done when it gave none.
    pub fn resume(self, written: Result<(), IoFailure>) -> (r: UploadAction)
        ensures
            r@ == upload_write_step(self.destination(), self.filetime(), written),
            match written {
                Err(e) => r matches UploadAction::Reject(x) && reply_is(
                    x,
                    Status::InternalServerError,
                    "Failed writing stream to disk: "@ + e.description@,
                ),
                Ok(_) => match self.filetime() {
                    Some(t) => r matches UploadAction::SetModified(p, secs, _) && p@
                        == self.destination() && secs == t as u64,
                    None => r matches UploadAction::Created,
                },
            },
    {
        match written {
            Err(e) => UploadAction::Reject(
                reply_with(
                    Status::InternalServerError,
                    "Failed writing stream to disk: ",
                    e.description.as_str(),
                ),
            ),
            Ok(_) => match self.filetime {
                Some(t) => UploadAction::SetModified(self.destination, t as u64, AwaitModified {  }),
                None => UploadAction::Created,
            },
        }
    }
}

impl AwaitModified {
    /// Continues once the modification time has been set: a failure is
    /// answered with 500; otherwise the upload is done.
    pub fn resume(self, set: Result<(), IoFailure>) -> (r: UploadAction)
        ensures
            r@ == upload_modified_step(set),
            match set {
                Err(e) => r matches UploadAction::Reject(x) && reply_is(
                    x,
                    Status::InternalServerError,
                    "Failed to set mtime: "@ + e.description@,
                ),
                Ok(_) => r matches UploadAction::Created,
            },
    {
        match set {
            Err(e) => UploadAction::Reject(
                reply_with(
                    Status::InternalServerError,
                    "Failed to set mtime: ",
                    e.description.as_str(),
                ),
            ),
            Ok(_) => UploadAction::Created,
        }
    }
}

/// Starts an upload described by `metadata`: the storage directory is
/// created first.
pub fn upload_file_handler(state: &AppState, metadata: FileMetadata) -> (r: UploadAction)
    ensures
        r@ == upload_start(state.base_dir@, metadata.filename@, metadata.filetime),
        r matches UploadAction::CreateDir(p, k) && p@ == state.base_dir@ && k.base()
            == state.base_dir@ && k.filename() == metadata.filename@ && k.sub_dir() == opt_text(
            metadata.sub_dir,
        ) && k.filetime() == metadata.filetime,
{
    let base = state.base_dir.clone();
    assert(base@ == state.base_dir@);
    UploadAction::CreateDir(base, AwaitDir { base: state.base_dir.clone(), metadata })
}

} // verus!
