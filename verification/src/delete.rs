//! Deletions: the decisions between the filesystem operations that remove
//! a stored file or an empty directory.
//!
//! Each step returns the next operation to perform together with what to
//! resume once it has been performed. Contracts see a step through
//! [`DeleteStep`], and [`delete_run`] composes the steps over the answers a
//! filesystem gives.

use vstd::prelude::*;
use vstd::utf8::encode_utf8;
use crate::path::{push_spec, starts_with, starts_with_spec};
use crate::reply::{
    io_error_message, io_error_status, io_error_to_response, reply, FileStat, IoErrorKind,
    IoFailure, Reply, Status,
};
use crate::request::{bytes_of, check_path_text, path_text_invalid, AppState, FilePath};
use crate::resolve::{request_path_refusal, resolve_request};

verus! {

/// The next step of a deletion.
pub enum DeleteAction {
    /// Resolve the path to its canonical absolute form, then resume.
    Canonicalize(Vec<u8>, AwaitBase),
    /// Resolve the path to its canonical absolute form, then resume.
    CanonicalizeFile(Vec<u8>, AwaitFile),
    /// Read what the filesystem reports about the path, then resume.
    ReadMetadata(Vec<u8>, AwaitStat),
    /// Remove the file at the path, then resume.
    RemoveFile(Vec<u8>, AwaitRemoveFile),
    /// Open the directory at the path for listing, then resume.
    ReadDir(Vec<u8>, AwaitListing),
    /// Read the first entry of the opened directory, then resume with
    /// whether there is one.
    NextEntry(AwaitEntry),
    /// Remove the empty directory at the path, then resume.
    RemoveDir(Vec<u8>, AwaitRemoveDir),
    /// Answer 200: the entry is gone.
    Deleted,
    /// Answer with this refusal.
    Reject(Reply),
}

/// A deletion waiting for the canonical form of the storage directory.
pub struct AwaitBase {
    request: Vec<u8>,
}

/// A deletion waiting for the canonical form of the requested entry.
pub struct AwaitFile {
    base: Vec<u8>,
}

/// A deletion waiting for what the filesystem reports about the entry; the
/// entry lies below the storage directory.
pub struct AwaitStat {
    base: Vec<u8>,
    file: Vec<u8>,
}

/// A deletion waiting for a file to be removed.
pub struct AwaitRemoveFile {}

/// A deletion waiting for a directory below the storage directory to be
/// opened for listing.
pub struct AwaitListing {
    base: Vec<u8>,
    dir: Vec<u8>,
}

/// A deletion waiting for the first entry of a directory below the storage
/// directory.
pub struct AwaitEntry {
    base: Vec<u8>,
    dir: Vec<u8>,
}

/// A deletion waiting for an empty directory to be removed.
pub struct AwaitRemoveDir {}

/// What a waiting deletion holds.
pub enum DeleteStage {
    Base { request: Seq<u8> },
    File { base: Seq<u8> },
    Stat { base: Seq<u8>, file: Seq<u8> },
    RemoveFile,
    Listing { base: Seq<u8>, dir: Seq<u8> },
    Entry { base: Seq<u8>, dir: Seq<u8> },
    RemoveDir,
}

/// A step of a deletion: the operation asked for with the stage that waits
/// for its answer, or the final answer.
pub enum DeleteStep {
    Canonicalize(Seq<u8>, DeleteStage),
    CanonicalizeFile(Seq<u8>, DeleteStage),
    ReadMetadata(Seq<u8>, DeleteStage),
    RemoveFile(Seq<u8>, DeleteStage),
    ReadDir(Seq<u8>, DeleteStage),
    NextEntry(DeleteStage),
    RemoveDir(Seq<u8>, DeleteStage),
    Deleted,
    Reject(Status, Seq<char>),
}

impl AwaitBase {
    /// What this waiting deletion holds.
    pub closed spec fn stage(self) -> DeleteStage {
        DeleteStage::Base { request: self.request@ }
    }
}

impl AwaitFile {
    /// What this waiting deletion holds.
    pub closed spec fn stage(self) -> DeleteStage {
        DeleteStage::File { base: self.base@ }
    }
}

impl AwaitStat {
    /// What this waiting deletion holds.
    pub closed spec fn stage(self) -> DeleteStage {
        DeleteStage::Stat { base: self.base@, file: self.file@ }
    }
}

impl AwaitRemoveFile {
    /// What this waiting deletion holds.
    pub closed spec fn stage(self) -> DeleteStage {
        DeleteStage::RemoveFile
    }
}

impl AwaitListing {
    /// What this waiting deletion holds.
    pub closed spec fn stage(self) -> DeleteStage {
        DeleteStage::Listing { base: self.base@, dir: self.dir@ }
    }
}

impl AwaitEntry {
    /// What this waiting deletion holds.
    pub closed spec fn stage(self) -> DeleteStage {
        DeleteStage::Entry { base: self.base@, dir: self.dir@ }
    }
}

impl AwaitRemoveDir {
    /// What this waiting deletion holds.
    pub closed spec fn stage(self) -> DeleteStage {
        DeleteStage::RemoveDir
    }
}

impl View for DeleteAction {
    type V = DeleteStep;

    open spec fn view(&self) -> DeleteStep {
        match self {
            DeleteAction::Canonicalize(p, k) => DeleteStep::Canonicalize(p@, k.stage()),
            DeleteAction::CanonicalizeFile(p, k) => DeleteStep::CanonicalizeFile(p@, k.stage()),
            DeleteAction::ReadMetadata(p, k) => DeleteStep::ReadMetadata(p@, k.stage()),
            DeleteAction::RemoveFile(p, k) => DeleteStep::RemoveFile(p@, k.stage()),
            DeleteAction::ReadDir(p, k) => DeleteStep::ReadDir(p@, k.stage()),
            DeleteAction::NextEntry(k) => DeleteStep::NextEntry(k.stage()),
            DeleteAction::RemoveDir(p, k) => DeleteStep::RemoveDir(p@, k.stage()),
            DeleteAction::Deleted => DeleteStep::Deleted,
            DeleteAction::Reject(r) => DeleteStep::Reject(r.status, r.message@),
        }
    }
}

/// A resolved path, as contracts see it.
pub open spec fn path_answer(r: Result<Vec<u8>, IoFailure>) -> Result<Seq<u8>, IoFailure> {
    match r {
        Ok(p) => Ok(p@),
        Err(e) => Err(e),
    }
}

/// The answer to filesystem failure `e`, where `not_found` names what was
/// missing.
pub open spec fn reject_io(e: IoFailure, not_found: Seq<char>) -> DeleteStep {
    DeleteStep::Reject(io_error_status(e.kind), io_error_message(e, not_found))
}

/// The first step: a blank path, or one with a NUL or other control
/// character, is refused with 400 "Invalid file-path header"; otherwise the
/// storage directory is resolved.
pub open spec fn delete_start(base_dir: Seq<u8>, path: Seq<char>) -> DeleteStep {
    if path_text_invalid(path) {
        DeleteStep::Reject(Status::BadRequest, "Invalid file-path header"@)
    } else {
        DeleteStep::Canonicalize(base_dir, DeleteStage::Base { request: encode_utf8(path) })
    }
}

/// Once the storage directory is resolved: a failure is answered as
/// filesystem failures are, with "Base directory not found" for a missing
/// directory; then the requested path is refused with 400 when it is
/// absolute or has a `..` component, and otherwise joined to the resolved
/// directory and resolved in turn.
pub open spec fn delete_base_step(request: Seq<u8>, base: Result<Seq<u8>, IoFailure>) -> DeleteStep {
    match base {
        Err(e) => reject_io(e, "Base directory not found"@),
        Ok(b) => match request_path_refusal(request) {
            Some(m) => DeleteStep::Reject(Status::BadRequest, m),
            None => DeleteStep::CanonicalizeFile(push_spec(b, request), DeleteStage::File { base: b }),
        },
    }
}

/// Once the requested entry is resolved: a missing entry means there is
/// nothing to delete, which succeeds; another failure is answered as
/// filesystem failures are, with "File not found"; an entry that does not
/// lie below the storage directory, by whole components, is refused with
/// 403 "Access denied"; otherwise its metadata is read.
pub open spec fn delete_file_step(base: Seq<u8>, file: Result<Seq<u8>, IoFailure>) -> DeleteStep {
    match file {
        Err(e) => if e.kind == IoErrorKind::NotFound {
            DeleteStep::Deleted
        } else {
            reject_io(e, "File not found"@)
        },
        Ok(f) => if starts_with_spec(f, base) {
            DeleteStep::ReadMetadata(f, DeleteStage::Stat { base, file: f })
        } else {
            DeleteStep::Reject(Status::Forbidden, "Access denied"@)
        },
    }
}

/// Once the entry's metadata is read: a failure is answered as filesystem
/// failures are, with "File not found"; a regular file is removed; a
/// directory is listed to see whether it is empty; anything else is
/// answered with 404 "Not a file or directory".
pub open spec fn delete_stat_step(base: Seq<u8>, file: Seq<u8>, stat: Result<FileStat, IoFailure>) -> DeleteStep {
    match stat {
        Err(e) => reject_io(e, "File not found"@),
        Ok(s) => if s.is_file {
            DeleteStep::RemoveFile(file, DeleteStage::RemoveFile)
        } else if s.is_dir {
            DeleteStep::ReadDir(file, DeleteStage::Listing { base, dir: file })
        } else {
            DeleteStep::Reject(Status::NotFound, "Not a file or directory"@)
        },
    }
}

/// Once a removal is done: success, or an entry that was already gone,
/// ends the deletion with success; another failure is answered as
/// filesystem failures are, with `not_found`.
pub open spec fn delete_removed_step(removed: Result<(), IoFailure>, not_found: Seq<char>) -> DeleteStep {
    match removed {
        Ok(_) => DeleteStep::Deleted,
        Err(e) => if e.kind == IoErrorKind::NotFound {
            DeleteStep::Deleted
        } else {
            reject_io(e, not_found)
        },
    }
}

/// Once a directory is opened for listing: a failure is answered as
/// filesystem failures are, with "Failed to read directory"; otherwise its
/// first entry is read.
pub open spec fn delete_listing_step(base: Seq<u8>, dir: Seq<u8>, listing: Result<(), IoFailure>) -> DeleteStep {
    match listing {
        Err(e) => reject_io(e, "Failed to read directory"@),
        Ok(_) => DeleteStep::NextEntry(DeleteStage::Entry { base, dir }),
    }
}

/// Once the first entry of a directory is read: a failure is answered as
/// filesystem failures are, with "Failed to read directory"; a directory
/// with an entry is refused with 409 "Directory is not empty"; an empty one
/// is removed.
pub open spec fn delete_entry_step(base: Seq<u8>, dir: Seq<u8>, has_entry: Result<bool, IoFailure>) -> DeleteStep {
    match has_entry {
        Err(e) => reject_io(e, "Failed to read directory"@),
        Ok(true) => DeleteStep::Reject(Status::Conflict, "Directory is not empty"@),
        Ok(false) => DeleteStep::RemoveDir(dir, DeleteStage::RemoveDir),
    }
}

impl AwaitBase {
    /// Continues once the storage directory has been resolved, as
    /// [`delete_base_step`] says.
    pub fn resume(self, base: Result<Vec<u8>, IoFailure>) -> (r: DeleteAction)
        ensures
            self.stage() matches DeleteStage::Base { request } && r@ == delete_base_step(
                request,
                path_answer(base),
            ),
    {
        match base {
            Err(e) => DeleteAction::Reject(io_error_to_response(&e, "Base directory not found")),
            Ok(b) => match resolve_request(b.as_slice(), self.request.as_slice()) {
                Err(x) => DeleteAction::Reject(x),
                Ok(joined) => DeleteAction::CanonicalizeFile(joined, AwaitFile { base: b }),
            },
        }
    }
}

impl AwaitFile {
    /// Continues once the requested entry has been resolved, as
    /// [`delete_file_step`] says.
    pub fn resume(self, file: Result<Vec<u8>, IoFailure>) -> (r: DeleteAction)
        ensures
            self.stage() matches DeleteStage::File { base } && r@ == delete_file_step(
                base,
                path_answer(file),
            ),
    {
        match file {
            Err(e) => {
                if e.kind == IoErrorKind::NotFound {
                    DeleteAction::Deleted
                } else {
                    DeleteAction::Reject(io_error_to_response(&e, "File not found"))
                }
            },
            Ok(f) => {
                if !starts_with(f.as_slice(), self.base.as_slice()) {
                    return DeleteAction::Reject(reply(Status::Forbidden, "Access denied"));
                }
                let path = f.clone();
                assert(path@ == f@);
                DeleteAction::ReadMetadata(path, AwaitStat { base: self.base, file: f })
            },
        }
    }
}

impl AwaitStat {
    #[verifier::type_invariant]
    spec fn confined(self) -> bool {
        starts_with_spec(self.file@, self.base@)
    }

    /// Continues once the entry's metadata has been read, as
    /// [`delete_stat_step`] says. What is removed or listed lies below the
    /// storage directory.
    pub fn resume(self, stat: Result<FileStat, IoFailure>) -> (r: DeleteAction)
        ensures
            self.stage() matches DeleteStage::Stat { base, file } && r@ == delete_stat_step(
                base,
                file,
                stat,
            ) && starts_with_spec(file, base),
    {
        proof {
            use_type_invariant(&self);
        }
        match stat {
            Err(e) => DeleteAction::Reject(io_error_to_response(&e, "File not found")),
            Ok(s) => {
                if s.is_file {
                    DeleteAction::RemoveFile(self.file, AwaitRemoveFile {  })
                } else if s.is_dir {
                    let path = self.file.clone();
                    assert(path@ == self.file@);
                    DeleteAction::ReadDir(path, AwaitListing { base: self.base, dir: self.file })
                } else {
                    DeleteAction::Reject(reply(Status::NotFound, "Not a file or directory"))
                }
            },
        }
    }
}

/// Answers the outcome of a removal.
fn removed_action(removed: Result<(), IoFailure>, not_found: &str) -> (r: DeleteAction)
    ensures
        r@ == delete_removed_step(removed, not_found@),
{
    match removed {
        Ok(_) => DeleteAction::Deleted,
        Err(e) => {
            if e.kind == IoErrorKind::NotFound {
                DeleteAction::Deleted
            } else {
                DeleteAction::Reject(io_error_to_response(&e, not_found))
            }
        },
    }
}

impl AwaitRemoveFile {
    /// Continues once the file has been removed, as
    /// [`delete_removed_step`] says, with "Failed to delete file".
    pub fn resume(self, removed: Result<(), IoFailure>) -> (r: DeleteAction)
        ensures
            r@ == delete_removed_step(removed, "Failed to delete file"@),
    {
        removed_action(removed, "Failed to delete file")
    }
}

impl AwaitListing {
    #[verifier::type_invariant]
    spec fn confined(self) -> bool {
        starts_with_spec(self.dir@, self.base@)
    }

    /// Continues once the directory has been opened for listing, as
    /// [`delete_listing_step`] says.
    pub fn resume(self, listing: Result<(), IoFailure>) -> (r: DeleteAction)
        ensures
            self.stage() matches DeleteStage::Listing { base, dir } && r@ == delete_listing_step(
                base,
                dir,
                listing,
            ) && starts_with_spec(dir, base),
    {
        proof {
            use_type_invariant(&self);
        }
        match listing {
            Err(e) => DeleteAction::Reject(io_error_to_response(&e, "Failed to read directory")),
            Ok(_) => DeleteAction::NextEntry(AwaitEntry { base: self.base, dir: self.dir }),
        }
    }
}

impl AwaitEntry {
    #[verifier::type_invariant]
    spec fn confined(self) -> bool {
        starts_with_spec(self.dir@, self.base@)
    }

    /// Continues once the first entry of the directory has been read, as
    /// [`delete_entry_step`] says. An empty directory that is removed lies
    /// below the storage directory.
    pub fn resume(self, has_entry: Result<bool, IoFailure>) -> (r: DeleteAction)
        ensures
            self.stage() matches DeleteStage::Entry { base, dir } && r@ == delete_entry_step(
                base,
                dir,
                has_entry,
            ) && starts_with_spec(dir, base),
    {
        proof {
            use_type_invariant(&self);
        }
        match has_entry {
            Err(e) => DeleteAction::Reject(io_error_to_response(&e, "Failed to read directory")),
            Ok(true) => DeleteAction::Reject(reply(Status::Conflict, "Directory is not empty")),
            Ok(false) => DeleteAction::RemoveDir(self.dir, AwaitRemoveDir {  }),
        }
    }
}

impl AwaitRemoveDir {
    /// Continues once the directory has been removed, as
    /// [`delete_removed_step`] says, with "Failed to delete directory".
    pub fn resume(self, removed: Result<(), IoFailure>) -> (r: DeleteAction)
        ensures
            r@ == delete_removed_step(removed, "Failed to delete directory"@),
    {
        removed_action(removed, "Failed to delete directory")
    }
}

/// Starts the deletion of the entry named by `file_path`, as
/// [`delete_start`] says.
pub fn delete_file_handler(state: &AppState, file_path: &FilePath) -> (r: DeleteAction)
    ensures
        r@ == delete_start(state.base_dir@, file_path.path@),
{
    match check_path_text(file_path.path.as_str()) {
        Err(x) => DeleteAction::Reject(x),
        Ok(()) => {
            let request = bytes_of(file_path.path.as_str());
            let base = state.base_dir.clone();
            assert(base@ == state.base_dir@);
            DeleteAction::Canonicalize(base, AwaitBase { request })
        },
    }
}

/// The answers a filesystem gives to the operations of a deletion, each as
/// a function of the path asked about (the directory's path for its first
/// entry).
pub struct DeleteFs {
    pub canonicalize: spec_fn(Seq<u8>) -> Result<Seq<u8>, IoFailure>,
    pub stat: spec_fn(Seq<u8>) -> Result<FileStat, IoFailure>,
    pub remove_file: spec_fn(Seq<u8>) -> Result<(), IoFailure>,
    pub read_dir: spec_fn(Seq<u8>) -> Result<(), IoFailure>,
    pub has_entry: spec_fn(Seq<u8>) -> Result<bool, IoFailure>,
    pub remove_dir: spec_fn(Seq<u8>) -> Result<(), IoFailure>,
}

/// A whole deletion: the paths it removed, in order, and how it ended.
pub struct DeleteRun {
    pub removed: Seq<Seq<u8>>,
    pub end: DeleteStep,
}

/// Performs the steps from `s` on, answering each from `fs`, for at most
/// `fuel` steps.
pub open spec fn delete_drive(fs: DeleteFs, s: DeleteStep, fuel: nat) -> DeleteRun
    decreases fuel,
{
    if fuel == 0 {
        DeleteRun { removed: seq![], end: s }
    } else {
        let f = (fuel - 1) as nat;
        match s {
            DeleteStep::Canonicalize(p, DeleteStage::Base { request }) => delete_drive(
                fs,
                delete_base_step(request, (fs.canonicalize)(p)),
                f,
            ),
            DeleteStep::CanonicalizeFile(p, DeleteStage::File { base }) => delete_drive(
                fs,
                delete_file_step(base, (fs.canonicalize)(p)),
                f,
            ),
            DeleteStep::ReadMetadata(p, DeleteStage::Stat { base, file }) => delete_drive(
                fs,
                delete_stat_step(base, file, (fs.stat)(p)),
                f,
            ),
            DeleteStep::RemoveFile(p, _) => {
                let rest = delete_drive(
                    fs,
                    delete_removed_step((fs.remove_file)(p), "Failed to delete file"@),
                    f,
                );
                DeleteRun { removed: seq![p] + rest.removed, end: rest.end }
            },
            DeleteStep::ReadDir(p, DeleteStage::Listing { base, dir }) => delete_drive(
                fs,
                delete_listing_step(base, dir, (fs.read_dir)(p)),
                f,
            ),
            DeleteStep::NextEntry(DeleteStage::Entry { base, dir }) => delete_drive(
                fs,
                delete_entry_step(base, dir, (fs.has_entry)(dir)),
                f,
            ),
            DeleteStep::RemoveDir(p, _) => {
                let rest = delete_drive(
                    fs,
                    delete_removed_step((fs.remove_dir)(p), "Failed to delete directory"@),
                    f,
                );
                DeleteRun { removed: seq![p] + rest.removed, end: rest.end }
            },
            _ => DeleteRun { removed: seq![], end: s },
        }
    }
}

/// The whole deletion of `path` below the storage directory `base_dir` on
/// the filesystem `fs`: the steps, each answered by `fs`, until the final
/// answer (a deletion takes at most eight steps).
pub open spec fn delete_run(fs: DeleteFs, base_dir: Seq<u8>, path: Seq<char>) -> DeleteRun {
    delete_drive(fs, delete_start(base_dir, path), 8)
}

} // verus!
