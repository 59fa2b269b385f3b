//! The rules that place a requested path below the storage directory.

use vstd::prelude::*;
use crate::path::{has_parent_dir, has_parent_dir_spec, is_absolute, is_absolute_spec, push_path, push_spec};
use crate::reply::{reply, reply_is, Reply, Status};

verus! {

/// Why a requested path is refused once the storage directory is known:
/// an absolute path, or one with a `..` component. Nothing otherwise.
pub open spec fn request_path_refusal(req: Seq<u8>) -> Option<Seq<char>> {
    if is_absolute_spec(req) {
        Some("file-path must be relative"@)
    } else if has_parent_dir_spec(req) {
        Some("file-path must not contain '..'"@)
    } else {
        None
    }
}

/// Places the requested path `req` below the directory `base`: refuses an
/// absolute path or one with a `..` component with 400, and otherwise joins
/// the two as `Path::join` does.
pub fn resolve_request(base: &[u8], req: &[u8]) -> (r: Result<Vec<u8>, Reply>)
    ensures
        match request_path_refusal(req@) {
            Some(m) => r matches Err(e) && reply_is(e, Status::BadRequest, m),
            None => r matches Ok(j) && j@ == push_spec(base@, req@),
        },
{
    if is_absolute(req) {
        return Err(reply(Status::BadRequest, "file-path must be relative"));
    }
    if has_parent_dir(req) {
        return Err(reply(Status::BadRequest, "file-path must not contain '..'"));
    }
    Ok(push_path(base, req))
}

} // verus!
