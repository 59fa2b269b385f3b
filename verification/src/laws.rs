//! Properties that hold across the library's functions.

use vstd::prelude::*;
use vstd::utf8::encode_utf8;
use crate::path::{
    components, file_name_spec, has_parent_dir_spec, is_absolute_spec, is_normal_name,
    lemma_components_empty, lemma_file_name_is_normal, lemma_push_normal_name, push_spec, starts_with_spec, PathComponent,
};
use crate::reply::{is_safe_name_char, safe_text};
use crate::text::{
    all_digits, ascii_text, digits_value, header_text_spec, is_visible_ascii, lemma_ascii_text_bytes,
    parse_i64_spec,
};
use crate::resolve::request_path_refusal;
use crate::upload::{upload_destination, upload_run, UploadFs, UploadRun, UploadStep};
use crate::delete::{delete_file_step, delete_run, delete_stat_step, DeleteFs, DeleteRun, DeleteStage, DeleteStep};
use crate::reply::{FileStat, Status};
use crate::request::path_text_invalid;
use crate::download::{
    download_file_step, download_run, download_stat_step, DownloadFs, DownloadRun, DownloadStage, DownloadStep,
};
use crate::reply::{disposition_spec, offered_name, IoFailure};
use vstd::utf8::{decode_utf8, valid_utf8};
use crate::text::{is_control_char, is_white_space};
use crate::reply::IoErrorKind;
use crate::file_db::{file_db_run, FileDbFs, FileDbStep};
use crate::reply::{io_error_message, io_error_status};

verus! {

/// The final name of a path names itself: taking the final name of a final
/// name changes nothing.
pub proof fn lemma_file_name_idempotent(p: Seq<u8>)
    ensures
        file_name_spec(p) matches Some(n) ==> file_name_spec(n) == Some(n),
{
    lemma_file_name_is_normal(p);
    if let Some(n) = file_name_spec(p) {
        lemma_push_normal_name(Seq::<u8>::empty(), n);
        assert(push_spec(Seq::<u8>::empty(), n) =~= n);
    }
}

/// An accepted upload is stored under the final name of the name the client
/// gave, which is one normal component (not empty, without a separator,
/// neither `.` nor `..`), placed directly inside the storage directory,
/// whatever path the client put in the file name: the destination's
/// components are the directory's followed by that name, so the stored file
/// lies below the storage directory, one component deeper.
pub proof fn lemma_upload_lands_in_base(base: Seq<u8>, filename: Seq<char>)
    ensures
        upload_destination(base, filename) matches Some(d) ==> {
            &&& file_name_spec(encode_utf8(filename)) matches Some(n)
            &&& is_normal_name(n)
            &&& components(d) == components(base).push(PathComponent::Normal(n))
            &&& file_name_spec(d) == Some(n)
            &&& starts_with_spec(d, base)
        },
{
    lemma_file_name_is_normal(encode_utf8(filename));
    if let Some(n) = file_name_spec(encode_utf8(filename)) {
        lemma_push_normal_name(base, n);
        let d = push_spec(base, n);
        let cb = components(base);
        assert forall|j: int| 0 <= j < cb.len() implies cb[j] == components(d)[j] by {}
    }
}

/// A file stored by an upload can be asked for by
/// its final name: that name is neither absolute nor has a `..` component,
/// and joined to the storage directory it gives the path the upload wrote.
pub proof fn lemma_uploaded_name_is_requestable(base: Seq<u8>, filename: Seq<char>)
    ensures
        upload_destination(base, filename) matches Some(d) ==> {
            &&& file_name_spec(encode_utf8(filename)) matches Some(n)
            &&& request_path_refusal(n) is None
            &&& push_spec(base, n) == d
        },
{
    lemma_file_name_is_normal(encode_utf8(filename));
    if let Some(n) = file_name_spec(encode_utf8(filename)) {
        lemma_push_normal_name(Seq::<u8>::empty(), n);
        assert(push_spec(Seq::<u8>::empty(), n) =~= n);
        lemma_components_empty();
        let cs = components(n);
        assert(cs =~= seq![PathComponent::Normal(n)]);
        assert(cs.len() == 1 && cs[0] == PathComponent::Normal(n));
        assert(!has_parent_dir_spec(n));
        assert(!is_absolute_spec(n));
    }
}

/// The characters kept for a quoted file name are neither control
/// characters nor double quotes, and keeping them again changes nothing.
pub proof fn lemma_safe_text(s: Seq<char>)
    ensures
        forall|i: int| 0 <= i < safe_text(s).len() ==> is_safe_name_char(#[trigger] safe_text(s)[i]),
        safe_text(safe_text(s)) == safe_text(s),
        safe_text(s).len() <= s.len(),
    decreases s.len(),
{
    if s.len() > 0 {
        let init = s.drop_last();
        lemma_safe_text(init);
        let t = safe_text(init);
        if is_safe_name_char(s.last()) {
            let u = t.push(s.last());
            assert(u.drop_last() =~= t);
            assert(safe_text(u) == safe_text(t).push(s.last()));
            assert forall|i: int| 0 <= i < u.len() implies is_safe_name_char(#[trigger] u[i]) by {
                if i < t.len() {
                    assert(u[i] == t[i]);
                }
            }
        }
    }
}

/// The text read from a header value is encoded in UTF-8 by exactly the
/// bytes of that value, so a requested path is examined as the client sent
/// it.
pub proof fn lemma_header_text_bytes(b: Seq<u8>)
    ensures
        header_text_spec(b) matches Some(t) ==> encode_utf8(t) == b,
{
    if header_text_spec(b) is Some {
        lemma_ascii_text_bytes(b);
    }
}

/// A deletion removes nothing but entries below the storage directory, as
/// resolved when it started: whatever the filesystem answers, every path it
/// removes lies below that directory by whole components, and when the
/// directory cannot be resolved nothing is removed.
pub proof fn lemma_delete_removes_only_below_base(fs: DeleteFs, base_dir: Seq<u8>, path: Seq<char>)
    ensures
        (fs.canonicalize)(base_dir) matches Ok(cb) ==> forall|i: int|
            0 <= i < delete_run(fs, base_dir, path).removed.len() ==> starts_with_spec(
                #[trigger] delete_run(fs, base_dir, path).removed[i],
                cb,
            ),
        (fs.canonicalize)(base_dir) is Err ==> delete_run(fs, base_dir, path).removed.len() == 0,
{
    reveal_with_fuel(crate::delete::delete_drive, 9);
}

/// Deleting twice succeeds and changes nothing the second time: once a
/// deletion of `path` has succeeded, deleting it again on a filesystem where
/// the storage directory resolves as before and the requested entry is gone
/// succeeds without removing anything.
pub proof fn lemma_delete_twice(fs: DeleteFs, after: DeleteFs, base_dir: Seq<u8>, path: Seq<char>)
    requires
        delete_run(fs, base_dir, path).end is Deleted,
        (after.canonicalize)(base_dir) == (fs.canonicalize)(base_dir),
        (after.canonicalize)(base_dir) matches Ok(cb) ==> (after.canonicalize)(
            push_spec(cb, encode_utf8(path)),
        ) matches Err(e) && e.kind == IoErrorKind::NotFound,
    ensures
        delete_run(after, base_dir, path).end == DeleteStep::Deleted,
        delete_run(after, base_dir, path).removed.len() == 0,
{
    reveal_with_fuel(crate::delete::delete_drive, 9);
}

/// Serving the file database writes nothing: every operation it asks for
/// reads (the configuration file, its parse, the database file's metadata,
/// opening the database file), and it ends by sending a file or refusing.
pub proof fn lemma_file_db_only_reads(fs: FileDbFs)
    ensures
        forall|i: int|
            0 <= i < file_db_run(fs).asked.len() ==> match #[trigger] file_db_run(fs).asked[i] {
                FileDbStep::ReadConfig(_, _) => true,
                FileDbStep::ParseConfig(_, _) => true,
                FileDbStep::ReadMetadata(_, _) => true,
                FileDbStep::Open(_, _) => true,
                _ => false,
            },
        file_db_run(fs).end is Serve || file_db_run(fs).end is Reject,
{
    reveal_with_fuel(crate::file_db::file_db_drive, 6);
}

/// Serving the file database gives the same answer whenever the filesystem
/// answers the same: two filesystems that agree on the configuration text,
/// on what it parses to, and on the metadata and opening of the configured
/// database file lead to the same operations and the same answer.
pub proof fn lemma_file_db_same_answer(a: FileDbFs, b: FileDbFs)
    requires
        (a.read)("config.toml"@) == (b.read)("config.toml"@),
        (a.read)("config.toml"@) matches Ok(t) ==> (a.parse)(t) == (b.parse)(t),
        (a.read)("config.toml"@) matches Ok(t) ==> ((a.parse)(t) matches Ok(p) ==> {
            &&& (a.stat)(encode_utf8(p)) == (b.stat)(encode_utf8(p))
            &&& (a.open)(encode_utf8(p)) == (b.open)(encode_utf8(p))
        }),
    ensures
        file_db_run(a) == file_db_run(b),
{
    reveal_with_fuel(crate::file_db::file_db_drive, 6);
}

/// Deleting a regular file below the storage directory removes exactly that
/// file and answers success, however deep below the directory it lies and
/// whatever its length: when the request is usable, the directory resolves
/// to `cb`, the requested entry resolves to `f` below `cb`, the filesystem
/// reports a regular file there and removing it succeeds.
pub proof fn lemma_delete_removes_resolved_file(
    fs: DeleteFs,
    base_dir: Seq<u8>,
    path: Seq<char>,
    cb: Seq<u8>,
    f: Seq<u8>,
    s: FileStat,
)
    requires
        !path_text_invalid(path),
        request_path_refusal(encode_utf8(path)) is None,
        (fs.canonicalize)(base_dir) == Ok::<Seq<u8>, crate::reply::IoFailure>(cb),
        (fs.canonicalize)(push_spec(cb, encode_utf8(path))) == Ok::<Seq<u8>, crate::reply::IoFailure>(f),
        starts_with_spec(f, cb),
        (fs.stat)(f) == Ok::<FileStat, crate::reply::IoFailure>(s),
        s.is_file,
        (fs.remove_file)(f) is Ok,
    ensures
        delete_run(fs, base_dir, path) == (DeleteRun { removed: seq![f], end: DeleteStep::Deleted }),
{
    reveal_with_fuel(crate::delete::delete_drive, 9);
    assert(seq![f] + Seq::<Seq<u8>>::empty() =~= seq![f]);
}

/// Deleting an empty directory below the storage directory removes exactly
/// that directory and answers success; a directory with an entry is refused
/// with 409 "Directory is not empty" and nothing is removed.
pub proof fn lemma_delete_directory(
    fs: DeleteFs,
    base_dir: Seq<u8>,
    path: Seq<char>,
    cb: Seq<u8>,
    d: Seq<u8>,
    s: FileStat,
)
    requires
        !path_text_invalid(path),
        request_path_refusal(encode_utf8(path)) is None,
        (fs.canonicalize)(base_dir) == Ok::<Seq<u8>, crate::reply::IoFailure>(cb),
        (fs.canonicalize)(push_spec(cb, encode_utf8(path))) == Ok::<Seq<u8>, crate::reply::IoFailure>(d),
        starts_with_spec(d, cb),
        (fs.stat)(d) == Ok::<FileStat, crate::reply::IoFailure>(s),
        !s.is_file,
        s.is_dir,
        (fs.read_dir)(d) is Ok,
        (fs.remove_dir)(d) is Ok,
    ensures
        (fs.has_entry)(d) == Ok::<bool, crate::reply::IoFailure>(false) ==> delete_run(fs, base_dir, path)
            == (DeleteRun { removed: seq![d], end: DeleteStep::Deleted }),
        (fs.has_entry)(d) == Ok::<bool, crate::reply::IoFailure>(true) ==> delete_run(fs, base_dir, path)
            == (DeleteRun {
            removed: seq![],
            end: DeleteStep::Reject(Status::Conflict, "Directory is not empty"@),
        }),
{
    reveal_with_fuel(crate::delete::delete_drive, 9);
    assert(seq![d] + Seq::<Seq<u8>>::empty() =~= seq![d]);
}

/// An entry that resolves outside the storage directory is refused with
/// 403 "Access denied" and nothing is removed.
pub proof fn lemma_delete_outside_is_denied(
    fs: DeleteFs,
    base_dir: Seq<u8>,
    path: Seq<char>,
    cb: Seq<u8>,
    f: Seq<u8>,
)
    requires
        !path_text_invalid(path),
        request_path_refusal(encode_utf8(path)) is None,
        (fs.canonicalize)(base_dir) == Ok::<Seq<u8>, crate::reply::IoFailure>(cb),
        (fs.canonicalize)(push_spec(cb, encode_utf8(path))) == Ok::<Seq<u8>, crate::reply::IoFailure>(f),
        !starts_with_spec(f, cb),
    ensures
        delete_run(fs, base_dir, path) == (DeleteRun {
            removed: seq![],
            end: DeleteStep::Reject(Status::Forbidden, "Access denied"@),
        }),
{
    reveal_with_fuel(crate::delete::delete_drive, 9);
}

/// Confinement of a deletion depends on nothing but whether the resolved
/// entry lies below the storage directory by whole components: any entry
/// below it, at any depth, has its metadata read next, and the refusal 403
/// "Access denied" comes exactly for an entry outside it.
pub proof fn lemma_delete_confines_to_base(base: Seq<u8>, f: Seq<u8>)
    ensures
        starts_with_spec(f, base) ==> delete_file_step(base, Ok(f)) == DeleteStep::ReadMetadata(
            f,
            DeleteStage::Stat { base, file: f },
        ),
        delete_file_step(base, Ok(f)) == DeleteStep::Reject(Status::Forbidden, "Access denied"@)
            <==> !starts_with_spec(f, base),
{
}

/// What a deletion does with an entry depends only on whether the
/// filesystem reports a regular file or a directory, never on its length.
pub proof fn lemma_delete_ignores_length(base: Seq<u8>, file: Seq<u8>, s: FileStat, t: FileStat)
    requires
        s.is_file == t.is_file,
        s.is_dir == t.is_dir,
    ensures
        delete_stat_step(base, file, Ok(s)) == delete_stat_step(base, file, Ok(t)),
        s.is_file ==> delete_stat_step(base, file, Ok(s)) is RemoveFile,
{
}

/// A requested path is refused as unusable exactly when it is made of white
/// space only (the empty path included) or holds a control character, NUL
/// among them: any other text, spaces and punctuation included, is passed on
/// to be resolved.
pub proof fn lemma_path_text_invalid_exactly(p: Seq<char>)
    ensures
        path_text_invalid(p) <==> ((forall|i: int| 0 <= i < p.len() ==> is_white_space(#[trigger] p[i]))
            || (exists|i: int| 0 <= i < p.len() && is_control_char(#[trigger] p[i]))),
{
    if exists|i: int| 0 <= i < p.len() && p[i] == '\0' {
        let i = choose|i: int| 0 <= i < p.len() && p[i] == '\0';
        assert(is_control_char(p[i]));
    }
}

/// Every file name that has a final name is accepted for upload, and the
/// file is stored under exactly that final name in the storage directory;
/// only a name without a final name is refused.
pub proof fn lemma_upload_accepts_every_final_name(base: Seq<u8>, filename: Seq<char>)
    ensures
        file_name_spec(encode_utf8(filename)) matches Some(n) ==> upload_destination(base, filename)
            == Some(push_spec(base, n)),
        file_name_spec(encode_utf8(filename)) is None ==> upload_destination(base, filename) is None,
{
}

/// The name offered in a `Content-Disposition` header is the given name with
/// its control characters and double quotes left out, and nothing else
/// changed: a name without them is offered as it is.
pub proof fn lemma_safe_text_keeps_all_else(s: Seq<char>)
    ensures
        safe_text(s) == s.filter(|c: char| !is_control_char(c) && c != '"'),
        (forall|i: int| 0 <= i < s.len() ==> !is_control_char(#[trigger] s[i]) && s[i] != '"')
            ==> safe_text(s) == s,
    decreases s.len(),
{
    reveal(Seq::filter);
    if s.len() > 0 {
        lemma_safe_text_keeps_all_else(s.drop_last());
        if forall|i: int| 0 <= i < s.len() ==> !is_control_char(#[trigger] s[i]) && s[i] != '"' {
            let t = s.drop_last();
            assert forall|i: int| 0 <= i < t.len() implies !is_control_char(#[trigger] t[i]) && t[i]
                != '"' by {
                assert(t[i] == s[i]);
            }
            assert(s.last() == s[s.len() - 1]);
            assert(t.push(s.last()) =~= s);
        }
    }
}

/// Downloading a regular file below the storage directory opens exactly
/// that file and sends it with the length the filesystem reports, offered
/// under its final name, however deep below the directory it lies.
pub proof fn lemma_download_serves_resolved_file(
    fs: DownloadFs,
    base_dir: Seq<u8>,
    path: Seq<char>,
    cb: Seq<u8>,
    f: Seq<u8>,
    s: FileStat,
)
    requires
        !path_text_invalid(path),
        request_path_refusal(encode_utf8(path)) is None,
        (fs.canonicalize)(base_dir) == Ok::<Seq<u8>, IoFailure>(cb),
        (fs.canonicalize)(push_spec(cb, encode_utf8(path))) == Ok::<Seq<u8>, IoFailure>(f),
        starts_with_spec(f, cb),
        (fs.stat)(f) == Ok::<FileStat, IoFailure>(s),
        s.is_file,
        (fs.open)(f) is Ok,
    ensures
        download_run(fs, base_dir, path) == (DownloadRun {
            opened: Some(f),
            end: DownloadStep::Serve(s.len, disposition_spec(offered_name(f, "file"@))),
        }),
{
    reveal_with_fuel(crate::download::download_drive, 6);
}

/// A download opens nothing but a regular file below the storage
/// directory, as resolved when it started: whatever the filesystem answers,
/// a file it opens lies below that directory by whole components and is
/// reported as a regular file; a path refused by the text or path rules
/// opens nothing.
pub proof fn lemma_download_opens_only_files_below_base(
    fs: DownloadFs,
    base_dir: Seq<u8>,
    path: Seq<char>,
)
    ensures
        download_run(fs, base_dir, path).opened matches Some(p) ==> {
            &&& (fs.canonicalize)(base_dir) matches Ok(cb)
            &&& starts_with_spec(p, cb)
            &&& (fs.stat)(p) matches Ok(st)
            &&& st.is_file
        },
        path_text_invalid(path) ==> download_run(fs, base_dir, path).opened is None,
        request_path_refusal(encode_utf8(path)) is Some ==> download_run(fs, base_dir, path).opened
            is None,
{
    reveal_with_fuel(crate::download::download_drive, 6);
}

/// A download of something that is not a regular file answers 404 "Not a
/// file" and opens nothing; a file that resolves outside the storage
/// directory answers 403 "Access denied" and opens nothing.
pub proof fn lemma_download_refusals(
    fs: DownloadFs,
    base_dir: Seq<u8>,
    path: Seq<char>,
    cb: Seq<u8>,
    f: Seq<u8>,
    s: FileStat,
)
    requires
        !path_text_invalid(path),
        request_path_refusal(encode_utf8(path)) is None,
        (fs.canonicalize)(base_dir) == Ok::<Seq<u8>, IoFailure>(cb),
        (fs.canonicalize)(push_spec(cb, encode_utf8(path))) == Ok::<Seq<u8>, IoFailure>(f),
    ensures
        !starts_with_spec(f, cb) ==> download_run(fs, base_dir, path) == (DownloadRun {
            opened: None,
            end: DownloadStep::Reject(Status::Forbidden, "Access denied"@),
        }),
        starts_with_spec(f, cb) && (fs.stat)(f) == Ok::<FileStat, IoFailure>(s) && !s.is_file
            ==> download_run(fs, base_dir, path) == (DownloadRun {
            opened: None,
            end: DownloadStep::Reject(Status::NotFound, "Not a file"@),
        }),
{
    reveal_with_fuel(crate::download::download_drive, 6);
}

/// A file whose final name is valid UTF-8 is offered under that name as it
/// reads; the `Content-Disposition` value quotes the offered name with its
/// control characters and double quotes left out.
pub proof fn lemma_offered_name(path: Seq<u8>, fallback: Seq<char>, name: Seq<char>)
    ensures
        file_name_spec(path) matches Some(n) ==> (valid_utf8(n) ==> offered_name(path, fallback)
            == decode_utf8(n)),
        file_name_spec(path) is None ==> offered_name(path, fallback) == fallback,
        disposition_spec(name) == "attachment; filename=\""@ + name.filter(
            |c: char| !is_control_char(c) && c != '"',
        ) + "\""@,
{
    lemma_safe_text_keeps_all_else(name);
}

/// An upload whose file name has a final name `n` stores the body under
/// exactly that name directly in the storage directory, whatever else the
/// name holds (spaces, punctuation, a client-side directory): when the
/// filesystem carries out each operation, the file created and written is
/// the storage directory joined with `n`, its modification time is set to
/// the seconds the client gave, and the upload answers 201.
pub proof fn lemma_upload_stores_under_final_name(
    fs: UploadFs,
    base_dir: Seq<u8>,
    filename: Seq<char>,
    filetime: Option<i64>,
    n: Seq<u8>,
)
    requires
        file_name_spec(encode_utf8(filename)) == Some(n),
        (fs.create_dir)(base_dir) is Ok,
        (fs.create_file)(push_spec(base_dir, n)) is Ok,
        (fs.write)(push_spec(base_dir, n)) is Ok,
        filetime matches Some(t) ==> (fs.set_modified)(push_spec(base_dir, n), t as u64) is Ok,
    ensures
        upload_run(fs, base_dir, filename, filetime) == (UploadRun {
            created: Some(push_spec(base_dir, n)),
            written: Some(push_spec(base_dir, n)),
            modified: match filetime {
                Some(t) => Some((push_spec(base_dir, n), t as u64)),
                None => None,
            },
            end: UploadStep::Created,
        }),
{
    reveal_with_fuel(crate::upload::upload_drive, 6);
}

/// An upload whose file name has no final name (empty, the root alone, or
/// ending in `..`) is refused with 400 "Invalid file name" once the storage
/// directory exists, and no file is created, written or touched.
pub proof fn lemma_upload_refuses_only_nameless(
    fs: UploadFs,
    base_dir: Seq<u8>,
    filename: Seq<char>,
    filetime: Option<i64>,
)
    requires
        file_name_spec(encode_utf8(filename)) is None,
        (fs.create_dir)(base_dir) is Ok,
    ensures
        upload_run(fs, base_dir, filename, filetime) == (UploadRun {
            created: None,
            written: None,
            modified: None,
            end: UploadStep::Reject(Status::BadRequest, "Invalid file name"@),
        }),
{
    reveal_with_fuel(crate::upload::upload_drive, 6);
}

/// Confinement of a download depends on nothing but whether the resolved
/// file lies below the storage directory by whole components: any file
/// below it, at any depth, has its metadata read next, and the refusal 403
/// "Access denied" comes exactly for a file outside it. Whether it is then
/// opened depends only on its being a regular file, never on its length.
pub proof fn lemma_download_confines_to_base(base: Seq<u8>, f: Seq<u8>, s: FileStat, t: FileStat)
    ensures
        starts_with_spec(f, base) ==> download_file_step(base, Ok(f)) == DownloadStep::ReadMetadata(
            f,
            DownloadStage::Stat { base, file: f },
        ),
        download_file_step(base, Ok(f)) == DownloadStep::Reject(Status::Forbidden, "Access denied"@)
            <==> !starts_with_spec(f, base),
        s.is_file ==> download_stat_step(base, f, Ok(s)) == DownloadStep::Open(
            f,
            DownloadStage::Open { base, file: f, len: s.len },
        ),
        (s.is_file == t.is_file) ==> (download_stat_step(base, f, Ok(s)) is Open
            == download_stat_step(base, f, Ok(t)) is Open),
{
}

/// Serving the file database sends the file that `config.toml` names: when
/// the configuration reads and parses to a path `p` and the filesystem
/// reports a regular file there that opens, the answer carries the length
/// reported and offers the file under its final name ("file.db" when it has
/// none); anything but a regular file is answered with 404 "File DB not
/// found"; a configuration that cannot be read or parsed is answered with
/// 500.
pub proof fn lemma_file_db_serves_configured_file(fs: FileDbFs, t: Seq<char>, p: Seq<char>, s: FileStat)
    ensures
        (fs.read)("config.toml"@) matches Err(e) ==> file_db_run(fs).end == FileDbStep::Reject(
            Status::InternalServerError,
            "Failed to read config file: "@ + e.description@,
        ),
        (fs.read)("config.toml"@) == Ok::<Seq<char>, IoFailure>(t) ==> ((fs.parse)(t) matches Err(m)
            ==> file_db_run(fs).end == FileDbStep::Reject(
            Status::InternalServerError,
            "Failed to parse config file: "@ + m,
        )),
        ((fs.read)("config.toml"@) == Ok::<Seq<char>, IoFailure>(t) && (fs.parse)(t) == Ok::<
            Seq<char>,
            Seq<char>,
        >(p) && (fs.stat)(encode_utf8(p)) == Ok::<FileStat, IoFailure>(s)) ==> {
            &&& s.is_file && (fs.open)(encode_utf8(p)) is Ok ==> file_db_run(fs).end == FileDbStep::Serve(
                s.len,
                disposition_spec(offered_name(encode_utf8(p), "file.db"@)),
            )
            &&& s.is_file ==> ((fs.open)(encode_utf8(p)) matches Err(e) ==> file_db_run(fs).end
                == FileDbStep::Reject(io_error_status(e.kind), io_error_message(e, "File DB not found"@)))
            &&& !s.is_file ==> file_db_run(fs).end == FileDbStep::Reject(
                Status::NotFound,
                "File DB not found"@,
            )
        },
{
    reveal_with_fuel(crate::file_db::file_db_drive, 6);
}

/// A requested path is refused by the path rules exactly when it is
/// absolute (it opens with `/`) or one of its components is `..`; every
/// other relative path, nested ones and names with spaces included, is
/// accepted and joined below the storage directory.
pub proof fn lemma_request_path_refusal_exactly(p: Seq<u8>)
    ensures
        request_path_refusal(p) is None <==> (!(p.len() > 0 && p[0] == 47u8) && forall|i: int|
            0 <= i < components(p).len() ==> #[trigger] components(p)[i] != PathComponent::ParentDir),
        (p.len() > 0 && p[0] == 47u8) ==> request_path_refusal(p) == Some("file-path must be relative"@),
{
}

/// A header value is read as text exactly when each of its bytes is visible
/// ASCII (a space included) or a tab, and the text then holds one
/// character per byte, each with that byte's code.
pub proof fn lemma_header_text_exactly(b: Seq<u8>)
    ensures
        header_text_spec(b) is Some <==> forall|i: int| 0 <= i < b.len() ==> is_visible_ascii(#[trigger] b[i]),
        header_text_spec(b) matches Some(t) ==> t.len() == b.len() && forall|i: int|
            0 <= i < b.len() ==> (#[trigger] t[i]) as u32 == b[i] as u32,
{
    if header_text_spec(b) is Some {
        let t = ascii_text(b);
        assert forall|i: int| 0 <= i < b.len() implies (#[trigger] t[i]) as u32 == b[i] as u32 by {
            assert(t[i] == b[i] as char);
        }
    }
}

/// A time given as decimal digits, with an optional `+` or `-` sign, is read
/// as the number those digits write, negated for `-`, whenever it lies in
/// the range of `i64`.
pub proof fn lemma_parse_i64_digits(d: Seq<u8>)
    requires
        d.len() > 0,
        all_digits(d),
    ensures
        digits_value(d) <= i64::MAX ==> parse_i64_spec(d) == Some(digits_value(d) as i64),
        digits_value(d) <= i64::MAX ==> parse_i64_spec(seq![43u8] + d) == Some(digits_value(d) as i64),
        -(digits_value(d) as int) >= i64::MIN ==> parse_i64_spec(seq![45u8] + d) == Some(
            (-(digits_value(d) as int)) as i64,
        ),
{
    assert(d.subrange(0, d.len() as int) =~= d);
    let plus = seq![43u8] + d;
    let minus = seq![45u8] + d;
    assert(plus.subrange(1, plus.len() as int) =~= d);
    assert(minus.subrange(1, minus.len() as int) =~= d);
    assert(crate::text::is_digit(d[0]));
}

} // verus!
