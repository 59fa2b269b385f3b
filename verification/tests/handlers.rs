use filesearcherv5_web::delete::{delete_file_handler, DeleteAction};
use filesearcherv5_web::download::{download_file_handler, DownloadAction};
use filesearcherv5_web::file_db::{get_file_db_handler, FileDbAction};
use filesearcherv5_web::refresh::{
    file_searcher_daemon, refresh_spawn_failed, refresh_started, refresh_stdout_missing, relay_step,
    RelayStep,
};
use filesearcherv5_web::reply::{
    io_error_to_response, root_handler, FileReply, FileStat, IoErrorKind, IoFailure, Reply,
    Status,
};
use filesearcherv5_web::request::{AppState, Config, FileMetadata, FilePath, MetadataHeaders};
use filesearcherv5_web::upload::{upload_file_handler, UploadAction};
use std::collections::BTreeMap;
use std::path::{Component, Path, PathBuf};

#[derive(Clone, Debug)]
enum Entry {
    File(u64),
    Dir(usize),
    Link(String),
}

/// A filesystem held in memory, with the working directory `/work`.
struct FakeFs {
    entries: BTreeMap<String, Entry>,
    fail_open: bool,
}

fn not_found() -> IoFailure {
    IoFailure { kind: IoErrorKind::NotFound, description: "No such file or directory (os error 2)".to_string() }
}

impl FakeFs {
    fn new(entries: &[(&str, Entry)]) -> FakeFs {
        FakeFs {
            entries: entries.iter().map(|(k, v)| (k.to_string(), v.clone())).collect(),
            fail_open: false,
        }
    }

    fn canonicalize(&self, p: &[u8]) -> Result<Vec<u8>, IoFailure> {
        let text = String::from_utf8(p.to_vec()).unwrap();
        let mut pending: Vec<String> = Vec::new();
        let full = if text.starts_with('/') { PathBuf::from(&text) } else { Path::new("/work").join(&text) };
        for c in full.components().rev() {
            match c {
                Component::Normal(n) => pending.push(n.to_str().unwrap().to_string()),
                Component::ParentDir => pending.push("..".to_string()),
                _ => {}
            }
        }
        let mut cur = PathBuf::from("/");
        let mut hops = 0;
        while let Some(name) = pending.pop() {
            if name == ".." {
                cur.pop();
                continue;
            }
            let next = cur.join(&name);
            match self.entries.get(next.to_str().unwrap()) {
                None => return Err(not_found()),
                Some(Entry::Link(target)) => {
                    hops += 1;
                    assert!(hops < 10);
                    for c in Path::new(target).components().rev() {
                        if let Component::Normal(n) = c {
                            pending.push(n.to_str().unwrap().to_string());
                        }
                    }
                    cur = PathBuf::from("/");
                }
                Some(_) => cur = next,
            }
        }
        Ok(cur.to_str().unwrap().as_bytes().to_vec())
    }

    fn stat(&self, p: &[u8]) -> Result<FileStat, IoFailure> {
        match self.entries.get(std::str::from_utf8(p).unwrap()) {
            Some(Entry::File(len)) => Ok(FileStat { is_file: true, is_dir: false, len: *len }),
            Some(Entry::Dir(_)) => Ok(FileStat { is_file: false, is_dir: true, len: 4096 }),
            _ => Err(not_found()),
        }
    }
}

fn state(base: &str) -> AppState {
    AppState { base_dir: base.as_bytes().to_vec() }
}

fn run_download(fs: &FakeFs, base: &str, path: &str) -> Result<FileReply, Reply> {
    let mut action = download_file_handler(&state(base), &FilePath { path: path.to_string() });
    loop {
        action = match action {
            DownloadAction::Canonicalize(p, k) => k.resume(fs.canonicalize(&p)),
            DownloadAction::CanonicalizeFile(p, k) => k.resume(fs.canonicalize(&p)),
            DownloadAction::ReadMetadata(p, k) => k.resume(fs.stat(&p)),
            DownloadAction::Open(_, k) => {
                if fs.fail_open {
                    k.resume(Err(IoFailure { kind: IoErrorKind::PermissionDenied, description: "denied".to_string() }))
                } else {
                    k.resume(Ok(()))
                }
            }
            DownloadAction::Serve(r) => return Ok(r),
            DownloadAction::Reject(r) => return Err(r),
        }
    }
}

fn files() -> FakeFs {
    FakeFs::new(&[
        ("/work", Entry::Dir(1)),
        ("/work/test", Entry::Dir(1)),
        ("/work/test/files", Entry::Dir(2)),
        ("/work/test/files/test.txt", Entry::File(11)),
        ("/work/test/files/subdir", Entry::Dir(1)),
        ("/work/test/files/subdir/nested.txt", Entry::File(7)),
        ("/work/test/files/escape", Entry::Link("/etc".to_string())),
        ("/work/test/files/empty", Entry::Dir(0)),
        ("/etc", Entry::Dir(1)),
        ("/etc/passwd", Entry::File(100)),
    ])
}

fn status_of<T>(r: &Result<T, Reply>) -> Option<Status> {
    r.as_ref().err().map(|e| e.status)
}

#[test]
fn test_root() {
    assert_eq!(root_handler(), "filesearcherV5-web active");
}

#[test]
fn test_download_happy_path() {
    let r = run_download(&files(), "test/files", "test.txt").unwrap();
    assert_eq!(r.len, 11);
    assert_eq!(FileReply::content_type(), "application/octet-stream");
    assert_eq!(r.content_disposition, "attachment; filename=\"test.txt\"");
}

#[test]
fn test_download_nested_file() {
    let r = run_download(&files(), "test/files", "subdir/nested.txt").unwrap();
    assert_eq!(r.len, 7);
    assert_eq!(r.content_disposition, "attachment; filename=\"nested.txt\"");
}

#[test]
fn test_download_file_not_found() {
    let r = run_download(&files(), "test/files", "nonexistent.txt");
    assert_eq!(status_of(&r), Some(Status::NotFound));
    assert_eq!(r.unwrap_err().message, "File not found");
}

#[test]
fn test_download_missing_header() {
    let r = FilePath::from_header(None);
    let e = r.unwrap_err();
    assert_eq!(e.status, Status::BadRequest);
    assert_eq!(e.status.code(), 400);
    assert_eq!(e.message, "Missing or invalid file-path header");
}

#[test]
fn test_download_empty_path() {
    let p = FilePath::from_header(Some(b"".to_vec())).unwrap();
    let r = run_download(&files(), "test/files", &p.path);
    assert_eq!(status_of(&r), Some(Status::BadRequest));
    assert_eq!(r.unwrap_err().message, "Invalid file-path header");
}

#[test]
fn test_download_absolute_path_rejected() {
    let r = run_download(&files(), "test/files", "/etc/passwd");
    assert_eq!(status_of(&r), Some(Status::BadRequest));
    assert_eq!(r.unwrap_err().message, "file-path must be relative");
}

#[test]
fn test_download_parent_dir_rejected() {
    let r = run_download(&files(), "test/files", "../secret.txt");
    assert_eq!(status_of(&r), Some(Status::BadRequest));
    assert_eq!(r.unwrap_err().message, "file-path must not contain '..'");
}

#[test]
fn test_download_parent_dir_inside_rejected() {
    let r = run_download(&files(), "test/files", "subdir/../test.txt");
    assert_eq!(status_of(&r), Some(Status::BadRequest));
}

#[test]
fn test_download_directory_returns_not_found() {
    let r = run_download(&files(), "test/files", "subdir");
    assert_eq!(status_of(&r), Some(Status::NotFound));
    assert_eq!(r.unwrap_err().message, "Not a file");
}

#[test]
fn download_through_link_out_of_base_is_denied() {
    let r = run_download(&files(), "test/files", "escape/passwd");
    assert_eq!(status_of(&r), Some(Status::Forbidden));
    assert_eq!(r.unwrap_err().message, "Access denied");
}

#[test]
fn download_missing_base_directory() {
    let r = run_download(&files(), "nowhere", "test.txt");
    assert_eq!(status_of(&r), Some(Status::NotFound));
    assert_eq!(r.unwrap_err().message, "Base directory not found");
}

#[test]
fn download_control_character_rejected() {
    let r = run_download(&files(), "test/files", "te\tst.txt");
    assert_eq!(status_of(&r), Some(Status::BadRequest));
    assert_eq!(r.unwrap_err().message, "Invalid file-path header");
}

#[test]
fn download_open_failure_is_answered_as_io_failure() {
    let mut fs = files();
    fs.fail_open = true;
    let r = run_download(&fs, "test/files", "test.txt");
    assert_eq!(status_of(&r), Some(Status::Forbidden));
    assert_eq!(r.unwrap_err().message, "Access denied");
}

#[test]
fn download_name_with_invalid_utf8_is_offered_lossily() {
    let mut action = download_file_handler(&state("/srv"), &FilePath { path: "x".to_string() });
    let mut name = b"/srv/a".to_vec();
    name.push(0xff);
    name.extend_from_slice(b"\"b");
    loop {
        action = match action {
            DownloadAction::Canonicalize(_, k) => k.resume(Ok(b"/srv".to_vec())),
            DownloadAction::CanonicalizeFile(_, k) => k.resume(Ok(name.clone())),
            DownloadAction::ReadMetadata(_, k) => k.resume(Ok(FileStat { is_file: true, is_dir: false, len: 3 })),
            DownloadAction::Open(_, k) => k.resume(Ok(())),
            DownloadAction::Serve(r) => {
                assert_eq!(r.content_disposition, "attachment; filename=\"a\u{fffd}b\"");
                break;
            }
            DownloadAction::Reject(r) => panic!("refused: {:?}", r),
        }
    }
}

fn run_upload(base: &str, headers: MetadataHeaders, made: &mut Vec<(String, Option<u64>)>) -> Result<Status, Reply> {
    let metadata = FileMetadata::from_headers(&headers)?;
    let mut action = upload_file_handler(&state(base), metadata);
    let mut current = String::new();
    loop {
        action = match action {
            UploadAction::CreateDir(p, k) => {
                assert_eq!(p, base.as_bytes());
                k.resume(Ok(()))
            }
            UploadAction::CreateFile(p, k) => {
                current = String::from_utf8(p).unwrap();
                made.push((current.clone(), None));
                k.resume(Ok(()))
            }
            UploadAction::WriteBody(k) => k.resume(Ok(())),
            UploadAction::SetModified(p, secs, k) => {
                assert_eq!(String::from_utf8(p).unwrap(), current);
                made.last_mut().unwrap().1 = Some(secs);
                k.resume(Ok(()))
            }
            UploadAction::Created => return Ok(Status::Created),
            UploadAction::Reject(r) => return Err(r),
        }
    }
}

fn headers(name: Option<&str>, time: Option<&str>, sub: Option<&str>) -> MetadataHeaders {
    MetadataHeaders {
        file_name: name.map(|s| s.as_bytes().to_vec()),
        file_time: time.map(|s| s.as_bytes().to_vec()),
        sub_dir: sub.map(|s| s.as_bytes().to_vec()),
    }
}

#[test]
fn test_upload_happy_path() {
    let mut made = Vec::new();
    let r = run_upload("/tmp/up", headers(Some("hello.txt"), None, None), &mut made);
    assert_eq!(r.unwrap(), Status::Created);
    assert_eq!(Status::Created.code(), 201);
    assert_eq!(made, vec![("/tmp/up/hello.txt".to_string(), None)]);
}

#[test]
fn test_upload_missing_filename_header() {
    let mut made = Vec::new();
    let r = run_upload("/tmp/up", headers(None, None, None), &mut made);
    let e = r.unwrap_err();
    assert_eq!(e.status, Status::BadRequest);
    assert_eq!(e.message, "Missing or invalid X-File-Name header");
    assert!(made.is_empty());
}

#[test]
fn test_upload_empty_filename() {
    let mut made = Vec::new();
    let r = run_upload("/tmp/up", headers(Some(""), None, None), &mut made);
    let e = r.unwrap_err();
    assert_eq!(e.status, Status::BadRequest);
    assert_eq!(e.message, "Invalid file name");
    assert!(made.is_empty());
}

#[test]
fn test_upload_traversal_sanitised() {
    let mut made = Vec::new();
    let r = run_upload("/tmp/up", headers(Some("../../etc/passwd"), None, None), &mut made);
    assert_eq!(r.unwrap(), Status::Created);
    assert_eq!(made, vec![("/tmp/up/passwd".to_string(), None)]);
}

#[test]
fn test_upload_optional_headers() {
    let mut made = Vec::new();
    let r = run_upload("/tmp/up", headers(Some("a.txt"), Some("2025-01-01"), Some("docs")), &mut made);
    assert_eq!(r.unwrap(), Status::Created);
    assert_eq!(made, vec![("/tmp/up/a.txt".to_string(), None)]);
}

#[test]
fn upload_with_time_sets_modification_time() {
    let mut made = Vec::new();
    let r = run_upload("/tmp/up/", headers(Some("b.txt"), Some("1700000000"), None), &mut made);
    assert_eq!(r.unwrap(), Status::Created);
    assert_eq!(made, vec![("/tmp/up/b.txt".to_string(), Some(1700000000))]);
    let mut made = Vec::new();
    run_upload("/tmp/up", headers(Some("c"), Some("-1"), None), &mut made).unwrap();
    assert_eq!(made, vec![("/tmp/up/c".to_string(), Some(u64::MAX))]);
}

#[test]
fn upload_source_directory_does_not_move_the_file() {
    for sub in ["/x", "../..", "docs/2024", ""] {
        let mut made = Vec::new();
        run_upload("/tmp/up", headers(Some("a.txt"), None, Some(sub)), &mut made).unwrap();
        assert_eq!(made, vec![("/tmp/up/a.txt".to_string(), None)], "{:?}", sub);
    }
}

#[test]
fn upload_names_without_final_name_are_refused() {
    for name in ["..", "/", "a/..", ".", "//"] {
        let mut made = Vec::new();
        let e = run_upload("/tmp/up", headers(Some(name), None, None), &mut made).unwrap_err();
        assert_eq!(e.message, "Invalid file name", "{:?}", name);
    }
}

#[test]
fn upload_failures_are_answered_with_500() {
    let metadata = FileMetadata::from_headers(&headers(Some("x"), None, None)).unwrap();
    match upload_file_handler(&state("/tmp/up"), metadata) {
        UploadAction::CreateDir(_, k) => match k.resume(Err(IoFailure { kind: IoErrorKind::Other, description: "disk full".to_string() })) {
            UploadAction::Reject(r) => {
                assert_eq!(r.status, Status::InternalServerError);
                assert_eq!(r.status.code(), 500);
                assert_eq!(r.message, "Failed to create storage directory: disk full");
            }
            _ => panic!("expected a refusal"),
        },
        _ => panic!("expected the directory to be created first"),
    }
}

#[test]
fn metadata_headers_are_read_as_text() {
    let m = FileMetadata::from_headers(&headers(Some("a.txt"), Some("+42"), Some("docs"))).unwrap();
    assert_eq!(m.filename, "a.txt");
    assert_eq!(m.filetime, Some(42));
    assert_eq!(m.sub_dir, Some("docs".to_string()));
    let m = FileMetadata::from_headers(&MetadataHeaders {
        file_name: Some(b"a.txt".to_vec()),
        file_time: Some(b"\xff".to_vec()),
        sub_dir: Some(b"d\xc3\xa9".to_vec()),
    })
    .unwrap();
    assert_eq!(m.filetime, None);
    assert_eq!(m.sub_dir, None);
    let e = FileMetadata::from_headers(&headers(Some("caf\u{e9}"), None, None)).unwrap_err();
    assert_eq!(e.status, Status::BadRequest);
}

fn run_delete(fs: &FakeFs, base: &str, path: &str, removed: &mut Vec<String>) -> Result<Status, Reply> {
    let mut action = delete_file_handler(&state(base), &FilePath { path: path.to_string() });
    let mut listing: Option<usize> = None;
    loop {
        action = match action {
            DeleteAction::Canonicalize(p, k) => k.resume(fs.canonicalize(&p)),
            DeleteAction::CanonicalizeFile(p, k) => k.resume(fs.canonicalize(&p)),
            DeleteAction::ReadMetadata(p, k) => k.resume(fs.stat(&p)),
            DeleteAction::RemoveFile(p, k) => {
                removed.push(String::from_utf8(p).unwrap());
                k.resume(Ok(()))
            }
            DeleteAction::ReadDir(p, k) => match fs.entries.get(std::str::from_utf8(&p).unwrap()) {
                Some(Entry::Dir(n)) => {
                    listing = Some(*n);
                    k.resume(Ok(()))
                }
                _ => k.resume(Err(not_found())),
            },
            DeleteAction::NextEntry(k) => k.resume(Ok(listing.unwrap() > 0)),
            DeleteAction::RemoveDir(p, k) => {
                removed.push(String::from_utf8(p).unwrap());
                k.resume(Ok(()))
            }
            DeleteAction::Deleted => return Ok(Status::Success),
            DeleteAction::Reject(r) => return Err(r),
        }
    }
}

#[test]
fn delete_file_and_empty_directory() {
    let mut removed = Vec::new();
    assert_eq!(run_delete(&files(), "test/files", "test.txt", &mut removed).unwrap(), Status::Success);
    assert_eq!(run_delete(&files(), "test/files", "empty", &mut removed).unwrap(), Status::Success);
    assert_eq!(removed, vec!["/work/test/files/test.txt".to_string(), "/work/test/files/empty".to_string()]);
    assert_eq!(Status::Success.code(), 200);
}

#[test]
fn delete_twice_succeeds_and_changes_nothing() {
    let mut fs = files();
    let mut removed = Vec::new();
    assert_eq!(run_delete(&fs, "test/files", "test.txt", &mut removed).unwrap(), Status::Success);
    for path in removed.clone() {
        fs.entries.remove(&path);
    }
    let mut again = Vec::new();
    assert_eq!(run_delete(&fs, "test/files", "test.txt", &mut again).unwrap(), Status::Success);
    assert!(again.is_empty());
}

#[test]
fn delete_missing_file_succeeds() {
    let mut removed = Vec::new();
    assert_eq!(run_delete(&files(), "test/files", "gone.txt", &mut removed).unwrap(), Status::Success);
    assert!(removed.is_empty());
}

#[test]
fn delete_refusals() {
    let mut removed = Vec::new();
    let e = run_delete(&files(), "test/files", "subdir", &mut removed).unwrap_err();
    assert_eq!((e.status, e.message.as_str()), (Status::Conflict, "Directory is not empty"));
    assert_eq!(Status::Conflict.code(), 409);
    let e = run_delete(&files(), "test/files", "escape/passwd", &mut removed).unwrap_err();
    assert_eq!((e.status, e.message.as_str()), (Status::Forbidden, "Access denied"));
    let e = run_delete(&files(), "test/files", "../x", &mut removed).unwrap_err();
    assert_eq!((e.status, e.message.as_str()), (Status::BadRequest, "file-path must not contain '..'"));
    let e = run_delete(&files(), "test/files", "  ", &mut removed).unwrap_err();
    assert_eq!((e.status, e.message.as_str()), (Status::BadRequest, "Invalid file-path header"));
    let e = run_delete(&files(), "nowhere", "x", &mut removed).unwrap_err();
    assert_eq!((e.status, e.message.as_str()), (Status::NotFound, "Base directory not found"));
    assert!(removed.is_empty());
}

#[test]
fn delete_remove_failures() {
    let mut action = delete_file_handler(&state("/srv"), &FilePath { path: "f".to_string() });
    loop {
        action = match action {
            DeleteAction::Canonicalize(_, k) => k.resume(Ok(b"/srv".to_vec())),
            DeleteAction::CanonicalizeFile(_, k) => k.resume(Ok(b"/srv/f".to_vec())),
            DeleteAction::ReadMetadata(_, k) => k.resume(Ok(FileStat { is_file: true, is_dir: false, len: 1 })),
            DeleteAction::RemoveFile(_, k) => k.resume(Err(IoFailure { kind: IoErrorKind::Other, description: "busy".to_string() })),
            DeleteAction::Reject(r) => {
                assert_eq!((r.status, r.message.as_str()), (Status::InternalServerError, "IO error: busy"));
                break;
            }
            _ => panic!("unexpected step"),
        }
    }
}

fn run_file_db(config_text: Result<&str, IoFailure>, parsed: Result<Config, String>, stat: Result<FileStat, IoFailure>) -> Result<FileReply, Reply> {
    let mut action = get_file_db_handler();
    let mut config_text = Some(config_text);
    let mut parsed = Some(parsed);
    let mut stat = Some(stat);
    loop {
        action = match action {
            FileDbAction::ReadConfig(p, k) => {
                assert_eq!(p, "config.toml");
                k.resume(config_text.take().unwrap().map(|s| s.to_string()))
            }
            FileDbAction::ParseConfig(_, k) => k.resume(parsed.take().unwrap()),
            FileDbAction::ReadMetadata(p, k) => {
                assert_eq!(p, b"/data/metadata.db");
                k.resume(stat.take().unwrap())
            }
            FileDbAction::Open(_, k) => k.resume(Ok(())),
            FileDbAction::Serve(r) => return Ok(r),
            FileDbAction::Reject(r) => return Err(r),
        }
    }
}

fn config() -> Config {
    Config { base_dir: "/srv".to_string(), port: 34890, file_db_path: "/data/metadata.db".to_string() }
}

#[test]
fn file_db_is_served() {
    let r = run_file_db(Ok("x"), Ok(config()), Ok(FileStat { is_file: true, is_dir: false, len: 5 })).unwrap();
    assert_eq!(r.len, 5);
    assert_eq!(r.content_disposition, "attachment; filename=\"metadata.db\"");
}

#[test]
fn file_db_answers_the_same_twice() {
    let stat = || Ok(FileStat { is_file: true, is_dir: false, len: 9 });
    let first = run_file_db(Ok("x"), Ok(config()), stat()).unwrap();
    let second = run_file_db(Ok("x"), Ok(config()), stat()).unwrap();
    assert_eq!((first.len, first.content_disposition), (second.len, second.content_disposition));
}

#[test]
fn file_db_refusals() {
    let e = run_file_db(Err(not_found()), Ok(config()), Ok(FileStat { is_file: true, is_dir: false, len: 5 })).unwrap_err();
    assert_eq!(e.status, Status::InternalServerError);
    assert_eq!(e.message, "Failed to read config file: No such file or directory (os error 2)");
    let e = run_file_db(Ok("x"), Err("bad toml".to_string()), Ok(FileStat { is_file: true, is_dir: false, len: 5 })).unwrap_err();
    assert_eq!(e.message, "Failed to parse config file: bad toml");
    let e = run_file_db(Ok("x"), Ok(config()), Ok(FileStat { is_file: false, is_dir: true, len: 5 })).unwrap_err();
    assert_eq!((e.status, e.message.as_str()), (Status::NotFound, "File DB not found"));
    let e = run_file_db(Ok("x"), Ok(config()), Err(not_found())).unwrap_err();
    assert_eq!((e.status, e.message.as_str()), (Status::NotFound, "File DB not found"));
}

#[test]
fn io_failures_are_classified() {
    let r = io_error_to_response(&not_found(), "File not found");
    assert_eq!((r.status, r.message.as_str()), (Status::NotFound, "File not found"));
    assert_eq!(Status::NotFound.code(), 404);
    let r = io_error_to_response(&IoFailure { kind: IoErrorKind::PermissionDenied, description: "x".to_string() }, "File not found");
    assert_eq!((r.status, r.message.as_str()), (Status::Forbidden, "Access denied"));
    assert_eq!(Status::Forbidden.code(), 403);
    let r = io_error_to_response(&IoFailure { kind: IoErrorKind::Other, description: "boom".to_string() }, "File not found");
    assert_eq!((r.status, r.message.as_str()), (Status::InternalServerError, "IO error: boom"));
}

#[test]
fn refresh_answers_and_relay() {
    assert!(file_searcher_daemon().ends_with("file_searcher_deamon_v5"));
    let r = refresh_spawn_failed(&IoFailure { kind: IoErrorKind::NotFound, description: "missing".to_string() });
    assert_eq!((r.status, r.message.as_str()), (Status::InternalServerError, "failed to spawn file_searcher_deamon_v5: missing"));
    let r = refresh_stdout_missing();
    assert_eq!(r.message, "failed to capture stdout from file_searcher_deamon_v5");
    let started = refresh_started();
    assert_eq!(started.status, Status::Success);
    assert_eq!(started.content_type, "text/plain; charset=utf-8");
    assert_eq!(started.connection, "close");
    assert_eq!(relay_step(Ok(0)), RelayStep::Stop);
    assert_eq!(relay_step(Ok(17)), RelayStep::Forward(17));
    assert_eq!(relay_step(Err(not_found())), RelayStep::Stop);
}

#[test]
fn state_from_config() {
    let s = AppState::from_config(&config());
    assert_eq!(s.base_dir, b"/srv".to_vec());
}
