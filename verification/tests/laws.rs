use filesearcherv5_web::download::{download_file_handler, DownloadAction};
use filesearcherv5_web::reply::FileStat;
use filesearcherv5_web::path::{file_name, has_parent_dir, is_absolute, path_components, push_path, starts_with, Component};
use filesearcherv5_web::reply::safe_filename;
use filesearcherv5_web::request::{AppState, FileMetadata, FilePath, MetadataHeaders};
use filesearcherv5_web::text::header_text;
use filesearcherv5_web::upload::{upload_file_handler, UploadAction};

fn upload_destination(base: &str, name: &str, sub: Option<&str>) -> Option<Vec<u8>> {
    let metadata = FileMetadata::from_headers(&MetadataHeaders {
        file_name: Some(name.as_bytes().to_vec()),
        file_time: None,
        sub_dir: sub.map(|s| s.as_bytes().to_vec()),
    })
    .unwrap();
    let mut action = upload_file_handler(&AppState { base_dir: base.as_bytes().to_vec() }, metadata);
    loop {
        action = match action {
            UploadAction::CreateDir(_, k) => k.resume(Ok(())),
            UploadAction::CreateFile(p, _) => return Some(p),
            UploadAction::Reject(_) => return None,
            _ => panic!("unexpected step"),
        }
    }
}

#[test]
fn file_name_of_a_file_name_is_itself() {
    for p in ["a/b/c.txt", "../../etc/passwd", "/x/y/", "./z", "a/./b/."] {
        let n = file_name(p.as_bytes()).unwrap();
        assert_eq!(file_name(&n), Some(n.clone()));
    }
}

#[test]
fn uploads_land_directly_in_the_storage_directory() {
    for name in ["../../etc/passwd", "/abs/olute.txt", "a/b/../c", "./d", "plain"] {
        let d = upload_destination("/srv/up", name, None).unwrap();
        let base = path_components(b"/srv/up");
        let dest = path_components(&d);
        assert!(starts_with(&d, b"/srv/up"), "{:?}", name);
        assert_eq!(dest.len(), base.len() + 1);
        assert!(matches!(dest.last(), Some(Component::Normal(_))));
        assert_eq!(file_name(&d), file_name(name.as_bytes()));
    }
    let d = upload_destination("/srv/up", "../x.txt", Some("/elsewhere")).unwrap();
    assert_eq!(d, b"/srv/up/x.txt".to_vec());
}

#[test]
fn uploaded_names_can_be_requested() {
    for name in ["hello.txt", "../../etc/passwd", "dir/report.pdf"] {
        let d = upload_destination("/srv/up", name, None).unwrap();
        let n = file_name(name.as_bytes()).unwrap();
        assert!(!is_absolute(&n));
        assert!(!has_parent_dir(&n));
        assert_eq!(push_path(b"/srv/up", &n), d);
    }
}

#[test]
fn joined_relative_paths_stay_below() {
    for r in ["a", "a/b", "./a/./b", "a//b/", "", "."] {
        let j = push_path(b"/srv/files", r.as_bytes());
        assert!(starts_with(&j, b"/srv/files"), "{:?}", r);
        let extra = &path_components(&j)[path_components(b"/srv/files").len()..];
        assert!(extra.iter().all(|c| !matches!(c, Component::ParentDir | Component::RootDir)));
    }
}

#[test]
fn safe_names_are_stable() {
    for s in ["a\"b", "x\u{1}y", "ok", "\u{9f}\""] {
        let once = safe_filename(s);
        assert!(!once.chars().any(|c| c.is_control() || c == '"'));
        assert_eq!(safe_filename(&once), once);
    }
}

#[test]
fn header_text_keeps_the_bytes() {
    for b in [&b"a/b.txt"[..], b"with space", b"tab\there"] {
        let t = header_text(b).unwrap();
        assert_eq!(t.as_bytes(), b);
    }
}

#[test]
fn test_upload_then_download_roundtrip() {
    let stored = upload_destination("/tmp/rt", "roundtrip.txt", None).unwrap();
    assert_eq!(stored, b"/tmp/rt/roundtrip.txt".to_vec());
    let mut action = download_file_handler(
        &AppState { base_dir: b"/tmp/rt".to_vec() },
        &FilePath { path: "roundtrip.txt".to_string() },
    );
    loop {
        action = match action {
            DownloadAction::Canonicalize(p, k) => k.resume(Ok(p)),
            DownloadAction::CanonicalizeFile(p, k) => {
                assert_eq!(p, stored);
                k.resume(Ok(p))
            }
            DownloadAction::ReadMetadata(_, k) => k.resume(Ok(FileStat { is_file: true, is_dir: false, len: 17 })),
            DownloadAction::Open(p, k) => {
                assert_eq!(p, stored);
                k.resume(Ok(()))
            }
            DownloadAction::Serve(r) => {
                assert_eq!(r.len, 17);
                assert_eq!(r.content_disposition, "attachment; filename=\"roundtrip.txt\"");
                break;
            }
            DownloadAction::Reject(r) => panic!("refused: {:?}", r),
        }
    }
}
