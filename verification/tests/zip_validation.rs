use std::io::{Cursor, Write};
use zip::write::SimpleFileOptions;
use zip::ZipWriter;
use zip2repo::error::Zip2RepoError;
use zip2repo::zip::extract::{extraction_plan, open_zip, EntryAction};
use zip2repo::zip::validate::validate_zip;

/// Helper: create an in-memory zip with the given entries.
fn make_zip(entries: &[(&str, &[u8])]) -> Vec<u8> {
    let mut buf = Cursor::new(Vec::new());
    {
        let mut zw = ZipWriter::new(&mut buf);
        let options = SimpleFileOptions::default();
        for (name, data) in entries {
            zw.start_file(*name, options).unwrap();
            zw.write_all(data).unwrap();
        }
        zw.finish().unwrap();
    }
    buf.into_inner()
}

fn validate_bytes(data: Vec<u8>) -> Result<(), Zip2RepoError> {
    let cursor = Cursor::new(bytes::Bytes::from(data));
    let archive = zip::ZipArchive::new(cursor).unwrap();
    validate_zip(archive)
}

fn detail(e: &Zip2RepoError) -> String {
    match e {
        Zip2RepoError::ZipValidation(s) => s.clone(),
        other => panic!("unexpected error {:?}", other),
    }
}

#[test]
fn valid_zip_passes() {
    let data = make_zip(&[("hello.txt", b"hello world")]);
    let cursor = Cursor::new(bytes::Bytes::from(data));
    let archive = zip::ZipArchive::new(cursor).unwrap();
    let result = zip2repo::zip::validate::validate_zip(archive);
    assert!(result.is_ok());
}

#[test]
fn absolute_path_rejected() {
    let data = make_zip(&[("/etc/passwd", b"nope")]);
    let cursor = Cursor::new(bytes::Bytes::from(data));
    let archive = zip::ZipArchive::new(cursor).unwrap();
    let result = zip2repo::zip::validate::validate_zip(archive);
    assert!(result.is_err());
    let msg = result.unwrap_err().message();
    assert!(msg.contains("absolute path"));
}

#[test]
fn path_traversal_rejected() {
    let data = make_zip(&[("foo/../../../etc/passwd", b"nope")]);
    let cursor = Cursor::new(bytes::Bytes::from(data));
    let archive = zip::ZipArchive::new(cursor).unwrap();
    let result = zip2repo::zip::validate::validate_zip(archive);
    assert!(result.is_err());
    let msg = result.unwrap_err().message();
    assert!(msg.contains("path traversal"));
}

#[test]
fn multiple_valid_entries() {
    let data = make_zip(&[
        ("src/main.rs", b"fn main() {}"),
        ("Cargo.toml", b"[package]"),
        ("README.md", b"# Hello"),
    ]);
    let cursor = Cursor::new(bytes::Bytes::from(data));
    let archive = zip::ZipArchive::new(cursor).unwrap();
    let result = zip2repo::zip::validate::validate_zip(archive);
    assert!(result.is_ok());
}

#[test]
fn absolute_path_message_is_exact() {
    let e = validate_bytes(make_zip(&[("/etc/passwd", b"nope")])).unwrap_err();
    assert_eq!(e.message(), "zip validation failed: absolute path entry rejected: /etc/passwd");
    assert_eq!(detail(&e), "absolute path entry rejected: /etc/passwd");
}

#[test]
fn backslash_absolute_path_rejected() {
    let e = validate_bytes(make_zip(&[("\\windows\\system32", b"x")])).unwrap_err();
    assert_eq!(detail(&e), "absolute path entry rejected: \\windows\\system32");
}

#[test]
fn drive_letter_rejected() {
    let e = validate_bytes(make_zip(&[("C:/boot.ini", b"x")])).unwrap_err();
    assert_eq!(detail(&e), "drive-letter path rejected: C:/boot.ini");
}

#[test]
fn colon_later_in_name_is_allowed() {
    assert!(validate_bytes(make_zip(&[("docs/a:b.txt", b"x")])).is_ok());
}

#[test]
fn backslash_traversal_rejected() {
    let e = validate_bytes(make_zip(&[("a\\..\\..\\b", b"x")])).unwrap_err();
    assert_eq!(detail(&e), "path traversal rejected: a\\..\\..\\b");
}

#[test]
fn trailing_parent_segment_rejected() {
    let e = validate_bytes(make_zip(&[("a/..", b"x")])).unwrap_err();
    assert_eq!(detail(&e), "path traversal rejected: a/..");
}

#[test]
fn dots_inside_a_name_are_not_traversal() {
    assert!(validate_bytes(make_zip(&[("a/..b/c", b"x"), ("...", b"y"), ("x../y", b"z")])).is_ok());
}

#[test]
fn first_bad_entry_decides() {
    let e = validate_bytes(make_zip(&[("ok.txt", b"x"), ("../up", b"y"), ("/abs", b"z")])).unwrap_err();
    assert_eq!(detail(&e), "path traversal rejected: ../up");
}

#[test]
fn empty_archive_passes() {
    assert!(validate_bytes(make_zip(&[])).is_ok());
}

fn many_entries(n: usize) -> Vec<u8> {
    let mut buf = Cursor::new(Vec::new());
    {
        let mut zw = ZipWriter::new(&mut buf);
        let options = SimpleFileOptions::default().compression_method(zip::CompressionMethod::Stored);
        for i in 0..n {
            zw.start_file(format!("f{}", i), options).unwrap();
        }
        zw.finish().unwrap();
    }
    buf.into_inner()
}

#[test]
fn file_count_limit_is_inclusive() {
    assert!(validate_bytes(many_entries(50_000)).is_ok());
}

#[test]
fn too_many_files_rejected() {
    let e = validate_bytes(many_entries(50_001)).unwrap_err();
    assert_eq!(detail(&e), "zip file count exceeds limit");
}

/// A one-entry archive whose central directory claims `size` uncompressed bytes.
fn claimed_size_zip(size: u32) -> Vec<u8> {
    let mut buf = Cursor::new(Vec::new());
    {
        let mut zw = ZipWriter::new(&mut buf);
        let options = SimpleFileOptions::default().compression_method(zip::CompressionMethod::Stored);
        zw.start_file("big.bin", options).unwrap();
        zw.write_all(b"data").unwrap();
        zw.finish().unwrap();
    }
    let mut data = buf.into_inner();
    let pos = data
        .windows(4)
        .position(|w| w == [0x50, 0x4b, 0x01, 0x02])
        .unwrap();
    data[pos + 24..pos + 28].copy_from_slice(&size.to_le_bytes());
    data
}

#[test]
fn size_limit_is_inclusive() {
    assert!(validate_bytes(claimed_size_zip(512 * 1024 * 1024)).is_ok());
}

#[test]
fn too_many_bytes_rejected() {
    let e = validate_bytes(claimed_size_zip(512 * 1024 * 1024 + 1)).unwrap_err();
    assert_eq!(detail(&e), "zip uncompressed bytes exceeds limit");
}

#[test]
fn sizes_add_up_across_entries() {
    let mut buf = Cursor::new(Vec::new());
    {
        let mut zw = ZipWriter::new(&mut buf);
        let options = SimpleFileOptions::default().compression_method(zip::CompressionMethod::Stored);
        zw.start_file("a.bin", options).unwrap();
        zw.write_all(b"aaaa").unwrap();
        zw.start_file("b.bin", options).unwrap();
        zw.write_all(b"bbbb").unwrap();
        zw.finish().unwrap();
    }
    let mut data = buf.into_inner();
    let sig = [0x50, 0x4b, 0x01, 0x02];
    let positions: Vec<usize> = (0..data.len() - 3).filter(|&i| data[i..i + 4] == sig).collect();
    assert_eq!(positions.len(), 2);
    for p in positions {
        data[p + 24..p + 28].copy_from_slice(&(300u32 * 1024 * 1024).to_le_bytes());
    }
    let e = validate_bytes(data).unwrap_err();
    assert_eq!(detail(&e), "zip uncompressed bytes exceeds limit");
}

#[test]
fn open_zip_accepts_an_archive() {
    let data = make_zip(&[("hello.txt", b"hello world")]);
    let archive = open_zip(data).unwrap();
    assert!(validate_zip(archive).is_ok());
}

#[test]
fn open_zip_rejects_garbage() {
    let e = open_zip(b"not a zip".to_vec()).err().unwrap();
    match e {
        Zip2RepoError::ZipValidation(s) => assert!(!s.is_empty()),
        other => panic!("unexpected error {:?}", other),
    }
}

#[test]
fn extraction_plan_follows_the_entries() {
    let mut buf = Cursor::new(Vec::new());
    {
        let mut zw = ZipWriter::new(&mut buf);
        let options = SimpleFileOptions::default();
        zw.add_directory("docs/", options).unwrap();
        zw.start_file("docs/a.txt", options).unwrap();
        zw.write_all(b"a").unwrap();
        zw.add_symlink("link", "docs/a.txt", options).unwrap();
        zw.start_file("b.txt", options).unwrap();
        zw.write_all(b"b").unwrap();
        zw.finish().unwrap();
    }
    let mut archive = zip::ZipArchive::new(Cursor::new(bytes::Bytes::from(buf.into_inner()))).unwrap();
    let plan = extraction_plan(&mut archive);
    assert!(plan.stop.is_none());
    let got: Vec<(usize, String, EntryAction)> = plan.entries.into_iter().map(|p| (p.index, p.name, p.action)).collect();
    assert_eq!(
        got,
        vec![
            (0, "docs/".to_string(), EntryAction::CreateDir),
            (1, "docs/a.txt".to_string(), EntryAction::WriteFile),
            (2, "link".to_string(), EntryAction::SkipSymlink),
            (3, "b.txt".to_string(), EntryAction::WriteFile),
        ]
    );
    // The archive can still be read after planning.
    assert!(validate_zip(archive).is_ok());
}

/// Two stored entries; the local header of the second is damaged, so the
/// `zip` crate cannot open that entry.
fn damaged_second_entry() -> Vec<u8> {
    let mut buf = Cursor::new(Vec::new());
    {
        let mut zw = ZipWriter::new(&mut buf);
        let options = SimpleFileOptions::default().compression_method(zip::CompressionMethod::Stored);
        zw.start_file("a.txt", options).unwrap();
        zw.write_all(b"aaaa").unwrap();
        zw.start_file("b.txt", options).unwrap();
        zw.write_all(b"bbbb").unwrap();
        zw.finish().unwrap();
    }
    let mut data = buf.into_inner();
    let sig = [0x50, 0x4b, 0x03, 0x04];
    let positions: Vec<usize> = (0..data.len() - 3).filter(|&i| data[i..i + 4] == sig).collect();
    assert_eq!(positions.len(), 2);
    data[positions[1]] = 0;
    data
}

#[test]
fn unreadable_entry_stops_validation_and_extraction_alike() {
    let data = damaged_second_entry();
    let v = validate_zip(open_zip(data.clone()).unwrap()).unwrap_err();
    let mut archive = open_zip(data).unwrap();
    let plan = extraction_plan(&mut archive);
    assert_eq!(plan.entries.len(), 1);
    assert_eq!(plan.entries[0].name, "a.txt");
    let stop = plan.stop.unwrap();
    assert_eq!(detail(&stop), detail(&v));
    assert!(!detail(&v).is_empty());
}

#[test]
fn not_a_zip_is_refused_with_the_zip_message() {
    match open_zip(b"not a zip".to_vec()) {
        Err(Zip2RepoError::ZipValidation(s)) => assert!(!s.is_empty()),
        Err(other) => panic!("unexpected {:?}", other),
        Ok(_) => panic!("opened"),
    }
}
