use zip2repo::error::Zip2RepoError;
use zip2repo::zip::extract::{check_http_status, entry_action, zip_source, EntryAction, ZipSource};

#[test]
fn local_paths_are_read_from_disk() {
    assert_eq!(zip_source("./source.zip").unwrap(), ZipSource::Local);
    assert_eq!(zip_source("http://example.com/a.zip").unwrap(), ZipSource::Local);
}

#[test]
fn https_urls_are_downloaded() {
    assert_eq!(zip_source("https://example.com/source.zip").unwrap(), ZipSource::Https);
}

#[test]
fn bad_https_url_is_a_network_error() {
    match zip_source("https://") {
        Err(Zip2RepoError::Network(s)) => assert_eq!(s, "bad url: empty host"),
        other => panic!("unexpected {:?}", other),
    }
    match zip_source("https://exa mple.com/x.zip") {
        Err(Zip2RepoError::Network(s)) => assert_eq!(s, "bad url: invalid international domain name"),
        other => panic!("unexpected {:?}", other),
    }
}

#[test]
fn http_status_check() {
    assert!(check_http_status(200).is_ok());
    assert!(check_http_status(204).is_ok());
    assert!(check_http_status(299).is_ok());
    match check_http_status(404) {
        Err(Zip2RepoError::Network(s)) => assert_eq!(s, "http status 404 Not Found"),
        other => panic!("unexpected {:?}", other),
    }
    match check_http_status(302) {
        Err(Zip2RepoError::Network(s)) => assert_eq!(s, "http status 302 Found"),
        other => panic!("unexpected {:?}", other),
    }
    match check_http_status(599) {
        Err(Zip2RepoError::Network(s)) => assert_eq!(s, "http status 599 <unknown status code>"),
        other => panic!("unexpected {:?}", other),
    }
}

#[test]
fn entry_actions() {
    assert_eq!(entry_action("dir/", None), EntryAction::CreateDir);
    assert_eq!(entry_action("dir/", Some(0o120777)), EntryAction::CreateDir);
    assert_eq!(entry_action("link", Some(0o120777)), EntryAction::SkipSymlink);
    assert_eq!(entry_action("file.txt", Some(0o100644)), EntryAction::WriteFile);
    assert_eq!(entry_action("file.txt", None), EntryAction::WriteFile);
    assert_eq!(entry_action("", None), EntryAction::WriteFile);
}
