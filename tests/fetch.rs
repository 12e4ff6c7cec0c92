use livesplit_overlay::catalog::{AutoSplitterList, List};
use livesplit_overlay::fetch::{
    get_list, AutoSplitterListManager, GetAutoSplitterListFromFileError, GetAutoSplitterListFromGithubError, ListFetch,
};

fn list_with_source(source: &str) -> List {
    List::from_source(source.to_string(), AutoSplitterList { auto_splitters: Vec::new() })
}

fn remote_error() -> GetAutoSplitterListFromGithubError {
    GetAutoSplitterListFromGithubError::DeserializationError(quick_xml::DeError::Custom("bad document".to_string()))
}

#[test]
fn remote_success_is_used_and_persisted() {
    let fetch = ListFetch::start();
    assert!(fetch.wants_remote());
    let fetch = fetch.on_remote(Ok(list_with_source("remote")));
    assert!(!fetch.wants_local());
    assert!(fetch.should_persist());
    let list = fetch.finish().ok().unwrap();
    assert_eq!(list.source, "remote");
}

#[test]
fn failing_remote_falls_back_to_cache() {
    let fetch = ListFetch::start().on_remote(Err(remote_error()));
    assert!(fetch.wants_local());
    let fetch = fetch.on_local(Ok(list_with_source("cached")));
    assert!(!fetch.should_persist());
    match &fetch {
        ListFetch::Loaded { list, remote_error: Some(GetAutoSplitterListFromGithubError::DeserializationError(e)) } => {
            assert_eq!(list.source, "cached");
            assert!(format!("{e}").contains("bad document"));
        }
        _ => panic!("expected the cached catalog with the remote error"),
    }
    assert_eq!(fetch.finish().ok().unwrap().source, "cached");
}

#[test]
fn both_failures_are_reported() {
    let fetch = ListFetch::start().on_remote(Err(remote_error()));
    let local = GetAutoSplitterListFromFileError::IoError(std::io::Error::new(std::io::ErrorKind::NotFound, "no cache"));
    let fetch = fetch.on_local(Err(local));
    assert!(!fetch.should_persist());
    match fetch.finish() {
        Err((GetAutoSplitterListFromGithubError::DeserializationError(_), GetAutoSplitterListFromFileError::IoError(e))) => {
            assert_eq!(e.kind(), std::io::ErrorKind::NotFound);
        }
        _ => panic!("expected both errors"),
    }
}

#[test]
fn manager_after_failed_fetch_is_empty() {
    let local = GetAutoSplitterListFromFileError::IoError(std::io::Error::new(std::io::ErrorKind::NotFound, "no cache"));
    let manager = AutoSplitterListManager::new(Err((remote_error(), local)));
    assert!(manager.is_ok().is_err());
    assert!(get_list(&manager).inner.auto_splitters.is_empty());
    assert!(get_list(&manager).get_for_game("Foo").is_none());
}
