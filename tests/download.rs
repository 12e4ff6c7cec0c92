use livesplit_overlay::catalog::{AutoSplitter, AutoSplitterList, Games, List, Urls};
use livesplit_overlay::download::{
    choose_file_name, file_name_for, file_name_from_url, is_module_file, requested_file_name, DownloadedFile,
    SplitterDownload, FALLBACK_FILE_NAME,
};
use livesplit_overlay::paths::{get_path, list_file_path};

fn entry(urls: &[&str]) -> AutoSplitter {
    AutoSplitter {
        games: Games { games: vec!["Foo".to_string()] },
        urls: Urls { urls: urls.iter().map(|u| u.to_string()).collect() },
        module_type: None,
        script_type: Some("AutoSplittingRuntime".to_string()),
        description: String::new(),
        website: None,
    }
}

#[test]
fn declared_name_wins() {
    let name = file_name_for(Some(b"attachment; filename=\"splitter.wasm\""), "https://example.org/files/other.wasm");
    assert_eq!(name, "splitter.wasm");
}

#[test]
fn name_from_url_is_percent_decoded() {
    assert_eq!(file_name_from_url("https://example.org/files/my%20splitter.wasm").as_deref(), Some("my splitter.wasm"));
    assert_eq!(file_name_for(None, "https://example.org/a/b/settings.json"), "settings.json");
    assert_eq!(file_name_for(Some(b"inline"), "https://example.org/x/plain.wasm"), "plain.wasm");
}

#[test]
fn fallback_name_when_nothing_names_the_file() {
    assert_eq!(file_name_for(None, "not a url"), FALLBACK_FILE_NAME);
    assert_eq!(file_name_for(None, "https://example.org/dir/"), "Unknown.wasm");
    assert_eq!(choose_file_name(Some(String::new()), None), "Unknown.wasm");
}

#[test]
fn choose_prefers_declared_then_url() {
    assert_eq!(choose_file_name(Some("a.wasm".into()), Some("b.wasm".into())), "a.wasm");
    assert_eq!(choose_file_name(None, Some("b.wasm".into())), "b.wasm");
    assert_eq!(choose_file_name(Some(String::new()), Some("b.wasm".into())), "b.wasm");
}

#[test]
fn requested_name_skips_other_parameters() {
    assert_eq!(requested_file_name(b"attachment; size=10; filename=x.wasm").as_deref(), Some("x.wasm"));
    assert_eq!(requested_file_name(b"attachment; size=10"), None);
}

#[test]
fn module_files_are_recognised_by_extension() {
    assert!(is_module_file("splitter.wasm"));
    assert!(!is_module_file(".wasm"));
    assert!(!is_module_file("splitter.json"));
    assert!(!is_module_file("splitter.wasm.bak"));
    assert!(!is_module_file("splitter.WASM"));
}

#[test]
fn one_failed_url_does_not_stop_acquisition() {
    let e = entry(&[
        "https://example.org/missing.wasm",
        "https://example.org/settings.json",
        "https://example.org/splitter.wasm",
    ]);
    let mut download = SplitterDownload::new(&e);
    assert_eq!(download.next_url(), Some("https://example.org/missing.wasm"));
    download.on_failed();
    let url = download.next_url().unwrap().to_string();
    download.on_saved(DownloadedFile::in_dir("/cache", file_name_for(None, &url)));
    let url = download.next_url().unwrap().to_string();
    download.on_saved(DownloadedFile::in_dir("/cache", file_name_for(None, &url)));
    assert_eq!(download.next_url(), None);
    assert_eq!(download.found_module(), Some("/cache/splitter.wasm"));
}

#[test]
fn no_module_among_saved_files_gives_none() {
    let e = entry(&["https://example.org/a.json", "https://example.org/b.txt"]);
    let mut download = SplitterDownload::new(&e);
    while let Some(url) = download.next_url().map(|u| u.to_string()) {
        download.on_saved(DownloadedFile::in_dir("/cache", file_name_for(None, &url)));
    }
    assert_eq!(download.found_module(), None);
}

#[test]
fn first_module_is_chosen() {
    let e = entry(&["https://example.org/one.wasm", "https://example.org/two.wasm"]);
    let mut download = SplitterDownload::new(&e);
    while let Some(url) = download.next_url().map(|u| u.to_string()) {
        download.on_saved(DownloadedFile::in_dir("/cache", file_name_for(None, &url)));
    }
    assert_eq!(download.found_module(), Some("/cache/one.wasm"));
}

#[test]
fn download_for_unknown_game_is_none() {
    let list = List::from_source(String::new(), AutoSplitterList { auto_splitters: vec![entry(&["https://e.org/x.wasm"])] });
    assert!(SplitterDownload::for_game(&list, "Bar").is_none());
    let d = SplitterDownload::for_game(&list, "Foo").unwrap();
    assert_eq!(d.next_url(), Some("https://e.org/x.wasm"));
}

#[test]
fn paths_are_joined() {
    assert_eq!(get_path("/config/plugin"), "/config/plugin/auto-splitters");
    assert_eq!(list_file_path("/config/plugin"), "/config/plugin/LiveSplit.AutoSplitters.xml");
}

fn acquire(urls: &[&str], failing: &str) -> (Option<String>, Vec<String>) {
    let e = entry(urls);
    let mut download = SplitterDownload::new(&e);
    let mut tried = Vec::new();
    while let Some(url) = download.next_url().map(|u| u.to_string()) {
        tried.push(url.clone());
        if url == failing {
            download.on_failed();
        } else {
            download.on_saved(DownloadedFile::in_dir("/cache", file_name_for(None, &url)));
        }
    }
    (download.found_module().map(str::to_string), tried)
}

#[test]
fn failed_url_in_any_position_is_skipped() {
    let missing = "https://example.org/missing.wasm";
    let wasm = "https://example.org/x.wasm";
    let json = "https://example.org/y.json";
    for order in [[missing, wasm, json], [wasm, missing, json], [wasm, json, missing], [json, wasm, missing], [json, missing, wasm]] {
        let (module, tried) = acquire(&order, missing);
        assert_eq!(tried, order.to_vec());
        assert_eq!(module.as_deref(), Some("/cache/x.wasm"));
    }
}
