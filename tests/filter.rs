use livesplit_overlay::filter::{append_mime_desc, build_filter, FileFilter};

fn desc(top: &str, sub: &str) -> String {
    let mut out = String::new();
    append_mime_desc(top, sub, &mut out);
    out
}

#[test]
fn mime_description_capitalizes_and_upcases_acronyms() {
    assert_eq!(desc("text", "plain"), "Plain text files (");
    assert_eq!(desc("image", "png"), "PNG images (");
    assert_eq!(desc("audio", "*"), "Audio files (");
    assert_eq!(desc("(video)", "*"), "Video files (");
}

#[test]
fn mime_description_strips_prefixes() {
    assert_eq!(desc("application", "x-rar"), "RAR application files (");
    assert_eq!(desc("application", "vnd.x-foo"), "FOO application files (");
    assert_eq!(desc("application", "vnd.ms-excel"), "MS excel application files (");
    assert_eq!(desc("application", "vnd.foobar"), "Foobar application files (");
}

#[test]
fn mime_description_appends_to_existing_output() {
    let mut out = String::from("head;;");
    append_mime_desc("text", "csv", &mut out);
    assert_eq!(out, "head;;CSV text files (");
}

#[test]
fn filter_with_description() {
    let mut out = String::new();
    let filters = vec![FileFilter::Name { description: Some("  LiveSplit (Splits)  ".to_string()), pattern: "*.lss".to_string() }];
    build_filter(&filters, &mut out);
    assert_eq!(out, "LiveSplit Splits (*.lss);;All files (*.*)");
}

#[test]
fn filter_from_known_extension() {
    let mut out = String::new();
    let filters = vec![FileFilter::Name { description: None, pattern: "*.json".to_string() }];
    build_filter(&filters, &mut out);
    assert_eq!(out, "JSON application files (*.json);;All files (*.*)");
}

#[test]
fn filter_from_unknown_extensions() {
    let mut out = String::new();
    let filters = vec![
        FileFilter::Name { description: None, pattern: "*.zzq *.qqz *.xyzw".to_string() },
        FileFilter::Name { description: None, pattern: "save*".to_string() },
    ];
    build_filter(&filters, &mut out);
    assert_eq!(out, "ZZQ, QQZ or XYZW files (*.zzq *.qqz *.xyzw);;save* (save*);;All files (*.*)");
}

#[test]
fn filter_skips_unusable_entries() {
    let mut out = String::new();
    let filters = vec![
        FileFilter::Name { description: None, pattern: "*.a;;*.b".to_string() },
        FileFilter::MimeType("*/*".to_string()),
        FileFilter::MimeType("nonsense".to_string()),
        FileFilter::MimeType("image/png".to_string()),
    ];
    build_filter(&filters, &mut out);
    assert_eq!(out, "PNG images (*.png *.pnz);;All files (*.*)");
}

#[test]
fn empty_filter_list_offers_all_files() {
    let mut out = String::new();
    build_filter(&[], &mut out);
    assert_eq!(out, "All files (*.*)");
}
