use std::io::Write;

use upmc::archive::{
    detect_common_prefix, is_traversal, plan_settings_extraction, plan_strip_extraction,
    read_zip_entries, zip_open, SettingsAction, ZipEntry,
};
use upmc::errors::UpdateErrorKind;

fn build_zip(entries: &[(&str, Option<&[u8]>)]) -> Vec<u8> {
    let cursor = std::io::Cursor::new(Vec::new());
    let mut writer = zip::ZipWriter::new(cursor);
    let options: zip::write::SimpleFileOptions = Default::default();
    for (name, data) in entries {
        match data {
            Some(bytes) => {
                writer.start_file(name.to_string(), options).expect("start file");
                writer.write_all(bytes).expect("write data");
            }
            None => {
                writer.add_directory(name.to_string(), options).expect("add dir");
            }
        }
    }
    writer.finish().expect("finish").into_inner()
}

fn entry(name: &str, is_dir: bool, data: &[u8]) -> ZipEntry {
    ZipEntry { name: name.to_string(), is_dir, data: data.to_vec() }
}

#[test]
fn zip_reader_reports_real_entries() {
    let data = build_zip(&[("pkg/", None), ("pkg/bin/tool.exe", Some(b"MZ...")), ("pkg/lib/data", Some(b"d"))]);
    let mut archive = zip_open(data).expect("open");
    let entries = read_zip_entries(&mut archive).expect("read");
    assert_eq!(entries.len(), 3);
    assert_eq!(entries[0].name, "pkg/");
    assert!(entries[0].is_dir);
    assert_eq!(entries[1].name, "pkg/bin/tool.exe");
    assert!(!entries[1].is_dir);
    assert_eq!(entries[1].data, b"MZ...".to_vec());
    assert_eq!(entries[2].name, "pkg/lib/data");
}

#[test]
fn corrupt_archive_is_refused() {
    assert!(zip_open(b"not a zip at all".to_vec()).is_err());
}

#[test]
fn strip_prefix_removes_the_shared_top_directory() {
    let entries = vec![
        entry("pkg/bin/tool.exe", false, b"x"),
        entry("pkg/lib/data", false, b"y"),
    ];
    let plan = plan_strip_extraction(&entries);
    assert_eq!(plan.len(), 2);
    assert_eq!(plan[0].as_deref(), Some("bin/tool.exe"));
    assert_eq!(plan[1].as_deref(), Some("lib/data"));
}

#[test]
fn no_common_first_segment_means_no_stripping() {
    let entries = vec![
        entry("pkg/bin/tool.exe", false, b"x"),
        entry("other/lib/data", false, b"y"),
    ];
    let plan = plan_strip_extraction(&entries);
    assert_eq!(plan[0].as_deref(), Some("pkg/bin/tool.exe"));
    assert_eq!(plan[1].as_deref(), Some("other/lib/data"));
}

#[test]
fn the_top_directory_entry_itself_is_skipped() {
    let entries = vec![
        entry("jdk-21/", true, b""),
        entry("jdk-21/bin/java.exe", false, b"j"),
    ];
    let plan = plan_strip_extraction(&entries);
    assert_eq!(plan[0], None);
    assert_eq!(plan[1].as_deref(), Some("bin/java.exe"));
}

#[test]
fn common_prefix_detection_matches_the_policy() {
    let shared = vec![entry("a/x", false, b""), entry("a/y", false, b"")];
    assert_eq!(detect_common_prefix(&shared).as_deref(), Some("a/"));
    let mixed = vec![entry("a/x", false, b""), entry("b/y", false, b"")];
    assert_eq!(detect_common_prefix(&mixed), None);
    let empty: Vec<ZipEntry> = Vec::new();
    assert_eq!(detect_common_prefix(&empty), None);
}

#[test]
fn merge_extraction_never_overwrites_existing_files() {
    let entries = vec![
        entry("options.txt", false, b"new options"),
        entry("config/", true, b""),
        entry("config/new.txt", false, b"fresh"),
    ];
    let dest_exists = vec![true, false, false];
    let plan = plan_settings_extraction(&entries, &dest_exists).expect("plan");
    assert!(matches!(plan[0], SettingsAction::Skip));
    match &plan[1] {
        SettingsAction::MakeDir(p) => assert_eq!(p, "config/"),
        other => panic!("expected MakeDir, got {:?}", action_name(other)),
    }
    match &plan[2] {
        SettingsAction::Write(p) => assert_eq!(p, "config/new.txt"),
        other => panic!("expected Write, got {:?}", action_name(other)),
    }
}

fn action_name(a: &SettingsAction) -> &'static str {
    match a {
        SettingsAction::Skip => "Skip",
        SettingsAction::MakeDir(_) => "MakeDir",
        SettingsAction::Write(_) => "Write",
    }
}

#[test]
fn traversal_entries_fail_the_whole_settings_archive() {
    let entries = vec![
        entry("fine.txt", false, b"ok"),
        entry("../evil.txt", false, b"bad"),
    ];
    let dest_exists = vec![false, false];
    let err = plan_settings_extraction(&entries, &dest_exists).expect_err("rejected");
    assert!(matches!(err.kind, UpdateErrorKind::Filesystem));
}

#[test]
fn traversal_detection_covers_the_escape_shapes() {
    assert!(is_traversal("../x"));
    assert!(is_traversal("a/../x"));
    assert!(is_traversal("a\\..\\x"));
    assert!(is_traversal("/abs"));
    assert!(is_traversal("\\abs"));
    assert!(is_traversal("C:evil"));
    assert!(!is_traversal("a/b/c.txt"));
    assert!(!is_traversal("..a/b"));
    assert!(!is_traversal("a..b"));
}
