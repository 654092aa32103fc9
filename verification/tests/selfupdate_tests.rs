use upmc::config::UpdateChannel;
use upmc::errors::UpdateErrorKind;
use upmc::selfupdate::{
    apply_replacement, needs_self_update, replace_extension, self_update_old_path,
    self_update_temp_path, updater_info_from_json, verify_exe_image, ReplaceState,
    UpdaterVersionInfo,
};

fn info(version: &str, build_id: Option<&str>) -> UpdaterVersionInfo {
    UpdaterVersionInfo {
        version: version.to_string(),
        download_url: "https://example.invalid/upmc.exe".to_string(),
        build_id: build_id.map(|s| s.to_string()),
    }
}

#[test]
fn stable_updates_only_on_strictly_newer_remote() {
    assert!(needs_self_update(UpdateChannel::Stable, "0.3.5", None, &info("0.3.6", None)));
    assert!(!needs_self_update(UpdateChannel::Stable, "0.3.5", None, &info("0.3.5", None)));
    assert!(!needs_self_update(UpdateChannel::Stable, "0.3.5", None, &info("0.3.4", None)));
    // malformed versions never trigger an update
    assert!(!needs_self_update(UpdateChannel::Stable, "0.3.5", None, &info("latest", None)));
    assert!(!needs_self_update(UpdateChannel::Stable, "dev", None, &info("9.9.9", None)));
}

#[test]
fn dev_updates_on_any_build_id_difference() {
    assert!(needs_self_update(UpdateChannel::Dev, "0.0.0", Some("abc1234"), &info("x", Some("def5678"))));
    assert!(!needs_self_update(UpdateChannel::Dev, "0.0.0", Some("abc1234"), &info("x", Some("abc1234"))));
    // local build id missing: update
    assert!(needs_self_update(UpdateChannel::Dev, "0.0.0", None, &info("x", Some("abc1234"))));
    // remote build id missing: no update available
    assert!(!needs_self_update(UpdateChannel::Dev, "0.0.0", Some("abc1234"), &info("x", None)));
    assert!(!needs_self_update(UpdateChannel::Dev, "0.0.0", None, &info("x", None)));
}

#[test]
fn image_verification_demands_nonempty_and_magic() {
    assert!(verify_exe_image(1024, &b"MZthis is a pe file".to_vec()));
    assert!(!verify_exe_image(0, &b"MZ".to_vec()));
    assert!(!verify_exe_image(1024, &b"ZM wrong order".to_vec()));
    assert!(!verify_exe_image(1024, &b"PK archive".to_vec()));
    assert!(!verify_exe_image(1, &b"M".to_vec()));
}

#[test]
fn staging_paths_replace_the_extension() {
    assert_eq!(replace_extension("C:\\Users\\me\\upmc.exe", "exe.new"), "C:\\Users\\me\\upmc.exe.new");
    assert_eq!(replace_extension("dir/upmc.exe", "exe.old"), "dir/upmc.exe.old");
    assert_eq!(replace_extension("noext", "exe.new"), "noext.exe.new");
    assert_eq!(replace_extension("dir/.hidden", "exe.new"), "dir/.hidden.exe.new");
    assert_eq!(self_update_temp_path("upmc.exe"), "upmc.exe.new");
    assert_eq!(self_update_old_path("upmc.exe"), "upmc.exe.old");
}

#[test]
fn replacement_installs_the_staged_image_exactly_and_clears_it() {
    let state = ReplaceState {
        installed: b"old binary".to_vec(),
        staged: Some(b"new binary content".to_vec()),
    };
    let after = apply_replacement(state);
    assert_eq!(after.installed, b"new binary content".to_vec());
    assert!(after.staged.is_none());
}

#[test]
fn replacement_without_a_staged_image_changes_nothing() {
    let state = ReplaceState { installed: b"old binary".to_vec(), staged: None };
    let after = apply_replacement(state);
    assert_eq!(after.installed, b"old binary".to_vec());
    assert!(after.staged.is_none());
}

#[test]
fn updater_info_requires_version_and_download_url() {
    let ok = updater_info_from_json(
        "{\"version\":\"0.3.6\",\"download_url\":\"https://example.invalid/u.exe\",\"build_id\":\"abc1234\"}",
    )
    .expect("parses");
    assert_eq!(ok.version, "0.3.6");
    assert_eq!(ok.download_url, "https://example.invalid/u.exe");
    assert_eq!(ok.build_id.as_deref(), Some("abc1234"));

    let err = updater_info_from_json("{\"download_url\":\"x\"}").expect_err("version missing");
    assert!(matches!(err.kind, UpdateErrorKind::RemoteDataMalformed));
    let err = updater_info_from_json("{\"version\":\"1.0.0\"}").expect_err("url missing");
    assert!(matches!(err.kind, UpdateErrorKind::RemoteDataMalformed));
    let err = updater_info_from_json("not json").expect_err("unparseable");
    assert!(matches!(err.kind, UpdateErrorKind::RemoteDataMalformed));
}
