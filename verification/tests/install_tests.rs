use upmc::errors::UpdateErrorKind;
use upmc::install::{
    client_jar_url, fabric_install_args, fixed_isolation_content, install_outcome,
    manifest_version_url, plan_mods_cleanup, plan_version_cleanup,
};
use upmc::packwiz::{diagnose_sync_failure, sync_args, sync_outcome};

fn strings(v: &[&str]) -> Vec<String> {
    v.iter().map(|s| s.to_string()).collect()
}

#[test]
fn version_cleanup_keeps_only_the_new_tag() {
    let dirs = strings(&["fabric-loader-0.16.9-1.21.4", "fabric-loader-0.18.4-1.21.11", "1.20.1"]);
    let doomed = plan_version_cleanup(&dirs, "fabric-loader-0.18.4-1.21.11");
    assert_eq!(doomed, strings(&["fabric-loader-0.16.9-1.21.4", "1.20.1"]));
}

#[test]
fn mods_cleanup_deletes_only_jar_files() {
    let files = strings(&["sodium.jar", "options.txt", "lithium.jar", "notes.jar.bak"]);
    let doomed = plan_mods_cleanup(&files);
    assert_eq!(doomed, strings(&["sodium.jar", "lithium.jar"]));
}

#[test]
fn a_file_named_exactly_dot_jar_has_no_extension_and_survives() {
    let files = strings(&[".jar", "x.jar"]);
    let doomed = plan_mods_cleanup(&files);
    assert_eq!(doomed, strings(&["x.jar"]));
}

#[test]
fn isolation_enabled_is_rewritten_to_disabled() {
    let content = "Logo=x\r\nVersionArgumentIndieV2:True\r\n";
    let fixed = fixed_isolation_content(Some(content)).expect("rewrite needed");
    assert_eq!(fixed, "Logo=x\r\nVersionArgumentIndieV2:False\r\n");
}

#[test]
fn missing_isolation_key_is_appended() {
    let fixed = fixed_isolation_content(Some("Logo=x")).expect("append needed");
    assert_eq!(fixed, "Logo=x\nVersionArgumentIndieV2:False\n");
    let fixed = fixed_isolation_content(Some("Logo=x\n")).expect("append needed");
    assert_eq!(fixed, "Logo=x\nVersionArgumentIndieV2:False\n");
}

#[test]
fn already_disabled_isolation_needs_no_write() {
    assert!(fixed_isolation_content(Some("VersionArgumentIndieV2:False\n")).is_none());
}

#[test]
fn missing_settings_file_is_created_disabled() {
    assert_eq!(fixed_isolation_content(None).expect("create"), "VersionArgumentIndieV2:False\n");
}

#[test]
fn installer_arguments_follow_the_contract() {
    let args = fabric_install_args("updater/fabric-installer.jar", ".minecraft", "1.21.11", "0.18.4");
    assert_eq!(
        args,
        strings(&[
            "-jar",
            "updater/fabric-installer.jar",
            "client",
            "-dir",
            ".minecraft",
            "-mcversion",
            "1.21.11",
            "-loader",
            "0.18.4",
            "-noprofile",
        ])
    );
}

#[test]
fn installer_outcome_is_exit_code_zero() {
    assert!(install_outcome(true, "", "").is_ok());
    let e = install_outcome(false, "out", "err").expect_err("nonzero exit fails");
    assert!(matches!(e.kind, UpdateErrorKind::ExternalProcessFailed));
    assert!(e.message().contains("out"));
    assert!(e.message().contains("err"));
}

#[test]
fn sync_outcome_is_exit_code_zero_with_diagnosis() {
    assert!(sync_outcome(Some(0), "", "").is_ok());
    let e = sync_outcome(Some(1), "", "SSLHandshakeException: boom").expect_err("fails");
    assert!(matches!(e.kind, UpdateErrorKind::ExternalProcessFailed));
    let msg = e.message();
    assert!(msg.contains("SSL/TLS"));
    // the exit code, the captured output and the advice all appear
    assert!(msg.contains("退出码: 1"));
    assert!(msg.contains("SSLHandshakeException: boom"));
    assert!(msg.contains("建议"));
    // a killed process is reported as such
    let e = sync_outcome(None, "out", "err").expect_err("killed process fails");
    assert!(e.message().contains("未知（进程被终止）"));
    let e = sync_outcome(Some(-6), "", "").expect_err("negative code fails");
    assert!(e.message().contains("退出码: -6"));
}

#[test]
fn sync_diagnosis_names_known_signatures() {
    let d = diagnose_sync_failure("", "java.net.UnknownHostException: example");
    assert!(d.contains("网络连接失败或超时"));
    let d = diagnose_sync_failure("Access denied writing mods", "");
    assert!(d.contains("文件访问权限不足"));
    // an unexceptional output earns no hints at all
    assert_eq!(diagnose_sync_failure("all fine", "nothing here"), "");
    // the generic runtime hint only without a more specific sign
    let d = diagnose_sync_failure("java.lang.IllegalStateException", "");
    assert!(d.contains("Java 异常"));
    let d = diagnose_sync_failure("connection refused; java.lang.RuntimeException", "");
    assert!(!d.contains("Java 异常"));
}

#[test]
fn sync_invocation_is_headless_client_mode() {
    let args = sync_args("https://example.invalid/pack.toml");
    assert_eq!(args[1], "updater/packwiz-installer-bootstrap.jar");
    assert_eq!(args[2], "-g");
    assert_eq!(args[3], "-s");
    assert_eq!(args[4], "client");
    assert_eq!(args[5], "https://example.invalid/pack.toml");
}

#[test]
fn vanilla_urls_are_read_from_the_manifests() {
    let manifest = "{\"versions\":[{\"id\":\"1.20.1\",\"url\":\"https://example.invalid/old.json\"},\
         {\"id\":\"1.21.11\",\"url\":\"https://example.invalid/new.json\"}]}";
    assert_eq!(
        manifest_version_url(manifest, "1.21.11").as_deref(),
        Some("https://example.invalid/new.json")
    );
    assert_eq!(
        manifest_version_url(manifest, "1.20.1").as_deref(),
        Some("https://example.invalid/old.json")
    );
    assert!(manifest_version_url(manifest, "0.0.0").is_none());
    assert!(manifest_version_url("not json", "1.21.11").is_none());

    let version_doc = "{\"downloads\":{\"client\":{\"url\":\"https://example.invalid/client.jar\"}}}";
    assert_eq!(client_jar_url(version_doc).as_deref(), Some("https://example.invalid/client.jar"));
    assert!(client_jar_url("{}").is_none());
}
