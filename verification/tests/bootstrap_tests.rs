use upmc::bootstrap::{
    base_dir_after_migration, base_dir_decision, is_bootstrapped, needs_bootstrap, plan_bootstrap,
    BaseDirDecision, ComponentPresence,
};
use upmc::errors::UpdateErrorKind;
use upmc::version::Downloads;

fn all_present() -> ComponentPresence {
    ComponentPresence {
        jre_java: true,
        pcl2: true,
        packwiz_jar: true,
        fabric_jar: true,
        setup_ini: true,
        settings_marker: true,
    }
}

fn nothing_present() -> ComponentPresence {
    ComponentPresence {
        jre_java: false,
        pcl2: false,
        packwiz_jar: false,
        fabric_jar: false,
        setup_ini: false,
        settings_marker: false,
    }
}

fn full_downloads() -> Downloads {
    Downloads {
        jre_url: Some("https://example.invalid/jre.zip".to_string()),
        pcl2_url: Some("https://example.invalid/pcl2.exe".to_string()),
        packwiz_bootstrap_url: Some("https://example.invalid/packwiz.jar".to_string()),
        fabric_installer_url: Some("https://example.invalid/fabric.jar".to_string()),
        settings_url: Some("https://example.invalid/settings.zip".to_string()),
    }
}

#[test]
fn bootstrap_is_needed_when_any_key_component_is_missing() {
    assert!(!needs_bootstrap(true, true, true));
    assert!(needs_bootstrap(false, true, true));
    assert!(needs_bootstrap(true, false, true));
    assert!(needs_bootstrap(true, true, false));
    assert!(is_bootstrapped(true));
    assert!(!is_bootstrapped(false));
}

#[test]
fn fresh_install_plans_every_component() {
    let plan = plan_bootstrap(&nothing_present(), &full_downloads()).expect("plans");
    assert_eq!(plan.dirs.len(), 5);
    let jre = plan.jre.expect("jre download");
    assert_eq!(jre.url, "https://example.invalid/jre.zip");
    assert_eq!(jre.dest, "updater/jre-download.zip");
    let pcl2 = plan.pcl2.expect("launcher download");
    assert_eq!(pcl2.dest, "Plain Craft Launcher 2.exe");
    assert!(plan.packwiz.is_some());
    assert!(plan.fabric.is_some());
    assert!(plan.setup_ini.is_some());
    let settings = plan.settings.expect("settings download");
    assert_eq!(settings.url, "https://example.invalid/settings.zip");
    assert!(plan.write_settings_marker);
}

#[test]
fn complete_install_plans_nothing_but_directories() {
    let plan = plan_bootstrap(&all_present(), &full_downloads()).expect("plans");
    assert!(plan.jre.is_none());
    assert!(plan.pcl2.is_none());
    assert!(plan.packwiz.is_none());
    assert!(plan.fabric.is_none());
    assert!(plan.setup_ini.is_none());
    assert!(plan.settings.is_none());
    assert!(!plan.write_settings_marker);
}

#[test]
fn runtime_and_sync_tool_fall_back_to_builtin_sources() {
    let plan = plan_bootstrap(
        &ComponentPresence { jre_java: false, packwiz_jar: false, ..all_present() },
        &Downloads::none(),
    )
    .expect("plans with fallbacks");
    assert!(plan.jre.expect("jre").url.contains("Adoptium"));
    assert!(plan.packwiz.expect("packwiz").url.contains("packwiz-installer-bootstrap"));
}

#[test]
fn missing_required_sources_refuse_the_bootstrap() {
    let e = plan_bootstrap(&ComponentPresence { pcl2: false, ..all_present() }, &Downloads::none())
        .expect_err("launcher source required");
    assert!(matches!(e.kind, UpdateErrorKind::RemoteDataMalformed));
    let e = plan_bootstrap(
        &ComponentPresence { fabric_jar: false, ..all_present() },
        &Downloads::none(),
    )
    .expect_err("installer source required");
    assert!(matches!(e.kind, UpdateErrorKind::RemoteDataMalformed));
}

#[test]
fn settings_marker_guards_the_run_once_install() {
    // marker present: the settings archive is never re-applied
    let plan = plan_bootstrap(
        &ComponentPresence { settings_marker: true, ..nothing_present() },
        &full_downloads(),
    )
    .expect("plans");
    assert!(plan.settings.is_none());
    assert!(!plan.write_settings_marker);
    // marker absent but no source: only the marker is written
    let plan = plan_bootstrap(
        &ComponentPresence { settings_marker: false, ..all_present() },
        &Downloads::none(),
    )
    .expect("plans");
    assert!(plan.settings.is_none());
    assert!(plan.write_settings_marker);
}

#[test]
fn install_root_migration_follows_the_probe() {
    assert!(matches!(base_dir_decision(true, true, true), BaseDirDecision::UseNew));
    assert!(matches!(base_dir_decision(false, true, true), BaseDirDecision::UseNew));
    assert!(matches!(base_dir_decision(false, false, false), BaseDirDecision::UseNew));
    assert!(matches!(base_dir_decision(false, true, false), BaseDirDecision::MigrateLegacy));
    assert!(base_dir_after_migration(true));
    assert!(!base_dir_after_migration(false));
}
