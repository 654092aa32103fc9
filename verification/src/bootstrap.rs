//! First-run bootstrap: decide which components are missing and plan the
//! downloads, extractions and seed files that install them, without
//! touching the machine itself.

use vstd::prelude::*;

use crate::config::{DEFAULT_JRE_URL, DEFAULT_PACKWIZ_BOOTSTRAP_URL, PCL2_SETUP_INI};
use crate::errors::{UpdateError, UpdateErrorKind};
use crate::version::Downloads;

verus! {

/// Which of the installed artifacts are already present on disk.
pub struct ComponentPresence {
    /// The Java runtime launcher inside the managed runtime directory.
    pub jre_java: bool,
    /// The primary launcher executable.
    pub pcl2: bool,
    /// The content-sync bootstrap archive.
    pub packwiz_jar: bool,
    /// The component installer archive.
    pub fabric_jar: bool,
    /// The launcher's seed settings file.
    pub setup_ini: bool,
    /// The run-once marker of the default-settings install.
    pub settings_marker: bool,
}

/// First-run bootstrap is required iff any of the three key components is
/// absent.
pub fn needs_bootstrap(pcl2: bool, packwiz_jar: bool, fabric_jar: bool) -> (r: bool)
    ensures
        r == !(pcl2 && packwiz_jar && fabric_jar),
{
    !(pcl2 && packwiz_jar && fabric_jar)
}

/// The installation can run offline iff the primary launcher is present.
pub fn is_bootstrapped(pcl2: bool) -> (r: bool)
    ensures
        r == pcl2,
{
    pcl2
}

/// The URL a component download uses: the manifest's, or the built-in
/// fallback for components that have one.
pub open spec fn chosen_url(configured: Option<String>, fallback: Seq<char>) -> Seq<char> {
    match configured {
        Some(u) => u@,
        None => fallback,
    }
}

/// A planned download: fetch `url` into the relative path `dest`.
#[derive(Debug)]
pub struct PlannedDownload {
    pub url: String,
    pub dest: String,
}

/// The first-run bootstrap plan. The surrounding binary performs the
/// parts in declaration order: directories, runtime, launcher, sync tool,
/// component installer, launcher seed settings, default settings.
#[derive(Debug)]
pub struct BootstrapPlan {
    /// Directories to create, parents included.
    pub dirs: Vec<String>,
    /// Runtime install, when the runtime launcher is absent: download the
    /// archive, extract it strip-prefix into `jre/`, delete the archive,
    /// then demand that `jre/bin/java.exe` exists (a missing-component
    /// failure otherwise).
    pub jre: Option<PlannedDownload>,
    /// Launcher download, when absent.
    pub pcl2: Option<PlannedDownload>,
    /// Content-sync bootstrap download, when absent.
    pub packwiz: Option<PlannedDownload>,
    /// Component-installer download, when absent.
    pub fabric: Option<PlannedDownload>,
    /// Launcher seed settings to write, when absent.
    pub setup_ini: Option<String>,
    /// Default-settings archive to fetch and apply merge-without-overwrite
    /// into the content root, when the run-once marker is absent and the
    /// manifest names a source.
    pub settings: Option<PlannedDownload>,
    /// Whether the run-once settings marker must be written afterwards.
    pub write_settings_marker: bool,
}

/// Plan the first-run bootstrap for the given presence and manifest
/// download locations.
///
/// The launcher and the component installer have no fallback location:
/// when either is missing and the manifest names no source, the whole
/// bootstrap is refused as malformed remote data. Every other missing
/// component falls back to its built-in source. The default-settings
/// archive is applied only once, guarded by its persisted marker.
pub fn plan_bootstrap(presence: &ComponentPresence, downloads: &Downloads) -> (r: Result<
    BootstrapPlan,
    UpdateError,
>)
    ensures
        r is Err <==> ((!presence.pcl2 && downloads.pcl2_url is None) || (!presence.fabric_jar
            && downloads.fabric_installer_url is None)),
        r matches Err(e) ==> e.kind == UpdateErrorKind::RemoteDataMalformed,
        r matches Ok(plan) ==> {
            &&& (plan.jre matches Some(d) ==> d.url@ == chosen_url(
                downloads.jre_url,
                DEFAULT_JRE_URL@,
            ) && d.dest@ == "updater/jre-download.zip"@)
            &&& (plan.jre is Some <==> !presence.jre_java)
            &&& (plan.pcl2 matches Some(d) ==> (downloads.pcl2_url matches Some(u) && d.url@ == u@
                && d.dest@ == "Plain Craft Launcher 2.exe"@))
            &&& (plan.pcl2 is Some <==> !presence.pcl2)
            &&& (plan.packwiz matches Some(d) ==> d.url@ == chosen_url(
                downloads.packwiz_bootstrap_url,
                DEFAULT_PACKWIZ_BOOTSTRAP_URL@,
            ) && d.dest@ == "updater/packwiz-installer-bootstrap.jar"@)
            &&& (plan.packwiz is Some <==> !presence.packwiz_jar)
            &&& (plan.fabric matches Some(d) ==> (downloads.fabric_installer_url matches Some(u)
                && d.url@ == u@ && d.dest@ == "updater/fabric-installer.jar"@))
            &&& (plan.fabric is Some <==> !presence.fabric_jar)
            &&& (plan.setup_ini matches Some(c) ==> c@ == PCL2_SETUP_INI@)
            &&& (plan.setup_ini is Some <==> !presence.setup_ini)
            &&& (plan.settings matches Some(d) ==> (downloads.settings_url matches Some(u)
                && d.url@ == u@ && d.dest@ == "updater/settings-download.zip"@))
            &&& (plan.settings is Some <==> (!presence.settings_marker
                && downloads.settings_url is Some))
            &&& plan.write_settings_marker == !presence.settings_marker
        },
{
    if !presence.pcl2 && downloads.pcl2_url.is_none() {
        return Err(
            UpdateError::new(
                UpdateErrorKind::RemoteDataMalformed,
                String::from_str("server.json 中未配置 PCL2 下载地址 (downloads.pcl2_url)"),
            ),
        );
    }
    if !presence.fabric_jar && downloads.fabric_installer_url.is_none() {
        return Err(
            UpdateError::new(
                UpdateErrorKind::RemoteDataMalformed,
                String::from_str(
                    "server.json 中未配置 Fabric 安装器下载地址 (downloads.fabric_installer_url)",
                ),
            ),
        );
    }
    let mut dirs: Vec<String> = Vec::new();
    dirs.push(String::from_str("PCL"));
    dirs.push(String::from_str(".minecraft"));
    dirs.push(String::from_str(".minecraft/mods"));
    dirs.push(String::from_str(".minecraft/config"));
    dirs.push(String::from_str("updater"));
    let jre = if !presence.jre_java {
        let url = match &downloads.jre_url {
            Some(u) => u.clone(),
            None => String::from_str(DEFAULT_JRE_URL),
        };
        Some(PlannedDownload { url, dest: String::from_str("updater/jre-download.zip") })
    } else {
        None
    };
    let pcl2 = if !presence.pcl2 {
        match &downloads.pcl2_url {
            Some(u) => Some(
                PlannedDownload {
                    url: u.clone(),
                    dest: String::from_str("Plain Craft Launcher 2.exe"),
                },
            ),
            None => None,
        }
    } else {
        None
    };
    let packwiz = if !presence.packwiz_jar {
        let url = match &downloads.packwiz_bootstrap_url {
            Some(u) => u.clone(),
            None => String::from_str(DEFAULT_PACKWIZ_BOOTSTRAP_URL),
        };
        Some(
            PlannedDownload {
                url,
                dest: String::from_str("updater/packwiz-installer-bootstrap.jar"),
            },
        )
    } else {
        None
    };
    let fabric = if !presence.fabric_jar {
        match &downloads.fabric_installer_url {
            Some(u) => Some(
                PlannedDownload {
                    url: u.clone(),
                    dest: String::from_str("updater/fabric-installer.jar"),
                },
            ),
            None => None,
        }
    } else {
        None
    };
    let setup_ini = if !presence.setup_ini {
        Some(String::from_str(PCL2_SETUP_INI))
    } else {
        None
    };
    let settings = if !presence.settings_marker {
        match &downloads.settings_url {
            Some(u) => Some(
                PlannedDownload {
                    url: u.clone(),
                    dest: String::from_str("updater/settings-download.zip"),
                },
            ),
            None => None,
        }
    } else {
        None
    };
    Ok(
        BootstrapPlan {
            dirs,
            jre,
            pcl2,
            packwiz,
            fabric,
            setup_ini,
            settings,
            write_settings_marker: !presence.settings_marker,
        },
    )
}

/// Where the install root lives and whether a migration is attempted
/// first: identical paths or an already-populated new location use the new
/// path directly; only a populated legacy location with no new one is
/// migrated.
#[derive(Debug)]
pub enum BaseDirDecision {
    UseNew,
    MigrateLegacy,
}

/// Decide the install root given what exists on disk.
pub fn base_dir_decision(paths_equal: bool, legacy_exists: bool, new_exists: bool) -> (r:
    BaseDirDecision)
    ensures
        r == (if !paths_equal && legacy_exists && !new_exists {
            BaseDirDecision::MigrateLegacy
        } else {
            BaseDirDecision::UseNew
        }),
{
    if !paths_equal && legacy_exists && !new_exists {
        BaseDirDecision::MigrateLegacy
    } else {
        BaseDirDecision::UseNew
    }
}

/// After an attempted migration: a failed rename falls back to the legacy
/// location rather than losing the installation.
pub fn base_dir_after_migration(rename_ok: bool) -> (r: bool)
    ensures
        r == rename_ok,
{
    rename_ok
}

/// After the runtime archive is extracted, its launcher must exist: its
/// absence is the user-actionable missing-component failure.
pub fn runtime_check(java_present: bool) -> (r: Result<(), UpdateError>)
    ensures
        r is Ok <==> java_present,
        r matches Err(e) ==> e.kind == UpdateErrorKind::ComponentRuntimeMissing,
{
    if java_present {
        Ok(())
    } else {
        Err(
            UpdateError::new(
                UpdateErrorKind::ComponentRuntimeMissing,
                String::from_str("JRE 解压后找不到 java.exe，请联系管理员"),
            ),
        )
    }
}

} // verus!
