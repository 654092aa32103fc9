//! Configuration constants, the update channel model, and channel
//! resolution from launch arguments.

use vstd::prelude::*;
use vstd::string::StrSliceExecFns;

use crate::jsonout::{append_json_string, spec_json_string};
use crate::jsonval::{json_str_field_of, json_str_field_text, opt_view};
use crate::text::{eq_str, eq_str_lower, lower_char};

verus! {

broadcast use vstd::string::group_string_axioms;

// ── Remote endpoints ──

pub const REMOTE_SERVER_JSON_URL: &'static str = "https://update.mc.chenjicheng.cn/server.json";

/// Version document of the updater itself, stable channel.
pub const UPDATER_VERSION_URL: &'static str = "https://upmc.chenjicheng.cn/version.json";

/// Version document of the updater itself, dev channel.
pub const UPDATER_DEV_VERSION_URL: &'static str = "https://upmc.chenjicheng.cn/dev/version.json";

// ── Local paths, relative to the install root ──

pub const LOCAL_VERSION_FILE: &'static str = "updater/local.json";

pub const CHANNEL_CONFIG_FILE: &'static str = "updater/channel.json";

pub const PACKWIZ_BOOTSTRAP_JAR: &'static str = "updater/packwiz-installer-bootstrap.jar";

pub const FABRIC_INSTALLER_JAR: &'static str = "updater/fabric-installer.jar";

pub const MINECRAFT_DIR: &'static str = ".minecraft";

pub const PCL2_EXE: &'static str = "Plain Craft Launcher 2.exe";

pub const SETTINGS_MARKER_FILE: &'static str = "updater/.settings_installed";

/// Install subdirectory under the user's documents folder.
pub const INSTALL_DIR_NAME: &'static str = "CJC整合包";

/// Opened for the user when no Java runtime can be found.
pub const JAVA_DOWNLOAD_URL: &'static str =
    "https://mirrors.tuna.tsinghua.edu.cn/Adoptium/21/jre/x64/windows";

/// Fallback Java runtime archive when the manifest gives no location.
pub const DEFAULT_JRE_URL: &'static str =
    "https://mirrors.tuna.tsinghua.edu.cn/Adoptium/21/jre/x64/windows/OpenJDK21U-jre_x64_windows_hotspot_21.0.5_11.zip";

/// Fallback content-sync bootstrap location.
pub const DEFAULT_PACKWIZ_BOOTSTRAP_URL: &'static str =
    "https://github.com/packwiz/packwiz-installer-bootstrap/releases/latest/download/packwiz-installer-bootstrap.jar";

// ── Timeouts and retry policy ──

/// Request timeout for small documents, seconds.
pub const HTTP_TIMEOUT_SECS: u64 = 30;

/// Request timeout for large downloads, seconds.
pub const DOWNLOAD_TIMEOUT_SECS: u64 = 600;

/// Attempts allowed for each network operation, first try included.
pub const RETRY_MAX_ATTEMPTS: u32 = 3;

/// Wait before the first retry, seconds; doubled before each further one.
pub const RETRY_BASE_DELAY_SECS: u64 = 3;

// ── Launcher configuration written on first run ──

/// Launcher settings installed once on bootstrap: no version isolation (the
/// content sync tool fills `.minecraft/` directly), hidden download page,
/// default window size.
pub const PCL2_SETUP_INI: &'static str = "; ===== 服务器专属启动器 =====\r\nLogo=我的服务器\r\nLogoSub=专属启动器\r\n; 不隔离版本，使用 .minecraft 作为游戏目录\r\nVersionArgumentIndie=1\r\n; 隐藏下载页面\r\nHiddenPageDownload=True\r\n; 默认游戏窗口大小 720p\r\nLaunchArgumentWindowWidth=1280\r\nLaunchArgumentWindowHeight=720\r\n";

// ── Update channels ──

/// The channel a self-update follows.
#[derive(Clone, Copy, PartialEq, Eq, Debug, Structural)]
pub enum UpdateChannel {
    /// Follows tagged releases; freshness by semantic-version comparison.
    Stable,
    /// Follows the latest development build; freshness by build id.
    Dev,
}

impl Default for UpdateChannel {
    /// The channel used when none was ever chosen.
    fn default() -> (r: UpdateChannel)
        ensures
            r == UpdateChannel::Stable,
    {
        UpdateChannel::Stable
    }
}

/// Persisted channel selection. `dev_build_id` records the build installed
/// by the last dev-channel self-update; it is cleared whenever the channel
/// is switched to stable.
#[derive(Debug, Clone)]
pub struct ChannelConfig {
    pub channel: UpdateChannel,
    pub dev_build_id: Option<String>,
}

impl ChannelConfig {
    /// The configuration used when none is persisted.
    pub fn default_config() -> (r: ChannelConfig)
        ensures
            r.channel == UpdateChannel::Stable,
            r.dev_build_id is None,
    {
        ChannelConfig { channel: UpdateChannel::Stable, dev_build_id: None }
    }
}

/// The version document to consult for the given channel.
pub fn updater_version_url(channel: UpdateChannel) -> (r: &'static str)
    ensures
        channel == UpdateChannel::Stable ==> r@ == UPDATER_VERSION_URL@,
        channel == UpdateChannel::Dev ==> r@ == UPDATER_DEV_VERSION_URL@,
{
    match channel {
        UpdateChannel::Stable => UPDATER_VERSION_URL,
        UpdateChannel::Dev => UPDATER_DEV_VERSION_URL,
    }
}

/// ASCII-lowercased view of a string.
pub open spec fn spec_lower(s: Seq<char>) -> Seq<char> {
    s.map_values(|c: char| lower_char(c))
}

/// The channel the launch arguments select, scanning from index `i` with
/// `cur` already chosen: each `--channel` with a following value is
/// consumed as a pair; `dev` and `stable` (any ASCII case) pick a channel,
/// any other value leaves the choice as it was.
pub open spec fn spec_cli_channel(
    args: Seq<Seq<char>>,
    i: int,
    cur: Option<UpdateChannel>,
) -> Option<UpdateChannel>
    decreases args.len() - i,
{
    if i < 0 || i >= args.len() {
        cur
    } else if args[i] == "--channel"@ && i + 1 < args.len() {
        let v = spec_lower(args[i + 1]);
        if v == "dev"@ {
            spec_cli_channel(args, i + 2, Some(UpdateChannel::Dev))
        } else if v == "stable"@ {
            spec_cli_channel(args, i + 2, Some(UpdateChannel::Stable))
        } else {
            spec_cli_channel(args, i + 2, cur)
        }
    } else {
        spec_cli_channel(args, i + 1, cur)
    }
}

/// Scan launch arguments (program name first) for a `--channel` override.
pub fn cli_channel(args: &Vec<String>) -> (r: Option<UpdateChannel>)
    requires
        args@.len() >= 1,
    ensures
        r == spec_cli_channel(args@.map_values(|s: String| s@), 1, None),
{
    let ghost vargs = args@.map_values(|s: String| s@);
    let mut cur: Option<UpdateChannel> = None;
    let mut i: usize = 1;
    while i < args.len()
        invariant
            vargs == args@.map_values(|s: String| s@),
            vargs.len() == args@.len(),
            1 <= i,
            spec_cli_channel(vargs, 1, None) == spec_cli_channel(vargs, i as int, cur),
        decreases args@.len() - i,
    {
        if eq_str(args[i].as_str(), "--channel") && i + 1 < args.len() {
            if eq_str_lower(args[i + 1].as_str(), "dev") {
                cur = Some(UpdateChannel::Dev);
            } else if eq_str_lower(args[i + 1].as_str(), "stable") {
                cur = Some(UpdateChannel::Stable);
            }
            i += 2;
        } else {
            i += 1;
        }
    }
    cur
}

/// Merge a command-line channel override into the persisted configuration.
///
/// Returns the configuration to use and whether it must be persisted. A
/// switch to the stable channel clears the recorded dev build id; with no
/// override the persisted configuration is returned untouched.
pub fn resolve_channel(args: &Vec<String>, persisted: ChannelConfig) -> (r: (ChannelConfig, bool))
    requires
        args@.len() >= 1,
    ensures
        match spec_cli_channel(args@.map_values(|s: String| s@), 1, None) {
            Some(c) => {
                &&& r.1 == true
                &&& r.0.channel == c
                &&& c == UpdateChannel::Stable ==> r.0.dev_build_id is None
                &&& c == UpdateChannel::Dev ==> r.0.dev_build_id == persisted.dev_build_id
            },
            None => r.0 == persisted && r.1 == false,
        },
{
    match cli_channel(args) {
        Some(channel) => {
            let dev_build_id = if let UpdateChannel::Dev = channel {
                persisted.dev_build_id
            } else {
                None
            };
            (ChannelConfig { channel, dev_build_id }, true)
        },
        None => (persisted, false),
    }
}

/// Window title for the given channel: the stable channel shows the
/// updater's own version, the dev channel the first seven characters of the
/// recorded build id.
pub fn window_title(channel: UpdateChannel, dev_build_id: Option<&str>, version: &str) -> (r:
    String)
    ensures
        channel == UpdateChannel::Stable ==> r@ == "我的服务器 - 更新器 v"@ + version@,
        channel == UpdateChannel::Dev ==> match dev_build_id {
            Some(id) => r@ == "我的服务器 - 更新器 dev-"@ + (if id@.len() >= 7 {
                id@.subrange(0, 7)
            } else {
                id@
            }),
            None => r@ == "我的服务器 - 更新器 dev"@,
        },
{
    match channel {
        UpdateChannel::Stable => {
            let mut out = String::new();
            out.append("我的服务器 - 更新器 v");
            out.append(version);
            out
        },
        UpdateChannel::Dev => {
            match dev_build_id {
                Some(id) => {
                    let mut out = String::new();
                    out.append("我的服务器 - 更新器 dev-");
                    let n = id.unicode_len();
                    if n >= 7 {
                        out.append(id.substring_char(0, 7));
                    } else {
                        out.append(id);
                    }
                    out
                },
                None => {
                    let mut out = String::new();
                    out.append("我的服务器 - 更新器 dev");
                    out
                },
            }
        },
    }
}

/// Assemble a channel configuration from optionally-present field values,
/// mirroring a strict tagged decode: an unrecognised channel value discards
/// the whole record; a missing channel field keeps the default channel but
/// retains the recorded build id.
pub fn channel_config_from_fields(channel_str: Option<String>, dev_build_id: Option<String>) -> (r:
    ChannelConfig)
    ensures
        match channel_str {
            Some(s) => {
                &&& (s@ == "stable"@ ==> r.channel == UpdateChannel::Stable && r.dev_build_id
                    == dev_build_id)
                &&& (s@ == "dev"@ ==> r.channel == UpdateChannel::Dev && r.dev_build_id
                    == dev_build_id)
                &&& (s@ != "stable"@ && s@ != "dev"@ ==> r.channel == UpdateChannel::Stable
                    && r.dev_build_id is None)
            },
            None => r.channel == UpdateChannel::Stable && r.dev_build_id == dev_build_id,
        },
{
    proof {
        reveal_strlit("stable");
        reveal_strlit("dev");
        assert("stable"@.len() == 6);
        assert("dev"@.len() == 3);
    }
    assert("stable"@ != "dev"@);
    match channel_str {
        Some(s) => {
            if eq_str(s.as_str(), "stable") {
                ChannelConfig { channel: UpdateChannel::Stable, dev_build_id }
            } else if eq_str(s.as_str(), "dev") {
                ChannelConfig { channel: UpdateChannel::Dev, dev_build_id }
            } else {
                ChannelConfig::default_config()
            }
        },
        None => ChannelConfig { channel: UpdateChannel::Stable, dev_build_id },
    }
}

/// Read a channel configuration from persisted JSON text: the decision of
/// `channel_config_from_fields` applied to the document's `channel` and
/// `dev_build_id` members. An unreadable record (both members read as
/// absent) therefore yields the default configuration and never blocks
/// startup.
pub fn channel_config_from_json(text: &str) -> (r: ChannelConfig)
    ensures
        ({
            let channel = json_str_field_of(text@, "channel"@);
            let build = json_str_field_of(text@, "dev_build_id"@);
            match channel {
                Some(s) => {
                    &&& (s == "stable"@ ==> r.channel == UpdateChannel::Stable && opt_view(
                        r.dev_build_id,
                    ) == build)
                    &&& (s == "dev"@ ==> r.channel == UpdateChannel::Dev && opt_view(
                        r.dev_build_id,
                    ) == build)
                    &&& (s != "stable"@ && s != "dev"@ ==> r.channel == UpdateChannel::Stable
                        && r.dev_build_id is None)
                },
                None => r.channel == UpdateChannel::Stable && opt_view(r.dev_build_id) == build,
            }
        }),
{
    let channel_str = json_str_field_text(text, "channel");
    let dev_build_id = json_str_field_text(text, "dev_build_id");
    channel_config_from_fields(channel_str, dev_build_id)
}

/// The channel configuration to use given what could be read from disk: a
/// missing file yields the default configuration.
pub fn channel_config_or_default(text: Option<&str>) -> (r: ChannelConfig)
    ensures
        text is None ==> r.channel == UpdateChannel::Stable && r.dev_build_id is None,
{
    match text {
        Some(t) => channel_config_from_json(t),
        None => ChannelConfig::default_config(),
    }
}

/// The JSON rendering of a channel configuration: the channel name, and the
/// build id only when one is recorded.
pub open spec fn spec_channel_config_json(c: &ChannelConfig) -> Seq<char> {
    let head = "{\"channel\":"@ + (if c.channel == UpdateChannel::Stable {
        "\"stable\""@
    } else {
        "\"dev\""@
    });
    match c.dev_build_id {
        Some(id) => head + ",\"dev_build_id\":"@ + spec_json_string(id@) + "}"@,
        None => head + "}"@,
    }
}

/// Serialize a channel configuration to the JSON text that is persisted.
pub fn channel_config_to_json(c: &ChannelConfig) -> (r: String)
    ensures
        r@ == spec_channel_config_json(c),
{
    let mut out = String::new();
    out.append("{\"channel\":");
    match c.channel {
        UpdateChannel::Stable => out.append("\"stable\""),
        UpdateChannel::Dev => out.append("\"dev\""),
    }
    match &c.dev_build_id {
        Some(id) => {
            out.append(",\"dev_build_id\":");
            append_json_string(&mut out, id.as_str());
            out.append("}");
        },
        None => {
            out.append("}");
        },
    }
    out
}

/// Marker for a missing Java runtime: the one prerequisite that is
/// user-actionable and gets a guided install message instead of the
/// generic failure screen.
#[derive(Debug, Clone, Copy, PartialEq, Eq, Structural)]
pub struct JavaNotFound;

impl JavaNotFound {
    /// The guided-install message, naming the download page.
    pub fn message(&self) -> (r: String)
        ensures
            r@ == "系统中未检测到 Java 环境。\n正在尝试打开 Java 下载页面，如未自动打开请手动访问：\n"@
                + JAVA_DOWNLOAD_URL@,
    {
        let mut out = String::new();
        out.append("系统中未检测到 Java 环境。\n正在尝试打开 Java 下载页面，如未自动打开请手动访问：\n");
        out.append(JAVA_DOWNLOAD_URL);
        out
    }
}

} // verus!
