//! Remote and local component-version state, and the comparison that decides
//! whether the full upgrade stage must run.
//!
//! The two tracked version tags are parsed out of the remote content index (a
//! small TOML-like text) — the single source of truth — while the remote
//! manifest contributes only the index URL and optional download locations.

use vstd::prelude::*;
use vstd::string::StrSliceExecFns;

use crate::errors::{UpdateError, UpdateErrorKind};
use crate::jsonout::{spec_json_string, append_json_string};
use crate::jsonval::{json_str_field2_of, json_str_field2_text, json_str_field_of, json_str_field_text, opt_view};
use crate::net::http_get_string;
use crate::retry::{with_retry, RetryError};
use crate::text::{
    eq_str, first_occ, first_occ_exec, spec_split_lines, spec_starts_with, spec_trim, split_lines,
    starts_with_str, trim,
};

verus! {

/// Optional download locations for first-run bootstrap, as the remote
/// manifest declares them.
#[derive(Debug, Clone)]
pub struct Downloads {
    pub jre_url: Option<String>,
    pub pcl2_url: Option<String>,
    pub packwiz_bootstrap_url: Option<String>,
    pub fabric_installer_url: Option<String>,
    pub settings_url: Option<String>,
}

impl Downloads {
    /// No download locations at all.
    pub fn none() -> (r: Downloads)
        ensures
            r.jre_url is None,
            r.pcl2_url is None,
            r.packwiz_bootstrap_url is None,
            r.fabric_installer_url is None,
            r.settings_url is None,
    {
        Downloads {
            jre_url: None,
            pcl2_url: None,
            packwiz_bootstrap_url: None,
            fabric_installer_url: None,
            settings_url: None,
        }
    }
}

/// The remote manifest: where the content index lives, plus download
/// locations.
#[derive(Debug, Clone)]
pub struct ServerConfig {
    pub pack_url: String,
    pub downloads: Downloads,
}

/// The complete remote target state for one run: the two tracked version
/// tags, the derived version folder name, and the manifest data.
#[derive(Debug, Clone)]
pub struct RemoteVersion {
    pub mc_version: String,
    pub fabric_version: String,
    pub version_tag: String,
    pub pack_url: String,
    pub downloads: Downloads,
}

/// Local record of the component versions that are currently installed.
///
/// All fields are empty on a first run, which guarantees that the full
/// upgrade path is taken.
#[derive(Debug, Clone)]
pub struct LocalVersion {
    pub mc_version: String,
    pub fabric_version: String,
    pub version_tag: String,
}

impl LocalVersion {
    /// The all-empty record used when no local state can be read.
    pub fn empty() -> (r: LocalVersion)
        ensures
            r.mc_version@ == Seq::<char>::empty(),
            r.fabric_version@ == Seq::<char>::empty(),
            r.version_tag@ == Seq::<char>::empty(),
    {
        LocalVersion {
            mc_version: String::new(),
            fabric_version: String::new(),
            version_tag: String::new(),
        }
    }
}

/// Whether the upgrade stage must run: true exactly when one of the two
/// tracked tags differs between remote and local state.
pub open spec fn spec_needs_upgrade(remote: &RemoteVersion, local: &LocalVersion) -> bool {
    remote.mc_version@ != local.mc_version@ || remote.fabric_version@ != local.fabric_version@
}

/// True iff any tracked version tag differs between remote and local state.
/// No partial upgrade exists: any difference triggers the full stage.
pub fn needs_version_upgrade(remote: &RemoteVersion, local: &LocalVersion) -> (r: bool)
    ensures
        r == spec_needs_upgrade(remote, local),
{
    let same_mc = eq_str(remote.mc_version.as_str(), local.mc_version.as_str());
    let same_fabric = eq_str(remote.fabric_version.as_str(), local.fabric_version.as_str());
    !(same_mc && same_fabric)
}

/// An empty local record demands an upgrade against any remote state whose
/// tracked tags are not both empty.
pub proof fn lemma_empty_local_always_upgrades(remote: &RemoteVersion, local: &LocalVersion)
    requires
        local.mc_version@ == Seq::<char>::empty(),
        local.fabric_version@ == Seq::<char>::empty(),
        remote.mc_version@.len() > 0 || remote.fabric_version@.len() > 0,
    ensures
        spec_needs_upgrade(remote, local),
{
}

/// The folder name of a version: `fabric-loader-<fabric>-<mc>`.
pub open spec fn spec_version_tag(mc: Seq<char>, fabric: Seq<char>) -> Seq<char> {
    "fabric-loader-"@ + fabric + "-"@ + mc
}

/// Build the version folder name for the given component versions.
pub fn version_tag_for(mc: &str, fabric: &str) -> (r: String)
    ensures
        r@ == spec_version_tag(mc@, fabric@),
{
    let mut out = String::new();
    out.append("fabric-loader-");
    out.append(fabric);
    out.append("-");
    out.append(mc);
    out
}

/// The value a `key = "value"` TOML-style line yields for `key`, if any:
/// the line is trimmed, must start with `key` followed by `=`; a quoted
/// value runs to the closing quote (ignoring anything after it, such as an
/// inline comment); an unquoted value is cut at `#` and trimmed.
pub open spec fn spec_extract_toml_value(line: Seq<char>, key: Seq<char>) -> Option<Seq<char>> {
    let l = spec_trim(line);
    if !spec_starts_with(l, key) {
        None
    } else {
        let rest = spec_trim(l.subrange(key.len() as int, l.len() as int));
        if rest.len() == 0 || rest[0] != '=' {
            None
        } else {
            let vp = spec_trim(rest.subrange(1, rest.len() as int));
            if vp.len() > 0 && vp[0] == '"' {
                let inner = vp.subrange(1, vp.len() as int);
                Some(inner.subrange(0, first_occ(inner, '"')))
            } else if vp.len() > 0 && vp[0] == '\'' {
                let inner = vp.subrange(1, vp.len() as int);
                Some(inner.subrange(0, first_occ(inner, '\'')))
            } else {
                Some(spec_trim(vp.subrange(0, first_occ(vp, '#'))))
            }
        }
    }
}

/// Extract the value of `key = "value"` from one line, as
/// `spec_extract_toml_value` describes.
pub fn extract_toml_value(line: &str, key: &str) -> (r: Option<String>)
    ensures
        match r {
            Some(v) => spec_extract_toml_value(line@, key@) == Some(v@),
            None => spec_extract_toml_value(line@, key@) is None,
        },
{
    let l = trim(line);
    if !starts_with_str(l.as_str(), key) {
        return None;
    }
    let klen = key.unicode_len();
    let ln = l.as_str().unicode_len();
    let rest = trim(l.as_str().substring_char(klen, ln));
    let rn = rest.as_str().unicode_len();
    if rn == 0 || rest.as_str().get_char(0) != '=' {
        return None;
    }
    let vp = trim(rest.as_str().substring_char(1, rn));
    let vn = vp.as_str().unicode_len();
    if vn > 0 && vp.as_str().get_char(0) == '"' {
        let inner = vp.as_str().substring_char(1, vn);
        let end = first_occ_exec(inner, '"');
        Some(inner.substring_char(0, end).to_owned())
    } else if vn > 0 && vp.as_str().get_char(0) == '\'' {
        let inner = vp.as_str().substring_char(1, vn);
        let end = first_occ_exec(inner, '\'');
        Some(inner.substring_char(0, end).to_owned())
    } else {
        let end = first_occ_exec(vp.as_str(), '#');
        Some(trim(vp.as_str().substring_char(0, end)))
    }
}

/// The scan the content-index parser performs, line by line: values are
/// read only inside the `[versions]` section, a later match overwrites an
/// earlier one, and the first other section heading ends the scan.
pub open spec fn spec_scan_versions(
    lines: Seq<Seq<char>>,
    in_sec: bool,
    mc: Option<Seq<char>>,
    fab: Option<Seq<char>>,
) -> (Option<Seq<char>>, Option<Seq<char>>)
    decreases lines.len(),
{
    if lines.len() == 0 {
        (mc, fab)
    } else {
        let t = spec_trim(lines[0]);
        if t == "[versions]"@ {
            spec_scan_versions(lines.drop_first(), true, mc, fab)
        } else if in_sec && t.len() > 0 && t[0] == '[' {
            (mc, fab)
        } else if in_sec {
            let mc2 = if spec_extract_toml_value(t, "minecraft"@) is Some {
                spec_extract_toml_value(t, "minecraft"@)
            } else {
                mc
            };
            let fab2 = if spec_extract_toml_value(t, "fabric"@) is Some {
                spec_extract_toml_value(t, "fabric"@)
            } else {
                fab
            };
            spec_scan_versions(lines.drop_first(), true, mc2, fab2)
        } else {
            spec_scan_versions(lines.drop_first(), false, mc, fab)
        }
    }
}

/// The two version values the content index declares, if present.
pub open spec fn spec_pack_versions(text: Seq<char>) -> (Option<Seq<char>>, Option<Seq<char>>) {
    spec_scan_versions(spec_split_lines(text), false, None, None)
}

/// Parse the `minecraft` and `fabric` versions out of the remote content
/// index. Both must be present inside its `[versions]` section; a missing
/// one is a malformed remote document.
pub fn parse_pack_toml_versions(toml_text: &str) -> (r: Result<(String, String), UpdateError>)
    ensures
        match r {
            Ok(p) => spec_pack_versions(toml_text@) == (Some(p.0@), Some(p.1@)),
            Err(e) => (spec_pack_versions(toml_text@).0 is None || spec_pack_versions(
                toml_text@,
            ).1 is None) && e.kind == UpdateErrorKind::RemoteDataMalformed,
        },
{
    let lines = split_lines(toml_text);
    let ghost llines = spec_split_lines(toml_text@);
    let mut mc: Option<String> = None;
    let mut fab: Option<String> = None;
    let mut in_sec = false;
    let mut i: usize = 0;
    proof {
        assert(llines.subrange(0, llines.len() as int) =~= llines);
    }
    loop
        invariant_except_break
            lines@.len() == llines.len(),
            forall|k: int| 0 <= k < llines.len() ==> lines@[k]@ == llines[k],
            0 <= i <= lines@.len(),
            spec_pack_versions(toml_text@) == spec_scan_versions(
                llines.subrange(i as int, llines.len() as int),
                in_sec,
                opt_view(mc),
                opt_view(fab),
            ),
        ensures
            spec_pack_versions(toml_text@) == (opt_view(mc), opt_view(fab)),
        decreases lines@.len() - i,
    {
        if i >= lines.len() {
            proof {
                assert(llines.subrange(i as int, llines.len() as int) =~= Seq::<
                    Seq<char>,
                >::empty());
            }
            break;
        }
        let ghost rest = llines.subrange(i as int, llines.len() as int);
        proof {
            assert(rest[0] == llines[i as int]);
            assert(rest.drop_first() =~= llines.subrange(i + 1, llines.len() as int));
        }
        let t = trim(lines[i].as_str());
        if eq_str(t.as_str(), "[versions]") {
            in_sec = true;
        } else if in_sec && t.as_str().unicode_len() > 0 && t.as_str().get_char(0) == '[' {
            break;
        } else if in_sec {
            match extract_toml_value(t.as_str(), "minecraft") {
                Some(v) => {
                    mc = Some(v);
                },
                None => {},
            }
            match extract_toml_value(t.as_str(), "fabric") {
                Some(v) => {
                    fab = Some(v);
                },
                None => {},
            }
        }
        i += 1;
    }
    match (mc, fab) {
        (Some(m), Some(f)) => Ok((m, f)),
        (Some(m), None) => Err(
            UpdateError::new(
                UpdateErrorKind::RemoteDataMalformed,
                String::from_str("pack.toml 中找不到 fabric 版本"),
            ),
        ),
        (None, Some(f)) => Err(
            UpdateError::new(
                UpdateErrorKind::RemoteDataMalformed,
                String::from_str("pack.toml 中找不到 minecraft 版本"),
            ),
        ),
        (None, None) => Err(
            UpdateError::new(
                UpdateErrorKind::RemoteDataMalformed,
                String::from_str("pack.toml 中找不到 minecraft 版本"),
            ),
        ),
    }
}

/// Combine the remote manifest with the versions parsed from the content
/// index into the full remote target state.
pub fn assemble_remote_version(config: ServerConfig, pack_toml: &str) -> (r: Result<
    RemoteVersion,
    UpdateError,
>)
    ensures
        match r {
            Ok(v) => {
                &&& spec_pack_versions(pack_toml@) == (
                    Some(v.mc_version@),
                    Some(v.fabric_version@),
                )
                &&& v.version_tag@ == spec_version_tag(v.mc_version@, v.fabric_version@)
                &&& v.pack_url@ == config.pack_url@
                &&& v.downloads == config.downloads
            },
            Err(e) => (spec_pack_versions(pack_toml@).0 is None || spec_pack_versions(
                pack_toml@,
            ).1 is None) && e.kind == UpdateErrorKind::RemoteDataMalformed,
        },
{
    let (mc, fabric) = match parse_pack_toml_versions(pack_toml) {
        Ok(p) => p,
        Err(e) => {
            return Err(e);
        },
    };
    let version_tag = version_tag_for(mc.as_str(), fabric.as_str());
    Ok(
        RemoteVersion {
            mc_version: mc,
            fabric_version: fabric,
            version_tag,
            pack_url: config.pack_url,
            downloads: config.downloads,
        },
    )
}

/// Assemble a local record from optionally-present field values: only a
/// record with all three fields present is accepted; anything else yields
/// the all-empty record, so that an unreadable state never blocks progress
/// and always triggers the upgrade path.
pub fn local_version_from_fields(
    mc: Option<String>,
    fabric: Option<String>,
    tag: Option<String>,
) -> (r: LocalVersion)
    ensures
        match (mc, fabric, tag) {
            (Some(m), Some(f), Some(t)) => r.mc_version@ == m@ && r.fabric_version@ == f@
                && r.version_tag@ == t@,
            _ => r.mc_version@ == Seq::<char>::empty() && r.fabric_version@ == Seq::<
                char,
            >::empty() && r.version_tag@ == Seq::<char>::empty(),
        },
{
    match (mc, fabric, tag) {
        (Some(m), Some(f), Some(t)) => LocalVersion {
            mc_version: m,
            fabric_version: f,
            version_tag: t,
        },
        _ => LocalVersion::empty(),
    }
}

/// Read a local version record from persisted JSON text: the three string
/// fields of the document when all are present, the all-empty record
/// otherwise (missing file semantics for a corrupt record).
pub fn local_version_from_json(text: &str) -> (r: LocalVersion)
    ensures
        match (
            json_str_field_of(text@, "mc_version"@),
            json_str_field_of(text@, "fabric_version"@),
            json_str_field_of(text@, "version_tag"@),
        ) {
            (Some(m), Some(f), Some(t)) => r.mc_version@ == m && r.fabric_version@ == f
                && r.version_tag@ == t,
            _ => r.mc_version@ == Seq::<char>::empty() && r.fabric_version@ == Seq::<
                char,
            >::empty() && r.version_tag@ == Seq::<char>::empty(),
        },
{
    let mc = json_str_field_text(text, "mc_version");
    let fabric = json_str_field_text(text, "fabric_version");
    let tag = json_str_field_text(text, "version_tag");
    local_version_from_fields(mc, fabric, tag)
}

/// The local state to use given what could be read from disk: a missing
/// file (`None`) yields the all-empty record, which forces the upgrade
/// path against any non-empty remote state.
pub fn local_version_or_empty(text: Option<&str>) -> (r: LocalVersion)
    ensures
        text is None ==> r.mc_version@ == Seq::<char>::empty() && r.fabric_version@ == Seq::<
            char,
        >::empty() && r.version_tag@ == Seq::<char>::empty(),
{
    match text {
        Some(t) => local_version_from_json(t),
        None => LocalVersion::empty(),
    }
}

/// The JSON rendering of a local version record.
pub open spec fn spec_local_version_json(v: &LocalVersion) -> Seq<char> {
    "{\"mc_version\":"@ + spec_json_string(v.mc_version@) + ",\"fabric_version\":"@
        + spec_json_string(v.fabric_version@) + ",\"version_tag\":"@ + spec_json_string(
        v.version_tag@,
    ) + "}"@
}

/// Serialize a local version record to the JSON text that is persisted.
pub fn local_version_to_json(v: &LocalVersion) -> (r: String)
    ensures
        r@ == spec_local_version_json(v),
{
    let mut out = String::new();
    out.append("{\"mc_version\":");
    append_json_string(&mut out, v.mc_version.as_str());
    out.append(",\"fabric_version\":");
    append_json_string(&mut out, v.fabric_version.as_str());
    out.append(",\"version_tag\":");
    append_json_string(&mut out, v.version_tag.as_str());
    out.append("}");
    out
}

/// All of a server configuration's fields come from the given manifest
/// text: `pack_url` at top level, the five download locations under the
/// `downloads` object.
pub open spec fn spec_server_config_of(c: &ServerConfig, text: Seq<char>) -> bool {
    &&& Some(c.pack_url@) == json_str_field_of(text, "pack_url"@)
    &&& opt_view(c.downloads.jre_url) == json_str_field2_of(text, "downloads"@, "jre_url"@)
    &&& opt_view(c.downloads.pcl2_url) == json_str_field2_of(text, "downloads"@, "pcl2_url"@)
    &&& opt_view(c.downloads.packwiz_bootstrap_url) == json_str_field2_of(
        text,
        "downloads"@,
        "packwiz_bootstrap_url"@,
    )
    &&& opt_view(c.downloads.fabric_installer_url) == json_str_field2_of(
        text,
        "downloads"@,
        "fabric_installer_url"@,
    )
    &&& opt_view(c.downloads.settings_url) == json_str_field2_of(
        text,
        "downloads"@,
        "settings_url"@,
    )
}

/// Decode the remote manifest: `pack_url` is required (an unparseable
/// document reads as missing), the download locations are optional.
pub fn server_config_from_json(text: &str) -> (r: Result<ServerConfig, UpdateError>)
    ensures
        r is Err <==> json_str_field_of(text@, "pack_url"@) is None,
        r matches Err(e) ==> e.kind == UpdateErrorKind::RemoteDataMalformed,
        r matches Ok(c) ==> spec_server_config_of(&c, text@),
{
    let pack_url = match json_str_field_text(text, "pack_url") {
        Some(u) => u,
        None => {
            return Err(
                UpdateError::new(
                    UpdateErrorKind::RemoteDataMalformed,
                    String::from_str("server.json 解析失败或缺少 pack_url"),
                ),
            );
        },
    };
    let downloads = Downloads {
        jre_url: json_str_field2_text(text, "downloads", "jre_url"),
        pcl2_url: json_str_field2_text(text, "downloads", "pcl2_url"),
        packwiz_bootstrap_url: json_str_field2_text(text, "downloads", "packwiz_bootstrap_url"),
        fabric_installer_url: json_str_field2_text(text, "downloads", "fabric_installer_url"),
        settings_url: json_str_field2_text(text, "downloads", "settings_url"),
    };
    Ok(ServerConfig { pack_url, downloads })
}

/// The remote target state was assembled from a manifest document and a
/// content-index document: the index URL and download locations come from
/// the manifest, the two version tags solely from the index's `[versions]`
/// table, and the version folder name is derived from them.
pub open spec fn spec_remote_from_documents(
    v: &RemoteVersion,
    manifest: Seq<char>,
    pack_toml: Seq<char>,
) -> bool {
    &&& Some(v.pack_url@) == json_str_field_of(manifest, "pack_url"@)
    &&& opt_view(v.downloads.jre_url) == json_str_field2_of(manifest, "downloads"@, "jre_url"@)
    &&& opt_view(v.downloads.pcl2_url) == json_str_field2_of(manifest, "downloads"@, "pcl2_url"@)
    &&& opt_view(v.downloads.packwiz_bootstrap_url) == json_str_field2_of(
        manifest,
        "downloads"@,
        "packwiz_bootstrap_url"@,
    )
    &&& opt_view(v.downloads.fabric_installer_url) == json_str_field2_of(
        manifest,
        "downloads"@,
        "fabric_installer_url"@,
    )
    &&& opt_view(v.downloads.settings_url) == json_str_field2_of(
        manifest,
        "downloads"@,
        "settings_url"@,
    )
    &&& spec_pack_versions(pack_toml) == (Some(v.mc_version@), Some(v.fabric_version@))
    &&& v.version_tag@ == spec_version_tag(v.mc_version@, v.fabric_version@)
}

/// One attempt at building the remote target state: fetch the manifest,
/// fetch the content index it points to, and combine them. A success was
/// assembled, as `spec_remote_from_documents` describes, from some pair of
/// fetched documents; a failure of either fetch or either parse fails the
/// whole call.
pub fn fetch_remote_version_once(agent: &ureq::Agent, server_json_url: &str) -> (r: Result<
    RemoteVersion,
    UpdateError,
>)
    ensures
        r matches Ok(v) ==> exists|manifest: Seq<char>, pack_toml: Seq<char>|
            #[trigger] spec_remote_from_documents(&v, manifest, pack_toml),
        r matches Ok(v) ==> v.version_tag@ == spec_version_tag(
            v.mc_version@,
            v.fabric_version@,
        ),
{
    let body = match http_get_string(agent, server_json_url) {
        Ok(b) => b,
        Err(detail) => {
            return Err(
                UpdateError::new(UpdateErrorKind::NetworkUnavailable, detail).wrap(
                    String::from_str("无法连接到更新服务器，请检查网络"),
                ),
            );
        },
    };
    let config = match server_config_from_json(body.as_str()) {
        Ok(c) => c,
        Err(e) => {
            return Err(e);
        },
    };
    let pack_toml = match http_get_string(agent, config.pack_url.as_str()) {
        Ok(b) => b,
        Err(detail) => {
            return Err(
                UpdateError::new(UpdateErrorKind::NetworkUnavailable, detail).wrap(
                    String::from_str("无法获取 pack.toml，请检查网络"),
                ),
            );
        },
    };
    let ghost manifest_text = body@;
    let ghost pack_text = pack_toml@;
    match assemble_remote_version(config, pack_toml.as_str()) {
        Ok(v) => {
            proof {
                assert(spec_remote_from_documents(&v, manifest_text, pack_text));
            }
            Ok(v)
        },
        Err(e) => Err(e.wrap(String::from_str("从 pack.toml 解析版本信息失败"))),
    }
}

/// Fetch the remote target state, retrying the two-document fetch as one
/// unit. The wait callback receives each backoff delay in seconds.
pub fn fetch_remote_version<W: Fn(u64)>(
    agent: &ureq::Agent,
    server_json_url: &str,
    max_attempts: u32,
    base_delay_secs: u64,
    wait: W,
) -> (r: Result<RemoteVersion, UpdateError>)
    requires
        forall|d: u64| call_requires(wait, (d,)),
    ensures
        r matches Ok(v) ==> exists|manifest: Seq<char>, pack_toml: Seq<char>|
            #[trigger] spec_remote_from_documents(&v, manifest, pack_toml),
        r matches Ok(v) ==> v.version_tag@ == spec_version_tag(
            v.mc_version@,
            v.fabric_version@,
        ),
{
    let op = |attempt: u32| -> (a: Result<RemoteVersion, UpdateError>)
        ensures
            (a matches Ok(v) ==> exists|manifest: Seq<char>, pack_toml: Seq<char>|
                #[trigger] spec_remote_from_documents(&v, manifest, pack_toml)),
            (a matches Ok(v) ==> v.version_tag@ == spec_version_tag(
                v.mc_version@,
                v.fabric_version@,
            )),
        {
            fetch_remote_version_once(agent, server_json_url)
        };
    let outcome = with_retry(max_attempts, base_delay_secs, op, wait);
    match outcome {
        Ok(s) => Ok(s.value),
        Err(RetryError::Exhausted { attempts, error }) => Err(
            error.wrap(String::from_str("获取远程版本信息重试后仍然失败")),
        ),
        Err(RetryError::NoAttemptsAllowed) => Err(
            UpdateError::new(
                UpdateErrorKind::NetworkUnavailable,
                String::from_str("重试次数配置为 0，操作未执行"),
            ),
        ),
    }
}

} // verus!
