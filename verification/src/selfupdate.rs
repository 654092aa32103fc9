//! Self-replacement agent: decides whether the running executable is stale,
//! verifies a downloaded replacement, and names the staging paths and the
//! helper protocol through which the swap happens.
//!
//! The running process cannot rewrite its own backing file, so replacement
//! is delegated to an independent helper process whose contract is: wait
//! for this process to exit, copy the staged file over the executable with
//! a few retries, delete the staged file only on success, and start the
//! executable unconditionally afterwards.

use vstd::prelude::*;
use vstd::string::StrSliceExecFns;

use crate::config::{updater_version_url, UpdateChannel};
use crate::errors::{UpdateError, UpdateErrorKind};
use crate::jsonval::{json_str_field_of, json_str_field_text, opt_view};
use crate::net::http_get_string;
use crate::retry::{with_retry, RetryError};
use crate::semver::{is_remote_newer, spec_is_remote_newer};
use crate::text::{eq_str, last_occ, last_occ_exec};

verus! {

/// Outcome of the self-update stage.
#[derive(Debug)]
pub enum SelfUpdateResult {
    /// The running executable is current; the pipeline continues.
    UpToDate,
    /// A replacement was staged and the helper scheduled; the caller must
    /// terminate the process promptly without further mutation.
    Restarting,
}

/// The per-channel remote version document for the updater itself.
#[derive(Debug, Clone)]
pub struct UpdaterVersionInfo {
    pub version: String,
    pub download_url: String,
    pub build_id: Option<String>,
}

/// All of an updater-info record's fields come from the given document
/// text.
pub open spec fn spec_updater_info_of(i: &UpdaterVersionInfo, text: Seq<char>) -> bool {
    &&& Some(i.version@) == json_str_field_of(text, "version"@)
    &&& Some(i.download_url@) == json_str_field_of(text, "download_url"@)
    &&& opt_view(i.build_id) == json_str_field_of(text, "build_id"@)
}

/// Decode the updater version document: `version` and `download_url` are
/// required (an unparseable document reads as missing both), `build_id` is
/// optional and only meaningful on the dev channel.
pub fn updater_info_from_json(text: &str) -> (r: Result<UpdaterVersionInfo, UpdateError>)
    ensures
        r is Err <==> (json_str_field_of(text@, "version"@) is None || json_str_field_of(
            text@,
            "download_url"@,
        ) is None),
        r matches Err(e) ==> e.kind == UpdateErrorKind::RemoteDataMalformed,
        r matches Ok(i) ==> spec_updater_info_of(&i, text@),
{
    let version = match json_str_field_text(text, "version") {
        Some(v) => v,
        None => {
            return Err(
                UpdateError::new(
                    UpdateErrorKind::RemoteDataMalformed,
                    String::from_str("version.json 解析失败或缺少 version"),
                ),
            );
        },
    };
    let download_url = match json_str_field_text(text, "download_url") {
        Some(u) => u,
        None => {
            return Err(
                UpdateError::new(
                    UpdateErrorKind::RemoteDataMalformed,
                    String::from_str("version.json 中缺少 download_url"),
                ),
            );
        },
    };
    let build_id = json_str_field_text(text, "build_id");
    Ok(UpdaterVersionInfo { version, download_url, build_id })
}

/// Fetch the updater version document for the given channel, with retries.
pub fn fetch_updater_info<W: Fn(u64)>(
    agent: &ureq::Agent,
    channel: UpdateChannel,
    max_attempts: u32,
    base_delay_secs: u64,
    wait: W,
) -> (r: Result<UpdaterVersionInfo, UpdateError>)
    requires
        forall|d: u64| call_requires(wait, (d,)),
    ensures
        r matches Ok(i) ==> exists|doc: Seq<char>| #[trigger] spec_updater_info_of(&i, doc),
        r matches Err(e) ==> (e.kind == UpdateErrorKind::NetworkUnavailable || e.kind
            == UpdateErrorKind::RemoteDataMalformed || e.kind
            == UpdateErrorKind::SelfUpdateFailed),
{
    let url = updater_version_url(channel);
    let op = |attempt: u32| -> (a: Result<UpdaterVersionInfo, UpdateError>)
        ensures
            (a matches Ok(i) ==> exists|doc: Seq<char>| #[trigger] spec_updater_info_of(&i, doc)),
            (a matches Err(e) ==> (e.kind == UpdateErrorKind::NetworkUnavailable || e.kind
                == UpdateErrorKind::RemoteDataMalformed)),
        {
            let body = match http_get_string(agent, url) {
                Ok(b) => b,
                Err(detail) => {
                    return Err(
                        UpdateError::new(UpdateErrorKind::NetworkUnavailable, detail).wrap(
                            String::from_str("无法连接到更新器版本服务器"),
                        ),
                    );
                },
            };
            let info = updater_info_from_json(body.as_str());
            proof {
                if info is Ok {
                    assert(spec_updater_info_of(&info->Ok_0, body@));
                }
            }
            info
        };
    match with_retry(max_attempts, base_delay_secs, op, wait) {
        Ok(s) => Ok(s.value),
        Err(RetryError::Exhausted { attempts, error }) => Err(
            error.wrap(String::from_str("获取更新器版本信息重试后仍然失败")),
        ),
        Err(RetryError::NoAttemptsAllowed) => Err(
            UpdateError::new(
                UpdateErrorKind::SelfUpdateFailed,
                String::from_str("重试次数配置为 0，操作未执行"),
            ),
        ),
    }
}

/// The freshness decision: on the stable channel the remote semantic
/// version must be strictly newer; on the dev channel any difference of
/// build ids (a missing local id included) triggers the update, while a
/// remote document without a build id means no update is available.
pub open spec fn spec_needs_self_update(
    channel: UpdateChannel,
    current_version: Seq<char>,
    local_build: Option<Seq<char>>,
    remote_version: Seq<char>,
    remote_build: Option<Seq<char>>,
) -> bool {
    match channel {
        UpdateChannel::Stable => spec_is_remote_newer(current_version, remote_version),
        UpdateChannel::Dev => match (remote_build, local_build) {
            (Some(r), Some(l)) => r != l,
            (Some(r), None) => true,
            (None, _) => false,
        },
    }
}

/// View of an optional borrowed string.
pub open spec fn opt_str_view(o: Option<&str>) -> Option<Seq<char>> {
    match o {
        Some(s) => Some(s@),
        None => None,
    }
}

/// Decide whether the running executable must be replaced.
pub fn needs_self_update(
    channel: UpdateChannel,
    current_version: &str,
    local_build: Option<&str>,
    info: &UpdaterVersionInfo,
) -> (r: bool)
    ensures
        r == spec_needs_self_update(
            channel,
            current_version@,
            opt_str_view(local_build),
            info.version@,
            match info.build_id {
                Some(ref b) => Some(b@),
                None => None,
            },
        ),
{
    match channel {
        UpdateChannel::Stable => is_remote_newer(current_version, info.version.as_str()),
        UpdateChannel::Dev => {
            match (&info.build_id, local_build) {
                (Some(remote_id), Some(local_id)) => !eq_str(remote_id.as_str(), local_id),
                (Some(_), None) => true,
                (None, _) => false,
            }
        },
    }
}

/// Verification of a downloaded executable image: it is non-empty and its
/// first two bytes are the platform's executable magic `MZ`.
pub open spec fn spec_valid_exe_image(size: u64, head: Seq<u8>) -> bool {
    size > 0 && head.len() >= 2 && head[0] == 0x4du8 && head[1] == 0x5au8
}

/// Check a staged download: non-empty, with the native executable magic in
/// its first two bytes. A failing check must delete the staged file and
/// surface a hard error; it never counts as up to date.
pub fn verify_exe_image(size: u64, head: &Vec<u8>) -> (r: bool)
    ensures
        r == spec_valid_exe_image(size, head@),
{
    size > 0 && head.len() >= 2 && head[0] == 0x4d && head[1] == 0x5a
}

/// The path with its extension replaced: everything from the last dot of
/// the file name onward is dropped (a dot at the start of the file name
/// does not count), then a dot and `ext` are appended.
pub open spec fn spec_replace_extension(p: Seq<char>, ext: Seq<char>) -> Seq<char> {
    let slash = if last_occ(p, '/') > last_occ(p, '\\') {
        last_occ(p, '/')
    } else {
        last_occ(p, '\\')
    };
    let dot = last_occ(p, '.');
    if dot > slash + 1 {
        p.subrange(0, dot) + seq!['.'] + ext
    } else {
        p + seq!['.'] + ext
    }
}

/// Replace the extension of a path, as `spec_replace_extension` describes.
pub fn replace_extension(path: &str, ext: &str) -> (r: String)
    ensures
        r@ == spec_replace_extension(path@, ext@),
{
    proof {
        reveal_strlit(".");
    }
    let n = path.unicode_len();
    let slash = last_occ_exec(path, '/');
    let backslash = last_occ_exec(path, '\\');
    let dot = last_occ_exec(path, '.');
    let name_start: Option<usize> = match (slash, backslash) {
        (Some(a), Some(b)) => Some(if a > b { a } else { b }),
        (Some(a), None) => Some(a),
        (None, Some(b)) => Some(b),
        (None, None) => None,
    };
    let cut: Option<usize> = match dot {
        Some(d) => match name_start {
            Some(s) => if d > s + 1 { Some(d) } else { None },
            None => if d > 0 { Some(d) } else { None },
        },
        None => None,
    };
    let mut out: String;
    match cut {
        Some(d) => {
            out = path.substring_char(0, d).to_owned();
        },
        None => {
            out = path.to_owned();
        },
    }
    out.append(".");
    out.append(ext);
    proof {
        assert("."@ =~= seq!['.']);
    }
    out
}

/// Path of the staged replacement next to the running executable.
pub fn self_update_temp_path(exe_path: &str) -> (r: String)
    ensures
        r@ == spec_replace_extension(exe_path@, "exe.new"@),
{
    replace_extension(exe_path, "exe.new")
}

/// Path of the leftover that an older replacement strategy may have
/// written; deleted on every start.
pub fn self_update_old_path(exe_path: &str) -> (r: String)
    ensures
        r@ == spec_replace_extension(exe_path@, "exe.old"@),
{
    replace_extension(exe_path, "exe.old")
}

/// The two files the replacement protocol touches: the installed
/// executable and the staged replacement, if one exists.
#[derive(Debug)]
pub struct ReplaceState {
    pub installed: Vec<u8>,
    pub staged: Option<Vec<u8>>,
}

/// Model of the helper process's copy step: a staged replacement becomes
/// the installed executable, byte for byte, and the staged file is removed;
/// with nothing staged, nothing changes. (The helper also waits for the
/// requesting process to exit first and relaunches the executable
/// unconditionally afterwards; neither touches these two files.)
pub fn apply_replacement(state: ReplaceState) -> (r: ReplaceState)
    ensures
        match state.staged {
            Some(new_image) => r.installed@ == new_image@ && r.staged is None,
            None => r.installed@ == state.installed@ && r.staged is None,
        },
{
    match state.staged {
        Some(new_image) => ReplaceState { installed: new_image, staged: None },
        None => ReplaceState { installed: state.installed, staged: None },
    }
}

} // verus!
