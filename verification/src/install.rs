//! Component-installer stage decisions: the installer invocation, the
//! cleanup of superseded version folders and old mod files, the
//! version-isolation correction, and the extraction of the vanilla client
//! locations from the remote version manifests.

use vstd::prelude::*;
use vstd::string::StrSliceExecFns;

use crate::errors::{UpdateError, UpdateErrorKind};
use crate::jsonval::{json_str_field3_of, json_str_field3_text, json_versions_of, json_versions_text, opt_pair_view, opt_view};
use crate::text::{ends_with_str, eq_str, replace_all, spec_ends_with, spec_replace_all};

verus! {

/// Seed profile record the component installer demands before running.
pub const LAUNCHER_PROFILES_SEED: &'static str = "{\"profiles\":{}}";

/// The command-line arguments for the component installer: client mode
/// into the given directory, the two version identifiers, no launcher
/// profile written.
pub fn fabric_install_args(installer_jar: &str, mc_dir: &str, mc_version: &str, fabric_version: &str) -> (r: Vec<String>)
    ensures
        r@.len() == 10,
        r@[0]@ == "-jar"@,
        r@[1]@ == installer_jar@,
        r@[2]@ == "client"@,
        r@[3]@ == "-dir"@,
        r@[4]@ == mc_dir@,
        r@[5]@ == "-mcversion"@,
        r@[6]@ == mc_version@,
        r@[7]@ == "-loader"@,
        r@[8]@ == fabric_version@,
        r@[9]@ == "-noprofile"@,
{
    let mut args: Vec<String> = Vec::new();
    args.push(String::from_str("-jar"));
    args.push(String::from_str(installer_jar));
    args.push(String::from_str("client"));
    args.push(String::from_str("-dir"));
    args.push(String::from_str(mc_dir));
    args.push(String::from_str("-mcversion"));
    args.push(String::from_str(mc_version));
    args.push(String::from_str("-loader"));
    args.push(String::from_str(fabric_version));
    args.push(String::from_str("-noprofile"));
    args
}

/// The failure text of the component installer: the captured output in
/// full.
pub open spec fn spec_install_failure_message(stdout: Seq<char>, stderr: Seq<char>) -> Seq<char> {
    "Fabric 安装失败:\nstdout: "@ + stdout + "\nstderr: "@ + stderr
}

/// Judge a finished component-installer run: success is exactly a zero
/// exit code; a failure carries the captured output.
pub fn install_outcome(exit_zero: bool, stdout: &str, stderr: &str) -> (r: Result<
    (),
    UpdateError,
>)
    ensures
        r is Ok <==> exit_zero,
        r matches Err(e) ==> e.kind == UpdateErrorKind::ExternalProcessFailed && e.chain@.len()
            == 1 && e.chain@[0]@ == spec_install_failure_message(stdout@, stderr@),
{
    if exit_zero {
        Ok(())
    } else {
        let mut detail = String::from_str("Fabric 安装失败:\nstdout: ");
        detail.append(stdout);
        detail.append("\nstderr: ");
        detail.append(stderr);
        Err(UpdateError::new(UpdateErrorKind::ExternalProcessFailed, detail))
    }
}

/// The version folders to delete: every name except the one to keep, in
/// the order given.
pub open spec fn spec_cleanup_names(names: Seq<Seq<char>>, keep: Seq<char>) -> Seq<Seq<char>>
    decreases names.len(),
{
    if names.len() == 0 {
        Seq::empty()
    } else if names[0] == keep {
        spec_cleanup_names(names.drop_first(), keep)
    } else {
        seq![names[0]] + spec_cleanup_names(names.drop_first(), keep)
    }
}

/// Plan the cleanup of the versions directory: given the names of its
/// subdirectories, every one except `keep_tag` is to be deleted.
pub fn plan_version_cleanup(dir_names: &Vec<String>, keep_tag: &str) -> (r: Vec<String>)
    ensures
        r@.map_values(|s: String| s@) == spec_cleanup_names(
            dir_names@.map_values(|s: String| s@),
            keep_tag@,
        ),
{
    let ghost names = dir_names@.map_values(|s: String| s@);
    let mut out: Vec<String> = Vec::new();
    let mut i: usize = 0;
    proof {
        assert(names.subrange(0, names.len() as int) =~= names);
    }
    loop
        invariant_except_break
            names == dir_names@.map_values(|s: String| s@),
            names.len() == dir_names@.len(),
            0 <= i <= names.len(),
            spec_cleanup_names(names, keep_tag@) =~~= out@.map_values(|s: String| s@)
                + spec_cleanup_names(names.subrange(i as int, names.len() as int), keep_tag@),
        ensures
            spec_cleanup_names(names, keep_tag@) =~~= out@.map_values(|s: String| s@),
        decreases names.len() - i,
    {
        if i >= dir_names.len() {
            proof {
                assert(names.subrange(i as int, names.len() as int) =~= Seq::<Seq<char>>::empty());
            }
            break;
        }
        let ghost rest = names.subrange(i as int, names.len() as int);
        proof {
            assert(rest[0] == names[i as int]);
            assert(rest.drop_first() =~= names.subrange(i + 1, names.len() as int));
        }
        if !eq_str(dir_names[i].as_str(), keep_tag) {
            out.push(dir_names[i].clone());
        }
        i += 1;
    }
    proof {
        assert(out@.map_values(|s: String| s@) =~= spec_cleanup_names(names, keep_tag@));
    }
    out
}

/// A mod file name: a non-empty stem followed by the `.jar` extension. A
/// file named exactly `.jar` has no extension and is not a mod file.
pub open spec fn spec_is_jar_name(name: Seq<char>) -> bool {
    name.len() > ".jar"@.len() && spec_ends_with(name, ".jar"@)
}

/// The mod files to delete on upgrade: every file whose name is a stem
/// plus the `.jar` extension, in the order given. The replacements are
/// re-synced afterwards.
pub open spec fn spec_jar_names(names: Seq<Seq<char>>) -> Seq<Seq<char>>
    decreases names.len(),
{
    if names.len() == 0 {
        Seq::empty()
    } else if spec_is_jar_name(names[0]) {
        seq![names[0]] + spec_jar_names(names.drop_first())
    } else {
        spec_jar_names(names.drop_first())
    }
}

/// Plan the cleanup of the mods directory: exactly the `.jar` files among
/// the given file names.
pub fn plan_mods_cleanup(file_names: &Vec<String>) -> (r: Vec<String>)
    ensures
        r@.map_values(|s: String| s@) == spec_jar_names(file_names@.map_values(|s: String| s@)),
{
    let ghost names = file_names@.map_values(|s: String| s@);
    let mut out: Vec<String> = Vec::new();
    let mut i: usize = 0;
    proof {
        assert(names.subrange(0, names.len() as int) =~= names);
    }
    loop
        invariant_except_break
            names == file_names@.map_values(|s: String| s@),
            names.len() == file_names@.len(),
            0 <= i <= names.len(),
            spec_jar_names(names) =~~= out@.map_values(|s: String| s@) + spec_jar_names(
                names.subrange(i as int, names.len() as int),
            ),
        ensures
            spec_jar_names(names) =~~= out@.map_values(|s: String| s@),
        decreases names.len() - i,
    {
        if i >= file_names.len() {
            proof {
                assert(names.subrange(i as int, names.len() as int) =~= Seq::<Seq<char>>::empty());
            }
            break;
        }
        let ghost rest = names.subrange(i as int, names.len() as int);
        proof {
            assert(rest[0] == names[i as int]);
            assert(rest.drop_first() =~= names.subrange(i + 1, names.len() as int));
        }
        if file_names[i].as_str().unicode_len() > 4 && ends_with_str(
            file_names[i].as_str(),
            ".jar",
        ) {
            proof {
                reveal_strlit(".jar");
                assert(".jar"@.len() == 4);
            }
            out.push(file_names[i].clone());
        } else {
            proof {
                reveal_strlit(".jar");
                assert(".jar"@.len() == 4);
            }
        }
        i += 1;
    }
    proof {
        assert(out@.map_values(|s: String| s@) =~= spec_jar_names(names));
    }
    out
}

/// The corrected content of a version-level launcher settings file, given
/// what is on disk (`None` for a missing file): isolation enabled is
/// rewritten to disabled; a file without the key gets it appended (after a
/// newline when one is missing); a file already correct needs no write.
pub open spec fn spec_fixed_isolation(existing: Option<Seq<char>>) -> Option<Seq<char>> {
    match existing {
        None => Some("VersionArgumentIndieV2:False\n"@),
        Some(content) => {
            if exists|i: int| crate::text::matches_at(content, "VersionArgumentIndieV2:True"@, i) {
                Some(
                    spec_replace_all(
                        content,
                        "VersionArgumentIndieV2:True"@,
                        "VersionArgumentIndieV2:False"@,
                    ),
                )
            } else if !(exists|i: int| crate::text::matches_at(content, "VersionArgumentIndieV2:"@, i)) {
                if content.len() > 0 && content[content.len() - 1] != '\n' {
                    Some(content + "\n"@ + "VersionArgumentIndieV2:False\n"@)
                } else {
                    Some(content + "VersionArgumentIndieV2:False\n"@)
                }
            } else {
                None
            }
        },
    }
}

/// Compute the corrected version-level settings content, as
/// `spec_fixed_isolation` describes; `None` means no write is needed.
pub fn fixed_isolation_content(existing: Option<&str>) -> (r: Option<String>)
    ensures
        match r {
            Some(c) => spec_fixed_isolation(
                match existing {
                    Some(e) => Some(e@),
                    None => None,
                },
            ) == Some(c@),
            None => spec_fixed_isolation(
                match existing {
                    Some(e) => Some(e@),
                    None => None,
                },
            ) is None,
        },
{
    match existing {
        None => Some(String::from_str("VersionArgumentIndieV2:False\n")),
        Some(content) => {
            if crate::text::contains_str(content, "VersionArgumentIndieV2:True") {
                proof {
                    reveal_strlit("VersionArgumentIndieV2:True");
                    assert("VersionArgumentIndieV2:True"@.len() == 27);
                }
                Some(
                    replace_all(
                        content,
                        "VersionArgumentIndieV2:True",
                        "VersionArgumentIndieV2:False",
                    ),
                )
            } else if !crate::text::contains_str(content, "VersionArgumentIndieV2:") {
                let n = content.unicode_len();
                let mut out = content.to_owned();
                if n > 0 && content.get_char(n - 1) != '\n' {
                    out.append("\n");
                }
                out.append("VersionArgumentIndieV2:False\n");
                Some(out)
            } else {
                None
            }
        },
    }
}

/// Whether the vanilla client must be fetched: both the version JSON and
/// the client archive must already be present for the step to be a no-op.
pub fn needs_vanilla_download(json_present: bool, jar_present: bool) -> (r: bool)
    ensures
        r == !(json_present && jar_present),
{
    !(json_present && jar_present)
}

/// The metadata URL for a version id among the manifest's `(id, url)`
/// entries: the `url` member of the first entry whose `id` matches, `None`
/// when no entry matches (or the matching entry has no `url`).
pub open spec fn spec_version_lookup(
    entries: Seq<(Option<Seq<char>>, Option<Seq<char>>)>,
    id: Seq<char>,
) -> Option<Seq<char>>
    decreases entries.len(),
{
    if entries.len() == 0 {
        None
    } else if entries[0].0 == Some(id) {
        entries[0].1
    } else {
        spec_version_lookup(entries.drop_first(), id)
    }
}

/// The URL of the version metadata document for `mc_version` inside the
/// remote version manifest text: the lookup of `spec_version_lookup` over
/// the manifest's decoded `versions` entries.
pub fn manifest_version_url(manifest_text: &str, mc_version: &str) -> (r: Option<String>)
    ensures
        opt_view(r) == spec_version_lookup(json_versions_of(manifest_text@), mc_version@),
{
    let entries = json_versions_text(manifest_text);
    let ghost decoded = json_versions_of(manifest_text@);
    let n = entries.len();
    let mut i: usize = 0;
    proof {
        assert(decoded.subrange(0, decoded.len() as int) =~= decoded);
    }
    while i < n
        invariant
            decoded == json_versions_of(manifest_text@),
            decoded == entries@.map_values(
                |p: (Option<String>, Option<String>)| opt_pair_view(p),
            ),
            n == entries@.len(),
            decoded.len() == n,
            0 <= i <= n,
            spec_version_lookup(decoded, mc_version@) == spec_version_lookup(
                decoded.subrange(i as int, n as int),
                mc_version@,
            ),
        decreases n - i,
    {
        let ghost rest = decoded.subrange(i as int, n as int);
        proof {
            assert(rest[0] == decoded[i as int]);
            assert(rest.drop_first() =~= decoded.subrange(i + 1, n as int));
            assert(decoded[i as int] == opt_pair_view(entries@[i as int]));
        }
        let hit = match &entries[i].0 {
            Some(id) => eq_str(id.as_str(), mc_version),
            None => false,
        };
        if hit {
            proof {
                assert(decoded[i as int].0 == Some(mc_version@));
                assert(spec_version_lookup(rest, mc_version@) == rest[0].1);
            }
            let result: Option<String> = match &entries[i].1 {
                Some(u) => Some(u.clone()),
                None => None,
            };
            proof {
                assert(opt_view(result) == opt_pair_view(entries@[i as int]).1);
                assert(opt_view(result) == spec_version_lookup(decoded, mc_version@));
            }
            return result;
        }
        proof {
            assert(decoded[i as int].0 != Some(mc_version@));
        }
        i += 1;
    }
    proof {
        assert(decoded.subrange(n as int, n as int) =~= Seq::<
            (Option<Seq<char>>, Option<Seq<char>>),
        >::empty());
    }
    None
}

/// The URL of the client archive inside a version metadata document: its
/// `downloads.client.url` string member.
pub fn client_jar_url(version_doc_text: &str) -> (r: Option<String>)
    ensures
        opt_view(r) == json_str_field3_of(version_doc_text@, "downloads"@, "client"@, "url"@),
{
    json_str_field3_text(version_doc_text, "downloads", "client", "url")
}

} // verus!
