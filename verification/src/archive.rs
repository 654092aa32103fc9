//! Archive installation: reading a ZIP archive through a trusted boundary,
//! and the two fully-verified extraction policies — strip-common-prefix for
//! tool archives and merge-without-overwrite for user-settings archives.

use vstd::prelude::*;
use vstd::string::StrSliceExecFns;

use crate::errors::{UpdateError, UpdateErrorKind};
use crate::text::{
    eq_str, first_occ, first_occ_exec, spec_split_char, spec_starts_with, split_char,
    starts_with_str,
};

verus! {

/// Declaration of the opaque in-memory reader the archive is opened over.
#[verifier::external_type_specification]
#[verifier::external_body]
#[verifier::reject_recursive_types(T)]
pub struct ExCursor<T>(std::io::Cursor<T>);

/// Declaration of the opaque ZIP archive type.
#[verifier::external_type_specification]
#[verifier::external_body]
#[verifier::reject_recursive_types(R)]
pub struct ExZipArchive<R>(zip::ZipArchive<R>);

/// One archive entry, decoded to plain values.
#[derive(Debug)]
pub struct ZipEntry {
    pub name: String,
    pub is_dir: bool,
    pub data: Vec<u8>,
}

/// The entries of an archive: for each, its path, whether it is a
/// directory, and its decompressed bytes. What an archive value holds is a
/// function of that value alone.
pub uninterp spec fn zip_entries_of(a: zip::ZipArchive<std::io::Cursor<Vec<u8>>>) -> Seq<
    (Seq<char>, bool, Seq<u8>),
>;

/// Relies on zip::ZipArchive::new over an in-memory cursor: opens the
/// archive or reports why it cannot be read.
#[verifier::external_body]
pub fn zip_open(data: Vec<u8>) -> (r: Result<
    zip::ZipArchive<std::io::Cursor<Vec<u8>>>,
    String,
>) {
    zip::ZipArchive::new(std::io::Cursor::new(data)).map_err(|e| e.to_string())
}

/// Relies on zip::ZipArchive::len: the number of entries.
#[verifier::external_body]
pub fn zip_len(a: &zip::ZipArchive<std::io::Cursor<Vec<u8>>>) -> (r: usize)
    ensures
        r == zip_entries_of(*a).len(),
{
    a.len()
}

/// Relies on zip::ZipArchive::by_index and zip::read::ZipFile::{name,
/// is_dir} with std::io::Read::read_to_end: decodes entry `i` to plain
/// values. Reading may reposition the underlying cursor but leaves the
/// archive's entries unchanged.
#[verifier::external_body]
pub fn zip_entry(a: &mut zip::ZipArchive<std::io::Cursor<Vec<u8>>>, i: usize) -> (r: Result<
    ZipEntry,
    String,
>)
    requires
        i < zip_entries_of(*old(a)).len(),
    ensures
        zip_entries_of(*final(a)) == zip_entries_of(*old(a)),
        r matches Ok(e) ==> e.name@ == zip_entries_of(*old(a))[i as int].0 && e.is_dir
            == zip_entries_of(*old(a))[i as int].1 && e.data@ == zip_entries_of(
            *old(a),
        )[i as int].2,
{
    let mut file = match a.by_index(i) {
        Ok(f) => f,
        Err(e) => {
            return Err(e.to_string());
        },
    };
    let name = file.name().to_owned();
    let is_dir = file.is_dir();
    let mut data = Vec::new();
    match std::io::Read::read_to_end(&mut file, &mut data) {
        Ok(_) => Ok(ZipEntry { name, is_dir, data }),
        Err(e) => Err(e.to_string()),
    }
}

/// Decode every entry of an archive to plain values, in order.
pub fn read_zip_entries(a: &mut zip::ZipArchive<std::io::Cursor<Vec<u8>>>) -> (r: Result<
    Vec<ZipEntry>,
    UpdateError,
>)
    ensures
        zip_entries_of(*final(a)) == zip_entries_of(*old(a)),
        r matches Ok(v) ==> {
            &&& v@.len() == zip_entries_of(*old(a)).len()
            &&& forall|i: int|
                0 <= i < v@.len() ==> (#[trigger] v@[i]).name@ == zip_entries_of(*old(a))[i].0
                    && v@[i].is_dir == zip_entries_of(*old(a))[i].1 && v@[i].data@
                    == zip_entries_of(*old(a))[i].2
        },
        r matches Err(e) ==> e.kind == UpdateErrorKind::Filesystem,
{
    let n = zip_len(a);
    let ghost entries0 = zip_entries_of(*a);
    let mut out: Vec<ZipEntry> = Vec::new();
    let mut i: usize = 0;
    while i < n
        invariant
            zip_entries_of(*a) == entries0,
            entries0 == zip_entries_of(*old(a)),
            n == entries0.len(),
            0 <= i <= n,
            out@.len() == i,
            forall|j: int|
                0 <= j < i ==> (#[trigger] out@[j]).name@ == entries0[j].0
                    && out@[j].is_dir == entries0[j].1 && out@[j].data@
                    == entries0[j].2,
        decreases n - i,
    {
        match zip_entry(a, i) {
            Ok(e) => {
                let ghost prev = out@;
                out.push(e);
                proof {
                    assert forall|j: int| 0 <= j < i + 1 implies ((#[trigger] out@[j]).name@
                        == entries0[j].0 && out@[j].is_dir == entries0[j].1 && out@[j].data@
                        == entries0[j].2) by {
                        if j < i as int {
                            assert(out@[j] == prev[j]);
                            assert(prev[j].name@ == entries0[j].0);
                        }
                    }
                }
            },
            Err(detail) => {
                return Err(
                    UpdateError::new(UpdateErrorKind::Filesystem, detail).wrap(
                        String::from_str("读取 ZIP 条目失败"),
                    ),
                );
            },
        }
        i += 1;
    }
    Ok(out)
}

/// The entry names of a decoded archive.
pub open spec fn entry_names(entries: Seq<ZipEntry>) -> Seq<Seq<char>> {
    entries.map_values(|e: ZipEntry| e.name@)
}

/// The first path segment of an entry name: what stands before the first
/// slash, or the whole name when it has none.
pub open spec fn first_segment(name: Seq<char>) -> Seq<char> {
    name.subrange(0, first_occ(name, '/'))
}

/// The shared top-level directory prefix of an archive, slash included:
/// the first entry's first segment, provided it is non-empty and every
/// later entry starts with it. Otherwise there is no common prefix and no
/// stripping occurs.
pub open spec fn spec_common_prefix(names: Seq<Seq<char>>) -> Option<Seq<char>> {
    if names.len() == 0 {
        None
    } else {
        let cand = first_segment(names[0]);
        if cand.len() == 0 {
            None
        } else {
            let prefix = cand + seq!['/'];
            if forall|i: int| 1 <= i < names.len() ==> spec_starts_with(#[trigger] names[i], prefix) {
                Some(prefix)
            } else {
                None
            }
        }
    }
}

/// Detect the shared top-level directory of an archive, as
/// `spec_common_prefix` describes.
pub fn detect_common_prefix(entries: &Vec<ZipEntry>) -> (r: Option<String>)
    ensures
        match r {
            Some(p) => spec_common_prefix(entry_names(entries@)) == Some(p@),
            None => spec_common_prefix(entry_names(entries@)) is None,
        },
{
    let ghost names = entry_names(entries@);
    if entries.len() == 0 {
        return None;
    }
    let first_name = entries[0].name.as_str();
    let seg_end = first_occ_exec(first_name, '/');
    if seg_end == 0 {
        assert(first_segment(names[0]).len() == 0);
        return None;
    }
    let mut prefix = first_name.substring_char(0, seg_end).to_owned();
    prefix.append("/");
    proof {
        reveal_strlit("/");
        assert(prefix@ =~= first_segment(names[0]) + seq!['/']);
    }
    let mut i: usize = 1;
    while i < entries.len()
        invariant
            names == entry_names(entries@),
            names.len() == entries@.len(),
            1 <= i <= entries@.len(),
            entries@.len() >= 1,
            first_segment(names[0]).len() > 0,
            prefix@ == first_segment(names[0]) + seq!['/'],
            forall|j: int| 1 <= j < i ==> spec_starts_with(#[trigger] names[j], prefix@),
        decreases entries@.len() - i,
    {
        if !starts_with_str(entries[i].name.as_str(), prefix.as_str()) {
            assert(!spec_starts_with(names[i as int], prefix@));
            return None;
        }
        i += 1;
    }
    Some(prefix)
}

/// `s` with every leading slash removed.
pub open spec fn strip_lead_slashes(s: Seq<char>) -> Seq<char>
    decreases s.len(),
{
    if s.len() > 0 && s[0] == '/' {
        strip_lead_slashes(s.drop_first())
    } else {
        s
    }
}

proof fn lemma_strip_lead_slashes(s: Seq<char>, k: int)
    requires
        0 <= k <= s.len(),
        forall|i: int| 0 <= i < k ==> s[i] == '/',
        k < s.len() ==> s[k] != '/',
    ensures
        strip_lead_slashes(s) == s.subrange(k, s.len() as int),
    decreases k,
{
    if k == 0 {
        assert(s.subrange(0, s.len() as int) =~= s);
    } else {
        lemma_strip_lead_slashes(s.drop_first(), k - 1);
        assert(s.drop_first().subrange(k - 1, s.drop_first().len() as int) =~= s.subrange(
            k,
            s.len() as int,
        ));
    }
}

/// The relative output path of one entry under strip-prefix extraction:
/// with a common prefix, the name loses the prefix (entries that do not
/// carry it keep their full name) and any leading slashes; with none, the
/// name is kept as it is.
pub open spec fn spec_strip_entry(name: Seq<char>, prefix: Option<Seq<char>>) -> Seq<char> {
    match prefix {
        Some(p) => {
            let stripped = if spec_starts_with(name, p) {
                name.subrange(p.len() as int, name.len() as int)
            } else {
                name
            };
            strip_lead_slashes(stripped)
        },
        None => name,
    }
}

/// Strip one entry name, as `spec_strip_entry` describes.
pub fn strip_entry_name(name: &str, prefix: Option<&String>) -> (r: String)
    ensures
        r@ == spec_strip_entry(
            name@,
            match prefix {
                Some(p) => Some(p@),
                None => None,
            },
        ),
{
    match prefix {
        Some(p) => {
            let stripped: String = if starts_with_str(name, p.as_str()) {
                let n = name.unicode_len();
                let pl = p.as_str().unicode_len();
                name.substring_char(pl, n).to_owned()
            } else {
                name.to_owned()
            };
            let sn = stripped.as_str().unicode_len();
            let mut k: usize = 0;
            while k < sn && stripped.as_str().get_char(k) == '/'
                invariant
                    sn == stripped@.len(),
                    0 <= k <= sn,
                    forall|i: int| 0 <= i < k ==> stripped@[i] == '/',
                decreases sn - k,
            {
                k += 1;
            }
            proof {
                lemma_strip_lead_slashes(stripped@, k as int);
            }
            stripped.as_str().substring_char(k, sn).to_owned()
        },
        None => name.to_owned(),
    }
}

/// The planned output paths of strip-prefix extraction, one per entry in
/// order: `None` for an entry whose stripped path is empty (the top-level
/// directory itself), otherwise the relative path to create — a directory
/// entry becomes a directory, a file entry a file, parents created as
/// needed and files overwritten unconditionally.
pub fn plan_strip_extraction(entries: &Vec<ZipEntry>) -> (r: Vec<Option<String>>)
    ensures
        r@.len() == entries@.len(),
        forall|i: int|
            0 <= i < entries@.len() ==> {
                let rel = spec_strip_entry(
                    (#[trigger] entries@[i]).name@,
                    spec_common_prefix(entry_names(entries@)),
                );
                match r@[i] {
                    Some(p) => p@ == rel && rel.len() > 0,
                    None => rel.len() == 0,
                }
            },
{
    let prefix = detect_common_prefix(entries);
    let mut out: Vec<Option<String>> = Vec::new();
    let mut i: usize = 0;
    while i < entries.len()
        invariant
            0 <= i <= entries@.len(),
            out@.len() == i,
            match prefix {
                Some(ref p) => spec_common_prefix(entry_names(entries@)) == Some(p@),
                None => spec_common_prefix(entry_names(entries@)) is None,
            },
            forall|j: int|
                0 <= j < i ==> {
                    let rel = spec_strip_entry(
                        (#[trigger] entries@[j]).name@,
                        spec_common_prefix(entry_names(entries@)),
                    );
                    match out@[j] {
                        Some(p) => p@ == rel && rel.len() > 0,
                        None => rel.len() == 0,
                    }
                },
        decreases entries@.len() - i,
    {
        let rel = strip_entry_name(entries[i].name.as_str(), prefix.as_ref());
        if rel.as_str().unicode_len() == 0 {
            out.push(None);
        } else {
            out.push(Some(rel));
        }
        i += 1;
    }
    out
}

/// Separator normalisation: backslashes read as slashes.
pub open spec fn norm_seps(s: Seq<char>) -> Seq<char> {
    s.map_values(|c: char| if c == '\\' { '/' } else { c })
}

/// A path that would escape the destination directory: absolute (leading
/// slash), drive-qualified, or holding a `..` segment.
pub open spec fn spec_is_traversal(name: Seq<char>) -> bool {
    let n = norm_seps(name);
    (n.len() > 0 && n[0] == '/') || (n.len() >= 2 && n[1] == ':') || exists|i: int|
        0 <= i < spec_split_char(n, '/').len() && spec_split_char(n, '/')[i] == ".."@
}

/// Detect a path-traversal entry name, as `spec_is_traversal` describes.
pub fn is_traversal(name: &str) -> (r: bool)
    ensures
        r == spec_is_traversal(name@),
{
    let n = name.unicode_len();
    let mut normd = String::new();
    let mut i: usize = 0;
    while i < n
        invariant
            n == name@.len(),
            0 <= i <= n,
            normd@ =~= norm_seps(name@.subrange(0, i as int)),
        decreases n - i,
    {
        proof {
            reveal_strlit("/");
        }
        let c = name.get_char(i);
        if c == '\\' {
            normd.append("/");
        } else {
            normd.append(name.substring_char(i, i + 1));
        }
        proof {
            assert(norm_seps(name@.subrange(0, i + 1)) =~= norm_seps(
                name@.subrange(0, i as int),
            ) + norm_seps(name@.subrange(i as int, i + 1)));
            assert(norm_seps(name@.subrange(i as int, i + 1)) =~= seq![
                if name@[i as int] == '\\' {
                    '/'
                } else {
                    name@[i as int]
                },
            ]);
        }
        i += 1;
    }
    proof {
        assert(name@.subrange(0, n as int) =~= name@);
        assert(normd@ =~= norm_seps(name@));
    }
    let nn = normd.as_str().unicode_len();
    if nn > 0 && normd.as_str().get_char(0) == '/' {
        return true;
    }
    if nn >= 2 && normd.as_str().get_char(1) == ':' {
        return true;
    }
    let parts = split_char(normd.as_str(), '/');
    let mut k: usize = 0;
    while k < parts.len()
        invariant
            parts@.len() == spec_split_char(normd@, '/').len(),
            forall|j: int|
                0 <= j < parts@.len() ==> (#[trigger] parts@[j])@ == spec_split_char(
                    normd@,
                    '/',
                )[j],
            normd@ == norm_seps(name@),
            0 <= k <= parts@.len(),
            forall|j: int| 0 <= j < k ==> spec_split_char(normd@, '/')[j] != ".."@,
            !((normd@.len() > 0 && normd@[0] == '/') || (normd@.len() >= 2 && normd@[1]
                == ':')),
        decreases parts@.len() - k,
    {
        if eq_str(parts[k].as_str(), "..") {
            assert(spec_split_char(normd@, '/')[k as int] == ".."@);
            return true;
        }
        k += 1;
    }
    false
}

/// What merge-without-overwrite extraction does with one entry.
#[derive(Debug)]
pub enum SettingsAction {
    /// Nothing: an empty name, or a file the destination already has —
    /// existing user files are never clobbered.
    Skip,
    /// Create this directory (and its parents).
    MakeDir(String),
    /// Write this file at its literal relative path, parents created as
    /// needed.
    Write(String),
}

/// Plan merge-without-overwrite extraction. `dest_exists[i]` says whether
/// the destination already holds a file at entry `i`'s path. An entry
/// whose path would escape the destination directory fails the whole
/// archive before any write is planned.
pub fn plan_settings_extraction(entries: &Vec<ZipEntry>, dest_exists: &Vec<bool>) -> (r: Result<
    Vec<SettingsAction>,
    UpdateError,
>)
    requires
        dest_exists@.len() == entries@.len(),
    ensures
        match r {
            Ok(plan) => {
                &&& plan@.len() == entries@.len()
                &&& forall|i: int|
                    0 <= i < entries@.len() ==> !spec_is_traversal(
                        (#[trigger] entries@[i]).name@,
                    )
                &&& forall|i: int|
                    0 <= i < entries@.len() ==> {
                        let name = (#[trigger] entries@[i]).name@;
                        match plan@[i] {
                            SettingsAction::Skip => name.len() == 0 || (!entries@[i].is_dir
                                && dest_exists@[i]),
                            SettingsAction::MakeDir(p) => p@ == name && name.len() > 0
                                && entries@[i].is_dir,
                            SettingsAction::Write(p) => p@ == name && name.len() > 0
                                && !entries@[i].is_dir && !dest_exists@[i],
                        }
                    }
            },
            Err(e) => e.kind == UpdateErrorKind::Filesystem && exists|i: int|
                0 <= i < entries@.len() && spec_is_traversal((#[trigger] entries@[i]).name@),
        },
{
    let mut out: Vec<SettingsAction> = Vec::new();
    let mut i: usize = 0;
    while i < entries.len()
        invariant
            dest_exists@.len() == entries@.len(),
            0 <= i <= entries@.len(),
            out@.len() == i,
            forall|j: int|
                0 <= j < i ==> !spec_is_traversal((#[trigger] entries@[j]).name@),
            forall|j: int|
                0 <= j < i ==> {
                    let name = (#[trigger] entries@[j]).name@;
                    match out@[j] {
                        SettingsAction::Skip => name.len() == 0 || (!entries@[j].is_dir
                            && dest_exists@[j]),
                        SettingsAction::MakeDir(p) => p@ == name && name.len() > 0
                            && entries@[j].is_dir,
                        SettingsAction::Write(p) => p@ == name && name.len() > 0
                            && !entries@[j].is_dir && !dest_exists@[j],
                    }
                },
        decreases entries@.len() - i,
    {
        let name = &entries[i].name;
        if is_traversal(name.as_str()) {
            let mut detail = String::from_str("设置包条目路径越界: ");
            detail.append(name.as_str());
            return Err(
                UpdateError::new(UpdateErrorKind::Filesystem, detail),
            );
        }
        if name.as_str().unicode_len() == 0 {
            out.push(SettingsAction::Skip);
        } else if entries[i].is_dir {
            out.push(SettingsAction::MakeDir(name.clone()));
        } else if dest_exists[i] {
            out.push(SettingsAction::Skip);
        } else {
            out.push(SettingsAction::Write(name.clone()));
        }
        i += 1;
    }
    Ok(out)
}

} // verus!
