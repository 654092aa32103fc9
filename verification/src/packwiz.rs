//! Content-sync stage decisions: the invocation arguments for the external
//! content-sync tool, the judgment of its exit, and the best-effort
//! diagnosis of its output for known failure signatures.

use vstd::prelude::*;
use vstd::string::StrSliceExecFns;

use crate::config::PACKWIZ_BOOTSTRAP_JAR;
use crate::errors::{UpdateError, UpdateErrorKind};
use crate::text::{contains_str_ci, i32_to_string, matches_at_ci, spec_i64_str};

verus! {

/// `pat` occurs in `s`, ASCII case ignored.
pub open spec fn has_ci(s: Seq<char>, pat: Seq<char>) -> bool {
    exists|i: int| matches_at_ci(s, pat, i)
}

/// The output signals a connectivity problem.
pub open spec fn spec_network_sign(c: Seq<char>) -> bool {
    has_ci(c, "connection"@) || has_ci(c, "timeout"@) || has_ci(c, "timed out"@) || has_ci(
        c,
        "unresolvedaddressexception"@,
    ) || has_ci(c, "unknownhostexception"@) || has_ci(c, "connect"@) || has_ci(c, "网络"@)
}

/// The output signals missing remote data.
pub open spec fn spec_null_sign(c: Seq<char>) -> bool {
    has_ci(c, "null"@) || has_ci(c, "nullpointerexception"@)
}

/// The output signals a runtime exception, reported only when nothing more
/// specific was found.
pub open spec fn spec_java_sign(c: Seq<char>) -> bool {
    has_ci(c, "java.lang"@) || has_ci(c, "exception"@)
}

/// The output signals a TLS problem.
pub open spec fn spec_tls_sign(c: Seq<char>) -> bool {
    has_ci(c, "ssl"@) || has_ci(c, "sslexception"@) || has_ci(c, "sslhandshakeexception"@)
        || has_ci(c, "handshake_failure"@) || has_ci(c, "certificate"@) || has_ci(
        c,
        "certificateerror"@,
    )
}

/// The output signals a file-permission problem.
pub open spec fn spec_perm_sign(c: Seq<char>) -> bool {
    has_ci(c, "permission"@) || has_ci(c, "access denied"@)
}

pub const HINT_NETWORK: &'static str = "网络连接失败或超时，请检查网络是否正常";

pub const HINT_NULL: &'static str = "版本信息获取失败（显示为 null），可能是网络问题导致远程数据未正确下载";

pub const HINT_JAVA: &'static str = "packwiz-installer 运行时发生 Java 异常";

pub const HINT_TLS: &'static str = "SSL/TLS 连接问题，可能是证书错误或网络代理干扰";

pub const HINT_PERM: &'static str = "文件访问权限不足，请检查目录权限或关闭占用文件的程序";

/// The hints the combined output earns, in reporting order. The generic
/// runtime-exception hint appears only when neither of the two more
/// specific leading signs matched.
pub open spec fn spec_sync_hints(c: Seq<char>) -> Seq<Seq<char>> {
    (if spec_network_sign(c) {
        seq![HINT_NETWORK@]
    } else {
        Seq::empty()
    }) + (if spec_null_sign(c) {
        seq![HINT_NULL@]
    } else {
        Seq::empty()
    }) + (if !spec_network_sign(c) && !spec_null_sign(c) && spec_java_sign(c) {
        seq![HINT_JAVA@]
    } else {
        Seq::empty()
    }) + (if spec_tls_sign(c) {
        seq![HINT_TLS@]
    } else {
        Seq::empty()
    }) + (if spec_perm_sign(c) {
        seq![HINT_PERM@]
    } else {
        Seq::empty()
    })
}

/// The combined output examined by the diagnosis: standard output, a
/// newline, standard error.
pub open spec fn spec_combined(stdout: Seq<char>, stderr: Seq<char>) -> Seq<char> {
    stdout + "\n"@ + stderr
}

/// The rendered diagnosis: empty when no sign matched, otherwise a header
/// and one bulleted line per hint.
pub open spec fn spec_diagnosis(stdout: Seq<char>, stderr: Seq<char>) -> Seq<char> {
    let hints = spec_sync_hints(spec_combined(stdout, stderr));
    if hints.len() == 0 {
        Seq::empty()
    } else {
        "\n可能的原因:\n"@ + spec_render_hints(hints) + "\n"@
    }
}

/// Bulleted hint lines, one per hint, joined with newlines.
pub open spec fn spec_render_hints(hints: Seq<Seq<char>>) -> Seq<char>
    decreases hints.len(),
{
    if hints.len() == 0 {
        Seq::empty()
    } else if hints.len() == 1 {
        "  • "@ + hints[0]
    } else {
        "  • "@ + hints[0] + "\n"@ + spec_render_hints(hints.drop_first())
    }
}

/// Analyse the captured output of a failed sync run and name the likely
/// causes, as `spec_diagnosis` describes.
pub fn diagnose_sync_failure(stdout: &str, stderr: &str) -> (r: String)
    ensures
        r@ == spec_diagnosis(stdout@, stderr@),
{
    let mut combined = String::new();
    combined.append(stdout);
    combined.append("\n");
    combined.append(stderr);
    let ghost c = spec_combined(stdout@, stderr@);
    proof {
        assert(combined@ == c);
    }
    let cs = combined.as_str();
    let network = contains_str_ci(cs, "connection") || contains_str_ci(cs, "timeout")
        || contains_str_ci(cs, "timed out") || contains_str_ci(cs, "unresolvedaddressexception")
        || contains_str_ci(cs, "unknownhostexception") || contains_str_ci(cs, "connect")
        || contains_str_ci(cs, "网络");
    let nullish = contains_str_ci(cs, "null") || contains_str_ci(cs, "nullpointerexception");
    let javaish = contains_str_ci(cs, "java.lang") || contains_str_ci(cs, "exception");
    let tls = contains_str_ci(cs, "ssl") || contains_str_ci(cs, "sslexception")
        || contains_str_ci(cs, "sslhandshakeexception") || contains_str_ci(
        cs,
        "handshake_failure",
    ) || contains_str_ci(cs, "certificate") || contains_str_ci(cs, "certificateerror");
    let perm = contains_str_ci(cs, "permission") || contains_str_ci(cs, "access denied");
    let mut hints: Vec<&str> = Vec::new();
    if network {
        hints.push(HINT_NETWORK);
    }
    if nullish {
        hints.push(HINT_NULL);
    }
    if !network && !nullish && javaish {
        hints.push(HINT_JAVA);
    }
    if tls {
        hints.push(HINT_TLS);
    }
    if perm {
        hints.push(HINT_PERM);
    }
    proof {
        assert(hints@.map_values(|s: &str| s@) =~~= spec_sync_hints(c));
    }
    if hints.len() == 0 {
        let empty = String::new();
        assert(empty@ =~= spec_diagnosis(stdout@, stderr@));
        return empty;
    }
    let mut out = String::new();
    out.append("\n可能的原因:\n");
    let ghost hv = hints@.map_values(|s: &str| s@);
    proof {
        assert(out@ =~= "\n可能的原因:\n"@);
        assert(hv.subrange(0, hv.len() as int) =~= hv);
    }
    let mut i: usize = 0;
    loop
        invariant_except_break
            hv == hints@.map_values(|s: &str| s@),
            hv.len() == hints@.len(),
            hv.len() > 0,
            0 <= i <= hv.len(),
            i < hv.len(),
            out@ + spec_render_hints(hv.subrange(i as int, hv.len() as int)) + "\n"@
                =~= "\n可能的原因:\n"@ + spec_render_hints(hv) + "\n"@,
        ensures
            out@ =~= "\n可能的原因:\n"@ + spec_render_hints(hv) + "\n"@,
        decreases hv.len() - i,
    {
        let ghost rest = hv.subrange(i as int, hv.len() as int);
        proof {
            assert(rest[0] == hv[i as int]);
            assert(rest.drop_first() =~= hv.subrange(i + 1, hv.len() as int));
        }
        out.append("  • ");
        out.append(hints[i]);
        if i < hints.len() - 1 {
            out.append("\n");
            i += 1;
        } else {
            out.append("\n");
            proof {
                assert(rest.len() == 1);
            }
            break;
        }
    }
    proof {
        assert(out@ =~= spec_diagnosis(stdout@, stderr@));
    }
    out
}

/// The rendering of a content-sync exit code: the number, or a note that
/// the process was killed.
pub open spec fn spec_exit_code_text(code: Option<i32>) -> Seq<char> {
    match code {
        Some(c) => spec_i64_str(c as int),
        None => "未知（进程被终止）"@,
    }
}

/// The full failure text of a content-sync run: the exit code, the
/// captured output, the diagnosis, and the standing advice.
pub open spec fn spec_sync_failure_message(
    code: Option<i32>,
    stdout: Seq<char>,
    stderr: Seq<char>,
) -> Seq<char> {
    "模组同步失败（退出码: "@ + spec_exit_code_text(code) + "）\n── 标准输出 ──\n"@ + stdout
        + "\n── 错误输出 ──\n"@ + stderr + spec_diagnosis(stdout, stderr)
        + "\n建议: 请检查网络连接后重试，如果问题持续请截图联系管理员。"@
}

/// Judge a finished content-sync run: success is exactly a zero exit
/// code; a failure carries the exit code, the captured output and the
/// diagnosis, in full.
pub fn sync_outcome(exit_code: Option<i32>, stdout: &str, stderr: &str) -> (r: Result<
    (),
    UpdateError,
>)
    ensures
        r is Ok <==> exit_code == Some(0i32),
        r matches Err(e) ==> e.kind == UpdateErrorKind::ExternalProcessFailed && e.chain@.len()
            == 1 && e.chain@[0]@ == spec_sync_failure_message(exit_code, stdout@, stderr@),
{
    let ok = match exit_code {
        Some(c) => c == 0,
        None => false,
    };
    if ok {
        Ok(())
    } else {
        let hints = diagnose_sync_failure(stdout, stderr);
        let mut detail = String::from_str("模组同步失败（退出码: ");
        match exit_code {
            Some(c) => {
                let rendered = i32_to_string(c);
                detail.append(rendered.as_str());
            },
            None => {
                detail.append("未知（进程被终止）");
            },
        }
        detail.append("）\n── 标准输出 ──\n");
        detail.append(stdout);
        detail.append("\n── 错误输出 ──\n");
        detail.append(stderr);
        detail.append(hints.as_str());
        detail.append("\n建议: 请检查网络连接后重试，如果问题持续请截图联系管理员。");
        Err(UpdateError::new(UpdateErrorKind::ExternalProcessFailed, detail))
    }
}

/// The command-line arguments for the content-sync tool: headless, client
/// mode, against the given content-index URL. The working directory must
/// be the managed content root.
pub fn sync_args(pack_url: &str) -> (r: Vec<String>)
    ensures
        r@.len() == 6,
        r@[0]@ == "-jar"@,
        r@[1]@ == PACKWIZ_BOOTSTRAP_JAR@,
        r@[2]@ == "-g"@,
        r@[3]@ == "-s"@,
        r@[4]@ == "client"@,
        r@[5]@ == pack_url@,
{
    let mut args: Vec<String> = Vec::new();
    args.push(String::from_str("-jar"));
    args.push(String::from_str(PACKWIZ_BOOTSTRAP_JAR));
    args.push(String::from_str("-g"));
    args.push(String::from_str("-s"));
    args.push(String::from_str("client"));
    args.push(String::from_str(pack_url));
    args
}

} // verus!
