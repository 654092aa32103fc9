//! Verified JSON text production for the small state records the updater
//! persists. Only flat objects of string members are ever written.

use vstd::prelude::*;
use vstd::string::StrSliceExecFns;

verus! {

/// Hex digit for a value below 16.
pub open spec fn hex_digit(d: nat) -> char {
    if d < 10 {
        ((48 + d) as u8) as char
    } else {
        ((87 + d) as u8) as char
    }
}

/// JSON escape of one character inside a string literal.
pub open spec fn escape_char(c: char) -> Seq<char> {
    if c == '"' {
        seq!['\\', '"']
    } else if c == '\\' {
        seq!['\\', '\\']
    } else if c == '\n' {
        seq!['\\', 'n']
    } else if c == '\r' {
        seq!['\\', 'r']
    } else if c == '\t' {
        seq!['\\', 't']
    } else if (c as u32) < 32 {
        seq!['\\', 'u', '0', '0', hex_digit((c as u32 / 16) as nat), hex_digit(
            (c as u32 % 16) as nat,
        )]
    } else {
        seq![c]
    }
}

/// JSON escape of a whole string body.
pub open spec fn spec_json_escape(s: Seq<char>) -> Seq<char>
    decreases s.len(),
{
    if s.len() == 0 {
        Seq::empty()
    } else {
        escape_char(s[0]) + spec_json_escape(s.drop_first())
    }
}

proof fn lemma_json_escape_snoc(s: Seq<char>, k: int)
    requires
        0 <= k < s.len(),
    ensures
        spec_json_escape(s.subrange(0, k + 1)) =~= spec_json_escape(s.subrange(0, k))
            + escape_char(s[k]),
    decreases k,
{
    let p = s.subrange(0, k + 1);
    if k == 0 {
        assert(spec_json_escape(s.subrange(0, 0)) =~= Seq::<char>::empty());
        assert(p.drop_first() =~= Seq::<char>::empty());
        assert(p[0] == s[0]);
        assert(spec_json_escape(p) == escape_char(p[0]) + spec_json_escape(p.drop_first()));
        assert(escape_char(s[0]) + Seq::<char>::empty() =~= escape_char(s[0]));
    } else {
        lemma_json_escape_snoc(s.drop_first(), k - 1);
        assert(s.drop_first().subrange(0, k) =~= s.subrange(0, k + 1).drop_first());
        assert(s.drop_first().subrange(0, k - 1) =~= s.subrange(0, k).drop_first());
        assert(s.drop_first()[k - 1] == s[k]);
        assert(spec_json_escape(s.subrange(0, k + 1)) == escape_char(s[0]) + spec_json_escape(
            s.subrange(0, k + 1).drop_first(),
        ));
        assert(spec_json_escape(s.subrange(0, k)) == escape_char(s[0]) + spec_json_escape(
            s.subrange(0, k).drop_first(),
        ));
    }
}

/// Append the JSON escape of `s` to `out`.
pub fn append_json_escaped(out: &mut String, s: &str)
    ensures
        final(out)@ == old(out)@ + spec_json_escape(s@),
{
    let ghost base = out@;
    let n = s.unicode_len();
    let mut i: usize = 0;
    proof {
        assert(spec_json_escape(s@.subrange(0, 0)) =~= Seq::<char>::empty());
    }
    while i < n
        invariant
            n == s@.len(),
            0 <= i <= n,
            out@ =~= base + spec_json_escape(s@.subrange(0, i as int)),
        decreases n - i,
    {
        let hex = "0123456789abcdef";
        proof {
            reveal_strlit("0123456789abcdef");
            reveal_strlit("\\\"");
            reveal_strlit("\\\\");
            reveal_strlit("\\n");
            reveal_strlit("\\r");
            reveal_strlit("\\t");
            reveal_strlit("\\u00");
        }
        let c = s.get_char(i);
        if c == '"' {
            out.append("\\\"");
            assert("\\\""@ =~= escape_char(c));
        } else if c == '\\' {
            out.append("\\\\");
            assert("\\\\"@ =~= escape_char(c));
        } else if c == '\n' {
            out.append("\\n");
            assert("\\n"@ =~= escape_char(c));
        } else if c == '\r' {
            out.append("\\r");
            assert("\\r"@ =~= escape_char(c));
        } else if c == '\t' {
            out.append("\\t");
            assert("\\t"@ =~= escape_char(c));
        } else if (c as u32) < 32 {
            out.append("\\u00");
            let hi = ((c as u32) / 16) as usize;
            let lo = ((c as u32) % 16) as usize;
            assert(hex.is_ascii());
            assert(hex@.len() == 16);
            assert(hex@[hi as int] == hex_digit(hi as nat));
            assert(hex@[lo as int] == hex_digit(lo as nat));
            out.append(hex.substring_ascii(hi, hi + 1));
            out.append(hex.substring_ascii(lo, lo + 1));
            assert("\\u00"@ + hex@.subrange(hi as int, hi + 1) + hex@.subrange(lo as int, lo + 1)
                =~= escape_char(c));
        } else {
            out.append(s.substring_char(i, i + 1));
            assert(s@.subrange(i as int, i + 1) =~= escape_char(c));
        }
        proof {
            lemma_json_escape_snoc(s@, i as int);
        }
        i += 1;
    }
    proof {
        assert(s@.subrange(0, n as int) =~= s@);
    }
}

/// The JSON string literal for `s`, quotes included.
pub open spec fn spec_json_string(s: Seq<char>) -> Seq<char> {
    seq!['"'] + spec_json_escape(s) + seq!['"']
}

/// Append the JSON string literal for `s` to `out`.
pub fn append_json_string(out: &mut String, s: &str)
    ensures
        final(out)@ == old(out)@ + spec_json_string(s@),
{
    proof {
        reveal_strlit("\"");
    }
    out.append("\"");
    append_json_escaped(out, s);
    out.append("\"");
    proof {
        assert("\""@ =~= seq!['"']);
        assert(old(out)@ + spec_json_string(s@) =~= old(out)@ + "\""@ + spec_json_escape(s@)
            + "\""@);
    }
}

} // verus!
