//! Character-level text utilities with exact specifications.
//!
//! All contracts are stated over `Seq<char>` views of `&str` / `String`.

use vstd::prelude::*;
use vstd::string::StrSliceExecFns;

verus! {

/// Whitespace as recognised by the trimming helpers.
pub open spec fn is_ws(c: char) -> bool {
    c == ' ' || c == '\t' || c == '\r' || c == '\n'
}

/// A decimal digit.
pub open spec fn is_digit(c: char) -> bool {
    '0' <= c && c <= '9'
}

/// `s` with leading whitespace removed.
pub open spec fn spec_trim_front(s: Seq<char>) -> Seq<char>
    decreases s.len(),
{
    if s.len() > 0 && is_ws(s[0]) {
        spec_trim_front(s.drop_first())
    } else {
        s
    }
}

/// `s` with trailing whitespace removed.
pub open spec fn spec_trim_back(s: Seq<char>) -> Seq<char>
    decreases s.len(),
{
    if s.len() > 0 && is_ws(s[s.len() - 1]) {
        spec_trim_back(s.drop_last())
    } else {
        s
    }
}

/// `s` with whitespace removed from both ends.
pub open spec fn spec_trim(s: Seq<char>) -> Seq<char> {
    spec_trim_back(spec_trim_front(s))
}

proof fn lemma_trim_front_subrange(s: Seq<char>, k: int)
    requires
        0 <= k <= s.len(),
        forall|i: int| 0 <= i < k ==> is_ws(s[i]),
        k < s.len() ==> !is_ws(s[k]),
    ensures
        spec_trim_front(s) == s.subrange(k, s.len() as int),
    decreases k,
{
    if k == 0 {
        assert(s.subrange(0, s.len() as int) =~= s);
    } else {
        lemma_trim_front_subrange(s.drop_first(), k - 1);
        assert(s.drop_first().subrange(k - 1, s.drop_first().len() as int) =~= s.subrange(
            k,
            s.len() as int,
        ));
    }
}

proof fn lemma_trim_back_subrange(s: Seq<char>, k: int)
    requires
        0 <= k <= s.len(),
        forall|i: int| k <= i < s.len() ==> is_ws(s[i]),
        k > 0 ==> !is_ws(s[k - 1]),
    ensures
        spec_trim_back(s) == s.subrange(0, k),
    decreases s.len() - k,
{
    if k == s.len() {
        assert(s.subrange(0, s.len() as int) =~= s);
    } else {
        lemma_trim_back_subrange(s.drop_last(), k);
        assert(s.drop_last().subrange(0, k) =~= s.subrange(0, k));
    }
}

/// Copy of `s` with surrounding whitespace removed.
pub fn trim(s: &str) -> (r: String)
    ensures
        r@ == spec_trim(s@),
{
    let n = s.unicode_len();
    let mut start: usize = 0;
    while start < n && is_ws_exec(s.get_char(start))
        invariant
            n == s@.len(),
            0 <= start <= n,
            forall|i: int| 0 <= i < start ==> is_ws(s@[i]),
        decreases n - start,
    {
        start += 1;
    }
    proof {
        lemma_trim_front_subrange(s@, start as int);
    }
    let mut end: usize = n;
    while end > start && is_ws_exec(s.get_char(end - 1))
        invariant
            n == s@.len(),
            start <= end <= n,
            forall|i: int| 0 <= i < start ==> is_ws(s@[i]),
            start < n ==> !is_ws(s@[start as int]),
            forall|i: int| end <= i < n ==> is_ws(s@[i]),
        decreases end,
    {
        end -= 1;
    }
    proof {
        let front = s@.subrange(start as int, n as int);
        lemma_trim_back_subrange(front, end - start);
        assert(front.subrange(0, end - start) =~= s@.subrange(start as int, end as int));
    }
    let piece = s.substring_char(start, end);
    piece.to_owned()
}

/// Executable form of `is_ws`.
pub fn is_ws_exec(c: char) -> (r: bool)
    ensures
        r == is_ws(c),
{
    c == ' ' || c == '\t' || c == '\r' || c == '\n'
}

/// Character-wise string equality.
pub fn eq_str(a: &str, b: &str) -> (r: bool)
    ensures
        r == (a@ == b@),
{
    let na = a.unicode_len();
    let nb = b.unicode_len();
    if na != nb {
        assert(a@ != b@);
        return false;
    }
    let mut i: usize = 0;
    while i < na
        invariant
            na == a@.len(),
            na == b@.len(),
            0 <= i <= na,
            forall|j: int| 0 <= j < i ==> a@[j] == b@[j],
        decreases na - i,
    {
        if a.get_char(i) != b.get_char(i) {
            assert(a@ != b@);
            return false;
        }
        i += 1;
    }
    proof {
        assert(a@ =~= b@);
    }
    true
}

/// True when `s` begins with `prefix`.
pub open spec fn spec_starts_with(s: Seq<char>, prefix: Seq<char>) -> bool {
    prefix.len() <= s.len() && s.subrange(0, prefix.len() as int) == prefix
}

/// True when `s` ends with `suffix`.
pub open spec fn spec_ends_with(s: Seq<char>, suffix: Seq<char>) -> bool {
    suffix.len() <= s.len() && s.subrange(s.len() - suffix.len(), s.len() as int) == suffix
}

pub fn starts_with_str(s: &str, prefix: &str) -> (r: bool)
    ensures
        r == spec_starts_with(s@, prefix@),
{
    let n = s.unicode_len();
    let np = prefix.unicode_len();
    if np > n {
        return false;
    }
    let mut i: usize = 0;
    while i < np
        invariant
            n == s@.len(),
            np == prefix@.len(),
            np <= n,
            0 <= i <= np,
            forall|j: int| 0 <= j < i ==> s@[j] == prefix@[j],
        decreases np - i,
    {
        if s.get_char(i) != prefix.get_char(i) {
            assert(s@.subrange(0, np as int)[i as int] != prefix@[i as int]);
            return false;
        }
        i += 1;
    }
    proof {
        assert(s@.subrange(0, np as int) =~= prefix@);
    }
    true
}

pub fn ends_with_str(s: &str, suffix: &str) -> (r: bool)
    ensures
        r == spec_ends_with(s@, suffix@),
{
    let n = s.unicode_len();
    let ns = suffix.unicode_len();
    if ns > n {
        return false;
    }
    let off = n - ns;
    let mut i: usize = 0;
    while i < ns
        invariant
            n == s@.len(),
            ns == suffix@.len(),
            ns <= n,
            off == n - ns,
            0 <= i <= ns,
            forall|j: int| 0 <= j < i ==> s@[off + j] == suffix@[j],
        decreases ns - i,
    {
        if s.get_char(off + i) != suffix.get_char(i) {
            assert(s@.subrange(n - ns, n as int)[i as int] != suffix@[i as int]);
            return false;
        }
        i += 1;
    }
    proof {
        assert(s@.subrange(n - ns, n as int) =~= suffix@);
    }
    true
}

/// First index `i >= from` with `s[i] == c`, if any.
pub fn find_char_from(s: &str, c: char, from: usize) -> (r: Option<usize>)
    requires
        from <= s@.len(),
    ensures
        match r {
            Some(i) => from <= i < s@.len() && s@[i as int] == c && forall|j: int|
                from <= j < i ==> s@[j] != c,
            None => forall|j: int| from <= j < s@.len() ==> s@[j] != c,
        },
{
    let n = s.unicode_len();
    let mut i: usize = from;
    while i < n
        invariant
            n == s@.len(),
            from <= i <= n,
            forall|j: int| from <= j < i ==> s@[j] != c,
        decreases n - i,
    {
        if s.get_char(i) == c {
            return Some(i);
        }
        i += 1;
    }
    None
}

/// `sub` occurs in `s` starting at index `i`.
pub open spec fn matches_at(s: Seq<char>, sub: Seq<char>, i: int) -> bool {
    0 <= i && i + sub.len() <= s.len() && s.subrange(i, i + sub.len()) == sub
}

/// ASCII-lowercased character; other characters unchanged.
pub open spec fn lower_char(c: char) -> char {
    if 'A' <= c && c <= 'Z' {
        ((c as u8) + 32) as char
    } else {
        c
    }
}

/// `sub` occurs in `s` at `i` up to ASCII case.
pub open spec fn matches_at_ci(s: Seq<char>, sub: Seq<char>, i: int) -> bool {
    0 <= i && i + sub.len() <= s.len() && forall|j: int|
        0 <= j < sub.len() ==> lower_char(s[i + j]) == lower_char(sub[j])
}

pub fn lower_char_exec(c: char) -> (r: char)
    ensures
        r == lower_char(c),
{
    if 'A' <= c && c <= 'Z' {
        ((c as u8) + 32) as char
    } else {
        c
    }
}

/// Substring search: does `sub` occur anywhere in `s`?
pub fn contains_str(s: &str, sub: &str) -> (r: bool)
    ensures
        r == exists|i: int| matches_at(s@, sub@, i),
{
    let n = s.unicode_len();
    let m = sub.unicode_len();
    if m > n {
        assert(forall|i: int| !matches_at(s@, sub@, i));
        return false;
    }
    if m == 0 {
        proof {
            assert(s@.subrange(0, 0) =~= sub@);
            assert(matches_at(s@, sub@, 0));
        }
        return true;
    }
    let mut i: usize = 0;
    while i <= n - m
        invariant
            n == s@.len(),
            m == sub@.len(),
            0 < m <= n,
            0 <= i <= n - m + 1,
            forall|k: int| 0 <= k < i ==> !matches_at(s@, sub@, k),
        decreases n - i,
    {
        let mut j: usize = 0;
        let mut hit = true;
        while j < m
            invariant
                n == s@.len(),
                m == sub@.len(),
                0 <= i <= n - m,
                0 <= j <= m,
                hit ==> forall|t: int| 0 <= t < j ==> s@[i + t] == sub@[t],
                !hit ==> !matches_at(s@, sub@, i as int),
            decreases m - j,
        {
            if s.get_char(i + j) != sub.get_char(j) {
                proof {
                    if matches_at(s@, sub@, i as int) {
                        assert(s@.subrange(i as int, i + m)[j as int] == sub@[j as int]);
                    }
                }
                hit = false;
                j = m;
            } else {
                j += 1;
            }
        }
        if hit {
            proof {
                assert(s@.subrange(i as int, i + m) =~= sub@);
                assert(matches_at(s@, sub@, i as int));
            }
            return true;
        }
        i += 1;
    }
    proof {
        assert forall|k: int| matches_at(s@, sub@, k) implies false by {
            assert(0 <= k <= n - m);
        }
    }
    false
}

/// Substring search up to ASCII case.
pub fn contains_str_ci(s: &str, sub: &str) -> (r: bool)
    ensures
        r == exists|i: int| matches_at_ci(s@, sub@, i),
{
    let n = s.unicode_len();
    let m = sub.unicode_len();
    if m > n {
        assert(forall|i: int| !matches_at_ci(s@, sub@, i));
        return false;
    }
    if m == 0 {
        assert(matches_at_ci(s@, sub@, 0));
        return true;
    }
    let mut i: usize = 0;
    while i <= n - m
        invariant
            n == s@.len(),
            m == sub@.len(),
            0 < m <= n,
            0 <= i <= n - m + 1,
            forall|k: int| 0 <= k < i ==> !matches_at_ci(s@, sub@, k),
        decreases n - i,
    {
        let mut j: usize = 0;
        let mut hit = true;
        while j < m
            invariant
                n == s@.len(),
                m == sub@.len(),
                0 <= i <= n - m,
                0 <= j <= m,
                hit ==> forall|t: int| 0 <= t < j ==> lower_char(s@[i + t]) == lower_char(sub@[t]),
                !hit ==> !matches_at_ci(s@, sub@, i as int),
            decreases m - j,
        {
            if lower_char_exec(s.get_char(i + j)) != lower_char_exec(sub.get_char(j)) {
                hit = false;
                j = m;
            } else {
                j += 1;
            }
        }
        if hit {
            assert(matches_at_ci(s@, sub@, i as int));
            return true;
        }
        i += 1;
    }
    proof {
        assert forall|k: int| matches_at_ci(s@, sub@, k) implies false by {
            assert(0 <= k <= n - m);
        }
    }
    false
}

/// Every character of `s` is a decimal digit.
pub open spec fn all_digits(s: Seq<char>) -> bool {
    forall|i: int| 0 <= i < s.len() ==> is_digit(s[i])
}

/// Numeric value of a digit string, most significant digit first.
pub open spec fn digits_val(s: Seq<char>) -> nat
    decreases s.len(),
{
    if s.len() == 0 {
        0
    } else {
        digits_val(s.drop_last()) * 10 + ((s.last() as int - '0' as int) as nat)
    }
}

proof fn lemma_digits_val_monotone(s: Seq<char>, k: int)
    requires
        0 <= k <= s.len(),
    ensures
        digits_val(s) >= digits_val(s.subrange(0, k)),
    decreases s.len() - k,
{
    if k < s.len() {
        lemma_digits_val_monotone(s, k + 1);
        let p = s.subrange(0, k + 1);
        assert(p.drop_last() =~= s.subrange(0, k));
        assert(digits_val(p) == digits_val(s.subrange(0, k)) * 10 + ((p.last() as int
            - '0' as int) as nat));
    } else {
        assert(s.subrange(0, k) =~= s);
    }
}

/// Parse a string of decimal digits as a `u64`.
///
/// Returns `None` when the string is empty, holds a non-digit, or names a
/// value above `u64::MAX`.
pub fn parse_u64(s: &str) -> (r: Option<u64>)
    ensures
        r is Some <==> (s@.len() > 0 && all_digits(s@) && digits_val(s@) <= u64::MAX),
        r matches Some(v) ==> v == digits_val(s@),
{
    let n = s.unicode_len();
    if n == 0 {
        return None;
    }
    let mut acc: u64 = 0;
    let mut i: usize = 0;
    while i < n
        invariant
            n == s@.len(),
            0 <= i <= n,
            all_digits(s@.subrange(0, i as int)),
            acc == digits_val(s@.subrange(0, i as int)),
        decreases n - i,
    {
        let c = s.get_char(i);
        if !('0' <= c && c <= '9') {
            assert(!is_digit(s@[i as int]));
            return None;
        }
        let d: u64 = (c as u8 - 48) as u64;
        proof {
            let p = s@.subrange(0, i + 1);
            assert(p.drop_last() =~= s@.subrange(0, i as int));
            assert(p.last() == s@[i as int]);
            assert(digits_val(p) == acc * 10 + d);
            assert(forall|j: int| 0 <= j < i + 1 ==> is_digit(#[trigger] p[j]));
        }
        let step = match acc.checked_mul(10) {
            Some(x) => x.checked_add(d),
            None => None,
        };
        match step {
            Some(v) => {
                acc = v;
            },
            None => {
                proof {
                    lemma_digits_val_monotone(s@, i + 1);
                }
                return None;
            },
        }
        i += 1;
    }
    proof {
        assert(s@.subrange(0, n as int) =~= s@);
    }
    Some(acc)
}

/// Character for the decimal digit `d`.
pub open spec fn digit_char(d: nat) -> char {
    ((48 + d) as u8) as char
}

/// Decimal rendering of `n`, most significant digit first, no leading zeros.
pub open spec fn spec_u64_str(n: nat) -> Seq<char>
    decreases n,
{
    if n < 10 {
        seq![digit_char(n)]
    } else {
        spec_u64_str(n / 10) + seq![digit_char(n % 10)]
    }
}

/// Decimal rendering of a `u64`.
pub fn u64_to_string(n: u64) -> (r: String)
    ensures
        r@ == spec_u64_str(n as nat),
    decreases n,
{
    let digits = "0123456789";
    proof {
        reveal_strlit("0123456789");
    }
    let d = (n % 10) as usize;
    let piece = digits.substring_ascii(d, d + 1);
    assert(piece@ =~= seq![digit_char((n % 10) as nat)]);
    if n < 10 {
        piece.to_owned()
    } else {
        let mut rest = u64_to_string(n / 10);
        rest.append(piece);
        rest
    }
}

/// A line piece with a trailing carriage return removed.
pub open spec fn strip_cr(l: Seq<char>) -> Seq<char> {
    if l.len() > 0 && l.last() == '\r' {
        l.drop_last()
    } else {
        l
    }
}

/// Index of the first occurrence of `c` in `s`, or `s.len()` when absent.
pub open spec fn first_occ(s: Seq<char>, c: char) -> int
    decreases s.len(),
{
    if s.len() == 0 {
        0
    } else if s[0] == c {
        0
    } else {
        1 + first_occ(s.drop_first(), c)
    }
}

proof fn lemma_first_occ(s: Seq<char>, c: char)
    ensures
        0 <= first_occ(s, c) <= s.len(),
        first_occ(s, c) < s.len() ==> s[first_occ(s, c)] == c,
        forall|j: int| 0 <= j < first_occ(s, c) ==> s[j] != c,
    decreases s.len(),
{
    if s.len() > 0 && s[0] != c {
        let d = s.drop_first();
        lemma_first_occ(d, c);
        assert forall|j: int| 0 <= j < first_occ(s, c) implies s[j] != c by {
            if j > 0 {
                assert(s[j] == d[j - 1]);
            }
        }
        if first_occ(s, c) < s.len() {
            assert(s[first_occ(s, c)] == d[first_occ(d, c)]);
        }
    }
}

/// `s` split at newlines; a `\r` directly before a `\n` is dropped.
///
/// Unlike the standard library's line iterator, the piece after the final
/// newline is always present, so an empty text yields one empty line.
pub open spec fn spec_split_lines(s: Seq<char>) -> Seq<Seq<char>>
    decreases s.len(),
{
    let i = first_occ(s, '\n');
    if i == s.len() {
        seq![s]
    } else if 0 <= i < s.len() {
        seq![strip_cr(s.subrange(0, i))] + spec_split_lines(
            s.subrange(i + 1, s.len() as int),
        )
    } else {
        seq![s]
    }
}

/// Split `s` into its lines, as `spec_split_lines` describes.
pub fn split_lines(s: &str) -> (r: Vec<String>)
    ensures
        r@.len() == spec_split_lines(s@).len(),
        forall|i: int| 0 <= i < r@.len() ==> r@[i]@ == spec_split_lines(s@)[i],
{
    let mut out: Vec<String> = Vec::new();
    let n = s.unicode_len();
    let mut pos: usize = 0;
    proof {
        assert(s@.subrange(0, n as int) =~= s@);
        assert(out@.map_values(|x: String| x@) =~= Seq::<Seq<char>>::empty());
    }
    loop
        invariant_except_break
            n == s@.len(),
            0 <= pos <= n,
            spec_split_lines(s@) =~~= out@.map_values(|x: String| x@) + spec_split_lines(
                s@.subrange(pos as int, n as int),
            ),
        ensures
            spec_split_lines(s@) =~~= out@.map_values(|x: String| x@),
        decreases n - pos,
    {
        let ghost rest = s@.subrange(pos as int, n as int);
        proof {
            lemma_first_occ(rest, '\n');
        }
        match find_char_from(s, '\n', pos) {
            Some(idx) => {
                proof {
                    // the first newline of the remainder is at idx - pos
                    assert(rest[idx - pos] == '\n');
                    if first_occ(rest, '\n') < idx - pos {
                        assert(s@[pos + first_occ(rest, '\n')] == '\n');
                    }
                    if first_occ(rest, '\n') > idx - pos {
                        assert(rest[idx - pos] != '\n');
                    }
                    assert(first_occ(rest, '\n') == idx - pos);
                }
                let mut end = idx;
                if end > pos && s.get_char(end - 1) == '\r' {
                    end -= 1;
                }
                proof {
                    assert(strip_cr(rest.subrange(0, idx - pos)) =~= s@.subrange(
                        pos as int,
                        end as int,
                    ));
                }
                let piece = s.substring_char(pos, end);
                out.push(piece.to_owned());
                proof {
                    assert(rest.subrange((idx - pos) + 1, rest.len() as int) =~= s@.subrange(
                        idx + 1,
                        n as int,
                    ));
                    assert(spec_split_lines(s@) =~~= out@.map_values(|x: String| x@)
                        + spec_split_lines(s@.subrange(idx + 1, n as int)));
                }
                pos = idx + 1;
            },
            None => {
                proof {
                    if first_occ(rest, '\n') < rest.len() {
                        assert(s@[pos + first_occ(rest, '\n')] == '\n');
                    }
                    assert(first_occ(rest, '\n') == rest.len());
                }
                let piece = s.substring_char(pos, n);
                out.push(piece.to_owned());
                proof {
                    assert(piece@ =~= rest);
                    assert(spec_split_lines(s@) =~~= out@.map_values(|x: String| x@));
                }
                break;
            },
        }
    }
    out
}

/// First occurrence of `c` in `s` as an index; `s.len()` when absent.
pub fn first_occ_exec(s: &str, c: char) -> (r: usize)
    ensures
        r as int == first_occ(s@, c),
        r <= s@.len(),
{
    proof {
        lemma_first_occ(s@, c);
    }
    match find_char_from(s, c, 0) {
        Some(i) => {
            proof {
                if first_occ(s@, c) < i {
                    assert(s@[first_occ(s@, c)] == c);
                }
                if first_occ(s@, c) > i {
                    assert(s@[i as int] != c);
                }
            }
            i
        },
        None => {
            proof {
                if first_occ(s@, c) < s@.len() {
                    assert(s@[first_occ(s@, c)] == c);
                }
            }
            s.unicode_len()
        },
    }
}


/// `s` split at every occurrence of `c`; the separators are dropped and the
/// piece after the final separator is always present.
pub open spec fn spec_split_char(s: Seq<char>, c: char) -> Seq<Seq<char>>
    decreases s.len(),
{
    let i = first_occ(s, c);
    if i == s.len() {
        seq![s]
    } else if 0 <= i < s.len() {
        seq![s.subrange(0, i)] + spec_split_char(s.subrange(i + 1, s.len() as int), c)
    } else {
        seq![s]
    }
}

/// Split `s` at `sep`, as `spec_split_char` describes.
pub fn split_char(s: &str, sep: char) -> (r: Vec<String>)
    ensures
        r@.len() == spec_split_char(s@, sep).len(),
        forall|i: int| 0 <= i < r@.len() ==> r@[i]@ == spec_split_char(s@, sep)[i],
{
    let mut out: Vec<String> = Vec::new();
    let n = s.unicode_len();
    let mut pos: usize = 0;
    proof {
        assert(s@.subrange(0, n as int) =~= s@);
        assert(out@.map_values(|x: String| x@) =~= Seq::<Seq<char>>::empty());
    }
    loop
        invariant_except_break
            n == s@.len(),
            0 <= pos <= n,
            spec_split_char(s@, sep) =~~= out@.map_values(|x: String| x@) + spec_split_char(
                s@.subrange(pos as int, n as int),
                sep,
            ),
        ensures
            spec_split_char(s@, sep) =~~= out@.map_values(|x: String| x@),
        decreases n - pos,
    {
        let ghost rest = s@.subrange(pos as int, n as int);
        proof {
            lemma_first_occ(rest, sep);
        }
        match find_char_from(s, sep, pos) {
            Some(idx) => {
                proof {
                    assert(rest[idx - pos] == sep);
                    if first_occ(rest, sep) < idx - pos {
                        assert(s@[pos + first_occ(rest, sep)] == sep);
                    }
                    if first_occ(rest, sep) > idx - pos {
                        assert(rest[idx - pos] != sep);
                    }
                    assert(first_occ(rest, sep) == idx - pos);
                }
                let piece = s.substring_char(pos, idx);
                out.push(piece.to_owned());
                proof {
                    assert(rest.subrange(0, idx - pos) =~= s@.subrange(pos as int, idx as int));
                    assert(rest.subrange((idx - pos) + 1, rest.len() as int) =~= s@.subrange(
                        idx + 1,
                        n as int,
                    ));
                    assert(spec_split_char(s@, sep) =~~= out@.map_values(|x: String| x@)
                        + spec_split_char(s@.subrange(idx + 1, n as int), sep));
                }
                pos = idx + 1;
            },
            None => {
                proof {
                    if first_occ(rest, sep) < rest.len() {
                        assert(s@[pos + first_occ(rest, sep)] == sep);
                    }
                    assert(first_occ(rest, sep) == rest.len());
                }
                let piece = s.substring_char(pos, n);
                out.push(piece.to_owned());
                proof {
                    assert(piece@ =~= rest);
                    assert(spec_split_char(s@, sep) =~~= out@.map_values(|x: String| x@));
                }
                break;
            },
        }
    }
    out
}

/// Character-wise equality of `a` against `b` after ASCII-lowercasing `a`.
pub fn eq_str_lower(a: &str, b: &str) -> (r: bool)
    ensures
        r == (a@.map_values(|c: char| lower_char(c)) == b@),
{
    let na = a.unicode_len();
    let nb = b.unicode_len();
    let ghost la = a@.map_values(|c: char| lower_char(c));
    if na != nb {
        assert(la.len() == a@.len());
        return false;
    }
    let mut i: usize = 0;
    while i < na
        invariant
            na == a@.len(),
            na == b@.len(),
            la == a@.map_values(|c: char| lower_char(c)),
            0 <= i <= na,
            forall|j: int| 0 <= j < i ==> la[j] == b@[j],
        decreases na - i,
    {
        if lower_char_exec(a.get_char(i)) != b.get_char(i) {
            assert(la[i as int] != b@[i as int]);
            return false;
        }
        i += 1;
    }
    proof {
        assert(la =~= b@);
    }
    true
}

/// Index of the last occurrence of `c` in `s`, or `-1` when absent.
pub open spec fn last_occ(s: Seq<char>, c: char) -> int
    decreases s.len(),
{
    if s.len() == 0 {
        -1
    } else if s[s.len() - 1] == c {
        s.len() - 1
    } else {
        last_occ(s.drop_last(), c)
    }
}

proof fn lemma_last_occ(s: Seq<char>, c: char)
    ensures
        -1 <= last_occ(s, c) < s.len(),
        last_occ(s, c) >= 0 ==> s[last_occ(s, c)] == c,
        forall|j: int| last_occ(s, c) < j < s.len() ==> s[j] != c,
    decreases s.len(),
{
    if s.len() > 0 && s[s.len() - 1] != c {
        let d = s.drop_last();
        lemma_last_occ(d, c);
        assert forall|j: int| last_occ(s, c) < j < s.len() implies s[j] != c by {
            if j < s.len() - 1 {
                assert(s[j] == d[j]);
            }
        }
        if last_occ(s, c) >= 0 {
            assert(s[last_occ(s, c)] == d[last_occ(d, c)]);
        }
    }
}

/// Last occurrence of `c` in `s` as an index, `None` when absent.
pub fn last_occ_exec(s: &str, c: char) -> (r: Option<usize>)
    ensures
        match r {
            Some(i) => i as int == last_occ(s@, c) && i < s@.len(),
            None => last_occ(s@, c) == -1,
        },
{
    let n = s.unicode_len();
    let mut i: usize = n;
    while i > 0
        invariant
            n == s@.len(),
            0 <= i <= n,
            forall|j: int| i <= j < n ==> s@[j] != c,
        decreases i,
    {
        i -= 1;
        if s.get_char(i) == c {
            proof {
                lemma_last_occ(s@, c);
                if last_occ(s@, c) < i {
                    assert(s@[i as int] != c);
                }
                if last_occ(s@, c) > i {
                    assert(s@[last_occ(s@, c)] == c);
                }
            }
            return Some(i);
        }
    }
    proof {
        lemma_last_occ(s@, c);
        if last_occ(s@, c) >= 0 {
            assert(s@[last_occ(s@, c)] == c);
        }
    }
    None
}

/// Index of the first match of `sub` in `s`, or `s.len()` when there is
/// none (for a non-empty `sub`).
pub open spec fn first_match(s: Seq<char>, sub: Seq<char>) -> int
    decreases s.len(),
{
    if matches_at(s, sub, 0) {
        0
    } else if s.len() == 0 {
        0
    } else {
        1 + first_match(s.drop_first(), sub)
    }
}

proof fn lemma_first_match(s: Seq<char>, sub: Seq<char>)
    requires
        sub.len() > 0,
    ensures
        0 <= first_match(s, sub) <= s.len(),
        first_match(s, sub) < s.len() ==> matches_at(s, sub, first_match(s, sub)),
        forall|j: int| 0 <= j < first_match(s, sub) ==> !matches_at(s, sub, j),
        first_match(s, sub) == s.len() ==> forall|j: int| !matches_at(s, sub, j),
    decreases s.len(),
{
    if !matches_at(s, sub, 0) && s.len() > 0 {
        let d = s.drop_first();
        lemma_first_match(d, sub);
        assert forall|j: int| 0 <= j < first_match(s, sub) implies !matches_at(s, sub, j) by {
            if j > 0 {
                if matches_at(s, sub, j) {
                    assert(d.subrange(j - 1, j - 1 + sub.len()) =~= s.subrange(j, j + sub.len()));
                    assert(matches_at(d, sub, j - 1));
                }
            }
        }
        if first_match(s, sub) < s.len() {
            let i = first_match(s, sub);
            assert(matches_at(d, sub, i - 1));
            assert(s.subrange(i, i + sub.len()) =~= d.subrange(i - 1, i - 1 + sub.len()));
        }
        if first_match(s, sub) == s.len() {
            assert forall|j: int| !matches_at(s, sub, j) by {
                if 0 < j && matches_at(s, sub, j) {
                    assert(d.subrange(j - 1, j - 1 + sub.len()) =~= s.subrange(j, j + sub.len()));
                    assert(matches_at(d, sub, j - 1));
                }
            }
        }
    }
}

/// First match of `sub` at or after `from`, scanning `s`.
fn find_match_from(s: &str, sub: &str, from: usize) -> (r: Option<usize>)
    requires
        from <= s@.len(),
        sub@.len() > 0,
    ensures
        match r {
            Some(i) => from <= i && i + sub@.len() <= s@.len() && matches_at(s@, sub@, i as int)
                && forall|j: int| from <= j < i ==> !matches_at(s@, sub@, j),
            None => forall|j: int| from <= j ==> !matches_at(s@, sub@, j),
        },
{
    let n = s.unicode_len();
    let m = sub.unicode_len();
    if m > n || from > n - m {
        proof {
            assert forall|j: int| from <= j implies !matches_at(s@, sub@, j) by {}
        }
        return None;
    }
    let mut i: usize = from;
    while i <= n - m
        invariant
            n == s@.len(),
            m == sub@.len(),
            0 < m <= n,
            from <= i <= n - m + 1,
            forall|j: int| from <= j < i ==> !matches_at(s@, sub@, j),
        decreases n - i,
    {
        let mut j: usize = 0;
        let mut hit = true;
        while j < m
            invariant
                n == s@.len(),
                m == sub@.len(),
                from <= i <= n - m,
                0 <= j <= m,
                hit ==> forall|t: int| 0 <= t < j ==> s@[i + t] == sub@[t],
                !hit ==> !matches_at(s@, sub@, i as int),
            decreases m - j,
        {
            if s.get_char(i + j) != sub.get_char(j) {
                proof {
                    if matches_at(s@, sub@, i as int) {
                        assert(s@.subrange(i as int, i + m)[j as int] == sub@[j as int]);
                    }
                }
                hit = false;
                j = m;
            } else {
                j += 1;
            }
        }
        if hit {
            proof {
                assert(s@.subrange(i as int, i + m) =~= sub@);
                assert(matches_at(s@, sub@, i as int));
            }
            return Some(i);
        }
        i += 1;
    }
    proof {
        assert forall|j: int| from <= j implies !matches_at(s@, sub@, j) by {
            if matches_at(s@, sub@, j) {
                assert(0 <= j <= n - m);
            }
        }
    }
    None
}

/// `s` with every occurrence of `from` replaced by `to`, scanning left to
/// right without revisiting replaced text.
pub open spec fn spec_replace_all(s: Seq<char>, from: Seq<char>, to: Seq<char>) -> Seq<char>
    recommends
        from.len() > 0,
    decreases s.len(),
{
    let i = first_match(s, from);
    if from.len() > 0 && 0 <= i && i < s.len() && i + from.len() <= s.len() {
        s.subrange(0, i) + to + spec_replace_all(s.subrange(i + from.len(), s.len() as int), from, to)
    } else {
        s
    }
}

/// Replace every occurrence of `from` with `to`, as `spec_replace_all`
/// describes.
pub fn replace_all(s: &str, from: &str, to: &str) -> (r: String)
    requires
        from@.len() > 0,
    ensures
        r@ == spec_replace_all(s@, from@, to@),
{
    let n = s.unicode_len();
    let m = from.unicode_len();
    let mut out = String::new();
    let mut pos: usize = 0;
    proof {
        assert(s@.subrange(0, n as int) =~= s@);
    }
    loop
        invariant_except_break
            n == s@.len(),
            m == from@.len(),
            0 < m,
            0 <= pos <= n,
            spec_replace_all(s@, from@, to@) =~= out@ + spec_replace_all(
                s@.subrange(pos as int, n as int),
                from@,
                to@,
            ),
        ensures
            spec_replace_all(s@, from@, to@) =~= out@,
        decreases n - pos,
    {
        let ghost rest = s@.subrange(pos as int, n as int);
        proof {
            lemma_first_match(rest, from@);
        }
        match find_match_from(s, from, pos) {
            Some(idx) => {
                proof {
                    // the first match within the remainder is at idx - pos
                    assert(rest.subrange(idx - pos, idx - pos + m) =~= s@.subrange(
                        idx as int,
                        idx + m,
                    ));
                    assert(matches_at(rest, from@, idx - pos));
                    if first_match(rest, from@) < idx - pos {
                        let fm = first_match(rest, from@);
                        assert(matches_at(rest, from@, fm));
                        assert(s@.subrange(pos + fm, pos + fm + m) =~= rest.subrange(fm, fm + m));
                        assert(matches_at(s@, from@, pos + fm));
                    }
                    assert(first_match(rest, from@) == idx - pos);
                }
                out.append(s.substring_char(pos, idx));
                out.append(to);
                proof {
                    assert(s@.subrange(pos as int, idx as int) =~= rest.subrange(0, idx - pos));
                    assert(rest.subrange((idx - pos) + m, rest.len() as int) =~= s@.subrange(
                        idx + m,
                        n as int,
                    ));
                }
                pos = idx + m;
            },
            None => {
                proof {
                    if first_match(rest, from@) < rest.len() {
                        let fm = first_match(rest, from@);
                        assert(matches_at(rest, from@, fm));
                        assert(s@.subrange(pos + fm, pos + fm + m) =~= rest.subrange(fm, fm + m));
                        assert(matches_at(s@, from@, pos + fm));
                    }
                    assert(first_match(rest, from@) == rest.len());
                }
                out.append(s.substring_char(pos, n));
                proof {
                    assert(s@.subrange(pos as int, n as int) =~= rest);
                }
                break;
            },
        }
    }
    out
}

/// Decimal rendering of a signed value: a minus sign before the digits of
/// its magnitude.
pub open spec fn spec_i64_str(n: int) -> Seq<char> {
    if n < 0 {
        seq!['-'] + spec_u64_str((-n) as nat)
    } else {
        spec_u64_str(n as nat)
    }
}

/// Decimal rendering of an `i32`.
pub fn i32_to_string(n: i32) -> (r: String)
    ensures
        r@ == spec_i64_str(n as int),
{
    if n < 0 {
        let mag: u64 = (-(n as i64)) as u64;
        let mut out = String::new();
        out.append("-");
        let digits = u64_to_string(mag);
        out.append(digits.as_str());
        proof {
            reveal_strlit("-");
            assert("-"@ =~= seq!['-']);
        }
        out
    } else {
        u64_to_string(n as u64)
    }
}

} // verus!
