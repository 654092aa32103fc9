//! Strict three-component version comparison for the stable update channel.
//!
//! A version string is accepted only as `major.minor.patch` with each
//! component a plain decimal number. A string that does not parse never
//! triggers an update: comparison fails closed.

use vstd::prelude::*;

use crate::text::{all_digits, digits_val, parse_u64, spec_split_char, spec_trim, split_char, trim};

verus! {

/// One piece of a dotted version string is a usable number.
pub open spec fn valid_component(p: Seq<char>) -> bool {
    p.len() > 0 && all_digits(p) && digits_val(p) <= u64::MAX
}

/// The parse `parse_semver` performs: trim, split at dots, demand exactly
/// three numeric components.
pub open spec fn spec_semver(s: Seq<char>) -> Option<(nat, nat, nat)> {
    let parts = spec_split_char(spec_trim(s), '.');
    if parts.len() == 3 && valid_component(parts[0]) && valid_component(parts[1])
        && valid_component(parts[2]) {
        Some((digits_val(parts[0]), digits_val(parts[1]), digits_val(parts[2])))
    } else {
        None
    }
}

/// Parse a semantic version as strict `major.minor.patch` decimal numbers.
pub fn parse_semver(version: &str) -> (r: Option<(u64, u64, u64)>)
    ensures
        r is Some <==> spec_semver(version@) is Some,
        r matches Some(t) ==> spec_semver(version@) == Some(
            (t.0 as nat, t.1 as nat, t.2 as nat),
        ),
{
    let trimmed = trim(version);
    let parts = split_char(trimmed.as_str(), '.');
    if parts.len() != 3 {
        return None;
    }
    let a = match parse_u64(parts[0].as_str()) {
        Some(v) => v,
        None => {
            return None;
        },
    };
    let b = match parse_u64(parts[1].as_str()) {
        Some(v) => v,
        None => {
            return None;
        },
    };
    let c = match parse_u64(parts[2].as_str()) {
        Some(v) => v,
        None => {
            return None;
        },
    };
    Some((a, b, c))
}

/// Lexicographic order on version triples.
pub open spec fn triple_lt(a: (nat, nat, nat), b: (nat, nat, nat)) -> bool {
    a.0 < b.0 || (a.0 == b.0 && (a.1 < b.1 || (a.1 == b.1 && a.2 < b.2)))
}

/// The decision `is_remote_newer` makes: true only when both strings parse
/// and the remote triple is strictly greater.
pub open spec fn spec_is_remote_newer(current: Seq<char>, remote: Seq<char>) -> bool {
    match (spec_semver(current), spec_semver(remote)) {
        (Some(c), Some(r)) => triple_lt(c, r),
        _ => false,
    }
}

/// Is the remote version strictly newer than the current one?
///
/// A string that fails to parse makes the answer `false`: a malformed
/// version must never trigger an update.
pub fn is_remote_newer(current: &str, remote: &str) -> (r: bool)
    ensures
        r == spec_is_remote_newer(current@, remote@),
{
    let cur = match parse_semver(current) {
        Some(t) => t,
        None => {
            return false;
        },
    };
    let rem = match parse_semver(remote) {
        Some(t) => t,
        None => {
            return false;
        },
    };
    rem.0 > cur.0 || (rem.0 == cur.0 && (rem.1 > cur.1 || (rem.1 == cur.1 && rem.2 > cur.2)))
}

} // verus!
