//! Input validation at the command boundary. Each validator fixes both the
//! accept/reject split and the exact rejection message.

use vstd::prelude::*;

use crate::fingerprint::s_dec_i;
use crate::normalize::{s_ascii_chars, trim_of, trim_str};
use crate::store::i64_text;

verus! {

use vstd::string::StringSliceAdditionalSpecFns;

/// ASCII letters compared without case.
pub open spec fn s_lower_byte(b: u8) -> u8 {
    if 65 <= b <= 90 {
        (b + 32) as u8
    } else {
        b
    }
}

/// Byte strings equal up to ASCII case.
pub open spec fn s_eq_ignore_ascii_case(a: Seq<u8>, b: Seq<u8>) -> bool {
    a.len() == b.len() && forall|i: int|
        0 <= i < a.len() ==> s_lower_byte(#[trigger] a[i]) == s_lower_byte(b[i])
}

/// Compare two strings without ASCII case.
fn eq_ignore_ascii_case(a: &str, b: &str) -> (r: bool)
    ensures
        r == s_eq_ignore_ascii_case(a.spec_bytes(), b.spec_bytes()),
{
    let ab = a.as_bytes();
    let bb = b.as_bytes();
    if ab.len() != bb.len() {
        return false;
    }
    let n = ab.len();
    for i in 0..n
        invariant
            n == ab@.len(),
            n == bb@.len(),
            ab@ == a.spec_bytes(),
            bb@ == b.spec_bytes(),
            forall|j: int| 0 <= j < i ==> s_lower_byte(#[trigger] ab@[j]) == s_lower_byte(bb@[j]),
    {
        let x = ab[i];
        let y = bb[i];
        let lx: u8 = if 65 <= x && x <= 90 {
            x + 32
        } else {
            x
        };
        let ly: u8 = if 65 <= y && y <= 90 {
            y + 32
        } else {
            y
        };
        if lx != ly {
            return false;
        }
    }
    true
}

/// Reject empty search queries and non-positive limits, naming the rule.
pub fn validate_search(query: &str, limit: i64) -> (r: Result<(), String>)
    ensures
        r is Ok <==> (trim_of(query@).len() != 0 && limit > 0),
        r matches Err(m) ==> m@ == if trim_of(query@).len() == 0 {
            "Search query cannot be empty."@
        } else {
            "--limit must be > 0."@
        },
{
    let t = trim_str(query);
    if t.is_empty() {
        return Err("Search query cannot be empty.".to_owned());
    }
    if limit <= 0 {
        return Err("--limit must be > 0.".to_owned());
    }
    Ok(())
}

/// The rejection message of a non-positive route id.
pub open spec fn s_route_id_message(route_id: int, ctx: Seq<char>) -> Seq<char> {
    "Invalid route id for "@ + ctx + ": "@ + s_ascii_chars(s_dec_i(route_id)) + " (must be > 0)"@
}

/// Route ids are positive; the rejection names the context and the value.
pub fn validate_route_id(route_id: i64, ctx: &str) -> (r: Result<(), String>)
    ensures
        r is Ok <==> route_id > 0,
        r matches Err(m) ==> m@ == s_route_id_message(route_id as int, ctx@),
{
    if route_id <= 0 {
        let mut m = String::new();
        m.append("Invalid route id for ");
        m.append(ctx);
        m.append(": ");
        m.append(i64_text(route_id).as_str());
        m.append(" (must be > 0)");
        proof {
            assert(m@ =~= s_route_id_message(route_id as int, ctx@));
        }
        return Err(m);
    }
    Ok(())
}

/// Both endpoint references must be non-empty and differ (ASCII case
/// ignored) after trimming; the rejection names the violated rule.
pub fn validate_route_compute(from: &str, to: &str) -> (r: Result<(), String>)
    ensures
        r is Ok <==> (trim_of(from@).len() != 0 && trim_of(to@).len() != 0
            && !s_eq_ignore_ascii_case(
            vstd::utf8::encode_utf8(trim_of(from@)),
            vstd::utf8::encode_utf8(trim_of(to@)),
        )),
        r matches Err(m) ==> m@ == if trim_of(from@).len() == 0 || trim_of(to@).len() == 0 {
            "FROM and TO must be non-empty"@
        } else {
            "FROM and TO must be different"@
        },
{
    let f = trim_str(from);
    let t = trim_str(to);
    if f.is_empty() || t.is_empty() {
        return Err("FROM and TO must be non-empty".to_owned());
    }
    if eq_ignore_ascii_case(f, t) {
        return Err("FROM and TO must be different".to_owned());
    }
    Ok(())
}

/// The rejection message of a non-positive limit.
pub open spec fn s_limit_message(limit: int, ctx: Seq<char>) -> Seq<char> {
    "Invalid limit for "@ + ctx + ": "@ + s_ascii_chars(s_dec_i(limit)) + " (must be > 0)"@
}

/// Limits are positive; the rejection names the context and the value.
pub fn validate_limit(limit: i64, ctx: &str) -> (r: Result<(), String>)
    ensures
        r is Ok <==> limit > 0,
        r matches Err(m) ==> m@ == s_limit_message(limit as int, ctx@),
{
    if limit <= 0 {
        let mut m = String::new();
        m.append("Invalid limit for ");
        m.append(ctx);
        m.append(": ");
        m.append(i64_text(limit).as_str());
        m.append(" (must be > 0)");
        proof {
            assert(m@ =~= s_limit_message(limit as int, ctx@));
        }
        return Err(m);
    }
    Ok(())
}

} // verus!
