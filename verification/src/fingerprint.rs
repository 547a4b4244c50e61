//! Deterministic identity of computed waypoints.
//!
//! A computed waypoint's fingerprint is the lowercase hex SHA-256 of a
//! canonical text naming the compute pair, the obstacle, the iteration and
//! segment at decision time, and the waypoint's coordinates. Coordinates are
//! fixed-point with four decimals, so the canonical text carries them
//! exactly. The canonical text is built by verified code; only the digest
//! and its hex form come from outside crates.

use vstd::prelude::*;

use crate::router::DetourDecision;

verus! {

use vstd::string::StringSliceAdditionalSpecFns;

/// Decimal digits of a non-negative number, most significant first.
pub open spec fn s_dec_u(n: int) -> Seq<u8>
    decreases n,
{
    if n < 10 {
        seq![(48 + if n >= 0 {
            n
        } else {
            0
        }) as u8]
    } else {
        s_dec_u(n / 10).push((48 + n % 10) as u8)
    }
}

/// Decimal form of an integer, with a leading minus for negatives.
pub open spec fn s_dec_i(v: int) -> Seq<u8> {
    if v < 0 {
        seq![45u8] + s_dec_u(-v)
    } else {
        s_dec_u(v)
    }
}

/// Four zero-padded decimal digits of `r` in `[0, 10000)`.
pub open spec fn s_pad4(r: int) -> Seq<u8> {
    seq![
        (48 + (r / 1000) % 10) as u8,
        (48 + (r / 100) % 10) as u8,
        (48 + (r / 10) % 10) as u8,
        (48 + r % 10) as u8,
    ]
}

/// A fixed-point value printed with exactly four decimals.
pub open spec fn s_fp4(v: int) -> Seq<u8> {
    if v < 0 {
        seq![45u8] + s_dec_u((-v) / 10000) + seq![46u8] + s_pad4((-v) % 10000)
    } else {
        s_dec_u(v / 10000) + seq![46u8] + s_pad4(v % 10000)
    }
}

/// The canonical fingerprint text of one detour decision.
pub open spec fn s_fingerprint_text(
    from: int,
    to: int,
    ob: int,
    it: int,
    seg: int,
    x: int,
    y: int,
) -> Seq<u8> {
    "detour|from=".spec_bytes() + s_dec_i(from) + "|to=".spec_bytes() + s_dec_i(to)
        + "|ob=".spec_bytes() + s_dec_i(ob) + "|it=".spec_bytes() + s_dec_i(it)
        + "|seg=".spec_bytes() + s_dec_i(seg) + "|x=".spec_bytes() + s_fp4(x)
        + "|y=".spec_bytes() + s_fp4(y)
}

/// What SHA-256 digests to; a function of the input bytes alone.
pub uninterp spec fn sha256_of(bytes: Seq<u8>) -> Seq<u8>;

/// The lowercase hex form of a byte string, as ASCII bytes.
pub open spec fn s_hex_bytes(bytes: Seq<u8>) -> Seq<u8> {
    Seq::new(
        2 * bytes.len(),
        |i: int|
            {
                let b = bytes[i / 2] as int;
                let d = if i % 2 == 0 {
                    b / 16
                } else {
                    b % 16
                };
                (if d < 10 {
                    48 + d
                } else {
                    87 + d
                }) as u8
            },
    )
}

/// Hex digits are ASCII.
pub proof fn lemma_hex_ascii(bytes: Seq<u8>)
    ensures
        s_hex_bytes(bytes).len() == 2 * bytes.len(),
        forall|i: int| 0 <= i < s_hex_bytes(bytes).len() ==> #[trigger] s_hex_bytes(bytes)[i]
            < 128,
{
    assert forall|i: int|
        0 <= i < s_hex_bytes(bytes).len() implies #[trigger] s_hex_bytes(bytes)[i] < 128 by {
        let b = bytes[i / 2] as int;
        assert(0 <= b < 256);
        assert(0 <= b / 16 < 16);
        assert(0 <= b % 16 < 16);
    }
}

/// The fingerprint: lowercase hex SHA-256 of the canonical text, as ASCII
/// bytes.
pub open spec fn s_fingerprint(
    from: int,
    to: int,
    ob: int,
    it: int,
    seg: int,
    x: int,
    y: int,
) -> Seq<u8> {
    s_hex_bytes(sha256_of(s_fingerprint_text(from, to, ob, it, seg, x, y)))
}

/// Relies on sha2::Sha256 through the Digest trait: a 32-byte digest that
/// depends on the input bytes alone.
#[verifier::external_body]
fn sha256(bytes: &Vec<u8>) -> (r: Vec<u8>)
    ensures
        r@ == sha256_of(bytes@),
        r@.len() == 32,
{
    let mut h: sha2::Sha256 = sha2::Digest::new();
    sha2::Digest::update(&mut h, bytes.as_slice());
    sha2::Digest::finalize(h).to_vec()
}

/// Relies on hex::encode: two lowercase hex digits per input byte.
#[verifier::external_body]
fn hex_encode_bytes(bytes: &Vec<u8>) -> (r: Vec<u8>)
    ensures
        r@ == s_hex_bytes(bytes@),
{
    hex::encode(bytes.as_slice()).into_bytes()
}

/// Append the bytes of a literal.
fn push_str_bytes(out: &mut Vec<u8>, s: &str)
    ensures
        final(out)@ == old(out)@ + s.spec_bytes(),
{
    let bs = s.as_bytes();
    let n = bs.len();
    for i in 0..n
        invariant
            n == bs@.len(),
            bs@ == s.spec_bytes(),
            out@ == old(out)@ + bs@.take(i as int),
    {
        out.push(bs[i]);
        proof {
            assert(old(out)@ + bs@.take(i + 1) =~= (old(out)@ + bs@.take(i as int)).push(
                bs@[i as int],
            ));
        }
    }
    proof {
        assert(bs@.take(n as int) =~= bs@);
    }
}

/// Append the decimal digits of a non-negative number.
pub(crate) fn push_dec_u(out: &mut Vec<u8>, n: u64)
    ensures
        final(out)@ == old(out)@ + s_dec_u(n as int),
    decreases n,
{
    if n < 10 {
        out.push(48 + (n as u8));
        proof {
            assert(old(out)@ + s_dec_u(n as int) =~= old(out)@.push((48 + n as int) as u8));
        }
    } else {
        push_dec_u(out, n / 10);
        out.push(48 + ((n % 10) as u8));
        proof {
            assert(old(out)@ + s_dec_u(n as int) =~= (old(out)@ + s_dec_u(n as int / 10)).push(
                (48 + n as int % 10) as u8,
            ));
        }
    }
}

/// Append the decimal form of an integer.
pub(crate) fn push_dec_i(out: &mut Vec<u8>, v: i64)
    ensures
        final(out)@ == old(out)@ + s_dec_i(v as int),
{
    if v < 0 {
        out.push(45);
        push_dec_u(out, (-(v as i128)) as u64);
        proof {
            assert(old(out)@ + s_dec_i(v as int) =~= old(out)@.push(45u8) + s_dec_u(-(v as int)));
        }
    } else {
        push_dec_u(out, v as u64);
    }
}

/// Append a fixed-point value with exactly four decimals.
fn push_fp4(out: &mut Vec<u8>, v: i64)
    requires
        v > i64::MIN,
    ensures
        final(out)@ == old(out)@ + s_fp4(v as int),
{
    let m: u64 = if v < 0 {
        out.push(45);
        (-v) as u64
    } else {
        v as u64
    };
    push_dec_u(out, m / 10_000);
    out.push(46);
    let r = m % 10_000;
    out.push(48 + (((r / 1000) % 10) as u8));
    out.push(48 + (((r / 100) % 10) as u8));
    out.push(48 + (((r / 10) % 10) as u8));
    out.push(48 + ((r % 10) as u8));
    proof {
        if v < 0 {
            assert(old(out)@ + s_fp4(v as int) =~= old(out)@.push(45u8) + s_dec_u(
                (-(v as int)) / 10000,
            ).push(46u8) + s_pad4((-(v as int)) % 10000));
            assert(out@ =~= old(out)@ + s_fp4(v as int));
        } else {
            assert(out@ =~= old(out)@ + s_fp4(v as int));
        }
    }
}

/// The canonical fingerprint text, as bytes.
pub fn fingerprint_text(
    from_fid: i64,
    to_fid: i64,
    obstacle_id: i64,
    iteration: usize,
    segment_index: usize,
    x: i64,
    y: i64,
) -> (r: Vec<u8>)
    requires
        from_fid > i64::MIN,
        to_fid > i64::MIN,
        obstacle_id > i64::MIN,
        x > i64::MIN,
        y > i64::MIN,
        iteration <= i64::MAX,
        segment_index <= i64::MAX,
    ensures
        r@ == s_fingerprint_text(
            from_fid as int,
            to_fid as int,
            obstacle_id as int,
            iteration as int,
            segment_index as int,
            x as int,
            y as int,
        ),
{
    let mut out: Vec<u8> = Vec::new();
    push_str_bytes(&mut out, "detour|from=");
    push_dec_i(&mut out, from_fid);
    push_str_bytes(&mut out, "|to=");
    push_dec_i(&mut out, to_fid);
    push_str_bytes(&mut out, "|ob=");
    push_dec_i(&mut out, obstacle_id);
    push_str_bytes(&mut out, "|it=");
    push_dec_i(&mut out, iteration as i64);
    push_str_bytes(&mut out, "|seg=");
    push_dec_i(&mut out, segment_index as i64);
    push_str_bytes(&mut out, "|x=");
    push_fp4(&mut out, x);
    push_str_bytes(&mut out, "|y=");
    push_fp4(&mut out, y);
    out
}

/// The fingerprint bytes of one detour decision within a compute pair.
pub fn detour_fp_bytes(from_fid: i64, to_fid: i64, d: &DetourDecision) -> (r: Vec<u8>)
    requires
        from_fid > i64::MIN,
        to_fid > i64::MIN,
        d.obstacle_id > i64::MIN,
        d.waypoint.x > i64::MIN,
        d.waypoint.y > i64::MIN,
        d.iteration <= i64::MAX,
        d.segment_index <= i64::MAX,
    ensures
        r@ == s_fingerprint(
            from_fid as int,
            to_fid as int,
            d.obstacle_id as int,
            d.iteration as int,
            d.segment_index as int,
            d.waypoint.x as int,
            d.waypoint.y as int,
        ),
        r@.len() == 64,
        forall|i: int| 0 <= i < r@.len() ==> #[trigger] r@[i] < 128,
{
    let text = fingerprint_text(
        from_fid,
        to_fid,
        d.obstacle_id,
        d.iteration,
        d.segment_index,
        d.waypoint.x,
        d.waypoint.y,
    );
    let digest = sha256(&text);
    proof {
        lemma_hex_ascii(digest@);
    }
    hex_encode_bytes(&digest)
}

/// The fingerprint of one detour decision, as a lowercase hex string.
pub fn detour_fingerprint(from_fid: i64, to_fid: i64, d: &DetourDecision) -> (r: String)
    requires
        from_fid > i64::MIN,
        to_fid > i64::MIN,
        d.obstacle_id > i64::MIN,
        d.waypoint.x > i64::MIN,
        d.waypoint.y > i64::MIN,
        d.iteration <= i64::MAX,
        d.segment_index <= i64::MAX,
    ensures
        r@ == crate::normalize::s_ascii_chars(
            s_fingerprint(
                from_fid as int,
                to_fid as int,
                d.obstacle_id as int,
                d.iteration as int,
                d.segment_index as int,
                d.waypoint.x as int,
                d.waypoint.y as int,
            ),
        ),
        r@.len() == 64,
{
    let bytes = detour_fp_bytes(from_fid, to_fid, d);
    crate::normalize::ascii_to_string(bytes)
}

/// Fingerprint stability: when two routes agree on their detour records,
/// each pair of corresponding detours fingerprints identically, so a
/// re-compute of the same pair mints no new catalog identities.
pub proof fn lemma_fingerprint_stability(
    from_fid: i64,
    to_fid: i64,
    d1: DetourDecision,
    d2: DetourDecision,
)
    requires
        d1.g() == d2.g(),
    ensures
        s_fingerprint(
            from_fid as int,
            to_fid as int,
            d1.obstacle_id as int,
            d1.iteration as int,
            d1.segment_index as int,
            d1.waypoint.x as int,
            d1.waypoint.y as int,
        ) == s_fingerprint(
            from_fid as int,
            to_fid as int,
            d2.obstacle_id as int,
            d2.iteration as int,
            d2.segment_index as int,
            d2.waypoint.x as int,
            d2.waypoint.y as int,
        ),
{
    assert(d1.obstacle_id as int == d1.g().obstacle_id);
    assert(d2.obstacle_id as int == d2.g().obstacle_id);
    assert(d1.iteration as int == d1.g().iteration as int);
    assert(d2.iteration as int == d2.g().iteration as int);
    assert(d1.segment_index as int == d1.g().segment_index as int);
    assert(d2.segment_index as int == d2.g().segment_index as int);
    assert(d1.waypoint == d1.g().waypoint);
    assert(d2.waypoint == d2.g().waypoint);
}


/// Decimal digits are ASCII.
pub proof fn lemma_dec_u_ascii(n: int)
    ensures
        forall|i: int| 0 <= i < s_dec_u(n).len() ==> 48 <= #[trigger] s_dec_u(n)[i] < 58,
        s_dec_u(n).len() >= 1,
    decreases n,
{
    if n < 10 {
    } else {
        lemma_dec_u_ascii(n / 10);
        assert forall|i: int|
            0 <= i < s_dec_u(n).len() implies 48 <= #[trigger] s_dec_u(n)[i] < 58 by {
            if i < s_dec_u(n / 10).len() {
                assert(s_dec_u(n)[i] == s_dec_u(n / 10)[i]);
            }
        }
    }
}

/// A signed decimal form holds only ASCII digits and a leading minus.
pub proof fn lemma_dec_i_ascii(v: int)
    ensures
        forall|i: int| 0 <= i < s_dec_i(v).len() ==> #[trigger] s_dec_i(v)[i] < 128,
{
    lemma_dec_u_ascii(v);
    lemma_dec_u_ascii(-v);
}


} // verus!
