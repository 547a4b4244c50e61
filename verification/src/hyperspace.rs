//! Galactic regions and permissive parsing of their names.
//!
//! Region names arrive from heterogeneous datasets, so parsing folds case,
//! separators and repeated whitespace before matching. The folding is
//! byte-level: ASCII letters are lowered, underscores and hyphens become
//! spaces, ASCII whitespace runs collapse to one space, and the edges are
//! stripped; other bytes pass through unchanged.

use vstd::prelude::*;

verus! {

use vstd::string::StringSliceAdditionalSpecFns;

/// Ordered from most internal to most external.
#[derive(Debug, Clone, Copy, PartialEq, Eq, PartialOrd, Ord, Hash, Structural)]
pub enum GalacticRegion {
    DeepCore,
    CoreWorlds,
    Colonies,
    InnerRim,
    ExpansionRegion,
    MidRim,
    HuttSpace,
    OuterRim,
    WildSpace,
    UnknownRegions,
}

/// ASCII whitespace.
pub open spec fn s_is_ws(b: u8) -> bool {
    b == 32 || b == 9 || b == 10 || b == 11 || b == 12 || b == 13
}

/// Lower ASCII letters; map separators to spaces.
pub open spec fn s_map_byte(b: u8) -> u8 {
    if 65 <= b <= 90 {
        (b + 32) as u8
    } else if b == 95 || b == 45 {
        32
    } else {
        b
    }
}

/// Map each byte and collapse whitespace runs to a single space.
pub open spec fn s_collapse(s: Seq<u8>) -> Seq<u8>
    decreases s.len(),
{
    if s.len() == 0 {
        Seq::empty()
    } else {
        let pre = s_collapse(s.drop_last());
        let b = s_map_byte(s.last());
        if s_is_ws(b) {
            if pre.len() > 0 && pre.last() == 32 {
                pre
            } else {
                pre.push(32)
            }
        } else {
            pre.push(b)
        }
    }
}

/// Strip leading and trailing spaces.
pub open spec fn s_strip(s: Seq<u8>) -> Seq<u8>
    decreases s.len(),
{
    if s.len() > 0 && s.last() == 32 {
        s_strip(s.drop_last())
    } else if s.len() > 0 && s[0] == 32 {
        s_strip(s.drop_first())
    } else {
        s
    }
}

/// The folded key under which a region name is matched.
pub open spec fn s_region_key(s: Seq<u8>) -> Seq<u8> {
    s_strip(s_collapse(s))
}

/// Fold a region name to its matching key, as bytes.
pub fn normalize_region_name(s: &str) -> (r: Vec<u8>)
    ensures
        r@ == s_region_key(s.spec_bytes()),
{
    let bs = s.as_bytes();
    let n = bs.len();
    let mut out: Vec<u8> = Vec::new();
    proof {
        assert(bs@.take(0) =~= Seq::<u8>::empty());
    }
    for i in 0..n
        invariant
            n == bs@.len(),
            out@ == s_collapse(bs@.take(i as int)),
    {
        proof {
            assert(bs@.take(i + 1).drop_last() =~= bs@.take(i as int));
            assert(bs@.take(i + 1).last() == bs@[i as int]);
        }
        let raw = bs[i];
        let mapped: u8 = if 65 <= raw && raw <= 90 {
            raw + 32
        } else if raw == 95 || raw == 45 {
            32
        } else {
            raw
        };
        let is_ws = mapped == 32 || mapped == 9 || mapped == 10 || mapped == 11 || mapped == 12
            || mapped == 13;
        if is_ws {
            let push_space = if out.len() == 0 {
                true
            } else {
                *out.last().unwrap() != 32
            };
            if push_space {
                out.push(32);
            }
        } else {
            out.push(mapped);
        }
    }
    proof {
        assert(bs@.take(n as int) =~= bs@);
    }
    while out.len() > 0 && *out.last().unwrap() == 32
        invariant
            s_strip(out@) == s_region_key(s.spec_bytes()),
        decreases out@.len(),
    {
        out.pop();
    }
    while out.len() > 0 && out[0] == 32
        invariant
            s_strip(out@) == s_region_key(s.spec_bytes()),
            out@.len() == 0 || out@.last() != 32,
        decreases out@.len(),
    {
        out.remove(0);
    }
    out
}

/// `v` holds exactly the bytes of `lit`.
fn eq_bytes_str(v: &Vec<u8>, lit: &str) -> (r: bool)
    ensures
        r == (v@ == lit.spec_bytes()),
{
    let w = lit.as_bytes();
    if v.len() != w.len() {
        proof {
            assert(v@.len() != lit.spec_bytes().len());
        }
        return false;
    }
    let n = v.len();
    for i in 0..n
        invariant
            n == v@.len(),
            n == w@.len(),
            w@ == lit.spec_bytes(),
            forall|j: int| 0 <= j < i ==> v@[j] == w@[j],
    {
        if v[i] != w[i] {
            return false;
        }
    }
    proof {
        assert(v@ =~= w@);
    }
    true
}

/// Which region a raw name denotes, through the folded key.
pub open spec fn s_parse_region(bytes: Seq<u8>) -> Option<GalacticRegion> {
    let k = s_region_key(bytes);
    if k == "deep core".spec_bytes() {
        Some(GalacticRegion::DeepCore)
    } else if k == "core worlds".spec_bytes() || k == "core".spec_bytes() {
        Some(GalacticRegion::CoreWorlds)
    } else if k == "colonies".spec_bytes() {
        Some(GalacticRegion::Colonies)
    } else if k == "inner rim".spec_bytes() {
        Some(GalacticRegion::InnerRim)
    } else if k == "expansion region".spec_bytes() || k == "expansion".spec_bytes() {
        Some(GalacticRegion::ExpansionRegion)
    } else if k == "mid rim".spec_bytes() {
        Some(GalacticRegion::MidRim)
    } else if k == "hutt space".spec_bytes() {
        Some(GalacticRegion::HuttSpace)
    } else if k == "outer rim".spec_bytes() {
        Some(GalacticRegion::OuterRim)
    } else if k == "wild space".spec_bytes() {
        Some(GalacticRegion::WildSpace)
    } else if k == "unknown regions".spec_bytes() || k == "unknown region".spec_bytes() {
        Some(GalacticRegion::UnknownRegions)
    } else {
        None
    }
}

impl GalacticRegion {
    /// Best-effort parsing of strings found in the dataset: permissive about
    /// case, separators and repeated whitespace.
    pub fn parse(s: &str) -> (r: Option<Self>)
        ensures
            r == s_parse_region(s.spec_bytes()),
    {
        let k = normalize_region_name(s);
        if eq_bytes_str(&k, "deep core") {
            Some(GalacticRegion::DeepCore)
        } else if eq_bytes_str(&k, "core worlds") || eq_bytes_str(&k, "core") {
            Some(GalacticRegion::CoreWorlds)
        } else if eq_bytes_str(&k, "colonies") {
            Some(GalacticRegion::Colonies)
        } else if eq_bytes_str(&k, "inner rim") {
            Some(GalacticRegion::InnerRim)
        } else if eq_bytes_str(&k, "expansion region") || eq_bytes_str(&k, "expansion") {
            Some(GalacticRegion::ExpansionRegion)
        } else if eq_bytes_str(&k, "mid rim") {
            Some(GalacticRegion::MidRim)
        } else if eq_bytes_str(&k, "hutt space") {
            Some(GalacticRegion::HuttSpace)
        } else if eq_bytes_str(&k, "outer rim") {
            Some(GalacticRegion::OuterRim)
        } else if eq_bytes_str(&k, "wild space") {
            Some(GalacticRegion::WildSpace)
        } else if eq_bytes_str(&k, "unknown regions") || eq_bytes_str(&k, "unknown region") {
            Some(GalacticRegion::UnknownRegions)
        } else {
            None
        }
    }
}

/// The first candidate string that names a region.
pub open spec fn s_parse_first(cs: Seq<Option<&str>>) -> Option<GalacticRegion>
    decreases cs.len(),
{
    if cs.len() == 0 {
        None
    } else {
        match cs[0] {
            None => s_parse_first(cs.drop_first()),
            Some(t) => match s_parse_region(t.spec_bytes()) {
                Some(r) => Some(r),
                None => s_parse_first(cs.drop_first()),
            },
        }
    }
}

/// Scan candidate name fields in order and return the first parseable
/// region.
pub fn parse_first_region(candidates: &[Option<&str>]) -> (r: Option<GalacticRegion>)
    ensures
        r == s_parse_first(candidates@),
{
    let n = candidates.len();
    proof {
        assert(candidates@.skip(0) =~= candidates@);
    }
    for i in 0..n
        invariant
            n == candidates@.len(),
            s_parse_first(candidates@.skip(i as int)) == s_parse_first(candidates@),
    {
        proof {
            assert(candidates@.skip(i as int).drop_first() =~= candidates@.skip(i + 1));
            assert(candidates@.skip(i as int)[0] == candidates@[i as int]);
        }
        match candidates[i] {
            None => {},
            Some(t) => {
                match GalacticRegion::parse(t) {
                    Some(r) => {
                        return Some(r);
                    },
                    None => {},
                }
            },
        }
    }
    None
}

} // verus!
