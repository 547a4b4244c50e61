//! Text normalization for names: lowercase, diacritics stripped, and
//! everything outside `a-z0-9` folded into single spaces.
//!
//! Case folding and Unicode decomposition come from outside code and are
//! named; the folding into the final `a-z0-9 ` key is verified. The result
//! always has the normal key shape, and a string already of that shape is
//! returned unchanged — normalization is idempotent.

use vstd::prelude::*;

use unicode_normalization::char::is_combining_mark;
use unicode_normalization::UnicodeNormalization;

verus! {

use vstd::string::StrSliceExecFns;

/// A character a normalized key may hold.
pub open spec fn is_plain_key_char(c: char) -> bool {
    ('a' <= c && c <= 'z') || ('0' <= c && c <= '9') || c == ' '
}

/// The shape of a normalized key: only `a-z0-9 `, no two adjacent spaces,
/// and no space at either end.
pub open spec fn is_normal_key_chars(s: Seq<char>) -> bool {
    &&& forall|i: int| 0 <= i < s.len() ==> is_plain_key_char(#[trigger] s[i])
    &&& forall|i: int| 0 <= i < s.len() - 1 ==> !((#[trigger] s[i]) == ' ' && s[i + 1] == ' ')
    &&& (s.len() == 0 || (s[0] != ' ' && s[s.len() - 1] != ' '))
}

/// What `str::trim` leaves: a function of the characters alone.
pub uninterp spec fn trim_of(s: Seq<char>) -> Seq<char>;

/// Relies on str::trim: leading and trailing whitespace removed. A
/// normalized key starts and ends with an alphanumeric, which is not
/// whitespace, so trim returns it unchanged.
#[verifier::external_body]
pub fn trim_str(s: &str) -> (r: &str)
    ensures
        r@ == trim_of(s@),
        is_normal_key_chars(s@) ==> r@ == s@,
{
    s.trim()
}

/// What `str::to_lowercase` returns: a function of the characters alone.
pub uninterp spec fn lower_of(s: Seq<char>) -> Seq<char>;

/// Relies on str::to_lowercase: the result depends on the characters
/// alone, and lowercase ASCII letters, digits and spaces map to themselves,
/// so a normalized key is returned unchanged.
#[verifier::external_body]
fn lowercase(s: &str) -> (r: String)
    ensures
        r@ == lower_of(s@),
        is_normal_key_chars(s@) ==> r@ == s@,
{
    s.to_lowercase()
}

/// The NFKD decomposition with combining marks removed: a function of the
/// characters alone.
pub uninterp spec fn fold_marks_of(s: Seq<char>) -> Seq<char>;

/// Relies on unicode_normalization's nfkd and is_combining_mark: NFKD
/// decomposition with the combining marks filtered out. ASCII is its own
/// decomposition and holds no combining marks, so a normalized key is
/// returned unchanged.
#[verifier::external_body]
fn fold_marks(s: &str) -> (r: String)
    ensures
        r@ == fold_marks_of(s@),
        is_normal_key_chars(s@) ==> r@ == s@,
{
    s.nfkd().filter(|c| !is_combining_mark(*c)).collect()
}

/// Relies on String::from_utf8: ASCII bytes decode to the same characters.
#[verifier::external_body]
pub fn ascii_to_string(v: Vec<u8>) -> (r: String)
    requires
        forall|i: int| 0 <= i < v@.len() ==> v@[i] < 128,
    ensures
        r@ == s_ascii_chars(v@),
{
    String::from_utf8(v).unwrap_or_default()
}

/// ASCII bytes read as characters.
pub open spec fn s_ascii_chars(bs: Seq<u8>) -> Seq<char> {
    Seq::new(bs.len(), |i: int| bs[i] as char)
}

/// Plain key characters written as bytes.
pub open spec fn s_key_bytes(cs: Seq<char>) -> Seq<u8> {
    Seq::new(cs.len(), |i: int| cs[i] as u8)
}

/// A byte a normalized key may hold.
pub open spec fn is_plain_key_byte(b: u8) -> bool {
    (97 <= b <= 122) || (48 <= b <= 57) || b == 32
}

pub open spec fn plain_bytes(bs: Seq<u8>) -> bool {
    forall|i: int| 0 <= i < bs.len() ==> is_plain_key_byte(#[trigger] bs[i])
}

pub open spec fn no_double_space(bs: Seq<u8>) -> bool {
    forall|i: int| 0 <= i < bs.len() - 1 ==> !((#[trigger] bs[i]) == 32 && bs[i + 1] == 32)
}

/// The byte image of the normal key shape.
pub open spec fn is_normal_key_bytes(bs: Seq<u8>) -> bool {
    &&& plain_bytes(bs)
    &&& no_double_space(bs)
    &&& (bs.len() == 0 || (bs[0] != 32 && bs[bs.len() - 1] != 32))
}

/// A lowercase ASCII letter or digit keeps its byte; all else is a space.
pub open spec fn s_alnum_byte(c: char) -> u8 {
    if ('a' <= c && c <= 'z') || ('0' <= c && c <= '9') {
        c as u8
    } else {
        32
    }
}

/// Map characters to key bytes and collapse space runs.
pub open spec fn s_alnum_collapse(s: Seq<char>) -> Seq<u8>
    decreases s.len(),
{
    if s.len() == 0 {
        Seq::empty()
    } else {
        let pre = s_alnum_collapse(s.drop_last());
        let b = s_alnum_byte(s.last());
        if b == 32 {
            if pre.len() > 0 && pre.last() == 32 {
                pre
            } else {
                pre.push(32)
            }
        } else {
            pre.push(b)
        }
    }
}

/// The collapse only emits plain bytes and never two adjacent spaces.
pub proof fn lemma_collapse_shape(s: Seq<char>)
    ensures
        plain_bytes(s_alnum_collapse(s)),
        no_double_space(s_alnum_collapse(s)),
    decreases s.len(),
{
    if s.len() == 0 {
    } else {
        lemma_collapse_shape(s.drop_last());
        let pre = s_alnum_collapse(s.drop_last());
        let b = s_alnum_byte(s.last());
        let whole = s_alnum_collapse(s);
        assert forall|i: int| 0 <= i < whole.len() implies is_plain_key_byte(
            #[trigger] whole[i],
        ) by {
            if i < pre.len() {
                assert(whole[i] == pre[i]);
            }
        }
        assert forall|i: int|
            0 <= i < whole.len() - 1 implies !((#[trigger] whole[i]) == 32 && whole[i + 1]
            == 32) by {
            if i < pre.len() - 1 {
                assert(whole[i] == pre[i] && whole[i + 1] == pre[i + 1]);
            }
        }
    }
}

/// Stripping leaves no space at either end and keeps the shape facts.
pub proof fn lemma_strip_shape(bs: Seq<u8>)
    requires
        plain_bytes(bs),
        no_double_space(bs),
    ensures
        is_normal_key_bytes(crate::hyperspace::s_strip(bs)),
    decreases bs.len(),
{
    if bs.len() > 0 && bs.last() == 32 {
        assert(plain_bytes(bs.drop_last()) && no_double_space(bs.drop_last())) by {
            assert(forall|i: int|
                0 <= i < bs.len() - 1 ==> bs.drop_last()[i] == #[trigger] bs[i]);
        }
        lemma_strip_shape(bs.drop_last());
    } else if bs.len() > 0 && bs[0] == 32 {
        assert(plain_bytes(bs.drop_first()) && no_double_space(bs.drop_first())) by {
            assert(forall|i: int|
                0 <= i < bs.len() - 1 ==> bs.drop_first()[i] == #[trigger] bs[i + 1]);
        }
        lemma_strip_shape(bs.drop_first());
    }
}

/// Stripping a byte string with clean edges is the identity.
pub proof fn lemma_strip_identity(bs: Seq<u8>)
    requires
        bs.len() == 0 || (bs[0] != 32 && bs[bs.len() - 1] != 32),
    ensures
        crate::hyperspace::s_strip(bs) == bs,
{
}

/// Collapsing a sequence already in key shape (no leading space, no space
/// runs, plain characters) writes it out byte for byte.
pub proof fn lemma_collapse_fixed(cs: Seq<char>)
    requires
        forall|i: int| 0 <= i < cs.len() ==> is_plain_key_char(#[trigger] cs[i]),
        forall|i: int| 0 <= i < cs.len() - 1 ==> !((#[trigger] cs[i]) == ' ' && cs[i + 1] == ' '),
        cs.len() == 0 || cs[0] != ' ',
    ensures
        s_alnum_collapse(cs) == s_key_bytes(cs),
    decreases cs.len(),
{
    if cs.len() == 0 {
        assert(s_alnum_collapse(cs) =~= s_key_bytes(cs));
    } else {
        let dl = cs.drop_last();
        assert(forall|i: int| 0 <= i < dl.len() ==> dl[i] == #[trigger] cs[i]);
        lemma_collapse_fixed(dl);
        let c = cs.last();
        assert(is_plain_key_char(c));
        if c == ' ' {
            // a space is never first and never follows a space
            assert(cs.len() >= 2);
            let prev = cs[cs.len() - 2];
            assert(prev != ' ');
            assert(s_key_bytes(dl).last() == (prev as u8));
            assert((prev as u8) != 32);
            assert(s_alnum_collapse(cs) =~= s_key_bytes(cs));
        } else {
            assert(s_alnum_byte(c) == c as u8);
            assert(s_alnum_collapse(cs) =~= s_key_bytes(cs));
        }
    }
}

/// Writing plain key characters as bytes and reading them back is the
/// identity.
pub proof fn lemma_key_bytes_roundtrip(cs: Seq<char>)
    requires
        forall|i: int| 0 <= i < cs.len() ==> is_plain_key_char(#[trigger] cs[i]),
    ensures
        s_ascii_chars(s_key_bytes(cs)) == cs,
        plain_bytes(s_key_bytes(cs)),
        forall|i: int| 0 <= i < cs.len() ==> ((#[trigger] s_key_bytes(cs)[i]) == 32 <==> cs[i]
            == ' '),
{
    assert forall|i: int| 0 <= i < cs.len() implies ((#[trigger] s_key_bytes(cs)[i]) == 32 <==> cs[i]
        == ' ') by {
        assert(is_plain_key_char(cs[i]));
    }
    assert forall|i: int| 0 <= i < cs.len() implies is_plain_key_byte(
        #[trigger] s_key_bytes(cs)[i],
    ) by {
        assert(is_plain_key_char(cs[i]));
    }
    assert(s_ascii_chars(s_key_bytes(cs)) =~= cs);
}

/// The byte image of the normal shape reads back as the normal shape.
pub proof fn lemma_normal_bytes_to_chars(bs: Seq<u8>)
    requires
        is_normal_key_bytes(bs),
    ensures
        is_normal_key_chars(s_ascii_chars(bs)),
{
    let cs = s_ascii_chars(bs);
    assert forall|i: int| 0 <= i < cs.len() implies is_plain_key_char(#[trigger] cs[i]) by {
        assert(is_plain_key_byte(bs[i]));
    }
    assert forall|i: int|
        0 <= i < cs.len() - 1 implies !((#[trigger] cs[i]) == ' ' && cs[i + 1] == ' ') by {
        assert(is_plain_key_byte(bs[i]) && is_plain_key_byte(bs[i + 1]));
        assert(!(bs[i] == 32 && bs[i + 1] == 32));
    }
    if cs.len() > 0 {
        assert(is_plain_key_byte(bs[0]) && is_plain_key_byte(bs[bs.len() - 1]));
    }
}

/// The normalized key of a name, over the named foldings.
pub open spec fn s_normal_key(s: Seq<char>) -> Seq<u8> {
    crate::hyperspace::s_strip(s_alnum_collapse(fold_marks_of(lower_of(trim_of(s)))))
}

/// Normalize a display name for indexing and lookups: trim, lowercase,
/// strip diacritics, keep `a-z0-9` and fold everything else into single
/// spaces. The result always has the normal key shape, and an input already
/// of that shape comes back unchanged, so normalization is idempotent.
pub fn normalize_text(input: &str) -> (r: String)
    ensures
        r@ == s_ascii_chars(s_normal_key(input@)),
        is_normal_key_chars(r@),
        is_normal_key_chars(input@) ==> r@ == input@,
{
    let t = trim_str(input);
    let l = lowercase(t);
    let f = fold_marks(l.as_str());
    let fs = f.as_str();
    let n = fs.unicode_len();
    let mut out: Vec<u8> = Vec::new();
    proof {
        assert(fs@.take(0) =~= Seq::<char>::empty());
    }
    for i in 0..n
        invariant
            n == fs@.len(),
            out@ == s_alnum_collapse(fs@.take(i as int)),
    {
        proof {
            assert(fs@.take(i + 1).drop_last() =~= fs@.take(i as int));
            assert(fs@.take(i + 1).last() == fs@[i as int]);
        }
        let c = fs.get_char(i);
        let keep = ('a' <= c && c <= 'z') || ('0' <= c && c <= '9');
        let b: u8 = if keep {
            c as u8
        } else {
            32
        };
        if b == 32 {
            let push_space = if out.len() == 0 {
                true
            } else {
                *out.last().unwrap() != 32
            };
            if push_space {
                out.push(32);
            }
        } else {
            out.push(b);
        }
    }
    proof {
        assert(fs@.take(n as int) =~= fs@);
        lemma_collapse_shape(fs@);
    }
    while out.len() > 0 && *out.last().unwrap() == 32
        invariant
            crate::hyperspace::s_strip(out@) == s_normal_key(input@),
            plain_bytes(out@),
            no_double_space(out@),
        decreases out@.len(),
    {
        let ghost before = out@;
        out.pop();
        proof {
            assert(forall|j: int| 0 <= j < out@.len() ==> out@[j] == #[trigger] before[j]);
        }
    }
    while out.len() > 0 && out[0] == 32
        invariant
            crate::hyperspace::s_strip(out@) == s_normal_key(input@),
            out@.len() == 0 || out@.last() != 32,
            plain_bytes(out@),
            no_double_space(out@),
        decreases out@.len(),
    {
        let ghost before = out@;
        out.remove(0);
        proof {
            assert(forall|j: int| 0 <= j < out@.len() ==> out@[j] == #[trigger] before[j + 1]);
        }
    }
    proof {
        assert(is_normal_key_bytes(out@));
        lemma_strip_identity(out@);
        assert(out@ == s_normal_key(input@));
        lemma_normal_bytes_to_chars(out@);
        if is_normal_key_chars(input@) {
            // the named foldings fix the input, so the key is its byte image
            assert(fs@ == input@);
            lemma_collapse_fixed(input@);
            lemma_key_bytes_roundtrip(input@);
            lemma_strip_identity(s_key_bytes(input@));
            assert(s_normal_key(input@) == s_key_bytes(input@));
        }
        assert(forall|i: int| 0 <= i < out@.len() ==> #[trigger] out@[i] < 128);
    }
    ascii_to_string(out)
}

} // verus!
