//! Small text helpers shared by the command renderers: truncation with an
//! ellipsis, table column widths, cell fallbacks, and the wiki URL of a
//! planet name.

use vstd::prelude::*;

use crate::normalize::{trim_of, trim_str};

verus! {

use vstd::string::StrSliceExecFns;
use vstd::string::StringSliceAdditionalSpecFns;

pub assume_specification [String::push] (s: &mut String, ch: char)
    ensures
        final(s)@ == old(s)@.push(ch),
;

/// A string cut to `width` characters, the last one an ellipsis when
/// anything was cut.
pub open spec fn s_truncated(s: Seq<char>, width: int) -> Seq<char> {
    if width == 0 {
        Seq::empty()
    } else if s.len() <= width {
        s
    } else if width == 1 {
        seq!['\u{2026}']
    } else {
        s.take(width - 1).push('\u{2026}')
    }
}

/// Cut a string to `width` characters, ending in an ellipsis when cut.
pub fn truncate_ellipsis(s: &str, width: usize) -> (r: String)
    ensures
        r@ == s_truncated(s@, width as int),
{
    if width == 0 {
        return String::new();
    }
    let len = s.unicode_len();
    if len <= width {
        return s.to_owned();
    }
    if width == 1 {
        let mut o = String::new();
        o.push('\u{2026}');
        proof {
            assert(o@ =~= s_truncated(s@, width as int));
        }
        return o;
    }
    let take = width - 1;
    let mut out = String::new();
    for i in 0..take
        invariant
            take < len,
            len == s@.len(),
            out@ == s@.take(i as int),
    {
        out.push(s.get_char(i));
        proof {
            assert(s@.take(i + 1) =~= s@.take(i as int).push(s@[i as int]));
        }
    }
    out.push('\u{2026}');
    out
}

/// The widest byte length among the items, at least `min`.
pub open spec fn s_col_width(lens: Seq<usize>, min: usize) -> usize
    decreases lens.len(),
{
    if lens.len() == 0 {
        min
    } else {
        let pre = s_col_width(lens.drop_last(), min);
        if lens.last() > pre {
            lens.last()
        } else {
            pre
        }
    }
}

/// The byte lengths of a sequence of owned strings.
pub open spec fn s_string_lens(items: Seq<String>) -> Seq<usize> {
    items.map_values(|s: String| vstd::utf8::encode_utf8(s@).len() as usize)
}

/// The byte lengths of a sequence of borrowed strings.
pub open spec fn s_str_lens(items: Seq<&str>) -> Seq<usize> {
    items.map_values(|s: &str| s.spec_bytes().len() as usize)
}

/// Column width fitting every item, with a minimum.
pub fn col_width(items: &Vec<String>, min: usize) -> (r: usize)
    ensures
        r == s_col_width(s_string_lens(items@), min),
{
    let mut w = min;
    let n = items.len();
    proof {
        assert(s_string_lens(items@).take(0) =~= Seq::<usize>::empty());
    }
    for i in 0..n
        invariant
            n == items@.len(),
            w == s_col_width(s_string_lens(items@).take(i as int), min),
    {
        proof {
            let m = s_string_lens(items@);
            assert(m.take(i + 1).drop_last() =~= m.take(i as int));
            assert(m.take(i + 1).last() == m[i as int]);
            assert(m[i as int] == vstd::utf8::encode_utf8(items@[i as int]@).len() as usize);
        }
        let l = items[i].as_str().len();
        if l > w {
            w = l;
        }
    }
    proof {
        let m = s_string_lens(items@);
        assert(m.take(n as int) =~= m);
    }
    w
}

/// Column width fitting every item, with a minimum.
pub fn col_width_from_strs(items: &[&str], min: usize) -> (r: usize)
    ensures
        r == s_col_width(s_str_lens(items@), min),
{
    let mut w = min;
    let n = items.len();
    proof {
        assert(s_str_lens(items@).take(0) =~= Seq::<usize>::empty());
    }
    for i in 0..n
        invariant
            n == items@.len(),
            w == s_col_width(s_str_lens(items@).take(i as int), min),
    {
        proof {
            let m = s_str_lens(items@);
            assert(m.take(i + 1).drop_last() =~= m.take(i as int));
            assert(m.take(i + 1).last() == m[i as int]);
            assert(m[i as int] == items@[i as int].spec_bytes().len() as usize);
        }
        let l = items[i].len();
        if l > w {
            w = l;
        }
    }
    proof {
        let m = s_str_lens(items@);
        assert(m.take(n as int) =~= m);
    }
    w
}

/// A cell value, or `-` when the value is missing or blank.
pub fn cell<'a>(opt: &'a Option<String>) -> (r: &'a str)
    ensures
        match opt {
            Some(s) => if trim_of(s@).len() != 0 {
                r@ == s@
            } else {
                r@ == "-"@
            },
            None => r@ == "-"@,
        },
{
    match opt {
        Some(s) => {
            let t = trim_str(s.as_str());
            if !t.is_empty() {
                s.as_str()
            } else {
                "-"
            }
        },
        None => "-",
    }
}

/// A value, or `-` when missing.
pub fn opt_str<'a>(v: Option<&'a str>) -> (r: &'a str)
    ensures
        match v {
            Some(s) => r@ == s@,
            None => r@ == "-"@,
        },
{
    match v {
        Some(s) => s,
        None => "-",
    }
}

/// What `char::is_whitespace` answers: the Unicode White_Space property,
/// a function of the character alone.
pub uninterp spec fn is_space_of(c: char) -> bool;

/// Relies on char::is_whitespace: Unicode White_Space membership.
#[verifier::external_body]
fn ws_char(c: char) -> (r: bool)
    ensures
        r == is_space_of(c),
{
    c.is_whitespace()
}

/// What `char::to_uppercase` yields: the character's Unicode uppercase
/// mapping, possibly several characters, a function of the character alone.
pub uninterp spec fn upper_of(c: char) -> Seq<char>;

/// Relies on char::to_uppercase: the Unicode uppercase mapping of one
/// character, collected in order.
#[verifier::external_body]
fn upper_char(c: char) -> (r: String)
    ensures
        r@ == upper_of(c),
{
    c.to_uppercase().collect()
}

/// Words of the name, each with its first character uppercased, joined by
/// underscores; scanned from position `i` with `prev_ws` saying whether a
/// word boundary precedes and `started` whether a word was emitted.
pub open spec fn s_wiki_words(s: Seq<char>, i: int, prev_ws: bool, started: bool) -> Seq<char>
    decreases s.len() - i,
{
    if i < 0 || i >= s.len() {
        Seq::empty()
    } else if is_space_of(s[i]) {
        s_wiki_words(s, i + 1, true, started)
    } else {
        let head: Seq<char> = if prev_ws {
            (if started {
                seq!['_']
            } else {
                Seq::empty()
            }) + upper_of(s[i])
        } else {
            seq![s[i]]
        };
        head + s_wiki_words(s, i + 1, false, true)
    }
}

/// The wiki page URL of a planet: words capitalized and joined by
/// underscores under the wiki's base address.
pub open spec fn s_fandom_url(name: Seq<char>) -> Seq<char> {
    "https://starwars.fandom.com/wiki/"@ + s_wiki_words(name, 0, true, false)
}

/// Build the wiki page URL of a planet name.
pub fn fandom_planet_url(name: &str) -> (r: String)
    ensures
        r@ == s_fandom_url(name@),
{
    let mut out = String::from_str("https://starwars.fandom.com/wiki/");
    let n = name.unicode_len();
    let mut prev_ws = true;
    let mut started = false;
    for i in 0..n
        invariant
            n == name@.len(),
            out@ + s_wiki_words(name@, i as int, prev_ws, started) == s_fandom_url(name@),
    {
        let c = name.get_char(i);
        if ws_char(c) {
            prev_ws = true;
        } else {
            if prev_ws {
                if started {
                    out.push('_');
                }
                out.append(upper_char(c).as_str());
            } else {
                out.push(c);
            }
            prev_ws = false;
            started = true;
        }
    }
    out
}

} // verus!
