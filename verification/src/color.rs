//! Color helper with a single policy shared across commands.
//!
//! Colors are applied only when the style enables them; each painter wraps
//! the text in one SGR code pair through owo_colors. Thresholds that pick a
//! color are fixed-point scalars.

use vstd::prelude::*;

use crate::ui::Style;

verus! {

/// Relies on owo_colors' green painter: SGR 32, closed with the
/// default-foreground code.
#[verifier::external_body]
fn paint_green(s: &str) -> (r: String)
    ensures
        r@ == "\u{1b}[32m"@ + s@ + "\u{1b}[39m"@,
{
    owo_colors::OwoColorize::green(&s).to_string()
}

/// Relies on owo_colors' red painter: SGR 31 around the text.
#[verifier::external_body]
fn paint_red(s: &str) -> (r: String)
    ensures
        r@ == "\u{1b}[31m"@ + s@ + "\u{1b}[39m"@,
{
    owo_colors::OwoColorize::red(&s).to_string()
}

/// Relies on owo_colors' yellow painter: SGR 33 around the text.
#[verifier::external_body]
fn paint_yellow(s: &str) -> (r: String)
    ensures
        r@ == "\u{1b}[33m"@ + s@ + "\u{1b}[39m"@,
{
    owo_colors::OwoColorize::yellow(&s).to_string()
}

/// Relies on owo_colors' cyan painter: SGR 36 around the text.
#[verifier::external_body]
fn paint_cyan(s: &str) -> (r: String)
    ensures
        r@ == "\u{1b}[36m"@ + s@ + "\u{1b}[39m"@,
{
    owo_colors::OwoColorize::cyan(&s).to_string()
}

/// Relies on owo_colors' bright_black painter: SGR 90 around the text.
#[verifier::external_body]
fn paint_bright_black(s: &str) -> (r: String)
    ensures
        r@ == "\u{1b}[90m"@ + s@ + "\u{1b}[39m"@,
{
    owo_colors::OwoColorize::bright_black(&s).to_string()
}

/// The text wrapped in one SGR code pair.
pub open spec fn s_painted(code: Seq<char>, s: Seq<char>) -> Seq<char> {
    code + s + "\u{1b}[39m"@
}

/// What a painter returns: the text as given, or wrapped when enabled.
pub open spec fn s_colored(enabled: bool, code: Seq<char>, s: Seq<char>) -> Seq<char> {
    if enabled {
        s_painted(code, s)
    } else {
        s
    }
}

pub struct Colors {
    pub enabled: bool,
}

impl Colors {
    pub fn new(style: &Style) -> (r: Self)
        ensures
            r.enabled == style.color,
    {
        Colors { enabled: style.color }
    }

    /// Green when enabled.
    pub fn ok(&self, s: &str) -> (r: String)
        ensures
            r@ == s_colored(self.enabled, "\u{1b}[32m"@, s@),
    {
        if self.enabled {
            paint_green(s)
        } else {
            s.to_owned()
        }
    }

    /// Red when enabled.
    pub fn err(&self, s: &str) -> (r: String)
        ensures
            r@ == s_colored(self.enabled, "\u{1b}[31m"@, s@),
    {
        if self.enabled {
            paint_red(s)
        } else {
            s.to_owned()
        }
    }

    /// Yellow when enabled.
    pub fn warn(&self, s: &str) -> (r: String)
        ensures
            r@ == s_colored(self.enabled, "\u{1b}[33m"@, s@),
    {
        if self.enabled {
            paint_yellow(s)
        } else {
            s.to_owned()
        }
    }

    /// Cyan when enabled.
    pub fn info(&self, s: &str) -> (r: String)
        ensures
            r@ == s_colored(self.enabled, "\u{1b}[36m"@, s@),
    {
        if self.enabled {
            paint_cyan(s)
        } else {
            s.to_owned()
        }
    }

    /// Dimmed when enabled.
    pub fn dim(&self, s: &str) -> (r: String)
        ensures
            r@ == s_colored(self.enabled, "\u{1b}[90m"@, s@),
    {
        if self.enabled {
            paint_bright_black(s)
        } else {
            s.to_owned()
        }
    }

    /// The origin endpoint renders red.
    pub fn from_name(&self, s: &str) -> (r: String)
        ensures
            r@ == s_colored(self.enabled, "\u{1b}[31m"@, s@),
    {
        self.err(s)
    }

    /// The destination endpoint renders green.
    pub fn to_name(&self, s: &str) -> (r: String)
        ensures
            r@ == s_colored(self.enabled, "\u{1b}[32m"@, s@),
    {
        self.ok(s)
    }

    /// The start label renders red.
    pub fn label_start(&self, s: &str) -> (r: String)
        ensures
            r@ == s_colored(self.enabled, "\u{1b}[31m"@, s@),
    {
        self.err(s)
    }

    /// The end label renders green.
    pub fn label_end(&self, s: &str) -> (r: String)
        ensures
            r@ == s_colored(self.enabled, "\u{1b}[32m"@, s@),
    {
        self.ok(s)
    }

    /// Detour labels render yellow.
    pub fn label_detour(&self, s: &str) -> (r: String)
        ensures
            r@ == s_colored(self.enabled, "\u{1b}[33m"@, s@),
    {
        self.warn(s)
    }

    /// Obstacles render red.
    pub fn obstacle(&self, s: &str) -> (r: String)
        ensures
            r@ == s_colored(self.enabled, "\u{1b}[31m"@, s@),
    {
        self.err(s)
    }

    /// Inserted waypoints render yellow.
    pub fn waypoint(&self, s: &str) -> (r: String)
        ensures
            r@ == s_colored(self.enabled, "\u{1b}[33m"@, s@),
    {
        self.warn(s)
    }

    /// Violated requirements render red.
    pub fn violated(&self, s: &str) -> (r: String)
        ensures
            r@ == s_colored(self.enabled, "\u{1b}[31m"@, s@),
    {
        self.err(s)
    }

    /// Exhausted offset searches render red, successful ones green.
    pub fn tries(&self, exhausted: bool, s: &str) -> (r: String)
        ensures
            r@ == if exhausted {
                s_colored(self.enabled, "\u{1b}[31m"@, s@)
            } else {
                s_colored(self.enabled, "\u{1b}[32m"@, s@)
            },
    {
        if !self.enabled {
            return s.to_owned();
        }
        if exhausted {
            paint_red(s)
        } else {
            paint_green(s)
        }
    }

    /// Color a total score by the penalty share of the base length:
    /// within one percent green, within five percent yellow, else red.
    /// The ratio is fixed point.
    pub fn score_total_by_ratio(&self, penalty_ratio: i64, total_txt: &str) -> (r: String)
        ensures
            r@ == if !self.enabled {
                total_txt@
            } else if penalty_ratio <= 100 {
                s_painted("\u{1b}[32m"@, total_txt@)
            } else if penalty_ratio <= 500 {
                s_painted("\u{1b}[33m"@, total_txt@)
            } else {
                s_painted("\u{1b}[31m"@, total_txt@)
            },
    {
        if !self.enabled {
            return total_txt.to_owned();
        }
        if penalty_ratio <= 100 {
            paint_green(total_txt)
        } else if penalty_ratio <= 500 {
            paint_yellow(total_txt)
        } else {
            paint_red(total_txt)
        }
    }

    /// Color a scalar magnitude: small green, moderate yellow, large red.
    /// Thresholds are fixed-point 0.05 and 1.0.
    pub fn magnitude(&self, v: i64, txt: &str) -> (r: String)
        ensures
            r@ == if !self.enabled {
                txt@
            } else if v <= 500 {
                s_painted("\u{1b}[32m"@, txt@)
            } else if v <= 10_000 {
                s_painted("\u{1b}[33m"@, txt@)
            } else {
                s_painted("\u{1b}[31m"@, txt@)
            },
    {
        if !self.enabled {
            return txt.to_owned();
        }
        if v <= 500 {
            paint_green(txt)
        } else if v <= 10_000 {
            paint_yellow(txt)
        } else {
            paint_red(txt)
        }
    }

    /// Color a value by absolute thresholds: at most `good` green, at least
    /// `bad` red, between them yellow; plain when either bound is missing.
    pub fn by_thresholds(&self, value: i64, good: Option<i64>, bad: Option<i64>, txt: &str) -> (r:
        String)
        ensures
            r@ == match (good, bad) {
                (Some(g), Some(b)) => if !self.enabled {
                    txt@
                } else if value <= g {
                    s_painted("\u{1b}[32m"@, txt@)
                } else if value >= b {
                    s_painted("\u{1b}[31m"@, txt@)
                } else {
                    s_painted("\u{1b}[33m"@, txt@)
                },
                _ => txt@,
            },
    {
        match (good, bad) {
            (Some(g), Some(b)) => {
                if !self.enabled {
                    txt.to_owned()
                } else if value <= g {
                    paint_green(txt)
                } else if value >= b {
                    paint_red(txt)
                } else {
                    paint_yellow(txt)
                }
            },
            _ => txt.to_owned(),
        }
    }

    /// A driver line's color follows its prefix: constraints and limits
    /// red, costs yellow, anything else plain.
    pub fn driver_line(&self, line: &str) -> (r: String)
        ensures
            self.enabled ==> {
                &&& (starts_with_view(line@, "constraint:"@) || starts_with_view(
                    line@,
                    "limit:"@,
                )) ==> r@ == s_painted("\u{1b}[31m"@, line@)
                &&& (!(starts_with_view(line@, "constraint:"@) || starts_with_view(
                    line@,
                    "limit:"@,
                )) && starts_with_view(line@, "cost:"@)) ==> r@ == s_painted("\u{1b}[33m"@, line@)
                &&& (!(starts_with_view(line@, "constraint:"@) || starts_with_view(
                    line@,
                    "limit:"@,
                )) && !starts_with_view(line@, "cost:"@)) ==> r@ == line@
            },
            !self.enabled ==> r@ == line@,
    {
        if !self.enabled {
            return line.to_owned();
        }
        if starts_with_lit(line, "constraint:") || starts_with_lit(line, "limit:") {
            paint_red(line)
        } else if starts_with_lit(line, "cost:") {
            paint_yellow(line)
        } else {
            line.to_owned()
        }
    }
}

/// `s` begins with `prefix`.
pub open spec fn starts_with_view(s: Seq<char>, prefix: Seq<char>) -> bool {
    s.len() >= prefix.len() && s.take(prefix.len() as int) == prefix
}

/// Whether `s` starts with an ASCII literal prefix.
fn starts_with_lit(s: &str, prefix: &str) -> (r: bool)
    ensures
        r == starts_with_view(s@, prefix@),
{
    let n = s.unicode_len();
    let m = prefix.unicode_len();
    if n < m {
        return false;
    }
    for i in 0..m
        invariant
            m == prefix@.len(),
            n == s@.len(),
            m <= n,
            forall|j: int| 0 <= j < i ==> s@[j] == prefix@[j],
    {
        if s.get_char(i) != prefix.get_char(i) {
            return false;
        }
    }
    proof {
        assert(s@.take(m as int) =~= prefix@);
    }
    true
}

} // verus!
