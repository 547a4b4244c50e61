//! Terminal message styling: severity levels, the output style, and the
//! level-prefixed message lines.
//!
//! The content of every emitted line is computed by verified code; only the
//! terminal probe and the final write are trusted.

use vstd::prelude::*;

use std::io::Write;

verus! {

#[derive(Clone, Copy, Debug, PartialEq, Eq, Structural)]
pub enum Level {
    Info,
    Success,
    Warning,
    Error,
}

#[derive(Clone, Copy, Debug, PartialEq, Eq, Structural)]
pub struct Style {
    pub emoji: bool,
    pub color: bool,
}

/// Relies on atty: whether standard output is a terminal; depends on the
/// environment.
#[verifier::external_body]
fn stdout_is_tty() -> bool {
    atty::is(atty::Stream::Stdout)
}

impl Default for Style {
    /// Colors only when stdout is a terminal; emojis always on by default.
    fn default() -> (r: Self)
        ensures
            r.emoji == true,
    {
        let color = stdout_is_tty();
        Style { emoji: true, color }
    }
}

/// Relies on writeln to standard output.
#[verifier::external_body]
fn emit_line(s: &str) {
    let _ = writeln!(std::io::stdout(), "{}", s);
}

/// The emoji prefix of a severity level.
pub open spec fn s_level_prefix(level: Level) -> Seq<char> {
    match level {
        Level::Info => "\u{2139}\u{fe0f} "@,
        Level::Success => "\u{2705} "@,
        Level::Warning => "\u{26a0}\u{fe0f} "@,
        Level::Error => "\u{274c} "@,
    }
}

/// The SGR color code a level is painted with, if any.
pub open spec fn s_level_color(level: Level) -> Option<Seq<char>> {
    match level {
        Level::Info => None,
        Level::Success => Some("\u{1b}[32m"@),
        Level::Warning => Some("\u{1b}[33m"@),
        Level::Error => Some("\u{1b}[31m"@),
    }
}

/// The rendered line of one message at one level and style.
pub open spec fn s_styled_line(level: Level, msg: Seq<char>, style: Style) -> Seq<char> {
    let line = if style.emoji {
        s_level_prefix(level) + msg
    } else {
        msg
    };
    if style.color {
        match s_level_color(level) {
            Some(code) => code + line + "\u{1b}[0m"@,
            None => line,
        }
    } else {
        line
    }
}

/// Render one message line with its level prefix and color.
pub fn styled_line(level: Level, msg: &str, style: Style) -> (r: String)
    ensures
        r@ == s_styled_line(level, msg@, style),
{
    let mut line = String::new();
    if style.emoji {
        match level {
            Level::Info => line.append("\u{2139}\u{fe0f} "),
            Level::Success => line.append("\u{2705} "),
            Level::Warning => line.append("\u{26a0}\u{fe0f} "),
            Level::Error => line.append("\u{274c} "),
        }
    }
    line.append(msg);
    if style.color {
        let mut painted = String::new();
        match level {
            Level::Info => {
                return line;
            },
            Level::Success => painted.append("\u{1b}[32m"),
            Level::Warning => painted.append("\u{1b}[33m"),
            Level::Error => painted.append("\u{1b}[31m"),
        }
        painted.append(line.as_str());
        painted.append("\u{1b}[0m");
        return painted;
    }
    line
}

/// Print one message line at the given level and style.
pub fn print_line(level: Level, msg: &str, style: Style) {
    let line = styled_line(level, msg, style);
    emit_line(line.as_str());
}

pub fn info(msg: &str) {
    print_line(Level::Info, msg, Style::default());
}

pub fn success(msg: &str) {
    print_line(Level::Success, msg, Style::default());
}

pub fn warning(msg: &str) {
    print_line(Level::Warning, msg, Style::default());
}

pub fn error(msg: &str) {
    print_line(Level::Error, msg, Style::default());
}

} // verus!
