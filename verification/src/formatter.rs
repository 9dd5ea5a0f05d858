//! Log-line formatting: the fixed-width level label and the
//! level-colored message the event formatter emits. The timestamp is
//! prepended by the caller that owns the clock; everything after it is
//! decided here.

use vstd::prelude::*;
use vstd::string::StringExecFns;

use crate::strutil::{contains_pair, has_pair};

use ansi_term::Colour;

verus! {

/// Severity of a log event, highest first.
#[derive(Clone, Copy, Debug, PartialEq, Eq, Structural)]
pub enum LogLevel {
    Error,
    Warn,
    Info,
    Debug,
    Trace,
}

/// The terminal colors messages are painted in.
#[derive(Clone, Copy, Debug, PartialEq, Eq, Structural)]
pub enum LogColor {
    Red,
    Yellow,
    Green,
    Blue,
    Purple,
    Cyan,
}

/// The escape sequence that starts text in the given color.
pub open spec fn ansi_code(c: LogColor) -> Seq<char> {
    match c {
        LogColor::Red => "\u{1b}[31m"@,
        LogColor::Yellow => "\u{1b}[33m"@,
        LogColor::Green => "\u{1b}[32m"@,
        LogColor::Blue => "\u{1b}[34m"@,
        LogColor::Purple => "\u{1b}[35m"@,
        LogColor::Cyan => "\u{1b}[36m"@,
    }
}

/// Text wrapped in the color's escape prefix and the reset suffix.
pub open spec fn painted(c: LogColor, s: Seq<char>) -> Seq<char> {
    ansi_code(c) + s + "\u{1b}[0m"@
}

/// Relies on ansi_term's `Colour::paint` and the display of the painted
/// string: a plain foreground style writes the colour's escape prefix
/// (`ESC [ <code> m`, codes 31-36), the text unchanged, and the reset
/// suffix `ESC [ 0 m`.
#[verifier::external_body]
fn paint(c: LogColor, s: &str) -> (r: String)
    ensures
        r@ == painted(c, s@),
{
    let colour = match c {
        LogColor::Red => Colour::Red,
        LogColor::Yellow => Colour::Yellow,
        LogColor::Green => Colour::Green,
        LogColor::Blue => Colour::Blue,
        LogColor::Purple => Colour::Purple,
        LogColor::Cyan => Colour::Cyan,
    };
    colour.paint(s).to_string()
}

/// The level's label, right-aligned to five columns, with a trailing
/// space.
pub open spec fn spec_level_label(l: LogLevel) -> Seq<char> {
    match l {
        LogLevel::Error => "ERROR "@,
        LogLevel::Warn => " WARN "@,
        LogLevel::Info => " INFO "@,
        LogLevel::Debug => "DEBUG "@,
        LogLevel::Trace => "TRACE "@,
    }
}

/// Writes the level's fixed-width label.
pub fn write_level(level: LogLevel) -> (r: String)
    ensures
        r@ == spec_level_label(level),
{
    match level {
        LogLevel::Error => String::from_str("ERROR "),
        LogLevel::Warn => String::from_str(" WARN "),
        LogLevel::Info => String::from_str(" INFO "),
        LogLevel::Debug => String::from_str("DEBUG "),
        LogLevel::Trace => String::from_str("TRACE "),
    }
}

/// How a message is colored: by severity, and for trace events by the
/// direction arrow it carries — `->` purple, `<-` cyan, anything else
/// unpainted.
pub open spec fn spec_colored_message(level: LogLevel, msg: Seq<char>) -> Seq<char> {
    match level {
        LogLevel::Error => painted(LogColor::Red, msg),
        LogLevel::Warn => painted(LogColor::Yellow, msg),
        LogLevel::Info => painted(LogColor::Green, msg),
        LogLevel::Debug => painted(LogColor::Blue, msg),
        LogLevel::Trace => if contains_pair(msg, '-', '>') {
            painted(LogColor::Purple, msg)
        } else if contains_pair(msg, '<', '-') {
            painted(LogColor::Cyan, msg)
        } else {
            msg
        },
    }
}

/// Paints a message for its level.
pub fn write_colored_message(level: LogLevel, message: &str) -> (r: String)
    ensures
        r@ == spec_colored_message(level, message@),
{
    match level {
        LogLevel::Error => paint(LogColor::Red, message),
        LogLevel::Warn => paint(LogColor::Yellow, message),
        LogLevel::Info => paint(LogColor::Green, message),
        LogLevel::Debug => paint(LogColor::Blue, message),
        LogLevel::Trace => {
            if has_pair(message, '-', '>') {
                paint(LogColor::Purple, message)
            } else if has_pair(message, '<', '-') {
                paint(LogColor::Cyan, message)
            } else {
                String::from_str(message)
            }
        },
    }
}

/// Formats log events: the level label, then the message, colored when
/// coloring is on.
pub struct EventFormatter {
    color: bool,
}

impl EventFormatter {
    /// Whether messages are colored.
    pub closed spec fn spec_color(self) -> bool {
        self.color
    }

    pub fn new(color: bool) -> (r: Self)
        ensures
            r.spec_color() == color,
    {
        EventFormatter { color }
    }

    /// Everything of the log line after the timestamp: the level label,
    /// the message — colored by level when coloring is on — and the
    /// line break.
    pub fn format_event(&self, level: LogLevel, message: &str) -> (r: String)
        ensures
            r@ == spec_level_label(level) + (if self.spec_color() {
                spec_colored_message(level, message@)
            } else {
                message@
            }) + "\n"@,
    {
        let mut out = write_level(level);
        if self.color {
            let colored = write_colored_message(level, message);
            out.append(colored.as_str());
        } else {
            out.append(message);
        }
        out.append("\n");
        proof {
            assert(out@ =~= spec_level_label(level) + (if self.spec_color() {
                spec_colored_message(level, message@)
            } else {
                message@
            }) + "\n"@);
        }
        out
    }
}

} // verus!
