//! The level label of a log line, optionally colored.
//!
//! The label is the level's name padded with spaces to five bytes.  When
//! coloring is enabled the label is handed to the `colored` crate, which
//! either returns it unchanged (when coloring is globally disabled, e.g. the
//! stream is not a terminal) or wraps it in one ANSI foreground code and a
//! reset.

use vstd::prelude::*;

use colored::Colorize;

use crate::level::Level;

verus! {

/// The level's name padded with spaces to exactly five bytes:
/// `ERROR`, `WARN `, `INFO `, `DEBUG`, or `TRACE`.
pub open spec fn level_label_spec(l: Level) -> Seq<u8> {
    match l {
        Level::Error => seq![69u8, 82u8, 82u8, 79u8, 82u8],
        Level::Warn => seq![87u8, 65u8, 82u8, 78u8, 32u8],
        Level::Info => seq![73u8, 78u8, 70u8, 79u8, 32u8],
        Level::Debug => seq![68u8, 69u8, 66u8, 85u8, 71u8],
        Level::Trace => seq![84u8, 82u8, 65u8, 67u8, 69u8],
    }
}

/// Builds the five-byte padded level label.
pub fn level_label(l: Level) -> (r: Vec<u8>)
    ensures
        r@ == level_label_spec(l),
{
    let mut r: Vec<u8> = Vec::new();
    match l {
        Level::Error => {
            r.push(69u8);
            r.push(82u8);
            r.push(82u8);
            r.push(79u8);
            r.push(82u8);
        },
        Level::Warn => {
            r.push(87u8);
            r.push(65u8);
            r.push(82u8);
            r.push(78u8);
            r.push(32u8);
        },
        Level::Info => {
            r.push(73u8);
            r.push(78u8);
            r.push(70u8);
            r.push(79u8);
            r.push(32u8);
        },
        Level::Debug => {
            r.push(68u8);
            r.push(69u8);
            r.push(66u8);
            r.push(85u8);
            r.push(71u8);
        },
        Level::Trace => {
            r.push(84u8);
            r.push(82u8);
            r.push(65u8);
            r.push(67u8);
            r.push(69u8);
        },
    }
    assert(r@ =~= level_label_spec(l));
    r
}

/// Every byte is printable ASCII (so it survives a UTF-8 round trip and holds
/// no escape byte).
pub open spec fn printable_ascii(s: Seq<u8>) -> bool {
    forall|i: int| 0 <= i < s.len() ==> 32 <= #[trigger] s[i] < 127
}

/// The ANSI escape that starts a foreground color, for a two-byte color code.
pub open spec fn ansi_prefix(c1: u8, c2: u8) -> Seq<u8> {
    seq![27u8, 91u8, c1, c2, 109u8]
}

/// The ANSI escape that resets all styling.
pub open spec fn ansi_reset() -> Seq<u8> {
    seq![27u8, 91u8, 48u8, 109u8]
}

/// What a coloring call may return: the text unchanged (coloring globally
/// disabled) or the text wrapped in the given foreground code and a reset.
pub open spec fn plain_or_wrapped(r: Seq<u8>, text: Seq<u8>, c1: u8, c2: u8) -> bool {
    r == text || r == ansi_prefix(c1, c2) + text + ansi_reset()
}

/// Relies on `colored::Colorize::red` and `ColoredString`'s display logic:
/// when global coloring is disabled the text is returned unchanged; when
/// enabled, a printable-ASCII text (which can hold no reset sequence) is
/// wrapped in the red foreground code `ESC[31m` and the reset `ESC[0m`.
#[verifier::external_body]
fn paint_red(text: &Vec<u8>) -> (r: Vec<u8>)
    requires
        printable_ascii(text@),
    ensures
        plain_or_wrapped(r@, text@, 51u8, 49u8),
{
    let text_str = String::from_utf8_lossy(text.as_slice());
    text_str.as_ref().red().to_string().into_bytes()
}

/// Relies on `colored::Colorize::yellow`, as `paint_red` does for red: the
/// text unchanged, or wrapped in the yellow foreground code `ESC[33m` and the
/// reset `ESC[0m`.
#[verifier::external_body]
fn paint_yellow(text: &Vec<u8>) -> (r: Vec<u8>)
    requires
        printable_ascii(text@),
    ensures
        plain_or_wrapped(r@, text@, 51u8, 51u8),
{
    let text_str = String::from_utf8_lossy(text.as_slice());
    text_str.as_ref().yellow().to_string().into_bytes()
}

/// Relies on `colored::Colorize::cyan`, as `paint_red` does for red: the
/// text unchanged, or wrapped in the cyan foreground code `ESC[36m` and the
/// reset `ESC[0m`.
#[verifier::external_body]
fn paint_cyan(text: &Vec<u8>) -> (r: Vec<u8>)
    requires
        printable_ascii(text@),
    ensures
        plain_or_wrapped(r@, text@, 51u8, 54u8),
{
    let text_str = String::from_utf8_lossy(text.as_slice());
    text_str.as_ref().cyan().to_string().into_bytes()
}

/// Relies on `colored::Colorize::purple` (the magenta foreground), as
/// `paint_red` does for red: the text unchanged, or wrapped in the magenta
/// foreground code `ESC[35m` and the reset `ESC[0m`.
#[verifier::external_body]
fn paint_purple(text: &Vec<u8>) -> (r: Vec<u8>)
    requires
        printable_ascii(text@),
    ensures
        plain_or_wrapped(r@, text@, 51u8, 53u8),
{
    let text_str = String::from_utf8_lossy(text.as_slice());
    text_str.as_ref().purple().to_string().into_bytes()
}

/// The two-byte ANSI foreground code used for each level: red for errors,
/// yellow for warnings, cyan for info, magenta for debug.  Trace lines carry
/// no color.
pub open spec fn level_color_code(l: Level) -> (u8, u8) {
    match l {
        Level::Error => (51u8, 49u8),
        Level::Warn => (51u8, 51u8),
        Level::Info => (51u8, 54u8),
        Level::Debug => (51u8, 53u8),
        Level::Trace => (48u8, 48u8),
    }
}

/// What `level_string` may return for a level when coloring is requested:
/// trace labels are always plain; any other label is plain or wrapped in the
/// level's foreground code.
pub open spec fn colored_label_ok(r: Seq<u8>, l: Level) -> bool {
    if l is Trace {
        r == level_label_spec(l)
    } else {
        plain_or_wrapped(r, level_label_spec(l), level_color_code(l).0, level_color_code(l).1)
    }
}

/// The level string a line may carry for a level under a color switch: the
/// plain padded label when coloring is off, else whatever the coloring call
/// may produce.
pub open spec fn label_ok(ls: Seq<u8>, l: Level, colors: bool) -> bool {
    if colors {
        colored_label_ok(ls, l)
    } else {
        ls == level_label_spec(l)
    }
}

/// The level label of a line: padded to five bytes, and, when `colors` is
/// requested, colored by the `colored` crate under its global coloring
/// switch.
pub fn level_string(l: Level, colors: bool) -> (r: Vec<u8>)
    ensures
        label_ok(r@, l, colors),
        !colors ==> r@ == level_label_spec(l),
        colors ==> colored_label_ok(r@, l),
{
    let label = level_label(l);
    assert(printable_ascii(label@));
    if colors {
        match l {
            Level::Error => paint_red(&label),
            Level::Warn => paint_yellow(&label),
            Level::Info => paint_cyan(&label),
            Level::Debug => paint_purple(&label),
            Level::Trace => label,
        }
    } else {
        label
    }
}

} // verus!
