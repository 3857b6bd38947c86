//! Terminal styling of the report's text.
//!
//! Whether styling is emitted is decided once by the caller and handed to
//! every rendering function as [`RenderOptions`]. The escape sequences
//! themselves come from the `yansi` crate.

use vstd::prelude::*;
use yansi::Style;

verus! {

/// How a report is rendered.
#[derive(Clone, Copy, Debug, PartialEq, Eq)]
pub struct RenderOptions {
    /// Whether escape sequences for colour and weight are written.
    pub color_enabled: bool,
    /// Whether hidden columns are listed.
    pub include_hidden: bool,
}

/// The styles that the report uses.
#[derive(Clone, Copy, Debug, PartialEq, Eq)]
pub enum Accent {
    /// Column names.
    Cyan,
    /// The table that a foreign key refers to.
    BrightGreen,
    /// The name of the table or view that a section is about.
    BrightGreenBold,
    /// File names and table attributes.
    Bold,
    /// Trigger names.
    BrightMagenta,
}

/// The escape sequence that switches a style on.
pub open spec fn prefix_text(accent: Accent) -> Seq<char> {
    match accent {
        Accent::Cyan => "\x1B[36m"@,
        Accent::BrightGreen => "\x1B[92m"@,
        Accent::BrightGreenBold => "\x1B[1;92m"@,
        Accent::Bold => "\x1B[1m"@,
        Accent::BrightMagenta => "\x1B[95m"@,
    }
}

/// The escape sequence that switches every style off.
pub open spec fn suffix_text() -> Seq<char> {
    "\x1B[0m"@
}

/// `text` in the style `accent`, or as it is where styling is off.
pub open spec fn painted(text: Seq<char>, accent: Accent, color: bool) -> Seq<char> {
    if color {
        prefix_text(accent) + text + suffix_text()
    } else {
        text
    }
}

/// `yansi::Style::prefix` on the style that stands for `accent`: `ESC [`, the
/// code of the weight (1 for bold) where there is one, a semicolon between
/// the two, the code of the foreground colour (36 cyan, 92 bright green, 95
/// bright magenta), and `m`. The sequence is written whether or not styling
/// is switched on globally.
#[verifier::external_body]
fn accent_prefix(accent: Accent) -> (r: String)
    ensures
        r@ == prefix_text(accent),
{
    match accent {
        Accent::Cyan => Style::new().cyan(),
        Accent::BrightGreen => Style::new().bright_green(),
        Accent::BrightGreenBold => Style::new().bright_green().bold(),
        Accent::Bold => Style::new().bold(),
        Accent::BrightMagenta => Style::new().bright_magenta(),
    }.prefix().into_owned()
}

/// `yansi::Style::suffix` on the style that stands for `accent`: for every
/// style but the empty one, the reset sequence `ESC [ 0 m`.
#[verifier::external_body]
fn accent_suffix(accent: Accent) -> (r: String)
    ensures
        r@ == suffix_text(),
{
    match accent {
        Accent::Cyan => Style::new().cyan(),
        Accent::BrightGreen => Style::new().bright_green(),
        Accent::BrightGreenBold => Style::new().bright_green().bold(),
        Accent::Bold => Style::new().bold(),
        Accent::BrightMagenta => Style::new().bright_magenta(),
    }.suffix().into_owned()
}

/// Appends `text` to `out`, in the style `accent` where `color` is set.
pub fn push_painted(out: &mut String, text: &str, accent: Accent, color: bool)
    ensures
        final(out)@ == old(out)@ + painted(text@, accent, color),
{
    if color {
        let ghost before = out@;
        out.append(accent_prefix(accent).as_str());
        out.append(text);
        out.append(accent_suffix(accent).as_str());
        assert(out@ =~= before + painted(text@, accent, color));
    } else {
        out.append(text);
    }
}

/// `text` in the style `accent` where `color` is set, else unchanged.
pub fn paint(text: &str, accent: Accent, color: bool) -> (r: String)
    ensures
        r@ == painted(text@, accent, color),
{
    let mut out = String::new();
    push_painted(&mut out, text, accent, color);
    assert(out@ =~= painted(text@, accent, color));
    out
}

} // verus!
