//! The pieces of terminal decoration that carry meaning: the icons, and the
//! bracketed, styled prefix put before every printed notice. The printing
//! itself lives with the binary; what is computed here is the exact prefix
//! text, ANSI escapes included.

use vstd::prelude::*;

verus! {

use vstd::string::StringExecFns;
use owo_colors::OwoColorize;

pub const INFO: &'static str = "\u{2139}\u{fe0e}";
pub const ERROR: &'static str = "\u{2718}";
pub const OK: &'static str = "\u{2714}\u{fe0e}";
pub const WARNING: &'static str = "\u{203c}\u{fe0e}";

/// Text wrapped in the ANSI dim escape and the reset escape.
pub open spec fn dim_wrapped(s: Seq<char>) -> Seq<char> {
    "\u{1b}[2m"@ + s + "\u{1b}[0m"@
}

/// Text wrapped in the ANSI bold and red-foreground escapes and their
/// resets.
pub open spec fn red_bold_wrapped(s: Seq<char>) -> Seq<char> {
    "\u{1b}[1m\u{1b}[31m"@ + s + "\u{1b}[39m\u{1b}[0m"@
}

/// Relies on owo_colors::OwoColorize::dimmed, whose display impl writes the
/// ANSI dim escape, the text, and the reset escape, unconditionally.
#[verifier::external_body]
fn style_dimmed(s: &str) -> (r: String)
    ensures
        r@ == dim_wrapped(s@),
{
    format!("{}", s.dimmed())
}

/// Relies on owo_colors::OwoColorize::red and OwoColorize::bold, whose
/// display impls nest as bold escape, red foreground escape, the text, the
/// foreground reset, and the style reset, unconditionally.
#[verifier::external_body]
fn style_red_bold(s: &str) -> (r: String)
    ensures
        r@ == red_bold_wrapped(s@),
{
    format!("{}", s.red().bold())
}

/// The prefix put before a notice: the icon between dimmed brackets.
pub open spec fn message_prefix_view(icon: Seq<char>) -> Seq<char> {
    dim_wrapped("["@) + icon + dim_wrapped("]"@)
}

pub fn message_prefix(icon: &str) -> (r: String)
    ensures
        r@ == message_prefix_view(icon@),
{
    let closing = style_dimmed("]");
    style_dimmed("[").concat(icon).concat(closing.as_str())
}

/// The prefix put before an error line: the error icon, red and bold,
/// between dimmed brackets.
pub fn error_prefix() -> (r: String)
    ensures
        r@ == message_prefix_view(red_bold_wrapped(ERROR@)),
{
    let icon = style_red_bold(ERROR);
    message_prefix(icon.as_str())
}

} // verus!
