//! Terminal colours, as the `colored` crate writes them.

use vstd::prelude::*;
use colored::Colorize;

verus! {

/// The colour and weight in which a piece of text is shown.
#[derive(Clone, Copy, Debug, PartialEq, Eq, Structural)]
pub enum Tint {
    Plain,
    RedBold,
    Green,
    GreenBold,
    BlueBold,
}

impl Tint {
    /// The escape sequence that switches the tint on; nothing for plain text.
    pub open spec fn opening(self) -> Seq<char> {
        match self {
            Tint::Plain => Seq::empty(),
            Tint::RedBold => "\x1B[1;31m"@,
            Tint::Green => "\x1B[32m"@,
            Tint::GreenBold => "\x1B[1;32m"@,
            Tint::BlueBold => "\x1B[1;34m"@,
        }
    }
}

/// The escape sequence that switches every tint off.
pub open spec fn reset() -> Seq<char> {
    "\x1B[0m"@
}

/// Whether the reset sequence occurs somewhere in `text`.
pub open spec fn holds_reset(text: Seq<char>) -> bool {
    exists|i: int|
        0 <= i && i + reset().len() <= text.len() && #[trigger] text.subrange(
            i,
            i + reset().len(),
        ) == reset()
}

/// What painting `text` in `tint` may give. Whether colours are written at
/// all depends on where the program runs and on what it writes to, so either
/// the text comes back as it is, or it stands between the tint's opening
/// sequence and the reset sequence. Where the text holds a reset sequence of
/// its own, what stands between the two is left open. This holds as long as
/// nothing switches colours on or off while a text is being written; the
/// library never does.
pub open spec fn painted(text: Seq<char>, tint: Tint, out: Seq<char>) -> bool {
    ||| out == text
    ||| tint != Tint::Plain && exists|body: Seq<char>|
        out == #[trigger] (tint.opening() + body) + reset() && (!holds_reset(text) ==> body
            == text)
}

/// Calls `Colorize::red` and `Colorize::bold` on the text and writes the
/// `ColoredString` out. The contract claims that the text comes back either
/// untouched or between `ESC[1;31m` and `ESC[0m`.
#[verifier::external_body]
fn red_bold(text: &str) -> (out: String)
    ensures
        painted(text@, Tint::RedBold, out@),
{
    text.red().bold().to_string()
}

/// Calls `Colorize::green` on the text and writes the `ColoredString` out.
/// The contract claims that the text comes back either untouched or between
/// `ESC[32m` and `ESC[0m`.
#[verifier::external_body]
fn green(text: &str) -> (out: String)
    ensures
        painted(text@, Tint::Green, out@),
{
    text.green().to_string()
}

/// Calls `Colorize::green` and `Colorize::bold` on the text and writes the
/// `ColoredString` out. The contract claims that the text comes back either
/// untouched or between `ESC[1;32m` and `ESC[0m`.
#[verifier::external_body]
fn green_bold(text: &str) -> (out: String)
    ensures
        painted(text@, Tint::GreenBold, out@),
{
    text.green().bold().to_string()
}

/// Calls `Colorize::blue` and `Colorize::bold` on the text and writes the
/// `ColoredString` out. The contract claims that the text comes back either
/// untouched or between `ESC[1;34m` and `ESC[0m`.
#[verifier::external_body]
fn blue_bold(text: &str) -> (out: String)
    ensures
        painted(text@, Tint::BlueBold, out@),
{
    text.blue().bold().to_string()
}

/// Paints `text` in `tint` for the terminal.
pub fn paint(text: &str, tint: Tint) -> (out: String)
    ensures
        painted(text@, tint, out@),
        tint == Tint::Plain ==> out@ == text@,
{
    match tint {
        Tint::Plain => String::from_str(text),
        Tint::RedBold => red_bold(text),
        Tint::Green => green(text),
        Tint::GreenBold => green_bold(text),
        Tint::BlueBold => blue_bold(text),
    }
}

} // verus!
