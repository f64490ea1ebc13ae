//! The colours in which a face can be written, as the escape sequences of a
//! terminal.

use termion::color;
use vstd::prelude::*;

verus! {

/// The sequence that turns the text green: ESC, then "[38;5;2m".
pub open spec fn spec_fg_green() -> Seq<char> {
    seq!['\u{1b}', '[', '3', '8', ';', '5', ';', '2', 'm']
}

/// The sequence that turns the text red: ESC, then "[38;5;1m".
pub open spec fn spec_fg_red() -> Seq<char> {
    seq!['\u{1b}', '[', '3', '8', ';', '5', ';', '1', 'm']
}

/// The sequence that gives the text its own colour back: ESC, then "[39m".
pub open spec fn spec_fg_reset() -> Seq<char> {
    seq!['\u{1b}', '[', '3', '9', 'm']
}

/// What `termion::color::Fg(termion::color::Green)` displays as.
///
/// Not verified: the contract gives the sequence that termion writes for
/// the foreground of its colour 2.
#[verifier::external_body]
pub(crate) fn fg_green() -> (code: String)
    ensures
        code@ == spec_fg_green(),
{
    format!("{}", color::Fg(color::Green))
}

/// What `termion::color::Fg(termion::color::Red)` displays as.
///
/// Not verified: the contract gives the sequence that termion writes for
/// the foreground of its colour 1.
#[verifier::external_body]
pub(crate) fn fg_red() -> (code: String)
    ensures
        code@ == spec_fg_red(),
{
    format!("{}", color::Fg(color::Red))
}

/// What `termion::color::Fg(termion::color::Reset)` displays as.
///
/// Not verified: the contract gives the sequence that termion writes to
/// reset the foreground.
#[verifier::external_body]
pub(crate) fn fg_reset() -> (code: String)
    ensures
        code@ == spec_fg_reset(),
{
    format!("{}", color::Fg(color::Reset))
}

} // verus!
