//! Small helpers shared by the dice and by the layout of the screen.

use crate::arena::Arena;
use crate::die::D;
use vstd::prelude::*;
use vstd::utf8::encode_utf8;

verus! {

/// Whether a face takes two cells on screen: ten and above, and every face of
/// the tens die of a percentile roll, whose zero is shown as "00".
pub open spec fn spec_is_two_digits(face: u16, kind: D) -> bool {
    face >= 10 || kind == D::PercentTens
}

/// Whether a face takes two cells on screen.
#[verifier::when_used_as_spec(spec_is_two_digits)]
pub fn is_two_digits(face: u16, kind: D) -> (wide: bool)
    ensures
        wide == spec_is_two_digits(face, kind),
{
    face >= 10 || kind == D::PercentTens
}

/// The centre of the arena, as (column, row).
pub fn terminal_centre(arena: &Arena) -> (centre: (u16, u16))
    ensures
        centre == arena.spec_centre(),
        arena.contains(centre.0 as int, centre.1 as int),
{
    let width = arena.width();
    let height = arena.height();
    (width / 2, height / 2)
}

/// The column at which a message of `length` bytes starts so that it sits in
/// the middle of the arena: the centre column less half the length, where
/// the length counts modulo 65536; column 1 where that would fall off the
/// left edge.
pub open spec fn spec_centre_column(length: nat, arena: Arena) -> int {
    let half = (length % 0x1_0000) / 2;
    if arena.spec_centre().0 >= half {
        arena.spec_centre().0 - half
    } else {
        1
    }
}

/// The column at which a text starts so that it sits in the middle of the
/// arena; the length of the text is that of its UTF-8 encoding.
pub open spec fn spec_centre_of(text: Seq<char>, arena: Arena) -> int {
    spec_centre_column((encode_utf8(text).len() as usize) as nat, arena)
}

/// The column that centres `msg` in the arena.
pub fn centre(msg: &str, arena: &Arena) -> (column: u16)
    ensures
        column == spec_centre_column(msg.len() as nat, *arena),
        column == spec_centre_of(msg@, *arena),
{
    let (col, _) = terminal_centre(arena);
    let length: usize = msg.len();
    let half: u16 = ((length % 0x1_0000) as u16) / 2;
    if col >= half {
        col - half
    } else {
        1
    }
}

} // verus!
