//! The rectangle that dice roll in: a snapshot of the size of the screen.

use vstd::prelude::*;

verus! {

/// The bounds of the arena, in screen cells. Columns run from 1 to `width`
/// and rows from 1 to `height`; both are at least 2, so that a die always has
/// a cell to bounce into.
#[derive(Clone, Copy, Debug, PartialEq, Eq, Structural)]
pub struct Arena {
    width: u16,
    height: u16,
}

impl Arena {
    /// The smallest width and height that an arena can have.
    pub const SMALLEST: u16 = 2;

    /// Whether the arena has at least two columns and two rows.
    #[verifier::type_invariant]
    pub closed spec fn wf(&self) -> bool {
        self.width >= 2 && self.height >= 2
    }

    /// The number of columns.
    pub closed spec fn spec_width(&self) -> u16 {
        self.width
    }

    /// The number of rows.
    pub closed spec fn spec_height(&self) -> u16 {
        self.height
    }

    /// Whether a cell lies inside the arena.
    pub open spec fn contains(&self, column: int, row: int) -> bool {
        1 <= column <= self.spec_width() && 1 <= row <= self.spec_height()
    }

    /// The centre of the arena: half its width and half its height.
    pub open spec fn spec_centre(&self) -> (u16, u16) {
        ((self.spec_width() / 2) as u16, (self.spec_height() / 2) as u16)
    }

    /// An arena of the given size, or nothing if it is narrower or lower than
    /// two cells.
    pub fn new(width: u16, height: u16) -> (arena: Option<Arena>)
        ensures
            arena is Some <==> width >= 2 && height >= 2,
            arena matches Some(a) ==> a.wf() && a.spec_width() == width && a.spec_height()
                == height,
    {
        if width >= Arena::SMALLEST && height >= Arena::SMALLEST {
            Some(Arena { width, height })
        } else {
            None
        }
    }

    /// The number of columns.
    #[verifier::when_used_as_spec(spec_width)]
    pub fn width(&self) -> (width: u16)
        ensures
            width == self.spec_width(),
            width >= 2,
            self.wf(),
    {
        proof {
            use_type_invariant(self);
        }
        self.width
    }

    /// The number of rows.
    #[verifier::when_used_as_spec(spec_height)]
    pub fn height(&self) -> (height: u16)
        ensures
            height == self.spec_height(),
            height >= 2,
            self.wf(),
    {
        proof {
            use_type_invariant(self);
        }
        self.height
    }

    /// Whether a cell lies inside the arena.
    pub fn holds(&self, position: (u16, u16)) -> (inside: bool)
        ensures
            inside == self.contains(position.0 as int, position.1 as int),
    {
        1 <= position.0 && position.0 <= self.width && 1 <= position.1 && position.1
            <= self.height
    }
}

/// A well-formed arena has room on both axes.
pub proof fn lemma_arena_has_room(arena: Arena)
    requires
        arena.wf(),
    ensures
        arena.spec_width() >= 2,
        arena.spec_height() >= 2,
        arena.contains(arena.spec_centre().0 as int, arena.spec_centre().1 as int),
{
}

} // verus!
