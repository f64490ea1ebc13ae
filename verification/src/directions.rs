//! The nine directions a die can travel in.

use crate::chance::draw_in_range;
use vstd::prelude::*;

verus! {

/// A direction of travel on the grid. Columns grow to the right and rows grow
/// downwards, so `Up` is towards row 1.
#[derive(Clone, Copy, Debug, PartialEq, Eq, Structural)]
pub enum Direction {
    Stationary,
    Up,
    Down,
    Left,
    Right,
    UpLeft,
    UpRight,
    DownLeft,
    DownRight,
}

impl Direction {
    /// Change of column in one step: -1 to the left, +1 to the right.
    pub open spec fn dx(self) -> int {
        match self {
            Direction::Left | Direction::UpLeft | Direction::DownLeft => -1,
            Direction::Right | Direction::UpRight | Direction::DownRight => 1,
            _ => 0,
        }
    }

    /// Change of row in one step: -1 upwards, +1 downwards.
    pub open spec fn dy(self) -> int {
        match self {
            Direction::Up | Direction::UpLeft | Direction::UpRight => -1,
            Direction::Down | Direction::DownLeft | Direction::DownRight => 1,
            _ => 0,
        }
    }

    /// The direction with the given unit vector.
    pub open spec fn from_vector(dx: int, dy: int) -> Direction {
        if dx < 0 {
            if dy < 0 {
                Direction::UpLeft
            } else if dy > 0 {
                Direction::DownLeft
            } else {
                Direction::Left
            }
        } else if dx > 0 {
            if dy < 0 {
                Direction::UpRight
            } else if dy > 0 {
                Direction::DownRight
            } else {
                Direction::Right
            }
        } else {
            if dy < 0 {
                Direction::Up
            } else if dy > 0 {
                Direction::Down
            } else {
                Direction::Stationary
            }
        }
    }

    /// The direction that undoes this one.
    pub open spec fn reversed(self) -> Direction {
        Self::from_vector(-self.dx(), -self.dy())
    }

    /// Whether the direction changes both column and row.
    pub open spec fn is_diagonal(self) -> bool {
        self.dx() != 0 && self.dy() != 0
    }

    /// The direction that undoes this one.
    pub fn opposite(self) -> (direction: Direction)
        ensures
            direction == self.reversed(),
    {
        match self {
            Direction::Stationary => Direction::Stationary,
            Direction::Up => Direction::Down,
            Direction::Down => Direction::Up,
            Direction::Left => Direction::Right,
            Direction::Right => Direction::Left,
            Direction::UpLeft => Direction::DownRight,
            Direction::UpRight => Direction::DownLeft,
            Direction::DownLeft => Direction::UpRight,
            Direction::DownRight => Direction::UpLeft,
        }
    }

    /// Whether a die going this way runs into a surface that lies on the
    /// given side of it (the ceiling lies `Up`, the top left corner `UpLeft`).
    ///
    /// A surface is hit by a die that has a component pointing towards it: a
    /// wall by whatever moves towards it, a corner by whatever moves towards
    /// either of its two walls. A die that stands still has no such
    /// component and hits nothing, and nothing lies on the side
    /// `Stationary`.
    pub open spec fn heads_into(self, surface: Direction) -> bool {
        (surface.dx() != 0 && self.dx() == surface.dx()) || (surface.dy() != 0 && self.dy()
            == surface.dy())
    }

    /// The direction after a bounce off a single surface.
    ///
    /// `wall` tells a vertical surface from a floor or ceiling; `redirect`
    /// asks for the altered trajectory, and `option` picks one of its two
    /// forms. A die that moves straight is sent straight back, or on a
    /// redirect back and to one side (`option` false: the side of smaller
    /// coordinates). A die that moves diagonally is mirrored at the surface,
    /// or on a redirect sent straight away from it. A die that stands still
    /// stays so.
    pub open spec fn spec_bounced(self, wall: bool, redirect: bool, option: bool) -> Direction {
        let side: int = if option { 1 } else { -1 };
        if self == Direction::Stationary {
            Direction::Stationary
        } else if self.is_diagonal() {
            if wall {
                Self::from_vector(-self.dx(), if redirect { 0 } else { self.dy() })
            } else {
                Self::from_vector(if redirect { 0 } else { self.dx() }, -self.dy())
            }
        } else if !redirect {
            self.reversed()
        } else if self.dx() == 0 {
            Self::from_vector(side, -self.dy())
        } else {
            Self::from_vector(-self.dx(), side)
        }
    }

    /// The direction after a bounce off a single surface, entry by entry.
    pub fn bounced(self, wall: bool, redirect: bool, option: bool) -> (direction: Direction)
        ensures
            direction == self.spec_bounced(wall, redirect, option),
            // the component that ran into the surface is turned round
            wall && self.dx() != 0 ==> direction.dx() == -self.dx(),
            !wall && self.dy() != 0 ==> direction.dy() == -self.dy(),
    {
        match self {
            Direction::Up => match (redirect, option) {
                (false, _) => Direction::Down,
                (true, false) => Direction::DownLeft,
                (true, true) => Direction::DownRight,
            },
            Direction::Down => match (redirect, option) {
                (false, _) => Direction::Up,
                (true, false) => Direction::UpLeft,
                (true, true) => Direction::UpRight,
            },
            Direction::Left => match (redirect, option) {
                (false, _) => Direction::Right,
                (true, false) => Direction::UpRight,
                (true, true) => Direction::DownRight,
            },
            Direction::Right => match (redirect, option) {
                (false, _) => Direction::Left,
                (true, false) => Direction::UpLeft,
                (true, true) => Direction::DownLeft,
            },
            Direction::UpLeft => match (wall, redirect) {
                (false, false) => Direction::DownLeft,
                (true, false) => Direction::UpRight,
                (false, true) => Direction::Down,
                (true, true) => Direction::Right,
            },
            Direction::UpRight => match (wall, redirect) {
                (false, false) => Direction::DownRight,
                (true, false) => Direction::UpLeft,
                (false, true) => Direction::Down,
                (true, true) => Direction::Left,
            },
            Direction::DownLeft => match (wall, redirect) {
                (false, false) => Direction::UpLeft,
                (true, false) => Direction::DownRight,
                (false, true) => Direction::Up,
                (true, true) => Direction::Right,
            },
            Direction::DownRight => match (wall, redirect) {
                (false, false) => Direction::UpRight,
                (true, false) => Direction::DownLeft,
                (false, true) => Direction::Up,
                (true, true) => Direction::Left,
            },
            Direction::Stationary => Direction::Stationary,
        }
    }

    /// The direction that a draw stands for: 1 to 8 are the eight moving
    /// directions, anything else is `Stationary`.
    pub open spec fn spec_from_draw(draw: int) -> Direction {
        if draw == 1 {
            Direction::Up
        } else if draw == 2 {
            Direction::Down
        } else if draw == 3 {
            Direction::Left
        } else if draw == 4 {
            Direction::Right
        } else if draw == 5 {
            Direction::UpLeft
        } else if draw == 6 {
            Direction::UpRight
        } else if draw == 7 {
            Direction::DownLeft
        } else if draw == 8 {
            Direction::DownRight
        } else {
            Direction::Stationary
        }
    }

    /// The direction that a draw stands for.
    pub fn from_draw(draw: i32) -> (direction: Direction)
        ensures
            direction == Self::spec_from_draw(draw as int),
            1 <= draw <= 8 ==> direction != Direction::Stationary,
    {
        match draw {
            1 => Direction::Up,
            2 => Direction::Down,
            3 => Direction::Left,
            4 => Direction::Right,
            5 => Direction::UpLeft,
            6 => Direction::UpRight,
            7 => Direction::DownLeft,
            8 => Direction::DownRight,
            _ => Direction::Stationary,
        }
    }

    /// One of the eight moving directions, each as likely as the others.
    pub fn random() -> (direction: Direction)
        ensures
            direction != Direction::Stationary,
            exists|draw: int| 1 <= draw <= 8 && direction == Self::spec_from_draw(draw),
    {
        let draw: i32 = draw_in_range(1, 8);
        Direction::from_draw(draw)
    }
}

/// Every direction is the one with its own unit vector, and reversing twice
/// gives the direction back.
pub proof fn lemma_direction_vectors(direction: Direction)
    ensures
        Direction::from_vector(direction.dx(), direction.dy()) == direction,
        direction.reversed().dx() == -direction.dx(),
        direction.reversed().dy() == -direction.dy(),
        direction.reversed().reversed() == direction,
{
}

} // verus!
