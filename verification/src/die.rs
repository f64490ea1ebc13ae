//! The kinds of dice, and one die tumbling through the arena.

use crate::arena::{lemma_arena_has_room, Arena};
use crate::chance::{draw_in_range, draw_ratio};
use crate::directions::Direction;
use crate::util::{is_two_digits, spec_is_two_digits, terminal_centre};
use vstd::prelude::*;

verus! {

/// A kind of die. The two percentile kinds are the ten-sided dice of a
/// percentile roll: one counts tens, the other ones.
#[derive(Copy, Clone, Debug, PartialEq, Eq, Structural)]
pub enum D {
    Two,
    Four,
    Six,
    Ten,
    Twelve,
    Twenty,
    PercentTens,
    PercentOnes,
}

impl D {
    /// The number of faces: a raw draw runs from 1 to this.
    pub open spec fn spec_value(&self) -> u16 {
        match self {
            D::Two => 2,
            D::Four => 4,
            D::Six => 6,
            D::Ten => 10,
            D::Twelve => 12,
            D::Twenty => 20,
            D::PercentTens => 10,
            D::PercentOnes => 10,
        }
    }

    /// The number of faces.
    #[verifier::when_used_as_spec(spec_value)]
    pub fn value(&self) -> (faces: u16)
        ensures
            faces == self.spec_value(),
    {
        match self {
            D::Two => 2,
            D::Four => 4,
            D::Six => 6,
            D::Ten => 10,
            D::Twelve => 12,
            D::Twenty => 20,
            D::PercentTens => 10,
            D::PercentOnes => 10,
        }
    }

    /// The speed gained per step, always negative: small dice stop sooner.
    pub open spec fn spec_acceleration(&self) -> int {
        match self {
            D::Two => -10,
            D::Four => -7,
            D::Six => -4,
            D::Ten => -3,
            D::Twelve => -2,
            D::Twenty => -1,
            D::PercentTens | D::PercentOnes => -3,
        }
    }

    /// The speed gained per step, always negative.
    pub fn acceleration(&self) -> (gain: i16)
        ensures
            gain == self.spec_acceleration(),
            -10 <= gain <= -1,
    {
        match self {
            D::Two => -10,
            D::Four => -7,
            D::Six => -4,
            D::Ten => -3,
            D::Twelve => -2,
            D::Twenty => -1,
            D::PercentTens | D::PercentOnes => -3,
        }
    }

    /// The number after the "d" in the name of the kind; both percentile
    /// kinds belong to the d100.
    pub open spec fn spec_as_number(&self) -> u16 {
        match self {
            D::PercentTens | D::PercentOnes => 100,
            _ => self.spec_value(),
        }
    }

    /// The number after the "d" in the name of the kind.
    #[verifier::when_used_as_spec(spec_as_number)]
    pub fn as_number(&self) -> (number: u16)
        ensures
            number == self.spec_as_number(),
    {
        match self {
            D::Two => 2,
            D::Four => 4,
            D::Six => 6,
            D::Ten => 10,
            D::Twelve => 12,
            D::Twenty => 20,
            D::PercentTens => 100,
            D::PercentOnes => 100,
        }
    }

    /// The face shown for a raw draw: the tens die shows 0, 10, .., 90, the
    /// ones die 0 to 9, every other die the draw itself.
    pub open spec fn spec_display_value(&self, draw: int) -> int {
        match self {
            D::PercentTens => 10 * (draw - 1),
            D::PercentOnes => draw - 1,
            _ => draw,
        }
    }

    /// The face shown for a draw between 1 and the number of faces.
    pub fn display_value(&self, draw: u16) -> (face: u16)
        requires
            1 <= draw <= self.spec_value(),
        ensures
            face == self.spec_display_value(draw as int),
            self.shows(face),
    {
        match self {
            D::PercentTens => 10 * (draw - 1),
            D::PercentOnes => draw - 1,
            _ => draw,
        }
    }

    /// Whether a die of this kind can show the face.
    pub open spec fn shows(&self, face: u16) -> bool {
        match self {
            D::PercentTens => face <= 90 && face % 10 == 0,
            D::PercentOnes => face <= 9,
            _ => 1 <= face <= self.spec_value(),
        }
    }

    /// A fresh face: a draw between 1 and the number of faces, as it is
    /// displayed.
    pub fn flip(&self) -> (face: u16)
        ensures
            self.shows(face),
            exists|draw: int|
                1 <= draw <= self.spec_value() && face == self.spec_display_value(draw),
    {
        let faces: u16 = self.value();
        let drawn: i32 = draw_in_range(1, faces as i32);
        let face: u16 = self.display_value(drawn as u16);
        assert(1 <= drawn <= self.spec_value() && face == self.spec_display_value(drawn as int));
        face
    }
}

/// The face shown depends on the kind and the draw alone, and two draws
/// that differ show faces that differ.
pub proof fn lemma_display_value_is_one_to_one(kind: D, first: int, second: int)
    ensures
        first == second <==> kind.spec_display_value(first) == kind.spec_display_value(second),
{
}

/// The faces that a kind shows are exactly the displayed values of its draws.
pub proof fn lemma_faces_are_displayed_draws(kind: D, face: u16)
    ensures
        kind.shows(face) <==> exists|draw: int|
            1 <= draw <= kind.spec_value() && face == #[trigger] kind.spec_display_value(draw),
{
    if kind.shows(face) {
        let draw: int = match kind {
            D::PercentTens => face / 10 + 1,
            D::PercentOnes => face + 1,
            _ => face as int,
        };
        assert(1 <= draw <= kind.spec_value() && face == kind.spec_display_value(draw));
    }
}

/// Where a cell stands relative to the walls. A corner is named by the
/// diagonal that points into it, a wall by the side it lies on.
#[derive(Copy, Clone, Debug, PartialEq, Eq, Structural)]
pub enum Zone {
    Interior,
    Corner(Direction),
    Wall(Direction),
}

impl Zone {
    /// The zone of a cell in an arena whose left wall and ceiling are at 1.
    /// A cell counts as touching a wall when it is on it or beyond it; the
    /// corners come first, then the side walls, then the floor, then the
    /// ceiling.
    pub open spec fn spec_of(position: (u16, u16), right_wall: int, floor: int) -> Zone {
        let left = position.0 <= 1;
        let right = position.0 >= right_wall;
        let top = position.1 <= 1;
        let bottom = position.1 >= floor;
        if left && top {
            Zone::Corner(Direction::UpLeft)
        } else if right && top {
            Zone::Corner(Direction::UpRight)
        } else if left && bottom {
            Zone::Corner(Direction::DownLeft)
        } else if right && bottom {
            Zone::Corner(Direction::DownRight)
        } else if left {
            Zone::Wall(Direction::Left)
        } else if right {
            Zone::Wall(Direction::Right)
        } else if bottom {
            Zone::Wall(Direction::Down)
        } else if top {
            Zone::Wall(Direction::Up)
        } else {
            Zone::Interior
        }
    }

    /// The zone of a cell.
    pub fn of(position: (u16, u16), right_wall: u16, floor: u16) -> (zone: Zone)
        ensures
            zone == Self::spec_of(position, right_wall as int, floor as int),
    {
        let (column, row) = position;
        let left = column <= 1;
        let right = column >= right_wall;
        let top = row <= 1;
        let bottom = row >= floor;
        if left && top {
            Zone::Corner(Direction::UpLeft)
        } else if right && top {
            Zone::Corner(Direction::UpRight)
        } else if left && bottom {
            Zone::Corner(Direction::DownLeft)
        } else if right && bottom {
            Zone::Corner(Direction::DownRight)
        } else if left {
            Zone::Wall(Direction::Left)
        } else if right {
            Zone::Wall(Direction::Right)
        } else if bottom {
            Zone::Wall(Direction::Down)
        } else if top {
            Zone::Wall(Direction::Up)
        } else {
            Zone::Interior
        }
    }

    /// The direction in which a die leaves the zone: unchanged unless it
    /// runs into a surface; out of a corner along the diagonal that points
    /// away from it; off a wall as the bounce decides.
    pub open spec fn deflect(
        self,
        direction: Direction,
        redirect: bool,
        option: bool,
    ) -> Direction {
        match self {
            Zone::Interior => direction,
            Zone::Corner(corner) => if direction.heads_into(corner) {
                corner.reversed()
            } else {
                direction
            },
            Zone::Wall(surface) => if direction.heads_into(surface) {
                direction.spec_bounced(surface.dx() != 0, redirect, option)
            } else {
                direction
            },
        }
    }
}

/// The column that counts as the right wall for a die: the last column, or
/// the one before it while the die shows two digits.
pub open spec fn spec_right_wall(arena: Arena, face: u16, kind: D) -> int {
    if spec_is_two_digits(face, kind) {
        arena.spec_width() - 1
    } else {
        arena.spec_width() as int
    }
}

/// The cell reached from a position by one step in a direction.
pub open spec fn spec_moved(position: (u16, u16), direction: Direction) -> (int, int) {
    (position.0 + direction.dx(), position.1 + direction.dy())
}

/// The pause after a step at the given speed, in milliseconds: 1000 divided
/// by the speed and rounded down. A die at rest waits for ever, and a speed
/// below zero gives no pause.
pub open spec fn spec_flip_time(speed: i16) -> u64 {
    if speed > 0 {
        (1000int / (speed as int)) as u64
    } else if speed == 0 {
        u64::MAX
    } else {
        0
    }
}

/// The number of steps that a die of the given speed still takes: one for
/// every time its speed is found above zero.
pub open spec fn spec_steps_to_stop(speed: int, kind: D) -> nat
    decreases (if speed > 0 { speed } else { 0 }),
{
    if speed <= 0 {
        0
    } else {
        1 + spec_steps_to_stop(speed + kind.spec_acceleration(), kind)
    }
}

/// What a die reports after a step, and how long it rests before the next.
#[derive(Copy, Clone, Debug, PartialEq, Eq)]
pub struct Step {
    pub id: usize,
    pub face: u16,
    pub position: (u16, u16),
    pub pause_ms: u64,
}

/// One die: what it is, what it shows, where it is and how it moves.
#[derive(Copy, Clone, Debug, PartialEq, Eq)]
pub struct Die {
    pub id: usize,
    pub kind: D,
    pub face_up: u16,
    pub position: (u16, u16),
    pub speed: i16,
    pub direction: Direction,
}

impl Die {
    /// The slowest a die starts at, in steps per second.
    pub const MIN_INIT_SPEED: i16 = 60;

    /// The fastest a die starts at, in steps per second.
    pub const MAX_INIT_SPEED: i16 = 120;

    /// The speed at and below which a die lies still.
    pub const STOP_SPEED: i16 = 0;

    /// A die thrown into the arena: somewhere in its central quarter, with a
    /// random face, a random moving direction and a speed between 60 and 120.
    pub fn new(id: usize, kind: D, arena: &Arena) -> (die: Die)
        ensures
            die.id == id,
            die.kind == kind,
            kind.shows(die.face_up),
            arena.contains(die.position.0 as int, die.position.1 as int),
            Self::spawns_at(*arena, die.position),
            60 <= die.speed <= 120,
            die.direction != Direction::Stationary,
    {
        let face_up = kind.flip();
        let position = Die::spawn_point(arena);
        let speed: i32 = draw_in_range(Die::MIN_INIT_SPEED as i32, Die::MAX_INIT_SPEED as i32);
        let direction = Direction::random();
        Die { id, kind, face_up, position, speed: speed as i16, direction }
    }

    /// Whether a cell is one that a die can be thrown onto: no further from
    /// the centre than an eighth of the width and of the height.
    pub open spec fn spawns_at(arena: Arena, position: (u16, u16)) -> bool {
        let centre = arena.spec_centre();
        &&& centre.0 - arena.spec_width() / 8 <= position.0 <= centre.0 + arena.spec_width() / 8
        &&& centre.1 - arena.spec_height() / 8 <= position.1 <= centre.1 + arena.spec_height()
            / 8
    }

    /// A random cell of the central quarter of the arena.
    pub fn spawn_point(arena: &Arena) -> (position: (u16, u16))
        ensures
            Self::spawns_at(*arena, position),
            arena.contains(position.0 as int, position.1 as int),
    {
        let h_radius: u16 = arena.width() / 8;
        let v_radius: u16 = arena.height() / 8;
        let centre = terminal_centre(arena);
        let col: i32 = draw_in_range((centre.0 - h_radius) as i32, (centre.0 + h_radius) as i32);
        let row: i32 = draw_in_range((centre.1 - v_radius) as i32, (centre.1 + v_radius) as i32);
        (col as u16, row as u16)
    }

    /// Whether the die still moves.
    pub open spec fn spec_is_rolling(&self) -> bool {
        self.speed > 0
    }

    /// Whether the die still moves.
    #[verifier::when_used_as_spec(spec_is_rolling)]
    pub fn is_rolling(&self) -> (rolling: bool)
        ensures
            rolling == self.spec_is_rolling(),
    {
        self.speed > Die::STOP_SPEED
    }

    /// Moves the die one cell along its direction.
    pub fn movement(&mut self)
        requires
            0 <= spec_moved(old(self).position, old(self).direction).0 <= u16::MAX,
            0 <= spec_moved(old(self).position, old(self).direction).1 <= u16::MAX,
        ensures
            final(self).position.0 == spec_moved(old(self).position, old(self).direction).0,
            final(self).position.1 == spec_moved(old(self).position, old(self).direction).1,
            *final(self) == (Die { position: final(self).position, ..*old(self) }),
    {
        let (col, row) = self.position;
        self.position = match self.direction {
            Direction::Stationary => (col, row),
            Direction::Up => (col, row - 1),
            Direction::Down => (col, row + 1),
            Direction::Left => (col - 1, row),
            Direction::Right => (col + 1, row),
            Direction::UpLeft => (col - 1, row - 1),
            Direction::UpRight => (col + 1, row - 1),
            Direction::DownLeft => (col - 1, row + 1),
            Direction::DownRight => (col + 1, row + 1),
        };
    }

    /// Slows the die down by what its kind loses per step.
    pub fn friction(&mut self)
        requires
            old(self).speed + old(self).kind.spec_acceleration() >= i16::MIN,
        ensures
            final(self).speed == old(self).speed + old(self).kind.spec_acceleration(),
            final(self).speed < old(self).speed,
            *final(self) == (Die { speed: final(self).speed, ..*old(self) }),
    {
        self.speed += self.kind.acceleration()
    }

    /// Turns the die round where it is about to run into a wall or a corner
    /// of the arena. The position stays as it is.
    pub fn detect_wall(&mut self, arena: &Arena)
        ensures
            *final(self) == (Die { direction: final(self).direction, ..*old(self) }),
            exists|redirect: bool, option: bool| #[trigger]
                Self::spec_detect_wall(*old(self), *arena, redirect, option)
                == final(self).direction,
    {
        let mut r_wall: u16 = arena.width();
        let floor: u16 = arena.height();
        if is_two_digits(self.face_up, self.kind) {
            r_wall -= 1;
        }
        match Zone::of(self.position, r_wall, floor) {
            Zone::Corner(corner) => {
                if self.will_collide(corner) {
                    self.direction = corner.opposite();
                }
                assert(Self::spec_detect_wall(*old(self), *arena, false, false)
                    == self.direction);
            },
            Zone::Wall(surface) => {
                if self.will_collide(surface) {
                    let wall = match surface {
                        Direction::Left | Direction::Right => true,
                        _ => false,
                    };
                    let ghost before = *self;
                    self.bounce(wall);
                    let ghost chosen = choose|c: (bool, bool)| #[trigger]
                        before.direction.spec_bounced(wall, c.0, c.1) == self.direction;
                    assert(before.direction.spec_bounced(wall, chosen.0, chosen.1)
                        == self.direction);
                    assert(Self::spec_detect_wall(*old(self), *arena, chosen.0, chosen.1)
                        == self.direction);
                } else {
                    assert(Self::spec_detect_wall(*old(self), *arena, false, false)
                        == self.direction);
                }
            },
            Zone::Interior => {
                assert(Self::spec_detect_wall(*old(self), *arena, false, false)
                    == self.direction);
            },
        }
    }

    /// The direction that the wall check leaves a die with, given the two
    /// draws that a bounce off a wall makes.
    pub open spec fn spec_detect_wall(
        die: Die,
        arena: Arena,
        redirect: bool,
        option: bool,
    ) -> Direction {
        Zone::spec_of(
            die.position,
            spec_right_wall(arena, die.face_up, die.kind),
            arena.spec_height() as int,
        ).deflect(die.direction, redirect, option)
    }

    /// Whether the die is going the right way to run into a surface that
    /// lies on the given side of it.
    pub fn will_collide(&self, surface: Direction) -> (collides: bool)
        ensures
            collides == self.direction.heads_into(surface),
    {
        match surface {
            Direction::Stationary => false,
            Direction::Up => match self.direction {
                Direction::Up | Direction::UpLeft | Direction::UpRight => true,
                _ => false,
            },
            Direction::Down => match self.direction {
                Direction::Down | Direction::DownLeft | Direction::DownRight => true,
                _ => false,
            },
            Direction::Left => match self.direction {
                Direction::Left | Direction::UpLeft | Direction::DownLeft => true,
                _ => false,
            },
            Direction::Right => match self.direction {
                Direction::Right | Direction::UpRight | Direction::DownRight => true,
                _ => false,
            },
            Direction::UpLeft => match self.direction {
                Direction::Stationary
                | Direction::Down
                | Direction::Right
                | Direction::DownRight => false,
                _ => true,
            },
            Direction::UpRight => match self.direction {
                Direction::Stationary
                | Direction::Down
                | Direction::Left
                | Direction::DownLeft => false,
                _ => true,
            },
            Direction::DownLeft => match self.direction {
                Direction::Stationary
                | Direction::Up
                | Direction::Right
                | Direction::UpRight => false,
                _ => true,
            },
            Direction::DownRight => match self.direction {
                Direction::Stationary
                | Direction::Up
                | Direction::Left
                | Direction::UpLeft => false,
                _ => true,
            },
        }
    }

    /// Bounces the die off a single surface: a vertical one if `wall`, else a
    /// floor or ceiling. One time in five the trajectory is altered, and a
    /// coin picks between its two forms.
    pub fn bounce(&mut self, wall: bool)
        ensures
            *final(self) == (Die { direction: final(self).direction, ..*old(self) }),
            exists|c: (bool, bool)| #[trigger]
                old(self).direction.spec_bounced(wall, c.0, c.1) == final(self).direction,
            wall && old(self).direction.dx() != 0 ==> final(self).direction.dx()
                == -old(self).direction.dx(),
            !wall && old(self).direction.dy() != 0 ==> final(self).direction.dy()
                == -old(self).direction.dy(),
    {
        let redirect: bool = draw_ratio(1, Die::REDIRECT_CHANCE);
        let option: bool = draw_ratio(1, 2);
        let ghost before = self.direction;
        self.direction = self.direction.bounced(wall, redirect, option);
        assert(before.spec_bounced(wall, (redirect, option).0, (redirect, option).1)
            == self.direction);
    }

    /// One bounce in this many alters the trajectory.
    pub const REDIRECT_CHANCE: u32 = 5;

    /// The pause before the next step, in milliseconds.
    pub fn flip_time(&self) -> (pause: u64)
        ensures
            pause == spec_flip_time(self.speed),
    {
        if self.speed > 0 {
            1000 / (self.speed as u64)
        } else if self.speed == 0 {
            u64::MAX
        } else {
            0
        }
    }

    /// The same die with another face up.
    pub open spec fn showing(&self, face: u16) -> Die {
        Die { face_up: face, ..*self }
    }

    /// One step of a rolling die: a fresh face, the wall check, one move.
    /// The speed stays as it is: friction follows the pause.
    pub fn step(&mut self, arena: &Arena) -> (emitted: Step)
        ensures
            final(self).id == old(self).id,
            final(self).kind == old(self).kind,
            final(self).speed == old(self).speed,
            final(self).kind.shows(final(self).face_up),
            exists|redirect: bool, option: bool| #[trigger]
                Self::spec_detect_wall(
                    old(self).showing(final(self).face_up),
                    *arena,
                    redirect,
                    option,
                ) == final(self).direction,
            final(self).position.0 == spec_moved(old(self).position, final(self).direction).0,
            final(self).position.1 == spec_moved(old(self).position, final(self).direction).1,
            arena.contains(old(self).position.0 as int, old(self).position.1 as int)
                ==> arena.contains(final(self).position.0 as int, final(self).position.1 as int),
            emitted == (Step {
                id: old(self).id,
                face: final(self).face_up,
                position: final(self).position,
                pause_ms: spec_flip_time(old(self).speed),
            }),
    {
        self.face_up = self.kind.flip();
        let ghost flipped = *self;
        self.detect_wall(arena);
        proof {
            use_type_invariant(arena);
            let draws = choose|draws: (bool, bool)| #[trigger]
                Self::spec_detect_wall(flipped, *arena, draws.0, draws.1) == self.direction;
            lemma_wall_check_then_move_stays_inside(flipped, *arena, draws.0, draws.1);
        }
        self.movement();
        Step {
            id: self.id,
            face: self.face_up,
            position: self.position,
            pause_ms: self.flip_time(),
        }
    }

    /// What holds of the entry that a roll reports for its step `i`: it
    /// names the die, shows a face of its kind, rests for as long as the
    /// speed of that step asks, lies next to the cell before it, and inside
    /// the arena if the die started there.
    pub open spec fn spec_reported(start: Die, arena: Arena, steps: Seq<Step>, i: int) -> bool {
        &&& steps[i].id == start.id
        &&& start.kind.shows(steps[i].face)
        &&& steps[i].pause_ms == spec_flip_time(
            (start.speed + i * start.kind.spec_acceleration()) as i16,
        )
        &&& spec_adjacent(
            if i == 0 {
                start.position
            } else {
                steps[i - 1].position
            },
            steps[i].position,
        )
        &&& arena.contains(start.position.0 as int, start.position.1 as int) ==> arena.contains(
            steps[i].position.0 as int,
            steps[i].position.1 as int,
        )
    }

    /// Rolls the die until it lies still, and returns what it reported on the
    /// way, one entry per step: a step, then friction, for as long as the
    /// speed is above zero.
    pub fn roll(&mut self, arena: &Arena) -> (steps: Vec<Step>)
        ensures
            steps@.len() == spec_steps_to_stop(old(self).speed as int, old(self).kind),
            !final(self).spec_is_rolling(),
            final(self).speed == old(self).speed
                + steps@.len() * old(self).kind.spec_acceleration(),
            final(self).id == old(self).id,
            final(self).kind == old(self).kind,
            forall|i: int|
                0 <= i < steps@.len() ==> #[trigger] Self::spec_reported(
                    *old(self),
                    *arena,
                    steps@,
                    i,
                ),
            steps@.len() == 0 ==> *final(self) == *old(self),
            steps@.len() > 0 ==> final(self).position == steps@.last().position
                && final(self).face_up == steps@.last().face,
    {
        let mut steps: Vec<Step> = Vec::new();
        let ghost start = *self;
        let ghost gain = self.kind.spec_acceleration();
        let ghost lost: int = 0;
        while self.is_rolling()
            invariant
                gain == start.kind.spec_acceleration(),
                lost == steps@.len() * gain,
                self.id == start.id,
                self.kind == start.kind,
                self.speed == start.speed + lost,
                steps@.len() + spec_steps_to_stop(self.speed as int, start.kind)
                    == spec_steps_to_stop(start.speed as int, start.kind),
                forall|i: int|
                    0 <= i < steps@.len() ==> #[trigger] Self::spec_reported(
                        start,
                        *arena,
                        steps@,
                        i,
                    ),
                steps@.len() == 0 ==> *self == start,
                steps@.len() > 0 ==> self.position == steps@.last().position && self.face_up
                    == steps@.last().face,
            decreases (if self.speed > 0 { self.speed as int } else { 0 }),
        {
            let ghost before = *self;
            let ghost taken = steps@;
            let emitted = self.step(arena);
            steps.push(emitted);
            self.friction();
            proof {
                let n = taken.len() as int;
                assert((n + 1) * gain == n * gain + gain) by (nonlinear_arith);
                assert(steps@ == taken.push(emitted));
                assert forall|i: int| 0 <= i < steps@.len() implies #[trigger] Self::spec_reported(
                    start,
                    *arena,
                    steps@,
                    i,
                ) by {
                    if i < n {
                        assert(Self::spec_reported(start, *arena, taken, i));
                        assert(steps@[i] == taken[i]);
                        if i > 0 {
                            assert(steps@[i - 1] == taken[i - 1]);
                        }
                    } else {
                        assert(steps@[n] == emitted);
                        assert(before.speed == start.speed + n * gain);
                        if n > 0 {
                            assert(steps@[n - 1] == taken.last());
                            assert(Self::spec_reported(start, *arena, taken, n - 1));
                        }
                    }
                }
                lost = lost + gain;
            }
        }
        steps
    }

    /// Brings the die back into an arena that it has come to lie outside of:
    /// a column or row beyond the last becomes the last.
    pub fn bounds_check(&mut self, arena: &Arena)
        ensures
            final(self).position.0 == if old(self).position.0 > arena.spec_width() {
                arena.spec_width()
            } else {
                old(self).position.0
            },
            final(self).position.1 == if old(self).position.1 > arena.spec_height() {
                arena.spec_height()
            } else {
                old(self).position.1
            },
            *final(self) == (Die { position: final(self).position, ..*old(self) }),
    {
        let max_col = arena.width();
        let max_row = arena.height();
        let (col, row) = self.position;
        if col > max_col {
            self.position.0 = max_col;
        }
        if row > max_row {
            self.position.1 = max_row;
        }
    }
}

/// Whether two cells touch: they differ by at most one column and one row.
pub open spec fn spec_adjacent(from: (u16, u16), to: (u16, u16)) -> bool {
    -1 <= to.0 - from.0 <= 1 && -1 <= to.1 - from.1 <= 1
}

/// The wall check followed by one move keeps a die that is inside the arena
/// inside it, whatever it shows and whatever the draws of a bounce are. From
/// any cell at all, the move stays on the grid. The die may stand on the
/// last column while it shows two digits, one cell beyond the wall that it
/// then bounces off, and never further.
pub proof fn lemma_wall_check_then_move_stays_inside(
    die: Die,
    arena: Arena,
    redirect: bool,
    option: bool,
)
    requires
        arena.wf(),
    ensures
        ({
            let after = spec_moved(
                die.position,
                Die::spec_detect_wall(die, arena, redirect, option),
            );
            &&& 0 <= after.0 <= u16::MAX
            &&& 0 <= after.1 <= u16::MAX
            &&& spec_adjacent(die.position, (after.0 as u16, after.1 as u16))
            &&& arena.contains(die.position.0 as int, die.position.1 as int) ==> arena.contains(
                after.0,
                after.1,
            )
        }),
{
    lemma_arena_has_room(arena);
}

/// In a corner no draw plays a part: a die that runs into it leaves along
/// the diagonal that points away from the corner.
pub proof fn lemma_corner_bounce_is_diagonal_opposite(
    direction: Direction,
    corner: Direction,
    redirect: bool,
    option: bool,
)
    requires
        corner.is_diagonal(),
        direction.heads_into(corner),
    ensures
        Zone::Corner(corner).deflect(direction, redirect, option) == corner.reversed(),
        corner.reversed().dx() == -corner.dx(),
        corner.reversed().dy() == -corner.dy(),
        corner.reversed().is_diagonal(),
{
}

/// A die that stands still is never turned: wherever it lies, the wall
/// check leaves it at rest, and so it stays where it is.
pub proof fn lemma_die_at_rest_is_left_alone(
    die: Die,
    arena: Arena,
    redirect: bool,
    option: bool,
)
    requires
        die.direction == Direction::Stationary,
    ensures
        forall|surface: Direction| !Direction::Stationary.heads_into(surface),
        Die::spec_detect_wall(die, arena, redirect, option) == Direction::Stationary,
        spec_moved(die.position, Die::spec_detect_wall(die, arena, redirect, option)) == (
            die.position.0 as int,
            die.position.1 as int,
        ),
{
}

/// A rolling die comes to rest: each round of friction lowers the speed, and
/// after the counted number of steps, and no sooner, it is at or below zero.
pub proof fn lemma_roll_stops(speed: int, kind: D)
    ensures
        kind.spec_acceleration() < 0,
        speed + spec_steps_to_stop(speed, kind) * kind.spec_acceleration() <= 0,
        forall|n: int|
            0 <= n < spec_steps_to_stop(speed, kind) ==> speed + #[trigger] (n
                * kind.spec_acceleration()) > 0,
        speed > 0 ==> spec_steps_to_stop(speed, kind) <= speed,
    decreases (if speed > 0 { speed } else { 0 }),
{
    let gain = kind.spec_acceleration();
    if speed > 0 {
        lemma_roll_stops(speed + gain, kind);
        let rest = spec_steps_to_stop(speed + gain, kind) as int;
        assert((1 + rest) * gain == gain + rest * gain) by (nonlinear_arith);
        assert forall|n: int| 0 <= n < 1 + rest implies speed + #[trigger] (n * gain) > 0 by {
            if n > 0 {
                assert(n * gain == gain + (n - 1) * gain) by (nonlinear_arith);
                assert(speed + gain + (n - 1) * gain > 0);
            } else {
                assert(n * gain == 0) by (nonlinear_arith)
                    requires
                        n == 0,
                ;
            }
        }
    } else {
        assert(0 * gain == 0);
    }
}

} // verus!
