use dice::arena::Arena;
use dice::die::{Die, Step, Zone, D};
use dice::directions::Direction;

const ALL_DIRECTIONS: [Direction; 9] = [
    Direction::Stationary,
    Direction::Up,
    Direction::Down,
    Direction::Left,
    Direction::Right,
    Direction::UpLeft,
    Direction::UpRight,
    Direction::DownLeft,
    Direction::DownRight,
];

const ALL_KINDS: [D; 8] = [
    D::Two,
    D::Four,
    D::Six,
    D::Ten,
    D::Twelve,
    D::Twenty,
    D::PercentTens,
    D::PercentOnes,
];

fn arena() -> Arena {
    Arena::new(80, 24).unwrap()
}

fn die_at(position: (u16, u16), direction: Direction) -> Die {
    Die { id: 3, kind: D::Six, face_up: 4, position, speed: 60, direction }
}

#[test]
fn kinds_have_their_faces_friction_and_names() {
    let faces: Vec<u16> = ALL_KINDS.iter().map(|kind| kind.value()).collect();
    assert_eq!(faces, vec![2, 4, 6, 10, 12, 20, 10, 10]);
    let friction: Vec<i16> = ALL_KINDS.iter().map(|kind| kind.acceleration()).collect();
    assert_eq!(friction, vec![-10, -7, -4, -3, -2, -1, -3, -3]);
    let names: Vec<u16> = ALL_KINDS.iter().map(|kind| kind.as_number()).collect();
    assert_eq!(names, vec![2, 4, 6, 10, 12, 20, 100, 100]);
}

#[test]
fn display_value_maps_percentile_draws() {
    for draw in 1..=10u16 {
        assert_eq!(D::PercentTens.display_value(draw), 10 * (draw - 1));
        assert_eq!(D::PercentOnes.display_value(draw), draw - 1);
        assert_eq!(D::Ten.display_value(draw), draw);
    }
    assert_eq!(D::PercentTens.display_value(1), 0);
    assert_eq!(D::PercentTens.display_value(10), 90);
    assert_eq!(D::PercentOnes.display_value(10), 9);
    assert_eq!(D::Twenty.display_value(20), 20);
}

#[test]
fn display_value_gives_the_same_face_for_the_same_draw() {
    for kind in ALL_KINDS {
        for draw in 1..=kind.value() {
            assert_eq!(kind.display_value(draw), kind.display_value(draw));
        }
    }
}

#[test]
fn flip_stays_among_the_faces_and_reaches_them_all() {
    for kind in ALL_KINDS {
        let mut seen = std::collections::BTreeSet::new();
        for _ in 0..2000 {
            let face = kind.flip();
            match kind {
                D::PercentTens => assert!(face <= 90 && face % 10 == 0),
                D::PercentOnes => assert!(face <= 9),
                _ => assert!(1 <= face && face <= kind.value()),
            }
            seen.insert(face);
        }
        assert_eq!(seen.len(), kind.value() as usize);
    }
}

#[test]
fn direction_from_draw_covers_the_eight_moving_directions() {
    assert_eq!(Direction::from_draw(1), Direction::Up);
    assert_eq!(Direction::from_draw(2), Direction::Down);
    assert_eq!(Direction::from_draw(3), Direction::Left);
    assert_eq!(Direction::from_draw(4), Direction::Right);
    assert_eq!(Direction::from_draw(5), Direction::UpLeft);
    assert_eq!(Direction::from_draw(6), Direction::UpRight);
    assert_eq!(Direction::from_draw(7), Direction::DownLeft);
    assert_eq!(Direction::from_draw(8), Direction::DownRight);
    assert_eq!(Direction::from_draw(0), Direction::Stationary);
    assert_eq!(Direction::from_draw(9), Direction::Stationary);
}

#[test]
fn random_direction_always_moves_and_takes_every_direction() {
    let mut seen = Vec::new();
    for _ in 0..2000 {
        let direction = Direction::random();
        assert_ne!(direction, Direction::Stationary);
        if !seen.contains(&direction) {
            seen.push(direction);
        }
    }
    assert_eq!(seen.len(), 8);
}

#[test]
fn opposite_turns_every_direction_round() {
    assert_eq!(Direction::Up.opposite(), Direction::Down);
    assert_eq!(Direction::Down.opposite(), Direction::Up);
    assert_eq!(Direction::Left.opposite(), Direction::Right);
    assert_eq!(Direction::Right.opposite(), Direction::Left);
    assert_eq!(Direction::UpLeft.opposite(), Direction::DownRight);
    assert_eq!(Direction::UpRight.opposite(), Direction::DownLeft);
    assert_eq!(Direction::DownLeft.opposite(), Direction::UpRight);
    assert_eq!(Direction::DownRight.opposite(), Direction::UpLeft);
    assert_eq!(Direction::Stationary.opposite(), Direction::Stationary);
}

#[test]
fn bounce_table_up_left() {
    let d = Direction::UpLeft;
    assert_eq!(d.bounced(true, false, false), Direction::UpRight);
    assert_eq!(d.bounced(true, true, false), Direction::Right);
    assert_eq!(d.bounced(false, false, false), Direction::DownLeft);
    assert_eq!(d.bounced(false, true, false), Direction::Down);
}

#[test]
fn bounce_table_up_right() {
    let d = Direction::UpRight;
    assert_eq!(d.bounced(true, false, true), Direction::UpLeft);
    assert_eq!(d.bounced(true, true, true), Direction::Left);
    assert_eq!(d.bounced(false, false, true), Direction::DownRight);
    assert_eq!(d.bounced(false, true, true), Direction::Down);
}

#[test]
fn bounce_table_down_left() {
    let d = Direction::DownLeft;
    assert_eq!(d.bounced(true, false, false), Direction::DownRight);
    assert_eq!(d.bounced(true, true, false), Direction::Right);
    assert_eq!(d.bounced(false, false, false), Direction::UpLeft);
    assert_eq!(d.bounced(false, true, false), Direction::Up);
}

#[test]
fn bounce_table_down_right() {
    let d = Direction::DownRight;
    assert_eq!(d.bounced(true, false, true), Direction::DownLeft);
    assert_eq!(d.bounced(true, true, true), Direction::Left);
    assert_eq!(d.bounced(false, false, true), Direction::UpRight);
    assert_eq!(d.bounced(false, true, true), Direction::Up);
}

#[test]
fn bounce_table_straight_directions() {
    for wall in [false, true] {
        for option in [false, true] {
            assert_eq!(Direction::Up.bounced(wall, false, option), Direction::Down);
            assert_eq!(Direction::Down.bounced(wall, false, option), Direction::Up);
            assert_eq!(Direction::Left.bounced(wall, false, option), Direction::Right);
            assert_eq!(Direction::Right.bounced(wall, false, option), Direction::Left);
            assert_eq!(
                Direction::Stationary.bounced(wall, true, option),
                Direction::Stationary
            );
        }
        assert_eq!(Direction::Up.bounced(wall, true, false), Direction::DownLeft);
        assert_eq!(Direction::Up.bounced(wall, true, true), Direction::DownRight);
        assert_eq!(Direction::Down.bounced(wall, true, false), Direction::UpLeft);
        assert_eq!(Direction::Down.bounced(wall, true, true), Direction::UpRight);
        assert_eq!(Direction::Left.bounced(wall, true, false), Direction::UpRight);
        assert_eq!(Direction::Left.bounced(wall, true, true), Direction::DownRight);
        assert_eq!(Direction::Right.bounced(wall, true, false), Direction::UpLeft);
        assert_eq!(Direction::Right.bounced(wall, true, true), Direction::DownLeft);
    }
}

#[test]
fn will_collide_with_walls_and_corners() {
    let towards = |direction: Direction, surface: Direction| {
        die_at((5, 5), direction).will_collide(surface)
    };
    for direction in ALL_DIRECTIONS {
        assert!(!towards(direction, Direction::Stationary));
    }
    assert!(towards(Direction::Up, Direction::Up));
    assert!(towards(Direction::UpLeft, Direction::Up));
    assert!(towards(Direction::UpRight, Direction::Up));
    assert!(!towards(Direction::Left, Direction::Up));
    assert!(!towards(Direction::Down, Direction::Up));
    assert!(!towards(Direction::Stationary, Direction::Up));
    assert!(towards(Direction::DownLeft, Direction::Left));
    assert!(!towards(Direction::DownRight, Direction::Left));
    assert!(towards(Direction::DownRight, Direction::Right));
    assert!(towards(Direction::DownRight, Direction::Down));
    // a corner is hit by the five directions that point towards one of its walls
    for direction in ALL_DIRECTIONS {
        let into = [
            Direction::Up,
            Direction::Left,
            Direction::UpLeft,
            Direction::UpRight,
            Direction::DownLeft,
        ];
        assert_eq!(towards(direction, Direction::UpLeft), into.contains(&direction));
        let into = [
            Direction::Up,
            Direction::Right,
            Direction::UpRight,
            Direction::UpLeft,
            Direction::DownRight,
        ];
        assert_eq!(towards(direction, Direction::UpRight), into.contains(&direction));
        let into = [
            Direction::Down,
            Direction::Left,
            Direction::DownLeft,
            Direction::UpLeft,
            Direction::DownRight,
        ];
        assert_eq!(towards(direction, Direction::DownLeft), into.contains(&direction));
        let into = [
            Direction::Down,
            Direction::Right,
            Direction::DownRight,
            Direction::UpRight,
            Direction::DownLeft,
        ];
        assert_eq!(towards(direction, Direction::DownRight), into.contains(&direction));
    }
    // a die at rest runs into nothing
    for surface in ALL_DIRECTIONS {
        assert!(!towards(Direction::Stationary, surface));
    }
}

#[test]
fn zones_of_the_arena() {
    assert_eq!(Zone::of((1, 1), 80, 24), Zone::Corner(Direction::UpLeft));
    assert_eq!(Zone::of((80, 1), 80, 24), Zone::Corner(Direction::UpRight));
    assert_eq!(Zone::of((1, 24), 80, 24), Zone::Corner(Direction::DownLeft));
    assert_eq!(Zone::of((80, 24), 80, 24), Zone::Corner(Direction::DownRight));
    assert_eq!(Zone::of((1, 10), 80, 24), Zone::Wall(Direction::Left));
    assert_eq!(Zone::of((80, 10), 80, 24), Zone::Wall(Direction::Right));
    assert_eq!(Zone::of((79, 10), 79, 24), Zone::Wall(Direction::Right));
    assert_eq!(Zone::of((40, 24), 80, 24), Zone::Wall(Direction::Down));
    assert_eq!(Zone::of((40, 1), 80, 24), Zone::Wall(Direction::Up));
    assert_eq!(Zone::of((40, 10), 80, 24), Zone::Interior);
    assert_eq!(Zone::of((0, 0), 80, 24), Zone::Corner(Direction::UpLeft));
}

#[test]
fn corner_bounce_is_the_diagonal_opposite() {
    let arena = arena();
    for _ in 0..200 {
        let mut die = die_at((1, 1), Direction::UpLeft);
        die.detect_wall(&arena);
        assert_eq!(die.direction, Direction::DownRight);
        assert_eq!(die.position, (1, 1));
        let mut die = die_at((80, 1), Direction::Up);
        die.detect_wall(&arena);
        assert_eq!(die.direction, Direction::DownLeft);
        let mut die = die_at((1, 24), Direction::Left);
        die.detect_wall(&arena);
        assert_eq!(die.direction, Direction::UpRight);
        let mut die = die_at((80, 24), Direction::DownLeft);
        die.detect_wall(&arena);
        assert_eq!(die.direction, Direction::UpLeft);
    }
    let mut die = die_at((1, 1), Direction::Down);
    die.detect_wall(&arena);
    assert_eq!(die.direction, Direction::Down);
}

#[test]
fn wall_bounce_reflects_or_redirects() {
    let arena = arena();
    let mut straight = 0;
    let mut redirected = 0;
    for _ in 0..2000 {
        let mut die = die_at((1, 10), Direction::Left);
        die.detect_wall(&arena);
        match die.direction {
            Direction::Right => straight += 1,
            Direction::UpRight | Direction::DownRight => redirected += 1,
            other => panic!("left wall sent the die {:?}", other),
        }
    }
    assert!(straight > redirected);
    assert!(redirected > 0);
    let mut die = die_at((1, 10), Direction::Up);
    die.detect_wall(&arena);
    assert_eq!(die.direction, Direction::Up);
    let mut die = die_at((40, 10), Direction::DownRight);
    die.detect_wall(&arena);
    assert_eq!(die.direction, Direction::DownRight);
}

#[test]
fn two_digit_face_bounces_one_column_early() {
    let arena = arena();
    let mut die = Die {
        id: 0,
        kind: D::Twenty,
        face_up: 17,
        position: (79, 10),
        speed: 60,
        direction: Direction::Right,
    };
    die.detect_wall(&arena);
    assert_ne!(die.direction, Direction::Right);
    let mut die = Die { face_up: 7, direction: Direction::Right, ..die };
    die.detect_wall(&arena);
    assert_eq!(die.direction, Direction::Right);
    let mut die = Die { kind: D::PercentTens, face_up: 0, direction: Direction::Right, ..die };
    die.detect_wall(&arena);
    assert_ne!(die.direction, Direction::Right);
}

#[test]
fn movement_follows_the_direction() {
    let moved = |direction: Direction| {
        let mut die = die_at((5, 5), direction);
        die.movement();
        die.position
    };
    assert_eq!(moved(Direction::Stationary), (5, 5));
    assert_eq!(moved(Direction::Up), (5, 4));
    assert_eq!(moved(Direction::Down), (5, 6));
    assert_eq!(moved(Direction::Left), (4, 5));
    assert_eq!(moved(Direction::Right), (6, 5));
    assert_eq!(moved(Direction::UpLeft), (4, 4));
    assert_eq!(moved(Direction::UpRight), (6, 4));
    assert_eq!(moved(Direction::DownLeft), (4, 6));
    assert_eq!(moved(Direction::DownRight), (6, 6));
}

#[test]
fn friction_lowers_the_speed_by_the_kind() {
    for kind in ALL_KINDS {
        let mut die = Die { kind, ..die_at((5, 5), Direction::Up) };
        die.friction();
        assert_eq!(die.speed, 60 + kind.acceleration());
        assert!(die.speed < 60);
    }
}

#[test]
fn flip_time_is_a_thousand_over_the_speed() {
    let pause = |speed: i16| Die { speed, ..die_at((5, 5), Direction::Up) }.flip_time();
    assert_eq!(pause(60), 16);
    assert_eq!(pause(120), 8);
    assert_eq!(pause(7), 142);
    assert_eq!(pause(1), 1000);
    assert_eq!(pause(1001), 0);
    assert_eq!(pause(0), u64::MAX);
    assert_eq!(pause(-5), 0);
}

#[test]
fn new_die_starts_in_the_middle_at_a_bounded_speed() {
    let arena = arena();
    for id in 0..200 {
        let die = Die::new(id, D::Twelve, &arena);
        assert_eq!(die.id, id);
        assert_eq!(die.kind, D::Twelve);
        assert!(1 <= die.face_up && die.face_up <= 12);
        assert!(60 <= die.speed && die.speed <= 120);
        assert_ne!(die.direction, Direction::Stationary);
        assert!(30 <= die.position.0 && die.position.0 <= 50);
        assert!(9 <= die.position.1 && die.position.1 <= 15);
        assert!(die.is_rolling());
    }
}

#[test]
fn spawn_point_in_the_smallest_arena() {
    let arena = Arena::new(2, 2).unwrap();
    assert_eq!(Die::spawn_point(&arena), (1, 1));
}

#[test]
fn step_stays_inside_the_arena() {
    for (width, height) in [(2u16, 2u16), (3, 2), (2, 5), (7, 3), (80, 24)] {
        let arena = Arena::new(width, height).unwrap();
        for kind in ALL_KINDS {
            for _ in 0..20 {
                let mut die = Die::new(0, kind, &arena);
                for _ in 0..300 {
                    let before = die.position;
                    let step = die.step(&arena);
                    assert!(arena.holds(die.position));
                    assert_eq!(step.position, die.position);
                    assert_eq!(step.face, die.face_up);
                    assert!(step.position.0.abs_diff(before.0) <= 1);
                    assert!(step.position.1.abs_diff(before.1) <= 1);
                }
            }
        }
    }
}

#[test]
fn roll_terminates_after_the_counted_steps() {
    let arena = arena();
    for kind in ALL_KINDS {
        let mut die = Die {
            id: 7,
            kind,
            face_up: 1,
            position: (40, 12),
            speed: 61,
            direction: Direction::UpLeft,
        };
        let steps = die.roll(&arena);
        let loss = -kind.acceleration() as usize;
        assert_eq!(steps.len(), (61 + loss - 1) / loss);
        assert!(die.speed <= 0);
        assert!(!die.is_rolling());
        let mut speed = 61i16;
        for step in &steps {
            assert_eq!(step.id, 7);
            assert_eq!(step.pause_ms, 1000 / speed as u64);
            assert!(arena.holds(step.position));
            speed += kind.acceleration();
        }
        assert_eq!(die.speed, speed);
        let last: &Step = steps.last().unwrap();
        assert_eq!(last.position, die.position);
        assert_eq!(last.face, die.face_up);
    }
}

#[test]
fn roll_of_a_die_at_rest_reports_nothing() {
    let arena = arena();
    let mut die = Die { speed: 0, ..die_at((5, 5), Direction::Up) };
    let before = die;
    assert!(die.roll(&arena).is_empty());
    assert_eq!(die, before);
}

#[test]
fn speed_never_rises_during_a_roll() {
    let arena = arena();
    for kind in ALL_KINDS {
        let mut die = Die::new(1, kind, &arena);
        while die.is_rolling() {
            let before = die.speed;
            die.step(&arena);
            assert_eq!(die.speed, before);
            die.friction();
            assert!(die.speed < before);
        }
    }
}

#[test]
fn bounds_check_brings_the_die_back() {
    let arena = arena();
    let mut die = die_at((200, 100), Direction::Up);
    die.bounds_check(&arena);
    assert_eq!(die.position, (80, 24));
    let mut die = die_at((80, 3), Direction::Up);
    die.bounds_check(&arena);
    assert_eq!(die.position, (80, 3));
}

#[test]
fn die_outside_the_arena_moves_without_leaving_the_grid() {
    let arena = arena();
    for direction in ALL_DIRECTIONS {
        for position in [(0u16, 0u16), (u16::MAX, u16::MAX), (0, u16::MAX), (u16::MAX, 0)] {
            let mut die = die_at(position, direction);
            die.step(&arena);
            assert!(die.position.0.abs_diff(position.0) <= 1);
        }
    }
}

#[test]
fn arena_needs_two_cells_each_way() {
    assert!(Arena::new(1, 24).is_none());
    assert!(Arena::new(80, 1).is_none());
    assert!(Arena::new(0, 0).is_none());
    let arena = Arena::new(2, 2).unwrap();
    assert_eq!((arena.width(), arena.height()), (2, 2));
    assert!(arena.holds((1, 1)));
    assert!(arena.holds((2, 2)));
    assert!(!arena.holds((0, 1)));
    assert!(!arena.holds((3, 1)));
}

#[test]
fn die_at_rest_is_left_alone() {
    let arena = arena();
    let cells = [
        (1, 1),
        (80, 1),
        (1, 24),
        (80, 24),
        (1, 10),
        (80, 10),
        (40, 1),
        (40, 24),
        (40, 12),
        (0, 0),
        (200, 100),
    ];
    for position in cells {
        for kind in ALL_KINDS {
            let mut die = Die { kind, ..die_at(position, Direction::Stationary) };
            die.detect_wall(&arena);
            assert_eq!(die.direction, Direction::Stationary);
            assert_eq!(die.position, position);
            die.step(&arena);
            assert_eq!(die.direction, Direction::Stationary);
            assert_eq!(die.position, position);
        }
    }
}
