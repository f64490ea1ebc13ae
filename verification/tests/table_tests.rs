use dice::arena::Arena;
use dice::die::D;
use dice::display::{error_prints, pending, GraphPlan, ShowError};
use dice::graph::{Graph, Print};
use dice::input_handling::{generate_dice, Code};
use dice::resolver::{
    assess, commands_of, full_sum, AssessmentError, Line, Mark, RollCommand,
};
use dice::summary::summary;
use dice::table::{draw_at, Crit, Draw, Known, Pressed, Reaction, Redraw, Table};

fn arena() -> Arena {
    Arena::new(80, 24).unwrap()
}

fn table(code: Code, modifiers: Vec<i16>, log: &[&str], dice: &[D], faces: &[u16]) -> Table {
    let mut table =
        Table::new(code, modifiers, log.iter().map(|command| command.to_string()).collect());
    table.announce(&dice.to_vec());
    let arena = arena();
    // reports come in any order
    for (id, face) in faces.iter().enumerate().rev() {
        table.update(id, *face, (10 + id as u16, 5), &arena);
    }
    table
}

fn print(column: u16, row: u16, text: &str) -> Print {
    Print { at: (column, row), text: text.to_string() }
}

const GREEN: &str = "\u{1b}[38;5;2m";
const RED: &str = "\u{1b}[38;5;1m";
const RESET: &str = "\u{1b}[39m";
const DIVIDER: &str = "----------------------------------";

#[test]
fn new_table_is_empty() {
    let table = Table::new(Code::Normal, vec![2], vec!["3d6+2".to_string()]);
    assert_eq!(table.code(), Code::Normal);
    assert!(!table.graph_on());
    assert!(!table.error_on());
    assert!(table.ids().is_empty());
    assert!(table.faces().is_empty());
    assert!(!table.knows(0));
}

#[test]
fn announce_gives_ids_in_order() {
    let mut table = Table::new(Code::Normal, vec![], vec![]);
    table.announce(&vec![D::Six, D::Twenty]);
    assert!(table.knows(0));
    assert!(table.knows(1));
    assert!(!table.knows(2));
    table.log_kind(7, D::Four);
    assert!(table.knows(7));
}

#[test]
fn update_keeps_the_last_report_of_each_die() {
    let arena = arena();
    let mut table = Table::new(Code::Normal, vec![0], vec!["2d20".to_string()]);
    table.announce(&vec![D::Twenty, D::Twenty]);
    let first = table.update(1, 17, (40, 12), &arena);
    assert_eq!(
        first,
        Redraw {
            erase_at: (40, 12),
            erase_width: 1,
            draw_at: (40, 12),
            face: 17,
            double_zero: false
        }
    );
    let second = table.update(1, 3, (41, 11), &arena);
    assert_eq!(
        second,
        Redraw {
            erase_at: (40, 12),
            erase_width: 2,
            draw_at: (41, 11),
            face: 3,
            double_zero: false
        }
    );
    let third = table.update(1, 12, (80, 10), &arena);
    assert_eq!(
        third,
        Redraw {
            erase_at: (41, 11),
            erase_width: 1,
            draw_at: (79, 10),
            face: 12,
            double_zero: false
        }
    );
    table.update(0, 5, (2, 2), &arena);
    assert_eq!(table.ids(), vec![0, 1]);
    assert_eq!(table.faces(), vec![5, 12]);
}

#[test]
fn tens_die_shows_a_double_zero() {
    let arena = arena();
    let mut table = Table::new(Code::Percentile, vec![0], vec!["1d100".to_string()]);
    table.announce(&vec![D::PercentTens, D::PercentOnes]);
    let tens = table.update(0, 0, (80, 3), &arena);
    assert_eq!(
        tens,
        Redraw { erase_at: (80, 3), erase_width: 1, draw_at: (79, 3), face: 0, double_zero: true }
    );
    let tens = table.update(0, 40, (79, 3), &arena);
    assert_eq!(tens.erase_width, 2);
    assert!(!tens.double_zero);
    let ones = table.update(1, 0, (80, 4), &arena);
    assert_eq!(
        ones,
        Redraw { erase_at: (80, 4), erase_width: 1, draw_at: (80, 4), face: 0, double_zero: false }
    );
}

#[test]
fn draw_at_steps_back_on_the_last_column() {
    let arena = arena();
    assert_eq!(draw_at((80, 5), 10, D::Twenty, &arena), (79, 5));
    assert_eq!(draw_at((80, 5), 9, D::Twenty, &arena), (80, 5));
    assert_eq!(draw_at((79, 5), 10, D::Twenty, &arena), (79, 5));
    assert_eq!(draw_at((80, 5), 0, D::PercentTens, &arena), (79, 5));
}

#[test]
fn faces_come_in_the_order_of_the_ids() {
    let arena = arena();
    let mut table = Table::new(Code::Normal, vec![], vec![]);
    for id in [9usize, 2, 40, 0, 7] {
        table.log_kind(id, D::Six);
        table.update(id, (id % 6) as u16 + 1, (5, 5), &arena);
    }
    assert_eq!(table.ids(), vec![0, 2, 7, 9, 40]);
    assert_eq!(table.faces(), vec![1, 3, 2, 4, 5]);
}

#[test]
fn redraw_draws_every_die_and_takes_the_graph_away() {
    let arena = arena();
    let mut table = table(Code::Normal, vec![0], &["2d20"], &[D::Twenty, D::Twenty], &[20, 4]);
    table.update(0, 20, (80, 7), &arena);
    assert!(table.show_math(&arena).is_ok());
    assert!(table.graph_on());
    let draws = table.redraw(&arena);
    assert_eq!(
        draws,
        vec![
            Draw { at: (79, 7), face: 20, double_zero: false },
            Draw { at: (11, 5), face: 4, double_zero: false },
        ]
    );
    assert!(!table.graph_on());
    assert!(!table.error_on());
    assert_eq!(table.faces(), vec![20, 4]);
}

#[test]
fn crit_colour_marks_the_twenty_and_the_one_of_a_d20() {
    let table = table(
        Code::Normal,
        vec![0, 0],
        &["3d20", "2d6"],
        &[D::Twenty, D::Twenty, D::Twenty, D::Six, D::Six],
        &[20, 1, 7, 1, 6],
    );
    assert_eq!(
        table.crit_colour(),
        vec![Crit { at: (10, 5), mark: Mark::Best }, Crit { at: (11, 5), mark: Mark::Worst }]
    );
}

#[test]
fn sums_of_the_table() {
    let dice = [D::Six, D::Six, D::Four];
    let table = table(Code::Normal, vec![2, -1], &["2d6+2", "1d4-1"], &dice, &[4, 2, 3]);
    assert_eq!(table.full_sum(), 10);
    assert_eq!(table.advantage(), Err(AssessmentError::TooManyDice));
    assert_eq!(table.disadvantage(), Err(AssessmentError::TooManyDice));
    assert_eq!(table.percent_sum(), Err(AssessmentError::TooManyDice));
    let result = table.assessment().unwrap();
    assert_eq!(
        result.lines,
        vec![
            Line { rolled: 6, modifier: 2, total: 8 },
            Line { rolled: 3, modifier: -1, total: 2 }
        ]
    );
    assert_eq!(result.total, 10);
    assert_eq!(table.do_math().unwrap(), "10");
}

#[test]
fn full_sum_adds_faces_and_modifiers() {
    assert_eq!(full_sum(&vec![4, 2, 5], &vec![2]), 13);
    assert_eq!(full_sum(&vec![], &vec![]), 0);
    assert_eq!(full_sum(&vec![65535, 65535], &vec![i16::MIN, i16::MIN]), 65534);
}

#[test]
fn do_math_of_a_normal_roll() {
    let table = table(Code::Normal, vec![2], &["3d6+2"], &[D::Six; 3], &[4, 2, 5]);
    assert_eq!(table.do_math().unwrap(), "4 + 2 + 5 + 2 = 11 + 2 = 13");
    let table = table_of_minus();
    assert_eq!(table.do_math().unwrap(), "4 + 2 - 3 = 6 - 3 = 3");
}

fn table_of_minus() -> Table {
    table(Code::Normal, vec![-3], &["2d6-3"], &[D::Six; 2], &[4, 2])
}

#[test]
fn do_math_shortens_long_rolls() {
    let six = table(Code::Normal, vec![0], &["6d6"], &[D::Six; 6], &[1, 2, 3, 4, 5, 6]);
    assert_eq!(six.do_math().unwrap(), "1 + 2 + 3 + 4 + 5 + 6 + 0 = 21 + 0 = 21");
    let seven = table(Code::Normal, vec![0], &["7d6"], &[D::Six; 7], &[1, 2, 3, 4, 5, 6, 1]);
    assert_eq!(seven.do_math().unwrap(), "1 + 2 + 3 + 4 + 5 + ... + 0 = 22 + 0 = 22");
}

#[test]
fn do_math_colours_the_crits_of_a_d20() {
    let table = table(Code::Normal, vec![1], &["3d20+1"], &[D::Twenty; 3], &[20, 1, 10]);
    assert_eq!(
        table.do_math().unwrap(),
        format!("{GREEN}20{RESET} + {RED}1{RESET} + 10 + 1 = 31 + 1 = 32")
    );
    let plain = table_of_d6_with_a_one();
    assert_eq!(plain.do_math().unwrap(), "1 + 0 = 1 + 0 = 1");
}

fn table_of_d6_with_a_one() -> Table {
    table(Code::Normal, vec![0], &["1d6"], &[D::Six], &[1])
}

#[test]
fn do_math_with_advantage_and_disadvantage() {
    let dice = [D::Twenty, D::Twenty];
    let adv = table(Code::Advantage, vec![0], &["1d20"], &dice, &[15, 20]);
    assert_eq!(adv.advantage(), Ok(20));
    assert_eq!(adv.do_math().unwrap(), format!("15 | {GREEN}20{RESET} => 20 + 0 = 20"));
    let dis = table(Code::Disadvantage, vec![0], &["1d20"], &dice, &[15, 20]);
    assert_eq!(dis.disadvantage(), Ok(15));
    assert_eq!(dis.do_math().unwrap(), "15 | 20 => 15 + 0 = 15");
    let dis = table(Code::Disadvantage, vec![-2], &["1d20-2"], &dice, &[1, 20]);
    assert_eq!(dis.do_math().unwrap(), format!("{RED}1{RESET} | 20 => 1 - 2 = -1"));
    let adv = table(Code::Advantage, vec![3], &["1d20+3"], &dice, &[1, 1]);
    assert_eq!(adv.do_math().unwrap(), format!("{RED}1{RESET} | {RED}1{RESET} => 1 + 3 = 4"));
}

#[test]
fn do_math_of_a_percentile_roll() {
    let dice = [D::PercentTens, D::PercentOnes];
    let roll = table(Code::Percentile, vec![0], &["1d100"], &dice, &[0, 0]);
    assert_eq!(roll.percent_sum(), Ok(100));
    assert_eq!(roll.do_math().unwrap(), "00, 0 => 100 + 0 = 100");
    let roll = table(Code::Percentile, vec![-5], &["1d100-5"], &dice, &[40, 7]);
    assert_eq!(roll.do_math().unwrap(), "40, 7 => 47 - 5 = 42");
    let roll = table(Code::Percentile, vec![8], &["1d100+8"], &dice, &[0, 10 - 1]);
    assert_eq!(roll.do_math().unwrap(), "00, 9 => 9 + 8 = 17");
}

#[test]
fn assessment_errors() {
    let dice = [D::Twenty; 3];
    let three = table(Code::Advantage, vec![0], &["1d20"], &dice, &[15, 20, 3]);
    assert_eq!(three.do_math(), Err(AssessmentError::TooManyDice));
    assert_eq!(three.assessment(), Err(AssessmentError::TooManyDice));
    let three = table(Code::Percentile, vec![0], &["1d100"], &dice, &[10, 2, 3]);
    assert_eq!(three.do_math(), Err(AssessmentError::TooManyDice));
    for code in [Code::Advantage, Code::Disadvantage, Code::Percentile] {
        let none = table(code, vec![0], &["1d20"], &dice, &[]);
        assert_eq!(none.do_math(), Err(AssessmentError::TooFewDice));
        assert_eq!(none.assessment(), Err(AssessmentError::TooFewDice));
        let one = table(code, vec![0], &["1d20"], &dice, &[7]);
        assert_eq!(one.do_math(), Err(AssessmentError::TooFewDice));
        assert_eq!(one.assessment(), Err(AssessmentError::TooFewDice));
    }
    let none = table(Code::Percentile, vec![0], &["1d100"], &dice, &[]);
    assert_eq!(none.percent_sum(), Err(AssessmentError::TooFewDice));
    assert_eq!(none.advantage(), Err(AssessmentError::TooFewDice));
    assert_eq!(none.disadvantage(), Err(AssessmentError::TooFewDice));
    let no_command = table(Code::Advantage, vec![], &[], &dice, &[15, 20]);
    assert_eq!(no_command.do_math(), Err(AssessmentError::NoCommand));
    let unreadable = table(Code::Normal, vec![0], &["three dice"], &dice, &[1, 2, 3]);
    assert_eq!(unreadable.do_math(), Err(AssessmentError::UnreadableCommand));
    let other_modifier = table(Code::Normal, vec![1], &["3d20+2"], &dice, &[1, 2, 3]);
    assert_eq!(other_modifier.do_math(), Err(AssessmentError::ModifierMismatch));
    let missing_modifier = table(Code::Normal, vec![], &["3d20"], &dice, &[1, 2, 3]);
    assert_eq!(missing_modifier.do_math(), Err(AssessmentError::ModifierMismatch));
    let too_few = table(Code::Normal, vec![0], &["3d20"], &dice, &[1, 2]);
    assert_eq!(too_few.do_math(), Err(AssessmentError::DiceMismatch));
    let too_many = table(Code::Normal, vec![0], &["2d20"], &dice, &[1, 2, 3]);
    assert_eq!(too_many.do_math(), Err(AssessmentError::DiceMismatch));
}

#[test]
fn resolver_takes_plain_values() {
    let commands = vec![
        RollCommand { coefficient: 2, kind: D::Six, modifier: 1 },
        RollCommand { coefficient: 1, kind: D::Twenty, modifier: -4 },
    ];
    let result = assess(Code::Normal, &vec![6, 6, 20], &commands).unwrap();
    assert_eq!(
        result.lines,
        vec![
            Line { rolled: 12, modifier: 1, total: 13 },
            Line { rolled: 20, modifier: -4, total: 16 }
        ]
    );
    assert_eq!(result.total, 29);
    assert_eq!(summary(Code::Normal, &vec![6, 6, 20], &commands).unwrap(), "29");
    assert_eq!(assess(Code::Normal, &vec![], &vec![]).unwrap().total, 0);
    let single = vec![RollCommand { coefficient: 1, kind: D::PercentTens, modifier: 5 }];
    let result = assess(Code::Percentile, &vec![0, 0], &single).unwrap();
    assert_eq!(result.lines, vec![Line { rolled: 100, modifier: 5, total: 105 }]);
    assert_eq!(result.total, 105);
    let result = assess(Code::Advantage, &vec![9, 4], &single).unwrap();
    assert_eq!(result.total, 14);
    assert_eq!(assess(Code::Advantage, &vec![9], &single), Err(AssessmentError::TooFewDice));
    assert_eq!(assess(Code::Percentile, &vec![], &single), Err(AssessmentError::TooFewDice));
    assert_eq!(assess(Code::Percentile, &vec![0], &single), Err(AssessmentError::TooFewDice));
    assert_eq!(assess(Code::Advantage, &vec![9, 4], &vec![]), Err(AssessmentError::NoCommand));
}

#[test]
fn commands_are_read_from_the_log() {
    let log = vec!["3d6+2".to_string(), "1d100".to_string()];
    assert_eq!(
        commands_of(&log, &vec![2, 0]),
        Ok(vec![
            RollCommand { coefficient: 3, kind: D::Six, modifier: 2 },
            RollCommand { coefficient: 1, kind: D::PercentTens, modifier: 0 }
        ])
    );
    assert_eq!(commands_of(&log, &vec![2]), Err(AssessmentError::ModifierMismatch));
    assert_eq!(commands_of(&log, &vec![2, 1]), Err(AssessmentError::ModifierMismatch));
    assert_eq!(
        commands_of(&vec!["x".to_string()], &vec![0]),
        Err(AssessmentError::UnreadableCommand)
    );
}

#[test]
fn a_parsed_line_rolls_through_the_table() {
    let (code, dice, modifiers, log) = generate_dice("2d6+1, d20-2".to_string()).unwrap();
    let arena = arena();
    let mut table = Table::new(code, modifiers, log);
    table.announce(&dice);
    for (id, face) in [3u16, 5, 11].into_iter().enumerate() {
        table.update(id, face, (40, 12), &arena);
    }
    let result = table.assessment().unwrap();
    assert_eq!(result.total, 3 + 5 + 1 + 11 - 2);
    assert_eq!(table.full_sum(), result.total);
    assert_eq!(table.do_math().unwrap(), "18");
}

#[test]
fn keys_after_the_roll() {
    let arena = arena();
    let mut table = table(Code::Normal, vec![2], &["3d6+2"], &[D::Six; 3], &[4, 2, 5]);
    assert_eq!(table.react(Pressed::Escape), Reaction::Leave);
    assert_eq!(table.react(Pressed::Again), Reaction::Reroll);
    assert_eq!(table.react(Pressed::Other), Reaction::Ignore);
    assert_eq!(table.react(Pressed::Toggle), Reaction::ShowMath);
    table.show_math(&arena).unwrap();
    assert_eq!(table.react(Pressed::Toggle), Reaction::Redraw);
    table.print_error();
    assert!(table.error_on());
    assert!(!table.graph_on());
    assert_eq!(table.react(Pressed::Toggle), Reaction::RedrawThenShowMath);
    table.redraw(&arena);
    assert_eq!(table.react(Pressed::Toggle), Reaction::ShowMath);
}

#[test]
fn graph_of_a_normal_roll() {
    let arena = arena();
    let mut table = table(Code::Normal, vec![2], &["3d6+2"], &[D::Six; 3], &[4, 2, 5]);
    let plan: GraphPlan = table.show_math(&arena).unwrap();
    assert!(table.graph_on());
    let blanks = " ".repeat(38);
    let cleared: Vec<Print> = (7..=18).map(|row| print(22, row, &blanks)).collect();
    assert_eq!(plan.cleared, cleared);
    assert_eq!(
        plan.header,
        vec![
            print(23, 9, "Rolls    Results       Mod  Total"),
            print(23, 10, DIVIDER),
            print(35, 7, "Normal roll"),
        ]
    );
    assert_eq!(plan.blocks.len(), 1);
    let block = &plan.blocks[0];
    assert_eq!(block.command, print(23, 11, "3d6+2"));
    assert_eq!(block.arrows, vec![print(32, 11, "->"), print(32, 12, "->"), print(32, 13, "->")]);
    assert_eq!(block.faces, vec![print(35, 11, "4"), print(35, 12, "2"), print(35, 13, "5")]);
    assert_eq!(
        block.totals,
        vec![
            print(38, 13, "=>"),
            print(41, 13, "11"),
            print(46, 13, "+ 2"),
            print(53, 13, "13"),
            print(51, 13, "="),
            print(23, 14, DIVIDER),
        ]
    );
    assert_eq!(
        plan.footer,
        vec![
            print(51, 15, "= 13"),
            print(23, 15, "t: Toggle display"),
            print(23, 16, "r: Make another roll"),
            print(23, 17, "esc: Exit"),
        ]
    );
}

#[test]
fn graph_of_several_commands() {
    let arena = arena();
    let mut table = table(
        Code::Normal,
        vec![0, -1],
        &["2d20", "1d4-1"],
        &[D::Twenty, D::Twenty, D::Four],
        &[20, 1, 3],
    );
    let plan = table.show_math(&arena).unwrap();
    // twelve rows: three dice, two commands and the frame; the top is at 12 - 6
    assert_eq!(plan.cleared.len(), 13);
    assert_eq!(plan.cleared[0].at, (22, 6));
    assert_eq!(plan.blocks.len(), 2);
    let first = &plan.blocks[0];
    assert_eq!(first.command, print(23, 10, "2d20"));
    assert_eq!(
        first.faces,
        vec![
            print(35, 10, &format!("{GREEN}20{RESET}")),
            print(35, 11, &format!("{RED}1{RESET}"))
        ]
    );
    assert_eq!(first.totals[1], print(41, 11, "21"));
    assert_eq!(first.totals[2], print(46, 11, "+ 0"));
    assert_eq!(first.totals[5], print(23, 12, DIVIDER));
    let second = &plan.blocks[1];
    assert_eq!(second.command, print(23, 13, "1d4-1"));
    assert_eq!(second.arrows, vec![print(32, 13, "->")]);
    assert_eq!(second.faces, vec![print(35, 13, "3")]);
    assert_eq!(second.totals[0], print(38, 13, "=>"));
    assert_eq!(second.totals[2], print(46, 13, "- 1"));
    assert_eq!(second.totals[3], print(53, 13, "2"));
    assert_eq!(plan.footer[0], print(51, 15, "= 23"));
    assert_eq!(plan.footer[3], print(23, 17, "esc: Exit"));
}

#[test]
fn graph_of_a_roll_with_advantage() {
    let arena = arena();
    let dice = [D::Twenty, D::Twenty];
    let mut table = table(Code::Advantage, vec![3], &["1d20+3"], &dice, &[15, 20]);
    let plan = table.show_math(&arena).unwrap();
    assert_eq!(plan.header[2], print(33, 7, "Advantage roll"));
    assert_eq!(plan.blocks.len(), 1);
    let block = &plan.blocks[0];
    assert_eq!(block.command, print(23, 11, "1d20+3"));
    assert_eq!(
        block.faces,
        vec![print(35, 11, "15"), print(35, 12, &format!("{GREEN}20{RESET}"))]
    );
    assert_eq!(block.totals[0], print(38, 12, "=>"));
    assert_eq!(block.totals[1], print(41, 12, "20"));
    assert_eq!(block.totals[3], print(53, 12, "23"));
    assert_eq!(
        plan.footer,
        vec![
            print(23, 14, "t: Toggle display"),
            print(23, 15, "r: Make another roll"),
            print(23, 16, "esc: Exit"),
        ]
    );
}

#[test]
fn graph_of_a_percentile_roll() {
    let arena = arena();
    let dice = [D::PercentTens, D::PercentOnes];
    let mut table = table(Code::Percentile, vec![0], &["1d100"], &dice, &[0, 0]);
    let plan = table.show_math(&arena).unwrap();
    assert_eq!(plan.header[2], print(33, 7, "Percentile roll"));
    let block = &plan.blocks[0];
    assert_eq!(block.faces, vec![print(35, 11, "00"), print(35, 12, "0")]);
    assert_eq!(block.totals[1], print(41, 12, "100"));
    assert_eq!(block.totals[3], print(53, 12, "100"));
}

#[test]
fn graph_needs_room() {
    let dice = [D::Six; 3];
    let low = Arena::new(80, 10).unwrap();
    let mut table = table(Code::Normal, vec![2], &["3d6+2"], &dice, &[4, 2, 5]);
    assert_eq!(table.show_math(&low), Err(ShowError::WindowTooSmall));
    assert!(!table.graph_on());
    let narrow = Arena::new(35, 24).unwrap();
    assert_eq!(table.show_math(&narrow), Err(ShowError::WindowTooSmall));
    let tight = Arena::new(36, 11).unwrap();
    assert!(table.show_math(&tight).is_ok());
    let mut three = Table::new(Code::Advantage, vec![0], vec!["1d20".to_string()]);
    three.announce(&vec![D::Twenty; 3]);
    for id in 0..3 {
        three.update(id, 5, (5, 5), &arena());
    }
    assert_eq!(
        three.show_math(&arena()),
        Err(ShowError::Assessment(AssessmentError::TooManyDice))
    );
    assert_eq!(
        ShowError::WindowTooSmall.message(),
        " Window too small to display results "
    );
}

#[test]
fn layout_of_the_graph() {
    let arena = arena();
    let graph = Graph::new(11, &arena);
    assert_eq!(graph.label, "");
    assert_eq!(graph.divider, DIVIDER);
    assert_eq!((graph.width, graph.height), (36, 11));
    assert_eq!(
        [
            graph.command_col,
            graph.arrow_col,
            graph.result_col,
            graph.big_arrow_col,
            graph.running_col,
            graph.modifier_col,
            graph.equals_col,
            graph.sum_col
        ],
        [23, 32, 35, 38, 41, 46, 51, 53]
    );
    assert_eq!(
        [graph.top_row, graph.first_result_row, graph.command_row, graph.running_row],
        [7, 11, 11, 10]
    );
    let tall = Graph::new(40, &arena);
    assert_eq!(tall.top_row, 1);
    assert_eq!(tall.running_row, 4);
}

#[test]
fn parts_of_the_graph() {
    let arena = arena();
    let mut graph = Graph::new(11, &arena);
    assert_eq!(graph.print_command("3d6+2"), print(23, 11, "3d6+2"));
    assert_eq!(graph.goto_result_line(2), (print(32, 13, "->"), (35, 13)));
    let totals = graph.print_totals(&Line { rolled: 7, modifier: -3, total: 4 });
    assert_eq!(totals[2], print(46, 10, "- 3"));
    assert_eq!(graph.running_row, 11);
    let header = graph.print_header("Normal roll", &arena);
    assert_eq!(header[2], print(35, 7, "Normal roll"));
    assert_eq!(graph.label, "Normal roll");
    assert_eq!(graph.clear_area().len(), 12);
}

#[test]
fn pending_normal_roll() {
    let arena = arena();
    let log = vec!["2d6+1".to_string(), "1d20".to_string(), "1d4-3".to_string()];
    let plan = pending(&arena, Code::Normal, &log).unwrap();
    assert_eq!(plan.title, print(36, 9, "Rolling:"));
    assert_eq!(
        plan.commands,
        vec![print(38, 11, "2d6+1"), print(38, 12, "1d20"), print(38, 13, "1d4-3")]
    );
    assert_eq!(plan.code, None);
    assert_eq!(plan.bar.len(), 21);
    for (i, dash) in plan.bar.iter().enumerate() {
        assert_eq!(*dash, print(30 + i as u16, 15, "-"));
    }
    assert_eq!(plan.prompt, print(30, 16, "Press any key to roll"));
}

#[test]
fn pending_roll_with_advantage() {
    let arena = arena();
    let table = Table::new(Code::Advantage, vec![0], vec!["1d20".to_string()]);
    let plan = table.print_throw(&arena).unwrap();
    assert_eq!(plan.title, print(36, 10, "Rolling:"));
    assert_eq!(plan.commands, vec![print(38, 12, "1d20")]);
    assert_eq!(plan.code, Some(print(36, 13, "Advantage")));
    assert_eq!(plan.bar[0], print(30, 15, "-"));
    assert_eq!(plan.bar[20], print(50, 15, "-"));
    assert_eq!(plan.prompt, print(30, 16, "Press any key to roll"));
    let names: Vec<String> = [Code::Disadvantage, Code::Percentile]
        .into_iter()
        .map(|code| pending(&arena, code, &vec![]).unwrap().code.unwrap().text)
        .collect();
    assert_eq!(names, vec!["Disadvantage", "Percentile"]);
}

#[test]
fn pending_roll_needs_room() {
    let log = vec!["1d20".to_string()];
    assert!(pending(&Arena::new(80, 3).unwrap(), Code::Normal, &log).is_none());
    assert!(pending(&Arena::new(80, 4).unwrap(), Code::Normal, &log).is_some());
    assert!(pending(&Arena::new(19, 24).unwrap(), Code::Normal, &log).is_none());
    assert!(pending(&Arena::new(20, 24).unwrap(), Code::Normal, &log).is_some());
}

#[test]
fn error_in_the_middle_of_the_arena() {
    let arena = arena();
    let message = ShowError::WindowTooSmall.message();
    assert_eq!(
        error_prints(message, &arena),
        vec![
            print(22, 11, " Window too small to display results "),
            print(22, 12, " Resize and press 't' to try again, "),
            print(23, 13, " or 'r' to return to command line "),
        ]
    );
}

#[test]
fn snapshot_lists_the_dice_that_have_reported() {
    let arena = arena();
    let mut table = Table::new(Code::Normal, vec![0], vec!["3d6".to_string()]);
    table.announce(&vec![D::Six, D::Twenty, D::Four]);
    assert!(table.snapshot().is_empty());
    table.update(2, 3, (7, 8), &arena);
    table.update(0, 6, (1, 2), &arena);
    table.update(2, 4, (8, 8), &arena);
    assert_eq!(
        table.snapshot(),
        vec![
            Known { id: 0, kind: D::Six, face: 6, position: (1, 2) },
            Known { id: 2, kind: D::Four, face: 4, position: (8, 8) },
        ]
    );
}

#[test]
fn messages_of_assessment_errors() {
    let messages: Vec<&str> = [
        AssessmentError::TooManyDice,
        AssessmentError::TooFewDice,
        AssessmentError::NoCommand,
        AssessmentError::UnreadableCommand,
        AssessmentError::ModifierMismatch,
        AssessmentError::DiceMismatch,
    ]
    .iter()
    .map(|error| error.message())
    .collect();
    assert_eq!(
        messages,
        vec![
            "Cannot assess this roll on more than two dice",
            "Cannot assess this roll on fewer than two dice",
            "Cannot assess a roll without a command",
            "Cannot read the commands of this roll",
            "The modifiers do not match the commands",
            "The dice do not match the commands",
        ]
    );
    assert_eq!(
        ShowError::Assessment(AssessmentError::TooFewDice).message(),
        "Cannot assess this roll on fewer than two dice"
    );
}
