//! The result of a roll as a graph: every text of it and the cell where it
//! is written.

use crate::arena::Arena;
use crate::die::D;
use crate::graph::{
    spec_blanks, spec_column, spec_divider, spec_header, spec_prints, Graph, Part, Print,
};
use crate::input_handling::Code;
use crate::resolver::{
    lemma_dice_before_grows, mark, spec_assess, spec_dice_before, spec_is_assessment,
    spec_mark, spec_normal_lines, Assessment, AssessmentError, Line, RollCommand,
};
use crate::summary::{push_shown, spec_shown};
use crate::text::{push_decimal, push_signed, spec_decimal, spec_signed, spec_texts};
use crate::util::{centre, spec_centre_column, spec_centre_of, terminal_centre};
use vstd::prelude::*;
use vstd::string::StringExecFns;

verus! {

/// Why there is no graph to show.
#[derive(Clone, Copy, Debug, PartialEq, Eq, Structural)]
pub enum ShowError {
    /// The arena has too few rows or columns for the graph.
    WindowTooSmall,
    /// The roll has no result.
    Assessment(AssessmentError),
}

impl ShowError {
    /// The message shown for the error.
    pub open spec fn spec_message(&self) -> &'static str {
        match self {
            ShowError::WindowTooSmall => " Window too small to display results ",
            ShowError::Assessment(error) => error.spec_message(),
        }
    }

    /// The message shown for the error.
    #[verifier::when_used_as_spec(spec_message)]
    pub fn message(&self) -> (text: &'static str)
        ensures
            text == self.spec_message(),
    {
        match self {
            ShowError::WindowTooSmall => " Window too small to display results ",
            ShowError::Assessment(error) => error.message(),
        }
    }
}

/// The part of the graph that belongs to one command: the command, an
/// arrow and a face for each of its dice, one row each, and its sums.
#[derive(Debug, PartialEq, Eq)]
pub struct Block {
    pub command: Print,
    pub arrows: Vec<Print>,
    pub faces: Vec<Print>,
    pub totals: Vec<Print>,
}

/// The whole graph, in the order in which it is written: the blanked area,
/// the header, a block for each line of the result, and the footer.
#[derive(Debug, PartialEq, Eq)]
pub struct GraphPlan {
    pub cleared: Vec<Print>,
    pub header: Vec<Print>,
    pub blocks: Vec<Block>,
    pub footer: Vec<Print>,
}

/// The width that the graph needs: its 34 columns and one on either side.
pub const NEEDED_COLUMNS: u16 = 36;

/// The rows of a graph besides those of the dice and of the commands.
pub const FRAME_ROWS: u16 = 7;

/// The number of rows that the graph of a roll needs: one for every die,
/// one for every command, and seven for its frame.
pub open spec fn spec_needed_rows(dice: nat, commands: nat) -> nat {
    dice + commands + 7
}

/// Whether the graph of a roll fits into the arena: the arena has the rows
/// and the columns that the graph needs, and the last row of the graph has
/// a number.
pub open spec fn spec_fits(arena: Arena, dice: nat, commands: nat) -> bool {
    &&& spec_needed_rows(dice, commands) <= arena.spec_height()
    &&& spec_needed_rows(dice, commands) < u16::MAX
    &&& arena.spec_width() >= 36
}

/// The name of a roll over its graph.
pub open spec fn spec_label(code: Code) -> &'static str {
    match code {
        Code::Advantage => "Advantage roll",
        Code::Disadvantage => "Disadvantage roll",
        Code::Percentile => "Percentile roll",
        Code::Normal => "Normal roll",
    }
}

/// The name of a roll over its graph.
#[verifier::when_used_as_spec(spec_label)]
pub fn label_of(code: Code) -> (label: &'static str)
    ensures
        label == spec_label(code),
{
    match code {
        Code::Advantage => "Advantage roll",
        Code::Disadvantage => "Disadvantage roll",
        Code::Percentile => "Percentile roll",
        Code::Normal => "Normal roll",
    }
}

/// A face as the graph writes it on line `at` of its command: on a
/// percentile roll plainly, with the zero of the tens die as "00"; on any
/// other roll in the colour of its mark.
pub open spec fn spec_graph_face(code: Code, kind: D, face: u16, picked: int, at: int) -> Seq<
    char,
> {
    if code == Code::Percentile {
        spec_decimal(face as nat) + (if at == 0 && face == 0 {
            "0"@
        } else {
            Seq::empty()
        })
    } else {
        spec_shown(face, spec_mark(code, kind, face, picked))
    }
}

/// A face as the graph writes it.
pub fn graph_face(code: Code, kind: D, face: u16, picked: u16, at: usize) -> (text: String)
    ensures
        text@ == spec_graph_face(code, kind, face, picked as int, at as int),
{
    let mut text = String::new();
    match code {
        Code::Percentile => {
            push_decimal(&mut text, face as u128);
            if at == 0 && face == 0 {
                text.append("0");
            }
            assert(text@ == Seq::<char>::empty() + spec_graph_face(
                code,
                kind,
                face,
                picked as int,
                at as int,
            ));
        },
        _ => {
            push_shown(&mut text, face, mark(code, kind, face, picked));
        },
    }
    assert(Seq::<char>::empty() + text@ == text@);
    text
}

/// Whether a block is the one of a command in a graph about the given
/// centre column: the command on `row`, from that row down an arrow and a
/// face for each of the given faces, and the sums on `sums_row`.
pub open spec fn spec_is_block(
    block: Block,
    centre: int,
    row: int,
    sums_row: int,
    command: Seq<char>,
    code: Code,
    kind: D,
    picked: int,
    faces: Seq<u16>,
    line: Line,
) -> bool {
    &&& spec_prints(block.command, (spec_column(Part::Command, centre), row), command)
    &&& block.arrows@.len() == faces.len()
    &&& block.faces@.len() == faces.len()
    &&& forall|i: int|
        0 <= i < faces.len() ==> spec_prints(
            #[trigger] block.arrows@[i],
            (spec_column(Part::Arrow, centre), row + i),
            "->"@,
        )
    &&& forall|i: int|
        0 <= i < faces.len() ==> spec_prints(
            #[trigger] block.faces@[i],
            (spec_column(Part::Result, centre), row + i),
            spec_graph_face(code, kind, faces[i], picked, i),
        )
    &&& Graph::spec_totals_at(block.totals@, centre, sums_row, line)
}

/// Writes the block of a command at the rows at which the graph stands,
/// for the faces from `from` up to `to`. The sums go `gap` rows below the
/// row of the next sums, and the next command goes `step` rows further
/// down.
pub fn block(
    graph: &mut Graph,
    command: &str,
    code: Code,
    kind: D,
    picked: u16,
    faces: &Vec<u16>,
    from: usize,
    to: usize,
    line: &Line,
    gap: u16,
    step: u16,
) -> (block: Block)
    requires
        from <= to <= faces@.len(),
        old(graph).command_row + (to - from) <= u16::MAX,
        old(graph).command_row + step <= u16::MAX,
        old(graph).running_row + gap + 1 <= u16::MAX,
    ensures
        *final(graph) == (Graph {
            command_row: (old(graph).command_row + step) as u16,
            running_row: (old(graph).running_row + gap + 1) as u16,
            ..*old(graph)
        }),
        forall|centre: int|
            old(graph).stands_about(centre) ==> spec_is_block(
                block,
                centre,
                old(graph).command_row as int,
                old(graph).running_row + gap,
                command@,
                code,
                kind,
                picked as int,
                faces@.subrange(from as int, to as int),
                *line,
            ),
{
    let command_print = graph.print_command(command);
    let mut arrows: Vec<Print> = Vec::new();
    let mut shown: Vec<Print> = Vec::new();
    let mut at: usize = 0;
    let ghost mine = faces@.subrange(from as int, to as int);
    while at < to - from
        invariant
            from <= to <= faces@.len(),
            at <= to - from,
            *graph == *old(graph),
            graph.command_row + (to - from) <= u16::MAX,
            mine == faces@.subrange(from as int, to as int),
            arrows@.len() == at,
            shown@.len() == at,
            forall|i: int|
                0 <= i < at ==> spec_prints(
                    #[trigger] arrows@[i],
                    (graph.arrow_col as int, graph.command_row + i),
                    "->"@,
                ),
            forall|i: int|
                0 <= i < at ==> spec_prints(
                    #[trigger] shown@[i],
                    (graph.result_col as int, graph.command_row + i),
                    spec_graph_face(code, kind, mine[i], picked as int, i),
                ),
        decreases to - from - at,
    {
        let (arrow, cell) = graph.goto_result_line(at as u16);
        arrows.push(arrow);
        let face = faces[from + at];
        assert(face == mine[at as int]);
        shown.push(Print { at: cell, text: graph_face(code, kind, face, picked, at) });
        at += 1;
    }
    graph.running_row += gap;
    let totals = graph.print_totals(line);
    graph.command_row += step;
    Block { command: command_print, arrows, faces: shown, totals }
}

/// The row of command `k`, counted from the top row of the graph: four rows
/// down, and on a normal roll below the dice and the sums of the commands
/// before it.
pub open spec fn spec_block_row(code: Code, commands: Seq<RollCommand>, k: int) -> int {
    4 + (if code == Code::Normal {
        spec_dice_before(commands, k) + k
    } else {
        0
    })
}

/// The row of the sums of command `k`, counted from the top row of the
/// graph: below the dice of the command on a normal roll, and below the
/// two dice of any other.
pub open spec fn spec_sums_row(code: Code, commands: Seq<RollCommand>, k: int) -> int {
    3 + (if code == Code::Normal {
        spec_dice_before(commands, k + 1) + k
    } else {
        2
    })
}

/// The faces of command `k`: on a normal roll those of its own dice, on any
/// other roll the two of the roll.
pub open spec fn spec_block_faces(
    code: Code,
    faces: Seq<u16>,
    commands: Seq<RollCommand>,
    k: int,
) -> Seq<u16> {
    if code == Code::Normal {
        faces.subrange(spec_dice_before(commands, k), spec_dice_before(commands, k + 1))
    } else {
        faces
    }
}

/// The row after the last sums, counted from the top row of the graph.
pub open spec fn spec_end_row(code: Code, faces: Seq<u16>, commands: Seq<RollCommand>) -> int {
    3 + (if code == Code::Normal {
        (faces.len() + commands.len()) as int
    } else {
        3
    })
}

/// The face that counts, where the colour of a face depends on it.
pub open spec fn spec_picked(code: Code, lines: Seq<Line>) -> int {
    match code {
        Code::Advantage | Code::Disadvantage => lines[0].rolled as int,
        _ => 0,
    }
}

/// Whether the prints are the three lines that name the keys, from the
/// given row on.
pub open spec fn spec_keys_at(prints: Seq<Print>, centre: int, row: int) -> bool {
    &&& prints.len() == 3
    &&& spec_prints(prints[0], (spec_column(Part::Command, centre), row), "t: Toggle display"@)
    &&& spec_prints(
        prints[1],
        (spec_column(Part::Command, centre), row + 1),
        "r: Make another roll"@,
    )
    &&& spec_prints(prints[2], (spec_column(Part::Command, centre), row + 2), "esc: Exit"@)
}

/// Whether the plan is the graph of a result in the given arena.
///
/// The area of the graph is blanked row by row; the header names the
/// columns and the roll; every line of the result has its block; and the
/// footer names the keys, on a normal roll under the sum of all lines.
pub open spec fn spec_is_plan(
    plan: GraphPlan,
    arena: Arena,
    code: Code,
    log: Seq<Seq<char>>,
    faces: Seq<u16>,
    commands: Seq<RollCommand>,
    lines: Seq<Line>,
    total: int,
) -> bool {
    let centre = arena.spec_centre().0 as int;
    let needed = spec_needed_rows(faces.len(), log.len());
    let top = Graph::spec_top_row(needed as usize, arena);
    let end = top + spec_end_row(code, faces, commands);
    &&& plan.cleared@.len() == needed + 1
    &&& forall|i: int|
        0 <= i < plan.cleared@.len() ==> spec_prints(
            #[trigger] plan.cleared@[i],
            (spec_column(Part::Command, centre) - 1, top + i),
            spec_blanks(38),
        )
    &&& plan.header@.len() == 3
    &&& spec_prints(plan.header@[0], (spec_column(Part::Command, centre), top + 2), spec_header())
    &&& spec_prints(plan.header@[1], (spec_column(Part::Command, centre), top + 3), spec_divider())
    &&& spec_prints(
        plan.header@[2],
        (spec_centre_column(spec_label(code).len() as nat, arena), top),
        spec_label(code)@,
    )
    &&& plan.blocks@.len() == lines.len()
    &&& forall|k: int|
        0 <= k < lines.len() ==> spec_is_block(
            #[trigger] plan.blocks@[k],
            centre,
            top + spec_block_row(code, commands, k),
            top + spec_sums_row(code, commands, k),
            log[k],
            code,
            commands[k].kind,
            spec_picked(code, lines),
            spec_block_faces(code, faces, commands, k),
            lines[k],
        )
    &&& if code == Code::Normal {
        &&& plan.footer@.len() == 4
        &&& spec_prints(
            plan.footer@[0],
            (spec_column(Part::Sum, centre) - 2, end + 1),
            "= "@ + spec_signed(total),
        )
        &&& spec_keys_at(plan.footer@.subrange(1, 4), centre, end + 1)
    } else {
        spec_keys_at(plan.footer@, centre, end + 1)
    }
}

/// The three lines that name the keys, from the given row on.
pub fn push_keys(prints: &mut Vec<Print>, column: u16, row: u16)
    requires
        row + 2 <= u16::MAX,
    ensures
        final(prints)@.len() == old(prints)@.len() + 3,
        final(prints)@.subrange(0, old(prints)@.len() as int) == old(prints)@,
        forall|centre: int|
            column == spec_column(Part::Command, centre) ==> spec_keys_at(
                final(prints)@.subrange(old(prints)@.len() as int, final(prints)@.len() as int),
                centre,
                row as int,
            ),
{
    prints.push(Print { at: (column, row), text: String::from_str("t: Toggle display") });
    prints.push(Print { at: (column, row + 1), text: String::from_str("r: Make another roll") });
    prints.push(Print { at: (column, row + 2), text: String::from_str("esc: Exit") });
    proof {
        let n = old(prints)@.len() as int;
        let added = prints@.subrange(n, prints@.len() as int);
        assert(added[0] == prints@[n]);
        assert(added[1] == prints@[n + 1]);
        assert(added[2] == prints@[n + 2]);
        assert(prints@.subrange(0, n) =~= old(prints)@);
    }
}

/// A graph that fits begins at a row of the arena and ends at a row that
/// has a number.
pub proof fn lemma_graph_rows(arena: Arena, dice: nat, commands: nat)
    requires
        arena.wf(),
        spec_fits(arena, dice, commands),
    ensures
        ({
            let needed = spec_needed_rows(dice, commands);
            let top = Graph::spec_top_row(needed as usize, arena);
            &&& needed as usize == needed
            &&& 1 <= top <= 0x7fff
            &&& top + needed <= u16::MAX
            &&& arena.spec_centre().0 >= 18
        }),
{
    crate::arena::lemma_arena_has_room(arena);
}

/// The graph of a result that fits into the arena.
pub fn plan(
    arena: &Arena,
    code: Code,
    log: &Vec<String>,
    faces: &Vec<u16>,
    commands: &Vec<RollCommand>,
    assessment: &Assessment,
) -> (plan: GraphPlan)
    requires
        spec_fits(*arena, faces@.len(), log@.len()),
        log@.len() == commands@.len(),
        spec_is_assessment(Ok(*assessment), spec_assess(code, faces@, commands@)),
    ensures
        spec_is_plan(
            plan,
            *arena,
            code,
            spec_texts(log@),
            faces@,
            commands@,
            assessment.lines@,
            assessment.total as int,
        ),
{
    let ghost centre = arena.spec_centre().0 as int;
    let ghost needed = spec_needed_rows(faces@.len(), log@.len());
    let ghost top = Graph::spec_top_row(needed as usize, *arena);
    let ghost texts = spec_texts(log@);
    proof {
        use_type_invariant(arena);
        lemma_graph_rows(*arena, faces@.len(), log@.len());
    }
    let mut graph = Graph::new(faces.len() + log.len() + 7, arena);
    let cleared = graph.clear_area();
    let header = graph.print_header(label_of(code), arena);
    let mut blocks: Vec<Block> = Vec::new();
    let mut footer: Vec<Print> = Vec::new();
    match code {
        Code::Normal => {
            let dice = faces.len();
            let mut taken: usize = 0;
            let mut k: usize = 0;
            while k < commands.len()
                invariant
                    k <= commands@.len() == log@.len(),
                    dice == faces@.len(),
                    code == Code::Normal,
                    texts == spec_texts(log@),
                    spec_is_assessment(Ok(*assessment), spec_assess(code, faces@, commands@)),
                    top + needed <= u16::MAX,
                    needed == faces@.len() + log@.len() + 7,
                    graph.stands_about(centre),
                    taken == spec_dice_before(commands@, k as int),
                    graph.command_row == top + 4 + taken + k,
                    graph.running_row == top + 3 + taken + k,
                    blocks@.len() == k,
                    forall|j: int|
                        0 <= j < k ==> spec_is_block(
                            #[trigger] blocks@[j],
                            centre,
                            top + spec_block_row(code, commands@, j),
                            top + spec_sums_row(code, commands@, j),
                            texts[j],
                            code,
                            commands@[j].kind,
                            0,
                            spec_block_faces(code, faces@, commands@, j),
                            assessment.lines@[j],
                        ),
                decreases commands@.len() - k,
            {
                let command = commands[k];
                proof {
                    lemma_dice_before_grows(commands@, k + 1, commands@.len() as int);
                    assert(assessment.lines@ == spec_normal_lines(faces@, commands@));
                    assert(spec_dice_before(commands@, commands@.len() as int) == faces@.len());
                    assert(spec_dice_before(commands@, k + 1) == taken + command.coefficient);
                    assert(texts[k as int] == log@[k as int]@);
                }
                let to: usize = taken + command.coefficient as usize;
                let ghost before = blocks@;
                let ghost stood = graph;
                assert(stood.stands_about(centre));
                let made = block(
                    &mut graph,
                    log[k].as_str(),
                    code,
                    command.kind,
                    0,
                    faces,
                    taken,
                    to,
                    &assessment.lines[k],
                    command.coefficient,
                    command.coefficient + 1,
                );
                blocks.push(made);
                proof {
                    assert(forall|j: int| 0 <= j < k ==> blocks@[j] == before[j]);
                    assert(blocks@[k as int] == made);
                    assert(spec_is_block(
                        made,
                        centre,
                        stood.command_row as int,
                        stood.running_row + command.coefficient,
                        log@[k as int]@,
                        code,
                        command.kind,
                        0,
                        faces@.subrange(taken as int, to as int),
                        assessment.lines@[k as int],
                    ));
                    assert(stood.command_row == top + spec_block_row(code, commands@, k as int));
                    assert(stood.running_row + command.coefficient == top + spec_sums_row(
                        code,
                        commands@,
                        k as int,
                    ));
                }
                taken = to;
                k += 1;
            }
            let end = graph.running_row;
            let mut sum = String::from_str("= ");
            push_signed(&mut sum, assessment.total);
            footer.push(Print { at: (graph.sum_col - 2, end + 1), text: sum });
            let ghost first = footer@;
            push_keys(&mut footer, graph.command_col, end + 1);
            proof {
                assert(footer@.subrange(0, 1)[0] == first[0]);
            }
        },
        _ => {
            let line = assessment.lines[0];
            let picked: u16 = match code {
                Code::Advantage | Code::Disadvantage => line.rolled as u16,
                _ => 0,
            };
            proof {
                assert(texts[0] == log@[0]@);
                assert(faces@.subrange(0, faces@.len() as int) == faces@);
            }
            let ghost stood = graph;
            assert(stood.stands_about(centre));
            let made = block(
                &mut graph,
                log[0].as_str(),
                code,
                commands[0].kind,
                picked,
                faces,
                0,
                faces.len(),
                &line,
                2,
                0,
            );
            blocks.push(made);
            proof {
                assert(spec_is_block(
                    made,
                    centre,
                    stood.command_row as int,
                    stood.running_row + 2,
                    log@[0]@,
                    code,
                    commands@[0].kind,
                    picked as int,
                    faces@,
                    line,
                ));
                assert(blocks@[0] == made);
                assert(assessment.lines@.len() == 1);
            }
            let end = graph.running_row;
            push_keys(&mut footer, graph.command_col, end + 1);
            proof {
                assert(footer@.subrange(0, 3) == footer@);
            }
        },
    }
    GraphPlan { cleared, header, blocks, footer }
}

/// What is shown before the dice are thrown: a title, the commands of the
/// roll one under the other, the name of the roll unless it is normal, a
/// bar that grows dash by dash, and the prompt.
#[derive(Debug, PartialEq, Eq)]
pub struct ThrowPlan {
    pub title: Print,
    pub commands: Vec<Print>,
    pub code: Option<Print>,
    pub bar: Vec<Print>,
    pub prompt: Print,
}

/// The number of dashes of the bar.
pub const BAR_LENGTH: u16 = 21;

/// The name of a roll that is not normal, as it stands under the commands.
pub open spec fn spec_code_name(code: Code) -> &'static str {
    match code {
        Code::Advantage => "Advantage",
        Code::Disadvantage => "Disadvantage",
        Code::Percentile => "Percentile",
        Code::Normal => "",
    }
}

/// The name of a roll that is not normal.
#[verifier::when_used_as_spec(spec_code_name)]
pub fn code_name(code: Code) -> (name: &'static str)
    ensures
        name == spec_code_name(code),
{
    match code {
        Code::Advantage => "Advantage",
        Code::Disadvantage => "Disadvantage",
        Code::Percentile => "Percentile",
        Code::Normal => "",
    }
}

/// The row of the first command of a pending roll: half the number of
/// commands above the centre row.
pub open spec fn spec_pending_row(arena: Arena, commands: nat) -> int {
    arena.spec_centre().1 - commands / 2
}

/// Whether the pending roll fits into the arena: the title has a row above
/// the commands, the bar has ten columns to the left of the centre, and the
/// prompt stands on a row that has a number.
pub open spec fn spec_pending_fits(arena: Arena, commands: nat) -> bool {
    &&& spec_pending_row(arena, commands) >= 2
    &&& spec_pending_row(arena, commands) + commands + 3 <= u16::MAX
    &&& arena.spec_centre().0 >= 10
}

/// The row of the bar of a pending roll: two rows below the last thing
/// above it, which is the name of the roll, or the last command of a normal
/// roll.
pub open spec fn spec_bar_row(arena: Arena, code: Code, commands: nat) -> int {
    spec_pending_row(arena, commands) + commands + (if code == Code::Normal {
        1int
    } else {
        2int
    })
}

/// Whether the plan shows the pending roll of the given commands.
pub open spec fn spec_is_pending(
    plan: ThrowPlan,
    arena: Arena,
    code: Code,
    log: Seq<Seq<char>>,
) -> bool {
    let start = spec_pending_row(arena, log.len());
    let bar_row = spec_bar_row(arena, code, log.len());
    &&& spec_prints(plan.title, (spec_centre_of("Rolling:"@, arena), start - 2), "Rolling:"@)
    &&& plan.commands@.len() == log.len()
    &&& forall|i: int|
        0 <= i < log.len() ==> spec_prints(
            #[trigger] plan.commands@[i],
            (spec_centre_of(log[i], arena), start + i),
            log[i],
        )
    &&& match plan.code {
        Some(print) => code != Code::Normal && spec_prints(
            print,
            (spec_centre_of(spec_code_name(code)@, arena), start + log.len()),
            spec_code_name(code)@,
        ),
        None => code == Code::Normal,
    }
    &&& plan.bar@.len() == 21
    &&& forall|i: int|
        0 <= i < 21 ==> spec_prints(
            #[trigger] plan.bar@[i],
            (arena.spec_centre().0 - 10 + i, bar_row),
            "-"@,
        )
    &&& spec_prints(
        plan.prompt,
        (spec_centre_of("Press any key to roll"@, arena), bar_row + 1),
        "Press any key to roll"@,
    )
}

/// What to show before the dice are thrown, or nothing if it does not fit
/// into the arena.
pub fn pending(arena: &Arena, code: Code, log: &Vec<String>) -> (plan: Option<ThrowPlan>)
    ensures
        match plan {
            Some(plan) => spec_pending_fits(*arena, log@.len()) && spec_is_pending(
                plan,
                *arena,
                code,
                spec_texts(log@),
            ),
            None => !spec_pending_fits(*arena, log@.len()),
        },
{
    let (col, centre_row) = terminal_centre(arena);
    let count = log.len();
    if count > 0xffff {
        return None;
    }
    let half: u16 = (count / 2) as u16;
    if centre_row < half || centre_row - half < 2 || col < 10 {
        return None;
    }
    let start: u16 = centre_row - half;
    if start as u32 + count as u32 + 3 > 0xffff {
        return None;
    }
    let ghost texts = spec_texts(log@);
    let title = Print {
        at: (centre("Rolling:", arena), start - 2),
        text: String::from_str("Rolling:"),
    };
    let mut commands: Vec<Print> = Vec::new();
    let mut i: usize = 0;
    while i < count
        invariant
            i <= count == log@.len(),
            start + count + 3 <= u16::MAX,
            texts == spec_texts(log@),
            commands@.len() == i,
            forall|j: int|
                0 <= j < i ==> spec_prints(
                    #[trigger] commands@[j],
                    (spec_centre_of(texts[j], *arena), start + j),
                    texts[j],
                ),
        decreases count - i,
    {
        let item = log[i].as_str();
        assert(texts[i as int] == item@);
        commands.push(
            Print { at: (centre(item, arena), start + i as u16), text: String::from_str(item) },
        );
        i += 1;
    }
    let mut row: u16 = start + count as u16;
    let code_print = match code {
        Code::Normal => {
            row -= 1;
            None
        },
        _ => {
            let name = code_name(code);
            Some(Print { at: (centre(name, arena), row), text: String::from_str(name) })
        },
    };
    row += 2;
    let mut bar: Vec<Print> = Vec::new();
    let mut space: u16 = 0;
    while space < BAR_LENGTH
        invariant
            space <= 21,
            col >= 10,
            col == arena.spec_centre().0,
            bar@.len() == space,
            forall|j: int|
                0 <= j < space ==> spec_prints(
                    #[trigger] bar@[j],
                    (col - 10 + j, row as int),
                    "-"@,
                ),
        decreases 21 - space,
    {
        bar.push(Print { at: (col - 10 + space, row), text: String::from_str("-") });
        space += 1;
    }
    let msg = "Press any key to roll";
    let prompt = Print { at: (centre(msg, arena), row + 1), text: String::from_str(msg) };
    Some(ThrowPlan { title, commands, code: code_print, bar, prompt })
}

/// What to do about a graph that cannot be shown, under the error.
pub open spec fn spec_advice() -> (Seq<char>, Seq<char>) {
    (" Resize and press 't' to try again, "@, " or 'r' to return to command line "@)
}

/// Whether the prints show an error in the middle of the arena: the
/// message on the row above the centre row, and the advice on the two rows
/// below it, each line centred.
pub open spec fn spec_is_error(prints: Seq<Print>, message: Seq<char>, arena: Arena) -> bool {
    let row = arena.spec_centre().1 - 1;
    &&& prints.len() == 3
    &&& spec_prints(prints[0], (spec_centre_of(message, arena), row), message)
    &&& spec_prints(prints[1], (spec_centre_of(spec_advice().0, arena), row + 1), spec_advice().0)
    &&& spec_prints(prints[2], (spec_centre_of(spec_advice().1, arena), row + 2), spec_advice().1)
}

/// Shows an error of one line in the middle of the arena, with the advice
/// under it.
pub fn error_prints(message: &str, arena: &Arena) -> (prints: Vec<Print>)
    ensures
        spec_is_error(prints@, message@, *arena),
{
    let (_, middle) = terminal_centre(arena);
    let row: u16 = middle - 1;
    let first = " Resize and press 't' to try again, ";
    let second = " or 'r' to return to command line ";
    let mut prints: Vec<Print> = Vec::new();
    prints.push(Print { at: (centre(message, arena), row), text: String::from_str(message) });
    prints.push(Print { at: (centre(first, arena), row + 1), text: String::from_str(first) });
    prints.push(Print { at: (centre(second, arena), row + 2), text: String::from_str(second) });
    prints
}

} // verus!
