//! The graph that shows a result and the sums behind it: where each of its
//! parts stands on screen, and what is written there.

use crate::arena::Arena;
use crate::resolver::Line;
use crate::text::{push_char, push_decimal, push_signed, spec_decimal, spec_signed};
use crate::util::{centre, spec_centre_column, terminal_centre};
use vstd::prelude::*;
use vstd::string::StringExecFns;

verus! {

/// A text to write from a cell on, given as (column, row).
#[derive(Debug, PartialEq, Eq)]
pub struct Print {
    pub at: (u16, u16),
    pub text: String,
}

/// Whether a print writes the given text at the given cell.
pub open spec fn spec_prints(print: Print, at: (int, int), text: Seq<char>) -> bool {
    print.at.0 == at.0 && print.at.1 == at.1 && print.text@ == text
}

/// A run of blanks.
pub open spec fn spec_blanks(count: nat) -> Seq<char> {
    Seq::new(count, |i: int| ' ')
}

/// The layout of the graph: the columns of its parts, its first row, and
/// the rows at which the next command and the next sums go.
pub struct Graph {
    pub label: String,
    pub divider: &'static str,
    pub width: u16,
    pub height: u16,
    pub command_col: u16,
    pub arrow_col: u16,
    pub result_col: u16,
    pub big_arrow_col: u16,
    pub running_col: u16,
    pub modifier_col: u16,
    pub equals_col: u16,
    pub sum_col: u16,
    pub top_row: u16,
    pub first_result_row: u16,
    pub command_row: u16,
    pub running_row: u16,
}

/// The parts of a line of the graph.
#[derive(Clone, Copy, Debug, PartialEq, Eq, Structural)]
pub enum Part {
    Command,
    Arrow,
    Result,
    BigArrow,
    Running,
    Modifier,
    Equals,
    Sum,
}

/// The column at which a part begins in a graph about the given centre
/// column.
pub open spec fn spec_column(part: Part, centre: int) -> int {
    match part {
        Part::Command => centre - 17,
        Part::Arrow => centre - 8,
        Part::Result => centre - 5,
        Part::BigArrow => centre - 2,
        Part::Running => centre + 1,
        Part::Modifier => centre + 6,
        Part::Equals => centre + 11,
        Part::Sum => centre + 13,
    }
}

/// The line that parts the graph: 34 dashes.
pub open spec fn spec_divider() -> Seq<char> {
    "----------------------------------"@
}

/// The titles of the columns.
pub open spec fn spec_header() -> Seq<char> {
    "Rolls    Results       Mod  Total"@
}

impl Graph {
    /// The width of the graph: the divider and a blank on either side.
    pub const WIDTH: u16 = 36;

    /// The first row of a graph of the given height: half the height above
    /// the centre of the arena, and no higher than row 1. The height counts
    /// modulo 65536.
    pub open spec fn spec_top_row(height: usize, arena: Arena) -> int {
        let half = ((height % 0x1_0000) as int) / 2;
        if arena.spec_centre().1 - half >= 1 {
            arena.spec_centre().1 - half
        } else {
            1
        }
    }

    /// Whether two graphs have the same columns, rows and sizes.
    pub open spec fn same_layout(&self, other: &Graph) -> bool {
        &&& self.divider == other.divider
        &&& self.width == other.width
        &&& self.height == other.height
        &&& self.command_col == other.command_col
        &&& self.arrow_col == other.arrow_col
        &&& self.result_col == other.result_col
        &&& self.big_arrow_col == other.big_arrow_col
        &&& self.running_col == other.running_col
        &&& self.modifier_col == other.modifier_col
        &&& self.equals_col == other.equals_col
        &&& self.sum_col == other.sum_col
        &&& self.top_row == other.top_row
        &&& self.first_result_row == other.first_result_row
        &&& self.command_row == other.command_row
        &&& self.running_row == other.running_row
    }

    /// Whether the parts of the graph stand where they belong about the
    /// given centre column, with the divider that belongs to the graph.
    pub open spec fn stands_about(&self, centre: int) -> bool {
        &&& self.divider@ == spec_divider()
        &&& self.command_col == spec_column(Part::Command, centre)
        &&& self.arrow_col == spec_column(Part::Arrow, centre)
        &&& self.result_col == spec_column(Part::Result, centre)
        &&& self.big_arrow_col == spec_column(Part::BigArrow, centre)
        &&& self.running_col == spec_column(Part::Running, centre)
        &&& self.modifier_col == spec_column(Part::Modifier, centre)
        &&& self.equals_col == spec_column(Part::Equals, centre)
        &&& self.sum_col == spec_column(Part::Sum, centre)
    }

    /// Whether the graph is the one laid out for the given height in the
    /// given arena: its parts stand about the centre column of the arena,
    /// the commands begin four rows below the top, and the sums three.
    pub open spec fn laid_out(&self, height: usize, arena: Arena) -> bool {
        let top = Self::spec_top_row(height, arena);
        &&& self.stands_about(arena.spec_centre().0 as int)
        &&& self.label@ == Seq::<char>::empty()
        &&& self.width == 36
        &&& self.height == height % 0x1_0000
        &&& self.top_row == top
        &&& self.first_result_row == top + 4
        &&& self.command_row == top + 4
        &&& self.running_row == top + 3
    }

    /// The layout of a graph of the given height in an arena that is at
    /// least 34 columns wide.
    pub fn new(height: usize, arena: &Arena) -> (graph: Graph)
        requires
            arena.spec_centre().0 >= 17,
        ensures
            graph.laid_out(height, *arena),
    {
        let (col, row) = terminal_centre(arena);
        let divider = "----------------------------------";
        let height: u16 = (height % 0x1_0000) as u16;
        let half: u16 = height / 2;
        let mut top_row: u16 = if row >= half {
            row - half
        } else {
            0
        };
        if top_row < 1 {
            top_row = 1;
        }
        Graph {
            label: String::new(),
            divider,
            width: Graph::WIDTH,
            height,
            command_col: col - 17,
            arrow_col: col - 8,
            result_col: col - 5,
            big_arrow_col: col - 2,
            running_col: col + 1,
            modifier_col: col + 6,
            equals_col: col + 11,
            sum_col: col + 13,
            top_row,
            first_result_row: top_row + 4,
            command_row: top_row + 4,
            running_row: top_row + 3,
        }
    }

    /// Blanks the area of the graph: a run of blanks, two wider than the
    /// graph, on every row from the top row to `height` rows below it.
    pub fn clear_area(&self) -> (prints: Vec<Print>)
        requires
            self.command_col >= 1,
            self.top_row + self.height <= u16::MAX,
            self.width + 2 <= u16::MAX,
        ensures
            prints@.len() == self.height + 1,
            forall|i: int|
                0 <= i < prints@.len() ==> spec_prints(
                    #[trigger] prints@[i],
                    (self.command_col - 1, self.top_row + i),
                    spec_blanks((self.width + 2) as nat),
                ),
    {
        let mut row_of_spaces = String::new();
        let mut filled: u16 = 0;
        while filled < self.width + 2
            invariant
                filled <= self.width + 2 <= u16::MAX,
                row_of_spaces@ == spec_blanks(filled as nat),
            decreases self.width + 2 - filled,
        {
            push_char(&mut row_of_spaces, ' ');
            filled += 1;
            assert(row_of_spaces@ == spec_blanks(filled as nat));
        }
        let mut prints: Vec<Print> = Vec::new();
        let mut done: u32 = 0;
        while done <= self.height as u32
            invariant
                done <= self.height + 1,
                self.top_row + self.height <= u16::MAX,
                self.command_col >= 1,
                row_of_spaces@ == spec_blanks((self.width + 2) as nat),
                prints@.len() == done,
                forall|i: int|
                    0 <= i < prints@.len() ==> spec_prints(
                        #[trigger] prints@[i],
                        (self.command_col - 1, self.top_row + i),
                        spec_blanks((self.width + 2) as nat),
                    ),
            decreases self.height + 1 - done,
        {
            let row: u16 = self.top_row + done as u16;
            prints.push(Print { at: (self.command_col - 1, row), text: row_of_spaces.clone() });
            done += 1;
        }
        prints
    }

    /// Heads the graph: the titles of the columns two rows below the top,
    /// the divider under them, and the label centred on the top row. The
    /// label is added to the one that the graph keeps.
    pub fn print_header(&mut self, label: &str, arena: &Arena) -> (prints: Vec<Print>)
        requires
            old(self).top_row + 3 <= u16::MAX,
        ensures
            final(self).same_layout(old(self)),
            final(self).label@ == old(self).label@ + label@,
            prints@.len() == 3,
            spec_prints(
                prints@[0],
                (old(self).command_col as int, old(self).top_row + 2),
                spec_header(),
            ),
            spec_prints(
                prints@[1],
                (old(self).command_col as int, old(self).top_row + 3),
                old(self).divider@,
            ),
            spec_prints(
                prints@[2],
                (spec_centre_column(label.len() as nat, *arena), old(self).top_row as int),
                label@,
            ),
    {
        let header = "Rolls    Results       Mod  Total";
        self.label.append(label);
        let mut prints: Vec<Print> = Vec::new();
        prints.push(
            Print { at: (self.command_col, self.top_row + 2), text: String::from_str(header) },
        );
        prints.push(
            Print {
                at: (self.command_col, self.top_row + 3),
                text: String::from_str(self.divider),
            },
        );
        prints.push(
            Print { at: (centre(label, arena), self.top_row), text: String::from_str(label) },
        );
        prints
    }

    /// Writes a command where the next command goes.
    pub fn print_command(&self, command: &str) -> (print: Print)
        ensures
            spec_prints(print, (self.command_col as int, self.command_row as int), command@),
    {
        Print { at: (self.command_col, self.command_row), text: String::from_str(command) }
    }

    /// Draws the arrow of the line `line` of the command, and returns with
    /// it the cell at which the face of that line goes.
    pub fn goto_result_line(&self, line: u16) -> (found: (Print, (u16, u16)))
        requires
            self.command_row + line <= u16::MAX,
        ensures
            spec_prints(found.0, (self.arrow_col as int, self.command_row + line), "->"@),
            found.1.0 == self.result_col,
            found.1.1 == self.command_row + line,
    {
        let row: u16 = self.command_row + line;
        (Print { at: (self.arrow_col, row), text: String::from_str("->") }, (self.result_col, row))
    }

    /// A modifier as the graph shows it: its sign, a blank, and its size.
    pub open spec fn spec_signed_modifier(modifier: i16) -> Seq<char> {
        (if modifier >= 0 {
            "+ "@
        } else {
            "- "@
        }) + spec_decimal(
            (if modifier >= 0 {
                modifier as int
            } else {
                -modifier
            }) as nat,
        )
    }

    /// Whether the prints are the sums of a line on the given row of a
    /// graph about the given centre column: an arrow, what the dice came
    /// to, the modifier, the two together and the sign of equality; under
    /// them the divider.
    pub open spec fn spec_totals_at(prints: Seq<Print>, centre: int, row: int, line: Line) -> bool {
        &&& prints.len() == 6
        &&& spec_prints(prints[0], (spec_column(Part::BigArrow, centre), row), "=>"@)
        &&& spec_prints(
            prints[1],
            (spec_column(Part::Running, centre), row),
            spec_signed(line.rolled as int),
        )
        &&& spec_prints(
            prints[2],
            (spec_column(Part::Modifier, centre), row),
            Self::spec_signed_modifier(line.modifier),
        )
        &&& spec_prints(
            prints[3],
            (spec_column(Part::Sum, centre), row),
            spec_signed(line.total as int),
        )
        &&& spec_prints(prints[4], (spec_column(Part::Equals, centre), row), "="@)
        &&& spec_prints(prints[5], (spec_column(Part::Command, centre), row + 1), spec_divider())
    }

    /// Writes the sums of a command on the row of the next sums: an arrow,
    /// what its dice came to, its modifier, the two together and the sign
    /// of equality; under them the divider. The next sums go one row
    /// further down.
    pub fn print_totals(&mut self, line: &Line) -> (prints: Vec<Print>)
        requires
            old(self).running_row + 1 <= u16::MAX,
        ensures
            *final(self) == (Graph {
                running_row: (old(self).running_row + 1) as u16,
                ..*old(self)
            }),
            forall|centre: int|
                old(self).stands_about(centre) ==> Self::spec_totals_at(
                    prints@,
                    centre,
                    old(self).running_row as int,
                    *line,
                ),
            prints@.len() == 6,
            spec_prints(
                prints@[0],
                (old(self).big_arrow_col as int, old(self).running_row as int),
                "=>"@,
            ),
            spec_prints(
                prints@[1],
                (old(self).running_col as int, old(self).running_row as int),
                spec_signed(line.rolled as int),
            ),
            spec_prints(
                prints@[2],
                (old(self).modifier_col as int, old(self).running_row as int),
                Self::spec_signed_modifier(line.modifier),
            ),
            spec_prints(
                prints@[3],
                (old(self).sum_col as int, old(self).running_row as int),
                spec_signed(line.total as int),
            ),
            spec_prints(
                prints@[4],
                (old(self).equals_col as int, old(self).running_row as int),
                "="@,
            ),
            spec_prints(
                prints@[5],
                (old(self).command_col as int, old(self).running_row + 1),
                old(self).divider@,
            ),
    {
        let row = self.running_row;
        let modifier = line.modifier;
        let mut rolled = String::new();
        push_signed(&mut rolled, line.rolled);
        let mut added = String::new();
        if modifier >= 0 {
            added.append("+ ");
            push_decimal(&mut added, modifier as u128);
        } else {
            added.append("- ");
            push_decimal(&mut added, (0 - modifier as i32) as u128);
        }
        let mut sum = String::new();
        push_signed(&mut sum, line.total);
        let mut prints: Vec<Print> = Vec::new();
        prints.push(Print { at: (self.big_arrow_col, row), text: String::from_str("=>") });
        prints.push(Print { at: (self.running_col, row), text: rolled });
        prints.push(Print { at: (self.modifier_col, row), text: added });
        prints.push(Print { at: (self.sum_col, row), text: sum });
        prints.push(Print { at: (self.equals_col, row), text: String::from_str("=") });
        prints.push(
            Print { at: (self.command_col, row + 1), text: String::from_str(self.divider) },
        );
        self.running_row += 1;
        prints
    }
}

} // verus!
