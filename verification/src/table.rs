//! The table that dice are rolled on: what is known of every die, and the
//! result that their faces add up to.

use crate::arena::Arena;
use crate::die::D;
use crate::display::{
    pending, plan, spec_fits, spec_is_pending, spec_is_plan, spec_pending_fits, GraphPlan,
    ShowError, ThrowPlan,
};
use crate::input_handling::Code;
use crate::order::{ascending, lemma_listing_is_unique, spec_ascending, spec_lists};
use crate::resolver::{
    advantage, assess, commands_of, disadvantage, full_sum, lemma_commands_match_log,
    percent_sum, spec_advantage, spec_assess, spec_commands_of, spec_disadvantage,
    spec_full_sum, spec_is_assessment, spec_percent_sum, Assessment, AssessmentError, Line,
    Mark, RollCommand,
};
use crate::summary::{spec_summary, summary};
use crate::text::spec_texts;
use crate::util::{is_two_digits, spec_is_two_digits};
use std::collections::HashMap;
use vstd::prelude::*;
use vstd::std_specs::hash::spec_keys_iter;
use vstd::std_specs::iter::IteratorSpec;

verus! {

broadcast use vstd::std_specs::hash::group_hash_axioms;

/// What to do on screen when a die reports: blank the cells it was shown
/// on, then show its face at the cell it is on now.
#[derive(Copy, Clone, Debug, PartialEq, Eq)]
pub struct Redraw {
    /// Where the old face begins.
    pub erase_at: (u16, u16),
    /// How many cells the old face takes: 1 or 2.
    pub erase_width: u8,
    /// Where the new face begins: one column before the die where it shows
    /// two digits on the last column.
    pub draw_at: (u16, u16),
    pub face: u16,
    /// Whether a second zero follows the face: the tens die showing 0.
    pub double_zero: bool,
}

/// Whether id and face are those of a tens die that shows its zero, which is
/// written "00". The tens die of a percentile roll is thrown first.
pub open spec fn spec_is_double_zero(id: usize, face: u16) -> bool {
    face == 0 && id == 0
}

/// The cell at which a face is drawn for a die at `position`: the cell of
/// the die, or the one before it for two digits on the last column.
pub open spec fn spec_draw_at(position: (u16, u16), face: u16, kind: D, arena: Arena) -> (
    u16,
    u16,
) {
    if position.0 == arena.spec_width() && spec_is_two_digits(face, kind) {
        ((position.0 - 1) as u16, position.1)
    } else {
        position
    }
}

/// The cell at which a face is drawn for a die at `position`.
pub fn draw_at(position: (u16, u16), face: u16, kind: D, arena: &Arena) -> (cell: (u16, u16))
    ensures
        cell == spec_draw_at(position, face, kind, *arena),
{
    let last_col = arena.width();
    if position.0 == last_col && is_two_digits(face, kind) {
        (position.0 - 1, position.1)
    } else {
        position
    }
}

/// What to draw for a die when the whole table is drawn again.
#[derive(Copy, Clone, Debug, PartialEq, Eq)]
pub struct Draw {
    /// Where the face begins.
    pub at: (u16, u16),
    pub face: u16,
    /// Whether a second zero follows the face.
    pub double_zero: bool,
}

/// What is known of a die that has reported.
#[derive(Copy, Clone, Debug, PartialEq, Eq)]
pub struct Known {
    pub id: usize,
    pub kind: D,
    pub face: u16,
    pub position: (u16, u16),
}

/// A face of a d20 to draw in colour: its 20 as the best, its 1 as the
/// worst.
#[derive(Copy, Clone, Debug, PartialEq, Eq)]
pub struct Crit {
    /// The cell of the die.
    pub at: (u16, u16),
    pub mark: Mark,
}

/// A key as the table tells keys apart once the dice have come to rest.
#[derive(Copy, Clone, Debug, PartialEq, Eq, Structural)]
pub enum Pressed {
    /// The escape key.
    Escape,
    /// The key that switches between the dice and the graph.
    Toggle,
    /// The key that asks for another roll.
    Again,
    /// Any other key.
    Other,
}

/// What to do about a key.
#[derive(Copy, Clone, Debug, PartialEq, Eq, Structural)]
pub enum Reaction {
    /// Leave the table for good.
    Leave,
    /// Draw the dice again in place of the graph.
    Redraw,
    /// Show the graph.
    ShowMath,
    /// Draw the dice again in place of the error, then show the graph.
    RedrawThenShowMath,
    /// Hand the result back and go on to the next roll.
    Reroll,
    Ignore,
}

/// What to do about a key, given what is on screen.
pub open spec fn spec_reaction(graph_on: bool, error_on: bool, key: Pressed) -> Reaction {
    match key {
        Pressed::Escape => Reaction::Leave,
        Pressed::Again => Reaction::Reroll,
        Pressed::Other => Reaction::Ignore,
        Pressed::Toggle => if graph_on {
            Reaction::Redraw
        } else if error_on {
            Reaction::RedrawThenShowMath
        } else {
            Reaction::ShowMath
        },
    }
}

/// The table: the roll that was asked for, and for every die its kind and,
/// once it has reported, its last cell and face.
pub struct Table {
    code: Code,
    command_log: Vec<String>,
    kinds: HashMap<usize, D>,
    tracker: HashMap<usize, (u16, u16)>,
    results: HashMap<usize, u16>,
    modifiers: Vec<i16>,
    graph_on: bool,
    error_on: bool,
}

impl Table {
    /// The rule of the roll.
    pub closed spec fn spec_code(&self) -> Code {
        self.code
    }

    /// Whether the graph of results is on screen.
    pub closed spec fn spec_graph_on(&self) -> bool {
        self.graph_on
    }

    /// Whether an error is on screen.
    pub closed spec fn spec_error_on(&self) -> bool {
        self.error_on
    }

    /// Whether the graph of results is on screen.
    #[verifier::when_used_as_spec(spec_graph_on)]
    pub fn graph_on(&self) -> (on: bool)
        ensures
            on == self.spec_graph_on(),
    {
        self.graph_on
    }

    /// Whether an error is on screen.
    #[verifier::when_used_as_spec(spec_error_on)]
    pub fn error_on(&self) -> (on: bool)
        ensures
            on == self.spec_error_on(),
    {
        self.error_on
    }

    /// The rule of the roll.
    #[verifier::when_used_as_spec(spec_code)]
    pub fn code(&self) -> (code: Code)
        ensures
            code == self.spec_code(),
    {
        self.code
    }

    /// The commands of the roll, each as `CdK+M`.
    pub closed spec fn spec_command_log(&self) -> Seq<Seq<char>> {
        spec_texts(self.command_log@)
    }

    /// The modifiers of the commands.
    pub closed spec fn spec_modifiers(&self) -> Seq<i16> {
        self.modifiers@
    }

    /// The kind of every die that was announced.
    pub closed spec fn spec_kinds(&self) -> Map<usize, D> {
        self.kinds@
    }

    /// The last cell of every die that has reported.
    pub closed spec fn spec_tracker(&self) -> Map<usize, (u16, u16)> {
        self.tracker@
    }

    /// The last face of every die that has reported.
    pub closed spec fn spec_results(&self) -> Map<usize, u16> {
        self.results@
    }

    /// A die that has reported has a cell, a face and a kind.
    pub closed spec fn wf(&self) -> bool {
        &&& self.results@.dom() == self.tracker@.dom()
        &&& self.results@.dom().subset_of(self.kinds@.dom())
    }

    /// A table on which nothing has been rolled yet.
    pub fn new(code: Code, modifiers: Vec<i16>, command_log: Vec<String>) -> (table: Table)
        ensures
            table.wf(),
            table.spec_code() == code,
            table.spec_modifiers() == modifiers@,
            table.spec_command_log() == spec_texts(command_log@),
            table.spec_kinds() == Map::<usize, D>::empty(),
            table.spec_tracker() == Map::<usize, (u16, u16)>::empty(),
            table.spec_results() == Map::<usize, u16>::empty(),
            !table.spec_graph_on(),
            !table.spec_error_on(),
    {
        Table {
            code,
            command_log,
            kinds: HashMap::new(),
            tracker: HashMap::new(),
            results: HashMap::new(),
            modifiers,
            graph_on: false,
            error_on: false,
        }
    }

    /// The same table but for the maps of the dice and the two flags.
    pub open spec fn same_roll(&self, other: &Table) -> bool {
        &&& self.spec_code() == other.spec_code()
        &&& self.spec_modifiers() == other.spec_modifiers()
        &&& self.spec_command_log() == other.spec_command_log()
    }

    /// Announces a die: notes the kind of the die with the given id.
    pub fn log_kind(&mut self, id: usize, kind: D)
        requires
            old(self).wf(),
        ensures
            final(self).wf(),
            final(self).spec_kinds() == old(self).spec_kinds().insert(id, kind),
            final(self).spec_tracker() == old(self).spec_tracker(),
            final(self).spec_results() == old(self).spec_results(),
            final(self).same_roll(old(self)),
            final(self).spec_graph_on() == old(self).spec_graph_on(),
            final(self).spec_error_on() == old(self).spec_error_on(),
    {
        self.kinds.insert(id, kind);
    }

    /// Whether the die with the given id was announced.
    pub fn knows(&self, id: usize) -> (known: bool)
        ensures
            known == self.spec_kinds().contains_key(id),
    {
        self.kinds.contains_key(&id)
    }

    /// What a report changes on screen.
    pub open spec fn spec_redraw(
        &self,
        id: usize,
        face: u16,
        position: (u16, u16),
        arena: Arena,
    ) -> Redraw {
        let kind = self.spec_kinds()[id];
        Redraw {
            erase_at: if self.spec_tracker().contains_key(id) {
                self.spec_tracker()[id]
            } else {
                position
            },
            erase_width: if self.spec_results().contains_key(id) && spec_is_two_digits(
                self.spec_results()[id],
                kind,
            ) {
                2u8
            } else {
                1u8
            },
            draw_at: spec_draw_at(position, face, kind, arena),
            face,
            double_zero: spec_is_double_zero(id, face),
        }
    }

    /// Takes the report of a die: its cell and face replace what was known
    /// of it. Returns what is to change on screen.
    pub fn update(
        &mut self,
        id: usize,
        face: u16,
        new_position: (u16, u16),
        arena: &Arena,
    ) -> (redraw: Redraw)
        requires
            old(self).wf(),
            old(self).spec_kinds().contains_key(id),
        ensures
            final(self).wf(),
            final(self).spec_tracker() == old(self).spec_tracker().insert(id, new_position),
            final(self).spec_results() == old(self).spec_results().insert(id, face),
            final(self).spec_kinds() == old(self).spec_kinds(),
            final(self).same_roll(old(self)),
            final(self).spec_graph_on() == old(self).spec_graph_on(),
            final(self).spec_error_on() == old(self).spec_error_on(),
            redraw == old(self).spec_redraw(id, face, new_position, *arena),
    {
        let erase_at = match self.tracker.insert(id, new_position) {
            Some(cell) => cell,
            None => new_position,
        };
        let kind = *self.kinds.get(&id).unwrap();
        let mut erase_width: u8 = 1;
        if let Some(old_face) = self.results.insert(id, face) {
            if is_two_digits(old_face, kind) {
                erase_width = 2;
            }
        }
        Redraw {
            erase_at,
            erase_width,
            draw_at: draw_at(new_position, face, kind, arena),
            face,
            double_zero: face == 0 && id == 0,
        }
    }

    /// The ids of the dice that have reported, from the smallest to the
    /// largest.
    pub open spec fn spec_ids(&self) -> Seq<usize> {
        spec_ascending(self.spec_results().dom())
    }

    /// The last faces of the dice that have reported, in the order of their
    /// ids.
    pub open spec fn spec_faces(&self) -> Seq<u16> {
        Seq::new(self.spec_ids().len(), |i: int| self.spec_results()[self.spec_ids()[i]])
    }

    /// The ids of the dice that have reported, from the smallest to the
    /// largest.
    pub fn ids(&self) -> (ids: Vec<usize>)
        ensures
            ids@ == self.spec_ids(),
            spec_lists(ids@, self.spec_results().dom()),
    {
        let mut keys: Vec<usize> = Vec::new();
        let ghost listed = spec_keys_iter(&self.results).remaining();
        for key in it: self.results.keys()
            invariant
                it.seq() == listed,
                keys@ == listed.unref().take(it.index() as int),
        {
            keys.push(*key);
            assert(keys@ == listed.unref().take(it.index() + 1));
        }
        assert(keys@ == listed.unref());
        assert(keys@.no_duplicates()) by {
            assert forall|i: int, j: int|
                0 <= i < keys@.len() && 0 <= j < keys@.len() && i != j implies keys@[i]
                != keys@[j] by {
                assert(listed[i] != listed[j]);
            }
        }
        let sorted = ascending(&keys);
        proof {
            lemma_listing_is_unique(sorted@, self.spec_ids(), self.results@.dom());
        }
        sorted
    }

    /// The last faces of the dice that have reported, in the order of their
    /// ids.
    pub fn faces(&self) -> (faces: Vec<u16>)
        ensures
            faces@ == self.spec_faces(),
    {
        let ids = self.ids();
        let mut faces: Vec<u16> = Vec::new();
        let mut i: usize = 0;
        while i < ids.len()
            invariant
                i <= ids@.len(),
                ids@ == self.spec_ids(),
                spec_lists(ids@, self.results@.dom()),
                faces@.len() == i,
                forall|j: int| 0 <= j < i ==> faces@[j] == self.results@[ids@[j]],
            decreases ids@.len() - i,
        {
            assert(ids@.contains(ids@[i as int]));
            let face = *self.results.get(&ids[i]).unwrap();
            faces.push(face);
            i += 1;
        }
        faces
    }

    /// The commands of the roll as they are read from its log.
    pub open spec fn spec_commands(&self) -> Result<Seq<RollCommand>, AssessmentError> {
        spec_commands_of(self.spec_command_log(), self.spec_modifiers())
    }

    /// The commands of the roll as they are read from its log.
    pub fn commands(&self) -> (commands: Result<Vec<RollCommand>, AssessmentError>)
        ensures
            match commands {
                Ok(read) => self.spec_commands() == Ok::<Seq<RollCommand>, AssessmentError>(read@),
                Err(error) => self.spec_commands() == Err::<Seq<RollCommand>, AssessmentError>(
                    error,
                ),
            },
    {
        commands_of(&self.command_log, &self.modifiers)
    }

    /// The sum of all faces on the table and of all modifiers.
    pub fn full_sum(&self) -> (sum: i128)
        ensures
            sum == spec_full_sum(self.spec_faces(), self.spec_modifiers()),
    {
        full_sum(&self.faces(), &self.modifiers)
    }

    /// The face that counts with advantage.
    pub fn advantage(&self) -> (picked: Result<u16, AssessmentError>)
        ensures
            picked == spec_advantage(self.spec_faces()),
    {
        advantage(&self.faces())
    }

    /// The face that counts with disadvantage.
    pub fn disadvantage(&self) -> (picked: Result<u16, AssessmentError>)
        ensures
            picked == spec_disadvantage(self.spec_faces()),
    {
        disadvantage(&self.faces())
    }

    /// The sum of a percentile roll.
    pub fn percent_sum(&self) -> (sum: Result<u32, AssessmentError>)
        ensures
            sum == spec_percent_sum(self.spec_faces()),
    {
        percent_sum(&self.faces())
    }

    /// The result of the roll, or the reason why the table gives none: its
    /// commands cannot be read, or its dice do not give a result.
    pub open spec fn spec_assessment(&self) -> Result<(Seq<Line>, int), AssessmentError> {
        match self.spec_commands() {
            Err(error) => Err(error),
            Ok(commands) => spec_assess(self.spec_code(), self.spec_faces(), commands),
        }
    }

    /// The result of the roll from the faces that lie on the table.
    pub fn assessment(&self) -> (outcome: Result<Assessment, AssessmentError>)
        ensures
            spec_is_assessment(outcome, self.spec_assessment()),
    {
        match self.commands() {
            Err(error) => Err(error),
            Ok(commands) => assess(self.code, &self.faces(), &commands),
        }
    }

    /// The result of the roll on one line of text.
    pub open spec fn spec_do_math(&self) -> Result<Seq<char>, AssessmentError> {
        match self.spec_commands() {
            Err(error) => Err(error),
            Ok(commands) => spec_summary(self.spec_code(), self.spec_faces(), commands),
        }
    }

    /// The result of the roll on one line of text.
    pub fn do_math(&self) -> (line: Result<String, AssessmentError>)
        ensures
            match line {
                Ok(text) => self.spec_do_math() == Ok::<Seq<char>, AssessmentError>(text@),
                Err(error) => self.spec_do_math() == Err::<Seq<char>, AssessmentError>(error),
            },
    {
        match self.commands() {
            Err(error) => Err(error),
            Ok(commands) => summary(self.code, &self.faces(), &commands),
        }
    }

    /// What is known of a die that has reported.
    pub open spec fn spec_known(&self, id: usize) -> Known {
        Known {
            id,
            kind: self.spec_kinds()[id],
            face: self.spec_results()[id],
            position: self.spec_tracker()[id],
        }
    }

    /// What is known of the dice that have reported, in the order of their
    /// ids: while they roll, where each was last seen; once they have come
    /// to rest, where each lies and what it shows.
    pub fn snapshot(&self) -> (dice: Vec<Known>)
        requires
            self.wf(),
        ensures
            dice@ == Seq::new(self.spec_ids().len(), |i: int| self.spec_known(self.spec_ids()[i])),
    {
        let ids = self.ids();
        let mut dice: Vec<Known> = Vec::new();
        let mut i: usize = 0;
        while i < ids.len()
            invariant
                i <= ids@.len(),
                self.wf(),
                ids@ == self.spec_ids(),
                spec_lists(ids@, self.results@.dom()),
                dice@.len() == i,
                forall|j: int| 0 <= j < i ==> dice@[j] == self.spec_known(ids@[j]),
            decreases ids@.len() - i,
        {
            let id = ids[i];
            assert(ids@.contains(id));
            dice.push(
                Known {
                    id,
                    kind: *self.kinds.get(&id).unwrap(),
                    face: *self.results.get(&id).unwrap(),
                    position: *self.tracker.get(&id).unwrap(),
                },
            );
            i += 1;
        }
        dice
    }

    /// What is drawn for a die that has reported.
    pub open spec fn spec_draw(&self, id: usize, arena: Arena) -> Draw {
        Draw {
            at: spec_draw_at(
                self.spec_tracker()[id],
                self.spec_results()[id],
                self.spec_kinds()[id],
                arena,
            ),
            face: self.spec_results()[id],
            double_zero: spec_is_double_zero(id, self.spec_results()[id]),
        }
    }

    /// Draws the whole table again: returns what to draw for every die that
    /// has reported, in the order of the ids. Neither the graph nor an
    /// error is on screen afterwards.
    pub fn redraw(&mut self, arena: &Arena) -> (draws: Vec<Draw>)
        requires
            old(self).wf(),
        ensures
            final(self).wf(),
            final(self).spec_kinds() == old(self).spec_kinds(),
            final(self).spec_tracker() == old(self).spec_tracker(),
            final(self).spec_results() == old(self).spec_results(),
            final(self).same_roll(old(self)),
            !final(self).spec_graph_on(),
            !final(self).spec_error_on(),
            draws@ == Seq::new(
                old(self).spec_ids().len(),
                |i: int| old(self).spec_draw(old(self).spec_ids()[i], *arena),
            ),
    {
        let ids = self.ids();
        let mut draws: Vec<Draw> = Vec::new();
        let mut i: usize = 0;
        while i < ids.len()
            invariant
                i <= ids@.len(),
                self.wf(),
                *self == *old(self),
                ids@ == self.spec_ids(),
                spec_lists(ids@, self.results@.dom()),
                draws@.len() == i,
                forall|j: int| 0 <= j < i ==> draws@[j] == self.spec_draw(ids@[j], *arena),
            decreases ids@.len() - i,
        {
            let id = ids[i];
            assert(ids@.contains(id));
            let face = *self.results.get(&id).unwrap();
            let position = *self.tracker.get(&id).unwrap();
            let kind = *self.kinds.get(&id).unwrap();
            draws.push(
                Draw {
                    at: draw_at(position, face, kind, arena),
                    face,
                    double_zero: face == 0 && id == 0,
                },
            );
            i += 1;
        }
        self.graph_on = false;
        self.error_on = false;
        draws
    }

    /// The face of a die to draw in colour, if it is the 20 or the 1 of a
    /// d20.
    pub open spec fn spec_crit(&self, id: usize) -> Option<Crit> {
        if self.spec_kinds()[id] != D::Twenty {
            None
        } else if self.spec_results()[id] == 20 {
            Some(Crit { at: self.spec_tracker()[id], mark: Mark::Best })
        } else if self.spec_results()[id] == 1 {
            Some(Crit { at: self.spec_tracker()[id], mark: Mark::Worst })
        } else {
            None
        }
    }

    /// The faces to draw in colour among the first `upto` dice that have
    /// reported.
    pub open spec fn spec_crits(&self, upto: int) -> Seq<Crit>
        decreases upto,
    {
        if upto <= 0 || upto > self.spec_ids().len() {
            Seq::empty()
        } else {
            match self.spec_crit(self.spec_ids()[upto - 1]) {
                Some(crit) => self.spec_crits(upto - 1).push(crit),
                None => self.spec_crits(upto - 1),
            }
        }
    }

    /// The faces to draw in colour: the 20s and the 1s of the d20s that have
    /// reported, in the order of the ids.
    pub fn crit_colour(&self) -> (crits: Vec<Crit>)
        requires
            self.wf(),
        ensures
            crits@ == self.spec_crits(self.spec_ids().len() as int),
    {
        let ids = self.ids();
        let mut crits: Vec<Crit> = Vec::new();
        let mut i: usize = 0;
        while i < ids.len()
            invariant
                i <= ids@.len(),
                self.wf(),
                ids@ == self.spec_ids(),
                spec_lists(ids@, self.results@.dom()),
                crits@ == self.spec_crits(i as int),
            decreases ids@.len() - i,
        {
            let id = ids[i];
            assert(ids@.contains(id));
            let kind = *self.kinds.get(&id).unwrap();
            if kind == D::Twenty {
                let face = *self.results.get(&id).unwrap();
                let at = *self.tracker.get(&id).unwrap();
                if face == 20 {
                    crits.push(Crit { at, mark: Mark::Best });
                } else if face == 1 {
                    crits.push(Crit { at, mark: Mark::Worst });
                }
            }
            i += 1;
        }
        crits
    }

    /// Notes that an error is on screen in place of the graph.
    pub fn print_error(&mut self)
        requires
            old(self).wf(),
        ensures
            final(self).wf(),
            final(self).spec_kinds() == old(self).spec_kinds(),
            final(self).spec_tracker() == old(self).spec_tracker(),
            final(self).spec_results() == old(self).spec_results(),
            final(self).same_roll(old(self)),
            !final(self).spec_graph_on(),
            final(self).spec_error_on(),
    {
        self.graph_on = false;
        self.error_on = true;
    }

    /// Whether the graph of the result fits into the arena.
    pub open spec fn spec_graph_fits(&self, arena: Arena) -> bool {
        spec_fits(arena, self.spec_faces().len(), self.spec_command_log().len())
    }

    /// Whether the plan is the graph of the result of this table.
    pub open spec fn spec_shows(&self, plan: GraphPlan, arena: Arena) -> bool {
        match (self.spec_commands(), self.spec_assessment()) {
            (Ok(commands), Ok((lines, total))) => spec_is_plan(
                plan,
                arena,
                self.spec_code(),
                self.spec_command_log(),
                self.spec_faces(),
                commands,
                lines,
                total,
            ),
            _ => false,
        }
    }

    /// Works the result out and lays it out as a graph. The graph is on
    /// screen afterwards, and an error no more. Where the graph does not fit
    /// into the arena, or the roll has no result, the table stays as it
    /// is.
    pub fn show_math(&mut self, arena: &Arena) -> (shown: Result<GraphPlan, ShowError>)
        ensures
            final(self).spec_kinds() == old(self).spec_kinds(),
            final(self).spec_tracker() == old(self).spec_tracker(),
            final(self).spec_results() == old(self).spec_results(),
            final(self).same_roll(old(self)),
            old(self).wf() ==> final(self).wf(),
            match shown {
                Err(ShowError::WindowTooSmall) => !old(self).spec_graph_fits(*arena),
                Err(ShowError::Assessment(error)) => old(self).spec_graph_fits(*arena)
                    && old(self).spec_assessment() == Err::<(Seq<Line>, int), AssessmentError>(
                    error,
                ),
                Ok(plan) => old(self).spec_graph_fits(*arena) && old(self).spec_shows(plan, *arena),
            },
            shown is Ok ==> final(self).spec_graph_on() && !final(self).spec_error_on(),
            shown is Err ==> final(self).spec_graph_on() == old(self).spec_graph_on()
                && final(self).spec_error_on() == old(self).spec_error_on(),
    {
        let faces = self.faces();
        let dice = faces.len();
        let count = self.command_log.len();
        let max_cols = arena.width();
        let max_rows = arena.height();
        if dice > 0xffff || count > 0xffff {
            return Err(ShowError::WindowTooSmall);
        }
        let needed: u32 = dice as u32 + count as u32 + 7;
        if needed > max_rows as u32 || needed >= 0xffff || max_cols < 36 {
            return Err(ShowError::WindowTooSmall);
        }
        let commands = match self.commands() {
            Ok(commands) => commands,
            Err(error) => {
                return Err(ShowError::Assessment(error));
            },
        };
        let assessment = match assess(self.code, &faces, &commands) {
            Ok(assessment) => assessment,
            Err(error) => {
                return Err(ShowError::Assessment(error));
            },
        };
        proof {
            lemma_commands_match_log(
                self.spec_command_log(),
                self.spec_modifiers(),
                self.spec_command_log().len() as int,
            );
        }
        let plan = plan(arena, self.code, &self.command_log, &faces, &commands, &assessment);
        self.graph_on = true;
        self.error_on = false;
        Ok(plan)
    }

    /// What to do about a key, given what is on screen.
    pub fn react(&self, key: Pressed) -> (reaction: Reaction)
        ensures
            reaction == spec_reaction(self.spec_graph_on(), self.spec_error_on(), key),
    {
        match key {
            Pressed::Escape => Reaction::Leave,
            Pressed::Again => Reaction::Reroll,
            Pressed::Other => Reaction::Ignore,
            Pressed::Toggle => if self.graph_on {
                Reaction::Redraw
            } else if self.error_on {
                Reaction::RedrawThenShowMath
            } else {
                Reaction::ShowMath
            },
        }
    }

    /// The kinds that are known once the first `upto` dice of a roll are
    /// announced: the die at place `i` of the list has the id `i`.
    pub open spec fn spec_announced(kinds: Map<usize, D>, dice: Seq<D>, upto: int) -> Map<
        usize,
        D,
    >
        decreases upto,
    {
        if upto <= 0 || upto > dice.len() {
            kinds
        } else {
            Self::spec_announced(kinds, dice, upto - 1).insert((upto - 1) as usize, dice[upto - 1])
        }
    }

    /// Announces the dice of a roll: the die at place `i` of the list gets
    /// the id `i`.
    pub fn announce(&mut self, dice: &Vec<D>)
        requires
            old(self).wf(),
        ensures
            final(self).wf(),
            final(self).spec_kinds() == Self::spec_announced(
                old(self).spec_kinds(),
                dice@,
                dice@.len() as int,
            ),
            final(self).spec_tracker() == old(self).spec_tracker(),
            final(self).spec_results() == old(self).spec_results(),
            final(self).same_roll(old(self)),
            final(self).spec_graph_on() == old(self).spec_graph_on(),
            final(self).spec_error_on() == old(self).spec_error_on(),
    {
        let mut id: usize = 0;
        while id < dice.len()
            invariant
                id <= dice@.len(),
                self.wf(),
                self.spec_kinds() == Self::spec_announced(old(self).spec_kinds(), dice@, id as int),
                self.spec_tracker() == old(self).spec_tracker(),
                self.spec_results() == old(self).spec_results(),
                self.same_roll(old(self)),
                self.spec_graph_on() == old(self).spec_graph_on(),
                self.spec_error_on() == old(self).spec_error_on(),
            decreases dice@.len() - id,
        {
            self.log_kind(id, dice[id]);
            id += 1;
        }
    }

    /// What to show before the dice are thrown: the commands of the roll in
    /// the middle of the arena, a bar under them and the prompt; nothing if
    /// that does not fit into the arena.
    pub fn print_throw(&self, arena: &Arena) -> (plan: Option<ThrowPlan>)
        ensures
            match plan {
                Some(plan) => spec_pending_fits(*arena, self.spec_command_log().len())
                    && spec_is_pending(plan, *arena, self.spec_code(), self.spec_command_log()),
                None => !spec_pending_fits(*arena, self.spec_command_log().len()),
            },
    {
        pending(arena, self.code, &self.command_log)
    }
}

} // verus!
