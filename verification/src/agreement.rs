//! What the reader of commands hands over, the table can take: a roll that
//! was asked for can be read from its log and, once its dice have come to
//! rest, has a result.

use crate::die::D;
use crate::input_handling::{
    lemma_label_reads_back, spec_add_command, spec_add_commands, spec_command_label,
    spec_command_values, spec_dice_of, spec_parse_commands, spec_prefixed, spec_validate, Code,
    CommandError, Roll,
};
use crate::resolver::{
    spec_assess, spec_commands_of, spec_dice_before, spec_read_commands, AssessmentError,
    RollCommand,
};
use crate::text::spec_split;
use vstd::prelude::*;

verus! {

/// The kind that the text of a command gives for a kind: the ones die of a
/// percentile roll is written as a d100, which reads as its tens die.
pub open spec fn spec_kind_as_read(kind: D) -> D {
    if kind == D::PercentOnes {
        D::PercentTens
    } else {
        kind
    }
}

/// What is read from the first entries of a log depends on those entries
/// and their modifiers alone.
pub proof fn lemma_read_commands_of_prefix(
    log: Seq<Seq<char>>,
    modifiers: Seq<i16>,
    longer_log: Seq<Seq<char>>,
    longer_modifiers: Seq<i16>,
    upto: int,
)
    requires
        0 <= upto <= log.len(),
        upto <= modifiers.len(),
        upto <= longer_log.len(),
        upto <= longer_modifiers.len(),
        forall|i: int| 0 <= i < upto ==> log[i] == longer_log[i],
        forall|i: int| 0 <= i < upto ==> modifiers[i] == longer_modifiers[i],
    ensures
        spec_read_commands(log, modifiers, upto) == spec_read_commands(
            longer_log,
            longer_modifiers,
            upto,
        ),
    decreases upto,
{
    if upto > 0 {
        lemma_read_commands_of_prefix(log, modifiers, longer_log, longer_modifiers, upto - 1);
    }
}

/// The dice that the first commands ask for depend on those commands
/// alone.
pub proof fn lemma_dice_before_of_prefix(
    commands: Seq<RollCommand>,
    longer: Seq<RollCommand>,
    upto: int,
)
    requires
        0 <= upto <= commands.len(),
        upto <= longer.len(),
        forall|i: int| 0 <= i < upto ==> commands[i] == longer[i],
    ensures
        spec_dice_before(commands, upto) == spec_dice_before(longer, upto),
    decreases upto,
{
    if upto > 0 {
        lemma_dice_before_of_prefix(commands, longer, upto - 1);
    }
}

/// Whether the table can take a roll of so many commands: its log reads as
/// one command for each entry, with the modifiers of the roll; a normal
/// roll throws the dice that its commands ask for, and any other roll has
/// one command and throws two dice.
pub open spec fn spec_agrees(roll: Roll, count: int) -> bool {
    &&& roll.command_log.len() == count
    &&& roll.modifiers.len() == count
    &&& match spec_read_commands(roll.command_log, roll.modifiers, count) {
        Ok(commands) => {
            &&& commands.len() == count
            &&& if roll.code == Code::Normal {
                spec_dice_before(commands, count) == roll.dice.len()
            } else {
                count == 1 && roll.dice.len() == 2
            }
        },
        Err(_) => false,
    }
}

/// The roll that the first `upto` commands of a line ask for is one that
/// the table can take.
pub proof fn lemma_commands_agree(pieces: Seq<Seq<char>>, upto: int)
    requires
        0 <= upto <= pieces.len(),
        spec_add_commands(pieces, upto) is Ok,
    ensures
        spec_agrees(spec_add_commands(pieces, upto)->Ok_0, upto),
    decreases upto,
{
    if upto > 0 {
        let before = spec_add_commands(pieces, upto - 1)->Ok_0;
        lemma_commands_agree(pieces, upto - 1);
        let after = spec_add_command(before, pieces[upto - 1], pieces.len() as int)->Ok_0;
        assert(spec_add_commands(pieces, upto) == Ok::<Roll, CommandError>(after));
        let (asked, text) = spec_prefixed(pieces[upto - 1], before.code);
        let (coefficient, kind, modifier) = spec_command_values(text)->Ok_0;
        let code = after.code;
        assert(spec_validate(code, coefficient, kind, modifier, pieces.len() as int) is Ok);
        let label = spec_command_label(coefficient, kind, modifier);
        lemma_label_reads_back(coefficient, kind, modifier);
        assert(after.command_log == before.command_log.push(label));
        assert(after.modifiers == before.modifiers.push(modifier));
        lemma_read_commands_of_prefix(
            before.command_log,
            before.modifiers,
            after.command_log,
            after.modifiers,
            upto - 1,
        );
        let earlier = spec_read_commands(before.command_log, before.modifiers, upto - 1)->Ok_0;
        let read = RollCommand { coefficient, kind: spec_kind_as_read(kind), modifier };
        let commands = earlier.push(read);
        assert(spec_read_commands(after.command_log, after.modifiers, upto) == Ok::<
            Seq<RollCommand>,
            AssessmentError,
        >(commands));
        lemma_dice_before_of_prefix(earlier, commands, upto - 1);
        assert(after.dice == before.dice + spec_dice_of(code, coefficient, kind));
        if code != Code::Normal {
            // such a roll stands alone
            assert(pieces.len() == 1);
            assert(before.dice.len() == 0);
        } else {
            assert(before.code == Code::Normal);
        }
    } else {
        assert(spec_read_commands(
            spec_add_commands(pieces, upto)->Ok_0.command_log,
            spec_add_commands(pieces, upto)->Ok_0.modifiers,
            0,
        ) == Ok::<Seq<RollCommand>, AssessmentError>(Seq::empty()));
    }
}

/// A roll that a line asks for can be read from its log by the table, and
/// has a result as soon as each of its dice shows a face.
pub proof fn lemma_parsed_roll_has_a_result(line: Seq<char>, faces: Seq<u16>)
    requires
        spec_parse_commands(line) is Ok,
        faces.len() == spec_parse_commands(line)->Ok_0.dice.len(),
    ensures
        ({
            let roll = spec_parse_commands(line)->Ok_0;
            &&& spec_commands_of(roll.command_log, roll.modifiers) is Ok
            &&& spec_assess(
                roll.code,
                faces,
                spec_commands_of(roll.command_log, roll.modifiers)->Ok_0,
            ) is Ok
        }),
{
    let pieces = spec_split(line, ',', '/', 0);
    lemma_commands_agree(pieces, pieces.len() as int);
}

} // verus!
