//! From the faces that the dice came to rest on to the result of the roll.

use crate::die::D;
use crate::input_handling::{get_command_values, spec_command_values, Code};
use crate::text::spec_texts;
use vstd::prelude::*;

verus! {

/// One command of a roll: how many dice, of which kind, and what is added
/// to their sum.
#[derive(Clone, Copy, Debug, PartialEq, Eq, Structural)]
pub struct RollCommand {
    pub coefficient: u16,
    pub kind: D,
    pub modifier: i16,
}

/// Why the faces on the table give no result.
#[derive(Clone, Copy, Debug, PartialEq, Eq, Structural)]
pub enum AssessmentError {
    /// More than two dice on a roll with advantage or disadvantage or on a
    /// percentile roll.
    TooManyDice,
    /// Fewer than two dice on a roll with advantage or disadvantage or on
    /// a percentile roll.
    TooFewDice,
    /// No command to take the modifier from.
    NoCommand,
    /// A command on the table that cannot be read.
    UnreadableCommand,
    /// The modifiers on the table are not those of its commands.
    ModifierMismatch,
    /// On a normal roll, more or fewer dice than the commands ask for.
    DiceMismatch,
}

impl AssessmentError {
    /// The message shown for the error.
    pub open spec fn spec_message(&self) -> &'static str {
        match self {
            AssessmentError::TooManyDice => "Cannot assess this roll on more than two dice",
            AssessmentError::TooFewDice => "Cannot assess this roll on fewer than two dice",
            AssessmentError::NoCommand => "Cannot assess a roll without a command",
            AssessmentError::UnreadableCommand => "Cannot read the commands of this roll",
            AssessmentError::ModifierMismatch => "The modifiers do not match the commands",
            AssessmentError::DiceMismatch => "The dice do not match the commands",
        }
    }

    /// The message shown for the error.
    #[verifier::when_used_as_spec(spec_message)]
    pub fn message(&self) -> (text: &'static str)
        ensures
            text == self.spec_message(),
    {
        match self {
            AssessmentError::TooManyDice => "Cannot assess this roll on more than two dice",
            AssessmentError::TooFewDice => "Cannot assess this roll on fewer than two dice",
            AssessmentError::NoCommand => "Cannot assess a roll without a command",
            AssessmentError::UnreadableCommand => "Cannot read the commands of this roll",
            AssessmentError::ModifierMismatch => "The modifiers do not match the commands",
            AssessmentError::DiceMismatch => "The dice do not match the commands",
        }
    }
}

/// One line of a result: what the dice of a command came to, the modifier
/// of the command, and the two together.
#[derive(Clone, Copy, Debug, PartialEq, Eq, Structural)]
pub struct Line {
    pub rolled: i128,
    pub modifier: i16,
    pub total: i128,
}

/// The result of a roll: a line for every command of a normal roll, one
/// line for any other roll, and the sum of the lines.
#[derive(Clone, Debug, PartialEq, Eq)]
pub struct Assessment {
    pub lines: Vec<Line>,
    pub total: i128,
}

/// How a face stands out: the highest face of a d20 as the best, its 1 as
/// the worst.
#[derive(Clone, Copy, Debug, PartialEq, Eq, Structural)]
pub enum Mark {
    Plain,
    Best,
    Worst,
}

/// The sum of the faces from `from` up to, not including, `to`.
pub open spec fn spec_sum(faces: Seq<u16>, from: int, to: int) -> int
    decreases to - from,
{
    if to <= from || from < 0 || to > faces.len() {
        0
    } else {
        spec_sum(faces, from, to - 1) + faces[to - 1]
    }
}

/// The sum of the first `upto` modifiers.
pub open spec fn spec_sum_modifiers(modifiers: Seq<i16>, upto: int) -> int
    decreases upto,
{
    if upto <= 0 || upto > modifiers.len() {
        0
    } else {
        spec_sum_modifiers(modifiers, upto - 1) + modifiers[upto - 1]
    }
}

/// The sum of all faces and all modifiers.
pub open spec fn spec_full_sum(faces: Seq<u16>, modifiers: Seq<i16>) -> int {
    spec_sum(faces, 0, faces.len() as int) + spec_sum_modifiers(modifiers, modifiers.len() as int)
}

/// Whether the faces are too many or too few for a roll of exactly two
/// dice.
pub open spec fn spec_pick_error(faces: Seq<u16>) -> Option<AssessmentError> {
    if faces.len() > 2 {
        Some(AssessmentError::TooManyDice)
    } else if faces.len() < 2 {
        Some(AssessmentError::TooFewDice)
    } else {
        None
    }
}

/// With advantage the higher of the two faces counts.
pub open spec fn spec_advantage(faces: Seq<u16>) -> Result<u16, AssessmentError> {
    match spec_pick_error(faces) {
        Some(error) => Err(error),
        None => Ok(
            if faces[0] >= faces[1] {
                faces[0]
            } else {
                faces[1]
            },
        ),
    }
}

/// With disadvantage the lower of the two faces counts.
pub open spec fn spec_disadvantage(faces: Seq<u16>) -> Result<u16, AssessmentError> {
    match spec_pick_error(faces) {
        Some(error) => Err(error),
        None => Ok(
            if faces[0] <= faces[1] {
                faces[0]
            } else {
                faces[1]
            },
        ),
    }
}

/// On a percentile roll the tens and the ones are added, and two zeros
/// make 100.
pub open spec fn spec_percent_sum(faces: Seq<u16>) -> Result<u32, AssessmentError> {
    match spec_pick_error(faces) {
        Some(error) => Err(error),
        None => Ok(
            if faces[0] + faces[1] == 0 {
                100u32
            } else {
                (faces[0] + faces[1]) as u32
            },
        ),
    }
}

/// The number of dice that the first `upto` commands ask for.
pub open spec fn spec_dice_before(commands: Seq<RollCommand>, upto: int) -> int
    decreases upto,
{
    if upto <= 0 || upto > commands.len() {
        0
    } else {
        spec_dice_before(commands, upto - 1) + commands[upto - 1].coefficient
    }
}

/// The line of a command: the sum of the faces of its dice, its modifier,
/// and the two together.
pub open spec fn spec_line(rolled: int, modifier: i16) -> Line {
    Line { rolled: rolled as i128, modifier, total: (rolled + modifier) as i128 }
}

/// The line of command `k` of a normal roll. The dice lie in the order of
/// the commands: each command takes as many faces as its coefficient says,
/// from where the one before it stopped.
pub open spec fn spec_normal_line(faces: Seq<u16>, commands: Seq<RollCommand>, k: int) -> Line {
    spec_line(
        spec_sum(faces, spec_dice_before(commands, k), spec_dice_before(commands, k + 1)),
        commands[k].modifier,
    )
}

/// The lines of a normal roll.
pub open spec fn spec_normal_lines(faces: Seq<u16>, commands: Seq<RollCommand>) -> Seq<Line> {
    Seq::new(commands.len(), |k: int| spec_normal_line(faces, commands, k))
}

/// The sum of the totals of the first `upto` lines.
pub open spec fn spec_total(lines: Seq<Line>, upto: int) -> int
    decreases upto,
{
    if upto <= 0 || upto > lines.len() {
        0
    } else {
        spec_total(lines, upto - 1) + lines[upto - 1].total
    }
}

/// The lines of a result with the sum of their totals.
pub open spec fn spec_summed(lines: Seq<Line>) -> (Seq<Line>, int) {
    (lines, spec_total(lines, lines.len() as int))
}

/// The result of a roll: its lines and their sum, or the reason why there
/// is none.
///
/// A normal roll has a line for every command and needs exactly the dice
/// that its commands ask for. Any other roll needs a command and exactly
/// two dice, and has one line, of the face that counts and the modifier
/// of the first command.
pub open spec fn spec_assess(code: Code, faces: Seq<u16>, commands: Seq<RollCommand>) -> Result<
    (Seq<Line>, int),
    AssessmentError,
> {
    match code {
        Code::Normal => if spec_dice_before(commands, commands.len() as int) != faces.len() {
            Err(AssessmentError::DiceMismatch)
        } else {
            Ok(spec_summed(spec_normal_lines(faces, commands)))
        },
        Code::Advantage => if commands.len() == 0 {
            Err(AssessmentError::NoCommand)
        } else {
            match spec_advantage(faces) {
                Err(error) => Err(error),
                Ok(picked) => Ok(spec_summed(seq![spec_line(picked as int, commands[0].modifier)])),
            }
        },
        Code::Disadvantage => if commands.len() == 0 {
            Err(AssessmentError::NoCommand)
        } else {
            match spec_disadvantage(faces) {
                Err(error) => Err(error),
                Ok(picked) => Ok(spec_summed(seq![spec_line(picked as int, commands[0].modifier)])),
            }
        },
        Code::Percentile => if commands.len() == 0 {
            Err(AssessmentError::NoCommand)
        } else {
            match spec_percent_sum(faces) {
                Err(error) => Err(error),
                Ok(sum) => Ok(spec_summed(seq![spec_line(sum as int, commands[0].modifier)])),
            }
        },
    }
}

/// How a face stands out on a roll. On a normal roll the 20 and the 1 of a
/// d20 do; with advantage or disadvantage they do where they are also the
/// face that counts; on a percentile roll nothing does.
pub open spec fn spec_mark(code: Code, kind: D, face: u16, picked: int) -> Mark {
    let counts = match code {
        Code::Normal => true,
        Code::Advantage | Code::Disadvantage => picked == face,
        Code::Percentile => false,
    };
    if kind == D::Twenty && counts && face == 20 {
        Mark::Best
    } else if kind == D::Twenty && counts && face == 1 {
        Mark::Worst
    } else {
        Mark::Plain
    }
}

/// How a face stands out on a roll; `picked` is the face that counts.
pub fn mark(code: Code, kind: D, face: u16, picked: u16) -> (found: Mark)
    ensures
        found == spec_mark(code, kind, face, picked as int),
{
    let counts = match code {
        Code::Normal => true,
        Code::Advantage | Code::Disadvantage => picked == face,
        Code::Percentile => false,
    };
    if kind == D::Twenty && counts && face == 20 {
        Mark::Best
    } else if kind == D::Twenty && counts && face == 1 {
        Mark::Worst
    } else {
        Mark::Plain
    }
}

/// A sum of faces lies between 0 and 65535 for each face.
pub proof fn lemma_sum_bounds(faces: Seq<u16>, from: int, to: int)
    requires
        0 <= from <= to <= faces.len(),
    ensures
        0 <= spec_sum(faces, from, to) <= 65535 * (to - from),
    decreases to - from,
{
    if from < to {
        lemma_sum_bounds(faces, from, to - 1);
    }
}

/// The sum of the faces from `from` up to, not including, `to`.
pub fn sum_of(faces: &Vec<u16>, from: usize, to: usize) -> (sum: i128)
    requires
        from <= to <= faces@.len(),
    ensures
        sum == spec_sum(faces@, from as int, to as int),
        0 <= sum <= 65535 * (to - from),
{
    let mut sum: i128 = 0;
    let mut i: usize = from;
    while i < to
        invariant
            from <= i <= to <= faces@.len(),
            sum == spec_sum(faces@, from as int, i as int),
            0 <= sum <= 65535 * (i - from),
        decreases to - i,
    {
        sum = sum + faces[i] as i128;
        i += 1;
    }
    sum
}

/// The sum of all faces and all modifiers.
pub fn full_sum(faces: &Vec<u16>, modifiers: &Vec<i16>) -> (sum: i128)
    ensures
        sum == spec_full_sum(faces@, modifiers@),
{
    let mut added: i128 = 0;
    let mut i: usize = 0;
    while i < modifiers.len()
        invariant
            i <= modifiers@.len(),
            added == spec_sum_modifiers(modifiers@, i as int),
            -32768 * i <= added <= 32767 * i,
        decreases modifiers@.len() - i,
    {
        added = added + modifiers[i] as i128;
        i += 1;
    }
    sum_of(faces, 0, faces.len()) + added
}

/// Whether there are exactly two faces, or which way the count is off.
pub fn pick_error(faces: &Vec<u16>) -> (error: Option<AssessmentError>)
    ensures
        error == spec_pick_error(faces@),
{
    if faces.len() > 2 {
        Some(AssessmentError::TooManyDice)
    } else if faces.len() < 2 {
        Some(AssessmentError::TooFewDice)
    } else {
        None
    }
}

/// The face that counts with advantage: the higher of two.
pub fn advantage(faces: &Vec<u16>) -> (picked: Result<u16, AssessmentError>)
    ensures
        picked == spec_advantage(faces@),
{
    match pick_error(faces) {
        Some(error) => Err(error),
        None => Ok(
            if faces[0] >= faces[1] {
                faces[0]
            } else {
                faces[1]
            },
        ),
    }
}

/// The face that counts with disadvantage: the lower of two.
pub fn disadvantage(faces: &Vec<u16>) -> (picked: Result<u16, AssessmentError>)
    ensures
        picked == spec_disadvantage(faces@),
{
    match pick_error(faces) {
        Some(error) => Err(error),
        None => Ok(
            if faces[0] <= faces[1] {
                faces[0]
            } else {
                faces[1]
            },
        ),
    }
}

/// The sum of a percentile roll of a tens die and a ones die.
pub fn percent_sum(faces: &Vec<u16>) -> (sum: Result<u32, AssessmentError>)
    ensures
        sum == spec_percent_sum(faces@),
{
    match pick_error(faces) {
        Some(error) => Err(error),
        None => {
            let sum: u32 = faces[0] as u32 + faces[1] as u32;
            if sum == 0 {
                Ok(100)
            } else {
                Ok(sum)
            }
        },
    }
}

/// More commands ask for no fewer dice.
pub proof fn lemma_dice_before_grows(commands: Seq<RollCommand>, n: int, m: int)
    requires
        0 <= n <= m <= commands.len(),
    ensures
        0 <= spec_dice_before(commands, n) <= spec_dice_before(commands, m),
    decreases m,
{
    if n < m {
        lemma_dice_before_grows(commands, n, m - 1);
    } else if n > 0 {
        lemma_dice_before_grows(commands, n - 1, n - 1);
    }
}

/// Whether an outcome is the result that the rules give.
pub open spec fn spec_is_assessment(
    outcome: Result<Assessment, AssessmentError>,
    expected: Result<(Seq<Line>, int), AssessmentError>,
) -> bool {
    match outcome {
        Ok(assessment) => expected == Ok::<(Seq<Line>, int), AssessmentError>(
            (assessment.lines@, assessment.total as int),
        ),
        Err(error) => expected == Err::<(Seq<Line>, int), AssessmentError>(error),
    }
}

/// The one line of a roll on which a single face counts.
fn single_line(picked: u32, modifier: i16) -> (assessment: Assessment)
    ensures
        (assessment.lines@, assessment.total as int) == spec_summed(
            seq![spec_line(picked as int, modifier)],
        ),
{
    let total: i128 = picked as i128 + modifier as i128;
    let line = Line { rolled: picked as i128, modifier, total };
    let mut lines: Vec<Line> = Vec::new();
    lines.push(line);
    proof {
        let expected = seq![spec_line(picked as int, modifier)];
        assert(lines@ == expected);
        assert(spec_total(expected, 0) == 0);
        assert(spec_total(expected, 1) == total);
    }
    Assessment { lines, total }
}

/// The lines of a normal roll and their sum.
fn assess_normal(faces: &Vec<u16>, commands: &Vec<RollCommand>) -> (outcome: Result<
    Assessment,
    AssessmentError,
>)
    ensures
        spec_is_assessment(outcome, spec_assess(Code::Normal, faces@, commands@)),
{
    let mut lines: Vec<Line> = Vec::new();
    let mut total: i128 = 0;
    let mut taken: usize = 0;
    let mut k: usize = 0;
    while k < commands.len()
        invariant
            k <= commands@.len(),
            taken <= faces@.len(),
            taken == spec_dice_before(commands@, k as int),
            lines@.len() == k,
            forall|j: int| 0 <= j < k ==> #[trigger] lines@[j] == spec_normal_line(
                faces@,
                commands@,
                j,
            ),
            total == spec_total(lines@, k as int),
            -0x2_0000_0000 * k <= total <= 0x2_0000_0000 * k,
        decreases commands@.len() - k,
    {
        let command = commands[k];
        if command.coefficient as usize > faces.len() - taken {
            proof {
                lemma_dice_before_grows(commands@, k + 1, commands@.len() as int);
            }
            return Err(AssessmentError::DiceMismatch);
        }
        let end: usize = taken + command.coefficient as usize;
        let rolled: i128 = sum_of(faces, taken, end);
        let line = Line {
            rolled,
            modifier: command.modifier,
            total: rolled + command.modifier as i128,
        };
        let ghost before = lines@;
        lines.push(line);
        total = total + line.total;
        taken = end;
        k += 1;
        proof {
            assert(line == spec_normal_line(faces@, commands@, k - 1));
            assert(forall|j: int| 0 <= j < k - 1 ==> lines@[j] == before[j]);
            lemma_total_of_prefix(lines@, before, k - 1);
        }
    }
    if taken != faces.len() {
        return Err(AssessmentError::DiceMismatch);
    }
    proof {
        assert(lines@ == spec_normal_lines(faces@, commands@));
    }
    Ok(Assessment { lines, total })
}

/// The sum of the first lines depends on those lines alone.
pub proof fn lemma_total_of_prefix(a: Seq<Line>, b: Seq<Line>, upto: int)
    requires
        0 <= upto <= a.len(),
        upto <= b.len(),
        forall|j: int| 0 <= j < upto ==> a[j] == b[j],
    ensures
        spec_total(a, upto) == spec_total(b, upto),
    decreases upto,
{
    if upto > 0 {
        lemma_total_of_prefix(a, b, upto - 1);
    }
}

/// The result of a roll from the faces of its dice, in the order of their
/// ids, and from its commands.
pub fn assess(code: Code, faces: &Vec<u16>, commands: &Vec<RollCommand>) -> (outcome: Result<
    Assessment,
    AssessmentError,
>)
    ensures
        spec_is_assessment(outcome, spec_assess(code, faces@, commands@)),
{
    match code {
        Code::Normal => assess_normal(faces, commands),
        Code::Advantage => {
            if commands.len() == 0 {
                return Err(AssessmentError::NoCommand);
            }
            match advantage(faces) {
                Err(error) => Err(error),
                Ok(picked) => Ok(single_line(picked as u32, commands[0].modifier)),
            }
        },
        Code::Disadvantage => {
            if commands.len() == 0 {
                return Err(AssessmentError::NoCommand);
            }
            match disadvantage(faces) {
                Err(error) => Err(error),
                Ok(picked) => Ok(single_line(picked as u32, commands[0].modifier)),
            }
        },
        Code::Percentile => {
            if commands.len() == 0 {
                return Err(AssessmentError::NoCommand);
            }
            match percent_sum(faces) {
                Err(error) => Err(error),
                Ok(sum) => Ok(single_line(sum, commands[0].modifier)),
            }
        },
    }
}

/// Of two dice, advantage takes the higher face and disadvantage the lower
/// one, so advantage never does worse.
pub proof fn lemma_advantage_takes_the_higher(first: u16, second: u16)
    ensures
        spec_advantage(seq![first, second]) == Ok::<u16, AssessmentError>(
            if first >= second {
                first
            } else {
                second
            },
        ),
        spec_disadvantage(seq![first, second]) == Ok::<u16, AssessmentError>(
            if first <= second {
                first
            } else {
                second
            },
        ),
        spec_advantage(seq![first, second])->Ok_0 >= spec_disadvantage(
            seq![first, second],
        )->Ok_0,
{
}

/// Any number of faces other than two gives no result with advantage, with
/// disadvantage or on a percentile roll, whatever the faces and the
/// commands are: too many above two, too few below.
pub proof fn lemma_other_than_two_dice_fail(
    code: Code,
    faces: Seq<u16>,
    commands: Seq<RollCommand>,
)
    requires
        code != Code::Normal,
        faces.len() != 2,
    ensures
        spec_assess(code, faces, commands) is Err,
        commands.len() > 0 ==> spec_assess(code, faces, commands) == Err::<
            (Seq<Line>, int),
            AssessmentError,
        >(
            if faces.len() > 2 {
                AssessmentError::TooManyDice
            } else {
                AssessmentError::TooFewDice
            },
        ),
{
}

/// A roll with advantage, with disadvantage or on percentile dice has a
/// result exactly when it has a command and two faces.
pub proof fn lemma_two_dice_are_needed(code: Code, faces: Seq<u16>, commands: Seq<RollCommand>)
    requires
        code != Code::Normal,
    ensures
        spec_assess(code, faces, commands) is Ok <==> commands.len() > 0 && faces.len() == 2,
{
}

/// A percentile roll of a tens die and a ones die gives their sum, and 100
/// for two zeros: a number from 1 to 100.
pub proof fn lemma_percentile_sum(tens: u16, ones: u16)
    requires
        D::PercentTens.shows(tens),
        D::PercentOnes.shows(ones),
    ensures
        spec_percent_sum(seq![tens, ones]) == Ok::<u32, AssessmentError>(
            if tens == 0 && ones == 0 {
                100u32
            } else {
                (tens + ones) as u32
            },
        ),
        spec_percent_sum(seq![tens, ones]) matches Ok(sum) && 1 <= sum <= 100,
{
}

/// A sum of faces can be taken in two parts.
pub proof fn lemma_sum_splits(faces: Seq<u16>, from: int, mid: int, to: int)
    requires
        0 <= from <= mid <= to <= faces.len(),
    ensures
        spec_sum(faces, from, to) == spec_sum(faces, from, mid) + spec_sum(faces, mid, to),
    decreases to - mid,
{
    if mid < to {
        lemma_sum_splits(faces, from, mid, to - 1);
    }
}

/// On a normal roll that has a result, the sum of the lines is the sum of
/// all faces and of the modifiers of all commands.
pub proof fn lemma_normal_total_is_full_sum(faces: Seq<u16>, commands: Seq<RollCommand>)
    requires
        spec_assess(Code::Normal, faces, commands) is Ok,
    ensures
        spec_assess(Code::Normal, faces, commands) matches Ok(result) && result.1 == spec_full_sum(
            faces,
            Seq::new(commands.len(), |k: int| commands[k].modifier),
        ),
{
    let lines = spec_normal_lines(faces, commands);
    lemma_normal_total_upto(faces, commands, commands.len() as int);
    lemma_total_of_prefix(lines, lines, lines.len() as int);
}

/// The sum of the first lines of a normal roll is the sum of the faces
/// that they take and of their modifiers.
proof fn lemma_normal_total_upto(faces: Seq<u16>, commands: Seq<RollCommand>, upto: int)
    requires
        0 <= upto <= commands.len(),
        spec_dice_before(commands, commands.len() as int) == faces.len(),
    ensures
        spec_total(spec_normal_lines(faces, commands), upto) == spec_sum(
            faces,
            0,
            spec_dice_before(commands, upto),
        ) + spec_sum_modifiers(Seq::new(commands.len(), |k: int| commands[k].modifier), upto),
    decreases upto,
{
    lemma_dice_before_grows(commands, upto, commands.len() as int);
    if upto > 0 {
        lemma_normal_total_upto(faces, commands, upto - 1);
        lemma_dice_before_grows(commands, upto - 1, upto);
        let from = spec_dice_before(commands, upto - 1);
        let to = spec_dice_before(commands, upto);
        lemma_sum_splits(faces, 0, from, to);
        lemma_sum_bounds(faces, from, to);
        assert(spec_normal_lines(faces, commands)[upto - 1] == spec_normal_line(
            faces,
            commands,
            upto - 1,
        ));
    }
}

/// The first `upto` commands of a roll as they are read from its log, each
/// written as `CdK+M`; an error if one cannot be read or carries another
/// modifier than the list of modifiers says.
pub open spec fn spec_read_commands(log: Seq<Seq<char>>, modifiers: Seq<i16>, upto: int) -> Result<
    Seq<RollCommand>,
    AssessmentError,
>
    decreases upto,
{
    if upto <= 0 || upto > log.len() || upto > modifiers.len() {
        Ok(Seq::empty())
    } else {
        match spec_read_commands(log, modifiers, upto - 1) {
            Err(error) => Err(error),
            Ok(commands) => match spec_command_values(log[upto - 1]) {
                Err(_) => Err(AssessmentError::UnreadableCommand),
                Ok((coefficient, kind, modifier)) => if modifier != modifiers[upto - 1] {
                    Err(AssessmentError::ModifierMismatch)
                } else {
                    Ok(commands.push(RollCommand { coefficient, kind, modifier }))
                },
            },
        }
    }
}

/// The commands of a roll as they are read from its log; there are as many
/// modifiers as commands.
pub open spec fn spec_commands_of(log: Seq<Seq<char>>, modifiers: Seq<i16>) -> Result<
    Seq<RollCommand>,
    AssessmentError,
> {
    if log.len() != modifiers.len() {
        Err(AssessmentError::ModifierMismatch)
    } else {
        spec_read_commands(log, modifiers, log.len() as int)
    }
}

/// Once a command cannot be read, the commands after it change nothing.
pub proof fn lemma_unreadable_stays(log: Seq<Seq<char>>, modifiers: Seq<i16>, n: int, m: int)
    requires
        0 <= n <= m <= log.len(),
        m <= modifiers.len(),
    ensures
        spec_read_commands(log, modifiers, n) is Err ==> spec_read_commands(log, modifiers, m)
            == spec_read_commands(log, modifiers, n),
    decreases m - n,
{
    if n < m {
        lemma_unreadable_stays(log, modifiers, n, m - 1);
    }
}

/// The commands of a roll as they are read from its log.
pub fn commands_of(log: &Vec<String>, modifiers: &Vec<i16>) -> (commands: Result<
    Vec<RollCommand>,
    AssessmentError,
>)
    ensures
        match commands {
            Ok(read) => spec_commands_of(spec_texts(log@), modifiers@) == Ok::<
                Seq<RollCommand>,
                AssessmentError,
            >(read@),
            Err(error) => spec_commands_of(spec_texts(log@), modifiers@) == Err::<
                Seq<RollCommand>,
                AssessmentError,
            >(error),
        },
{
    if log.len() != modifiers.len() {
        return Err(AssessmentError::ModifierMismatch);
    }
    let ghost views = spec_texts(log@);
    let mut commands: Vec<RollCommand> = Vec::new();
    let mut k: usize = 0;
    while k < log.len()
        invariant
            k <= log@.len() == modifiers@.len(),
            views == spec_texts(log@),
            spec_read_commands(views, modifiers@, k as int) == Ok::<
                Seq<RollCommand>,
                AssessmentError,
            >(commands@),
        decreases log@.len() - k,
    {
        proof {
            lemma_unreadable_stays(views, modifiers@, k + 1, views.len() as int);
            assert(views[k as int] == log@[k as int]@);
        }
        match get_command_values(&log[k]) {
            Err(_) => {
                return Err(AssessmentError::UnreadableCommand);
            },
            Ok((coefficient, kind, modifier)) => {
                if modifier != modifiers[k] {
                    return Err(AssessmentError::ModifierMismatch);
                }
                commands.push(RollCommand { coefficient, kind, modifier });
            },
        }
        k += 1;
    }
    Ok(commands)
}

/// A log that can be read gives a command for each of its entries.
pub proof fn lemma_commands_match_log(log: Seq<Seq<char>>, modifiers: Seq<i16>, upto: int)
    requires
        0 <= upto <= log.len(),
        upto <= modifiers.len(),
    ensures
        spec_read_commands(log, modifiers, upto) matches Ok(commands) ==> commands.len() == upto,
    decreases upto,
{
    if upto > 0 {
        lemma_commands_match_log(log, modifiers, upto - 1);
    }
}

/// A percentile roll of a tens die and a ones die comes to their sum, to
/// 100 for two zeros, and to that plus the modifier of its command.
pub proof fn lemma_percentile_outcome(tens: u16, ones: u16, command: RollCommand)
    requires
        D::PercentTens.shows(tens),
        D::PercentOnes.shows(ones),
    ensures
        ({
            let sum: int = if tens == 0 && ones == 0 {
                100
            } else {
                tens + ones
            };
            spec_assess(Code::Percentile, seq![tens, ones], seq![command]) == Ok::<
                (Seq<Line>, int),
                AssessmentError,
            >((seq![spec_line(sum, command.modifier)], sum + command.modifier))
        }),
{
    lemma_percentile_sum(tens, ones);
    let sum: int = if tens == 0 && ones == 0 {
        100
    } else {
        tens + ones
    };
    let lines = seq![spec_line(sum, command.modifier)];
    assert(spec_total(lines, 0) == 0);
    assert(spec_total(lines, 1) == sum + command.modifier);
}

} // verus!
