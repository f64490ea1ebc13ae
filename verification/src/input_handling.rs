//! From a line of text to the dice of a roll.
//!
//! A line holds one or more commands, separated by commas or slashes. A
//! command reads `[coefficient]d[kind][+/-modifier]`, such as `3d6+2`; `adv`
//! or `disadv` in front asks for advantage or disadvantage, and the kinds
//! `100` and `%` ask for a percentile roll.

use crate::die::D;
use crate::text::{
    after_last, before_first, chars_of, has_several, lemma_count_grows, lemma_count_single,
    lemma_decimal_reads_back, lemma_digit_is_plain, lemma_drop_spaces_stops,
    lemma_find_first_at, lemma_find_first_bounds, lemma_find_last_at, lemma_find_last_bounds,
    lemma_number_is_not_negative, lemma_skip_spaces_stops, lemma_trim_keeps, occurs, parse_i16,
    parse_u16, push_char, push_decimal, push_signed, slice_of, spec_after_last, spec_all_digits,
    spec_before_first, spec_count, spec_decimal, spec_find_last, spec_is_digit, spec_occurs,
    spec_parse_i16, spec_parse_u16, spec_signed, spec_skip_spaces, spec_split, spec_starts_with,
    spec_texts, spec_trim, spec_unsigned_part, spec_views, split, starts_with, string_of, trim,
};
use vstd::prelude::*;

verus! {

/// The rule by which the faces of a roll become its result.
#[derive(Clone, Copy, Debug, PartialEq, Eq, Structural)]
pub enum Code {
    Normal,
    Advantage,
    Disadvantage,
    Percentile,
}

/// Why a line of commands was turned down.
#[derive(Clone, Copy, Debug, PartialEq, Eq, Structural)]
pub enum CommandError {
    /// No "d", or what stands before it is no number from 0 to 65535.
    Coefficient,
    /// What stands after the "d" names no kind of die.
    DieType,
    /// More than one sign, or what follows the sign is no number.
    Modifier,
    ZeroCoefficient,
    CoefficientLimit,
    ModifierLimit,
    /// A coefficient other than 1 on a roll that is not normal.
    CoefficientOnSpecial,
    AdvantageOnPercentile,
    /// A roll that is not normal among several commands.
    ExtraDice,
    TooManyDice,
}

impl CommandError {
    /// The message shown for the error.
    pub open spec fn spec_message(&self) -> &'static str {
        match self {
            CommandError::Coefficient => "Coefficient error",
            CommandError::DieType => "Die type error",
            CommandError::Modifier => "Modifier error",
            CommandError::ZeroCoefficient => "Coefficient cannot be zero",
            CommandError::CoefficientLimit => "Coefficient limit exceeded",
            CommandError::ModifierLimit => "Modifier limit exceeded",
            CommandError::CoefficientOnSpecial => "You cannot have a coefficient on this roll",
            CommandError::AdvantageOnPercentile => {
                "You cannot roll advantage/disadvantage on a d100"
            },
            CommandError::ExtraDice => {
                "You cannot throw extra die on advantage, disadvantage, and percentile rolls"
            },
            CommandError::TooManyDice => "Cannot roll this many die",
        }
    }

    /// The message shown for the error.
    #[verifier::when_used_as_spec(spec_message)]
    pub fn message(&self) -> (text: &'static str)
        ensures
            text == self.spec_message(),
    {
        match self {
            CommandError::Coefficient => "Coefficient error",
            CommandError::DieType => "Die type error",
            CommandError::Modifier => "Modifier error",
            CommandError::ZeroCoefficient => "Coefficient cannot be zero",
            CommandError::CoefficientLimit => "Coefficient limit exceeded",
            CommandError::ModifierLimit => "Modifier limit exceeded",
            CommandError::CoefficientOnSpecial => "You cannot have a coefficient on this roll",
            CommandError::AdvantageOnPercentile => {
                "You cannot roll advantage/disadvantage on a d100"
            },
            CommandError::ExtraDice => {
                "You cannot throw extra die on advantage, disadvantage, and percentile rolls"
            },
            CommandError::TooManyDice => "Cannot roll this many die",
        }
    }
}

/// The most dice in one roll.
pub const DIE_LIMIT: usize = 99;

/// The largest coefficient of a command.
pub const COEFFICIENT_LIMIT: u16 = 99;

/// The largest modifier of a command, sign aside.
pub const MODIFIER_LIMIT: i16 = 99;

/// The coefficient of a command: what stands before the first "d" of the
/// trimmed text, itself trimmed, read as a number; 1 if nothing stands
/// there. A command without a "d" has none.
pub open spec fn spec_coefficient(s: Seq<char>) -> Option<u16> {
    let front = spec_before_first(spec_trim(s), 'd', 'd');
    if !spec_occurs(s, 'd') {
        None
    } else if front.len() == 0 {
        Some(1)
    } else {
        spec_parse_u16(spec_trim(front))
    }
}

/// The kind that a number after the "d" names.
pub open spec fn spec_kind_of_number(number: u16) -> Option<D> {
    if number == 2 {
        Some(D::Two)
    } else if number == 4 {
        Some(D::Four)
    } else if number == 6 {
        Some(D::Six)
    } else if number == 10 {
        Some(D::Ten)
    } else if number == 12 {
        Some(D::Twelve)
    } else if number == 20 {
        Some(D::Twenty)
    } else if number == 100 {
        Some(D::PercentTens)
    } else {
        None
    }
}

/// The kind of die of a command: what stands between the last "d" and the
/// first sign, trimmed; "%" and 100 name the percentile roll. A command
/// without a "d" has none.
pub open spec fn spec_kind(s: Seq<char>) -> Option<D> {
    let name = spec_trim(spec_after_last(spec_before_first(s, '+', '-'), 'd', 'd'));
    if !spec_occurs(s, 'd') {
        None
    } else if name == seq!['%'] {
        Some(D::PercentTens)
    } else {
        match spec_parse_u16(name) {
            Some(number) => spec_kind_of_number(number),
            None => None,
        }
    }
}

/// The modifier of a command: the number after its sign, below zero after a
/// "-"; 0 without a sign. A command with more than one sign has none.
pub open spec fn spec_modifier(s: Seq<char>) -> Option<i16> {
    if spec_count(s, '+', '-', s.len() as int) > 1 {
        None
    } else if spec_occurs(s, '+') {
        spec_parse_i16(spec_trim(spec_after_last(s, '+', '+')))
    } else if spec_occurs(s, '-') {
        match spec_parse_i16(spec_trim(spec_after_last(s, '-', '-'))) {
            Some(size) => Some((0 - size) as i16),
            None => None,
        }
    } else {
        Some(0)
    }
}

/// The three values of a command, or the first of them that is missing.
pub open spec fn spec_command_values(s: Seq<char>) -> Result<(u16, D, i16), CommandError> {
    match (spec_coefficient(s), spec_kind(s), spec_modifier(s)) {
        (None, _, _) => Err(CommandError::Coefficient),
        (Some(_), None, _) => Err(CommandError::DieType),
        (Some(_), Some(_), None) => Err(CommandError::Modifier),
        (Some(coefficient), Some(kind), Some(modifier)) => Ok((coefficient, kind, modifier)),
    }
}

/// Whether a command may be rolled under the given code, as one of
/// `command_count` commands; the first rule that it breaks otherwise.
pub open spec fn spec_validate(
    code: Code,
    coefficient: u16,
    kind: D,
    modifier: i16,
    command_count: int,
) -> Result<(), CommandError> {
    if coefficient == 0 {
        Err(CommandError::ZeroCoefficient)
    } else if coefficient > 99 {
        Err(CommandError::CoefficientLimit)
    } else if modifier > 99 || modifier < -99 {
        Err(CommandError::ModifierLimit)
    } else if code != Code::Normal && coefficient != 1 {
        Err(CommandError::CoefficientOnSpecial)
    } else if (code == Code::Advantage || code == Code::Disadvantage) && kind == D::PercentTens {
        Err(CommandError::AdvantageOnPercentile)
    } else if code != Code::Normal && command_count != 1 {
        Err(CommandError::ExtraDice)
    } else {
        Ok(())
    }
}

/// The coefficient of a command given by its characters.
fn coefficient_of(chars: &Vec<char>) -> (coefficient: Option<u16>)
    ensures
        coefficient == spec_coefficient(chars@),
{
    if !occurs(chars, 'd') {
        return None;
    }
    let trimmed = trim(chars);
    let front = before_first(&trimmed, 'd', 'd');
    if front.len() == 0 {
        return Some(1);
    }
    parse_u16(&trim(&front))
}

/// The kind of die of a command given by its characters.
fn kind_of(chars: &Vec<char>) -> (kind: Option<D>)
    ensures
        kind == spec_kind(chars@),
{
    if !occurs(chars, 'd') {
        return None;
    }
    let unsigned = before_first(chars, '+', '-');
    let name = trim(&after_last(&unsigned, 'd', 'd'));
    if name.len() == 1 && name[0] == '%' {
        assert(name@ == seq!['%']);
        return Some(D::PercentTens);
    }
    assert(name@ != seq!['%']) by {
        if name@ == seq!['%'] {
            assert(seq!['%'].len() == 1);
            assert(seq!['%'][0] == '%');
        }
    }
    match parse_u16(&name) {
        Some(2) => Some(D::Two),
        Some(4) => Some(D::Four),
        Some(6) => Some(D::Six),
        Some(10) => Some(D::Ten),
        Some(12) => Some(D::Twelve),
        Some(20) => Some(D::Twenty),
        Some(100) => Some(D::PercentTens),
        _ => None,
    }
}

/// The modifier of a command given by its characters.
fn modifier_of(chars: &Vec<char>) -> (modifier: Option<i16>)
    ensures
        modifier == spec_modifier(chars@),
{
    if has_several(chars, '+', '-') {
        return None;
    }
    if occurs(chars, '+') {
        return parse_i16(&trim(&after_last(chars, '+', '+')));
    }
    if occurs(chars, '-') {
        let tail = after_last(chars, '-', '-');
        let size_text = trim(&tail);
        match parse_i16(&size_text) {
            Some(size) => {
                proof {
                    lemma_unsigned_after_only_sign(chars@);
                }
                return Some(0 - size);
            },
            None => {
                return None;
            },
        }
    }
    Some(0)
}

/// Where a text holds a single sign and that sign is a "-", what follows it
/// spells no number below zero.
proof fn lemma_unsigned_after_only_sign(s: Seq<char>)
    requires
        spec_count(s, '+', '-', s.len() as int) <= 1,
        spec_occurs(s, '-'),
    ensures
        spec_parse_i16(spec_trim(spec_after_last(s, '-', '-'))) matches Some(size) ==> size >= 0,
{
    let cut = spec_find_last(s, '-', '-', s.len() as int);
    lemma_find_last_bounds(s, '-', '-', s.len() as int);
    lemma_find_first_bounds(s, '-', '-', 0);
    assert(cut > 0);
    let tail = s.skip(cut);
    let text = spec_trim(tail);
    lemma_skip_spaces_stops(tail, 0);
    lemma_drop_spaces_stops(tail, tail.len() as int);
    if text.len() > 0 {
        let at = cut + spec_skip_spaces(tail, 0);
        assert(text[0] == s[at]);
        if s[at] == '-' || s[at] == '+' {
            // a second sign after the "-" just before `cut`
            lemma_count_grows(s, '+', '-', cut, at);
            lemma_count_grows(s, '+', '-', at + 1, s.len() as int);
            lemma_count_grows(s, '+', '-', 0, cut - 1);
            assert(spec_count(s, '+', '-', cut) >= 1);
            assert(spec_count(s, '+', '-', at + 1) >= 2);
        }
    }
    match spec_parse_i16(text) {
        Some(size) => {
            lemma_number_is_not_negative(spec_unsigned_part(text, true));
        },
        None => {},
    }
}

/// The coefficient of a command.
pub fn get_coefficient(input: &String) -> (coefficient: Option<u16>)
    ensures
        coefficient == spec_coefficient(input@),
{
    coefficient_of(&chars_of(input.as_str()))
}

/// The kind of die of a command.
pub fn get_kind(input: &String) -> (kind: Option<D>)
    ensures
        kind == spec_kind(input@),
{
    kind_of(&chars_of(input.as_str()))
}

/// The modifier of a command.
pub fn get_modifier(input: &String) -> (modifier: Option<i16>)
    ensures
        modifier == spec_modifier(input@),
{
    modifier_of(&chars_of(input.as_str()))
}

/// The three values of a command given by its characters.
fn command_values_of(chars: &Vec<char>) -> (values: Result<(u16, D, i16), CommandError>)
    ensures
        values == spec_command_values(chars@),
{
    let coefficient = match coefficient_of(chars) {
        Some(c) => c,
        None => {
            return Err(CommandError::Coefficient);
        },
    };
    let kind = match kind_of(chars) {
        Some(k) => k,
        None => {
            return Err(CommandError::DieType);
        },
    };
    let modifier = match modifier_of(chars) {
        Some(m) => m,
        None => {
            return Err(CommandError::Modifier);
        },
    };
    Ok((coefficient, kind, modifier))
}

/// The coefficient, the kind and the modifier of a command written as
/// `CdK+M`.
pub fn get_command_values(input: &String) -> (values: Result<(u16, D, i16), CommandError>)
    ensures
        values == spec_command_values(input@),
{
    command_values_of(&chars_of(input.as_str()))
}

/// Checks a command against the limits and against the code of its roll.
pub fn validate(
    code: Code,
    coefficient: u16,
    kind: D,
    modifier: i16,
    command_count: usize,
) -> (verdict: Result<(), CommandError>)
    ensures
        verdict == spec_validate(code, coefficient, kind, modifier, command_count as int),
{
    if coefficient == 0 {
        return Err(CommandError::ZeroCoefficient);
    }
    if coefficient > COEFFICIENT_LIMIT {
        return Err(CommandError::CoefficientLimit);
    }
    if modifier > MODIFIER_LIMIT || modifier < -MODIFIER_LIMIT {
        return Err(CommandError::ModifierLimit);
    }
    if code != Code::Normal && coefficient != 1 {
        return Err(CommandError::CoefficientOnSpecial);
    }
    if (code == Code::Advantage || code == Code::Disadvantage) && kind == D::PercentTens {
        return Err(CommandError::AdvantageOnPercentile);
    }
    if code != Code::Normal && command_count != 1 {
        return Err(CommandError::ExtraDice);
    }
    Ok(())
}

/// What a line of commands asks for: the code of the roll, its dice in the
/// order in which they are thrown, and for each command its modifier and
/// its text in the form `CdK+M`.
#[verifier::ext_equal]
pub struct Roll {
    pub code: Code,
    pub dice: Seq<D>,
    pub modifiers: Seq<i16>,
    pub command_log: Seq<Seq<char>>,
}

/// Nothing asked for yet: a normal roll without dice.
pub open spec fn spec_no_roll() -> Roll {
    Roll {
        code: Code::Normal,
        dice: Seq::empty(),
        modifiers: Seq::empty(),
        command_log: Seq::empty(),
    }
}

/// The code that a command asks for and the command without the word that
/// asked: "disadv" in front asks for disadvantage, "adv" for advantage, and
/// anything else leaves the code as it was.
pub open spec fn spec_prefixed(piece: Seq<char>, code: Code) -> (Code, Seq<char>) {
    let text = spec_trim(piece);
    if spec_starts_with(text, seq!['d', 'i', 's', 'a', 'd', 'v']) {
        (Code::Disadvantage, spec_trim(text.skip(6)))
    } else if spec_starts_with(text, seq!['a', 'd', 'v']) {
        (Code::Advantage, spec_trim(text.skip(3)))
    } else {
        (code, text)
    }
}

/// A command written out as `CdK`, with `+M` or `-M` behind it unless the
/// modifier is 0.
pub open spec fn spec_command_label(coefficient: u16, kind: D, modifier: i16) -> Seq<char> {
    spec_decimal(coefficient as nat) + seq!['d'] + spec_decimal(kind.spec_as_number() as nat) + (
    if modifier > 0 {
        seq!['+'] + spec_decimal(modifier as nat)
    } else if modifier < 0 {
        spec_signed(modifier as int)
    } else {
        Seq::empty()
    })
}

/// The dice that one command throws: as many of its kind as its coefficient
/// says on a normal roll, two of its kind with advantage or disadvantage,
/// and the tens and the ones die on a percentile roll.
pub open spec fn spec_dice_of(code: Code, coefficient: u16, kind: D) -> Seq<D> {
    match code {
        Code::Normal => Seq::new(coefficient as nat, |i: int| kind),
        Code::Advantage | Code::Disadvantage => seq![kind, kind],
        Code::Percentile => seq![D::PercentTens, D::PercentOnes],
    }
}

/// The roll after one more command, or the reason to turn the command
/// down. A command for the d100 makes the roll a percentile roll.
pub open spec fn spec_add_command(roll: Roll, piece: Seq<char>, command_count: int) -> Result<
    Roll,
    CommandError,
> {
    let (asked, text) = spec_prefixed(piece, roll.code);
    match spec_command_values(text) {
        Err(error) => Err(error),
        Ok((coefficient, kind, modifier)) => {
            let code = if kind == D::PercentTens {
                Code::Percentile
            } else {
                asked
            };
            match spec_validate(code, coefficient, kind, modifier, command_count) {
                Err(error) => Err(error),
                Ok(_) => Ok(
                    Roll {
                        code,
                        dice: roll.dice + spec_dice_of(code, coefficient, kind),
                        modifiers: roll.modifiers.push(modifier),
                        command_log: roll.command_log.push(
                            spec_command_label(coefficient, kind, modifier),
                        ),
                    },
                ),
            }
        },
    }
}

/// The roll after the first `upto` commands, or the first reason to turn
/// one of them down.
pub open spec fn spec_add_commands(pieces: Seq<Seq<char>>, upto: int) -> Result<Roll, CommandError>
    decreases upto,
{
    if upto <= 0 || upto > pieces.len() {
        Ok(spec_no_roll())
    } else {
        match spec_add_commands(pieces, upto - 1) {
            Err(error) => Err(error),
            Ok(roll) => spec_add_command(roll, pieces[upto - 1], pieces.len() as int),
        }
    }
}

/// The roll that a line in lower case asks for: its commands, cut at commas
/// and slashes, taken one after the other; no more than 99 dice in all.
pub open spec fn spec_parse_commands(line: Seq<char>) -> Result<Roll, CommandError> {
    let pieces = spec_split(line, ',', '/', 0);
    match spec_add_commands(pieces, pieces.len() as int) {
        Err(error) => Err(error),
        Ok(roll) => if roll.dice.len() > 99 {
            Err(CommandError::TooManyDice)
        } else {
            Ok(roll)
        },
    }
}

/// The roll that the four parts of a result stand for.
pub open spec fn spec_roll_of(parts: (Code, Vec<D>, Vec<i16>, Vec<String>)) -> Roll {
    Roll {
        code: parts.0,
        dice: parts.1@,
        modifiers: parts.2@,
        command_log: spec_texts(parts.3@),
    }
}

/// Whether a result is the given roll, part for part, or the same error.
pub open spec fn spec_same_roll(
    result: Result<(Code, Vec<D>, Vec<i16>, Vec<String>), CommandError>,
    expected: Result<Roll, CommandError>,
) -> bool {
    match result {
        Ok(parts) => expected == Ok::<Roll, CommandError>(spec_roll_of(parts)),
        Err(error) => expected == Err::<Roll, CommandError>(error),
    }
}

/// What Unicode gives as the lower case of a text: the result of
/// `str::to_lowercase`.
pub uninterp spec fn spec_lowercase(text: Seq<char>) -> Seq<char>;

/// The text in lower case, by `str::to_lowercase`.
///
/// Not verified: the result is taken as it comes and only given its name.
#[verifier::external_body]
fn lowercase(text: &str) -> (lowered: String)
    ensures
        lowered@ == spec_lowercase(text@),
{
    text.to_lowercase()
}

/// A command written out as `CdK+M`.
pub fn command_label(coefficient: u16, kind: D, modifier: i16) -> (label: String)
    ensures
        label@ == spec_command_label(coefficient, kind, modifier),
{
    let mut label = String::new();
    push_decimal(&mut label, coefficient as u128);
    push_char(&mut label, 'd');
    push_decimal(&mut label, kind.as_number() as u128);
    if modifier > 0 {
        push_char(&mut label, '+');
        push_decimal(&mut label, modifier as u128);
    } else if modifier < 0 {
        push_signed(&mut label, modifier as i128);
    }
    proof {
        let head = spec_decimal(coefficient as nat) + seq!['d'] + spec_decimal(
            kind.spec_as_number() as nat,
        );
        assert(Seq::<char>::empty() + spec_decimal(coefficient as nat) == spec_decimal(
            coefficient as nat,
        ));
        assert(spec_decimal(coefficient as nat).push('d') == spec_decimal(coefficient as nat)
            + seq!['d']);
        if modifier > 0 {
            assert(head.push('+') + spec_decimal(modifier as nat) == head + (seq!['+']
                + spec_decimal(modifier as nat)));
        } else if modifier == 0 {
            assert(head + Seq::<char>::empty() == head);
        }
    }
    label
}

/// Takes the word that asks for advantage or disadvantage off a command.
fn prefixed(piece: &Vec<char>, code: Code) -> (found: (Code, Vec<char>))
    ensures
        (found.0, found.1@) == spec_prefixed(piece@, code),
{
    let text = trim(piece);
    let disadvantage = vec!['d', 'i', 's', 'a', 'd', 'v'];
    let advantage = vec!['a', 'd', 'v'];
    assert(disadvantage@ == seq!['d', 'i', 's', 'a', 'd', 'v']);
    assert(advantage@ == seq!['a', 'd', 'v']);
    if starts_with(&text, &disadvantage) {
        let rest = slice_of(&text, 6, text.len());
        (Code::Disadvantage, trim(&rest))
    } else if starts_with(&text, &advantage) {
        let rest = slice_of(&text, 3, text.len());
        (Code::Advantage, trim(&rest))
    } else {
        (code, text)
    }
}

/// Once a command is turned down, the commands after it change nothing.
pub proof fn lemma_error_stays(pieces: Seq<Seq<char>>, n: int, m: int)
    requires
        0 <= n <= m <= pieces.len(),
    ensures
        spec_add_commands(pieces, n) is Err ==> spec_add_commands(pieces, m) == spec_add_commands(
            pieces,
            n,
        ),
    decreases m - n,
{
    if n < m {
        lemma_error_stays(pieces, n, m - 1);
    }
}

/// A d100 always makes its roll a percentile roll, so no line is turned
/// down for asking advantage or disadvantage of it.
pub proof fn lemma_d100_is_always_percentile(pieces: Seq<Seq<char>>, upto: int)
    requires
        0 <= upto <= pieces.len(),
    ensures
        spec_add_commands(pieces, upto) != Err::<Roll, CommandError>(
            CommandError::AdvantageOnPercentile,
        ),
    decreases upto,
{
    if upto > 0 {
        lemma_d100_is_always_percentile(pieces, upto - 1);
    }
}

/// The roll that a line in lower case asks for.
pub fn parse_commands(line: &str) -> (result: Result<
    (Code, Vec<D>, Vec<i16>, Vec<String>),
    CommandError,
>)
    ensures
        spec_same_roll(result, spec_parse_commands(line@)),
{
    let chars = chars_of(line);
    let pieces = split(&chars, ',', '/');
    let command_count = pieces.len();
    let mut code = Code::Normal;
    let mut dice: Vec<D> = Vec::new();
    let mut modifiers: Vec<i16> = Vec::new();
    let mut command_log: Vec<String> = Vec::new();
    let ghost views = spec_views(pieces@);
    let mut n: usize = 0;
    assert(spec_roll_of((code, dice, modifiers, command_log)) =~= spec_no_roll());
    while n < command_count
        invariant
            n <= command_count == pieces@.len(),
            views == spec_views(pieces@),
            views == spec_split(line@, ',', '/', 0),
            dice@.len() <= 99 * n,
            spec_add_commands(views, n as int) == Ok::<Roll, CommandError>(
                spec_roll_of((code, dice, modifiers, command_log)),
            ),
        decreases command_count - n,
    {
        let ghost before = spec_roll_of((code, dice, modifiers, command_log));
        let ghost log_before = command_log@;
        assert(views[n as int] == pieces@[n as int]@);
        let (asked, command) = prefixed(&pieces[n], code);
        code = asked;
        proof {
            lemma_error_stays(views, n + 1, views.len() as int);
        }
        let (coefficient, kind, modifier) = match command_values_of(&command) {
            Ok(values) => values,
            Err(error) => {
                return Err(error);
            },
        };
        if kind == D::PercentTens {
            code = Code::Percentile;
        }
        match validate(code, coefficient, kind, modifier, command_count) {
            Ok(_) => {},
            Err(error) => {
                return Err(error);
            },
        }
        let label = command_label(coefficient, kind, modifier);
        command_log.push(label);
        modifiers.push(modifier);
        let ghost dice_before = dice@;
        match code {
            Code::Normal => {
                let mut thrown: u16 = 0;
                while thrown < coefficient
                    invariant
                        thrown <= coefficient <= 99,
                        dice@ == dice_before + Seq::new(thrown as nat, |i: int| kind),
                    decreases coefficient - thrown,
                {
                    dice.push(kind);
                    thrown += 1;
                }
            },
            Code::Advantage | Code::Disadvantage => {
                dice.push(kind);
                dice.push(kind);
                assert(dice@ == dice_before + seq![kind, kind]);
            },
            Code::Percentile => {
                dice.push(D::PercentTens);
                dice.push(D::PercentOnes);
                assert(dice@ == dice_before + seq![D::PercentTens, D::PercentOnes]);
            },
        }
        n += 1;
        proof {
            assert(spec_texts(command_log@) == spec_texts(log_before).push(label@));
            assert(spec_add_commands(views, n as int) == spec_add_command(
                before,
                views[n - 1],
                views.len() as int,
            ));
        }
    }
    if dice.len() > DIE_LIMIT {
        return Err(CommandError::TooManyDice);
    }
    Ok((code, dice, modifiers, command_log))
}

/// The roll that a line of text asks for, whatever its case and whatever
/// white space surrounds it.
pub fn generate_dice(input: String) -> (result: Result<
    (Code, Vec<D>, Vec<i16>, Vec<String>),
    CommandError,
>)
    ensures
        spec_same_roll(result, spec_parse_commands(spec_lowercase(spec_trim(input@)))),
{
    let trimmed = string_of(&trim(&chars_of(input.as_str())));
    let line = lowercase(trimmed.as_str());
    parse_commands(line.as_str())
}

/// The size of a modifier, sign aside.
pub open spec fn spec_size(modifier: i16) -> nat {
    if modifier >= 0 {
        modifier as nat
    } else {
        (-modifier) as nat
    }
}

/// Whether `label` is made of the digits of `front`, a "d", the digits of
/// `middle`, and, if `sign` is given, that sign and the digits of `back`.
spec fn spec_is_shaped(
    label: Seq<char>,
    front: Seq<char>,
    middle: Seq<char>,
    sign: Option<char>,
    back: Seq<char>,
) -> bool {
    let cut = front.len() as int;
    let end = cut + 1 + middle.len();
    &&& front.len() >= 1 && middle.len() >= 1
    &&& spec_all_digits(front) && spec_all_digits(middle)
    &&& label.len() >= end
    &&& label[cut] == 'd'
    &&& forall|i: int| 0 <= i < cut ==> #[trigger] label[i] == front[i]
    &&& forall|i: int| cut < i < end ==> #[trigger] label[i] == middle[i - cut - 1]
    &&& match sign {
        None => label.len() == end,
        Some(c) => {
            &&& (c == '+' || c == '-')
            &&& back.len() >= 1 && spec_all_digits(back)
            &&& label.len() == end + 1 + back.len()
            &&& label[end] == c
            &&& forall|i: int| end < i < label.len() ==> #[trigger] label[i] == back[i - end - 1]
        },
    }
}

/// In a label of that shape only the sign is a sign, only the "d" is a
/// "d", and nothing is white space.
proof fn lemma_shaped_is_plain(
    label: Seq<char>,
    front: Seq<char>,
    middle: Seq<char>,
    sign: Option<char>,
    back: Seq<char>,
)
    requires
        spec_is_shaped(label, front, middle, sign, back),
    ensures
        forall|i: int|
            0 <= i < label.len() && i != front.len() ==> (#[trigger] label[i]) != 'd',
        forall|i: int|
            0 <= i < label.len() && i != front.len() + 1 + middle.len() ==> (
            #[trigger] label[i]) != '+' && label[i] != '-',
        forall|i: int|
            0 <= i < label.len() && i != front.len() && i != front.len() + 1 + middle.len()
                ==> spec_is_digit(#[trigger] label[i]),
{
    let cut = front.len() as int;
    let end = cut + 1 + middle.len();
    assert forall|i: int| 0 <= i < label.len() && i != cut && i != end implies spec_is_digit(
        #[trigger] label[i],
    ) by {
        if i < cut {
            assert(label[i] == front[i]);
            assert(spec_is_digit(front[i]));
        } else if i < end {
            assert(label[i] == middle[i - cut - 1]);
            assert(spec_is_digit(middle[i - cut - 1]));
        } else {
            assert(label[i] == back[i - end - 1]);
            assert(spec_is_digit(back[i - end - 1]));
        }
    }
    assert forall|i: int| 0 <= i < label.len() && i != cut implies (#[trigger] label[i])
        != 'd' by {
        if i != end {
            lemma_digit_is_plain(label[i]);
        }
    }
    assert forall|i: int| 0 <= i < label.len() && i != end implies (#[trigger] label[i]) != '+'
        && label[i] != '-' by {
        if i != cut {
            lemma_digit_is_plain(label[i]);
        }
    }
}

/// A label of that shape reads as the numbers that its digits spell.
proof fn lemma_shaped_reads(
    label: Seq<char>,
    front: Seq<char>,
    middle: Seq<char>,
    sign: Option<char>,
    back: Seq<char>,
)
    requires
        spec_is_shaped(label, front, middle, sign, back),
    ensures
        spec_occurs(label, 'd'),
        spec_trim(spec_before_first(spec_trim(label), 'd', 'd')) == front,
        spec_before_first(spec_trim(label), 'd', 'd').len() > 0,
        spec_trim(spec_after_last(spec_before_first(label, '+', '-'), 'd', 'd')) == middle,
        spec_count(label, '+', '-', label.len() as int) <= 1,
        sign is None ==> !spec_occurs(label, '+') && !spec_occurs(label, '-'),
        sign == Some('+') ==> spec_occurs(label, '+') && spec_trim(
            spec_after_last(label, '+', '+'),
        ) == back,
        sign == Some('-') ==> !spec_occurs(label, '+') && spec_occurs(label, '-') && spec_trim(
            spec_after_last(label, '-', '-'),
        ) == back,
{
    let cut = front.len() as int;
    let end = cut + 1 + middle.len();
    let length = label.len() as int;
    lemma_shaped_is_plain(label, front, middle, sign, back);
    assert(spec_is_digit(label[0])) by {
        assert(label[0] == front[0]);
    }
    assert(spec_is_digit(label.last())) by {
        if sign is None {
            assert(label[length - 1] == middle[length - 1 - cut - 1]);
        } else {
            assert(label[length - 1] == back[length - 1 - end - 1]);
        }
    }
    lemma_digit_is_plain(label[0]);
    lemma_digit_is_plain(label.last());
    lemma_trim_keeps(label);
    // the coefficient
    lemma_find_first_at(label, 'd', 'd', 0, cut);
    assert(label.take(cut) == front);
    lemma_digit_is_plain(front[0]);
    lemma_digit_is_plain(front.last());
    lemma_trim_keeps(front);
    // the kind
    let stop = if sign is None {
        length
    } else {
        end
    };
    lemma_find_first_at(label, '+', '-', 0, stop);
    let unsigned = label.take(stop);
    assert(unsigned.len() == end);
    assert(forall|i: int| 0 <= i < end ==> unsigned[i] == label[i]);
    lemma_find_last_at(unsigned, 'd', 'd', end, cut + 1);
    assert(unsigned.skip(cut + 1) == middle);
    lemma_digit_is_plain(middle[0]);
    lemma_digit_is_plain(middle.last());
    lemma_trim_keeps(middle);
    // the modifier
    lemma_count_single(label, '+', '-', end, length);
    match sign {
        None => {
            lemma_find_first_at(label, '+', '+', 0, length);
            lemma_find_first_at(label, '-', '-', 0, length);
        },
        Some(c) => {
            lemma_digit_is_plain(back[0]);
            lemma_digit_is_plain(back.last());
            lemma_trim_keeps(back);
            assert(label.skip(end + 1) == back);
            if c == '+' {
                lemma_find_first_at(label, '+', '+', 0, end);
                lemma_find_last_at(label, '+', '+', length, end + 1);
            } else {
                lemma_find_first_at(label, '+', '+', 0, length);
                lemma_find_first_at(label, '-', '-', 0, end);
                lemma_find_last_at(label, '-', '-', length, end + 1);
            }
        },
    }
}

/// A command that is written out reads back as it was: the text that
/// stands for a command on the table gives its coefficient, its kind and
/// its modifier again. The ones die of a percentile roll is written as a
/// d100 and so reads as the tens die, and the modifier -32768 is left out,
/// whose size no modifier can have.
pub proof fn lemma_label_reads_back(coefficient: u16, kind: D, modifier: i16)
    requires
        modifier > i16::MIN,
    ensures
        spec_command_values(spec_command_label(coefficient, kind, modifier)) == Ok::<
            (u16, D, i16),
            CommandError,
        >(
            (
                coefficient,
                if kind == D::PercentOnes {
                    D::PercentTens
                } else {
                    kind
                },
                modifier,
            ),
        ),
{
    let label = spec_command_label(coefficient, kind, modifier);
    let front = spec_decimal(coefficient as nat);
    let middle = spec_decimal(kind.spec_as_number() as nat);
    let back = spec_decimal(spec_size(modifier));
    let sign = if modifier > 0 {
        Some('+')
    } else if modifier < 0 {
        Some('-')
    } else {
        None
    };
    lemma_decimal_reads_back(coefficient as nat);
    lemma_decimal_reads_back(kind.spec_as_number() as nat);
    lemma_decimal_reads_back(spec_size(modifier));
    assert(spec_is_shaped(label, front, middle, sign, back)) by {
        let head = front + seq!['d'] + middle;
        if modifier > 0 {
            assert(label =~= head + (seq!['+'] + back));
        } else if modifier < 0 {
            assert(label =~= head + (seq!['-'] + back));
        } else {
            assert(label =~= head);
        }
    }
    lemma_shaped_reads(label, front, middle, sign, back);
    lemma_digit_is_plain(front[0]);
    lemma_digit_is_plain(middle[0]);
    lemma_digit_is_plain(back[0]);
    assert(spec_unsigned_part(front, false) == front);
    assert(spec_unsigned_part(middle, false) == middle);
    assert(spec_unsigned_part(back, true) == back);
    assert(spec_coefficient(label) == Some(coefficient));
    assert(middle != seq!['%']) by {
        if middle == seq!['%'] {
            assert(seq!['%'][0] == '%');
        }
    }
    assert(spec_kind(label) == spec_kind_of_number(kind.spec_as_number()));
    assert(spec_modifier(label) == Some(modifier));
}

} // verus!
