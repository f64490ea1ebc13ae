//! The result of a roll on one line of text.

use crate::colour::{fg_green, fg_red, fg_reset, spec_fg_green, spec_fg_red, spec_fg_reset};
use crate::die::D;
use crate::input_handling::Code;
use crate::resolver::{
    assess, mark, spec_assess, spec_mark, AssessmentError, Line, Mark, RollCommand,
};
use crate::text::{push_decimal, push_signed, spec_decimal, spec_signed};
use vstd::prelude::*;
use vstd::string::StringExecFns;

verus! {

/// The most faces that the line of a normal roll shows before it goes on
/// with dots, the first aside.
pub const DISPLAY_RESULTS: usize = 5;

/// A face as it is written: in decimal, in green if it is the best and in
/// red if it is the worst.
pub open spec fn spec_shown(face: u16, mark: Mark) -> Seq<char> {
    match mark {
        Mark::Plain => spec_decimal(face as nat),
        Mark::Best => spec_fg_green() + spec_decimal(face as nat) + spec_fg_reset(),
        Mark::Worst => spec_fg_red() + spec_decimal(face as nat) + spec_fg_reset(),
    }
}

/// A modifier as it is added: " + M", or " - M" for one below zero.
pub open spec fn spec_added(modifier: i16) -> Seq<char> {
    if modifier >= 0 {
        " + "@ + spec_decimal(modifier as nat)
    } else {
        " - "@ + spec_decimal((-modifier) as nat)
    }
}

/// The end of the line of a roll on which one face counts:
/// " => P + M = T".
pub open spec fn spec_equation(line: Line) -> Seq<char> {
    " => "@ + spec_signed(line.rolled as int) + spec_added(line.modifier) + " = "@ + spec_signed(
        line.total as int,
    )
}

/// The two faces of a roll with advantage or disadvantage: "A | B".
pub open spec fn spec_pair(code: Code, faces: Seq<u16>, kind: D, picked: int) -> Seq<char> {
    spec_shown(faces[0], spec_mark(code, kind, faces[0], picked)) + " | "@ + spec_shown(
        faces[1],
        spec_mark(code, kind, faces[1], picked),
    )
}

/// The two faces of a percentile roll: "T, O", with the zero of the tens
/// die written "00".
pub open spec fn spec_percent_pair(faces: Seq<u16>) -> Seq<char> {
    spec_decimal(faces[0] as nat) + (if faces[0] == 0 {
        "0"@
    } else {
        Seq::empty()
    }) + ", "@ + spec_decimal(faces[1] as nat)
}

/// What face number `at` adds to the line of a normal roll of `count` dice:
/// the first six faces are written out, joined by " + "; where there are
/// more than six, dots stand in place of the sixth.
pub open spec fn spec_preview_entry(faces: Seq<u16>, kind: D, count: int, at: int) -> Seq<char> {
    let shown = spec_shown(faces[at], spec_mark(Code::Normal, kind, faces[at], 0));
    if at == 0 {
        shown
    } else if at <= 5 {
        if at == 5 && count > 6 {
            " + ..."@
        } else {
            " + "@ + shown
        }
    } else {
        Seq::empty()
    }
}

/// What the first `upto` faces add to the line of a normal roll.
pub open spec fn spec_preview(faces: Seq<u16>, kind: D, count: int, upto: int) -> Seq<char>
    decreases upto,
{
    if upto <= 0 || upto > faces.len() {
        Seq::empty()
    } else {
        spec_preview(faces, kind, count, upto - 1) + spec_preview_entry(
            faces,
            kind,
            count,
            upto - 1,
        )
    }
}

/// What follows the faces of a normal roll of one command:
/// " + M = R + M = ".
pub open spec fn spec_working(line: Line) -> Seq<char> {
    spec_added(line.modifier) + " = "@ + spec_signed(line.rolled as int) + spec_added(
        line.modifier,
    ) + " = "@
}

/// The line of text for a result.
///
/// A normal roll of one command shows its faces, its modifier and its sum:
/// "4 + 2 + 5 + 2 = 11 + 2 = 13"; a normal roll of several commands shows
/// the sum alone. Any other roll shows its two faces, the one that counts,
/// the modifier and the sum: "15 | 20 => 20 + 0 = 20".
pub open spec fn spec_summary_of(
    code: Code,
    faces: Seq<u16>,
    commands: Seq<RollCommand>,
    lines: Seq<Line>,
    total: int,
) -> Seq<char> {
    match code {
        Code::Normal => (if commands.len() == 1 {
            spec_preview(
                faces,
                commands[0].kind,
                commands[0].coefficient as int,
                faces.len() as int,
            ) + spec_working(lines[0])
        } else {
            Seq::empty()
        }) + spec_signed(total),
        Code::Advantage | Code::Disadvantage => spec_pair(
            code,
            faces,
            commands[0].kind,
            lines[0].rolled as int,
        ) + spec_equation(lines[0]),
        Code::Percentile => spec_percent_pair(faces) + spec_equation(lines[0]),
    }
}

/// The line of text for a roll, or the reason why it has no result.
pub open spec fn spec_summary(code: Code, faces: Seq<u16>, commands: Seq<RollCommand>) -> Result<
    Seq<char>,
    AssessmentError,
> {
    match spec_assess(code, faces, commands) {
        Err(error) => Err(error),
        Ok((lines, total)) => Ok(spec_summary_of(code, faces, commands, lines, total)),
    }
}

/// Appends a face as it is written.
pub fn push_shown(text: &mut String, face: u16, mark: Mark)
    ensures
        final(text)@ == old(text)@ + spec_shown(face, mark),
{
    match mark {
        Mark::Plain => {
            push_decimal(text, face as u128);
        },
        Mark::Best => {
            text.append(fg_green().as_str());
            push_decimal(text, face as u128);
            text.append(fg_reset().as_str());
            assert(text@ == old(text)@ + (spec_fg_green() + spec_decimal(face as nat)
                + spec_fg_reset()));
        },
        Mark::Worst => {
            text.append(fg_red().as_str());
            push_decimal(text, face as u128);
            text.append(fg_reset().as_str());
            assert(text@ == old(text)@ + (spec_fg_red() + spec_decimal(face as nat)
                + spec_fg_reset()));
        },
    }
}

/// Appends a modifier as it is added.
pub fn push_added(text: &mut String, modifier: i16)
    ensures
        final(text)@ == old(text)@ + spec_added(modifier),
{
    if modifier >= 0 {
        text.append(" + ");
        push_decimal(text, modifier as u128);
        assert(text@ == old(text)@ + (" + "@ + spec_decimal(modifier as nat)));
    } else {
        text.append(" - ");
        push_decimal(text, (0 - modifier as i32) as u128);
        assert(text@ == old(text)@ + (" - "@ + spec_decimal((-modifier) as nat)));
    }
}

/// Appends the end of the line of a roll on which one face counts.
pub fn push_equation(text: &mut String, line: &Line)
    ensures
        final(text)@ == old(text)@ + spec_equation(*line),
{
    text.append(" => ");
    push_signed(text, line.rolled);
    push_added(text, line.modifier);
    text.append(" = ");
    push_signed(text, line.total);
    assert(text@ == old(text)@ + (" => "@ + spec_signed(line.rolled as int) + spec_added(
        line.modifier,
    ) + " = "@ + spec_signed(line.total as int)));
}

/// Appends what follows the faces of a normal roll of one command.
pub fn push_working(text: &mut String, line: &Line)
    ensures
        final(text)@ == old(text)@ + spec_working(*line),
{
    push_added(text, line.modifier);
    text.append(" = ");
    push_signed(text, line.rolled);
    push_added(text, line.modifier);
    text.append(" = ");
    assert(text@ == old(text)@ + (spec_added(line.modifier) + " = "@ + spec_signed(
        line.rolled as int,
    ) + spec_added(line.modifier) + " = "@));
}

/// Appends the faces of a normal roll of one command.
pub fn push_preview(text: &mut String, faces: &Vec<u16>, kind: D, count: u16)
    ensures
        final(text)@ == old(text)@ + spec_preview(
            faces@,
            kind,
            count as int,
            faces@.len() as int,
        ),
{
    let mut at: usize = 0;
    assert(text@ == old(text)@ + Seq::<char>::empty());
    while at < faces.len()
        invariant
            at <= faces@.len(),
            text@ == old(text)@ + spec_preview(faces@, kind, count as int, at as int),
        decreases faces@.len() - at,
    {
        let ghost before = text@;
        let found = mark(Code::Normal, kind, faces[at], 0);
        if at == 0 {
            push_shown(text, faces[at], found);
        } else if at <= DISPLAY_RESULTS {
            if at == DISPLAY_RESULTS && count as usize > DISPLAY_RESULTS + 1 {
                text.append(" + ...");
            } else {
                text.append(" + ");
                push_shown(text, faces[at], found);
                assert(text@ == before + (" + "@ + spec_shown(faces@[at as int], found)));
            }
        } else {
            assert(text@ == before + Seq::<char>::empty());
        }
        assert(text@ == before + spec_preview_entry(faces@, kind, count as int, at as int));
        at += 1;
        assert(text@ == old(text)@ + (spec_preview(faces@, kind, count as int, at - 1)
            + spec_preview_entry(faces@, kind, count as int, at - 1)));
    }
}

/// The line of text for a roll: the faces of its dice in the order of
/// their ids, what they come to, and the sum.
pub fn summary(code: Code, faces: &Vec<u16>, commands: &Vec<RollCommand>) -> (line: Result<
    String,
    AssessmentError,
>)
    ensures
        match line {
            Ok(text) => spec_summary(code, faces@, commands@) == Ok::<Seq<char>, AssessmentError>(
                text@,
            ),
            Err(error) => spec_summary(code, faces@, commands@) == Err::<
                Seq<char>,
                AssessmentError,
            >(error),
        },
{
    let assessment = match assess(code, faces, commands) {
        Ok(assessment) => assessment,
        Err(error) => {
            return Err(error);
        },
    };
    let mut text = String::new();
    match code {
        Code::Normal => {
            if commands.len() == 1 {
                push_preview(&mut text, faces, commands[0].kind, commands[0].coefficient);
                push_working(&mut text, &assessment.lines[0]);
            }
            let ghost before = text@;
            push_signed(&mut text, assessment.total);
            proof {
                let front = if commands@.len() == 1 {
                    spec_preview(
                        faces@,
                        commands@[0].kind,
                        commands@[0].coefficient as int,
                        faces@.len() as int,
                    ) + spec_working(assessment.lines@[0])
                } else {
                    Seq::<char>::empty()
                };
                assert(before == front);
            }
        },
        Code::Advantage | Code::Disadvantage => {
            let kind = commands[0].kind;
            let line = assessment.lines[0];
            let picked: u16 = line.rolled as u16;
            push_shown(&mut text, faces[0], mark(code, kind, faces[0], picked));
            text.append(" | ");
            push_shown(&mut text, faces[1], mark(code, kind, faces[1], picked));
            assert(text@ == spec_pair(code, faces@, kind, line.rolled as int));
            push_equation(&mut text, &line);
        },
        Code::Percentile => {
            let line = assessment.lines[0];
            push_decimal(&mut text, faces[0] as u128);
            if faces[0] == 0 {
                text.append("0");
            }
            text.append(", ");
            push_decimal(&mut text, faces[1] as u128);
            assert(text@ == spec_percent_pair(faces@));
            push_equation(&mut text, &line);
        },
    }
    Ok(text)
}

} // verus!
