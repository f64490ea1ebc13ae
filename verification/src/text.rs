//! Text as sequences of characters: taking strings apart, putting them
//! together, and the decimal numbers in them.

use vstd::prelude::*;

verus! {

/// Appends one character with `String::push`.
///
/// Not verified: the contract says what `push` documents, that the character
/// is added at the end and nothing else changes.
#[verifier::external_body]
pub(crate) fn push_char(text: &mut String, c: char)
    ensures
        final(text)@ == old(text)@.push(c),
{
    text.push(c)
}

/// The characters of a string, in order.
pub fn chars_of(text: &str) -> (chars: Vec<char>)
    ensures
        chars@ == text@,
{
    let mut chars: Vec<char> = Vec::new();
    for c in it: text.chars()
        invariant
            it.seq() == text@,
            chars@ == it.seq().take(it.index() as int),
    {
        chars.push(c);
    }
    chars
}

/// The string made of the given characters.
pub fn string_of(chars: &Vec<char>) -> (text: String)
    ensures
        text@ == chars@,
{
    let mut text = String::new();
    let mut i: usize = 0;
    while i < chars.len()
        invariant
            i <= chars@.len(),
            text@ == chars@.take(i as int),
        decreases chars@.len() - i,
    {
        push_char(&mut text, chars[i]);
        i += 1;
        assert(chars@.take(i as int) == chars@.take(i - 1).push(chars@[i - 1]));
    }
    assert(chars@.take(chars@.len() as int) == chars@);
    text
}

/// The characters from `from` up to, not including, `to`.
pub fn slice_of(chars: &Vec<char>, from: usize, to: usize) -> (piece: Vec<char>)
    requires
        from <= to <= chars@.len(),
    ensures
        piece@ == chars@.subrange(from as int, to as int),
{
    let mut piece: Vec<char> = Vec::new();
    let mut i: usize = from;
    while i < to
        invariant
            from <= i <= to <= chars@.len(),
            piece@ == chars@.subrange(from as int, i as int),
        decreases to - i,
    {
        piece.push(chars[i]);
        i += 1;
        assert(chars@.subrange(from as int, i as int) == chars@.subrange(
            from as int,
            i - 1,
        ).push(chars@[i - 1]));
    }
    piece
}

/// Whether a character is white space: one of the characters that Unicode
/// lists as White_Space.
pub open spec fn spec_is_space(c: char) -> bool {
    let code = c as u32;
    ||| 0x09 <= code <= 0x0d
    ||| code == 0x20
    ||| code == 0x85
    ||| code == 0xa0
    ||| code == 0x1680
    ||| 0x2000 <= code <= 0x200a
    ||| code == 0x2028
    ||| code == 0x2029
    ||| code == 0x202f
    ||| code == 0x205f
    ||| code == 0x3000
}

/// Whether a character is white space.
#[verifier::when_used_as_spec(spec_is_space)]
pub fn is_space(c: char) -> (space: bool)
    ensures
        space == spec_is_space(c),
{
    let code: u32 = c as u32;
    (0x09 <= code && code <= 0x0d) || code == 0x20 || code == 0x85 || code == 0xa0 || code
        == 0x1680 || (0x2000 <= code && code <= 0x200a) || code == 0x2028 || code == 0x2029
        || code == 0x202f || code == 0x205f || code == 0x3000
}

/// The index of the first character at or after `from` that is not white
/// space; the length of the text if there is none.
pub open spec fn spec_skip_spaces(s: Seq<char>, from: int) -> int
    decreases s.len() - from,
{
    if from < 0 || from >= s.len() {
        s.len() as int
    } else if spec_is_space(s[from]) {
        spec_skip_spaces(s, from + 1)
    } else {
        from
    }
}

/// The index just after the last character before `upto` that is not white
/// space; 0 if there is none.
pub open spec fn spec_drop_spaces(s: Seq<char>, upto: int) -> int
    decreases upto,
{
    if upto <= 0 || upto > s.len() {
        0
    } else if spec_is_space(s[upto - 1]) {
        spec_drop_spaces(s, upto - 1)
    } else {
        upto
    }
}

/// The text without the white space at its two ends.
pub open spec fn spec_trim(s: Seq<char>) -> Seq<char> {
    let from = spec_skip_spaces(s, 0);
    let upto = spec_drop_spaces(s, s.len() as int);
    if from < upto {
        s.subrange(from, upto)
    } else {
        Seq::empty()
    }
}

/// The text without the white space at its two ends.
pub fn trim(chars: &Vec<char>) -> (trimmed: Vec<char>)
    ensures
        trimmed@ == spec_trim(chars@),
{
    let length = chars.len();
    let mut from: usize = 0;
    while from < length && is_space(chars[from])
        invariant
            from <= length == chars@.len(),
            spec_skip_spaces(chars@, from as int) == spec_skip_spaces(chars@, 0),
        decreases length - from,
    {
        from += 1;
    }
    let mut upto: usize = length;
    while upto > 0 && is_space(chars[upto - 1])
        invariant
            upto <= length == chars@.len(),
            spec_drop_spaces(chars@, upto as int) == spec_drop_spaces(chars@, length as int),
        decreases upto,
    {
        upto -= 1;
    }
    if from < upto {
        slice_of(chars, from, upto)
    } else {
        Vec::new()
    }
}

/// Trimmed text has no white space at either end, and trimming it again
/// changes nothing.
pub proof fn lemma_trim_is_tight(s: Seq<char>)
    ensures
        spec_trim(s).len() > 0 ==> !spec_is_space(spec_trim(s).first()) && !spec_is_space(
            spec_trim(s).last(),
        ),
        spec_trim(spec_trim(s)) == spec_trim(s),
{
    lemma_skip_spaces_stops(s, 0);
    lemma_drop_spaces_stops(s, s.len() as int);
    let t = spec_trim(s);
    if t.len() > 0 {
        assert(spec_skip_spaces(t, 0) == 0);
        assert(spec_drop_spaces(t, t.len() as int) == t.len());
        assert(t.subrange(0, t.len() as int) == t);
    }
}

/// Where the skipping of white space stops: at or after `from`, past white
/// space only, and on a character that is none.
pub proof fn lemma_skip_spaces_stops(s: Seq<char>, from: int)
    requires
        0 <= from <= s.len(),
    ensures
        from <= spec_skip_spaces(s, from) <= s.len(),
        forall|i: int| from <= i < spec_skip_spaces(s, from) ==> spec_is_space(#[trigger] s[i]),
        spec_skip_spaces(s, from) < s.len() ==> !spec_is_space(s[spec_skip_spaces(s, from)]),
    decreases s.len() - from,
{
    if from < s.len() && spec_is_space(s[from]) {
        lemma_skip_spaces_stops(s, from + 1);
    }
}

/// Where the dropping of white space stops: at or before `upto`, before
/// white space only, and just after a character that is none.
pub proof fn lemma_drop_spaces_stops(s: Seq<char>, upto: int)
    requires
        0 <= upto <= s.len(),
    ensures
        0 <= spec_drop_spaces(s, upto) <= upto,
        forall|i: int| spec_drop_spaces(s, upto) <= i < upto ==> spec_is_space(#[trigger] s[i]),
        spec_drop_spaces(s, upto) > 0 ==> !spec_is_space(s[spec_drop_spaces(s, upto) - 1]),
    decreases upto,
{
    if upto > 0 && spec_is_space(s[upto - 1]) {
        lemma_drop_spaces_stops(s, upto - 1);
    }
}

/// The index of the first character at or after `from` that is `a` or `b`;
/// the length of the text if there is none.
pub open spec fn spec_find_first(s: Seq<char>, a: char, b: char, from: int) -> int
    decreases s.len() - from,
{
    if from < 0 || from >= s.len() {
        s.len() as int
    } else if s[from] == a || s[from] == b {
        from
    } else {
        spec_find_first(s, a, b, from + 1)
    }
}

/// The index just after the last character before `upto` that is `a` or
/// `b`; 0 if there is none.
pub open spec fn spec_find_last(s: Seq<char>, a: char, b: char, upto: int) -> int
    decreases upto,
{
    if upto <= 0 || upto > s.len() {
        0
    } else if s[upto - 1] == a || s[upto - 1] == b {
        upto
    } else {
        spec_find_last(s, a, b, upto - 1)
    }
}

/// How many of the characters before `upto` are `a` or `b`.
pub open spec fn spec_count(s: Seq<char>, a: char, b: char, upto: int) -> nat
    decreases upto,
{
    if upto <= 0 || upto > s.len() {
        0
    } else if s[upto - 1] == a || s[upto - 1] == b {
        1 + spec_count(s, a, b, upto - 1)
    } else {
        spec_count(s, a, b, upto - 1)
    }
}

/// Whether the character occurs in the text.
pub open spec fn spec_occurs(s: Seq<char>, c: char) -> bool {
    spec_find_first(s, c, c, 0) < s.len()
}

/// What stands before the first `a` or `b`; all of the text if there is
/// none.
pub open spec fn spec_before_first(s: Seq<char>, a: char, b: char) -> Seq<char> {
    s.take(spec_find_first(s, a, b, 0))
}

/// What stands after the last `a` or `b`; all of the text if there is none.
pub open spec fn spec_after_last(s: Seq<char>, a: char, b: char) -> Seq<char> {
    s.skip(spec_find_last(s, a, b, s.len() as int))
}

/// Whether the text begins with the prefix.
pub open spec fn spec_starts_with(s: Seq<char>, prefix: Seq<char>) -> bool {
    prefix.len() <= s.len() && s.take(prefix.len() as int) == prefix
}

/// The pieces of the text from `from` on, cut at every `a` and `b`: one more
/// piece than there are cuts.
pub open spec fn spec_split(s: Seq<char>, a: char, b: char, from: int) -> Seq<Seq<char>>
    decreases s.len() - from,
{
    let cut = spec_find_first(s, a, b, from);
    if from < 0 || from > s.len() {
        Seq::empty()
    } else if cut >= s.len() {
        seq![s.subrange(from, s.len() as int)]
    } else if cut < from {
        Seq::empty()
    } else {
        seq![s.subrange(from, cut)] + spec_split(s, a, b, cut + 1)
    }
}

/// The first occurrence lies at or after `from`, and nothing before it is
/// `a` or `b`.
pub proof fn lemma_find_first_bounds(s: Seq<char>, a: char, b: char, from: int)
    requires
        0 <= from <= s.len(),
    ensures
        from <= spec_find_first(s, a, b, from) <= s.len(),
        forall|i: int|
            from <= i < spec_find_first(s, a, b, from) ==> (#[trigger] s[i]) != a && s[i] != b,
        spec_find_first(s, a, b, from) < s.len() ==> s[spec_find_first(s, a, b, from)] == a
            || s[spec_find_first(s, a, b, from)] == b,
    decreases s.len() - from,
{
    if from < s.len() && !(s[from] == a || s[from] == b) {
        lemma_find_first_bounds(s, a, b, from + 1);
    }
}

/// The last occurrence ends at or before `upto`, and nothing after it is `a`
/// or `b`.
pub proof fn lemma_find_last_bounds(s: Seq<char>, a: char, b: char, upto: int)
    requires
        0 <= upto <= s.len(),
    ensures
        0 <= spec_find_last(s, a, b, upto) <= upto,
        forall|i: int|
            spec_find_last(s, a, b, upto) <= i < upto ==> (#[trigger] s[i]) != a && s[i] != b,
        spec_find_last(s, a, b, upto) > 0 ==> s[spec_find_last(s, a, b, upto) - 1] == a
            || s[spec_find_last(s, a, b, upto) - 1] == b,
    decreases upto,
{
    if upto > 0 && !(s[upto - 1] == a || s[upto - 1] == b) {
        lemma_find_last_bounds(s, a, b, upto - 1);
    }
}

/// The index of the first `a` or `b` at or after `from`.
pub fn find_first(chars: &Vec<char>, a: char, b: char, from: usize) -> (index: usize)
    requires
        from <= chars@.len(),
    ensures
        index == spec_find_first(chars@, a, b, from as int),
        from <= index <= chars@.len(),
{
    let length = chars.len();
    let mut index: usize = from;
    while index < length && !(chars[index] == a || chars[index] == b)
        invariant
            from <= index <= length == chars@.len(),
            spec_find_first(chars@, a, b, index as int) == spec_find_first(
                chars@,
                a,
                b,
                from as int,
            ),
        decreases length - index,
    {
        index += 1;
    }
    index
}

/// The index just after the last `a` or `b`.
pub fn find_last(chars: &Vec<char>, a: char, b: char) -> (index: usize)
    ensures
        index == spec_find_last(chars@, a, b, chars@.len() as int),
        index <= chars@.len(),
{
    let length = chars.len();
    let mut index: usize = length;
    while index > 0 && !(chars[index - 1] == a || chars[index - 1] == b)
        invariant
            index <= length == chars@.len(),
            spec_find_last(chars@, a, b, index as int) == spec_find_last(
                chars@,
                a,
                b,
                length as int,
            ),
        decreases index,
    {
        index -= 1;
    }
    index
}

/// Whether the character occurs in the text.
pub fn occurs(chars: &Vec<char>, c: char) -> (found: bool)
    ensures
        found == spec_occurs(chars@, c),
{
    find_first(chars, c, c, 0) < chars.len()
}

/// What stands before the first `a` or `b`.
pub fn before_first(chars: &Vec<char>, a: char, b: char) -> (piece: Vec<char>)
    ensures
        piece@ == spec_before_first(chars@, a, b),
{
    let cut = find_first(chars, a, b, 0);
    slice_of(chars, 0, cut)
}

/// What stands after the last `a` or `b`.
pub fn after_last(chars: &Vec<char>, a: char, b: char) -> (piece: Vec<char>)
    ensures
        piece@ == spec_after_last(chars@, a, b),
{
    let cut = find_last(chars, a, b);
    slice_of(chars, cut, chars.len())
}

/// Whether more than one of the characters is `a` or `b`.
pub fn has_several(chars: &Vec<char>, a: char, b: char) -> (several: bool)
    ensures
        several == (spec_count(chars@, a, b, chars@.len() as int) > 1),
{
    let mut seen: usize = 0;
    let mut i: usize = 0;
    while i < chars.len()
        invariant
            i <= chars@.len(),
            seen <= 1,
            seen == spec_count(chars@, a, b, i as int),
        decreases chars@.len() - i,
    {
        if chars[i] == a || chars[i] == b {
            if seen == 1 {
                proof {
                    lemma_count_grows(chars@, a, b, i + 1, chars@.len() as int);
                }
                return true;
            }
            seen += 1;
        }
        i += 1;
    }
    false
}

/// Counting further never lowers the count.
pub proof fn lemma_count_grows(s: Seq<char>, a: char, b: char, n: int, m: int)
    requires
        0 <= n <= m <= s.len(),
    ensures
        spec_count(s, a, b, n) <= spec_count(s, a, b, m),
    decreases m - n,
{
    if n < m {
        lemma_count_grows(s, a, b, n, m - 1);
    }
}

/// Whether the text begins with the prefix.
pub fn starts_with(chars: &Vec<char>, prefix: &Vec<char>) -> (found: bool)
    ensures
        found == spec_starts_with(chars@, prefix@),
{
    if prefix.len() > chars.len() {
        return false;
    }
    let mut i: usize = 0;
    while i < prefix.len()
        invariant
            i <= prefix@.len() <= chars@.len(),
            chars@.take(i as int) == prefix@.take(i as int),
        decreases prefix@.len() - i,
    {
        if chars[i] != prefix[i] {
            assert(chars@.take(prefix@.len() as int)[i as int] != prefix@[i as int]);
            return false;
        }
        i += 1;
        assert(chars@.take(i as int) == chars@.take(i - 1).push(chars@[i - 1]));
        assert(prefix@.take(i as int) == prefix@.take(i - 1).push(prefix@[i - 1]));
    }
    assert(prefix@.take(prefix@.len() as int) == prefix@);
    true
}

/// The texts of a list of strings.
pub open spec fn spec_texts(strings: Seq<String>) -> Seq<Seq<char>> {
    strings.map_values(|text: String| text@)
}

/// The views of the pieces of a text.
pub open spec fn spec_views(pieces: Seq<Vec<char>>) -> Seq<Seq<char>> {
    pieces.map_values(|piece: Vec<char>| piece@)
}

/// The pieces of the text, cut at every `a` and `b`.
pub fn split(chars: &Vec<char>, a: char, b: char) -> (pieces: Vec<Vec<char>>)
    ensures
        spec_views(pieces@) == spec_split(chars@, a, b, 0),
        pieces@.len() >= 1,
{
    let length = chars.len();
    let mut pieces: Vec<Vec<char>> = Vec::new();
    let mut from: usize = 0;
    loop
        invariant_except_break
            spec_views(pieces@) + spec_split(chars@, a, b, from as int) == spec_split(
                chars@,
                a,
                b,
                0,
            ),
        invariant
            from <= length == chars@.len(),
        ensures
            spec_views(pieces@) == spec_split(chars@, a, b, 0),
            pieces@.len() >= 1,
        decreases length - from,
    {
        let cut = find_first(chars, a, b, from);
        let piece = slice_of(chars, from, cut);
        let ghost before = pieces@;
        pieces.push(piece);
        proof {
            assert(spec_views(pieces@) == spec_views(before) + seq![piece@]);
        }
        if cut >= length {
            proof {
                assert(spec_split(chars@, a, b, from as int) == seq![piece@]);
            }
            break;
        }
        proof {
            assert(spec_split(chars@, a, b, from as int) == seq![piece@] + spec_split(
                chars@,
                a,
                b,
                cut + 1,
            ));
            assert(spec_views(before) + (seq![piece@] + spec_split(chars@, a, b, cut + 1)) == (
            spec_views(before) + seq![piece@]) + spec_split(chars@, a, b, cut + 1));
        }
        from = cut + 1;
    }
    pieces
}

/// Whether a character is one of the ten decimal digits.
pub open spec fn spec_is_digit(c: char) -> bool {
    0x30 <= c as u32 <= 0x39
}

/// The value of a decimal digit.
pub open spec fn spec_digit_value(c: char) -> int {
    c as u32 - 0x30
}

/// Whether the text holds decimal digits only.
pub open spec fn spec_all_digits(s: Seq<char>) -> bool {
    forall|i: int| 0 <= i < s.len() ==> spec_is_digit(#[trigger] s[i])
}

/// The number that the first `upto` digits of the text spell.
pub open spec fn spec_digits_value(s: Seq<char>, upto: int) -> int
    decreases upto,
{
    if upto <= 0 || upto > s.len() {
        0
    } else {
        10 * spec_digits_value(s, upto - 1) + spec_digit_value(s[upto - 1])
    }
}

/// The number that a text of one or more decimal digits spells; nothing
/// for any other text.
pub open spec fn spec_number(s: Seq<char>) -> Option<int> {
    if s.len() > 0 && spec_all_digits(s) {
        Some(spec_digits_value(s, s.len() as int))
    } else {
        None
    }
}

/// The text without a sign in front: a leading '+', and a leading '-' where
/// `signed`, is taken off.
pub open spec fn spec_unsigned_part(s: Seq<char>, signed: bool) -> Seq<char> {
    if s.len() > 0 && (s[0] == '+' || (signed && s[0] == '-')) {
        s.skip(1)
    } else {
        s
    }
}

/// The number from 0 to 65535 that a text spells: decimal digits, with or
/// without a '+' in front.
pub open spec fn spec_parse_u16(s: Seq<char>) -> Option<u16> {
    match spec_number(spec_unsigned_part(s, false)) {
        Some(n) => if n <= u16::MAX {
            Some(n as u16)
        } else {
            None
        },
        None => None,
    }
}

/// The number from -32768 to 32767 that a text spells: decimal digits, with
/// or without a '+' or '-' in front.
pub open spec fn spec_parse_i16(s: Seq<char>) -> Option<i16> {
    let negative = s.len() > 0 && s[0] == '-';
    match spec_number(spec_unsigned_part(s, true)) {
        Some(n) => if negative && n <= 0x8000 {
            Some((-n) as i16)
        } else if !negative && n <= i16::MAX {
            Some(n as i16)
        } else {
            None
        },
        None => None,
    }
}

/// With digits only, a longer prefix spells no smaller a number.
pub proof fn lemma_digits_value_grows(s: Seq<char>, n: int, m: int)
    requires
        spec_all_digits(s),
        0 <= n <= m <= s.len(),
    ensures
        0 <= spec_digits_value(s, n) <= spec_digits_value(s, m),
    decreases m,
{
    if n < m {
        lemma_digits_value_grows(s, n, m - 1);
        assert(spec_is_digit(s[m - 1]));
    } else if n > 0 {
        lemma_digits_value_grows(s, n - 1, n - 1);
        assert(spec_is_digit(s[n - 1]));
    }
}

/// The number that a text of digits spells, if it is no more than `limit`.
pub fn number(digits: &Vec<char>, limit: u32) -> (parsed: Option<u32>)
    requires
        limit <= 100_000,
    ensures
        match parsed {
            Some(value) => value <= limit && spec_number(digits@) == Some(value as int),
            None => spec_number(digits@) matches Some(n) ==> n > limit,
        },
{
    let length = digits.len();
    if length == 0 {
        return None;
    }
    let mut value: u32 = 0;
    let mut i: usize = 0;
    while i < length
        invariant
            i <= length == digits@.len(),
            limit <= 100_000,
            value <= limit,
            value == spec_digits_value(digits@, i as int),
            forall|j: int| 0 <= j < i ==> spec_is_digit(#[trigger] digits@[j]),
        decreases length - i,
    {
        let code: u32 = digits[i] as u32;
        if code < 0x30 || code > 0x39 {
            assert(!spec_is_digit(digits@[i as int]));
            return None;
        }
        value = value * 10 + (code - 0x30);
        i += 1;
        if value > limit {
            proof {
                if spec_all_digits(digits@) {
                    lemma_digits_value_grows(digits@, i as int, length as int);
                }
            }
            return None;
        }
    }
    Some(value)
}

/// The number from 0 to 65535 that a text spells.
pub fn parse_u16(chars: &Vec<char>) -> (parsed: Option<u16>)
    ensures
        parsed == spec_parse_u16(chars@),
{
    let from: usize = if chars.len() > 0 && chars[0] == '+' {
        1
    } else {
        0
    };
    let digits = slice_of(chars, from, chars.len());
    assert(digits@ == spec_unsigned_part(chars@, false));
    match number(&digits, 0xffff) {
        Some(n) => Some(n as u16),
        None => None,
    }
}

/// The number from -32768 to 32767 that a text spells.
pub fn parse_i16(chars: &Vec<char>) -> (parsed: Option<i16>)
    ensures
        parsed == spec_parse_i16(chars@),
{
    let negative = chars.len() > 0 && chars[0] == '-';
    let from: usize = if chars.len() > 0 && (chars[0] == '+' || chars[0] == '-') {
        1
    } else {
        0
    };
    let digits = slice_of(chars, from, chars.len());
    assert(digits@ == spec_unsigned_part(chars@, true));
    if negative {
        match number(&digits, 0x8000) {
            Some(n) => Some((0 - (n as i32)) as i16),
            None => None,
        }
    } else {
        match number(&digits, 0x7fff) {
            Some(n) => Some(n as i16),
            None => None,
        }
    }
}

/// The character of a decimal digit.
pub open spec fn spec_digit_char(digit: int) -> char {
    if digit == 0 {
        '0'
    } else if digit == 1 {
        '1'
    } else if digit == 2 {
        '2'
    } else if digit == 3 {
        '3'
    } else if digit == 4 {
        '4'
    } else if digit == 5 {
        '5'
    } else if digit == 6 {
        '6'
    } else if digit == 7 {
        '7'
    } else if digit == 8 {
        '8'
    } else {
        '9'
    }
}

/// A number from 0 up written out in decimal, without leading zeros.
pub open spec fn spec_decimal(n: nat) -> Seq<char>
    decreases n,
{
    if n < 10 {
        seq![spec_digit_char(n as int)]
    } else {
        spec_decimal(n / 10).push(spec_digit_char((n % 10) as int))
    }
}

/// A number written out in decimal, with a '-' in front if it is below
/// zero.
pub open spec fn spec_signed(n: int) -> Seq<char> {
    if n < 0 {
        seq!['-'] + spec_decimal((-n) as nat)
    } else {
        spec_decimal(n as nat)
    }
}

/// The character of a decimal digit.
pub fn digit_char(digit: u8) -> (c: char)
    requires
        digit <= 9,
    ensures
        c == spec_digit_char(digit as int),
        spec_is_digit(c),
        spec_digit_value(c) == digit,
{
    match digit {
        0 => '0',
        1 => '1',
        2 => '2',
        3 => '3',
        4 => '4',
        5 => '5',
        6 => '6',
        7 => '7',
        8 => '8',
        _ => '9',
    }
}

/// Appends a number from 0 up in decimal.
pub fn push_decimal(text: &mut String, n: u128)
    ensures
        final(text)@ == old(text)@ + spec_decimal(n as nat),
    decreases n,
{
    if n >= 10 {
        push_decimal(text, n / 10);
    }
    let ghost before = text@;
    push_char(text, digit_char((n % 10) as u8));
    proof {
        if n >= 10 {
            assert(before.push(spec_digit_char((n % 10) as int)) == old(text)@ + spec_decimal(
                (n / 10) as nat,
            ).push(spec_digit_char((n % 10) as int)));
        } else {
            assert(old(text)@.push(spec_digit_char(n as int)) == old(text)@ + seq![
                spec_digit_char(n as int),
            ]);
        }
    }
}

/// Appends a number in decimal, with a '-' in front if it is below zero.
pub fn push_signed(text: &mut String, n: i128)
    ensures
        final(text)@ == old(text)@ + spec_signed(n as int),
{
    if n < 0 {
        push_char(text, '-');
        let size: u128 = ((-(n + 1)) as u128) + 1;
        push_decimal(text, size);
        assert(old(text)@.push('-') + spec_decimal(size as nat) == old(text)@ + (seq!['-']
            + spec_decimal(size as nat)));
    } else {
        push_decimal(text, n as u128);
    }
}

/// A number written out in decimal reads back as itself.
pub proof fn lemma_decimal_reads_back(n: nat)
    ensures
        spec_number(spec_decimal(n)) == Some(n as int),
        spec_decimal(n).len() >= 1,
        spec_all_digits(spec_decimal(n)),
    decreases n,
{
    let text = spec_decimal(n);
    if n >= 10 {
        lemma_decimal_reads_back(n / 10);
        let front = spec_decimal(n / 10);
        assert(text == front.push(spec_digit_char((n % 10) as int)));
        assert(spec_all_digits(text)) by {
            assert forall|i: int| 0 <= i < text.len() implies spec_is_digit(#[trigger] text[i]) by {
                if i < front.len() {
                    assert(text[i] == front[i]);
                }
            }
        }
        lemma_digits_value_of_prefix(text, front, front.len() as int);
    } else {
        assert(spec_digits_value(text, 0) == 0);
        assert(spec_is_digit(text[0]));
    }
}

/// The number that a prefix spells depends on the prefix alone.
pub proof fn lemma_digits_value_of_prefix(s: Seq<char>, t: Seq<char>, upto: int)
    requires
        0 <= upto <= s.len(),
        upto <= t.len(),
        forall|i: int| 0 <= i < upto ==> s[i] == t[i],
    ensures
        spec_digits_value(s, upto) == spec_digits_value(t, upto),
    decreases upto,
{
    if upto > 0 {
        lemma_digits_value_of_prefix(s, t, upto - 1);
    }
}

/// A text of digits spells a number from 0 up.
pub proof fn lemma_number_is_not_negative(s: Seq<char>)
    ensures
        spec_number(s) matches Some(n) ==> n >= 0,
{
    if spec_all_digits(s) {
        lemma_digits_value_grows(s, 0, s.len() as int);
    }
}

/// A digit is no white space, no sign, no "d" and no "%".
pub proof fn lemma_digit_is_plain(c: char)
    requires
        spec_is_digit(c),
    ensures
        !spec_is_space(c),
        c != '+',
        c != '-',
        c != 'd',
        c != '%',
{
}

/// The first `a` or `b` at or after `from` is at `at` if none stands
/// before `at` and one stands there, or the text ends there.
pub proof fn lemma_find_first_at(s: Seq<char>, a: char, b: char, from: int, at: int)
    requires
        0 <= from <= at <= s.len(),
        forall|i: int| from <= i < at ==> (#[trigger] s[i]) != a && s[i] != b,
        at < s.len() ==> s[at] == a || s[at] == b,
    ensures
        spec_find_first(s, a, b, from) == at,
    decreases at - from,
{
    if from < at {
        assert(s[from] != a && s[from] != b);
        lemma_find_first_at(s, a, b, from + 1, at);
    }
}

/// The last `a` or `b` before `upto` ends at `at` if none stands from `at`
/// on and one stands just before it, or `at` is the start of the text.
pub proof fn lemma_find_last_at(s: Seq<char>, a: char, b: char, upto: int, at: int)
    requires
        0 <= at <= upto <= s.len(),
        forall|i: int| at <= i < upto ==> (#[trigger] s[i]) != a && s[i] != b,
        at > 0 ==> s[at - 1] == a || s[at - 1] == b,
    ensures
        spec_find_last(s, a, b, upto) == at,
    decreases upto - at,
{
    if at < upto {
        assert(s[upto - 1] != a && s[upto - 1] != b);
        lemma_find_last_at(s, a, b, upto - 1, at);
    }
}

/// A text without white space at its ends is its own trimmed form.
pub proof fn lemma_trim_keeps(s: Seq<char>)
    requires
        s.len() > 0 ==> !spec_is_space(s.first()) && !spec_is_space(s.last()),
    ensures
        spec_trim(s) == s,
{
    if s.len() > 0 {
        assert(spec_skip_spaces(s, 0) == 0);
        assert(spec_drop_spaces(s, s.len() as int) == s.len());
        assert(s.subrange(0, s.len() as int) == s);
    } else {
        assert(spec_trim(s) =~= s);
    }
}

/// Where at most the character at `at` is `a` or `b`, the count is at most
/// one, and none where that character is neither.
pub proof fn lemma_count_single(s: Seq<char>, a: char, b: char, at: int, upto: int)
    requires
        0 <= upto <= s.len(),
        forall|i: int| 0 <= i < upto && i != at ==> (#[trigger] s[i]) != a && s[i] != b,
    ensures
        spec_count(s, a, b, upto) <= 1,
        !(0 <= at < upto && (s[at] == a || s[at] == b)) ==> spec_count(s, a, b, upto) == 0,
    decreases upto,
{
    if upto > 0 {
        lemma_count_single(s, a, b, at, upto - 1);
        if upto - 1 != at {
            assert(s[upto - 1] != a && s[upto - 1] != b);
        }
    }
}

} // verus!
