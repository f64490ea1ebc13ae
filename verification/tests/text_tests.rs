use dice::text::{
    after_last, before_first, chars_of, find_first, find_last, has_several, is_space, number,
    occurs, parse_i16, parse_u16, push_decimal, push_signed, slice_of, split, starts_with,
    string_of, trim,
};
use dice::util::{centre, is_two_digits, terminal_centre};
use dice::arena::Arena;
use dice::die::D;

fn chars(text: &str) -> Vec<char> {
    text.chars().collect()
}

fn text(chars: Vec<char>) -> String {
    chars.into_iter().collect()
}

#[test]
fn chars_and_strings_convert_both_ways() {
    assert_eq!(chars_of("3d6+2"), vec!['3', 'd', '6', '+', '2']);
    assert_eq!(chars_of(""), Vec::<char>::new());
    assert_eq!(chars_of("d\u{e9}"), vec!['d', '\u{e9}']);
    assert_eq!(string_of(&vec!['a', 'd', 'v']), "adv");
    assert_eq!(string_of(&vec![]), "");
}

#[test]
fn trim_agrees_with_the_standard_library() {
    for case in [
        "",
        " ",
        "  3d6 ",
        "\t d20\n",
        "x",
        " a b ",
        "\u{a0}d4\u{3000}",
        "\u{2003}\u{85}2d8\u{1680}\u{2028}\u{2029}\u{202f}\u{205f}",
        "\u{200b}d4",
        "\u{1f}d4",
    ] {
        assert_eq!(text(trim(&chars(case))), case.trim());
    }
}

#[test]
fn white_space_agrees_with_the_standard_library() {
    for code in 0..0x3100u32 {
        if let Some(c) = char::from_u32(code) {
            assert_eq!(is_space(c), c.is_whitespace(), "U+{:04X}", code);
        }
    }
}

#[test]
fn searching_and_cutting() {
    let line = chars("2d6+1,d8/adv d20");
    assert_eq!(find_first(&line, ',', '/', 0), 5);
    assert_eq!(find_first(&line, ',', '/', 6), 8);
    assert_eq!(find_first(&line, '%', '%', 0), line.len());
    assert_eq!(find_last(&line, 'd', 'd'), 14);
    assert_eq!(find_last(&line, '%', '%'), 0);
    assert!(occurs(&line, '+'));
    assert!(!occurs(&line, '-'));
    assert_eq!(text(before_first(&line, 'd', 'd')), "2");
    assert_eq!(text(before_first(&line, '%', '%')), "2d6+1,d8/adv d20");
    assert_eq!(text(after_last(&line, 'd', 'd')), "20");
    assert_eq!(text(after_last(&line, '%', '%')), "2d6+1,d8/adv d20");
    assert_eq!(text(slice_of(&line, 1, 3)), "d6");
    assert!(starts_with(&line, &chars("2d")));
    assert!(!starts_with(&line, &chars("d")));
    assert!(starts_with(&line, &chars("")));
    assert!(!starts_with(&chars("ad"), &chars("adv")));
}

#[test]
fn split_agrees_with_the_standard_library() {
    for case in ["", "a", "a,b", "a,b/c", ",", "a,", "/a", "a,,b", "2d6+1, d8 / d4"] {
        let expected: Vec<String> =
            case.split(&[',', '/'][..]).map(|piece| piece.to_string()).collect();
        let pieces: Vec<String> = split(&chars(case), ',', '/').into_iter().map(text).collect();
        assert_eq!(pieces, expected);
    }
}

#[test]
fn several_signs() {
    assert!(!has_several(&chars("3d6"), '+', '-'));
    assert!(!has_several(&chars("3d6+2"), '+', '-'));
    assert!(has_several(&chars("3d6+-2"), '+', '-'));
    assert!(has_several(&chars("-3d6-2"), '+', '-'));
}

#[test]
fn numbers_agree_with_the_standard_library() {
    for case in [
        "", "0", "7", "007", "65535", "65536", "99999999999999999999", "+5", "-5", "+", "-",
        "++5", "+-5", "5 ", " 5", "5a", "a", "32767", "32768", "-32768", "-32769", "+32767",
        "-0", "+0", "1_000", "\u{661}",
    ] {
        assert_eq!(parse_u16(&chars(case)), case.parse::<u16>().ok(), "{:?}", case);
        assert_eq!(parse_i16(&chars(case)), case.parse::<i16>().ok(), "{:?}", case);
    }
}

#[test]
fn number_keeps_to_its_limit() {
    assert_eq!(number(&chars("100"), 100), Some(100));
    assert_eq!(number(&chars("101"), 100), None);
    assert_eq!(number(&chars("000100"), 100), Some(100));
    assert_eq!(number(&chars(""), 100), None);
    assert_eq!(number(&chars("1x"), 100), None);
}

#[test]
fn decimal_agrees_with_the_standard_library() {
    for n in [0u128, 1, 9, 10, 11, 99, 100, 101, 65535, 1_000_000, u128::MAX] {
        let mut text = String::from("x");
        push_decimal(&mut text, n);
        assert_eq!(text, format!("x{}", n));
    }
    for n in [0i128, 1, -1, 10, -10, -99, 13, i128::MAX, i128::MIN] {
        let mut text = String::new();
        push_signed(&mut text, n);
        assert_eq!(text, format!("{}", n));
    }
}

#[test]
fn two_digits() {
    assert!(is_two_digits(10, D::Twenty));
    assert!(!is_two_digits(9, D::Twenty));
    assert!(is_two_digits(0, D::PercentTens));
    assert!(!is_two_digits(0, D::PercentOnes));
    assert!(is_two_digits(90, D::PercentTens));
}

#[test]
fn centre_of_the_arena_and_of_a_message() {
    let arena = Arena::new(80, 24).unwrap();
    assert_eq!(terminal_centre(&arena), (40, 12));
    assert_eq!(centre(" PRESS ANY KEY ", &arena), 33);
    assert_eq!(centre("", &arena), 40);
    let narrow = Arena::new(4, 2).unwrap();
    assert_eq!(terminal_centre(&narrow), (2, 1));
    assert_eq!(centre("Rolling:", &narrow), 1);
    assert_eq!(centre("abcd", &narrow), 0);
}
