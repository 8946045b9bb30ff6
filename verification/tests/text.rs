use rgc::text::{
    char_is_whitespace, chars_of, decimal_text, digit_text, find, matches_at, skip_whitespace,
    skip_whitespace_back, trim_bounds,
};

fn chars(s: &str) -> Vec<char> {
    s.chars().collect()
}

#[test]
fn white_space_is_what_the_standard_library_calls_white_space() {
    for n in 0u32..=0x10FFFF {
        if let Some(c) = char::from_u32(n) {
            assert_eq!(char_is_whitespace(c), c.is_whitespace(), "U+{:04X}", n);
        }
    }
}

#[test]
fn chars_of_keeps_every_character_in_order() {
    assert_eq!(chars_of(""), Vec::<char>::new());
    assert_eq!(chars_of("a\u{e9}\u{1F600}z"), vec!['a', '\u{e9}', '\u{1F600}', 'z']);
}

#[test]
fn trim_bounds_agree_with_trim() {
    let samples = [
        "",
        " ",
        "a",
        "  a  ",
        "\t\r\n a b \u{a0}",
        "a  b",
        "\u{2003}x\u{3000}",
        "   ",
        "no-space",
    ];
    for s in samples {
        let cs = chars(s);
        let (a, b) = trim_bounds(&cs, 0, cs.len());
        let got: String = cs[a..b].iter().collect();
        assert_eq!(got, s.trim(), "{:?}", s);
    }
}

#[test]
fn trim_bounds_stay_inside_the_given_range() {
    let cs = chars("ab  cd  ef");
    assert_eq!(trim_bounds(&cs, 2, 8), (4, 6));
    assert_eq!(trim_bounds(&cs, 2, 4), (4, 4));
    assert_eq!(trim_bounds(&cs, 3, 3), (3, 3));
    assert_eq!(trim_bounds(&cs, 0, 10), (0, 10));
}

#[test]
fn skipping_white_space_stops_at_the_first_other_character() {
    let cs = chars("  \t x  y ");
    assert_eq!(skip_whitespace(&cs, 0), 4);
    assert_eq!(skip_whitespace(&cs, 4), 4);
    assert_eq!(skip_whitespace(&cs, 5), 7);
    assert_eq!(skip_whitespace(&cs, 8), 9);
    assert_eq!(skip_whitespace(&cs, 9), 9);
    assert_eq!(skip_whitespace_back(&cs, 0, 9), 8);
    assert_eq!(skip_whitespace_back(&cs, 0, 7), 5);
    assert_eq!(skip_whitespace_back(&cs, 0, 4), 0);
    assert_eq!(skip_whitespace_back(&cs, 2, 4), 2);
}

#[test]
fn find_gives_the_first_occurrence() {
    let cs = chars("a\r\nb\r\nc");
    assert_eq!(find(&cs, &chars("\r\n")), Some(1));
    assert_eq!(find(&cs, &chars("c")), Some(6));
    assert_eq!(find(&cs, &chars("\n\r")), None);
    assert_eq!(find(&cs, &chars("")), Some(0));
    assert_eq!(find(&chars(""), &chars("")), Some(0));
    assert_eq!(find(&chars(""), &chars("a")), None);
    assert_eq!(find(&chars("\r"), &chars("\r\n")), None);
    assert_eq!(find(&chars("\r\r\n"), &chars("\r\n")), Some(1));
    assert_eq!(find(&chars("aaab"), &chars("aab")), Some(1));
}

#[test]
fn matches_at_checks_one_place() {
    let cs = chars("https://x");
    assert!(matches_at(&cs, &chars("http"), 0));
    assert!(matches_at(&cs, &chars("://"), 5));
    assert!(!matches_at(&cs, &chars("://"), 4));
    assert!(!matches_at(&cs, &chars("x"), 9));
    assert!(matches_at(&cs, &chars(""), 9));
    assert!(!matches_at(&cs, &chars(""), 10));
    assert!(!matches_at(&cs, &chars("x/"), 8));
    assert!(!matches_at(&chars("ab"), &chars("abc"), 0));
    assert!(!matches_at(&cs, &chars("x"), usize::MAX));
}

#[test]
fn numbers_are_written_in_decimal() {
    assert_eq!(decimal_text(0), "0");
    assert_eq!(decimal_text(7), "7");
    assert_eq!(decimal_text(10), "10");
    assert_eq!(decimal_text(69), "69");
    assert_eq!(decimal_text(1965), "1965");
    assert_eq!(decimal_text(u32::MAX), "4294967295");
    for d in 0u32..10 {
        assert_eq!(digit_text(d), d.to_string());
    }
}
