use taupy_window::flag::parse_flag;
use taupy_window::text::{chars_of, eq_ignoring_case, to_lower};

#[test]
fn words_for_true() {
    for s in ["1", "true", "yes", "on"] {
        assert_eq!(parse_flag(s), Some(true), "{:?}", s);
    }
}

#[test]
fn words_for_false() {
    for s in ["0", "false", "no", "off"] {
        assert_eq!(parse_flag(s), Some(false), "{:?}", s);
    }
}

#[test]
fn case_of_letters_does_not_matter() {
    for s in ["TRUE", "True", "tRuE", "YES", "Yes", "yEs", "ON", "On", "oN"] {
        assert_eq!(parse_flag(s), Some(true), "{:?}", s);
    }
    for s in ["FALSE", "False", "fAlSe", "NO", "No", "nO", "OFF", "Off", "oFf"] {
        assert_eq!(parse_flag(s), Some(false), "{:?}", s);
    }
}

#[test]
fn other_text_is_no_flag() {
    let refused = [
        "", " ", "2", "10", "01", "t", "tru", "truee", " true", "true ", "y", "n", "ye", "of",
        "offf", "enabled", "disabled", "-1", "+1", "tr\u{fc}e", "\u{ff54}\u{ff52}\u{ff55}\u{ff45}",
        "o\u{ff4e}", "true\n",
    ];
    for s in refused {
        assert_eq!(parse_flag(s), None, "{:?}", s);
    }
}

#[test]
fn flags_agree_with_lowercasing_and_matching() {
    let samples = [
        "1", "0", "true", "FALSE", "Yes", "nO", "oN", "OfF", "", "maybe", "TRUE ", "ON\t", "00",
        "11", "K", "\u{212a}", "\u{130}", "yes!", "No.",
    ];
    for s in samples {
        let lowered = s.to_ascii_lowercase();
        let expected = match lowered.as_str() {
            "1" | "true" | "yes" | "on" => Some(true),
            "0" | "false" | "no" | "off" => Some(false),
            _ => None,
        };
        assert_eq!(parse_flag(s), expected, "{:?}", s);
    }
}

#[test]
fn only_ascii_capitals_are_folded() {
    assert_eq!(to_lower('A'), 'a');
    assert_eq!(to_lower('M'), 'm');
    assert_eq!(to_lower('Z'), 'z');
    assert_eq!(to_lower('a'), 'a');
    assert_eq!(to_lower('z'), 'z');
    assert_eq!(to_lower('@'), '@');
    assert_eq!(to_lower('['), '[');
    assert_eq!(to_lower('0'), '0');
    assert_eq!(to_lower('\u{c9}'), '\u{c9}');
    assert_eq!(to_lower('\u{212a}'), '\u{212a}');
    let mut code: u32 = 0;
    while code < 0x250 {
        if let Some(c) = char::from_u32(code) {
            assert_eq!(to_lower(c), c.to_ascii_lowercase());
        }
        code += 1;
    }
}

#[test]
fn characters_come_out_in_order() {
    assert_eq!(chars_of(""), Vec::<char>::new());
    assert_eq!(chars_of("a/b"), vec!['a', '/', 'b']);
    assert_eq!(chars_of("h\u{e9}\u{1f600}!"), vec!['h', '\u{e9}', '\u{1f600}', '!']);
}

#[test]
fn comparison_ignores_ascii_case_only() {
    assert!(eq_ignoring_case(&chars_of("Hello"), &chars_of("hELLO")));
    assert!(eq_ignoring_case(&chars_of(""), &chars_of("")));
    assert!(!eq_ignoring_case(&chars_of("hello"), &chars_of("hell")));
    assert!(!eq_ignoring_case(&chars_of("hello"), &chars_of("hallo")));
    assert!(!eq_ignoring_case(&chars_of("\u{c9}"), &chars_of("\u{e9}")));
    assert!(eq_ignoring_case(&chars_of("\u{e9}A"), &chars_of("\u{e9}a")));
}
