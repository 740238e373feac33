use eloizer::text::{
    char_is_whitespace, decimal_text, ends_with, first_equal, join, pad_right, same_text, split,
    trim,
};

fn strings(items: &[&str]) -> Vec<String> {
    items.iter().map(|item| item.to_string()).collect()
}

#[test]
fn split_keeps_empty_pieces() {
    assert_eq!(split("a,b", ','), strings(&["a", "b"]));
    assert_eq!(split("", ','), strings(&[""]));
    assert_eq!(split("a,,b", ','), strings(&["a", "", "b"]));
    assert_eq!(split("a,", ','), strings(&["a", ""]));
    assert_eq!(split(",", ','), strings(&["", ""]));
    assert_eq!(split("plain", ','), strings(&["plain"]));
}

#[test]
fn split_agrees_with_std_split() {
    for text in ["", ",", "low,medium", " Low , MEDIUM ", "a,,b,", "é,ü,,ß", ",,,"] {
        let expected: Vec<String> = text.split(',').map(|piece| piece.to_string()).collect();
        assert_eq!(split(text, ','), expected);
    }
}

#[test]
fn trim_removes_white_space_at_both_ends() {
    assert_eq!(trim("  low "), "low");
    assert_eq!(trim("low"), "low");
    assert_eq!(trim("   "), "");
    assert_eq!(trim(""), "");
    assert_eq!(trim("\t a b \n"), "a b");
    assert_eq!(trim("\u{a0}x\u{2003}"), "x");
}

#[test]
fn trim_agrees_with_std_trim() {
    for text in ["", " ", " a", "a ", " a b ", "\u{3000}wide\u{3000}", "é ", "ab"] {
        assert_eq!(trim(text), text.trim());
    }
}

#[test]
fn join_puts_the_separator_between_neighbours() {
    assert_eq!(join(&strings(&[]), ", "), "");
    assert_eq!(join(&strings(&["one"]), ", "), "one");
    assert_eq!(join(&strings(&["one", "two", "three"]), ", "), "one, two, three");
    assert_eq!(join(&strings(&["", ""]), ","), ",");
}

#[test]
fn split_undoes_join() {
    let items = strings(&["low", " medium", ""]);
    assert_eq!(split(&join(&items, ","), ','), items);
}

#[test]
fn decimal_text_writes_numbers_without_leading_zeros() {
    assert_eq!(decimal_text(0), "0");
    assert_eq!(decimal_text(7), "7");
    assert_eq!(decimal_text(10), "10");
    assert_eq!(decimal_text(42), "42");
    assert_eq!(decimal_text(1_000_000), "1000000");
    assert_eq!(decimal_text(usize::MAX), usize::MAX.to_string());
}

#[test]
fn pad_right_fills_up_to_the_width() {
    assert_eq!(pad_right("High:", 15), "High:          ");
    assert_eq!(pad_right("Informational:", 15), "Informational: ");
    assert_eq!(pad_right("exactly", 7), "exactly");
    assert_eq!(pad_right("longer than that", 4), "longer than that");
    assert_eq!(pad_right("", 3), "   ");
    assert_eq!(pad_right("é", 3), "é  ");
}

#[test]
fn ends_with_looks_at_the_last_characters() {
    assert!(ends_with("report.md", ".md"));
    assert!(ends_with(".md", ".md"));
    assert!(!ends_with("md", ".md"));
    assert!(!ends_with("report.md.txt", ".md"));
    assert!(ends_with("anything", ""));
    assert!(ends_with("notes.markdown", ".markdown"));
}

#[test]
fn same_text_compares_character_by_character() {
    assert!(same_text("high", "high"));
    assert!(!same_text("high", "High"));
    assert!(!same_text("high", "high "));
    assert!(same_text("", ""));
}

#[test]
fn white_space_is_what_std_takes_for_it() {
    for code in 0..=0x10FFFF_u32 {
        if let Some(c) = char::from_u32(code) {
            assert_eq!(char_is_whitespace(c), c.is_whitespace(), "U+{:04X}", code);
        }
    }
}

#[test]
fn white_space_at_the_edges_of_its_ranges() {
    for c in ['\u{9}', '\u{d}', ' ', '\u{85}', '\u{a0}', '\u{2000}', '\u{200a}', '\u{3000}'] {
        assert!(char_is_whitespace(c));
    }
    for c in ['\u{8}', '\u{e}', 'a', '\u{200b}', '\u{1f}', '\u{feff}'] {
        assert!(!char_is_whitespace(c));
    }
}

#[test]
fn first_equal_finds_the_first_of_several() {
    let texts = strings(&["sol-003", "sol-001", "gen-001", "sol-001"]);
    assert_eq!(first_equal(&texts, "sol-001"), Some(1));
    assert_eq!(first_equal(&texts, "sol-003"), Some(0));
    assert_eq!(first_equal(&texts, "gen-001"), Some(2));
    assert_eq!(first_equal(&texts, "SOL-001"), None);
    assert_eq!(first_equal(&texts, "sol-00"), None);
    assert_eq!(first_equal(&texts, ""), None);
    assert_eq!(first_equal(&Vec::new(), "sol-001"), None);
    assert_eq!(first_equal(&strings(&["", "x"]), ""), Some(0));
}
