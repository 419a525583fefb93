use lesson_solver::text::{
    chars_of, fold_all, join, parse_u8, same_text, strip_all_leading, strip_all_trailing,
    strip_leading, strip_leading_numbering, strip_trailing_numbering,
};

fn texts(items: &[&str]) -> Vec<String> {
    items.iter().map(|item| item.to_string()).collect()
}

#[test]
fn join_puts_single_spaces_between_words() {
    assert_eq!(join(&texts(&["Have", "a", "good", "night"])), "Have a good night");
    assert_eq!(join(&texts(&["night"])), "night");
    assert_eq!(join(&texts(&[])), "");
    assert_eq!(join(&texts(&["a", "", "b"])), "a  b");
    assert_eq!(join(&texts(&["", ""])), " ");
}

#[test]
fn join_agrees_with_the_standard_library() {
    let cases: Vec<Vec<String>> = vec![
        texts(&[]),
        texts(&["één"]),
        texts(&["Heb", "een", "goede", "nachtrust"]),
        texts(&["", "x", ""]),
    ];
    for case in cases {
        assert_eq!(join(&case), case.join(" "));
    }
}

#[test]
fn chars_of_lists_characters_not_bytes() {
    assert_eq!(chars_of("één“"), vec!['é', 'é', 'n', '“']);
    assert_eq!(chars_of(""), Vec::<char>::new());
}

#[test]
fn same_text_compares_exactly() {
    assert!(same_text("dog", "dog"));
    assert!(!same_text("dog", "Dog"));
    assert!(!same_text("dog", "dog "));
    assert!(same_text("", ""));
}

#[test]
fn trailing_numbering_is_stripped() {
    assert_eq!(strip_trailing_numbering("the girl\n1"), "the girl");
    assert_eq!(strip_trailing_numbering("the girl\n\n12"), "the girl");
    assert_eq!(strip_trailing_numbering("the girl"), "the girl");
    assert_eq!(strip_trailing_numbering("girl1"), "girl");
    assert_eq!(strip_trailing_numbering("route 66\n3"), "route 66");
    assert_eq!(strip_trailing_numbering("123"), "");
    assert_eq!(strip_trailing_numbering(""), "");
}

#[test]
fn trailing_numbering_goes_numbers_first_then_line_feeds() {
    // A line feed after the number shields the number.
    assert_eq!(strip_trailing_numbering("word1\n"), "word1");
    // Only line feeds go in the second pass.
    assert_eq!(strip_trailing_numbering("word \n2"), "word ");
    assert_eq!(strip_trailing_numbering("word\r\n2"), "word\r");
}

#[test]
fn numbering_counts_every_numeric_character() {
    // Superscript two and the Arabic-Indic digit three are numeric too.
    assert_eq!(strip_trailing_numbering("x\u{b2}\u{663}"), "x");
    assert_eq!(strip_leading_numbering("\u{663}\u{b2}x"), "x");
}

#[test]
fn leading_numbering_is_stripped() {
    assert_eq!(strip_leading_numbering("1\nhet meisje"), "het meisje");
    assert_eq!(strip_leading_numbering("12\n\nhet meisje"), "het meisje");
    assert_eq!(strip_leading_numbering("het meisje"), "het meisje");
    assert_eq!(strip_leading_numbering("\n1meisje"), "1meisje");
    assert_eq!(strip_leading_numbering("7"), "");
    assert_eq!(strip_leading_numbering(""), "");
}

#[test]
fn stripping_agrees_with_the_standard_library() {
    let cases = ["the girl\n1", "1\nthe girl", "12", "\n\n", "a1\n2\n", "٣x٣", "", "x\n"];
    for case in cases {
        assert_eq!(
            strip_trailing_numbering(case),
            case.trim_end_matches(char::is_numeric).trim_end_matches("\n")
        );
        assert_eq!(
            strip_leading_numbering(case),
            case.trim_start_matches(char::is_numeric).trim_start_matches("\n")
        );
    }
}

#[test]
fn strip_leading_removes_every_repetition() {
    assert_eq!(strip_leading("challenge challenge-select", "challenge "), "challenge-select");
    assert_eq!(
        strip_leading("challenge challenge challenge-match", "challenge "),
        "challenge-match"
    );
    assert_eq!(strip_leading("challenge-select", "challenge "), "challenge-select");
    assert_eq!(strip_leading("challenge ", "challenge "), "");
    assert_eq!(strip_leading("challenge", "challenge "), "challenge");
    assert_eq!(strip_leading("", "challenge "), "");
    assert_eq!(strip_leading("abc", ""), "abc");
    assert_eq!(strip_leading("ééx", "é"), "x");
}

#[test]
fn strip_leading_agrees_with_the_standard_library() {
    let cases = ["challenge challenge-select", "challenge ", "xchallenge ", "", "challenge  x"];
    for case in cases {
        assert_eq!(strip_leading(case, "challenge "), case.trim_start_matches("challenge "));
    }
}

#[test]
fn parse_u8_reads_numbers_below_256() {
    assert_eq!(parse_u8("0"), Some(0));
    assert_eq!(parse_u8("5"), Some(5));
    assert_eq!(parse_u8("255"), Some(255));
    assert_eq!(parse_u8("007"), Some(7));
    assert_eq!(parse_u8("+12"), Some(12));
    assert_eq!(parse_u8("0000000000000000000255"), Some(255));
}

#[test]
fn parse_u8_rejects_everything_else() {
    assert_eq!(parse_u8(""), None);
    assert_eq!(parse_u8("+"), None);
    assert_eq!(parse_u8("-"), None);
    assert_eq!(parse_u8("-1"), None);
    assert_eq!(parse_u8("-0"), None);
    assert_eq!(parse_u8("++1"), None);
    assert_eq!(parse_u8("256"), None);
    assert_eq!(parse_u8("260"), None);
    assert_eq!(parse_u8("1000"), None);
    assert_eq!(parse_u8(" 1"), None);
    assert_eq!(parse_u8("1 "), None);
    assert_eq!(parse_u8("1a"), None);
    assert_eq!(parse_u8("٣"), None);
    assert_eq!(parse_u8("2560x"), None);
}

#[test]
fn parse_u8_agrees_with_the_standard_library() {
    for n in 0..=300u32 {
        let plain = n.to_string();
        assert_eq!(parse_u8(&plain), plain.parse::<u8>().ok());
        let signed = format!("+{}", n);
        assert_eq!(parse_u8(&signed), signed.parse::<u8>().ok());
        let padded = format!("00{}", n);
        assert_eq!(parse_u8(&padded), padded.parse::<u8>().ok());
    }
    for odd in ["", "+", "-", "-5", "+-5", "5+", "٥", "1_0", "0x10", "1e2", " 7", "7\n"] {
        assert_eq!(parse_u8(odd), odd.parse::<u8>().ok());
    }
}

#[test]
fn lists_are_handled_item_by_item() {
    assert_eq!(fold_all(&texts(&["Dog", "KAT", "vis", ""])), texts(&["dog", "kat", "vis", ""]));
    assert_eq!(fold_all(&texts(&["ÉÉN"])), texts(&["één"]));
    assert_eq!(strip_all_trailing(&texts(&["a\n1", "b\n2", "c"])), texts(&["a", "b", "c"]));
    assert_eq!(strip_all_leading(&texts(&["1\na", "2\nb", "c"])), texts(&["a", "b", "c"]));
    assert_eq!(fold_all(&Vec::new()), Vec::<String>::new());
}
