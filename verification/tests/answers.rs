use open_docs::interpret_answer;

#[test]
fn empty_line_takes_the_default() {
    assert_eq!(interpret_answer("", true), Some(true));
    assert_eq!(interpret_answer("", false), Some(false));
}

#[test]
fn line_terminator_alone_takes_the_default() {
    assert_eq!(interpret_answer("\n", true), Some(true));
    assert_eq!(interpret_answer("\r\n", true), Some(true));
    assert_eq!(interpret_answer("\n", false), Some(false));
    assert_eq!(interpret_answer("\r\n", false), Some(false));
}

#[test]
fn yes_words_answer_yes_in_any_casing() {
    for word in ["y", "Y", "yes", "YES", "Yes", "yEs", "yeS", "YEs", "yES", "YeS"] {
        assert_eq!(interpret_answer(word, true), Some(true), "{word:?}");
        assert_eq!(interpret_answer(word, false), Some(true), "{word:?}");
    }
}

#[test]
fn no_words_answer_no_in_any_casing() {
    for word in ["n", "N", "no", "NO", "No", "nO"] {
        assert_eq!(interpret_answer(word, true), Some(false), "{word:?}");
        assert_eq!(interpret_answer(word, false), Some(false), "{word:?}");
    }
}

#[test]
fn words_are_read_without_their_line_terminator() {
    assert_eq!(interpret_answer("y\n", false), Some(true));
    assert_eq!(interpret_answer("Yes\r\n", false), Some(true));
    assert_eq!(interpret_answer("n\n", true), Some(false));
    assert_eq!(interpret_answer("NO\r\n", true), Some(false));
}

#[test]
fn only_one_line_terminator_is_dropped() {
    assert_eq!(interpret_answer("\n\n", true), None);
    assert_eq!(interpret_answer("y\n\n", true), None);
    assert_eq!(interpret_answer("\r\r\n", true), None);
    assert_eq!(interpret_answer("\n\r\n", true), None);
}

#[test]
fn carriage_return_alone_is_no_terminator() {
    assert_eq!(interpret_answer("\r", true), None);
    assert_eq!(interpret_answer("yes\r", true), None);
    assert_eq!(interpret_answer("\n\r", true), None);
}

#[test]
fn other_input_is_no_answer() {
    for line in [
        "maybe", "ye", "es", "yess", "yes!", "nope", "on", "o", "e", "s", "ny", "yn", "yno", "0",
        "1", "true", "false", " ", " y", "y ", "yes ", "\ty", "y\tes", "ok", "si", "oui",
    ] {
        assert_eq!(interpret_answer(line, true), None, "{line:?}");
        assert_eq!(interpret_answer(line, false), None, "{line:?}");
    }
}

#[test]
fn letters_outside_ascii_are_no_answer() {
    // Look-alikes of `y`, and the Kelvin sign and the long s.
    for line in ["\u{ff}", "\u{ff59}", "\u{443}", "\u{ff59}es", "ye\u{17f}", "\u{212a}", "\u{f1}o"] {
        assert_eq!(interpret_answer(line, true), None, "{line:?}");
    }
}

#[test]
fn characters_next_to_the_letters_are_no_letters() {
    // The neighbours of `A`-`Z` and `a`-`z`, and what lies 32 places from `y`, `Y`, `n`, `N`.
    for line in ["@", "[", "`", "{", "9", ".", "\u{99}", "\u{8e}", "9es", ".o"] {
        assert_eq!(interpret_answer(line, true), None, "{line:?}");
    }
}

#[test]
fn long_lines_are_no_answer() {
    let long = "y".repeat(10_000);
    assert_eq!(interpret_answer(&long, true), None);
    let padded = format!("{}yes", " ".repeat(1_000));
    assert_eq!(interpret_answer(&padded, true), None);
}
