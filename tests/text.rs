use baum_welch::text::{encode_text, letter_of, observations_from_text, sanitize, symbol_of, SPACE_SYMBOL};

#[test]
fn letters_and_space_have_symbols() {
    assert_eq!(symbol_of('a'), Some(0));
    assert_eq!(symbol_of('z'), Some(25));
    assert_eq!(symbol_of(' '), Some(SPACE_SYMBOL));
    assert_eq!(SPACE_SYMBOL, 26);
    assert_eq!(symbol_of('A'), None);
    assert_eq!(symbol_of('\n'), None);
    assert_eq!(symbol_of('é'), None);
}

#[test]
fn encodes_a_sanitized_text() {
    assert_eq!(encode_text("ab z"), Some(vec![0, 1, 26, 25]));
    assert_eq!(encode_text(""), Some(vec![]));
    assert_eq!(encode_text("ab,z"), None);
}

#[test]
fn sanitize_lowercases_and_folds_whitespace() {
    assert_eq!(sanitize("Hello,  World\nFoo").as_deref(), Some("hello world foo"));
}

#[test]
fn sanitize_drops_characters_outside_the_alphabet() {
    assert_eq!(sanitize("It's 42 o'clock!").as_deref(), Some("its  oclock"));
}

#[test]
fn sanitize_folds_a_line_break_with_following_indentation() {
    assert_eq!(sanitize("one\n   two\tthree").as_deref(), Some("one twothree"));
}

#[test]
fn observations_of_a_raw_text() {
    assert_eq!(
        observations_from_text("Hello,  World\nFoo"),
        Some(vec![7, 4, 11, 11, 14, 26, 22, 14, 17, 11, 3, 26, 5, 14, 14])
    );
}

#[test]
fn letters_of_symbols_invert_symbol_of() {
    assert_eq!(letter_of(0), Some('a'));
    assert_eq!(letter_of(2), Some('c'));
    assert_eq!(letter_of(25), Some('z'));
    assert_eq!(letter_of(26), Some(' '));
    assert_eq!(letter_of(27), None);
    for c in "abcdefghijklmnopqrstuvwxyz ".chars() {
        assert_eq!(letter_of(symbol_of(c).unwrap()), Some(c));
    }
}
