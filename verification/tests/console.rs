use klaver_wintertc::console::{
    assertion_message, format_specifiers, formatter_applies, log_line, std_output, Level, Piece,
};

fn text(s: &str) -> Vec<Piece> {
    s.chars().map(Piece::Text).collect()
}

#[test]
fn console_levels_have_labels() {
    assert_eq!(Level::Debug.label(), "DEBUG");
    assert_eq!(Level::Info.label(), "INFO");
    assert_eq!(Level::Warn.label(), "WARN");
    assert_eq!(Level::Error.label(), "ERROR");
    assert_eq!(Level::Log.label(), "LOG");
}

#[test]
fn std_writer_layout() {
    assert_eq!(std_output(Level::Log, &"hi".to_string()), (false, "hi".to_string()));
    assert_eq!(std_output(Level::Info, &"hi".to_string()), (false, "INFO hi".to_string()));
    assert_eq!(std_output(Level::Warn, &"w".to_string()), (true, "WARN w".to_string()));
    assert_eq!(std_output(Level::Error, &"e".to_string()), (true, "ERROR e".to_string()));
}

#[test]
fn formatter_substitutes_in_order() {
    let (pieces, consumed) = format_specifiers("a %s b %d", 3);
    let mut expected = text("a ");
    expected.push(Piece::Arg('s', 1));
    expected.extend(text(" b "));
    expected.push(Piece::Arg('d', 2));
    assert_eq!(pieces, expected);
    assert_eq!(consumed, 3);
}

#[test]
fn formatter_leaves_specifiers_without_arguments_literal() {
    let (pieces, consumed) = format_specifiers("%s %s", 2);
    let mut expected = vec![Piece::Arg('s', 1)];
    expected.extend(text(" %s"));
    assert_eq!(pieces, expected);
    assert_eq!(consumed, 2);
}

#[test]
fn formatter_handles_percent_escapes_and_unknown_specifiers() {
    let (pieces, consumed) = format_specifiers("100%% %x %", 2);
    assert_eq!(pieces, text("100% %x %"));
    assert_eq!(consumed, 1);
}

#[test]
fn formatter_css_directive_consumes_without_output() {
    let (pieces, consumed) = format_specifiers("%cred %o", 3);
    let mut expected = text("red ");
    expected.push(Piece::Arg('o', 2));
    assert_eq!(pieces, expected);
    assert_eq!(consumed, 3);
}

#[test]
fn assertion_message_lists_values() {
    assert_eq!(assertion_message(&vec![]), "Assertion failed");
    assert_eq!(assertion_message(&vec!["x".to_string()]), "Assertion failed: x");
    assert_eq!(assertion_message(&vec!["a".to_string(), "1".to_string()]), "Assertion failed: a 1");
}

#[test]
fn log_line_joins_values_with_spaces() {
    let rest = vec!["a".to_string(), "b".to_string()];
    assert_eq!(log_line("", false, &rest), "a b");
    assert_eq!(log_line("x=1", true, &rest), "x=1 a b");
    assert_eq!(log_line("only", true, &Vec::new()), "only");
    assert_eq!(log_line("", false, &Vec::new()), "");
}

#[test]
fn formatter_needs_a_string_and_another_value() {
    assert!(formatter_applies(2, true));
    assert!(!formatter_applies(1, true));
    assert!(!formatter_applies(3, false));
}
