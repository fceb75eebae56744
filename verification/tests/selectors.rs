use clap_io::Input;
use clap_io::InputOutput;
use clap_io::InputTarget;
use clap_io::Output;
use clap_io::OutputTarget;
use clap_io::token::str_eq;

#[test]
fn input_from_marker_is_stdin() {
    let input = Input::from_token("-");
    assert!(input.path().is_none());
    assert_eq!(input.display_name(), "<stdin>");
    assert!(matches!(input.open(), InputTarget::Stdin { .. }));
}

#[test]
fn output_from_marker_is_stdout() {
    let output = Output::from_token("-");
    assert!(output.path().is_none());
    assert_eq!(output.display_name(), "<stdout>");
    assert!(matches!(output.open(), OutputTarget::Stdout { .. }));
}

#[test]
fn input_from_alias_is_stdin() {
    let input = Input::from_token("<stdin>");
    assert!(input.path().is_none());
    assert!(matches!(input.open(), InputTarget::Stdin { .. }));
}

#[test]
fn output_from_alias_is_stdout() {
    let output = Output::from_token("<stdout>");
    assert!(output.path().is_none());
    assert!(matches!(output.open(), OutputTarget::Stdout { .. }));
}

#[test]
fn input_from_empty_token_is_stdin() {
    let input = Input::from_token("");
    assert!(input.path().is_none());
    assert_eq!(input.display_name(), "<stdin>");
    assert!(matches!(input.open(), InputTarget::Stdin { .. }));
}

#[test]
fn output_from_empty_token_is_stdout() {
    let output = Output::from_token("");
    assert!(output.path().is_none());
    assert_eq!(output.display_name(), "<stdout>");
    assert!(matches!(output.open(), OutputTarget::Stdout { .. }));
}

#[test]
fn input_default_is_stdin() {
    let input = Input::default();
    assert!(input.path().is_none());
    assert!(!matches!(input.clone().open(), InputTarget::File { .. }));
    assert_eq!(input.display_name(), "<stdin>");
}

#[test]
fn output_default_is_stdout() {
    let output = Output::default();
    assert!(output.path().is_none());
    assert!(!matches!(output.clone().open(), OutputTarget::File { .. }));
    assert_eq!(output.display_name(), "<stdout>");
}

#[test]
fn file_token_round_trip_input() {
    let input = Input::from_token("data/things.bin");
    assert_eq!(input.path().map(String::as_str), Some("data/things.bin"));
    assert_eq!(input.display_name(), "data/things.bin");
    match input.open() {
        InputTarget::File { path } => assert_eq!(path, "data/things.bin"),
        InputTarget::Stdin { .. } => panic!("expected a file target"),
    }
}

#[test]
fn file_token_round_trip_output() {
    let output = Output::from_token("report.txt");
    assert_eq!(output.path().map(String::as_str), Some("report.txt"));
    assert_eq!(output.display_name(), "report.txt");
    match output.open() {
        OutputTarget::File { path } => assert_eq!(path, "report.txt"),
        OutputTarget::Stdout { .. } => panic!("expected a file target"),
    }
}

#[test]
fn wrong_direction_alias_is_a_path() {
    let input = Input::from_token("<stdout>");
    assert_eq!(input.path().map(String::as_str), Some("<stdout>"));
    let output = Output::from_token("<stdin>");
    assert_eq!(output.path().map(String::as_str), Some("<stdin>"));
}

#[test]
fn file_is_never_tty() {
    for token in ["a.txt", "/dev/tty", "-x", "<stdin> ", " ", "\u{1F600}"] {
        assert!(!Input::from_token(token).is_tty());
        assert!(!Output::from_token(token).is_tty());
    }
}

#[test]
fn combined_default_pair() {
    let pair = InputOutput::default();
    assert!(pair.input.path().is_none());
    assert!(pair.output.path().is_none());
    assert!(matches!(pair.input.open(), InputTarget::Stdin { .. }));
    assert!(matches!(pair.output.open(), OutputTarget::Stdout { .. }));
}

#[test]
fn str_eq_agrees_with_equality() {
    assert!(str_eq("", ""));
    assert!(str_eq("-", "-"));
    assert!(str_eq("gr\u{00FC}n", "gr\u{00FC}n"));
    assert!(!str_eq("-", "--"));
    assert!(!str_eq("<stdin>", "<stdout>"));
    assert!(!str_eq("abc", "abd"));
    assert!(!str_eq("abc", ""));
}
