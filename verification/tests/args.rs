use sound_processor::args::{
    contains_name, join, parse_args, valid_audio_sources, valid_displays, AppArgs, ArgsError,
};

fn strings(list: &[&str]) -> Vec<String> {
    list.iter().map(|s| s.to_string()).collect()
}

fn chosen(res: Result<AppArgs, ArgsError>) -> (String, String) {
    match res {
        Ok(args) => (args.display_name, args.audio_source_name),
        Err(e) => panic!("refused: {}", e.message()),
    }
}

#[test]
fn no_arguments_select_the_defaults() {
    let (display, audio) = chosen(parse_args(Vec::new()));
    assert_eq!(display, "terminal");
    assert_eq!(audio, "mic");
}

#[test]
fn two_valid_arguments_are_taken_in_order() {
    let (display, audio) = chosen(parse_args(strings(&["oled", "wav"])));
    assert_eq!(display, "oled");
    assert_eq!(audio, "wav");
    let (display, audio) = chosen(parse_args(strings(&["bars", "mic"])));
    assert_eq!(display, "bars");
    assert_eq!(audio, "mic");
}

#[test]
fn one_argument_is_refused_with_usage() {
    let err = parse_args(strings(&["oled"])).err().unwrap();
    assert!(matches!(&err, ArgsError::OneArgument { given } if given == "oled"));
    assert_eq!(
        err.message(),
        "Only one argument was provided ('oled').\nExpected either:\n- no arguments (defaults: terminal mic)\n- two arguments: <display> <audio_source>\nValid displays: terminal, bars, oled\nValid audio sources: mic, wav"
    );
}

#[test]
fn three_arguments_are_refused_with_usage() {
    let err = parse_args(strings(&["oled", "wav", "extra"])).err().unwrap();
    assert!(matches!(err, ArgsError::TooManyArguments));
    assert_eq!(
        err.message(),
        "Too many arguments.\nExpected either:\n- no arguments (defaults: terminal mic)\n- two arguments: <display> <audio_source>\nValid displays: terminal, bars, oled\nValid audio sources: mic, wav"
    );
}

#[test]
fn unknown_display_is_refused() {
    let err = parse_args(strings(&["lcd", "mic"])).err().unwrap();
    assert!(matches!(&err, ArgsError::InvalidDisplay { given } if given == "lcd"));
    assert_eq!(err.message(), "Invalid display 'lcd'. Valid options are: terminal, bars, oled");
}

#[test]
fn unknown_audio_source_is_refused() {
    let err = parse_args(strings(&["terminal", "line-in"])).err().unwrap();
    assert!(matches!(&err, ArgsError::InvalidAudioSource { given } if given == "line-in"));
    assert_eq!(err.message(), "Invalid audio source 'line-in'. Valid options are: mic, wav");
}

#[test]
fn display_is_checked_before_audio_source() {
    let err = parse_args(strings(&["lcd", "line-in"])).err().unwrap();
    assert!(matches!(&err, ArgsError::InvalidDisplay { given } if given == "lcd"));
}

#[test]
fn names_are_case_sensitive() {
    let err = parse_args(strings(&["OLED", "wav"])).err().unwrap();
    assert!(matches!(err, ArgsError::InvalidDisplay { .. }));
}

#[test]
fn valid_name_lists_are_in_display_order() {
    assert_eq!(valid_displays(), vec!["terminal", "bars", "oled"]);
    assert_eq!(valid_audio_sources(), vec!["mic", "wav"]);
}

#[test]
fn contains_name_finds_only_listed_names() {
    let displays = valid_displays();
    assert!(contains_name(&displays, "bars"));
    assert!(contains_name(&displays, "oled"));
    assert!(!contains_name(&displays, "bar"));
    assert!(!contains_name(&Vec::new(), "bars"));
}

#[test]
fn join_puts_separator_between_neighbours() {
    assert_eq!(join(&vec!["a", "b", "c"], ", "), "a, b, c");
    assert_eq!(join(&vec!["only"], "-"), "only");
    assert_eq!(join(&Vec::new(), ", "), "");
}
