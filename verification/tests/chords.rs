use staff_cli::chord::{chord_notes, recognize_chord_symbol};
use staff_cli::command::chord_line;
use staff_cli::error::CommandError;

fn names(texts: &[&str]) -> Result<Vec<String>, CommandError> {
    Ok(texts.iter().map(|text| text.to_string()).collect())
}

#[test]
fn a_major_triad() {
    assert_eq!(chord_notes("C"), names(&["C", "E", "G"]));
    assert_eq!(chord_notes("G"), names(&["G", "B", "D"]));
}

#[test]
fn a_minor_triad() {
    assert_eq!(chord_notes("Am"), names(&["A", "C", "E"]));
    assert_eq!(chord_notes("Cm"), names(&["C", "D#", "G"]));
}

#[test]
fn a_seventh_adds_a_fourth_note() {
    assert_eq!(chord_notes("C7"), names(&["C", "E", "G", "A#"]));
    assert_eq!(chord_notes("Cm7"), names(&["C", "D#", "G", "A#"]));
    assert_eq!(chord_notes("D7"), names(&["D", "F#", "A", "C"]));
}

#[test]
fn a_repeated_seventh_adds_nothing() {
    assert_eq!(chord_notes("C77"), names(&["C", "E", "G", "A#"]));
}

#[test]
fn the_root_takes_its_accidental() {
    assert_eq!(chord_notes("Db"), names(&["C#", "F", "G#"]));
    assert_eq!(chord_notes("F#m"), names(&["F#", "A", "C#"]));
    assert_eq!(chord_notes("D##"), names(&["E", "G#", "B"]));
    assert_eq!(chord_notes("Ebb7"), names(&["D", "F#", "A", "C"]));
}

#[test]
fn a_lower_case_root_is_read() {
    assert_eq!(chord_notes("c"), names(&["C", "E", "G"]));
    assert_eq!(chord_notes("bb"), names(&["A#", "D", "F"]));
}

#[test]
fn the_symbols_that_are_read() {
    assert!(recognize_chord_symbol("C"));
    assert!(recognize_chord_symbol("Cm"));
    assert!(recognize_chord_symbol("C7"));
    assert!(recognize_chord_symbol("Cm7"));
    assert!(recognize_chord_symbol("Cb"));
    assert!(recognize_chord_symbol("Cbb"));
    assert!(recognize_chord_symbol("C#"));
    assert!(recognize_chord_symbol("C##m777"));
    assert!(recognize_chord_symbol("gbm7"));
}

#[test]
fn the_symbols_that_are_not_read() {
    assert!(!recognize_chord_symbol(""));
    assert!(!recognize_chord_symbol("Xyz"));
    assert!(!recognize_chord_symbol("H"));
    assert!(!recognize_chord_symbol("Cmaj7"));
    assert!(!recognize_chord_symbol("Cbbb"));
    assert!(!recognize_chord_symbol("Cb#"));
    assert!(!recognize_chord_symbol("C#b"));
    assert!(!recognize_chord_symbol("Cmm"));
    assert!(!recognize_chord_symbol("C7m"));
    assert!(!recognize_chord_symbol("C9"));
    assert!(!recognize_chord_symbol("C 7"));
    assert!(!recognize_chord_symbol("C7 "));
    assert!(!recognize_chord_symbol("mC"));
}

#[test]
fn an_unread_symbol_is_a_parse_failure() {
    assert_eq!(chord_notes("Xyz"), Err(CommandError::ChordSymbolParseFailure));
    assert_eq!(chord_notes(""), Err(CommandError::ChordSymbolParseFailure));
    assert_eq!(chord_notes("Cmaj7"), Err(CommandError::ChordSymbolParseFailure));
}

#[test]
fn a_chord_line_is_its_notes_on_one_line() {
    assert_eq!(chord_line("Cm7"), Ok("C D# G A#\n".to_string()));
    assert_eq!(chord_line("C"), Ok("C E G\n".to_string()));
}

#[test]
fn a_failed_chord_has_no_line() {
    assert_eq!(chord_line("Xyz"), Err(CommandError::ChordSymbolParseFailure));
}

#[test]
fn every_read_chord_shows_three_notes_or_more() {
    let letters = ["A", "B", "C", "D", "E", "F", "G", "a", "b", "c", "d", "e", "f", "g"];
    let marks = ["", "b", "bb", "#", "##"];
    let tails = ["", "m", "7", "m7", "77"];
    for letter in letters {
        for mark in marks {
            for tail in tails {
                let symbol = format!("{}{}{}", letter, mark, tail);
                assert!(recognize_chord_symbol(&symbol));
                let line = chord_line(&symbol).unwrap();
                let body = line.strip_suffix('\n').unwrap();
                let count: usize = body.split(' ').count();
                let expected: usize = if tail.contains('7') { 4 } else { 3 };
                assert_eq!(count, expected);
                assert!(body.split(' ').all(|token| !token.is_empty()));
            }
        }
    }
}
