use glowfx::effects::morse::{self, build_pattern, code_for, MorseState};
use glowfx::effects::EffectParams;

#[test]
fn code_table_covers_letters_and_digits() {
    assert_eq!(code_for('A'), Some(".-"));
    assert_eq!(code_for('S'), Some("..."));
    assert_eq!(code_for('O'), Some("---"));
    assert_eq!(code_for('0'), Some("-----"));
    assert_eq!(code_for('9'), Some("----."));
    assert_eq!(code_for('a'), None);
    assert_eq!(code_for(' '), None);
}

#[test]
fn sos_pattern_runs() {
    assert_eq!(
        build_pattern("SOS"),
        vec![
            (true, 1), (false, 1), (true, 1), (false, 1), (true, 1), (false, 3),
            (true, 3), (false, 1), (true, 3), (false, 1), (true, 3), (false, 3),
            (true, 1), (false, 1), (true, 1), (false, 1), (true, 1),
        ]
    );
}

#[test]
fn lower_case_and_padding_are_normalised() {
    assert_eq!(build_pattern("  sos \n"), build_pattern("SOS"));
    assert_eq!(build_pattern("e e"), vec![(true, 1), (false, 7), (true, 1)]);
    assert_eq!(build_pattern("E\t\tE"), vec![(true, 1), (false, 7), (true, 1)]);
}

#[test]
fn unencodable_text_falls_back() {
    assert_eq!(build_pattern(""), vec![(true, 1), (false, 3)]);
    assert_eq!(build_pattern("   "), vec![(true, 1), (false, 3)]);
    assert_eq!(build_pattern("#?"), vec![(true, 1), (false, 3)]);
}

#[test]
fn characters_without_a_code_are_skipped() {
    assert_eq!(build_pattern("#A"), vec![(true, 1), (false, 1), (true, 3)]);
    assert_eq!(build_pattern("?E"), build_pattern("E"));
    assert_eq!(build_pattern("?E"), vec![(true, 1)]);
    assert_eq!(build_pattern("E?E"), vec![(true, 1), (false, 3), (true, 1)]);
    assert_eq!(build_pattern("E ?? E"), vec![(true, 1), (false, 7), (true, 1)]);
}

#[test]
fn upper_case_text_patterns() {
    assert_eq!(morse::pattern_from_upper("SOS"), build_pattern("sos"));
    assert_eq!(morse::pattern_from_upper("sos"), vec![(true, 1), (false, 3)]);
    assert_eq!(morse::pattern_from_upper(" E  T "), vec![(true, 1), (false, 7), (true, 3)]);
}

#[test]
fn morse_step_holds_each_run() {
    let mut p = EffectParams::default();
    p.speed = 10;
    let mut st = MorseState::new("ET");
    let a = morse::run(&mut st, &p);
    assert_eq!((a.level, a.sleep_ms, a.sleeps), (Some(2), 104, 1));
    let b = morse::run(&mut st, &p);
    assert_eq!((b.level, b.sleeps), (Some(0), 3));
    let c = morse::run(&mut st, &p);
    assert_eq!((c.level, c.sleeps), (Some(2), 3));
    let d = morse::run(&mut st, &p);
    assert_eq!((d.level, d.sleeps), (Some(2), 1));
    assert_eq!(st.i, 1);
}

#[test]
fn case_and_spacing_do_not_change_the_message() {
    assert_eq!(build_pattern("Hello World"), build_pattern("hELLO   world\t"));
    assert_eq!(build_pattern("Hello World"), build_pattern("\n HELLO\r\nWORLD "));
    assert_ne!(build_pattern("Hello World"), build_pattern("HelloWorld"));
}

#[test]
fn unicode_spaces_separate_words() {
    let spaced = vec![(true, 1), (false, 7), (true, 1)];
    assert_eq!(build_pattern("E\u{3000}E"), spaced);
    assert_eq!(build_pattern("E\u{a0}E"), spaced);
    assert_eq!(build_pattern("E\u{2009}E"), spaced);
    assert_eq!(build_pattern("E\u{b}E"), spaced);
    assert_eq!(build_pattern("E\u{200b}E"), vec![(true, 1), (false, 3), (true, 1)]);
}

#[test]
fn whitespace_test_matches_the_standard_library() {
    for c in (0u32..=0x10FFFF).filter_map(char::from_u32) {
        assert_eq!(glowfx::text::is_white(c), c.is_whitespace(), "{:?}", c);
    }
}
