//! Scenario tests for the normalization filter, driven against a recording
//! sink and the real Unicode tables.

use normalization_filter::events::{ControlOp, Event};
use normalization_filter::filter::{is_hangul_jamo, NormalizationHandler};
use normalization_filter::sink::RecordingSink;

fn chars_of(events: &[Event]) -> Vec<char> {
    let mut out = Vec::new();
    for ev in events {
        match ev {
            Event::Character(c) => out.push(*c),
            Event::Control(_) => panic!("expected only character events"),
        }
    }
    out
}

#[test]
fn normalization_works() {
    let mut handler = NormalizationHandler::new(RecordingSink::new());

    // Hangul Jamo: ᄀ (U+1100) + ᅡ (U+1161) -> 가 (U+AC00)
    handler.input('\u{1100}');
    handler.input('\u{1161}');

    // Before flushed, nothing in the sink (buffer holds it)
    handler.flush();

    // Check the first delivered character.
    let events = handler.term().recorded();
    match &events[0] {
        Event::Character(c) => assert_eq!(*c, '\u{ac00}'),
        Event::Control(_) => panic!("expected a character"),
    }
}

#[test]
fn plain_run_is_delivered_unchanged() {
    let mut handler = NormalizationHandler::new(RecordingSink::new());
    handler.input('A');
    handler.input('B');
    handler.flush();
    assert_eq!(chars_of(handler.term().recorded()), vec!['A', 'B']);
}

#[test]
fn identity_on_ascii_text() {
    let mut handler = NormalizationHandler::new(RecordingSink::new());
    for c in "Hello, world!".chars() {
        handler.input(c);
    }
    handler.flush();
    assert_eq!(
        chars_of(handler.term().recorded()),
        "Hello, world!".chars().collect::<Vec<char>>()
    );
}

#[test]
fn jamo_run_composes_to_one_syllable() {
    let mut handler = NormalizationHandler::new(RecordingSink::new());
    handler.input('\u{1100}');
    handler.input('\u{1161}');
    handler.flush();
    assert_eq!(chars_of(handler.term().recorded()), vec!['\u{ac00}']);
}

#[test]
fn combining_mark_composes_with_base() {
    let mut handler = NormalizationHandler::new(RecordingSink::new());
    handler.input('e');
    handler.input('\u{0301}');
    handler.flush();
    assert_eq!(chars_of(handler.term().recorded()), vec!['\u{00e9}']);
}

#[test]
fn whole_run_is_normalized_and_order_kept() {
    // 'a', combining acute, then plain 'b': the whole run is normalized and
    // 'b' stays the last delivered character.
    let mut handler = NormalizationHandler::new(RecordingSink::new());
    handler.input('a');
    handler.input('\u{0301}');
    handler.input('b');
    handler.flush();
    assert_eq!(chars_of(handler.term().recorded()), vec!['\u{00e1}', 'b']);
}

#[test]
fn empty_flush_has_no_effect() {
    let mut handler = NormalizationHandler::new(RecordingSink::new());
    handler.flush();
    assert!(handler.term().recorded().is_empty());
}

#[test]
fn accept_character_alone_delivers_nothing() {
    let mut handler = NormalizationHandler::new(RecordingSink::new());
    handler.input('Q');
    handler.input('\u{0301}');
    assert!(handler.term().recorded().is_empty());
}

#[test]
fn second_flush_delivers_nothing_more() {
    let mut handler = NormalizationHandler::new(RecordingSink::new());
    handler.input('A');
    handler.flush();
    handler.flush();
    assert_eq!(chars_of(handler.term().recorded()), vec!['A']);
}

#[test]
fn control_op_flushes_buffer_first() {
    let mut handler = NormalizationHandler::new(RecordingSink::new());
    handler.input('X');
    handler.carriage_return();
    let events = handler.term().recorded();
    assert_eq!(events.len(), 2);
    assert!(matches!(events[0], Event::Character('X')));
    assert!(matches!(events[1], Event::Control(ControlOp::CarriageReturn)));
}

#[test]
fn control_op_flushes_composed_buffer_first() {
    let mut handler = NormalizationHandler::new(RecordingSink::new());
    handler.input('\u{1100}');
    handler.input('\u{1161}');
    handler.goto(2, 3);
    let events = handler.term().recorded();
    assert_eq!(events.len(), 2);
    assert!(matches!(events[0], Event::Character('\u{ac00}')));
    assert!(matches!(events[1], Event::Control(ControlOp::Goto(2, 3))));
}

#[test]
fn take_events_drains_the_sink() {
    let mut handler = NormalizationHandler::new(RecordingSink::new());
    handler.input('a');
    handler.flush();
    let taken = handler.term_mut().take_events();
    assert_eq!(taken.len(), 1);
    assert!(matches!(taken[0], Event::Character('a')));
    assert!(handler.term().recorded().is_empty());
}

#[test]
fn is_hangul_jamo_covers_the_three_blocks() {
    assert!(is_hangul_jamo('\u{1100}'));
    assert!(is_hangul_jamo('\u{11FF}'));
    assert!(is_hangul_jamo('\u{A960}'));
    assert!(is_hangul_jamo('\u{A97F}'));
    assert!(is_hangul_jamo('\u{D7B0}'));
    assert!(is_hangul_jamo('\u{D7FF}'));
    assert!(!is_hangul_jamo('\u{10FF}'));
    assert!(!is_hangul_jamo('\u{1200}'));
    assert!(!is_hangul_jamo('A'));
    assert!(!is_hangul_jamo('\u{AC00}'));
}
