//! Tests for the per-operation forwarding surface: every operation reaches
//! the sink with its payload unmodified, after the buffered run.

use normalization_filter::events::{ControlOp, Event};
use normalization_filter::filter::NormalizationHandler;
use normalization_filter::sink::RecordingSink;
use vte::ansi::{CharsetIndex, CursorShape, Rgb, StandardCharset};

#[test]
fn set_color_payload_is_unmodified() {
    let mut handler = NormalizationHandler::new(RecordingSink::new());
    handler.set_color(5, Rgb { r: 1, g: 2, b: 3 });
    let events = handler.term().recorded();
    assert_eq!(events.len(), 1);
    match &events[0] {
        Event::Control(ControlOp::SetColor(index, color)) => {
            assert_eq!(*index, 5);
            assert_eq!(*color, Rgb { r: 1, g: 2, b: 3 });
        },
        _ => panic!("expected a set-color operation"),
    }
}

#[test]
fn title_and_clipboard_payloads_are_unmodified() {
    let mut handler = NormalizationHandler::new(RecordingSink::new());
    handler.set_title(Some(String::from("hello")));
    handler.clipboard_store(b'c', vec![1, 2, 3]);
    handler.clipboard_load(b'p', String::from(";"));
    handler.dynamic_color_sequence(String::from("10;"), 4, String::from("\x07"));
    let events = handler.term().recorded();
    assert_eq!(events.len(), 4);
    match &events[0] {
        Event::Control(ControlOp::SetTitle(Some(t))) => assert_eq!(t, "hello"),
        _ => panic!("expected a set-title operation"),
    }
    match &events[1] {
        Event::Control(ControlOp::ClipboardStore(clipboard, data)) => {
            assert_eq!(*clipboard, b'c');
            assert_eq!(data, &vec![1, 2, 3]);
        },
        _ => panic!("expected a clipboard-store operation"),
    }
    match &events[2] {
        Event::Control(ControlOp::ClipboardLoad(clipboard, terminator)) => {
            assert_eq!(*clipboard, b'p');
            assert_eq!(terminator, ";");
        },
        _ => panic!("expected a clipboard-load operation"),
    }
    match &events[3] {
        Event::Control(ControlOp::DynamicColorSequence(prefix, index, terminator)) => {
            assert_eq!(prefix, "10;");
            assert_eq!(*index, 4);
            assert_eq!(terminator, "\x07");
        },
        _ => panic!("expected a dynamic-color-sequence operation"),
    }
}

#[test]
fn several_ops_keep_their_order() {
    let mut handler = NormalizationHandler::new(RecordingSink::new());
    handler.input('a');
    handler.linefeed();
    handler.input('b');
    handler.scroll_up(7);
    handler.configure_charset(CharsetIndex::G1, StandardCharset::SpecialCharacterAndLineDrawing);
    handler.set_cursor_shape(CursorShape::Underline);
    let events = handler.term().recorded();
    assert_eq!(events.len(), 6);
    assert!(matches!(events[0], Event::Character('a')));
    assert!(matches!(events[1], Event::Control(ControlOp::Linefeed)));
    assert!(matches!(events[2], Event::Character('b')));
    assert!(matches!(events[3], Event::Control(ControlOp::ScrollUp(7))));
    assert!(matches!(
        events[4],
        Event::Control(ControlOp::ConfigureCharset(
            CharsetIndex::G1,
            StandardCharset::SpecialCharacterAndLineDrawing
        ))
    ));
    assert!(matches!(
        events[5],
        Event::Control(ControlOp::SetCursorShape(CursorShape::Underline))
    ));
}

#[test]
fn no_op_arguments_forward_too() {
    let mut handler = NormalizationHandler::new(RecordingSink::new());
    handler.goto_line(-2);
    handler.put_tab(3);
    handler.set_scrolling_region(1, Some(24));
    handler.identify_terminal(Some('>'));
    let events = handler.term().recorded();
    assert_eq!(events.len(), 4);
    assert!(matches!(events[0], Event::Control(ControlOp::GotoLine(-2))));
    assert!(matches!(events[1], Event::Control(ControlOp::PutTab(3))));
    assert!(matches!(
        events[2],
        Event::Control(ControlOp::SetScrollingRegion(1, Some(24)))
    ));
    assert!(matches!(
        events[3],
        Event::Control(ControlOp::IdentifyTerminal(Some('>')))
    ));
}
