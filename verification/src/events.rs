//! The event vocabulary shared by the filter and its target: a character, or
//! one of the control operations of the terminal protocol, with its payload.
//!
//! Payloads that the protocol layer defines itself (modes, attributes,
//! colors, ...) are vte's types; the filter never reads them, it only hands
//! them on, so they are declared as opaque outside types.

use vstd::prelude::*;
use vte::ansi::{
    Attr, CharsetIndex, ClearMode, CursorShape, CursorStyle, Hyperlink, KeyboardModes,
    KeyboardModesApplyBehavior, LineClearMode, Mode, PrivateMode, Rgb, StandardCharset,
    TabulationClearMode,
};

verus! {

/// vte's `ansi::LineClearMode`: which part of the line to clear.
#[verifier::external_type_specification]
#[verifier::external_body]
pub struct ExLineClearMode(LineClearMode);

/// vte's `ansi::ClearMode`: which part of the screen to clear.
#[verifier::external_type_specification]
#[verifier::external_body]
pub struct ExClearMode(ClearMode);

/// vte's `ansi::TabulationClearMode`: which tab stops to clear.
#[verifier::external_type_specification]
#[verifier::external_body]
pub struct ExTabulationClearMode(TabulationClearMode);

/// vte's `ansi::Rgb`: a 24-bit color value.
#[verifier::external_type_specification]
#[verifier::external_body]
pub struct ExRgb(Rgb);

/// vte's `ansi::Hyperlink`: id and uri of a hyperlink.
#[verifier::external_type_specification]
#[verifier::external_body]
pub struct ExHyperlink(Hyperlink);

/// vte's `ansi::Attr`: a terminal character attribute.
#[verifier::external_type_specification]
#[verifier::external_body]
pub struct ExAttr(Attr);

/// vte's `ansi::Mode`: an ANSI mode.
#[verifier::external_type_specification]
#[verifier::external_body]
pub struct ExMode(Mode);

/// vte's `ansi::PrivateMode`: a private DEC mode.
#[verifier::external_type_specification]
#[verifier::external_body]
pub struct ExPrivateMode(PrivateMode);

/// vte's `ansi::CharsetIndex`: one of the graphic character sets G0 to G3.
#[verifier::external_type_specification]
#[verifier::external_body]
pub struct ExCharsetIndex(CharsetIndex);

/// vte's `ansi::StandardCharset`: a character set designated as G0 to G3.
#[verifier::external_type_specification]
#[verifier::external_body]
pub struct ExStandardCharset(StandardCharset);

/// vte's `ansi::CursorStyle`: cursor shape and blinking.
#[verifier::external_type_specification]
#[verifier::external_body]
pub struct ExCursorStyle(CursorStyle);

/// vte's `ansi::CursorShape`: the shape of the cursor.
#[verifier::external_type_specification]
#[verifier::external_body]
pub struct ExCursorShape(CursorShape);

/// vte's `ansi::KeyboardModes`: a set of kitty keyboard protocol modes.
#[verifier::external_type_specification]
#[verifier::external_body]
pub struct ExKeyboardModes(KeyboardModes);

/// vte's `ansi::KeyboardModesApplyBehavior`: how new keyboard modes apply.
#[verifier::external_type_specification]
#[verifier::external_body]
pub struct ExKeyboardModesApplyBehavior(KeyboardModesApplyBehavior);

/// A control operation of the terminal protocol, with its arguments.
///
/// One variant per operation the producer can emit besides literal character
/// input; the filter forwards each with its payload unmodified.
pub enum ControlOp {
    Goto(i32, usize),
    GotoLine(i32),
    GotoCol(usize),
    Decaln,
    MoveUp(usize),
    MoveDown(usize),
    MoveForward(usize),
    MoveBackward(usize),
    IdentifyTerminal(Option<char>),
    DeviceStatus(usize),
    MoveDownAndCr(usize),
    MoveUpAndCr(usize),
    PutTab(u16),
    Backspace,
    CarriageReturn,
    Linefeed,
    Bell,
    Substitute,
    Newline,
    SetHorizontalTabstop,
    ScrollUp(usize),
    ScrollDown(usize),
    InsertBlankLines(usize),
    DeleteLines(usize),
    EraseChars(usize),
    DeleteChars(usize),
    MoveBackwardTabs(u16),
    MoveForwardTabs(u16),
    SaveCursorPosition,
    RestoreCursorPosition,
    ClearLine(LineClearMode),
    SetColor(usize, Rgb),
    DynamicColorSequence(String, usize, String),
    ResetColor(usize),
    ClipboardStore(u8, Vec<u8>),
    ClipboardLoad(u8, String),
    ClearScreen(ClearMode),
    ClearTabs(TabulationClearMode),
    ResetState,
    ReverseIndex,
    SetHyperlink(Option<Hyperlink>),
    TerminalAttribute(Attr),
    SetPrivateMode(PrivateMode),
    UnsetPrivateMode(PrivateMode),
    ReportPrivateMode(PrivateMode),
    SetMode(Mode),
    UnsetMode(Mode),
    ReportMode(Mode),
    SetScrollingRegion(usize, Option<usize>),
    SetKeypadApplicationMode,
    UnsetKeypadApplicationMode,
    ConfigureCharset(CharsetIndex, StandardCharset),
    SetActiveCharset(CharsetIndex),
    SetTitle(Option<String>),
    PushTitle,
    PopTitle,
    TextAreaSizePixels,
    TextAreaSizeChars,
    SetCursorStyle(Option<CursorStyle>),
    SetCursorShape(CursorShape),
    ReportKeyboardMode,
    PushKeyboardMode(KeyboardModes),
    PopKeyboardModes(u16),
    SetKeyboardMode(KeyboardModes, KeyboardModesApplyBehavior),
    InsertBlank(usize),
}

/// One event as the target observes it: a literal character, or a control
/// operation.
pub enum Event {
    Character(char),
    Control(ControlOp),
}

} // verus!
