//! The per-operation forwarding surface: one entry point per control
//! operation of the protocol, each of which flushes the buffered run and
//! then forwards the operation with its arguments unmodified.

use crate::events::ControlOp;
use crate::filter::NormalizationHandler;
use crate::sink::EventSink;
use vstd::prelude::*;
use vte::ansi::{
    Attr, CharsetIndex, ClearMode, CursorShape, CursorStyle, Hyperlink, KeyboardModes,
    KeyboardModesApplyBehavior, LineClearMode, Mode, PrivateMode, Rgb, StandardCharset,
    TabulationClearMode,
};

verus! {

impl<T: EventSink> NormalizationHandler<T> {
    /// Cursor to `(line, col)`: flush the buffered run, then forward.
    pub fn goto(&mut self, line: i32, col: usize)
        ensures
            Self::controlled(*old(self), *final(self), ControlOp::Goto(line, col)),
    {
        self.accept_control_operation(ControlOp::Goto(line, col));
    }

    /// Cursor to row `line`: flush the buffered run, then forward.
    pub fn goto_line(&mut self, line: i32)
        ensures
            Self::controlled(*old(self), *final(self), ControlOp::GotoLine(line)),
    {
        self.accept_control_operation(ControlOp::GotoLine(line));
    }

    /// Cursor to column `col`: flush the buffered run, then forward.
    pub fn goto_col(&mut self, col: usize)
        ensures
            Self::controlled(*old(self), *final(self), ControlOp::GotoCol(col)),
    {
        self.accept_control_operation(ControlOp::GotoCol(col));
    }

    /// The DECALN screen-alignment routine: flush the buffered run, then forward.
    pub fn decaln(&mut self)
        ensures
            Self::controlled(*old(self), *final(self), ControlOp::Decaln),
    {
        self.accept_control_operation(ControlOp::Decaln);
    }

    /// Cursor up `lines` rows: flush the buffered run, then forward.
    pub fn move_up(&mut self, lines: usize)
        ensures
            Self::controlled(*old(self), *final(self), ControlOp::MoveUp(lines)),
    {
        self.accept_control_operation(ControlOp::MoveUp(lines));
    }

    /// Cursor down `lines` rows: flush the buffered run, then forward.
    pub fn move_down(&mut self, lines: usize)
        ensures
            Self::controlled(*old(self), *final(self), ControlOp::MoveDown(lines)),
    {
        self.accept_control_operation(ControlOp::MoveDown(lines));
    }

    /// Cursor forward `cols` columns: flush the buffered run, then forward.
    pub fn move_forward(&mut self, cols: usize)
        ensures
            Self::controlled(*old(self), *final(self), ControlOp::MoveForward(cols)),
    {
        self.accept_control_operation(ControlOp::MoveForward(cols));
    }

    /// Cursor backward `cols` columns: flush the buffered run, then forward.
    pub fn move_backward(&mut self, cols: usize)
        ensures
            Self::controlled(*old(self), *final(self), ControlOp::MoveBackward(cols)),
    {
        self.accept_control_operation(ControlOp::MoveBackward(cols));
    }

    /// Identify the terminal: flush the buffered run, then forward.
    pub fn identify_terminal(&mut self, intermediate: Option<char>)
        ensures
            Self::controlled(*old(self), *final(self), ControlOp::IdentifyTerminal(intermediate)),
    {
        self.accept_control_operation(ControlOp::IdentifyTerminal(intermediate));
    }

    /// Report device status: flush the buffered run, then forward.
    pub fn device_status(&mut self, arg: usize)
        ensures
            Self::controlled(*old(self), *final(self), ControlOp::DeviceStatus(arg)),
    {
        self.accept_control_operation(ControlOp::DeviceStatus(arg));
    }

    /// Cursor down `lines` rows, to column 1: flush the buffered run, then forward.
    pub fn move_down_and_cr(&mut self, lines: usize)
        ensures
            Self::controlled(*old(self), *final(self), ControlOp::MoveDownAndCr(lines)),
    {
        self.accept_control_operation(ControlOp::MoveDownAndCr(lines));
    }

    /// Cursor up `lines` rows, to column 1: flush the buffered run, then forward.
    pub fn move_up_and_cr(&mut self, lines: usize)
        ensures
            Self::controlled(*old(self), *final(self), ControlOp::MoveUpAndCr(lines)),
    {
        self.accept_control_operation(ControlOp::MoveUpAndCr(lines));
    }

    /// Put `count` tabs: flush the buffered run, then forward.
    pub fn put_tab(&mut self, count: u16)
        ensures
            Self::controlled(*old(self), *final(self), ControlOp::PutTab(count)),
    {
        self.accept_control_operation(ControlOp::PutTab(count));
    }

    /// Backspace: flush the buffered run, then forward.
    pub fn backspace(&mut self)
        ensures
            Self::controlled(*old(self), *final(self), ControlOp::Backspace),
    {
        self.accept_control_operation(ControlOp::Backspace);
    }

    /// Carriage return: flush the buffered run, then forward.
    pub fn carriage_return(&mut self)
        ensures
            Self::controlled(*old(self), *final(self), ControlOp::CarriageReturn),
    {
        self.accept_control_operation(ControlOp::CarriageReturn);
    }

    /// Linefeed: flush the buffered run, then forward.
    pub fn linefeed(&mut self)
        ensures
            Self::controlled(*old(self), *final(self), ControlOp::Linefeed),
    {
        self.accept_control_operation(ControlOp::Linefeed);
    }

    /// Ring the bell: flush the buffered run, then forward.
    pub fn bell(&mut self)
        ensures
            Self::controlled(*old(self), *final(self), ControlOp::Bell),
    {
        self.accept_control_operation(ControlOp::Bell);
    }

    /// Substitute the character under the cursor: flush the buffered run, then forward.
    pub fn substitute(&mut self)
        ensures
            Self::controlled(*old(self), *final(self), ControlOp::Substitute),
    {
        self.accept_control_operation(ControlOp::Substitute);
    }

    /// Newline: flush the buffered run, then forward.
    pub fn newline(&mut self)
        ensures
            Self::controlled(*old(self), *final(self), ControlOp::Newline),
    {
        self.accept_control_operation(ControlOp::Newline);
    }

    /// Set a tabstop at the current position: flush the buffered run, then forward.
    pub fn set_horizontal_tabstop(&mut self)
        ensures
            Self::controlled(*old(self), *final(self), ControlOp::SetHorizontalTabstop),
    {
        self.accept_control_operation(ControlOp::SetHorizontalTabstop);
    }

    /// Scroll up `lines` rows: flush the buffered run, then forward.
    pub fn scroll_up(&mut self, lines: usize)
        ensures
            Self::controlled(*old(self), *final(self), ControlOp::ScrollUp(lines)),
    {
        self.accept_control_operation(ControlOp::ScrollUp(lines));
    }

    /// Scroll down `lines` rows: flush the buffered run, then forward.
    pub fn scroll_down(&mut self, lines: usize)
        ensures
            Self::controlled(*old(self), *final(self), ControlOp::ScrollDown(lines)),
    {
        self.accept_control_operation(ControlOp::ScrollDown(lines));
    }

    /// Insert `lines` blank lines: flush the buffered run, then forward.
    pub fn insert_blank_lines(&mut self, lines: usize)
        ensures
            Self::controlled(*old(self), *final(self), ControlOp::InsertBlankLines(lines)),
    {
        self.accept_control_operation(ControlOp::InsertBlankLines(lines));
    }

    /// Delete `lines` lines: flush the buffered run, then forward.
    pub fn delete_lines(&mut self, lines: usize)
        ensures
            Self::controlled(*old(self), *final(self), ControlOp::DeleteLines(lines)),
    {
        self.accept_control_operation(ControlOp::DeleteLines(lines));
    }

    /// Erase `count` characters after the cursor: flush the buffered run, then forward.
    pub fn erase_chars(&mut self, count: usize)
        ensures
            Self::controlled(*old(self), *final(self), ControlOp::EraseChars(count)),
    {
        self.accept_control_operation(ControlOp::EraseChars(count));
    }

    /// Delete `count` characters: flush the buffered run, then forward.
    pub fn delete_chars(&mut self, count: usize)
        ensures
            Self::controlled(*old(self), *final(self), ControlOp::DeleteChars(count)),
    {
        self.accept_control_operation(ControlOp::DeleteChars(count));
    }

    /// Cursor backward `count` tabs: flush the buffered run, then forward.
    pub fn move_backward_tabs(&mut self, count: u16)
        ensures
            Self::controlled(*old(self), *final(self), ControlOp::MoveBackwardTabs(count)),
    {
        self.accept_control_operation(ControlOp::MoveBackwardTabs(count));
    }

    /// Cursor forward `count` tabs: flush the buffered run, then forward.
    pub fn move_forward_tabs(&mut self, count: u16)
        ensures
            Self::controlled(*old(self), *final(self), ControlOp::MoveForwardTabs(count)),
    {
        self.accept_control_operation(ControlOp::MoveForwardTabs(count));
    }

    /// Save the cursor position: flush the buffered run, then forward.
    pub fn save_cursor_position(&mut self)
        ensures
            Self::controlled(*old(self), *final(self), ControlOp::SaveCursorPosition),
    {
        self.accept_control_operation(ControlOp::SaveCursorPosition);
    }

    /// Restore the cursor position: flush the buffered run, then forward.
    pub fn restore_cursor_position(&mut self)
        ensures
            Self::controlled(*old(self), *final(self), ControlOp::RestoreCursorPosition),
    {
        self.accept_control_operation(ControlOp::RestoreCursorPosition);
    }

    /// Clear part of the current line: flush the buffered run, then forward.
    pub fn clear_line(&mut self, mode: LineClearMode)
        ensures
            Self::controlled(*old(self), *final(self), ControlOp::ClearLine(mode)),
    {
        self.accept_control_operation(ControlOp::ClearLine(mode));
    }

    /// Set an indexed color value: flush the buffered run, then forward.
    pub fn set_color(&mut self, index: usize, color: Rgb)
        ensures
            Self::controlled(*old(self), *final(self), ControlOp::SetColor(index, color)),
    {
        self.accept_control_operation(ControlOp::SetColor(index, color));
    }

    /// Respond to a color query escape sequence: flush the buffered run, then forward.
    pub fn dynamic_color_sequence(&mut self, prefix: String, index: usize, terminator: String)
        ensures
            Self::controlled(*old(self), *final(self), ControlOp::DynamicColorSequence(prefix, index, terminator)),
    {
        self.accept_control_operation(ControlOp::DynamicColorSequence(prefix, index, terminator));
    }

    /// Reset an indexed color to its original value: flush the buffered run, then forward.
    pub fn reset_color(&mut self, index: usize)
        ensures
            Self::controlled(*old(self), *final(self), ControlOp::ResetColor(index)),
    {
        self.accept_control_operation(ControlOp::ResetColor(index));
    }

    /// Store data into a clipboard: flush the buffered run, then forward.
    pub fn clipboard_store(&mut self, clipboard: u8, base64: Vec<u8>)
        ensures
            Self::controlled(*old(self), *final(self), ControlOp::ClipboardStore(clipboard, base64)),
    {
        self.accept_control_operation(ControlOp::ClipboardStore(clipboard, base64));
    }

    /// Load data from a clipboard: flush the buffered run, then forward.
    pub fn clipboard_load(&mut self, clipboard: u8, terminator: String)
        ensures
            Self::controlled(*old(self), *final(self), ControlOp::ClipboardLoad(clipboard, terminator)),
    {
        self.accept_control_operation(ControlOp::ClipboardLoad(clipboard, terminator));
    }

    /// Clear part of the screen: flush the buffered run, then forward.
    pub fn clear_screen(&mut self, mode: ClearMode)
        ensures
            Self::controlled(*old(self), *final(self), ControlOp::ClearScreen(mode)),
    {
        self.accept_control_operation(ControlOp::ClearScreen(mode));
    }

    /// Clear tab stops: flush the buffered run, then forward.
    pub fn clear_tabs(&mut self, mode: TabulationClearMode)
        ensures
            Self::controlled(*old(self), *final(self), ControlOp::ClearTabs(mode)),
    {
        self.accept_control_operation(ControlOp::ClearTabs(mode));
    }

    /// Reset the terminal state: flush the buffered run, then forward.
    pub fn reset_state(&mut self)
        ensures
            Self::controlled(*old(self), *final(self), ControlOp::ResetState),
    {
        self.accept_control_operation(ControlOp::ResetState);
    }

    /// Reverse index: flush the buffered run, then forward.
    pub fn reverse_index(&mut self)
        ensures
            Self::controlled(*old(self), *final(self), ControlOp::ReverseIndex),
    {
        self.accept_control_operation(ControlOp::ReverseIndex);
    }

    /// Set or reset the hyperlink: flush the buffered run, then forward.
    pub fn set_hyperlink(&mut self, hyperlink: Option<Hyperlink>)
        ensures
            Self::controlled(*old(self), *final(self), ControlOp::SetHyperlink(hyperlink)),
    {
        self.accept_control_operation(ControlOp::SetHyperlink(hyperlink));
    }

    /// Set a terminal attribute: flush the buffered run, then forward.
    pub fn terminal_attribute(&mut self, attr: Attr)
        ensures
            Self::controlled(*old(self), *final(self), ControlOp::TerminalAttribute(attr)),
    {
        self.accept_control_operation(ControlOp::TerminalAttribute(attr));
    }

    /// Set a private mode: flush the buffered run, then forward.
    pub fn set_private_mode(&mut self, mode: PrivateMode)
        ensures
            Self::controlled(*old(self), *final(self), ControlOp::SetPrivateMode(mode)),
    {
        self.accept_control_operation(ControlOp::SetPrivateMode(mode));
    }

    /// Unset a private mode: flush the buffered run, then forward.
    pub fn unset_private_mode(&mut self, mode: PrivateMode)
        ensures
            Self::controlled(*old(self), *final(self), ControlOp::UnsetPrivateMode(mode)),
    {
        self.accept_control_operation(ControlOp::UnsetPrivateMode(mode));
    }

    /// Report a private mode: flush the buffered run, then forward.
    pub fn report_private_mode(&mut self, mode: PrivateMode)
        ensures
            Self::controlled(*old(self), *final(self), ControlOp::ReportPrivateMode(mode)),
    {
        self.accept_control_operation(ControlOp::ReportPrivateMode(mode));
    }

    /// Set a mode: flush the buffered run, then forward.
    pub fn set_mode(&mut self, mode: Mode)
        ensures
            Self::controlled(*old(self), *final(self), ControlOp::SetMode(mode)),
    {
        self.accept_control_operation(ControlOp::SetMode(mode));
    }

    /// Unset a mode: flush the buffered run, then forward.
    pub fn unset_mode(&mut self, mode: Mode)
        ensures
            Self::controlled(*old(self), *final(self), ControlOp::UnsetMode(mode)),
    {
        self.accept_control_operation(ControlOp::UnsetMode(mode));
    }

    /// Report a mode: flush the buffered run, then forward.
    pub fn report_mode(&mut self, mode: Mode)
        ensures
            Self::controlled(*old(self), *final(self), ControlOp::ReportMode(mode)),
    {
        self.accept_control_operation(ControlOp::ReportMode(mode));
    }

    /// Set the scrolling region: flush the buffered run, then forward.
    pub fn set_scrolling_region(&mut self, top: usize, bottom: Option<usize>)
        ensures
            Self::controlled(*old(self), *final(self), ControlOp::SetScrollingRegion(top, bottom)),
    {
        self.accept_control_operation(ControlOp::SetScrollingRegion(top, bottom));
    }

    /// Set keypad to application mode: flush the buffered run, then forward.
    pub fn set_keypad_application_mode(&mut self)
        ensures
            Self::controlled(*old(self), *final(self), ControlOp::SetKeypadApplicationMode),
    {
        self.accept_control_operation(ControlOp::SetKeypadApplicationMode);
    }

    /// Set keypad to numeric mode: flush the buffered run, then forward.
    pub fn unset_keypad_application_mode(&mut self)
        ensures
            Self::controlled(*old(self), *final(self), ControlOp::UnsetKeypadApplicationMode),
    {
        self.accept_control_operation(ControlOp::UnsetKeypadApplicationMode);
    }

    /// Assign a character set to G0 to G3: flush the buffered run, then forward.
    pub fn configure_charset(&mut self, index: CharsetIndex, charset: StandardCharset)
        ensures
            Self::controlled(*old(self), *final(self), ControlOp::ConfigureCharset(index, charset)),
    {
        self.accept_control_operation(ControlOp::ConfigureCharset(index, charset));
    }

    /// Set the active character set: flush the buffered run, then forward.
    pub fn set_active_charset(&mut self, index: CharsetIndex)
        ensures
            Self::controlled(*old(self), *final(self), ControlOp::SetActiveCharset(index)),
    {
        self.accept_control_operation(ControlOp::SetActiveCharset(index));
    }

    /// Set the window title: flush the buffered run, then forward.
    pub fn set_title(&mut self, title: Option<String>)
        ensures
            Self::controlled(*old(self), *final(self), ControlOp::SetTitle(title)),
    {
        self.accept_control_operation(ControlOp::SetTitle(title));
    }

    /// Push a title onto the title stack: flush the buffered run, then forward.
    pub fn push_title(&mut self)
        ensures
            Self::controlled(*old(self), *final(self), ControlOp::PushTitle),
    {
        self.accept_control_operation(ControlOp::PushTitle);
    }

    /// Pop the last title from the title stack: flush the buffered run, then forward.
    pub fn pop_title(&mut self)
        ensures
            Self::controlled(*old(self), *final(self), ControlOp::PopTitle),
    {
        self.accept_control_operation(ControlOp::PopTitle);
    }

    /// Report the text area size in pixels: flush the buffered run, then forward.
    pub fn text_area_size_pixels(&mut self)
        ensures
            Self::controlled(*old(self), *final(self), ControlOp::TextAreaSizePixels),
    {
        self.accept_control_operation(ControlOp::TextAreaSizePixels);
    }

    /// Report the text area size in characters: flush the buffered run, then forward.
    pub fn text_area_size_chars(&mut self)
        ensures
            Self::controlled(*old(self), *final(self), ControlOp::TextAreaSizeChars),
    {
        self.accept_control_operation(ControlOp::TextAreaSizeChars);
    }

    /// Set the cursor style: flush the buffered run, then forward.
    pub fn set_cursor_style(&mut self, style: Option<CursorStyle>)
        ensures
            Self::controlled(*old(self), *final(self), ControlOp::SetCursorStyle(style)),
    {
        self.accept_control_operation(ControlOp::SetCursorStyle(style));
    }

    /// Set the cursor shape: flush the buffered run, then forward.
    pub fn set_cursor_shape(&mut self, shape: CursorShape)
        ensures
            Self::controlled(*old(self), *final(self), ControlOp::SetCursorShape(shape)),
    {
        self.accept_control_operation(ControlOp::SetCursorShape(shape));
    }

    /// Report the current keyboard mode: flush the buffered run, then forward.
    pub fn report_keyboard_mode(&mut self)
        ensures
            Self::controlled(*old(self), *final(self), ControlOp::ReportKeyboardMode),
    {
        self.accept_control_operation(ControlOp::ReportKeyboardMode);
    }

    /// Push a keyboard mode onto the stack: flush the buffered run, then forward.
    pub fn push_keyboard_mode(&mut self, mode: KeyboardModes)
        ensures
            Self::controlled(*old(self), *final(self), ControlOp::PushKeyboardMode(mode)),
    {
        self.accept_control_operation(ControlOp::PushKeyboardMode(mode));
    }

    /// Pop `to_pop` keyboard modes from the stack: flush the buffered run, then forward.
    pub fn pop_keyboard_modes(&mut self, to_pop: u16)
        ensures
            Self::controlled(*old(self), *final(self), ControlOp::PopKeyboardModes(to_pop)),
    {
        self.accept_control_operation(ControlOp::PopKeyboardModes(to_pop));
    }

    /// Set the keyboard mode: flush the buffered run, then forward.
    pub fn set_keyboard_mode(&mut self, mode: KeyboardModes, behavior: KeyboardModesApplyBehavior)
        ensures
            Self::controlled(*old(self), *final(self), ControlOp::SetKeyboardMode(mode, behavior)),
    {
        self.accept_control_operation(ControlOp::SetKeyboardMode(mode, behavior));
    }

    /// Insert `count` blank characters after the cursor: flush the buffered run, then forward.
    pub fn insert_blank(&mut self, count: usize)
        ensures
            Self::controlled(*old(self), *final(self), ControlOp::InsertBlank(count)),
    {
        self.accept_control_operation(ControlOp::InsertBlank(count));
    }
}

} // verus!
