//! The message composer: the field the user drafts chat messages in,
//! together with its Normal/Editing mode.

use crate::input_buffer::{empty_input, InputBuffer, InputView};
use vstd::prelude::*;

verus! {

/// Whether key presses are routed to the composer (`Editing`) or to
/// the channel-level commands (`Normal`).
#[derive(Clone, Copy, PartialEq, Eq, Structural, Debug)]
pub enum MessageMode {
    Normal,
    Editing,
}

/// Mathematical model of the composer: its buffer and its mode.
#[verifier::ext_equal]
pub struct MessageBoxView {
    pub input: InputView,
    pub mode: MessageMode,
}

/// The chat-message composer.
pub struct MessageBox {
    pub input: InputBuffer,
    pub mode: MessageMode,
}

impl View for MessageBox {
    type V = MessageBoxView;

    open spec fn view(&self) -> MessageBoxView {
        MessageBoxView { input: self.input@, mode: self.mode }
    }
}

impl Default for MessageBox {
    fn default() -> (r: MessageBox)
        ensures
            r@ == (MessageBoxView { input: empty_input(), mode: MessageMode::Normal }),
    {
        MessageBox { input: InputBuffer::new(), mode: MessageMode::Normal }
    }
}

impl MessageBox {
    /// Move the cursor one character left; saturates at the start.
    pub fn move_cursor_left(&mut self)
        requires
            old(self)@.input.inv(),
        ensures
            final(self)@ == (MessageBoxView {
                input: old(self)@.input.move_left_spec(),
                mode: old(self)@.mode,
            }),
            final(self)@.input.inv(),
    {
        self.input.move_cursor_left();
    }

    /// Move the cursor one character right; saturates at the end.
    pub fn move_cursor_right(&mut self)
        requires
            old(self)@.input.inv(),
        ensures
            final(self)@ == (MessageBoxView {
                input: old(self)@.input.move_right_spec(),
                mode: old(self)@.mode,
            }),
            final(self)@.input.inv(),
    {
        self.input.move_cursor_right();
    }

    /// Insert a character at the cursor and step the cursor past it.
    pub fn enter_char(&mut self, new_char: char)
        requires
            old(self)@.input.inv(),
            old(self)@.input.text.len() < usize::MAX,
        ensures
            final(self)@ == (MessageBoxView {
                input: old(self)@.input.insert_spec(new_char),
                mode: old(self)@.mode,
            }),
            final(self)@.input.inv(),
    {
        self.input.enter_char(new_char);
    }

    /// Delete the character just before the cursor; a no-op with the
    /// cursor at the start.
    pub fn delete_char(&mut self)
        requires
            old(self)@.input.inv(),
        ensures
            final(self)@ == (MessageBoxView {
                input: old(self)@.input.delete_backward_spec(),
                mode: old(self)@.mode,
            }),
            final(self)@.input.inv(),
    {
        self.input.delete_char();
    }

    /// Put the cursor back at the start of the field.
    pub fn reset_cursor(&mut self)
        ensures
            final(self)@ == (MessageBoxView {
                input: old(self)@.input.reset_cursor_spec(),
                mode: old(self)@.mode,
            }),
    {
        self.input.reset_cursor();
    }
}

} // verus!
