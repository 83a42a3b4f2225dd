//! The join-channel prompt: the field the user types a channel name
//! into before requesting a join.

use crate::input_buffer::{empty_input, InputBuffer, InputView};
use vstd::prelude::*;

verus! {

/// The editable field of the join overlay. `channel` holds the channel
/// name being typed, character by character.
pub struct JoinBox {
    pub channel: InputBuffer,
}

impl View for JoinBox {
    type V = InputView;

    open spec fn view(&self) -> InputView {
        self.channel@
    }
}

impl Default for JoinBox {
    fn default() -> (r: JoinBox)
        ensures
            r@ == empty_input(),
    {
        JoinBox { channel: InputBuffer::new() }
    }
}

impl JoinBox {
    /// Move the cursor one character left; saturates at the start.
    pub fn move_cursor_left(&mut self)
        requires
            old(self)@.inv(),
        ensures
            final(self)@ == old(self)@.move_left_spec(),
            final(self)@.inv(),
    {
        self.channel.move_cursor_left();
    }

    /// Move the cursor one character right; saturates at the end.
    pub fn move_cursor_right(&mut self)
        requires
            old(self)@.inv(),
        ensures
            final(self)@ == old(self)@.move_right_spec(),
            final(self)@.inv(),
    {
        self.channel.move_cursor_right();
    }

    /// Insert a character at the cursor and step the cursor past it.
    pub fn enter_char(&mut self, new_char: char)
        requires
            old(self)@.inv(),
            old(self)@.text.len() < usize::MAX,
        ensures
            final(self)@ == old(self)@.insert_spec(new_char),
            final(self)@.inv(),
    {
        self.channel.enter_char(new_char);
    }

    /// Delete the character just before the cursor; a no-op with the
    /// cursor at the start.
    pub fn delete_char(&mut self)
        requires
            old(self)@.inv(),
        ensures
            final(self)@ == old(self)@.delete_backward_spec(),
            final(self)@.inv(),
    {
        self.channel.delete_char();
    }

    /// Put the cursor back at the start of the field.
    pub fn reset_cursor(&mut self)
        ensures
            final(self)@ == old(self)@.reset_cursor_spec(),
    {
        self.channel.reset_cursor();
    }
}

} // verus!
