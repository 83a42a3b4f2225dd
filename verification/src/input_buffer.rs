//! A character-indexed text buffer with a cursor.
//!
//! Both editable fields of the client (the message composer and the
//! join-channel prompt) are instances of this buffer. The text is held
//! as a sequence of characters, never as raw bytes, so every operation
//! is safe on multi-byte input; the cursor always satisfies
//! `0 <= cursor <= text.len()`.

use vstd::prelude::*;

verus! {

/// Mathematical model of an input buffer: its character sequence and
/// the cursor position inside it.
#[verifier::ext_equal]
pub struct InputView {
    pub text: Seq<char>,
    pub cursor: int,
}

impl InputView {
    /// The buffer invariant: the cursor lies inside the text,
    /// both ends included.
    pub open spec fn inv(self) -> bool {
        0 <= self.cursor <= self.text.len()
    }

    /// Insert one character at the cursor, then move the cursor right.
    pub open spec fn insert_spec(self, c: char) -> InputView {
        InputView { text: self.text.insert(self.cursor, c), cursor: self.cursor + 1 }
    }

    /// Remove the character just before the cursor and move the cursor
    /// left; a no-op when the cursor is at the start.
    pub open spec fn delete_backward_spec(self) -> InputView {
        if self.cursor == 0 {
            self
        } else {
            InputView { text: self.text.remove(self.cursor - 1), cursor: self.cursor - 1 }
        }
    }

    /// Move the cursor one position left, saturating at the start.
    pub open spec fn move_left_spec(self) -> InputView {
        InputView { cursor: if self.cursor >= 1 { self.cursor - 1 } else { 0 }, ..self }
    }

    /// Move the cursor one position right, saturating at the end of the
    /// text.
    pub open spec fn move_right_spec(self) -> InputView {
        InputView {
            cursor: if self.cursor + 1 <= self.text.len() {
                self.cursor + 1
            } else {
                self.text.len() as int
            },
            ..self
        }
    }

    /// Move the cursor back to the start, keeping the text.
    pub open spec fn reset_cursor_spec(self) -> InputView {
        InputView { cursor: 0, ..self }
    }

    /// Clear the text and reset the cursor: the state of a freshly
    /// submitted field.
    pub open spec fn clear_spec(self) -> InputView {
        InputView { text: Seq::empty(), cursor: 0 }
    }
}

/// The empty buffer every field starts from.
pub open spec fn empty_input() -> InputView {
    InputView { text: Seq::empty(), cursor: 0 }
}

/// One editing operation on a buffer, as the key dispatch issues them.
pub enum EditOp {
    Insert(char),
    DeleteBackward,
    MoveLeft,
    MoveRight,
}

/// The effect of one editing operation.
pub open spec fn apply_edit(v: InputView, op: EditOp) -> InputView {
    match op {
        EditOp::Insert(c) => v.insert_spec(c),
        EditOp::DeleteBackward => v.delete_backward_spec(),
        EditOp::MoveLeft => v.move_left_spec(),
        EditOp::MoveRight => v.move_right_spec(),
    }
}

/// The effect of a whole sequence of editing operations, first to
/// last.
pub open spec fn apply_edits(v: InputView, ops: Seq<EditOp>) -> InputView
    decreases ops.len(),
{
    if ops.len() == 0 {
        v
    } else {
        apply_edits(apply_edit(v, ops[0]), ops.drop_first())
    }
}

/// One editing operation keeps the cursor inside the text.
proof fn lemma_edit_preserves_inv(v: InputView, op: EditOp)
    requires
        v.inv(),
    ensures
        apply_edit(v, op).inv(),
{
}

/// After any sequence of insert, delete-backward, move-left and
/// move-right operations on a well-formed buffer — empty or not, any
/// characters — the invariant `0 <= cursor <= text.len()` still holds.
pub proof fn lemma_edits_preserve_inv(v: InputView, ops: Seq<EditOp>)
    requires
        v.inv(),
    ensures
        apply_edits(v, ops).inv(),
    decreases ops.len(),
{
    if ops.len() > 0 {
        lemma_edit_preserves_inv(v, ops[0]);
        lemma_edits_preserve_inv(apply_edit(v, ops[0]), ops.drop_first());
    }
}

/// An editable text field: the characters typed so far and the cursor,
/// counted in characters.
pub struct InputBuffer {
    pub text: Vec<char>,
    pub cursor: usize,
}

impl View for InputBuffer {
    type V = InputView;

    open spec fn view(&self) -> InputView {
        InputView { text: self.text@, cursor: self.cursor as int }
    }
}

impl InputBuffer {
    /// A new, empty field with the cursor at the start.
    pub fn new() -> (r: InputBuffer)
        ensures
            r@ == empty_input(),
    {
        let r = InputBuffer { text: Vec::new(), cursor: 0 };
        proof {
            assert(r@ =~= empty_input());
        }
        r
    }

    /// Clamp a candidate cursor position into the text, as the bound
    /// for cursor movement.
    pub fn clamp_cursor(&self, new_cursor_pos: usize) -> (r: usize)
        ensures
            r == if new_cursor_pos <= self@.text.len() {
                new_cursor_pos as int
            } else {
                self@.text.len() as int
            },
            self@.text.len() <= usize::MAX,
    {
        if new_cursor_pos <= self.text.len() {
            new_cursor_pos
        } else {
            self.text.len()
        }
    }

    /// Move the cursor one character left; saturates at the start.
    pub fn move_cursor_left(&mut self)
        requires
            old(self)@.inv(),
        ensures
            final(self)@ == old(self)@.move_left_spec(),
            final(self)@.inv(),
    {
        let moved = self.cursor.saturating_sub(1);
        self.cursor = self.clamp_cursor(moved);
        proof {
            assert(final(self)@ =~= old(self)@.move_left_spec());
        }
    }

    /// Move the cursor one character right; saturates at the end.
    pub fn move_cursor_right(&mut self)
        requires
            old(self)@.inv(),
        ensures
            final(self)@ == old(self)@.move_right_spec(),
            final(self)@.inv(),
    {
        let moved = self.cursor.saturating_add(1);
        self.cursor = self.clamp_cursor(moved);
        proof {
            assert(final(self)@ =~= old(self)@.move_right_spec());
        }
    }

    /// Insert a character at the cursor and step the cursor past it.
    pub fn enter_char(&mut self, new_char: char)
        requires
            old(self)@.inv(),
            old(self)@.text.len() < usize::MAX,
        ensures
            final(self)@ == old(self)@.insert_spec(new_char),
            final(self)@.inv(),
    {
        self.text.insert(self.cursor, new_char);
        self.cursor = self.cursor + 1;
        proof {
            assert(final(self)@ =~= old(self)@.insert_spec(new_char));
        }
    }

    /// Delete the character just before the cursor and move the cursor
    /// left; a no-op with the cursor at the start.
    pub fn delete_char(&mut self)
        requires
            old(self)@.inv(),
        ensures
            final(self)@ == old(self)@.delete_backward_spec(),
            final(self)@.inv(),
    {
        if self.cursor != 0 {
            self.text.remove(self.cursor - 1);
            self.cursor = self.cursor - 1;
        }
        proof {
            assert(final(self)@ =~= old(self)@.delete_backward_spec());
        }
    }

    /// Put the cursor back at the start of the text.
    pub fn reset_cursor(&mut self)
        ensures
            final(self)@ == old(self)@.reset_cursor_spec(),
    {
        self.cursor = 0;
        proof {
            assert(final(self)@ =~= old(self)@.reset_cursor_spec());
        }
    }

    /// Clear the text and reset the cursor, as after a submission.
    pub fn clear(&mut self)
        ensures
            final(self)@ == old(self)@.clear_spec(),
            final(self)@.inv(),
    {
        self.text.clear();
        self.cursor = 0;
        proof {
            assert(final(self)@ =~= old(self)@.clear_spec());
        }
    }
}

} // verus!
