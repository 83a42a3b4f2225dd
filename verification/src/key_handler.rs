//! The key dispatch table: one key press in, the next state and an
//! optional outbound request out.
//!
//! Three rows of behaviour, picked by the two independent mode axes:
//! the composer's Normal/Editing mode while the app overlay is Normal,
//! and the Joining overlay. `key_step` is the whole table as one spec
//! function; `handle_key_events` is its executable form.

use crate::app::{App, AppMode, AppView};
use crate::event::{KeyCode, KeyEvent, OutboundRequest, RequestView};
use crate::input_buffer::empty_input;
use crate::messagebox::{MessageBoxView, MessageMode};
use vstd::prelude::*;

verus! {

/// Normal app-mode, composer in Normal mode: channel-level commands.
/// `q` (or Ctrl+`c`) quits, `x` parts the selected channel, Tab cycles
/// the selection, `i` enters the composer, `\` opens the join overlay;
/// everything else is ignored.
pub open spec fn normal_step(s: AppView, key: KeyEvent) -> (AppView, Option<RequestView>) {
    match key.code {
        KeyCode::Char(c) => {
            if c == 'q' || (c == 'c' && key.ctrl) {
                (s.quit_spec(), None)
            } else if c == 'x' {
                s.part_spec()
            } else if c == '\\' {
                (AppView { app_mode: AppMode::Joining, ..s }, None)
            } else if c == 'i' {
                (
                    AppView {
                        message_box: MessageBoxView {
                            input: s.message_box.input,
                            mode: MessageMode::Editing,
                        },
                        ..s
                    },
                    None,
                )
            } else {
                (s, None)
            }
        },
        KeyCode::Tab => (s.next_channel_spec(), None),
        _ => (s, None),
    }
}

/// Normal app-mode, composer in Editing mode: text entry. Printable
/// characters insert, Enter submits, Backspace deletes, Esc leaves
/// Editing, Left/Right move the cursor.
pub open spec fn editing_step(s: AppView, key: KeyEvent) -> (AppView, Option<RequestView>) {
    match key.code {
        KeyCode::Char(c) => (
            AppView {
                message_box: MessageBoxView {
                    input: s.message_box.input.insert_spec(c),
                    mode: s.message_box.mode,
                },
                ..s
            },
            None,
        ),
        KeyCode::Enter => s.submit_spec(),
        KeyCode::Backspace => (
            AppView {
                message_box: MessageBoxView {
                    input: s.message_box.input.delete_backward_spec(),
                    mode: s.message_box.mode,
                },
                ..s
            },
            None,
        ),
        KeyCode::Esc => (
            AppView {
                message_box: MessageBoxView {
                    input: s.message_box.input,
                    mode: MessageMode::Normal,
                },
                ..s
            },
            None,
        ),
        KeyCode::Left => (
            AppView {
                message_box: MessageBoxView {
                    input: s.message_box.input.move_left_spec(),
                    mode: s.message_box.mode,
                },
                ..s
            },
            None,
        ),
        KeyCode::Right => (
            AppView {
                message_box: MessageBoxView {
                    input: s.message_box.input.move_right_spec(),
                    mode: s.message_box.mode,
                },
                ..s
            },
            None,
        ),
        _ => (s, None),
    }
}

/// Joining overlay: text entry into the join prompt. Enter requests
/// the join, Esc closes the overlay and discards the typed name.
pub open spec fn joining_step(s: AppView, key: KeyEvent) -> (AppView, Option<RequestView>) {
    match key.code {
        KeyCode::Char(c) => (AppView { join_box: s.join_box.insert_spec(c), ..s }, None),
        KeyCode::Enter => s.request_join_spec(),
        KeyCode::Backspace => (AppView { join_box: s.join_box.delete_backward_spec(), ..s }, None),
        KeyCode::Esc => (AppView { app_mode: AppMode::Normal, join_box: empty_input(), ..s }, None),
        KeyCode::Left => (AppView { join_box: s.join_box.move_left_spec(), ..s }, None),
        KeyCode::Right => (AppView { join_box: s.join_box.move_right_spec(), ..s }, None),
        _ => (s, None),
    }
}

/// The full key -> transition table.
pub open spec fn key_step(s: AppView, key: KeyEvent) -> (AppView, Option<RequestView>) {
    match s.app_mode {
        AppMode::Normal => match s.message_box.mode {
            MessageMode::Normal => normal_step(s, key),
            MessageMode::Editing => editing_step(s, key),
        },
        AppMode::Joining => joining_step(s, key),
    }
}

/// Apply one key press to the state; returns the outbound request the
/// caller must perform, if the key asked for one.
pub fn handle_key_events(key_event: KeyEvent, app: &mut App) -> (r: Option<OutboundRequest>)
    requires
        old(app)@.inv(),
        old(app)@.message_box.input.text.len() < usize::MAX,
        old(app)@.join_box.text.len() < usize::MAX,
    ensures
        final(app)@ == key_step(old(app)@, key_event).0,
        r.deep_view() == key_step(old(app)@, key_event).1,
        final(app)@.inv(),
{
    match app.app_mode {
        AppMode::Normal => match app.message_box.mode {
            MessageMode::Normal => match key_event.code {
                KeyCode::Char(c) => {
                    if c == 'q' || (c == 'c' && key_event.ctrl) {
                        app.quit();
                        None
                    } else if c == 'x' {
                        app.leave_current_channel()
                    } else if c == '\\' {
                        app.app_mode = AppMode::Joining;
                        proof {
                            assert(final(app)@ =~~= key_step(old(app)@, key_event).0);
                        }
                        None
                    } else if c == 'i' {
                        app.message_box.mode = MessageMode::Editing;
                        proof {
                            assert(final(app)@ =~~= key_step(old(app)@, key_event).0);
                        }
                        None
                    } else {
                        proof {
                            assert(final(app)@ =~~= key_step(old(app)@, key_event).0);
                        }
                        None
                    }
                },
                KeyCode::Tab => {
                    app.next_channel();
                    None
                },
                _ => {
                    proof {
                        assert(final(app)@ =~~= key_step(old(app)@, key_event).0);
                    }
                    None
                },
            },
            MessageMode::Editing => match key_event.code {
                KeyCode::Char(c) => {
                    app.message_box.enter_char(c);
                    proof {
                        assert(final(app)@ =~~= key_step(old(app)@, key_event).0);
                    }
                    None
                },
                KeyCode::Enter => app.send_chat_message(),
                KeyCode::Backspace => {
                    app.message_box.delete_char();
                    proof {
                        assert(final(app)@ =~~= key_step(old(app)@, key_event).0);
                    }
                    None
                },
                KeyCode::Esc => {
                    app.message_box.mode = MessageMode::Normal;
                    proof {
                        assert(final(app)@ =~~= key_step(old(app)@, key_event).0);
                    }
                    None
                },
                KeyCode::Left => {
                    app.message_box.move_cursor_left();
                    proof {
                        assert(final(app)@ =~~= key_step(old(app)@, key_event).0);
                    }
                    None
                },
                KeyCode::Right => {
                    app.message_box.move_cursor_right();
                    proof {
                        assert(final(app)@ =~~= key_step(old(app)@, key_event).0);
                    }
                    None
                },
                _ => {
                    proof {
                        assert(final(app)@ =~~= key_step(old(app)@, key_event).0);
                    }
                    None
                },
            },
        },
        AppMode::Joining => match key_event.code {
            KeyCode::Char(c) => {
                app.join_box.enter_char(c);
                proof {
                    assert(final(app)@ =~~= key_step(old(app)@, key_event).0);
                }
                None
            },
            KeyCode::Enter => {
                let req = app.join_channel();
                Some(req)
            },
            KeyCode::Backspace => {
                app.join_box.delete_char();
                proof {
                    assert(final(app)@ =~~= key_step(old(app)@, key_event).0);
                }
                None
            },
            KeyCode::Esc => {
                app.app_mode = AppMode::Normal;
                app.join_box.channel.clear();
                proof {
                    assert(final(app)@ =~~= key_step(old(app)@, key_event).0);
                }
                None
            },
            KeyCode::Left => {
                app.join_box.move_cursor_left();
                proof {
                    assert(final(app)@ =~~= key_step(old(app)@, key_event).0);
                }
                None
            },
            KeyCode::Right => {
                app.join_box.move_cursor_right();
                proof {
                    assert(final(app)@ =~~= key_step(old(app)@, key_event).0);
                }
                None
            },
            _ => {
                proof {
                    assert(final(app)@ =~~= key_step(old(app)@, key_event).0);
                }
                None
            },
        },
    }
}

} // verus!
