use twitch_tui::app::{App, AppMode};
use twitch_tui::event::{ClientEvent, Event, KeyCode, KeyEvent, OutboundRequest};
use twitch_tui::handler::handle_event;
use twitch_tui::irc_handler::handle_irc_messages;
use twitch_tui::key_handler::handle_key_events;
use twitch_tui::messagebox::MessageMode;

fn key(code: KeyCode) -> KeyEvent {
    KeyEvent { code, ctrl: false }
}

fn ctrl_key(code: KeyCode) -> KeyEvent {
    KeyEvent { code, ctrl: true }
}

fn press(app: &mut App, code: KeyCode) -> Option<OutboundRequest> {
    handle_key_events(key(code), app)
}

fn type_text(app: &mut App, text: &str) {
    for c in text.chars() {
        press(app, KeyCode::Char(c));
    }
}

#[test]
fn quit_key_stops_running() {
    let mut app = App::new(String::from("me"));
    let req = press(&mut app, KeyCode::Char('q'));
    assert_eq!(req, None);
    assert!(!app.running);
}

#[test]
fn ctrl_c_quits_but_plain_c_does_not() {
    let mut app = App::new(String::from("me"));
    press(&mut app, KeyCode::Char('c'));
    assert!(app.running);
    handle_key_events(ctrl_key(KeyCode::Char('c')), &mut app);
    assert!(!app.running);
}

#[test]
fn edit_key_enters_editing_and_esc_leaves() {
    let mut app = App::new(String::from("me"));
    press(&mut app, KeyCode::Char('i'));
    assert!(matches!(app.message_box.mode, MessageMode::Editing));
    press(&mut app, KeyCode::Esc);
    assert!(matches!(app.message_box.mode, MessageMode::Normal));
}

#[test]
fn tab_cycles_channels() {
    let mut app = App::new(String::from("me"));
    handle_irc_messages(ClientEvent::Join(String::from("#a")), &mut app);
    handle_irc_messages(ClientEvent::Join(String::from("#b")), &mut app);
    handle_irc_messages(ClientEvent::Join(String::from("#c")), &mut app);
    assert_eq!(app.current_channel, 0);
    press(&mut app, KeyCode::Tab);
    press(&mut app, KeyCode::Tab);
    press(&mut app, KeyCode::Tab);
    assert_eq!(app.current_channel, 0);
}

#[test]
fn editing_keys_drive_the_composer() {
    let mut app = App::new(String::from("me"));
    press(&mut app, KeyCode::Char('i'));
    type_text(&mut app, "ab");
    press(&mut app, KeyCode::Left);
    press(&mut app, KeyCode::Backspace);
    type_text(&mut app, "c");
    press(&mut app, KeyCode::Right);
    assert_eq!(app.message_box.input.text, vec!['c', 'b']);
    assert_eq!(app.message_box.input.cursor, 2);
}

#[test]
fn enter_submits_to_selected_channel() {
    let mut app = App::new(String::from("me"));
    handle_irc_messages(ClientEvent::Join(String::from("#a")), &mut app);
    press(&mut app, KeyCode::Char('i'));
    type_text(&mut app, "hello");
    let req = press(&mut app, KeyCode::Enter);
    assert_eq!(
        req,
        Some(OutboundRequest::Privmsg {
            channel: String::from("#a"),
            text: String::from("hello"),
        })
    );
    assert_eq!(app.channels[0].messages.len(), 1);
    assert_eq!(app.channels[0].messages[0].nickname, "me");
    assert_eq!(app.message_box.input.text.len(), 0);
    assert!(matches!(app.message_box.mode, MessageMode::Editing));
}

#[test]
fn overlay_key_opens_join_prompt_and_enter_requests_join() {
    let mut app = App::new(String::from("me"));
    press(&mut app, KeyCode::Char('\\'));
    assert!(matches!(app.app_mode, AppMode::Joining));
    type_text(&mut app, "abc");
    let req = press(&mut app, KeyCode::Enter);
    assert_eq!(req, Some(OutboundRequest::Join { channel: String::from("#abc") }));
    assert_eq!(app.join_box.channel.text.len(), 0);
    assert!(matches!(app.app_mode, AppMode::Joining));
    assert_eq!(app.channels.len(), 0);
}

#[test]
fn esc_discards_the_join_prompt() {
    let mut app = App::new(String::from("me"));
    press(&mut app, KeyCode::Char('\\'));
    type_text(&mut app, "abc");
    press(&mut app, KeyCode::Esc);
    assert!(matches!(app.app_mode, AppMode::Normal));
    assert_eq!(app.join_box.channel.text.len(), 0);
}

#[test]
fn leave_key_requests_part() {
    let mut app = App::new(String::from("me"));
    handle_irc_messages(ClientEvent::Join(String::from("#a")), &mut app);
    let req = press(&mut app, KeyCode::Char('x'));
    assert_eq!(req, Some(OutboundRequest::Part { channel: String::from("#a") }));
    assert_eq!(app.channels.len(), 0);
}

#[test]
fn unknown_keys_change_nothing() {
    let mut app = App::new(String::from("me"));
    handle_irc_messages(ClientEvent::Join(String::from("#a")), &mut app);
    let req = press(&mut app, KeyCode::Other);
    assert_eq!(req, None);
    assert!(app.running);
    assert_eq!(app.channels.len(), 1);
    assert_eq!(app.current_channel, 0);
}

#[test]
fn join_confirmation_then_message_scenario() {
    let mut app = App::new(String::from("me"));
    press(&mut app, KeyCode::Char('\\'));
    type_text(&mut app, "abc");
    let req = press(&mut app, KeyCode::Enter);
    assert_eq!(req, Some(OutboundRequest::Join { channel: String::from("#abc") }));
    assert_eq!(app.channels.len(), 0);
    handle_irc_messages(ClientEvent::Join(String::from("#abc")), &mut app);
    assert_eq!(app.channels.len(), 1);
    assert_eq!(app.channels[0].name, "#abc");
    assert_eq!(app.channels[0].messages.len(), 0);
    handle_irc_messages(
        ClientEvent::Privmsg(
            String::from("#abc"),
            String::from("hi"),
            Some(String::from("nick")),
        ),
        &mut app,
    );
    assert_eq!(app.channels[0].messages.len(), 1);
    assert_eq!(app.channels[0].messages[0].nickname, "nick");
    assert_eq!(app.channels[0].messages[0].content, "hi");
}

#[test]
fn privmsg_without_source_uses_sentinel_author() {
    let mut app = App::new(String::from("me"));
    handle_irc_messages(ClientEvent::Join(String::from("#a")), &mut app);
    handle_irc_messages(
        ClientEvent::Privmsg(String::from("#a"), String::from("hi"), None),
        &mut app,
    );
    assert_eq!(app.channels[0].messages[0].nickname, "UNKNOWN");
}

#[test]
fn ignored_inbound_events_change_nothing() {
    let mut app = App::new(String::from("me"));
    handle_irc_messages(ClientEvent::Join(String::from("#a")), &mut app);
    handle_irc_messages(ClientEvent::Leave(String::from("#a")), &mut app);
    handle_irc_messages(ClientEvent::Ping(String::from("server")), &mut app);
    handle_irc_messages(ClientEvent::Other(String::from("353 garbled")), &mut app);
    assert_eq!(app.channels.len(), 1);
    assert_eq!(app.channels[0].messages.len(), 0);
    assert!(app.connected);
}

#[test]
fn disconnect_stops_accepting_submissions() {
    let mut app = App::new(String::from("me"));
    handle_irc_messages(ClientEvent::Join(String::from("#a")), &mut app);
    handle_irc_messages(ClientEvent::Disconnected, &mut app);
    assert!(!app.connected);
    press(&mut app, KeyCode::Char('i'));
    type_text(&mut app, "hello");
    let req = press(&mut app, KeyCode::Enter);
    assert_eq!(req, None);
    assert_eq!(app.channels[0].messages.len(), 0);
    assert_eq!(app.message_box.input.text, vec!['h', 'e', 'l', 'l', 'o']);
}

#[test]
fn handle_event_dispatches_all_variants() {
    let mut app = App::new(String::from("me"));
    let req = handle_event(Event::Client(ClientEvent::Join(String::from("#a"))), &mut app);
    assert_eq!(req, None);
    assert_eq!(app.channels.len(), 1);
    let req = handle_event(Event::Key(key(KeyCode::Char('x'))), &mut app);
    assert_eq!(req, Some(OutboundRequest::Part { channel: String::from("#a") }));
    let req = handle_event(Event::Resize, &mut app);
    assert_eq!(req, None);
    assert!(app.running);
}
