use twitch_tui::app::{App, ChannelInfo, MessageInfo};
use twitch_tui::event::OutboundRequest;

fn app_with_channels(names: &[&str]) -> App {
    let mut app = App::new(String::from("me"));
    for n in names {
        app.on_join_channel(String::from(*n));
    }
    app
}

fn type_into_composer(app: &mut App, text: &str) {
    for c in text.chars() {
        app.message_box.enter_char(c);
    }
}

#[test]
fn new_app_starts_running_and_empty() {
    let app = App::new(String::from("me"));
    assert!(app.running);
    assert!(app.connected);
    assert_eq!(app.channels.len(), 0);
    assert_eq!(app.current_channel, 0);
    assert_eq!(app.last_error, None);
}

#[test]
fn channel_info_new_has_no_messages() {
    let ch = ChannelInfo::new(String::from("#foo"));
    assert_eq!(ch.name, "#foo");
    assert_eq!(ch.messages.len(), 0);
}

#[test]
fn on_join_channel_is_idempotent() {
    let mut app = App::new(String::from("me"));
    app.on_join_channel(String::from("#foo"));
    app.on_join_channel(String::from("#foo"));
    assert_eq!(app.channels.len(), 1);
    assert_eq!(app.channels[0].name, "#foo");
}

#[test]
fn message_for_absent_channel_is_dropped() {
    let mut app = app_with_channels(&["#a", "#b"]);
    app.add_chat_message(
        String::from("#missing"),
        MessageInfo { nickname: String::from("n"), content: String::from("hi") },
    );
    assert_eq!(app.channels.len(), 2);
    assert_eq!(app.channels[0].messages.len(), 0);
    assert_eq!(app.channels[1].messages.len(), 0);
}

#[test]
fn message_for_present_channel_is_appended() {
    let mut app = app_with_channels(&["#a", "#b"]);
    app.add_chat_message(
        String::from("#b"),
        MessageInfo { nickname: String::from("n"), content: String::from("hi") },
    );
    assert_eq!(app.channels[0].messages.len(), 0);
    assert_eq!(app.channels[1].messages.len(), 1);
    assert_eq!(app.channels[1].messages[0].nickname, "n");
    assert_eq!(app.channels[1].messages[0].content, "hi");
}

#[test]
fn next_channel_cycles_back_to_start() {
    let mut app = app_with_channels(&["#a", "#b", "#c"]);
    assert_eq!(app.current_channel, 0);
    app.next_channel();
    assert_eq!(app.current_channel, 1);
    app.next_channel();
    assert_eq!(app.current_channel, 2);
    app.next_channel();
    assert_eq!(app.current_channel, 0);
}

#[test]
fn next_channel_on_empty_list_is_noop() {
    let mut app = App::new(String::from("me"));
    app.next_channel();
    assert_eq!(app.current_channel, 0);
    assert_eq!(app.channels.len(), 0);
}

#[test]
fn send_chat_message_on_empty_buffer_is_noop() {
    let mut app = app_with_channels(&["#a"]);
    let req = app.send_chat_message();
    assert_eq!(req, None);
    assert_eq!(app.channels[0].messages.len(), 0);
    assert_eq!(app.message_box.input.text.len(), 0);
    assert_eq!(app.message_box.input.cursor, 0);
}

#[test]
fn send_chat_message_without_channel_keeps_buffer() {
    let mut app = App::new(String::from("me"));
    type_into_composer(&mut app, "hello");
    let req = app.send_chat_message();
    assert_eq!(req, None);
    assert_eq!(app.message_box.input.text, vec!['h', 'e', 'l', 'l', 'o']);
    assert_eq!(app.message_box.input.cursor, 5);
}

#[test]
fn send_chat_message_echoes_and_clears() {
    let mut app = app_with_channels(&["#a", "#b"]);
    app.next_channel();
    type_into_composer(&mut app, "hi all");
    let req = app.send_chat_message();
    assert_eq!(
        req,
        Some(OutboundRequest::Privmsg {
            channel: String::from("#b"),
            text: String::from("hi all"),
        })
    );
    assert_eq!(app.channels[1].messages.len(), 1);
    assert_eq!(app.channels[1].messages[0].nickname, "me");
    assert_eq!(app.channels[1].messages[0].content, "hi all");
    assert_eq!(app.channels[0].messages.len(), 0);
    assert_eq!(app.message_box.input.text.len(), 0);
    assert_eq!(app.message_box.input.cursor, 0);
}

#[test]
fn join_channel_normalizes_missing_prefix() {
    let mut app = App::new(String::from("me"));
    for c in "abc".chars() {
        app.join_box.enter_char(c);
    }
    let req = app.join_channel();
    assert_eq!(req, OutboundRequest::Join { channel: String::from("#abc") });
    assert_eq!(app.join_box.channel.text.len(), 0);
    assert_eq!(app.join_box.channel.cursor, 0);
    assert_eq!(app.channels.len(), 0);
}

#[test]
fn join_channel_keeps_existing_prefix() {
    let mut app = App::new(String::from("me"));
    for c in "#abc".chars() {
        app.join_box.enter_char(c);
    }
    let req = app.join_channel();
    assert_eq!(req, OutboundRequest::Join { channel: String::from("#abc") });
}

#[test]
fn leave_current_channel_removes_and_requests_part() {
    let mut app = app_with_channels(&["#a", "#b"]);
    let req = app.leave_current_channel();
    assert_eq!(req, Some(OutboundRequest::Part { channel: String::from("#a") }));
    assert_eq!(app.channels.len(), 1);
    assert_eq!(app.channels[0].name, "#b");
    assert_eq!(app.current_channel, 0);
}

#[test]
fn leave_last_channel_decrements_selection() {
    let mut app = app_with_channels(&["#a", "#b", "#c"]);
    app.next_channel();
    app.next_channel();
    assert_eq!(app.current_channel, 2);
    let req = app.leave_current_channel();
    assert_eq!(req, Some(OutboundRequest::Part { channel: String::from("#c") }));
    assert_eq!(app.current_channel, 1);
}

#[test]
fn leave_middle_channel_keeps_selection() {
    let mut app = app_with_channels(&["#a", "#b", "#c"]);
    app.next_channel();
    assert_eq!(app.current_channel, 1);
    app.leave_current_channel();
    assert_eq!(app.current_channel, 1);
    assert_eq!(app.channels[1].name, "#c");
}

#[test]
fn leave_with_no_channels_is_noop() {
    let mut app = App::new(String::from("me"));
    let req = app.leave_current_channel();
    assert_eq!(req, None);
    assert_eq!(app.current_channel, 0);
}

#[test]
fn quit_stops_running() {
    let mut app = App::new(String::from("me"));
    app.quit();
    assert!(!app.running);
}

#[test]
fn on_send_error_records_reason() {
    let mut app = app_with_channels(&["#a"]);
    app.on_send_error(String::from("send failed"));
    assert_eq!(app.last_error, Some(String::from("send failed")));
    assert_eq!(app.channels.len(), 1);
    assert!(app.running);
}
