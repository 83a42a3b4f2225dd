//! Dispatch of inbound protocol events into the application state.
//!
//! Only two events change anything: a confirmed join adds a channel
//! (idempotently) and a message is delivered to an existing channel.
//! Parts reported by the server, keep-alive probes and unrecognized
//! events are tolerated and ignored; the end of the inbound stream
//! turns off `connected`.

use crate::app::{App, AppView, MessageInfo, MessageView};
use crate::event::{ClientEvent, ClientEventView};
use vstd::prelude::*;

verus! {

/// The message stored for an inbound line: the sender when the
/// protocol named one, a sentinel author otherwise.
pub open spec fn inbound_message(content: Seq<char>, nickname: Option<Seq<char>>) -> MessageView {
    MessageView {
        nickname: match nickname {
            Some(n) => n,
            None => "UNKNOWN"@,
        },
        content,
    }
}

/// The full inbound-event -> transition table.
pub open spec fn irc_step(s: AppView, ev: ClientEventView) -> AppView {
    match ev {
        ClientEventView::Privmsg { channel, content, nickname } => s.deliver_msg_spec(
            channel,
            inbound_message(content, nickname),
        ),
        ClientEventView::Join { channel } => s.on_join_spec(channel),
        ClientEventView::Disconnected => s.disconnect_spec(),
        _ => s,
    }
}

/// Apply one inbound protocol event to the state.
pub fn handle_irc_messages(irc_event: ClientEvent, app: &mut App)
    requires
        old(app)@.inv(),
    ensures
        final(app)@ == irc_step(old(app)@, irc_event@),
        final(app)@.inv(),
{
    match irc_event {
        ClientEvent::Privmsg(channel, content, nickname) => {
            let nick = match nickname {
                Some(n) => n,
                None => "UNKNOWN".to_owned(),
            };
            let chat_message = MessageInfo { nickname: nick, content };
            app.add_chat_message(channel, chat_message);
        },
        ClientEvent::Join(channel) => {
            app.on_join_channel(channel);
        },
        ClientEvent::Disconnected => {
            app.connected = false;
            proof {
                assert(final(app)@ =~~= irc_step(old(app)@, irc_event@));
            }
        },
        _ => {
            proof {
                assert(final(app)@ =~~= irc_step(old(app)@, irc_event@));
            }
        },
    }
}

} // verus!
