//! The event vocabulary of the client.
//!
//! Two producers (the protocol connection and the terminal) feed one
//! consumer; everything they hand over is an `Event`. Everything the
//! state machine wants done on the connection comes back out as an
//! `OutboundRequest`. Both sides are plain data, so the whole dispatch
//! can be stated and checked here while the producers themselves stay
//! outside the crate.

use vstd::prelude::*;

verus! {

/// The key presses the dispatch table distinguishes. Anything else the
/// terminal can produce maps to `Other` and is ignored.
#[derive(Clone, Copy, PartialEq, Eq, Debug)]
pub enum KeyCode {
    Char(char),
    Enter,
    Backspace,
    Esc,
    Left,
    Right,
    Tab,
    Other,
}

/// One key press: the key and whether Control was held.
#[derive(Clone, Copy, PartialEq, Eq, Debug)]
pub struct KeyEvent {
    pub code: KeyCode,
    pub ctrl: bool,
}

/// One inbound protocol event, already parsed into plain values.
///
/// `Other` carries the raw text of anything unrecognized; the state
/// machine tolerates and ignores it. `Disconnected` reports that the
/// network producer stopped without being cancelled, so the state
/// machine can stop accepting submissions.
#[derive(PartialEq, Eq, Debug)]
pub enum ClientEvent {
    /// Channel name, message content, and source nickname when the
    /// protocol supplied one.
    Privmsg(String, String, Option<String>),
    /// Channel name of a server-confirmed join.
    Join(String),
    /// Channel name of a server-reported part.
    Leave(String),
    /// Origin of a keep-alive probe.
    Ping(String),
    /// Raw text of an unrecognized event.
    Other(String),
    /// The connection's event stream ended unexpectedly.
    Disconnected,
}

/// Model of a `ClientEvent`, over character sequences.
#[verifier::ext_equal]
pub enum ClientEventView {
    Privmsg { channel: Seq<char>, content: Seq<char>, nickname: Option<Seq<char>> },
    Join { channel: Seq<char> },
    Leave { channel: Seq<char> },
    Ping { origin: Seq<char> },
    Other { raw: Seq<char> },
    Disconnected,
}

impl View for ClientEvent {
    type V = ClientEventView;

    open spec fn view(&self) -> ClientEventView {
        match self {
            ClientEvent::Privmsg(channel, content, nickname) => ClientEventView::Privmsg {
                channel: channel@,
                content: content@,
                nickname: nickname.deep_view(),
            },
            ClientEvent::Join(channel) => ClientEventView::Join { channel: channel@ },
            ClientEvent::Leave(channel) => ClientEventView::Leave { channel: channel@ },
            ClientEvent::Ping(origin) => ClientEventView::Ping { origin: origin@ },
            ClientEvent::Other(raw) => ClientEventView::Other { raw: raw@ },
            ClientEvent::Disconnected => ClientEventView::Disconnected,
        }
    }
}

/// One outbound call the consumer wants made on the protocol client.
#[derive(PartialEq, Eq, Debug)]
pub enum OutboundRequest {
    /// Send `text` to `channel`.
    Privmsg { channel: String, text: String },
    /// Ask the server to join `channel`.
    Join { channel: String },
    /// Ask the server to part `channel`.
    Part { channel: String },
}

/// Model of an `OutboundRequest`, over character sequences.
#[verifier::ext_equal]
pub enum RequestView {
    Privmsg { channel: Seq<char>, text: Seq<char> },
    Join { channel: Seq<char> },
    Part { channel: Seq<char> },
}

impl View for OutboundRequest {
    type V = RequestView;

    open spec fn view(&self) -> RequestView {
        match self {
            OutboundRequest::Privmsg { channel, text } => RequestView::Privmsg {
                channel: channel@,
                text: text@,
            },
            OutboundRequest::Join { channel } => RequestView::Join { channel: channel@ },
            OutboundRequest::Part { channel } => RequestView::Part { channel: channel@ },
        }
    }
}

impl DeepView for OutboundRequest {
    type V = RequestView;

    open spec fn deep_view(&self) -> RequestView {
        self@
    }
}

/// One multiplexed event, whichever producer it came from.
#[derive(PartialEq, Eq, Debug)]
pub enum Event {
    /// An inbound protocol event from the network producer.
    Client(ClientEvent),
    /// A key press from the terminal producer.
    Key(KeyEvent),
    /// A terminal resize; only the renderer cares.
    Resize,
}

/// Model of an `Event`.
#[verifier::ext_equal]
pub enum EventView {
    Client(ClientEventView),
    Key(KeyEvent),
    Resize,
}

impl View for Event {
    type V = EventView;

    open spec fn view(&self) -> EventView {
        match self {
            Event::Client(c) => EventView::Client(c@),
            Event::Key(k) => EventView::Key(*k),
            Event::Resize => EventView::Resize,
        }
    }
}

} // verus!
