//! The consumer's dispatch: one multiplexed event in, the next state
//! and an optional outbound request out.
//!
//! The consumer processes one event fully before pulling the next, so
//! this function together with `key_step` and `irc_step` is the whole
//! per-event behaviour of the main loop; resizes are left to the
//! renderer.

use crate::app::{App, AppView};
use crate::event::{Event, EventView, OutboundRequest, RequestView};
use crate::irc_handler::{handle_irc_messages, irc_step};
use crate::key_handler::{handle_key_events, key_step};
use vstd::prelude::*;

verus! {

/// The full event -> transition table of the consumer.
pub open spec fn event_step(s: AppView, ev: EventView) -> (AppView, Option<RequestView>) {
    match ev {
        EventView::Client(c) => (irc_step(s, c), None),
        EventView::Key(k) => key_step(s, k),
        EventView::Resize => (s, None),
    }
}

/// Apply one multiplexed event to the state; returns the outbound
/// request the caller must perform, if the event asked for one.
pub fn handle_event(event: Event, app: &mut App) -> (r: Option<OutboundRequest>)
    requires
        old(app)@.inv(),
        old(app)@.message_box.input.text.len() < usize::MAX,
        old(app)@.join_box.text.len() < usize::MAX,
    ensures
        final(app)@ == event_step(old(app)@, event@).0,
        r.deep_view() == event_step(old(app)@, event@).1,
        final(app)@.inv(),
{
    match event {
        Event::Client(irc_event) => {
            handle_irc_messages(irc_event, app);
            None
        },
        Event::Key(key_event) => handle_key_events(key_event, app),
        Event::Resize => None,
    }
}

} // verus!
