//! Application state: joined channels, their messages, the two input
//! fields, and the state transitions the dispatch table is built from.
//!
//! Membership policy: a join is confirmation-based (a channel appears
//! only when the server echoes the join), a part is optimistic (the
//! channel disappears at request time). Outbound work is never done
//! here; methods return an `OutboundRequest` and the caller performs
//! it, reporting a failure back through `on_send_error`.

use crate::event::{OutboundRequest, RequestView};
use crate::input_buffer::{empty_input, InputView};
use crate::join_input::JoinBox;
use crate::messagebox::{MessageBox, MessageBoxView, MessageMode};
use crate::text::chars_to_string;
use vstd::prelude::*;

verus! {

/// One chat message: who said it and what was said. Immutable once
/// created.
#[derive(PartialEq, Eq, Debug)]
pub struct MessageInfo {
    pub nickname: String,
    pub content: String,
}

/// Model of a `MessageInfo`.
#[verifier::ext_equal]
pub struct MessageView {
    pub nickname: Seq<char>,
    pub content: Seq<char>,
}

impl View for MessageInfo {
    type V = MessageView;

    open spec fn view(&self) -> MessageView {
        MessageView { nickname: self.nickname@, content: self.content@ }
    }
}

impl DeepView for MessageInfo {
    type V = MessageView;

    open spec fn deep_view(&self) -> MessageView {
        self@
    }
}

/// One joined channel: its name and the messages seen so far, in
/// arrival order.
#[derive(PartialEq, Eq, Debug)]
pub struct ChannelInfo {
    pub name: String,
    pub messages: Vec<MessageInfo>,
}

/// Model of a `ChannelInfo`.
#[verifier::ext_equal]
pub struct ChannelView {
    pub name: Seq<char>,
    pub messages: Seq<MessageView>,
}

impl View for ChannelInfo {
    type V = ChannelView;

    open spec fn view(&self) -> ChannelView {
        ChannelView { name: self.name@, messages: self.messages.deep_view() }
    }
}

impl DeepView for ChannelInfo {
    type V = ChannelView;

    open spec fn deep_view(&self) -> ChannelView {
        self@
    }
}

impl ChannelInfo {
    /// A freshly joined channel: the given name, no messages yet.
    pub fn new(name: String) -> (r: ChannelInfo)
        ensures
            r@ == (ChannelView { name: name@, messages: Seq::empty() }),
    {
        let r = ChannelInfo { name, messages: Vec::new() };
        proof {
            assert(r@ =~= (ChannelView { name: r.name@, messages: Seq::empty() }));
        }
        r
    }
}

/// The overlay the client is showing: the normal chat screen or the
/// join-channel prompt.
#[derive(Clone, Copy, PartialEq, Eq, Structural, Debug)]
pub enum AppMode {
    Normal,
    Joining,
}

/// Does some channel in `chs` carry this exact name?
pub open spec fn channel_named(chs: Seq<ChannelView>, name: Seq<char>) -> bool {
    exists|i: int| 0 <= i < chs.len() && chs[i].name == name
}

/// No two channels share a name: part of the state invariant.
pub open spec fn unique_channel_names(chs: Seq<ChannelView>) -> bool {
    forall|i: int, j: int| 0 <= i < j < chs.len() ==> chs[i].name != chs[j].name
}

/// The index of the channel carrying `name`; meaningful only when
/// `channel_named` holds (and then unique, given unique names).
pub open spec fn channel_index_of(chs: Seq<ChannelView>, name: Seq<char>) -> int {
    choose|i: int| 0 <= i < chs.len() && chs[i].name == name
}

/// A server-confirmed join: adds an empty channel unless one with that
/// name is already present (idempotent).
pub open spec fn join_spec(chs: Seq<ChannelView>, name: Seq<char>) -> Seq<ChannelView> {
    if channel_named(chs, name) {
        chs
    } else {
        chs.push(ChannelView { name, messages: Seq::empty() })
    }
}

/// Delivery of an inbound message: appended to the channel carrying
/// `target`, dropped when no such channel exists (a message never
/// creates a channel).
pub open spec fn deliver_spec(chs: Seq<ChannelView>, target: Seq<char>, msg: MessageView) -> Seq<
    ChannelView,
> {
    if channel_named(chs, target) {
        let i = channel_index_of(chs, target);
        chs.update(i, ChannelView { name: chs[i].name, messages: chs[i].messages.push(msg) })
    } else {
        chs
    }
}

/// Cyclic advance of the selection: wraps from the last index to 0,
/// unchanged on an empty list.
pub open spec fn next_index_spec(cur: int, len: int) -> int {
    if len == 0 {
        cur
    } else if cur + 1 >= len {
        0
    } else {
        cur + 1
    }
}

/// `next_index_spec` applied `k` times.
pub open spec fn next_index_iter(cur: int, len: int, k: nat) -> int
    decreases k,
{
    if k == 0 {
        cur
    } else {
        next_index_spec(next_index_iter(cur, len, (k - 1) as nat), len)
    }
}

/// A channel name with the channel-prefix marker guaranteed present.
pub open spec fn normalize_channel_name(name: Seq<char>) -> Seq<char> {
    if name.len() > 0 && name[0] == '#' {
        name
    } else {
        seq!['#'] + name
    }
}

/// Model of the whole application state.
#[verifier::ext_equal]
pub struct AppView {
    pub running: bool,
    pub connected: bool,
    pub message_box: MessageBoxView,
    pub join_box: InputView,
    pub channels: Seq<ChannelView>,
    pub current_channel: int,
    pub app_mode: AppMode,
    pub nickname: Seq<char>,
    pub last_error: Option<Seq<char>>,
}

impl AppView {
    /// The state invariant: both buffers are well formed, channel
    /// names are unique, and the selection index is valid whenever the
    /// channel list is non-empty (and pinned to 0 when it is empty).
    pub open spec fn inv(self) -> bool {
        &&& self.message_box.input.inv()
        &&& self.join_box.inv()
        &&& unique_channel_names(self.channels)
        &&& 0 <= self.current_channel
        &&& self.channels.len() == 0 ==> self.current_channel == 0
        &&& self.channels.len() > 0 ==> self.current_channel < self.channels.len()
    }

    /// Is some channel currently selected?
    pub open spec fn has_selected(self) -> bool {
        self.current_channel < self.channels.len()
    }

    /// Stop: the main loop exits once `running` is false.
    pub open spec fn quit_spec(self) -> AppView {
        AppView { running: false, ..self }
    }

    /// The connection's inbound stream ended: submissions stop being
    /// accepted.
    pub open spec fn disconnect_spec(self) -> AppView {
        AppView { connected: false, ..self }
    }

    /// An outbound call failed: remember it for the renderer, change
    /// nothing else.
    pub open spec fn set_error_spec(self, reason: Seq<char>) -> AppView {
        AppView { last_error: Some(reason), ..self }
    }

    /// A server-confirmed join for `name`.
    pub open spec fn on_join_spec(self, name: Seq<char>) -> AppView {
        AppView { channels: join_spec(self.channels, name), ..self }
    }

    /// Delivery of one inbound message.
    pub open spec fn deliver_msg_spec(self, target: Seq<char>, msg: MessageView) -> AppView {
        AppView { channels: deliver_spec(self.channels, target, msg), ..self }
    }

    /// Cyclic advance of the channel selection.
    pub open spec fn next_channel_spec(self) -> AppView {
        AppView {
            current_channel: next_index_spec(self.current_channel, self.channels.len() as int),
            ..self
        }
    }

    /// A submission goes out only when there is text, a selected
    /// channel, and a live connection.
    pub open spec fn can_submit(self) -> bool {
        &&& self.connected
        &&& self.message_box.input.text.len() > 0
        &&& self.has_selected()
    }

    /// Submitting the composer: when `can_submit`, the text goes to
    /// the selected channel, a local echo under the client's own
    /// nickname is appended, and the composer is cleared; otherwise
    /// nothing changes and nothing is sent.
    pub open spec fn submit_spec(self) -> (AppView, Option<RequestView>) {
        if self.can_submit() {
            let name = self.channels[self.current_channel].name;
            let text = self.message_box.input.text;
            let echo = MessageView { nickname: self.nickname, content: text };
            let chs = self.channels.update(
                self.current_channel,
                ChannelView {
                    name,
                    messages: self.channels[self.current_channel].messages.push(echo),
                },
            );
            (
                AppView {
                    channels: chs,
                    message_box: MessageBoxView {
                        input: empty_input(),
                        mode: self.message_box.mode,
                    },
                    ..self
                },
                Some(RequestView::Privmsg { channel: name, text }),
            )
        } else {
            (self, None)
        }
    }

    /// Requesting a join: the typed name is normalized and sent out,
    /// the prompt is cleared; membership changes only when the server
    /// confirms.
    pub open spec fn request_join_spec(self) -> (AppView, Option<RequestView>) {
        (
            AppView { join_box: empty_input(), ..self },
            Some(RequestView::Join { channel: normalize_channel_name(self.join_box.text) }),
        )
    }

    /// Parting the selected channel: optimistic, the channel leaves
    /// local state at request time; the selection decrements
    /// (saturating at 0) exactly when the removed index was the last.
    pub open spec fn part_spec(self) -> (AppView, Option<RequestView>) {
        if self.has_selected() {
            let name = self.channels[self.current_channel].name;
            let chs = self.channels.remove(self.current_channel);
            let cur = if self.current_channel == chs.len() && self.current_channel > 0 {
                self.current_channel - 1
            } else {
                self.current_channel
            };
            (
                AppView { channels: chs, current_channel: cur, ..self },
                Some(RequestView::Part { channel: name }),
            )
        } else {
            (self, None)
        }
    }
}

/// The state the client starts in: running, connected, both fields
/// empty, no channels, normal mode.
pub open spec fn initial_app(nickname: Seq<char>) -> AppView {
    AppView {
        running: true,
        connected: true,
        message_box: MessageBoxView { input: empty_input(), mode: MessageMode::Normal },
        join_box: empty_input(),
        channels: Seq::empty(),
        current_channel: 0,
        app_mode: AppMode::Normal,
        nickname,
        last_error: None,
    }
}

/// The application state. Owned and mutated by the single consumer;
/// producers only ever hand it immutable events.
pub struct App {
    pub running: bool,
    pub connected: bool,
    pub message_box: MessageBox,
    pub join_box: JoinBox,
    pub channels: Vec<ChannelInfo>,
    pub current_channel: usize,
    pub app_mode: AppMode,
    pub nickname: String,
    pub last_error: Option<String>,
}

impl View for App {
    type V = AppView;

    open spec fn view(&self) -> AppView {
        AppView {
            running: self.running,
            connected: self.connected,
            message_box: self.message_box@,
            join_box: self.join_box@,
            channels: self.channels.deep_view(),
            current_channel: self.current_channel as int,
            app_mode: self.app_mode,
            nickname: self.nickname@,
            last_error: self.last_error.deep_view(),
        }
    }
}

impl App {
    /// A fresh client state for a session under `nickname`.
    pub fn new(nickname: String) -> (r: App)
        ensures
            r@ == initial_app(nickname@),
            r@.inv(),
    {
        let r = App {
            running: true,
            connected: true,
            message_box: MessageBox::default(),
            join_box: JoinBox::default(),
            channels: Vec::new(),
            current_channel: 0,
            app_mode: AppMode::Normal,
            nickname,
            last_error: None,
        };
        proof {
            assert(r@ =~~= initial_app(r.nickname@));
        }
        r
    }

    /// The index of the channel carrying `name`, or `None` when no
    /// channel does.
    pub fn channel_position(&self, name: &String) -> (r: Option<usize>)
        ensures
            match r {
                Some(i) => 0 <= i < self@.channels.len() && self@.channels[i as int].name
                    == name@,
                None => !channel_named(self@.channels, name@),
            },
    {
        let n = self.channels.len();
        let mut j: usize = 0;
        while j < n
            invariant
                j <= n,
                n == self@.channels.len(),
                forall|k: int| 0 <= k < j ==> self@.channels[k].name != name@,
            decreases n - j,
        {
            if self.channels[j].name == *name {
                return Some(j);
            }
            j = j + 1;
        }
        None
    }

    /// Submit the composer; see `AppView::submit_spec`.
    pub fn send_chat_message(&mut self) -> (r: Option<OutboundRequest>)
        requires
            old(self)@.inv(),
        ensures
            final(self)@ == old(self)@.submit_spec().0,
            r.deep_view() == old(self)@.submit_spec().1,
            final(self)@.inv(),
    {
        if self.message_box.input.text.len() == 0 || !self.connected || self.current_channel
            >= self.channels.len() {
            proof {
                assert(final(self)@ =~~= old(self)@.submit_spec().0);
            }
            None
        } else {
            let content = chars_to_string(&self.message_box.input.text);
            let echo = MessageInfo { nickname: self.nickname.clone(), content: content.clone() };
            let mut ch = self.channels.remove(self.current_channel);
            let channel_name = ch.name.clone();
            ch.messages.push(echo);
            self.channels.insert(self.current_channel, ch);
            self.message_box.input.clear();
            proof {
                assert(final(self)@.channels =~~= old(self)@.submit_spec().0.channels);
                assert(final(self)@ =~~= old(self)@.submit_spec().0);
            }
            Some(OutboundRequest::Privmsg { channel: channel_name, text: content })
        }
    }

    /// Append an inbound message to the channel carrying
    /// `target_channel`; dropped when no channel does. See
    /// `deliver_spec`.
    pub fn add_chat_message(&mut self, target_channel: String, chat_message: MessageInfo)
        requires
            old(self)@.inv(),
        ensures
            final(self)@ == old(self)@.deliver_msg_spec(target_channel@, chat_message@),
            final(self)@.inv(),
    {
        let pos = self.channel_position(&target_channel);
        match pos {
            Some(i) => {
                let mut ch = self.channels.remove(i);
                ch.messages.push(chat_message);
                self.channels.insert(i, ch);
                proof {
                    lemma_channel_index_unique(old(self)@.channels, target_channel@, i as int);
                    assert(final(self)@.channels =~~= old(self)@.deliver_msg_spec(
                        target_channel@,
                        chat_message@,
                    ).channels);
                    assert(final(self)@ =~~= old(self)@.deliver_msg_spec(
                        target_channel@,
                        chat_message@,
                    ));
                }
            },
            None => {
                proof {
                    assert(final(self)@ =~~= old(self)@.deliver_msg_spec(
                        target_channel@,
                        chat_message@,
                    ));
                }
            },
        }
    }

    /// Normalize and send out the typed join request, clearing the
    /// prompt; see `AppView::request_join_spec`.
    pub fn join_channel(&mut self) -> (r: OutboundRequest)
        requires
            old(self)@.inv(),
            old(self)@.join_box.text.len() < usize::MAX,
        ensures
            final(self)@ == old(self)@.request_join_spec().0,
            Some(r@) == old(self)@.request_join_spec().1,
            final(self)@.inv(),
    {
        let needs_prefix = if self.join_box.channel.text.len() == 0 {
            true
        } else {
            self.join_box.channel.text[0] != '#'
        };
        if needs_prefix {
            self.join_box.channel.text.insert(0, '#');
        }
        proof {
            assert(self.join_box.channel.text@ =~= normalize_channel_name(
                old(self)@.join_box.text,
            ));
        }
        let name = chars_to_string(&self.join_box.channel.text);
        self.join_box.channel.clear();
        proof {
            assert(final(self)@ =~~= old(self)@.request_join_spec().0);
        }
        OutboundRequest::Join { channel: name }
    }

    /// Record a server-confirmed join; idempotent. See `join_spec`.
    pub fn on_join_channel(&mut self, channel: String)
        requires
            old(self)@.inv(),
        ensures
            final(self)@ == old(self)@.on_join_spec(channel@),
            final(self)@.inv(),
    {
        let pos = self.channel_position(&channel);
        match pos {
            Some(_) => {
                proof {
                    assert(final(self)@ =~~= old(self)@.on_join_spec(channel@));
                }
            },
            None => {
                self.channels.push(ChannelInfo::new(channel));
                proof {
                    assert(final(self)@.channels =~~= old(self)@.on_join_spec(
                        final(self).channels@[old(self).channels@.len() as int].name@,
                    ).channels);
                    assert(final(self)@ =~~= old(self)@.on_join_spec(
                        final(self)@.channels.last().name,
                    ));
                }
            },
        }
    }

    /// Advance the channel selection cyclically; no-op on an empty
    /// list. See `next_index_spec`.
    pub fn next_channel(&mut self)
        requires
            old(self)@.inv(),
        ensures
            final(self)@ == old(self)@.next_channel_spec(),
            final(self)@.inv(),
    {
        if !self.channels.is_empty() {
            if self.current_channel >= self.channels.len() - 1 {
                self.current_channel = 0;
            } else {
                self.current_channel = self.current_channel + 1;
            }
        }
        proof {
            assert(final(self)@ =~~= old(self)@.next_channel_spec());
        }
    }

    /// Part the selected channel (optimistic removal) and hand back
    /// the request to send; see `AppView::part_spec`.
    pub fn leave_current_channel(&mut self) -> (r: Option<OutboundRequest>)
        requires
            old(self)@.inv(),
        ensures
            final(self)@ == old(self)@.part_spec().0,
            r.deep_view() == old(self)@.part_spec().1,
            final(self)@.inv(),
    {
        if self.current_channel < self.channels.len() {
            let ch = self.channels.remove(self.current_channel);
            if self.current_channel >= self.channels.len() && self.current_channel > 0 {
                self.current_channel = self.current_channel - 1;
            }
            proof {
                assert(final(self)@.channels =~~= old(self)@.part_spec().0.channels);
                assert(final(self)@ =~~= old(self)@.part_spec().0);
            }
            Some(OutboundRequest::Part { channel: ch.name })
        } else {
            proof {
                assert(final(self)@ =~~= old(self)@.part_spec().0);
            }
            None
        }
    }

    /// Stop the client: the main loop exits and the caller cancels the
    /// shared signal.
    pub fn quit(&mut self)
        ensures
            final(self)@ == old(self)@.quit_spec(),
            old(self)@.inv() ==> final(self)@.inv(),
    {
        self.running = false;
        proof {
            assert(final(self)@ =~~= old(self)@.quit_spec());
        }
    }

    /// Record that an outbound call failed; the renderer may show it.
    /// Recoverable: nothing else changes.
    pub fn on_send_error(&mut self, reason: String)
        ensures
            final(self)@ == old(self)@.set_error_spec(reason@),
            old(self)@.inv() ==> final(self)@.inv(),
    {
        self.last_error = Some(reason);
        proof {
            assert(final(self)@ =~~= old(self)@.set_error_spec(reason@));
        }
    }
}

/// With unique names, the index found for a name is the only one.
pub proof fn lemma_channel_index_unique(chs: Seq<ChannelView>, name: Seq<char>, i: int)
    requires
        unique_channel_names(chs),
        0 <= i < chs.len(),
        chs[i].name == name,
    ensures
        channel_named(chs, name),
        channel_index_of(chs, name) == i,
{
    assert(channel_named(chs, name));
    let j = channel_index_of(chs, name);
    if i < j {
        assert(chs[i].name != chs[j].name);
    } else if j < i {
        assert(chs[j].name != chs[i].name);
    }
}

/// Confirmed joins are idempotent: a second join of the same name
/// changes nothing, and afterwards exactly one channel carries the
/// name — one is present, and no two indices hold it.
pub proof fn lemma_on_inbound_join_idempotent(chs: Seq<ChannelView>, name: Seq<char>)
    requires
        unique_channel_names(chs),
    ensures
        join_spec(join_spec(chs, name), name) == join_spec(chs, name),
        channel_named(join_spec(chs, name), name),
        unique_channel_names(join_spec(chs, name)),
        forall|i: int, j: int|
            0 <= i < join_spec(chs, name).len() && 0 <= j < join_spec(chs, name).len()
                && join_spec(chs, name)[i].name == name && join_spec(chs, name)[j].name == name
                ==> i == j,
{
    if channel_named(chs, name) {
    } else {
        let chs2 = chs.push(ChannelView { name, messages: Seq::empty() });
        assert(chs2[chs.len() as int].name == name);
        assert(channel_named(chs2, name));
        assert forall|i: int, j: int| 0 <= i < j < chs2.len() implies chs2[i].name
            != chs2[j].name by {
            if j < chs.len() {
            } else {
                assert(chs2[i] == chs[i]);
                assert(!(0 <= i < chs.len() && chs[i].name == name));
            }
        }
    }
}

/// Submitting with an empty composer is a no-op: the state — messages,
/// buffer, cursor, everything — is unchanged and nothing is sent.
pub proof fn lemma_submit_empty_is_noop(s: AppView)
    requires
        s.message_box.input.text.len() == 0,
    ensures
        s.submit_spec() == (s, None::<RequestView>),
{
}

/// A message for a channel that is not present is dropped whole: the
/// state is unchanged, and in particular no channel is created.
pub proof fn lemma_message_for_absent_channel_dropped(
    s: AppView,
    target: Seq<char>,
    msg: MessageView,
)
    requires
        !channel_named(s.channels, target),
    ensures
        s.deliver_msg_spec(target, msg) == s,
{
    assert(s.deliver_msg_spec(target, msg) =~= s);
}

/// Advancing the selection over an empty channel list changes nothing.
pub proof fn lemma_next_channel_empty_is_noop(s: AppView)
    requires
        s.channels.len() == 0,
    ensures
        s.next_channel_spec() == s,
{
    assert(s.next_channel_spec() =~= s);
}

/// The selection is cyclic: from a valid index, advancing once per
/// channel returns to the starting index.
pub proof fn lemma_next_channel_cycles(cur: int, len: int)
    requires
        0 <= cur < len,
    ensures
        next_index_iter(cur, len, len as nat) == cur,
{
    lemma_next_iter_shape(cur, len, len as nat);
}

/// Shape of `k` cyclic advances from a valid index, for `k` at most
/// the length: the index walks forward and wraps at most once.
proof fn lemma_next_iter_shape(cur: int, len: int, k: nat)
    requires
        0 <= cur < len,
        k <= len,
    ensures
        next_index_iter(cur, len, k) == if cur + k < len {
            cur + k
        } else {
            cur + k - len
        },
    decreases k,
{
    if k > 0 {
        lemma_next_iter_shape(cur, len, (k - 1) as nat);
    }
}

} // verus!
