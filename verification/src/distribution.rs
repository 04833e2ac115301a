//! The distribution loop of one listener.
//!
//! A listener subscribes to a stream by name. From then on it polls the
//! registry at a fixed interval and is handed the stream's chunk whenever the
//! chunk's fingerprint differs from the one it saw last. The loop ends when
//! the stream is gone or the listener has left.
//!
//! The loop itself waits and sends, which is the caller's business. What is
//! decided here is the step from a state and an event to the next state and
//! the action that the caller is to perform.

use crate::registry::ActiveStreams;
use crate::registry::StreamTable;
use crate::stream::Stream;
use vstd::prelude::*;

verus! {

/// Where a distribution loop stands.
#[derive(Debug, Clone, Copy, PartialEq, Eq, Structural)]
pub enum LoopState {
    /// The listener has asked for a stream that has not been looked up yet.
    AwaitingStream,
    /// The loop waits for the next tick of its timer.
    Polling,
    /// A chunk has been handed to the transport and is being delivered.
    Emitting,
    /// The loop has ended and will do nothing more.
    Terminated,
}

/// What happened outside the loop.
#[derive(Debug, Clone, Copy, PartialEq, Eq, Structural)]
pub enum LoopEvent {
    /// The listener subscribed.
    Subscribe,
    /// The timer ticked.
    Tick,
    /// The transport has delivered the chunk last handed to it.
    Delivered,
    /// The listener has left, the connection failed or the request was
    /// cancelled.
    Disconnected,
}

/// What the caller of the loop is to do next.
#[derive(Debug)]
pub enum LoopAction {
    /// Answer that there is no such stream; the loop has ended.
    NotFound,
    /// Nothing to send: wait for the next event.
    Wait,
    /// Send this chunk to the listener, then report `Delivered`.
    Emit(Vec<u8>),
    /// Close the connection; the loop has ended.
    Close,
}

/// An action as contracts see it.
pub enum LoopActionView {
    NotFound,
    Wait,
    Emit(Seq<u8>),
    Close,
}

impl View for LoopAction {
    type V = LoopActionView;

    open spec fn view(&self) -> LoopActionView {
        match *self {
            LoopAction::NotFound => LoopActionView::NotFound,
            LoopAction::Wait => LoopActionView::Wait,
            LoopAction::Emit(bytes) => LoopActionView::Emit(bytes@),
            LoopAction::Close => LoopActionView::Close,
        }
    }
}

/// A distribution loop as contracts see it.
pub struct SubscriptionView {
    /// The name of the stream listened to.
    pub stream_name: Seq<char>,
    /// The length of one fragment in seconds: the time between two polls.
    pub fragment_len: u8,
    /// Where the loop stands.
    pub state: LoopState,
    /// The fingerprint of the chunk emitted last; `None` until a chunk has
    /// been emitted.
    pub cursor: Option<u64>,
}

impl SubscriptionView {
    /// A loop that has not looked up its stream yet.
    pub open spec fn fresh(stream_name: Seq<char>, fragment_len: u8) -> SubscriptionView {
        SubscriptionView {
            stream_name,
            fragment_len,
            state: LoopState::AwaitingStream,
            cursor: None,
        }
    }

    /// The same loop in another state.
    pub open spec fn in_state(self, state: LoopState) -> SubscriptionView {
        SubscriptionView { state, ..self }
    }

    /// The same loop after it has emitted a chunk with this fingerprint.
    pub open spec fn emitting(self, fingerprint: u64) -> SubscriptionView {
        SubscriptionView { state: LoopState::Emitting, cursor: Some(fingerprint), ..self }
    }
}

/// The step of a subscription that looks up its stream: it starts polling if
/// the stream is registered, and ends with "not found" if it is not.
pub open spec fn on_subscribe(sub: SubscriptionView, table: StreamTable) -> (
    SubscriptionView,
    LoopActionView,
) {
    if table.contains_key(sub.stream_name) {
        (sub.in_state(LoopState::Polling), LoopActionView::Wait)
    } else {
        (sub.in_state(LoopState::Terminated), LoopActionView::NotFound)
    }
}

/// The step of a polling loop at a tick: it ends if the stream is gone, does
/// nothing if the chunk has the fingerprint seen last, and otherwise
/// remembers the new fingerprint and emits the chunk. A loop that has not
/// emitted yet has seen no fingerprint, so its first tick always emits.
pub open spec fn on_tick(sub: SubscriptionView, table: StreamTable) -> (
    SubscriptionView,
    LoopActionView,
) {
    if !table.contains_key(sub.stream_name) {
        (sub.in_state(LoopState::Terminated), LoopActionView::Close)
    } else if sub.cursor == Some(table[sub.stream_name].fingerprint()) {
        (sub, LoopActionView::Wait)
    } else {
        (
            sub.emitting(table[sub.stream_name].fingerprint()),
            LoopActionView::Emit(table[sub.stream_name].chunk),
        )
    }
}

/// The step of a distribution loop: the next state and the action to perform,
/// from the state, the event and the streams registered at that moment.
///
/// A loop that has ended stays ended. A disconnect ends any loop. Apart from
/// that, a loop awaiting its stream reacts to `Subscribe`, a polling loop to
/// `Tick` and an emitting loop to `Delivered`; an event that does not apply in
/// the state is passed over.
pub open spec fn step_spec(sub: SubscriptionView, event: LoopEvent, table: StreamTable) -> (
    SubscriptionView,
    LoopActionView,
) {
    if sub.state == LoopState::Terminated {
        (sub, LoopActionView::Close)
    } else if event == LoopEvent::Disconnected {
        (sub.in_state(LoopState::Terminated), LoopActionView::Close)
    } else if sub.state == LoopState::AwaitingStream && event == LoopEvent::Subscribe {
        on_subscribe(sub, table)
    } else if sub.state == LoopState::Polling && event == LoopEvent::Tick {
        on_tick(sub, table)
    } else if sub.state == LoopState::Emitting && event == LoopEvent::Delivered {
        (sub.in_state(LoopState::Polling), LoopActionView::Wait)
    } else {
        (sub, LoopActionView::Wait)
    }
}

/// The time between two polls, in milliseconds, for fragments of
/// `fragment_len` seconds.
pub open spec fn poll_interval_spec(fragment_len: u8) -> int {
    fragment_len * 1000
}

/// The time between two polls, in milliseconds, for fragments of
/// `fragment_len` seconds.
pub fn poll_interval_millis(fragment_len: u8) -> (millis: u64)
    ensures
        millis == poll_interval_spec(fragment_len),
{
    (fragment_len as u64) * 1000
}

/// The distribution loop of one listener: which stream it follows, where it
/// stands, and what it has seen.
#[derive(Debug)]
pub struct Subscription {
    stream_name: String,
    fragment_len: u8,
    state: LoopState,
    cursor: Option<u64>,
}

impl View for Subscription {
    type V = SubscriptionView;

    closed spec fn view(&self) -> SubscriptionView {
        SubscriptionView {
            stream_name: self.stream_name@,
            fragment_len: self.fragment_len,
            state: self.state,
            cursor: self.cursor,
        }
    }
}

impl Subscription {
    /// A loop for the stream called `stream_name` that has not looked up its
    /// stream yet.
    pub fn new(stream_name: String, fragment_len: u8) -> (sub: Self)
        ensures
            sub@ == SubscriptionView::fresh(stream_name@, fragment_len),
    {
        Subscription { stream_name, fragment_len, state: LoopState::AwaitingStream, cursor: None }
    }

    /// Takes one step: moves to the next state and returns the action that
    /// the caller is to perform. The registry is only read.
    pub fn step(&mut self, event: LoopEvent, stream_list: &ActiveStreams) -> (action: LoopAction)
        ensures
            (final(self)@, action@) == step_spec(old(self)@, event, stream_list@),
    {
        match (self.state, event) {
            (LoopState::Terminated, _) => LoopAction::Close,
            (_, LoopEvent::Disconnected) => {
                self.state = LoopState::Terminated;
                LoopAction::Close
            },
            (LoopState::AwaitingStream, LoopEvent::Subscribe) => {
                if stream_list.contains_stream(self.stream_name.as_str()) {
                    self.state = LoopState::Polling;
                    LoopAction::Wait
                } else {
                    self.state = LoopState::Terminated;
                    LoopAction::NotFound
                }
            },
            (LoopState::Polling, LoopEvent::Tick) => {
                match stream_list.get_stream(self.stream_name.as_str()) {
                    None => {
                        self.state = LoopState::Terminated;
                        LoopAction::Close
                    },
                    Some(current_stream) => self.compare_and_emit(current_stream),
                }
            },
            (LoopState::Emitting, LoopEvent::Delivered) => {
                self.state = LoopState::Polling;
                LoopAction::Wait
            },
            _ => LoopAction::Wait,
        }
    }

    /// Compares the chunk of the stream just read with the fingerprint seen
    /// last, and emits the chunk if it differs.
    fn compare_and_emit(&mut self, current_stream: Stream) -> (action: LoopAction)
        requires
            old(self)@.state == LoopState::Polling,
        ensures
            final(self)@ == (if old(self)@.cursor == Some(current_stream@.fingerprint()) {
                old(self)@
            } else {
                old(self)@.emitting(current_stream@.fingerprint())
            }),
            action@ == (if old(self)@.cursor == Some(current_stream@.fingerprint()) {
                LoopActionView::Wait
            } else {
                LoopActionView::Emit(current_stream@.chunk)
            }),
    {
        let (chunk, fingerprint) = current_stream.into_chunk();
        let unchanged = match self.cursor {
            Some(seen) => seen == fingerprint,
            None => false,
        };
        if unchanged {
            LoopAction::Wait
        } else {
            self.cursor = Some(fingerprint);
            self.state = LoopState::Emitting;
            LoopAction::Emit(chunk)
        }
    }

    /// Where the loop stands.
    pub fn state(&self) -> (state: LoopState)
        ensures
            state == self@.state,
    {
        self.state
    }

    /// Whether the loop has ended.
    pub fn is_terminated(&self) -> (ended: bool)
        ensures
            ended == (self@.state == LoopState::Terminated),
    {
        match self.state {
            LoopState::Terminated => true,
            _ => false,
        }
    }

    /// The fingerprint of the chunk emitted last, if any.
    pub fn cursor(&self) -> (cursor: Option<u64>)
        ensures
            cursor == self@.cursor,
    {
        self.cursor
    }

    /// The name of the stream listened to.
    pub fn stream_name(&self) -> (name: &String)
        ensures
            name@ == self@.stream_name,
    {
        &self.stream_name
    }

    /// The time between two polls of this loop, in milliseconds.
    pub fn interval_millis(&self) -> (millis: u64)
        ensures
            millis == poll_interval_spec(self@.fragment_len),
    {
        poll_interval_millis(self.fragment_len)
    }
}

/// Starts the distribution loop of a listener of the stream called
/// `stream_name`: looks the stream up and returns the loop with the first
/// action, which is `NotFound` if no such stream is registered and `Wait`
/// if the loop now polls.
pub fn perform_stream(stream_list: &ActiveStreams, stream_name: String, fragment_len: u8) -> (started:
    (Subscription, LoopAction))
    ensures
        (started.0@, started.1@) == on_subscribe(
            SubscriptionView::fresh(stream_name@, fragment_len),
            stream_list@,
        ),
{
    let mut sub = Subscription::new(stream_name, fragment_len);
    let action = sub.step(LoopEvent::Subscribe, stream_list);
    (sub, action)
}

} // verus!
