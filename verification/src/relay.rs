//! The relay session: a state machine that is told what happened and answers
//! with what to do next.
//!
//! The relay makes no call and waits for nothing itself. Its driver performs
//! each action and reports the event that came of it:
//!
//! - `CallOnce`: ask the backend for a single answer; report `Reply` or
//!   `CallFailed`.
//! - `CallStream`: ask the backend for a chunk sequence; report
//!   `CallStarted` or `CallFailed`.
//! - `Pull`: await the next chunk; report `ChunkAvailable`,
//!   `BackendExhausted` or `BackendError`.
//! - `Emit`: offer the item to the client transport, waiting for room where
//!   the queue to it is full; report `Delivered`, or `ConsumerGone` where the
//!   transport takes no more.
//! - `Respond`: answer the client with the single payload. The session is
//!   over.
//! - `Close`: close the stream to the client and drop the backend call. The
//!   session is over.
//! - `Done`: nothing. The session was over already.

use crate::chunk::{accumulated, forwarded, lemma_next_fragment, ChatChunk};
use crate::outcome::{
    closing_item, reply_text, response_text, text_of, FailureKind, RelayOutcome, RelayOutcomeView,
};
use crate::request::{
    backend_request_for, BackendRequest, BackendRequestView, ChatRequest, ChatRequestView,
};
use crate::wire::{
    event_items, event_payload, ChatResponse, OutboundEvent, StreamItem, StreamItemView,
};
use vstd::prelude::*;

verus! {

/// The calls that a backend offers.
#[derive(Clone, Copy, Debug, PartialEq, Eq, Structural)]
pub enum BackendApi {
    /// A call for a single answer and a call for a chunk sequence.
    Full,
    /// Only the call for a chunk sequence.
    StreamOnly,
}

/// How a session serves its request.
#[derive(Clone, Copy, Debug, PartialEq, Eq, Structural)]
pub enum RelayMode {
    /// One backend call for a single answer, handed on as the single payload.
    Once,
    /// A chunk sequence, each fragment with text handed on as an event.
    Stream,
    /// A chunk sequence, drained and joined into the single payload.
    Accumulate,
}

/// The mode for a request: streamed if the request is, and otherwise by the
/// single-answer call where the backend has one.
pub open spec fn mode_for(streamed: bool, api: BackendApi) -> RelayMode {
    if streamed {
        RelayMode::Stream
    } else {
        match api {
            BackendApi::Full => RelayMode::Once,
            BackendApi::StreamOnly => RelayMode::Accumulate,
        }
    }
}

/// Where a session stands.
#[derive(Clone, Copy, Debug, PartialEq, Eq, Structural)]
pub enum RelayState {
    /// Nothing has been asked of the backend yet.
    Idle,
    /// The backend call has been made and has not answered.
    BackendCallPending,
    /// The call for a chunk sequence failed; the failure item is on its way
    /// to the client.
    BackendCallFailed,
    /// The chunk sequence is being read.
    Streaming,
    /// The session is over.
    Closed,
}

/// An event as plain values.
pub enum RelayEventView {
    Start,
    CallStarted,
    CallFailed,
    Reply(Option<Seq<char>>),
    ChunkAvailable(Seq<char>),
    BackendExhausted,
    BackendError,
    Delivered,
    ConsumerGone,
}

/// What the driver reports to the relay.
#[derive(Debug, PartialEq, Eq)]
pub enum RelayEvent {
    /// The request is handed over.
    Start,
    /// The backend took the call for a chunk sequence.
    CallStarted,
    /// The backend call failed before any output.
    CallFailed,
    /// The single answer, with the content of its message if it has one.
    Reply(Option<String>),
    /// The next chunk of the sequence.
    ChunkAvailable(ChatChunk),
    /// The chunk sequence has ended.
    BackendExhausted,
    /// The chunk sequence has ended in an error.
    BackendError,
    /// The client transport took the item.
    Delivered,
    /// The client transport takes no more items.
    ConsumerGone,
}

impl View for RelayEvent {
    type V = RelayEventView;

    open spec fn view(&self) -> RelayEventView {
        match self {
            RelayEvent::Start => RelayEventView::Start,
            RelayEvent::CallStarted => RelayEventView::CallStarted,
            RelayEvent::CallFailed => RelayEventView::CallFailed,
            RelayEvent::Reply(message) => RelayEventView::Reply(text_of(*message)),
            RelayEvent::ChunkAvailable(chunk) => RelayEventView::ChunkAvailable(chunk@),
            RelayEvent::BackendExhausted => RelayEventView::BackendExhausted,
            RelayEvent::BackendError => RelayEventView::BackendError,
            RelayEvent::Delivered => RelayEventView::Delivered,
            RelayEvent::ConsumerGone => RelayEventView::ConsumerGone,
        }
    }
}

/// An action as plain values.
pub enum RelayActionView {
    CallOnce(BackendRequestView),
    CallStream(BackendRequestView),
    Pull,
    Emit(StreamItemView),
    Respond(Seq<char>),
    Close,
    Done,
}

/// What the relay asks of its driver.
#[derive(Debug, PartialEq, Eq)]
pub enum RelayAction {
    /// Ask the backend for a single answer.
    CallOnce(BackendRequest),
    /// Ask the backend for a chunk sequence.
    CallStream(BackendRequest),
    /// Await the next chunk of the sequence.
    Pull,
    /// Offer the item to the client transport.
    Emit(StreamItem),
    /// Answer the client with this single payload.
    Respond(ChatResponse),
    /// Close the stream to the client and drop the backend call.
    Close,
    /// Nothing: the session was over before the event came.
    Done,
}

impl View for RelayAction {
    type V = RelayActionView;

    open spec fn view(&self) -> RelayActionView {
        match self {
            RelayAction::CallOnce(call) => RelayActionView::CallOnce(call@),
            RelayAction::CallStream(call) => RelayActionView::CallStream(call@),
            RelayAction::Pull => RelayActionView::Pull,
            RelayAction::Emit(item) => RelayActionView::Emit(item@),
            RelayAction::Respond(response) => RelayActionView::Respond(response@),
            RelayAction::Close => RelayActionView::Close,
            RelayAction::Done => RelayActionView::Done,
        }
    }
}

/// A relay session as plain values.
pub struct RelayView {
    pub request: ChatRequestView,
    pub mode: RelayMode,
    pub state: RelayState,
    /// The text joined so far; only an accumulating session holds any.
    pub buffer: Seq<char>,
}

impl RelayView {
    /// The session for a request before anything has happened.
    pub open spec fn fresh(request: ChatRequestView, api: BackendApi) -> RelayView {
        RelayView {
            request,
            mode: mode_for(request.stream_mode(), api),
            state: RelayState::Idle,
            buffer: Seq::empty(),
        }
    }

    /// What holds of every session that began fresh: only a session that
    /// reads a chunk sequence is ever `Streaming`, only a streamed one is
    /// ever `BackendCallFailed`, and text is held only while an accumulating
    /// session reads its sequence.
    pub open spec fn wf(self) -> bool {
        &&& self.state == RelayState::Streaming ==> self.mode != RelayMode::Once
        &&& self.state == RelayState::BackendCallFailed ==> self.mode == RelayMode::Stream
        &&& self.buffer.len() > 0 ==> self.state == RelayState::Streaming && self.mode
            == RelayMode::Accumulate
    }

    /// The session after it is over: nothing is held any more.
    pub open spec fn closed(self) -> RelayView {
        RelayView { state: RelayState::Closed, buffer: Seq::empty(), ..self }
    }
}

/// The session ends here with nothing more to write.
pub open spec fn shut(relay: RelayView) -> (RelayView, RelayActionView) {
    (relay.closed(), RelayActionView::Close)
}

/// The session ends here with `outcome`. A non-stream session answers with
/// the response for the outcome. A streamed one has nothing left to write,
/// except after a call that never started: then it offers the one failure
/// item and closes once that is dealt with.
pub open spec fn settle(relay: RelayView, outcome: RelayOutcomeView) -> (
    RelayView,
    RelayActionView,
) {
    match relay.mode {
        RelayMode::Stream => match closing_item(outcome) {
            Some(item) => (
                RelayView {
                    state: RelayState::BackendCallFailed,
                    buffer: Seq::empty(),
                    ..relay
                },
                RelayActionView::Emit(item),
            ),
            None => shut(relay),
        },
        _ => (relay.closed(), RelayActionView::Respond(response_text(outcome))),
    }
}

/// What an `Idle` session does with an event: `Start` makes the one backend
/// call of the session.
pub open spec fn from_idle(relay: RelayView, event: RelayEventView) -> (
    RelayView,
    RelayActionView,
) {
    match event {
        RelayEventView::Start => {
            let call = backend_request_for(relay.request);
            (
                RelayView { state: RelayState::BackendCallPending, ..relay },
                match relay.mode {
                    RelayMode::Once => RelayActionView::CallOnce(call),
                    _ => RelayActionView::CallStream(call),
                },
            )
        },
        RelayEventView::ConsumerGone => shut(relay),
        _ => settle(relay, RelayOutcomeView::Failed(FailureKind::CallFailed)),
    }
}

/// What a session does with an event while its backend call is pending: the
/// answer that its mode awaits moves it on, anything else is a call that
/// failed.
pub open spec fn from_pending(relay: RelayView, event: RelayEventView) -> (
    RelayView,
    RelayActionView,
) {
    match (relay.mode, event) {
        (_, RelayEventView::ConsumerGone) => shut(relay),
        (RelayMode::Once, RelayEventView::Reply(message)) => settle(
            relay,
            RelayOutcomeView::Completed(reply_text(message)),
        ),
        (RelayMode::Stream, RelayEventView::CallStarted) | (
            RelayMode::Accumulate,
            RelayEventView::CallStarted,
        ) => (RelayView { state: RelayState::Streaming, ..relay }, RelayActionView::Pull),
        _ => settle(relay, RelayOutcomeView::Failed(FailureKind::CallFailed)),
    }
}

/// What a streamed session does with an event while it reads its chunk
/// sequence: a fragment with text is offered to the client, one without is
/// passed over, and the sequence's end, its error or the client's leaving
/// closes the stream.
pub open spec fn from_streaming(relay: RelayView, event: RelayEventView) -> (
    RelayView,
    RelayActionView,
) {
    match event {
        RelayEventView::ChunkAvailable(text) => if text.len() > 0 {
            (relay, RelayActionView::Emit(StreamItemView::Event(event_payload(text))))
        } else {
            (relay, RelayActionView::Pull)
        },
        RelayEventView::Delivered => (relay, RelayActionView::Pull),
        RelayEventView::BackendExhausted | RelayEventView::ConsumerGone => shut(relay),
        _ => settle(relay, RelayOutcomeView::Failed(FailureKind::BrokenStream)),
    }
}

/// What an accumulating session does with an event while it reads its chunk
/// sequence: every fragment is joined to the text so far, the sequence's end
/// completes the text, and an error drops it.
pub open spec fn from_accumulating(relay: RelayView, event: RelayEventView) -> (
    RelayView,
    RelayActionView,
) {
    match event {
        RelayEventView::ChunkAvailable(text) => (
            RelayView { buffer: relay.buffer + text, ..relay },
            RelayActionView::Pull,
        ),
        RelayEventView::BackendExhausted => settle(
            relay,
            RelayOutcomeView::Completed(relay.buffer),
        ),
        RelayEventView::ConsumerGone => shut(relay),
        _ => settle(relay, RelayOutcomeView::Failed(FailureKind::BrokenStream)),
    }
}

/// The session after `event`, and what it asks of its driver.
///
/// An event that the state does not await ends the session as a backend
/// failure at that point does, and `ConsumerGone` ends it at once wherever it
/// stands. A `Closed` session stays as it is and asks for nothing.
pub open spec fn transition(relay: RelayView, event: RelayEventView) -> (
    RelayView,
    RelayActionView,
) {
    match relay.state {
        RelayState::Idle => from_idle(relay, event),
        RelayState::BackendCallPending => from_pending(relay, event),
        RelayState::BackendCallFailed => shut(relay),
        RelayState::Streaming => match relay.mode {
            RelayMode::Stream => from_streaming(relay, event),
            _ => from_accumulating(relay, event),
        },
        RelayState::Closed => (relay, RelayActionView::Done),
    }
}

/// The session after a run of events, and the actions that it asked for,
/// one for each event and in their order.
pub open spec fn run(relay: RelayView, events: Seq<RelayEventView>) -> (
    RelayView,
    Seq<RelayActionView>,
)
    decreases events.len(),
{
    if events.len() == 0 {
        (relay, Seq::empty())
    } else {
        let (before, actions) = run(relay, events.drop_last());
        let (after, action) = transition(before, events.last());
        (after, actions.push(action))
    }
}

/// Whether an action makes a backend call.
pub open spec fn is_call(action: RelayActionView) -> bool {
    action is CallOnce || action is CallStream
}

/// Whether an action hands nothing to the client and asks nothing of the
/// backend: the stream is closed, or there is nothing to do.
pub open spec fn is_quiet(action: RelayActionView) -> bool {
    action is Close || action is Done
}

/// The number of backend calls among some actions.
pub open spec fn calls_in(actions: Seq<RelayActionView>) -> nat
    decreases actions.len(),
{
    if actions.len() == 0 {
        0
    } else {
        calls_in(actions.drop_last()) + if is_call(actions.last()) {
            1nat
        } else {
            0nat
        }
    }
}

/// No event changes the request that a session serves, nor its mode, and a
/// well-formed session stays well formed.
pub proof fn lemma_transition_keeps_wf(relay: RelayView, event: RelayEventView)
    ensures
        transition(relay, event).0.request == relay.request,
        transition(relay, event).0.mode == relay.mode,
        relay.wf() ==> transition(relay, event).0.wf(),
{
}

/// A run of events over two stretches is the run over the first, followed
/// from where that ended by the run over the second.
proof fn lemma_run_in_two(
    relay: RelayView,
    first: Seq<RelayEventView>,
    second: Seq<RelayEventView>,
)
    ensures
        run(relay, first + second).0 == run(run(relay, first).0, second).0,
        run(relay, first + second).1 == run(relay, first).1 + run(run(relay, first).0, second).1,
        run(relay, first).1.len() == first.len(),
    decreases second.len(),
{
    if second.len() == 0 {
        lemma_run_length(relay, first);
    } else {
        lemma_run_in_two(relay, first, second.drop_last());
        assert((first + second).drop_last() =~= first + second.drop_last());
    }
}

/// A run asks for one action for each event.
proof fn lemma_run_length(relay: RelayView, events: Seq<RelayEventView>)
    ensures
        run(relay, events).1.len() == events.len(),
    decreases events.len(),
{
    if events.len() > 0 {
        lemma_run_length(relay, events.drop_last());
    }
}

/// `Closed` is terminal: whatever is reported to a session that is over, it
/// stays as it is and asks for nothing.
pub proof fn lemma_nothing_after_close(relay: RelayView, events: Seq<RelayEventView>)
    requires
        relay.state == RelayState::Closed,
    ensures
        run(relay, events).0 == relay,
        run(relay, events).1.len() == events.len(),
        forall|i: int| 0 <= i < events.len() ==> run(relay, events).1[i] == RelayActionView::Done,
    decreases events.len(),
{
    if events.len() > 0 {
        lemma_nothing_after_close(relay, events.drop_last());
    }
}

/// One backend call for each request: a session that starts `Idle` makes at
/// most one backend call over any run of events, one that has left `Idle`
/// makes none, and a session whose first event is `Start` makes exactly one.
pub proof fn lemma_one_backend_call(relay: RelayView, events: Seq<RelayEventView>)
    ensures
        calls_in(run(relay, events).1) <= 1,
        relay.state != RelayState::Idle ==> calls_in(run(relay, events).1) == 0,
        run(relay, events).0.state == RelayState::Idle ==> calls_in(run(relay, events).1) == 0
            && relay.state == RelayState::Idle,
        relay.state == RelayState::Idle && events.len() > 0 && events[0] == RelayEventView::Start
            ==> calls_in(run(relay, events).1) == 1,
    decreases events.len(),
{
    if events.len() > 0 {
        lemma_one_backend_call(relay, events.drop_last());
        let (before, actions) = run(relay, events.drop_last());
        let action = transition(before, events.last()).1;
        assert(actions.push(action).drop_last() =~= actions);
    }
}

/// Once the client is gone the session is over: from `ConsumerGone` on,
/// whatever else is reported, the session asks for no backend call, no
/// further chunk, and hands nothing more to the client.
pub proof fn lemma_consumer_gone_ends_session(
    relay: RelayView,
    before: Seq<RelayEventView>,
    after: Seq<RelayEventView>,
)
    ensures
        run(relay, before.push(RelayEventView::ConsumerGone) + after).0.state
            == RelayState::Closed,
        run(relay, before.push(RelayEventView::ConsumerGone) + after).1.len() == before.len() + 1
            + after.len(),
        forall|i: int|
            before.len() <= i < before.len() + 1 + after.len() ==> is_quiet(
                #[trigger] run(relay, before.push(RelayEventView::ConsumerGone) + after).1[i],
            ),
{
    let until = before.push(RelayEventView::ConsumerGone);
    let gone = run(relay, until).0;
    lemma_run_in_two(relay, until, after);
    lemma_nothing_after_close(gone, after);
}

/// The texts of the chunks among some events, in the order of the events.
pub open spec fn chunk_texts(events: Seq<RelayEventView>) -> Seq<Seq<char>>
    decreases events.len(),
{
    if events.len() == 0 {
        Seq::empty()
    } else {
        match events.last() {
            RelayEventView::ChunkAvailable(text) => chunk_texts(events.drop_last()).push(text),
            _ => chunk_texts(events.drop_last()),
        }
    }
}

/// The items that some actions offer to the client, in the order of the
/// actions.
pub open spec fn offered(actions: Seq<RelayActionView>) -> Seq<StreamItemView>
    decreases actions.len(),
{
    if actions.len() == 0 {
        Seq::empty()
    } else {
        match actions.last() {
            RelayActionView::Emit(item) => offered(actions.drop_last()).push(item),
            _ => offered(actions.drop_last()),
        }
    }
}

/// Order preservation, whoever drives the session: while a streamed session
/// is told of chunks and of items taken, and of nothing else, it stays as it
/// is, and what it offers to the client is one event for each chunk with
/// text, in the order in which the chunks were reported. Nothing is offered
/// twice, nothing with text is passed over, and nothing is offered for a
/// chunk without text.
pub proof fn lemma_stream_offers_in_order(relay: RelayView, events: Seq<RelayEventView>)
    requires
        relay.mode == RelayMode::Stream,
        relay.state == RelayState::Streaming,
        forall|i: int|
            0 <= i < events.len() ==> events[i] is ChunkAvailable || events[i] is Delivered,
    ensures
        run(relay, events).0 == relay,
        offered(run(relay, events).1) == event_items(forwarded(chunk_texts(events))),
    decreases events.len(),
{
    if events.len() > 0 {
        let front = events.drop_last();
        lemma_stream_offers_in_order(relay, front);
        let actions = run(relay, front).1;
        let action = transition(relay, events.last()).1;
        assert(actions.push(action).drop_last() =~= actions);
        match events.last() {
            RelayEventView::ChunkAvailable(text) => {
                lemma_next_fragment(chunk_texts(front), text);
            },
            _ => {},
        }
    }
}

/// Accumulation, whoever drives the session: while an accumulating session is
/// told of chunks and of nothing else, it asks for the next chunk each time,
/// and the text it holds grows by the texts of the chunks, joined in the
/// order in which they were reported.
pub proof fn lemma_accumulates_in_order(relay: RelayView, events: Seq<RelayEventView>)
    requires
        relay.mode == RelayMode::Accumulate,
        relay.state == RelayState::Streaming,
        forall|i: int| 0 <= i < events.len() ==> events[i] is ChunkAvailable,
    ensures
        run(relay, events).0 == (RelayView {
            buffer: relay.buffer + accumulated(chunk_texts(events)),
            ..relay
        }),
        run(relay, events).1.len() == events.len(),
        forall|i: int| 0 <= i < events.len() ==> run(relay, events).1[i] == RelayActionView::Pull,
    decreases events.len(),
{
    if events.len() > 0 {
        let front = events.drop_last();
        lemma_accumulates_in_order(relay, front);
        match events.last() {
            RelayEventView::ChunkAvailable(text) => {
                let joined = accumulated(chunk_texts(front));
                lemma_next_fragment(chunk_texts(front), text);
                assert(relay.buffer + joined + text =~= relay.buffer + (joined + text));
            },
            _ => {},
        }
    }
}

/// The relay never reads ahead of the client: a streamed session asks for
/// the next chunk only when the call has started, when the client transport
/// has taken the item offered before, or when the chunk just read had no
/// text and so nothing was offered.
pub proof fn lemma_pull_awaits_delivery(relay: RelayView, event: RelayEventView)
    requires
        relay.mode == RelayMode::Stream,
        transition(relay, event).1 is Pull,
    ensures
        transition(relay, event).0.state == RelayState::Streaming,
        relay.state == RelayState::BackendCallPending ==> event is CallStarted,
        relay.state != RelayState::BackendCallPending ==> relay.state == RelayState::Streaming && (
        event is Delivered || (event matches RelayEventView::ChunkAvailable(text) && text.len()
            == 0)),
{
}

/// One relay session.
#[derive(Debug)]
pub struct Relay {
    request: ChatRequest,
    mode: RelayMode,
    state: RelayState,
    buffer: String,
}

impl View for Relay {
    type V = RelayView;

    closed spec fn view(&self) -> RelayView {
        RelayView {
            request: self.request@,
            mode: self.mode,
            state: self.state,
            buffer: self.buffer@,
        }
    }
}

impl Relay {
    /// The session for `request` against a backend that offers `api`.
    pub fn new(request: ChatRequest, api: BackendApi) -> (relay: Relay)
        ensures
            relay@ == RelayView::fresh(request@, api),
            relay@.wf(),
    {
        let mode = if request.stream_mode() {
            RelayMode::Stream
        } else {
            match api {
                BackendApi::Full => RelayMode::Once,
                BackendApi::StreamOnly => RelayMode::Accumulate,
            }
        };
        Relay { request, mode, state: RelayState::Idle, buffer: String::new() }
    }

    /// How the session serves its request.
    pub fn mode(&self) -> (mode: RelayMode)
        ensures
            mode == self@.mode,
    {
        self.mode
    }

    /// Where the session stands.
    pub fn state(&self) -> (state: RelayState)
        ensures
            state == self@.state,
    {
        self.state
    }

    /// Whether the session is over.
    pub fn is_closed(&self) -> (over: bool)
        ensures
            over == (self@.state == RelayState::Closed),
    {
        self.state == RelayState::Closed
    }

    /// The request that the session serves.
    pub fn request(&self) -> (request: &ChatRequest)
        ensures
            request@ == self@.request,
    {
        &self.request
    }

    fn close(&mut self)
        ensures
            final(self)@ == old(self)@.closed(),
    {
        self.state = RelayState::Closed;
        self.buffer = String::new();
    }

    fn shut(&mut self) -> (action: RelayAction)
        ensures
            (final(self)@, action@) == shut(old(self)@),
    {
        self.close();
        RelayAction::Close
    }

    fn settle(&mut self, outcome: RelayOutcome) -> (action: RelayAction)
        ensures
            (final(self)@, action@) == settle(old(self)@, outcome@),
    {
        self.close();
        match self.mode {
            RelayMode::Stream => match outcome.stream_item() {
                Some(item) => {
                    self.state = RelayState::BackendCallFailed;
                    RelayAction::Emit(item)
                },
                None => RelayAction::Close,
            },
            _ => RelayAction::Respond(outcome.into_response()),
        }
    }

    /// Takes the text joined so far out of the session.
    fn take_buffer(&mut self) -> (text: String)
        ensures
            text@ == old(self)@.buffer,
            final(self)@ == (RelayView { buffer: Seq::empty(), ..old(self)@ }),
    {
        let mut text = String::new();
        std::mem::swap(&mut self.buffer, &mut text);
        text
    }

    /// Tells the session what happened and returns what to do next.
    pub fn step(&mut self, event: RelayEvent) -> (action: RelayAction)
        ensures
            (final(self)@, action@) == transition(old(self)@, event@),
            old(self)@.wf() ==> final(self)@.wf(),
    {
        match self.state {
            RelayState::Idle => match event {
                RelayEvent::Start => {
                    self.state = RelayState::BackendCallPending;
                    let call = self.request.backend_request();
                    match self.mode {
                        RelayMode::Once => RelayAction::CallOnce(call),
                        _ => RelayAction::CallStream(call),
                    }
                },
                RelayEvent::ConsumerGone => self.shut(),
                _ => self.settle(RelayOutcome::Failed(FailureKind::CallFailed)),
            },
            RelayState::BackendCallPending => match (self.mode, event) {
                (_, RelayEvent::ConsumerGone) => self.shut(),
                (RelayMode::Once, RelayEvent::Reply(message)) => self.settle(
                    RelayOutcome::from_reply(message),
                ),
                (RelayMode::Stream, RelayEvent::CallStarted) | (
                    RelayMode::Accumulate,
                    RelayEvent::CallStarted,
                ) => {
                    self.state = RelayState::Streaming;
                    RelayAction::Pull
                },
                _ => self.settle(RelayOutcome::Failed(FailureKind::CallFailed)),
            },
            RelayState::BackendCallFailed => self.shut(),
            RelayState::Streaming => match self.mode {
                RelayMode::Stream => match event {
                    RelayEvent::ChunkAvailable(chunk) => if chunk.is_empty() {
                        RelayAction::Pull
                    } else {
                        RelayAction::Emit(
                            StreamItem::Event(OutboundEvent::for_text(chunk.text.as_str())),
                        )
                    },
                    RelayEvent::Delivered => RelayAction::Pull,
                    RelayEvent::BackendExhausted | RelayEvent::ConsumerGone => self.shut(),
                    _ => self.settle(RelayOutcome::Failed(FailureKind::BrokenStream)),
                },
                _ => match event {
                    RelayEvent::ChunkAvailable(chunk) => {
                        self.buffer.append(chunk.text.as_str());
                        RelayAction::Pull
                    },
                    RelayEvent::BackendExhausted => {
                        let text = self.take_buffer();
                        self.settle(RelayOutcome::Completed(text))
                    },
                    RelayEvent::ConsumerGone => self.shut(),
                    _ => self.settle(RelayOutcome::Failed(FailureKind::BrokenStream)),
                },
            },
            RelayState::Closed => RelayAction::Done,
        }
    }
}

} // verus!
