//! Whole sessions: a relay driven to its end against a recorded backend and a
//! client that takes a given number of items before it leaves.

use crate::chunk::{
    accumulated, forwarded, has_text, lemma_accumulation_equivalence, lemma_next_fragment,
    lemma_order_preserved, texts_of, ChatChunk,
};
use crate::outcome::{reply_text, text_of};
use crate::relay::{
    mode_for, BackendApi, Relay, RelayAction, RelayActionView, RelayEvent, RelayMode, RelayState,
    RelayView,
};
use crate::request::{ChatRequest, ChatRequestView};
use crate::wire::{
    event_items, event_payload, ChatResponse, StreamItem, StreamItemView, CHAT_ERROR,
    STREAM_START_ERROR,
};
use vstd::prelude::*;

verus! {

/// A recorded backend as plain values.
pub struct BackendScriptView {
    pub reachable: bool,
    pub reply: Option<Seq<char>>,
    pub texts: Seq<Seq<char>>,
    pub broken: bool,
}

/// A recorded backend: what its calls give when they are made.
#[derive(Debug, PartialEq, Eq)]
pub struct BackendScript {
    /// Whether a call can be started. Where it cannot, every call fails
    /// before any output.
    pub reachable: bool,
    /// The content of the message of the single answer, if it has one.
    pub reply: Option<String>,
    /// The chunks of the chunk sequence, in order.
    pub chunks: Vec<ChatChunk>,
    /// Whether the chunk sequence ends in an error after its chunks, and not
    /// by being exhausted.
    pub broken: bool,
}

impl View for BackendScript {
    type V = BackendScriptView;

    open spec fn view(&self) -> BackendScriptView {
        BackendScriptView {
            reachable: self.reachable,
            reply: text_of(self.reply),
            texts: texts_of(self.chunks@),
            broken: self.broken,
        }
    }
}

/// A session report as plain values.
pub struct SessionReportView {
    pub backend_calls: nat,
    pub pulls: nat,
    pub items: Seq<StreamItemView>,
    pub response: Option<Seq<char>>,
    pub closed: bool,
}

/// What a session did and what the client was left with.
#[derive(Debug, PartialEq, Eq)]
pub struct SessionReport {
    /// The number of backend calls made.
    pub backend_calls: usize,
    /// The number of times the next chunk was awaited.
    pub pulls: usize,
    /// The items that the client transport took, in order.
    pub items: Vec<StreamItem>,
    /// The single payload that the client was answered with, if it was.
    pub response: Option<ChatResponse>,
    /// Whether the session was over at the end.
    pub closed: bool,
}

/// The items of a run of stream items as plain values.
pub open spec fn items_of(items: Seq<StreamItem>) -> Seq<StreamItemView> {
    items.map_values(|item: StreamItem| item@)
}

impl View for SessionReport {
    type V = SessionReportView;

    open spec fn view(&self) -> SessionReportView {
        SessionReportView {
            backend_calls: self.backend_calls as nat,
            pulls: self.pulls as nat,
            items: items_of(self.items@),
            response: match self.response {
                Some(response) => Some(response@),
                None => None,
            },
            closed: self.closed,
        }
    }
}

/// The fragments that reach a client which takes `accepts` items and then
/// leaves: the first `accepts` of the forwarded fragments, or all of them
/// where there are no more than that.
pub open spec fn delivered(texts: Seq<Seq<char>>, accepts: nat) -> Seq<Seq<char>> {
    let sent = forwarded(texts);
    if sent.len() <= accepts {
        sent
    } else {
        sent.take(accepts as int)
    }
}

/// The number of times the next chunk is awaited when a chunk sequence is
/// streamed to a client which takes `accepts` items and then leaves: once for
/// each chunk up to the first that the client refuses, and once more to find
/// the end where it refuses none.
pub open spec fn pulls_for(texts: Seq<Seq<char>>, accepts: nat) -> nat
    decreases texts.len(),
{
    if texts.len() == 0 {
        1
    } else if texts[0].len() == 0 {
        1 + pulls_for(texts.drop_first(), accepts)
    } else if accepts == 0 {
        1
    } else {
        1 + pulls_for(texts.drop_first(), (accepts - 1) as nat)
    }
}

/// What a session comes to, for a request, the calls that the backend offers,
/// what the backend gives, and the number of items that the client takes
/// before it leaves.
pub open spec fn expected_report(
    request: ChatRequestView,
    api: BackendApi,
    backend: BackendScriptView,
    accepts: nat,
) -> SessionReportView {
    match mode_for(request.stream_mode(), api) {
        RelayMode::Once => SessionReportView {
            backend_calls: 1,
            pulls: 0,
            items: Seq::empty(),
            response: Some(
                if backend.reachable {
                    reply_text(backend.reply)
                } else {
                    CHAT_ERROR@
                },
            ),
            closed: true,
        },
        RelayMode::Accumulate => SessionReportView {
            backend_calls: 1,
            pulls: if backend.reachable {
                backend.texts.len() + 1
            } else {
                0
            },
            items: Seq::empty(),
            response: Some(
                if backend.reachable && !backend.broken {
                    accumulated(backend.texts)
                } else {
                    CHAT_ERROR@
                },
            ),
            closed: true,
        },
        RelayMode::Stream => SessionReportView {
            backend_calls: 1,
            pulls: if backend.reachable {
                pulls_for(backend.texts, accepts)
            } else {
                0
            },
            items: if backend.reachable {
                event_items(delivered(backend.texts, accepts))
            } else if accepts > 0 {
                seq![StreamItemView::Failure(STREAM_START_ERROR@)]
            } else {
                Seq::empty()
            },
            response: None,
            closed: true,
        },
    }
}

/// The work that a driver still has before it, as a number that every step
/// makes smaller.
spec fn work_left(action: RelayActionView, chunks: nat, read: nat) -> nat {
    match action {
        RelayActionView::CallOnce(_) | RelayActionView::CallStream(_) => 2 * chunks + 5,
        RelayActionView::Pull => (2 * (chunks - read) + 2) as nat,
        RelayActionView::Emit(StreamItemView::Event(_)) => (2 * (chunks - read) + 3) as nat,
        RelayActionView::Emit(StreamItemView::Failure(_)) => 1,
        _ => 0,
    }
}

/// The report of a driver that has taken `items`, made `calls` backend calls
/// and awaited `pulls` chunks, and ends answered with `response`.
spec fn report_of(
    calls: nat,
    pulls: nat,
    items: Seq<StreamItemView>,
    response: Option<Seq<char>>,
) -> SessionReportView {
    SessionReportView { backend_calls: calls, pulls, items, response, closed: true }
}

/// What holds while a chunk sequence is read, before chunk number `read` is
/// awaited: an accumulating session holds the text of the chunks so far, and
/// a streamed one has had the client take every fragment with text so far.
spec fn reading(
    relay: RelayView,
    texts: Seq<Seq<char>>,
    accepts: nat,
    read: nat,
    items: Seq<StreamItemView>,
) -> bool {
    if relay.mode == RelayMode::Stream {
        &&& relay.buffer == Seq::<char>::empty()
        &&& items == event_items(forwarded(texts.take(read as int)))
        &&& items.len() <= accepts
        &&& read + pulls_for(texts.skip(read as int), (accepts - items.len()) as nat) == pulls_for(
            texts,
            accepts,
        )
    } else {
        &&& relay.buffer == accumulated(texts.take(read as int))
        &&& items == Seq::<StreamItemView>::empty()
    }
}

/// What holds of a driver each time the relay has answered it with `action`.
spec fn on_track(
    relay: RelayView,
    action: RelayActionView,
    request: ChatRequestView,
    api: BackendApi,
    backend: BackendScriptView,
    accepts: nat,
    calls: nat,
    pulls: nat,
    read: nat,
    items: Seq<StreamItemView>,
) -> bool {
    let texts = backend.texts;
    &&& relay.request == request
    &&& relay.mode == mode_for(request.stream_mode(), api)
    &&& read <= texts.len()
    &&& match action {
        RelayActionView::CallOnce(_) | RelayActionView::CallStream(_) => {
            &&& relay.state == RelayState::BackendCallPending
            &&& action is CallOnce <==> relay.mode == RelayMode::Once
            &&& relay.buffer == Seq::<char>::empty()
            &&& calls == 0 && pulls == 0 && read == 0
            &&& items == Seq::<StreamItemView>::empty()
        },
        RelayActionView::Pull => {
            &&& relay.state == RelayState::Streaming
            &&& relay.mode != RelayMode::Once
            &&& backend.reachable
            &&& calls == 1 && pulls == read
            &&& reading(relay, texts, accepts, read, items)
        },
        RelayActionView::Emit(StreamItemView::Event(payload)) => {
            &&& relay.state == RelayState::Streaming
            &&& relay.mode == RelayMode::Stream
            &&& backend.reachable
            &&& calls == 1 && pulls == read && read >= 1
            &&& texts[read - 1].len() > 0
            &&& payload == event_payload(texts[read - 1])
            &&& reading(relay, texts, accepts, (read - 1) as nat, items)
        },
        RelayActionView::Emit(StreamItemView::Failure(reason)) => {
            &&& relay.state == RelayState::BackendCallFailed
            &&& relay.mode == RelayMode::Stream
            &&& !backend.reachable
            &&& reason == STREAM_START_ERROR@
            &&& calls == 1 && pulls == 0 && read == 0
            &&& items == Seq::<StreamItemView>::empty()
        },
        RelayActionView::Respond(text) => {
            &&& relay.state == RelayState::Closed
            &&& report_of(calls, pulls, items, Some(text)) == expected_report(
                request,
                api,
                backend,
                accepts,
            )
        },
        RelayActionView::Close => {
            &&& relay.state == RelayState::Closed
            &&& report_of(calls, pulls, items, None) == expected_report(
                request,
                api,
                backend,
                accepts,
            )
        },
        RelayActionView::Done => false,
    }
}

/// The chunks up to and with number `read` are those before it and then it,
/// and those from it on are it and then the rest.
proof fn lemma_chunk_between(texts: Seq<Seq<char>>, read: int)
    requires
        0 <= read < texts.len(),
    ensures
        texts.take(read + 1) == texts.take(read).push(texts[read]),
        texts.skip(read).len() > 0,
        texts.skip(read)[0] == texts[read],
        texts.skip(read).drop_first() == texts.skip(read + 1),
        texts == texts.take(read) + texts.skip(read),
{
}

/// When the client has taken every fragment with text before chunk number
/// `read` and refuses that chunk's fragment, what it took is what reaches a
/// client that takes as many items as it did.
proof fn lemma_refused(texts: Seq<Seq<char>>, read: int)
    requires
        0 <= read < texts.len(),
        texts[read].len() > 0,
    ensures
        delivered(texts, forwarded(texts.take(read)).len()) == forwarded(texts.take(read)),
{
    let after = texts.skip(read);
    lemma_chunk_between(texts, read);
    assert(seq![texts[read]] + after.drop_first() =~= after);
    lemma_next_fragment(Seq::<Seq<char>>::empty(), texts[read]);
}

/// Runs the session for `request` to its end against a recorded backend and
/// a client that takes `accepts` items and is gone after that, and reports
/// what came of it.
///
/// Every action that the relay asks for is performed against the record:
/// a call is answered as the record says, each `Pull` hands the relay the
/// next recorded chunk, or the end of the sequence after the last, and each
/// item offered is taken until the client has had `accepts` of them.
pub fn replay(
    request: ChatRequest,
    api: BackendApi,
    backend: &BackendScript,
    accepts: usize,
) -> (report: SessionReport)
    requires
        backend.chunks.len() < usize::MAX,
    ensures
        report@ == expected_report(request@, api, backend@, accepts as nat),
{
    let ghost served = request@;
    let ghost texts = backend@.texts;
    let mut relay = Relay::new(request, api);
    let mut backend_calls: usize = 0;
    let mut pulls: usize = 0;
    let mut read: usize = 0;
    let mut items: Vec<StreamItem> = Vec::new();
    let mut response: Option<ChatResponse> = None;
    let mut action = relay.step(RelayEvent::Start);
    proof {
        assert(items_of(items@) =~= Seq::<StreamItemView>::empty());
    }
    loop
        invariant_except_break
            response is None,
            on_track(
                relay@,
                action@,
                served,
                api,
                backend@,
                accepts as nat,
                backend_calls as nat,
                pulls as nat,
                read as nat,
                items_of(items@),
            ),
        invariant
            backend.chunks.len() < usize::MAX,
            texts == backend@.texts,
        ensures
            relay@.state == RelayState::Closed,
            report_of(
                backend_calls as nat,
                pulls as nat,
                items_of(items@),
                match response {
                    Some(answer) => Some(answer@),
                    None => None,
                },
            ) == expected_report(served, api, backend@, accepts as nat),
        decreases work_left(action@, backend.chunks.len() as nat, read as nat),
    {
        let event = match action {
            RelayAction::Respond(answer) => {
                response = Some(answer);
                break ;
            },
            RelayAction::Close | RelayAction::Done => {
                break ;
            },
            RelayAction::CallOnce(_) => {
                backend_calls = backend_calls + 1;
                if backend.reachable {
                    match &backend.reply {
                        Some(text) => RelayEvent::Reply(Some(text.clone())),
                        None => RelayEvent::Reply(None),
                    }
                } else {
                    RelayEvent::CallFailed
                }
            },
            RelayAction::CallStream(_) => {
                backend_calls = backend_calls + 1;
                proof {
                    assert(texts.take(0) =~= Seq::<Seq<char>>::empty());
                    assert(texts.skip(0) =~= texts);
                    assert(forwarded(Seq::<Seq<char>>::empty()) =~= Seq::<Seq<char>>::empty()) by {
                        Seq::<Seq<char>>::empty().lemma_filter_len(has_text());
                    }
                    assert(event_items(Seq::<Seq<char>>::empty()) =~= items_of(items@));
                }
                if backend.reachable {
                    RelayEvent::CallStarted
                } else {
                    RelayEvent::CallFailed
                }
            },
            RelayAction::Pull => {
                pulls = pulls + 1;
                if read < backend.chunks.len() {
                    let chunk = backend.chunks[read].clone();
                    proof {
                        lemma_chunk_between(texts, read as int);
                        lemma_next_fragment(texts.take(read as int), texts[read as int]);
                    }
                    read = read + 1;
                    RelayEvent::ChunkAvailable(chunk)
                } else {
                    proof {
                        assert(texts.take(read as int) =~= texts);
                    }
                    if backend.broken {
                        RelayEvent::BackendError
                    } else {
                        RelayEvent::BackendExhausted
                    }
                }
            },
            RelayAction::Emit(item) => {
                proof {
                    if read >= 1 {
                        lemma_chunk_between(texts, read - 1);
                        lemma_next_fragment(texts.take(read - 1), texts[read - 1]);
                        lemma_refused(texts, read - 1);
                    }
                }
                if items.len() < accepts {
                    proof {
                        assert(items_of(items@.push(item)) =~= items_of(items@).push(item@));
                        if read >= 1 {
                            let sent = forwarded(texts.take(read - 1));
                            assert(event_items(sent.push(texts[read - 1])) =~= event_items(
                                sent,
                            ).push(item@));
                        } else {
                        }
                    }
                    items.push(item);
                    RelayEvent::Delivered
                } else {
                    RelayEvent::ConsumerGone
                }
            },
        };
        action = relay.step(event);
    }
    SessionReport { backend_calls, pulls, items, response, closed: relay.is_closed() }
}

/// Order preservation for a whole session: when every chunk has text and the
/// client takes an item for each, the client gets one event for each chunk,
/// carrying that chunk's text, in the backend's order.
pub proof fn lemma_stream_preserves_order(texts: Seq<Seq<char>>, accepts: nat)
    requires
        forall|i: int| 0 <= i < texts.len() ==> texts[i].len() > 0,
        accepts >= texts.len(),
    ensures
        delivered(texts, accepts) == texts,
        event_items(delivered(texts, accepts)).len() == texts.len(),
        forall|i: int|
            0 <= i < texts.len() ==> event_items(delivered(texts, accepts))[i]
                == StreamItemView::Event(event_payload(texts[i])),
{
    lemma_order_preserved(texts);
}

/// Accumulation equivalence for whole sessions: for the same chunk sequence,
/// read to its end without error, the fragments that a streaming client
/// takes, joined in order, are the text that a non-stream client is answered
/// with.
pub proof fn lemma_modes_agree(
    streamed: ChatRequestView,
    single: ChatRequestView,
    backend: BackendScriptView,
    accepts: nat,
)
    requires
        streamed.stream_mode(),
        !single.stream_mode(),
        backend.reachable,
        !backend.broken,
        accepts >= forwarded(backend.texts).len(),
    ensures
        expected_report(streamed, BackendApi::StreamOnly, backend, accepts).items == event_items(
            forwarded(backend.texts),
        ),
        expected_report(single, BackendApi::StreamOnly, backend, accepts).response == Some(
            accumulated(forwarded(backend.texts)),
        ),
{
    lemma_accumulation_equivalence(backend.texts);
}

/// A backend call that fails before any chunk: a non-stream client is
/// answered with the fixed error text, and a streaming client gets a closed
/// stream that carries the one failure item, or nothing if it took nothing.
/// No chunk is awaited either way.
pub proof fn lemma_failed_call(
    request: ChatRequestView,
    api: BackendApi,
    backend: BackendScriptView,
    accepts: nat,
)
    requires
        !backend.reachable,
    ensures
        expected_report(request, api, backend, accepts).closed,
        expected_report(request, api, backend, accepts).backend_calls == 1,
        expected_report(request, api, backend, accepts).pulls == 0,
        !request.stream_mode() ==> expected_report(request, api, backend, accepts)
            == (SessionReportView {
            backend_calls: 1,
            pulls: 0,
            items: Seq::empty(),
            response: Some(CHAT_ERROR@),
            closed: true,
        }),
        request.stream_mode() ==> expected_report(request, api, backend, accepts)
            == (SessionReportView {
            backend_calls: 1,
            pulls: 0,
            items: if accepts > 0 {
                seq![StreamItemView::Failure(STREAM_START_ERROR@)]
            } else {
                Seq::empty()
            },
            response: None,
            closed: true,
        }),
        expected_report(request, api, backend, accepts).items.len() <= 1,
{
}

/// Reading stops with the client: the chunks awaited are never more than the
/// items that the client took, the fragments without text, and one. When
/// every chunk has text and the client leaves before the last of them, that
/// is exactly one more than the items it took.
pub proof fn lemma_pulls_stop_with_client(texts: Seq<Seq<char>>, accepts: nat)
    ensures
        1 <= pulls_for(texts, accepts) <= texts.len() + 1,
        pulls_for(texts, accepts) <= accepts + 1 + (texts.len() - forwarded(texts).len()),
        (forall|i: int| 0 <= i < texts.len() ==> texts[i].len() > 0) && accepts < texts.len()
            ==> pulls_for(texts, accepts) == accepts + 1,
    decreases texts.len(),
{
    if texts.len() > 0 {
        let rest = texts.drop_first();
        assert(seq![texts[0]] + rest =~= texts);
        lemma_next_fragment(Seq::<Seq<char>>::empty(), texts[0]);
        if texts[0].len() == 0 {
            lemma_pulls_stop_with_client(rest, accepts);
        } else if accepts > 0 {
            lemma_pulls_stop_with_client(rest, (accepts - 1) as nat);
        }
    }
}

} // verus!
