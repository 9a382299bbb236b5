use chat_relay::chunk::ChatChunk;
use chat_relay::relay::{BackendApi, Relay, RelayAction, RelayEvent, RelayMode, RelayState};
use chat_relay::request::{BackendRequest, ChatMessage, ChatRequest, MessageRole};
use chat_relay::wire::{ChatResponse, OutboundEvent, StreamItem};

fn relay(stream: Option<bool>, api: BackendApi) -> Relay {
    let request = ChatRequest::new("llama3".to_string(), "hi".to_string(), stream).unwrap();
    Relay::new(request, api)
}

fn call() -> BackendRequest {
    BackendRequest {
        model: "llama3".to_string(),
        messages: vec![ChatMessage { role: MessageRole::User, content: "hi".to_string() }],
    }
}

fn chunk(text: &str) -> RelayEvent {
    RelayEvent::ChunkAvailable(ChatChunk::new(text.to_string()))
}

fn event(text: &str) -> RelayAction {
    RelayAction::Emit(StreamItem::Event(OutboundEvent {
        payload: format!("{{\"content\":\"{}\"}}", text),
    }))
}

fn respond(text: &str) -> RelayAction {
    RelayAction::Respond(ChatResponse { response: text.to_string() })
}

fn failure() -> RelayAction {
    RelayAction::Emit(StreamItem::Failure("Failed to start chat stream".to_string()))
}

const ERROR: &str = "Error occurred while processing the chat.";

#[test]
fn mode_follows_request_and_backend() {
    assert_eq!(relay(None, BackendApi::Full).mode(), RelayMode::Stream);
    assert_eq!(relay(Some(true), BackendApi::Full).mode(), RelayMode::Stream);
    assert_eq!(relay(Some(true), BackendApi::StreamOnly).mode(), RelayMode::Stream);
    assert_eq!(relay(Some(false), BackendApi::Full).mode(), RelayMode::Once);
    assert_eq!(relay(Some(false), BackendApi::StreamOnly).mode(), RelayMode::Accumulate);
}

#[test]
fn a_new_relay_is_idle_and_holds_its_request() {
    let session = relay(None, BackendApi::Full);
    assert_eq!(session.state(), RelayState::Idle);
    assert!(!session.is_closed());
    assert_eq!(session.request().model(), "llama3");
    assert_eq!(session.request().prompt(), "hi");
}

#[test]
fn start_makes_the_call_of_the_mode() {
    let mut once = relay(Some(false), BackendApi::Full);
    assert_eq!(once.step(RelayEvent::Start), RelayAction::CallOnce(call()));
    assert_eq!(once.state(), RelayState::BackendCallPending);

    let mut streamed = relay(None, BackendApi::Full);
    assert_eq!(streamed.step(RelayEvent::Start), RelayAction::CallStream(call()));
    assert_eq!(streamed.state(), RelayState::BackendCallPending);

    let mut joined = relay(Some(false), BackendApi::StreamOnly);
    assert_eq!(joined.step(RelayEvent::Start), RelayAction::CallStream(call()));
    assert_eq!(joined.state(), RelayState::BackendCallPending);
}

#[test]
fn single_answer_is_handed_on() {
    let mut session = relay(Some(false), BackendApi::Full);
    session.step(RelayEvent::Start);
    let action = session.step(RelayEvent::Reply(Some("hello there".to_string())));
    assert_eq!(action, respond("hello there"));
    assert!(session.is_closed());
}

#[test]
fn single_answer_without_a_message_is_no_response() {
    let mut session = relay(Some(false), BackendApi::Full);
    session.step(RelayEvent::Start);
    assert_eq!(session.step(RelayEvent::Reply(None)), respond("No response"));
    assert!(session.is_closed());
}

#[test]
fn failed_single_call_is_the_error_text() {
    let mut session = relay(Some(false), BackendApi::Full);
    session.step(RelayEvent::Start);
    assert_eq!(session.step(RelayEvent::CallFailed), respond(ERROR));
    assert!(session.is_closed());
}

#[test]
fn failed_stream_call_offers_one_failure_item_then_closes() {
    let mut session = relay(None, BackendApi::Full);
    session.step(RelayEvent::Start);
    assert_eq!(session.step(RelayEvent::CallFailed), failure());
    assert_eq!(session.state(), RelayState::BackendCallFailed);
    assert_eq!(session.step(RelayEvent::Delivered), RelayAction::Close);
    assert!(session.is_closed());
    assert_eq!(session.step(RelayEvent::Delivered), RelayAction::Done);
}

#[test]
fn failed_stream_call_closes_when_the_client_is_gone() {
    let mut session = relay(None, BackendApi::Full);
    session.step(RelayEvent::Start);
    assert_eq!(session.step(RelayEvent::CallFailed), failure());
    assert_eq!(session.step(RelayEvent::ConsumerGone), RelayAction::Close);
    assert!(session.is_closed());
}

#[test]
fn started_stream_pulls_the_first_chunk() {
    let mut session = relay(None, BackendApi::Full);
    session.step(RelayEvent::Start);
    assert_eq!(session.step(RelayEvent::CallStarted), RelayAction::Pull);
    assert_eq!(session.state(), RelayState::Streaming);
}

#[test]
fn chunk_with_text_is_offered_and_the_next_pulled_once_taken() {
    let mut session = relay(None, BackendApi::Full);
    session.step(RelayEvent::Start);
    session.step(RelayEvent::CallStarted);
    assert_eq!(session.step(chunk("he")), event("he"));
    assert_eq!(session.state(), RelayState::Streaming);
    assert_eq!(session.step(RelayEvent::Delivered), RelayAction::Pull);
    assert_eq!(session.step(chunk("llo")), event("llo"));
    assert_eq!(session.step(RelayEvent::Delivered), RelayAction::Pull);
    assert_eq!(session.step(RelayEvent::BackendExhausted), RelayAction::Close);
    assert!(session.is_closed());
}

#[test]
fn chunk_without_text_is_passed_over() {
    let mut session = relay(None, BackendApi::Full);
    session.step(RelayEvent::Start);
    session.step(RelayEvent::CallStarted);
    assert_eq!(session.step(chunk("")), RelayAction::Pull);
    assert_eq!(session.state(), RelayState::Streaming);
    assert_eq!(session.step(chunk("a")), event("a"));
}

#[test]
fn broken_stream_closes_without_an_item() {
    let mut session = relay(None, BackendApi::Full);
    session.step(RelayEvent::Start);
    session.step(RelayEvent::CallStarted);
    session.step(chunk("he"));
    session.step(RelayEvent::Delivered);
    assert_eq!(session.step(RelayEvent::BackendError), RelayAction::Close);
    assert!(session.is_closed());
}

#[test]
fn client_gone_closes_the_stream() {
    let mut session = relay(None, BackendApi::Full);
    session.step(RelayEvent::Start);
    session.step(RelayEvent::CallStarted);
    session.step(chunk("he"));
    assert_eq!(session.step(RelayEvent::ConsumerGone), RelayAction::Close);
    assert!(session.is_closed());
    assert_eq!(session.step(chunk("llo")), RelayAction::Done);
    assert_eq!(session.step(RelayEvent::Delivered), RelayAction::Done);
    assert!(session.is_closed());
}

#[test]
fn client_gone_ends_a_session_wherever_it_stands() {
    let mut idle = relay(Some(false), BackendApi::Full);
    assert_eq!(idle.step(RelayEvent::ConsumerGone), RelayAction::Close);
    assert!(idle.is_closed());

    let mut pending = relay(Some(false), BackendApi::StreamOnly);
    pending.step(RelayEvent::Start);
    assert_eq!(pending.step(RelayEvent::ConsumerGone), RelayAction::Close);
    assert!(pending.is_closed());

    let mut joining = relay(Some(false), BackendApi::StreamOnly);
    joining.step(RelayEvent::Start);
    joining.step(RelayEvent::CallStarted);
    joining.step(chunk("he"));
    assert_eq!(joining.step(RelayEvent::ConsumerGone), RelayAction::Close);
    assert!(joining.is_closed());
}

#[test]
fn accumulating_joins_every_chunk() {
    let mut session = relay(Some(false), BackendApi::StreamOnly);
    session.step(RelayEvent::Start);
    assert_eq!(session.step(RelayEvent::CallStarted), RelayAction::Pull);
    assert_eq!(session.step(chunk("he")), RelayAction::Pull);
    assert_eq!(session.step(chunk("")), RelayAction::Pull);
    assert_eq!(session.step(chunk("llo")), RelayAction::Pull);
    assert_eq!(session.step(RelayEvent::BackendExhausted), respond("hello"));
    assert!(session.is_closed());
}

#[test]
fn accumulating_drops_the_text_on_an_error() {
    let mut session = relay(Some(false), BackendApi::StreamOnly);
    session.step(RelayEvent::Start);
    session.step(RelayEvent::CallStarted);
    session.step(chunk("he"));
    assert_eq!(session.step(RelayEvent::BackendError), respond(ERROR));
    assert!(session.is_closed());
}

#[test]
fn accumulating_answers_a_failed_call_with_the_error_text() {
    let mut session = relay(Some(false), BackendApi::StreamOnly);
    session.step(RelayEvent::Start);
    assert_eq!(session.step(RelayEvent::CallFailed), respond(ERROR));
    assert!(session.is_closed());
}

#[test]
fn accumulating_an_empty_sequence_is_an_empty_text() {
    let mut session = relay(Some(false), BackendApi::StreamOnly);
    session.step(RelayEvent::Start);
    session.step(RelayEvent::CallStarted);
    assert_eq!(session.step(RelayEvent::BackendExhausted), respond(""));
}

#[test]
fn an_event_that_is_not_awaited_ends_the_session_as_a_failure() {
    let mut once = relay(Some(false), BackendApi::Full);
    assert_eq!(once.step(chunk("he")), respond(ERROR));
    assert!(once.is_closed());

    let mut wrong_answer = relay(Some(false), BackendApi::Full);
    wrong_answer.step(RelayEvent::Start);
    assert_eq!(wrong_answer.step(RelayEvent::CallStarted), respond(ERROR));
    assert!(wrong_answer.is_closed());

    let mut streamed = relay(None, BackendApi::Full);
    streamed.step(RelayEvent::Start);
    assert_eq!(streamed.step(RelayEvent::Reply(Some("hello".to_string()))), failure());
    assert_eq!(streamed.state(), RelayState::BackendCallFailed);

    let mut reading = relay(None, BackendApi::Full);
    reading.step(RelayEvent::Start);
    reading.step(RelayEvent::CallStarted);
    assert_eq!(reading.step(RelayEvent::Start), RelayAction::Close);
    assert!(reading.is_closed());

    let mut joining = relay(Some(false), BackendApi::StreamOnly);
    joining.step(RelayEvent::Start);
    joining.step(RelayEvent::CallStarted);
    joining.step(chunk("he"));
    assert_eq!(joining.step(RelayEvent::Delivered), respond(ERROR));
    assert!(joining.is_closed());
}

#[test]
fn a_closed_session_asks_for_nothing() {
    let mut session = relay(Some(false), BackendApi::Full);
    session.step(RelayEvent::Start);
    session.step(RelayEvent::CallFailed);
    assert_eq!(session.step(RelayEvent::Start), RelayAction::Done);
    assert_eq!(session.step(RelayEvent::Reply(None)), RelayAction::Done);
    assert_eq!(session.step(RelayEvent::ConsumerGone), RelayAction::Done);
    assert_eq!(session.state(), RelayState::Closed);
}

#[test]
fn one_backend_call_over_any_run_of_events() {
    let mut session = relay(None, BackendApi::Full);
    let events = vec![
        RelayEvent::Start,
        RelayEvent::Start,
        RelayEvent::CallStarted,
        chunk("a"),
        RelayEvent::Start,
        RelayEvent::Delivered,
        RelayEvent::Start,
    ];
    let mut calls = 0;
    for happened in events {
        match session.step(happened) {
            RelayAction::CallOnce(_) | RelayAction::CallStream(_) => calls += 1,
            _ => {}
        }
    }
    assert_eq!(calls, 1);
}
