use chat_relay::chunk::ChatChunk;
use chat_relay::outcome::{FailureKind, RelayOutcome};
use chat_relay::wire::{
    ChatResponse, OutboundEvent, StreamItem, CHAT_ERROR, CONTENT_KEY, NO_RESPONSE, QUEUE_CAPACITY,
    RESPONSE_KEY, STREAM_START_ERROR,
};

#[test]
fn fixed_texts() {
    assert_eq!(NO_RESPONSE, "No response");
    assert_eq!(CHAT_ERROR, "Error occurred while processing the chat.");
    assert_eq!(STREAM_START_ERROR, "Failed to start chat stream");
    assert_eq!(CONTENT_KEY, "content");
    assert_eq!(RESPONSE_KEY, "response");
    assert_eq!(QUEUE_CAPACITY, 100);
}

#[test]
fn event_payload_is_a_json_object_with_the_content() {
    let event = OutboundEvent::for_text("he");
    assert_eq!(event.payload, "{\"content\":\"he\"}");
}

#[test]
fn event_payload_is_not_the_bare_text() {
    let event = OutboundEvent::for_text("llo");
    assert_ne!(event.payload, "llo");
    assert_ne!(event.payload, "content");
}

#[test]
fn event_payload_escapes_what_json_escapes() {
    let event = OutboundEvent::for_text("a \"b\"\\\n\r\tc\u{1}");
    assert_eq!(event.payload, "{\"content\":\"a \\\"b\\\"\\\\\\n\\r\\tc\\u0001\"}");
}

#[test]
fn event_payload_keeps_text_beyond_ascii() {
    let event = OutboundEvent::for_text("你好 é");
    assert_eq!(event.payload, "{\"content\":\"你好 é\"}");
}

#[test]
fn event_payload_reads_back_as_the_text() {
    let text = "line one\nline \"two\"\r\n\\ end";
    let event = OutboundEvent::for_text(text);
    let value: serde_json::Value = serde_json::from_str(&event.payload).unwrap();
    assert_eq!(value.get("content").and_then(|content| content.as_str()), Some(text));
    assert_eq!(value.as_object().map(|members| members.len()), Some(1));
}

#[test]
fn event_payload_has_no_line_break() {
    let event = OutboundEvent::for_text("one\ntwo\rthree");
    assert!(!event.payload.contains('\n'));
    assert!(!event.payload.contains('\r'));
}

#[test]
fn response_body_is_a_json_object_with_the_response() {
    let response = ChatResponse { response: "hello there".to_string() };
    assert_eq!(response.body(), "{\"response\":\"hello there\"}");
}

#[test]
fn response_body_of_the_error_text() {
    let response = RelayOutcome::Failed(FailureKind::CallFailed).into_response();
    let body = response.body();
    assert_eq!(body, "{\"response\":\"Error occurred while processing the chat.\"}");
    let read: serde_json::Value = serde_json::from_str(&body).unwrap();
    let wanted: serde_json::Value =
        serde_json::from_str("{\"response\": \"Error occurred while processing the chat.\"}")
            .unwrap();
    assert_eq!(read, wanted);
}

#[test]
fn from_reply_keeps_the_message() {
    let outcome = RelayOutcome::from_reply(Some("hello there".to_string()));
    assert_eq!(outcome, RelayOutcome::Completed("hello there".to_string()));
}

#[test]
fn from_reply_without_a_message_is_no_response() {
    let outcome = RelayOutcome::from_reply(None);
    assert_eq!(outcome, RelayOutcome::Completed("No response".to_string()));
}

#[test]
fn from_reply_keeps_an_empty_message() {
    let outcome = RelayOutcome::from_reply(Some(String::new()));
    assert_eq!(outcome, RelayOutcome::Completed(String::new()));
}

#[test]
fn into_response_of_a_completed_outcome_is_its_text() {
    let response = RelayOutcome::Completed("42".to_string()).into_response();
    assert_eq!(response, ChatResponse { response: "42".to_string() });
}

#[test]
fn into_response_of_every_failure_is_the_same_text() {
    let early = RelayOutcome::Failed(FailureKind::CallFailed).into_response();
    let late = RelayOutcome::Failed(FailureKind::BrokenStream).into_response();
    assert_eq!(early.response, CHAT_ERROR);
    assert_eq!(late.response, CHAT_ERROR);
}

#[test]
fn stream_item_only_after_a_call_that_never_started() {
    assert_eq!(
        RelayOutcome::Failed(FailureKind::CallFailed).stream_item(),
        Some(StreamItem::Failure("Failed to start chat stream".to_string()))
    );
    assert_eq!(RelayOutcome::Failed(FailureKind::BrokenStream).stream_item(), None);
    assert_eq!(RelayOutcome::Completed("done".to_string()).stream_item(), None);
}

#[test]
fn chunk_from_message() {
    assert_eq!(ChatChunk::from_message(Some("he".to_string())), ChatChunk::new("he".to_string()));
    assert_eq!(ChatChunk::from_message(None), ChatChunk::new(String::new()));
}

#[test]
fn chunk_is_empty_only_without_text() {
    assert!(ChatChunk::new(String::new()).is_empty());
    assert!(ChatChunk::from_message(None).is_empty());
    assert!(!ChatChunk::new(" ".to_string()).is_empty());
}

#[test]
fn chunk_clone_is_an_equal_chunk() {
    let chunk = ChatChunk::new("llo".to_string());
    assert_eq!(chunk.clone(), chunk);
}
