//! What goes over the wire to the client: the fixed texts, the JSON documents
//! and the two payload types.

use vstd::prelude::*;

verus! {

/// Text of a non-stream response whose backend answer carries no message.
pub const NO_RESPONSE: &'static str = "No response";

/// Text of a non-stream response when the backend failed.
pub const CHAT_ERROR: &'static str = "Error occurred while processing the chat.";

/// Reason carried by the single failure item of a stream whose backend call
/// could not be started.
pub const STREAM_START_ERROR: &'static str = "Failed to start chat stream";

/// Member name of the JSON object that wraps a streamed text fragment.
pub const CONTENT_KEY: &'static str = "content";

/// Member name of the JSON object that is the body of a non-stream response.
pub const RESPONSE_KEY: &'static str = "response";

/// Number of items that may wait between the producer and the client
/// transport before the producer is held back.
pub const QUEUE_CAPACITY: usize = 100;

/// The compact JSON text of the object whose only member is `key` with the
/// string `value`, as `serde_json` writes it.
pub uninterp spec fn json_string_member(key: Seq<char>, value: Seq<char>) -> Seq<char>;

/// Builds the `serde_json::Value` for the object `{ key: value }` and renders
/// it with `serde_json`'s `Display` for `Value`, which writes compact JSON.
/// The contract only names that text: it is the same for the same key and
/// value.
#[verifier::external_body]
fn json_object(key: &str, value: &str) -> (text: String)
    ensures
        text@ == json_string_member(key@, value@),
{
    let mut members = serde_json::Map::new();
    members.insert(key.to_string(), serde_json::Value::String(value.to_string()));
    serde_json::Value::Object(members).to_string()
}

/// The payload of the event that carries the text fragment `text`.
pub open spec fn event_payload(text: Seq<char>) -> Seq<char> {
    json_string_member(CONTENT_KEY@, text)
}

/// The body of the non-stream response whose text is `text`.
pub open spec fn response_body(text: Seq<char>) -> Seq<char> {
    json_string_member(RESPONSE_KEY@, text)
}

/// One unit of the outbound event stream.
#[derive(Debug, PartialEq, Eq)]
pub struct OutboundEvent {
    pub payload: String,
}

impl View for OutboundEvent {
    type V = Seq<char>;

    open spec fn view(&self) -> Seq<char> {
        self.payload@
    }
}

impl OutboundEvent {
    /// The event for one non-empty text fragment: a JSON object whose member
    /// `content` is the fragment.
    pub fn for_text(text: &str) -> (event: OutboundEvent)
        ensures
            event@ == event_payload(text@),
    {
        OutboundEvent { payload: json_object(CONTENT_KEY, text) }
    }
}

/// An item of the outbound stream as plain values.
pub enum StreamItemView {
    Event(Seq<char>),
    Failure(Seq<char>),
}

/// What the relay puts on the queue to the client transport: an event to
/// write, or the failure that ends the stream, with its fixed reason.
#[derive(Debug, PartialEq, Eq)]
pub enum StreamItem {
    Event(OutboundEvent),
    Failure(String),
}

impl View for StreamItem {
    type V = StreamItemView;

    open spec fn view(&self) -> StreamItemView {
        match self {
            StreamItem::Event(event) => StreamItemView::Event(event@),
            StreamItem::Failure(reason) => StreamItemView::Failure(reason@),
        }
    }
}

/// The events that carry some fragments, one for each and in their order.
pub open spec fn event_items(texts: Seq<Seq<char>>) -> Seq<StreamItemView> {
    texts.map_values(|text: Seq<char>| StreamItemView::Event(event_payload(text)))
}

/// The single terminal payload of a non-stream session.
#[derive(Debug, PartialEq, Eq)]
pub struct ChatResponse {
    pub response: String,
}

impl View for ChatResponse {
    type V = Seq<char>;

    open spec fn view(&self) -> Seq<char> {
        self.response@
    }
}

impl ChatResponse {
    /// The JSON document sent as the body of the response.
    pub fn body(&self) -> (text: String)
        ensures
            text@ == response_body(self@),
    {
        json_object(RESPONSE_KEY, self.response.as_str())
    }
}

} // verus!
