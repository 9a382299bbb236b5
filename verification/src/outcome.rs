//! How a relay session ends, and what that leaves to write to the client.

use crate::wire::{
    ChatResponse, StreamItem, StreamItemView, CHAT_ERROR, NO_RESPONSE, STREAM_START_ERROR,
};
use vstd::prelude::*;

verus! {

/// Where the backend failed.
#[derive(Clone, Copy, Debug, PartialEq, Eq, Structural)]
pub enum FailureKind {
    /// The call failed before it gave any output.
    CallFailed,
    /// The chunk sequence ended in an error.
    BrokenStream,
}

/// An outcome as plain values.
pub enum RelayOutcomeView {
    Completed(Seq<char>),
    Failed(FailureKind),
}

/// The terminal result of a relay session: the full text of the answer, or
/// the kind of failure. No text of the backend's error is kept.
#[derive(Debug, PartialEq, Eq)]
pub enum RelayOutcome {
    Completed(String),
    Failed(FailureKind),
}

impl View for RelayOutcome {
    type V = RelayOutcomeView;

    open spec fn view(&self) -> RelayOutcomeView {
        match self {
            RelayOutcome::Completed(text) => RelayOutcomeView::Completed(text@),
            RelayOutcome::Failed(kind) => RelayOutcomeView::Failed(*kind),
        }
    }
}

/// The text of an optional string.
pub open spec fn text_of(message: Option<String>) -> Option<Seq<char>> {
    match message {
        Some(text) => Some(text@),
        None => None,
    }
}

/// The full text of a single backend answer, given the content of its message
/// if it has one: that content, or the fixed text that stands for none.
pub open spec fn reply_text(message: Option<Seq<char>>) -> Seq<char> {
    match message {
        Some(text) => text,
        None => NO_RESPONSE@,
    }
}

/// The text of the non-stream response for an outcome: the full text, or the
/// one fixed error text for every failure.
pub open spec fn response_text(outcome: RelayOutcomeView) -> Seq<char> {
    match outcome {
        RelayOutcomeView::Completed(text) => text,
        RelayOutcomeView::Failed(_) => CHAT_ERROR@,
    }
}

/// The item that a stream is closed with for an outcome: one failure item
/// when the call never started, and none otherwise.
pub open spec fn closing_item(outcome: RelayOutcomeView) -> Option<StreamItemView> {
    match outcome {
        RelayOutcomeView::Failed(FailureKind::CallFailed) => Some(
            StreamItemView::Failure(STREAM_START_ERROR@),
        ),
        _ => None,
    }
}

impl RelayOutcome {
    /// The outcome of a single backend answer.
    pub fn from_reply(message: Option<String>) -> (outcome: RelayOutcome)
        ensures
            outcome@ == RelayOutcomeView::Completed(reply_text(text_of(message))),
    {
        match message {
            Some(text) => RelayOutcome::Completed(text),
            None => RelayOutcome::Completed(NO_RESPONSE.to_owned()),
        }
    }

    /// The non-stream response that reports this outcome.
    pub fn into_response(self) -> (response: ChatResponse)
        ensures
            response@ == response_text(self@),
    {
        match self {
            RelayOutcome::Completed(text) => ChatResponse { response: text },
            RelayOutcome::Failed(_) => ChatResponse { response: CHAT_ERROR.to_owned() },
        }
    }

    /// The item that a stream is closed with after this outcome, if any.
    pub fn stream_item(&self) -> (item: Option<StreamItem>)
        ensures
            match item {
                Some(last) => closing_item(self@) == Some(last@),
                None => closing_item(self@) is None,
            },
    {
        match self {
            RelayOutcome::Failed(FailureKind::CallFailed) => Some(
                StreamItem::Failure(STREAM_START_ERROR.to_owned()),
            ),
            _ => None,
        }
    }
}

} // verus!
