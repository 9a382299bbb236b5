//! The client's request and the request that the backend is sent for it.

use vstd::prelude::*;

verus! {

/// Why a request could not be formed.
#[derive(Clone, Copy, Debug, PartialEq, Eq, Structural)]
pub enum RequestError {
    /// The model name is empty, so the request names no backend model.
    EmptyModel,
}

/// What a client is told when its request names no model.
pub const EMPTY_MODEL_MESSAGE: &'static str = "model must not be empty";

impl RequestError {
    /// The text that tells the client what was wrong with its request.
    pub fn message(&self) -> (text: String)
        ensures
            text@ == match self {
                RequestError::EmptyModel => EMPTY_MODEL_MESSAGE@,
            },
    {
        match self {
            RequestError::EmptyModel => EMPTY_MODEL_MESSAGE.to_owned(),
        }
    }
}

/// A chat request as plain values.
pub struct ChatRequestView {
    pub model: Seq<char>,
    pub prompt: Seq<char>,
    pub stream: Option<bool>,
}

impl ChatRequestView {
    /// Whether the answer is streamed: the client's choice, and `true` where
    /// it made none.
    pub open spec fn stream_mode(self) -> bool {
        match self.stream {
            Some(choice) => choice,
            None => true,
        }
    }
}

/// One chat-completion request. It always names a model, and does not change
/// once made.
#[derive(Debug, PartialEq, Eq)]
pub struct ChatRequest {
    model: String,
    prompt: String,
    stream: Option<bool>,
}

impl View for ChatRequest {
    type V = ChatRequestView;

    closed spec fn view(&self) -> ChatRequestView {
        ChatRequestView { model: self.model@, prompt: self.prompt@, stream: self.stream }
    }
}

impl Clone for ChatRequest {
    fn clone(&self) -> (copy: ChatRequest)
        ensures
            copy == *self,
    {
        proof {
            use_type_invariant(self);
        }
        ChatRequest {
            model: self.model.clone(),
            prompt: self.prompt.clone(),
            stream: self.stream,
        }
    }
}

impl ChatRequest {
    #[verifier::type_invariant]
    spec fn names_a_model(&self) -> bool {
        self.model@.len() > 0
    }

    /// Forms a request. An empty model name is refused, and nothing else is.
    pub fn new(model: String, prompt: String, stream: Option<bool>) -> (made: Result<
        ChatRequest,
        RequestError,
    >)
        ensures
            made is Err <==> model@.len() == 0,
            made matches Err(error) ==> error == RequestError::EmptyModel,
            made matches Ok(request) ==> request@ == (ChatRequestView {
                model: model@,
                prompt: prompt@,
                stream,
            }),
    {
        if model.as_str().is_empty() {
            Err(RequestError::EmptyModel)
        } else {
            Ok(ChatRequest { model, prompt, stream })
        }
    }

    /// The name of the backend model, which is never empty.
    pub fn model(&self) -> (name: &str)
        ensures
            name@ == self@.model,
            name@.len() > 0,
    {
        proof {
            use_type_invariant(self);
        }
        self.model.as_str()
    }

    /// The user's utterance.
    pub fn prompt(&self) -> (text: &str)
        ensures
            text@ == self@.prompt,
    {
        self.prompt.as_str()
    }

    /// The client's choice between a streamed and a single answer, if it made
    /// one.
    pub fn stream(&self) -> (choice: Option<bool>)
        ensures
            choice == self@.stream,
    {
        self.stream
    }

    /// Whether the answer is streamed. A request that does not say is
    /// streamed.
    pub fn stream_mode(&self) -> (streamed: bool)
        ensures
            streamed == self@.stream_mode(),
    {
        match self.stream {
            Some(choice) => choice,
            None => true,
        }
    }

    /// The request sent to the backend: the same model, and the prompt as the
    /// only message, spoken by the user.
    pub fn backend_request(&self) -> (call: BackendRequest)
        ensures
            call@ == backend_request_for(self@),
            call@.model.len() > 0,
    {
        proof {
            use_type_invariant(self);
        }
        let mut messages: Vec<ChatMessage> = Vec::new();
        messages.push(ChatMessage { role: MessageRole::User, content: self.prompt.clone() });
        let call = BackendRequest { model: self.model.clone(), messages };
        assert(call@.messages =~= backend_request_for(self@).messages);
        call
    }
}

/// Who speaks a message of a backend conversation.
#[derive(Clone, Copy, Debug, PartialEq, Eq, Structural)]
pub enum MessageRole {
    User,
    Assistant,
    System,
}

/// A message of a backend conversation as plain values.
pub struct ChatMessageView {
    pub role: MessageRole,
    pub content: Seq<char>,
}

/// One message of the conversation that a backend call carries.
#[derive(Debug, PartialEq, Eq)]
pub struct ChatMessage {
    pub role: MessageRole,
    pub content: String,
}

impl View for ChatMessage {
    type V = ChatMessageView;

    open spec fn view(&self) -> ChatMessageView {
        ChatMessageView { role: self.role, content: self.content@ }
    }
}

/// A backend request as plain values.
pub struct BackendRequestView {
    pub model: Seq<char>,
    pub messages: Seq<ChatMessageView>,
}

/// What a backend call is made with: the model and the conversation so far.
#[derive(Debug, PartialEq, Eq)]
pub struct BackendRequest {
    pub model: String,
    pub messages: Vec<ChatMessage>,
}

impl View for BackendRequest {
    type V = BackendRequestView;

    open spec fn view(&self) -> BackendRequestView {
        BackendRequestView {
            model: self.model@,
            messages: self.messages@.map_values(|message: ChatMessage| message@),
        }
    }
}

/// The backend request that stands for a chat request.
pub open spec fn backend_request_for(request: ChatRequestView) -> BackendRequestView {
    BackendRequestView {
        model: request.model,
        messages: seq![ChatMessageView { role: MessageRole::User, content: request.prompt }],
    }
}

} // verus!
