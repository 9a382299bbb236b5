//! A relay between chat-completion requests and a model backend.
//!
//! The crate holds the decisions of one relay session: which backend call a
//! request leads to, what each chunk of a streamed answer turns into, when the
//! session ends, and what the client is left with. The caller performs the
//! calls, the waits and the sends that the session asks for.

pub mod chunk;
pub mod outcome;
pub mod relay;
pub mod request;
pub mod session;
pub mod wire;
