//! Plain data of the language-model service protocol.  The HTTP calls
//! that carry these values are the embedding application's business.

use vstd::prelude::*;

verus! {

/// A one-shot generation response.
#[derive(Debug)]
pub struct GenerateResponse {
    pub response: String,
    pub total_duration: u64,
    pub load_duration: u64,
    pub prompt_eval_count: i32,
    pub eval_count: i32,
}

/// One chat message.
#[derive(Debug)]
pub struct Message {
    pub role: String,
    pub content: String,
}

/// A chat request: the model and the conversation so far.
#[derive(Debug)]
pub struct ChatRequest {
    pub model: String,
    pub messages: Vec<Message>,
    pub stream: bool,
}

/// One chunk of a streamed chat response.
#[derive(Debug)]
pub struct StreamResponse {
    pub message: Message,
    pub done: bool,
}

} // verus!
