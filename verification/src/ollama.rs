//! The Ollama planner backend: where to reach the server and what to send it.
use crate::planner::{text_message, Message, SYSTEM_PROMPT};
use crate::text::{chars_of, sub_string, trim_end_char};
use vstd::prelude::*;

verus! {

/// The address of a local Ollama server.
pub const DEFAULT_OLLAMA_HOST: &'static str = "http://127.0.0.1:11434";

/// The model Ollama plans with unless another is asked for.
pub const DEFAULT_OLLAMA_MODEL: &'static str = "qwen3:8b";

/// Where the Ollama server is and which model plans.
#[derive(Debug)]
pub struct OllamaPlannerConfig {
    pub base_url: String,
    pub model: String,
}

impl OllamaPlannerConfig {
    /// A configuration for the server at `base_url` and the model `model`.
    pub fn new(base_url: String, model: String) -> (r: Self)
        ensures
            r.base_url@ == base_url@,
            r.model@ == model@,
    {
        OllamaPlannerConfig { base_url, model }
    }

    /// The chat endpoint: the base address without trailing slashes,
    /// followed by `/api/chat`.
    pub fn chat_url(&self) -> (r: String)
        ensures
            r@ == trim_end_char(self.base_url@, '/') + "/api/chat"@,
    {
        let cs = chars_of(self.base_url.as_str());
        let mut end = cs.len();
        assert(cs@.subrange(0, cs@.len() as int) =~= cs@);
        while end > 0 && cs[end - 1] == '/'
            invariant
                end <= cs@.len(),
                trim_end_char(cs@, '/') == trim_end_char(cs@.subrange(0, end as int), '/'),
            decreases end,
        {
            proof {
                assert(cs@.subrange(0, end as int).drop_last() =~= cs@.subrange(0, end - 1));
            }
            end = end - 1;
        }
        assert(cs@.subrange(0, cs@.len() as int) =~= cs@);
        let mut r = sub_string(&cs, 0, end);
        r.append("/api/chat");
        r
    }
}

/// The conversation sent to Ollama: the planner instructions, then the
/// user's request.
pub fn chat_messages(prompt: &str) -> (r: Vec<Message>)
    ensures
        r@.len() == 2,
        r@[0]@ == text_message("system"@, SYSTEM_PROMPT@),
        r@[1]@ == text_message("user"@, prompt@),
{
    let mut messages: Vec<Message> = Vec::new();
    messages.push(Message::system(SYSTEM_PROMPT));
    messages.push(Message::user(prompt.to_owned()));
    messages
}

} // verus!
