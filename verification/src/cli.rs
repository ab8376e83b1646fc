//! The command line: which planner backend to use, how to reach it, and the
//! request given as arguments.
use crate::codex::ReasoningEffort;
use crate::ollama::DEFAULT_OLLAMA_MODEL;
use crate::text::{join, join_strings, strings_view};
use vstd::prelude::*;

verus! {

/// The planner backend.
#[derive(Debug, Clone, Copy, PartialEq, Eq, Structural)]
pub enum Backend {
    Ollama,
    Codex,
}

impl Default for Backend {
    fn default() -> (r: Self)
        ensures
            r == Backend::Ollama,
    {
        Backend::Ollama
    }
}

/// The options B-Bot runs with, and the words of a one-shot request.
#[derive(Debug)]
pub struct Cli {
    pub backend: Backend,
    pub ollama_host: String,
    pub model: Option<String>,
    pub codex_binary: String,
    pub codex_effort: ReasoningEffort,
    pub codex_network: bool,
    pub dry_run: bool,
    pub yes: bool,
    pub prompt: Vec<String>,
}

impl Cli {
    /// The one-shot request: the words given on the command line joined by
    /// single spaces, or `None` where none were given (interactive mode).
    pub fn prompt_text(&self) -> (r: Option<String>)
        ensures
            self.prompt@.len() == 0 ==> r is None,
            self.prompt@.len() > 0 ==> (r matches Some(t) && t@ == join(
                strings_view(self.prompt@),
                " "@,
            )),
    {
        if self.prompt.len() == 0 {
            None
        } else {
            Some(join_strings(&self.prompt, " "))
        }
    }

    /// The Ollama model: the one asked for, else the default `qwen3:8b`.
    pub fn ollama_model(&self) -> (r: String)
        ensures
            match self.model {
                Some(m) => r@ == m@,
                None => r@ == DEFAULT_OLLAMA_MODEL@,
            },
    {
        match &self.model {
            Some(m) => m.clone(),
            None => DEFAULT_OLLAMA_MODEL.to_owned(),
        }
    }
}

} // verus!
