//! The errors that the library's decisions report.
use vstd::prelude::*;

verus! {

/// An error of the planner protocol, of a tool request, or of the user's
/// answer to a confirmation prompt.
#[derive(Debug)]
pub enum AppError {
    /// A planner reply that is no JSON text.
    OllamaParse { source: serde_json::Error, body: String },
    /// A planner reply that is JSON, but not of the shape of a chat reply.
    InvalidOllamaResponse,
    /// The planner asked for a tool that the registry does not hold.
    UnknownTool(String),
    /// The planner gave arguments that do not fit the tool.
    InvalidToolArguments { tool: String, source: serde_json::Error },
    /// The user answered no at the confirmation prompt.
    UserDeclined,
    /// Any other failure, described in words.
    Message(String),
}

} // verus!
