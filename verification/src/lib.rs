//! B-Bot: the verified core of a local-first, tool-oriented command line
//! assistant. A planner model picks one of a fixed set of typed tools; this
//! crate holds the planner protocol, the decisions that route a plan to a
//! tool, and the rules that decide when a tool may run.
pub mod text;
pub mod json;
pub mod error;
pub mod planner;
pub mod codex;
pub mod app_server;
pub mod cli;
pub mod ollama;
pub mod paths;
pub mod gap_store;
pub mod tools;
pub mod session;
