use bbot::cli::{Backend, Cli};
use bbot::codex::{
    build_planner_prompt, parse_codex_output, strip_markdown_fences, CodexPlannerBackend,
    CodexPlannerConfig, ReasoningEffort,
};
use bbot::error::AppError;
use bbot::gap_store::GapStore;
use bbot::json::{boolean_field_or, string_field_or, strings_of};
use bbot::ollama::{chat_messages, OllamaPlannerConfig, DEFAULT_OLLAMA_HOST, DEFAULT_OLLAMA_MODEL};
use bbot::paths::join;
use bbot::planner::{chat_response_from_json, parse_chat_response, ToolDefinition, SYSTEM_PROMPT};
use bbot::text::{
    first_chars_str, i64_text, join_strings, str_eq, trim_start_char_str, trim_str, u64_text,
};
use bbot::tools::ToolRegistry;
use serde_json::Value;

fn json(text: &str) -> Value {
    serde_json::from_str(text).unwrap()
}

fn cli(prompt: &[&str], model: Option<&str>) -> Cli {
    Cli {
        backend: Backend::default(),
        ollama_host: DEFAULT_OLLAMA_HOST.to_owned(),
        model: model.map(|m| m.to_owned()),
        codex_binary: "codex".to_owned(),
        codex_effort: ReasoningEffort::default(),
        codex_network: false,
        dry_run: false,
        yes: false,
        prompt: prompt.iter().map(|w| w.to_string()).collect(),
    }
}

#[test]
fn fences_are_stripped() {
    assert_eq!(strip_markdown_fences("```\n{\"a\":1}\n```"), "{\"a\":1}");
    assert_eq!(strip_markdown_fences("  ```JSON\n{\"a\":1}\n```  \n"), "{\"a\":1}");
    assert_eq!(strip_markdown_fences("  plain text \n"), "plain text");
    assert_eq!(strip_markdown_fences("```json\n{\"a\":1}"), "```json\n{\"a\":1}");
    assert_eq!(strip_markdown_fences(""), "");
}

#[test]
fn stripping_fences_twice_changes_nothing_more() {
    for text in ["```json\n ok \n```", "  x  ", "```\n```", "```json\n{}\n```\n"] {
        let once = strip_markdown_fences(text);
        assert_eq!(once.trim(), once);
    }
}

#[test]
fn empty_codex_answer_is_an_error() {
    match parse_codex_output("  \n ") {
        Err(AppError::OllamaParse { body, .. }) => assert_eq!(body, ""),
        other => panic!("unexpected {:?}", other),
    }
    match parse_codex_output("```json\n\n```") {
        Err(AppError::OllamaParse { body, .. }) => assert_eq!(body, ""),
        other => panic!("unexpected {:?}", other),
    }
}

#[test]
fn codex_answer_of_other_json_becomes_text() {
    let parsed = parse_codex_output("```json\n{\"answer\": 42}\n```").unwrap();
    assert_eq!(parsed.message.role, "assistant");
    assert_eq!(parsed.message.content.as_deref(), Some("{\"answer\": 42}"));
}

#[test]
fn codex_prompt_lists_tools_and_request() {
    let tools_json = "[\n  {\n    \"type\": \"function\"\n  }\n]";
    let prompt = build_planner_prompt("count loc", tools_json);
    assert!(prompt.starts_with(SYSTEM_PROMPT));
    assert!(prompt.contains("\n\nAdditional Codex planner rules:\n- Do not run shell commands.\n"));
    assert!(prompt.ends_with("\n\nUser request:\ncount loc"));
    assert!(prompt.contains(&format!("Available tools:\n{}\n\nUser request:", tools_json)));
    assert_eq!(
        prompt.len(),
        build_planner_prompt("", "").len() + "count loc".len() + tools_json.len()
    );
    let registry = ToolRegistry::with_defaults();
    let tools: Vec<ToolDefinition> = registry.specs();
    assert_eq!(tools.len(), 3);
}

#[test]
fn chat_replies_are_read() {
    let reply = parse_chat_response(
        "Ollama",
        r#"{"message":{"role":"assistant","content":"hi","tool_calls":null}}"#,
    )
    .unwrap();
    assert_eq!(reply.message.content.as_deref(), Some("hi"));
    assert!(reply.message.tool_calls.is_none());
    let reply = parse_chat_response(
        "Ollama",
        r#"{"model":"m","message":{"tool_calls":[{"function":{"name":"rust.run_coverage","arguments":{}}}]}}"#,
    )
    .unwrap();
    let calls = reply.message.tool_calls.unwrap();
    assert_eq!(calls.len(), 1);
    assert_eq!(calls[0].function.name, "rust.run_coverage");
    assert_eq!(reply.message.role, "assistant");
}

#[test]
fn unreadable_replies_are_errors() {
    match parse_chat_response("Ollama", "not json") {
        Err(AppError::OllamaParse { body, .. }) => assert_eq!(body, "not json"),
        other => panic!("unexpected {:?}", other),
    }
    for body in [
        r#"{"done":true}"#,
        r#"{"message":{"content":5}}"#,
        r#"{"message":{"tool_calls":{}}}"#,
        r#"{"message":{"tool_calls":[{"function":{"name":1,"arguments":{}}}]}}"#,
        r#"{"message":{"tool_calls":[{"function":{"name":"x"}}]}}"#,
        r#"{"message":{"role":7}}"#,
        r#"{"message":"hello"}"#,
    ] {
        match parse_chat_response("Ollama", body) {
            Err(AppError::InvalidOllamaResponse) => {}
            other => panic!("unexpected {:?} for {}", other, body),
        }
    }
    assert!(chat_response_from_json(&json(r#"{"message":{}}"#)).is_some());
}

#[test]
fn ollama_chat_endpoint() {
    let config = OllamaPlannerConfig::new("http://127.0.0.1:11434/".to_owned(), "m".to_owned());
    assert_eq!(config.chat_url(), "http://127.0.0.1:11434/api/chat");
    let config = OllamaPlannerConfig::new("http://host///".to_owned(), "m".to_owned());
    assert_eq!(config.chat_url(), "http://host/api/chat");
    let config = OllamaPlannerConfig::new(DEFAULT_OLLAMA_HOST.to_owned(), "m".to_owned());
    assert_eq!(config.chat_url(), "http://127.0.0.1:11434/api/chat");
    assert_eq!(config.model, "m");
}

#[test]
fn ollama_conversation() {
    let messages = chat_messages("remove containers");
    assert_eq!(messages.len(), 2);
    assert_eq!(messages[0].role, "system");
    assert_eq!(messages[0].content.as_deref(), Some(SYSTEM_PROMPT));
    assert_eq!(messages[1].role, "user");
    assert_eq!(messages[1].content.as_deref(), Some("remove containers"));
}

#[test]
fn command_line_request_and_model() {
    assert_eq!(cli(&["count", "rust", "loc"], None).prompt_text().as_deref(), Some("count rust loc"));
    assert_eq!(cli(&[], None).prompt_text(), None);
    assert_eq!(cli(&[], None).ollama_model(), DEFAULT_OLLAMA_MODEL);
    assert_eq!(cli(&[], Some("llama3")).ollama_model(), "llama3");
    assert_eq!(Backend::default(), Backend::Ollama);
    assert_eq!(ReasoningEffort::default(), ReasoningEffort::Medium);
    assert_eq!(ReasoningEffort::Minimal.as_str(), "minimal");
    assert_eq!(ReasoningEffort::High.as_str(), "high");
}

#[test]
fn codex_backend_keeps_its_configuration() {
    let config = CodexPlannerConfig {
        binary: "codex".to_owned(),
        cwd: "/repo".to_owned(),
        model: Some("gpt-5.4".to_owned()),
        effort: ReasoningEffort::High,
        network_access: true,
    };
    let backend = CodexPlannerBackend::new(config);
    assert_eq!(backend.config.cwd, "/repo");
    assert_eq!(backend.config.effort, ReasoningEffort::High);
}

#[test]
fn gap_log_location() {
    assert_eq!(
        GapStore::from_state_dirs(Some("/state".to_owned()), Some("/home/u".to_owned())).path,
        "/state/bbot/tooling-gaps.jsonl"
    );
    assert_eq!(
        GapStore::from_state_dirs(Some("/state/".to_owned()), None).path,
        "/state/bbot/tooling-gaps.jsonl"
    );
    assert_eq!(
        GapStore::from_state_dirs(None, Some("/home/u".to_owned())).path,
        "/home/u/.local/state/bbot/tooling-gaps.jsonl"
    );
    assert_eq!(
        GapStore::from_state_dirs(None, None).path,
        "./.local/state/bbot/tooling-gaps.jsonl"
    );
}

#[test]
fn paths_are_joined_and_split() {
    assert_eq!(join("a", "b"), "a/b");
    assert_eq!(join("a/", "b"), "a/b");
    assert_eq!(join("", "b"), "b");
    assert_eq!(join("/", "b"), "/b");
}

#[test]
fn numbers_as_text() {
    assert_eq!(u64_text(0), "0");
    assert_eq!(u64_text(1234567890), "1234567890");
    assert_eq!(u64_text(u64::MAX), "18446744073709551615");
    assert_eq!(i64_text(-32000), "-32000");
    assert_eq!(i64_text(i64::MIN), "-9223372036854775808");
    assert_eq!(i64_text(7), "7");
}

#[test]
fn text_helpers() {
    assert_eq!(trim_str(" \t a b \n"), "a b");
    assert_eq!(trim_str(""), "");
    assert!(str_eq("abc", "abc"));
    assert!(!str_eq("abc", "abd"));
    assert_eq!(join_strings(&vec!["a".to_owned(), "b".to_owned(), "c".to_owned()], ", "), "a, b, c");
    assert_eq!(join_strings(&vec![], ", "), "");
    assert_eq!(trim_start_char_str("///x/y", '/'), "x/y");
    assert_eq!(first_chars_str("héllo", 2), "hé");
}

#[test]
fn json_helpers() {
    let v = json(r#"{"a":"x","b":true,"list":["p",1,"q"]}"#);
    assert_eq!(string_field_or(&v, "a", "d"), "x");
    assert_eq!(string_field_or(&v, "b", "d"), "d");
    assert_eq!(string_field_or(&v, "z", "d"), "d");
    assert!(boolean_field_or(&v, "b", false));
    assert!(boolean_field_or(&v, "a", true));
    let list = v["list"].as_array().unwrap();
    assert_eq!(strings_of(list), vec!["p".to_owned(), "q".to_owned()]);
}

#[test]
fn json_fence_does_not_change_the_plan() {
    for reply in [
        r#"{"message":{"content":"hi"}}"#,
        r#"{"message":{"tool_calls":[{"function":{"name":"rust.run_coverage","arguments":{}}}]}}"#,
        "plain words",
    ] {
        let bare = parse_codex_output(reply).unwrap();
        let fenced = parse_codex_output(&format!("```json\n{}\n```", reply)).unwrap();
        assert_eq!(bare.message.role, fenced.message.role);
        assert_eq!(bare.message.content, fenced.message.content);
        assert_eq!(
            bare.message.tool_calls.map(|c| c.len()),
            fenced.message.tool_calls.map(|c| c.len())
        );
    }
}
