//! The Codex planner backend: its configuration, the prompt it is given, how
//! its answer is read, and the wire names of the Codex app-server protocol.
use crate::error::AppError;
use crate::planner::{
    chat_reply, parse_chat_response, text_message, ChatResponse, Message, SYSTEM_PROMPT,
};
use crate::text::{
    lemma_trim_idempotent, lemma_trimmed_ends, chars_of, ends_with, ends_with_at, starts_with, starts_with_at, sub_string, trim,
    trim_bounds, trim_end, trim_start, trim_start_matches, trim_start_matches_at, trim_str,
};
use vstd::prelude::*;

verus! {

/// How much reasoning the Codex model spends on a plan.
#[derive(Debug, Clone, Copy, PartialEq, Eq, Structural)]
pub enum ReasoningEffort {
    Minimal,
    Low,
    Medium,
    High,
}

impl ReasoningEffort {
    pub open spec fn wire(self) -> Seq<char> {
        match self {
            ReasoningEffort::Minimal => "minimal"@,
            ReasoningEffort::Low => "low"@,
            ReasoningEffort::Medium => "medium"@,
            ReasoningEffort::High => "high"@,
        }
    }

    /// The name Codex knows the effort by.
    pub fn as_str(&self) -> (r: &'static str)
        ensures
            r@ == self.wire(),
    {
        match self {
            ReasoningEffort::Minimal => "minimal",
            ReasoningEffort::Low => "low",
            ReasoningEffort::Medium => "medium",
            ReasoningEffort::High => "high",
        }
    }
}

impl Default for ReasoningEffort {
    fn default() -> (r: Self)
        ensures
            r == ReasoningEffort::Medium,
    {
        ReasoningEffort::Medium
    }
}

/// How the Codex planner is started: the binary, the working directory it
/// plans in, an optional model, the reasoning effort, and whether its sandbox
/// may reach the network.
#[derive(Debug, Clone)]
pub struct CodexPlannerConfig {
    pub binary: String,
    pub cwd: String,
    pub model: Option<String>,
    pub effort: ReasoningEffort,
    pub network_access: bool,
}

/// The Codex planner backend.
#[derive(Debug)]
pub struct CodexPlannerBackend {
    pub config: CodexPlannerConfig,
}

impl CodexPlannerBackend {
    /// A backend that plans with the given configuration.
    pub fn new(config: CodexPlannerConfig) -> (r: Self)
        ensures
            r.config == config,
    {
        CodexPlannerBackend { config }
    }
}

/// The rules that the Codex prompt adds to the shared planner instructions,
/// up to the list of tools.
pub open spec fn codex_rules() -> Seq<char> {
    "\n\nAdditional Codex planner rules:\n- Do not run shell commands.\n- Do not edit files.\n- Do not inspect the repository.\n- Do not browse the web.\n- Decide only from the user request and the provided tool definitions.\n- Return exactly one JSON object and nothing else.\n- The JSON must have the shape {\"message\": {\"content\": string | null, \"tool_calls\": array | null}}.\n- Set exactly one of `message.content` or `message.tool_calls`.\n- If `message.tool_calls` is set, it must contain exactly one tool call with the shape {\"type\": \"function\", \"function\": {\"name\": string, \"arguments\": object}}.\n- Do not wrap the JSON in markdown fences.\n\nAvailable tools:\n"@
}

/// The whole Codex prompt for a request, given the tool definitions as the
/// indented JSON text they are listed in.
pub open spec fn codex_prompt(prompt: Seq<char>, tools_json: Seq<char>) -> Seq<char> {
    SYSTEM_PROMPT@ + codex_rules() + tools_json + "\n\nUser request:\n"@ + prompt
}

/// The prompt that asks Codex for a plan: the planner instructions, the
/// Codex rules, the tool definitions, then the request. `tools_json` is the
/// list of tool definitions as `serde_json::to_string_pretty` writes them
/// from their serialised form, which the caller makes.
pub fn build_planner_prompt(prompt: &str, tools_json: &str) -> (r: String)
    ensures
        r@ == codex_prompt(prompt@, tools_json@),
{
    let mut r = SYSTEM_PROMPT.to_owned();
    r.append("\n\nAdditional Codex planner rules:\n- Do not run shell commands.\n- Do not edit files.\n- Do not inspect the repository.\n- Do not browse the web.\n- Decide only from the user request and the provided tool definitions.\n- Return exactly one JSON object and nothing else.\n- The JSON must have the shape {\"message\": {\"content\": string | null, \"tool_calls\": array | null}}.\n- Set exactly one of `message.content` or `message.tool_calls`.\n- If `message.tool_calls` is set, it must contain exactly one tool call with the shape {\"type\": \"function\", \"function\": {\"name\": string, \"arguments\": object}}.\n- Do not wrap the JSON in markdown fences.\n\nAvailable tools:\n");
    r.append(tools_json);
    r.append("\n\nUser request:\n");
    r.append(prompt);
    r
}

/// A planner answer with its markdown code fence removed: the trimmed text,
/// and where it opens with three backquotes, the text between an opening
/// fence (with an optional `json`/`JSON` tag) and a closing fence, trimmed.
/// Without a closing fence the trimmed text stands.
pub open spec fn strip_fences(output: Seq<char>) -> Seq<char> {
    let trimmed = trim(output);
    if !starts_with(trimmed, "```"@) {
        trimmed
    } else {
        let without_prefix = trim_start_matches(
            trim_start_matches(trim_start_matches(trimmed, "```json"@), "```JSON"@),
            "```"@,
        );
        let inner = trim(without_prefix);
        if ends_with(inner, "```"@) {
            trim(inner.subrange(0, inner.len() - 3))
        } else {
            trimmed
        }
    }
}

/// Removes a markdown code fence around a planner answer.
pub fn strip_markdown_fences(output: &str) -> (r: String)
    ensures
        r@ == strip_fences(output@),
{
    proof {
        reveal_strlit("```");
        reveal_strlit("```json");
        reveal_strlit("```JSON");
    }
    let cs = chars_of(output);
    let fence = chars_of("```");
    let (lo, hi) = trim_bounds(&cs, 0, cs.len());
    let ghost trimmed = cs@.subrange(lo as int, hi as int);
    assert(cs@.subrange(0, cs@.len() as int) =~= cs@);
    if !starts_with_at(&cs, lo, hi, &fence) {
        return sub_string(&cs, lo, hi);
    }
    let a = trim_start_matches_at(&cs, lo, hi, &chars_of("```json"));
    let b = trim_start_matches_at(&cs, a, hi, &chars_of("```JSON"));
    let c = trim_start_matches_at(&cs, b, hi, &fence);
    let (ilo, ihi) = trim_bounds(&cs, c, hi);
    if ends_with_at(&cs, ilo, ihi, &fence) {
        let (flo, fhi) = trim_bounds(&cs, ilo, ihi - 3);
        proof {
            let inner = cs@.subrange(ilo as int, ihi as int);
            assert(inner.subrange(0, inner.len() - 3) =~= cs@.subrange(ilo as int, ihi - 3));
        }
        sub_string(&cs, flo, fhi)
    } else {
        sub_string(&cs, lo, hi)
    }
}

/// What reading a Codex answer gives: `None` for an error.
pub open spec fn codex_reply(output: Seq<char>) -> Option<crate::planner::MessageView> {
    let normalized = trim(strip_fences(output));
    if normalized.len() == 0 {
        None
    } else {
        match chat_reply(normalized) {
            Some(m) => Some(m),
            None => Some(text_message("assistant"@, normalized)),
        }
    }
}

/// Reads Codex's final answer: a fenced or bare chat reply is parsed as one;
/// any other non-empty text becomes a plain assistant message; an empty
/// answer is an error.
pub fn parse_codex_output(output: &str) -> (r: Result<ChatResponse, AppError>)
    ensures
        match codex_reply(output@) {
            Some(m) => (r matches Ok(c) && c@ == m),
            None => (r matches Err(AppError::OllamaParse { body, .. }) && body@.len() == 0),
        },
{
    let stripped = strip_markdown_fences(output);
    let normalized = trim_str(stripped.as_str());
    if normalized.as_str().is_empty() {
        return parse_chat_response("Codex", normalized.as_str());
    }
    match parse_chat_response("Codex", normalized.as_str()) {
        Ok(response) => Ok(response),
        Err(_) => Ok(ChatResponse { message: Message::assistant(normalized) }),
    }
}

/// An answer with its fence removed has no whitespace at either end.
pub proof fn lemma_strip_fences_trimmed(output: Seq<char>)
    ensures
        trim(strip_fences(output)) == strip_fences(output),
{
    let trimmed = trim(output);
    lemma_trim_idempotent(output);
    if starts_with(trimmed, "```"@) {
        let without_prefix = trim_start_matches(
            trim_start_matches(trim_start_matches(trimmed, "```json"@), "```JSON"@),
            "```"@,
        );
        let inner = trim(without_prefix);
        if ends_with(inner, "```"@) {
            lemma_trim_idempotent(inner.subrange(0, inner.len() - 3));
        }
    }
}

/// Every Codex answer that is not blank once its fence is removed is read:
/// as the chat reply it encodes, or else as a plain assistant message
/// holding the answer text. Only a blank answer is an error.
pub proof fn lemma_codex_answer_read(output: Seq<char>)
    ensures
        codex_reply(output) is Some <==> strip_fences(output).len() > 0,
        strip_fences(output).len() > 0 && chat_reply(strip_fences(output)) is None ==> codex_reply(
            output,
        ) == Some(text_message("assistant"@, strip_fences(output))),
{
    lemma_strip_fences_trimmed(output);
}

/// A `json` code fence around a non-empty, trimmed answer that opens with no
/// fence of its own changes nothing: the fenced answer is read as the bare
/// one.
pub proof fn lemma_json_fence_transparent(s: Seq<char>)
    requires
        s.len() > 0,
        trim(s) == s,
        !starts_with(s, "```"@),
    ensures
        strip_fences("```json\n"@ + s + "\n```"@) == s,
        codex_reply("```json\n"@ + s + "\n```"@) == codex_reply(s),
{
    reveal_strlit("```json\n");
    reveal_strlit("\n```");
    reveal_strlit("```");
    reveal_strlit("```json");
    reveal_strlit("```JSON");
    lemma_trimmed_ends(s);
    let open_fence = "```json\n"@;
    let close_fence = "\n```"@;
    let f = open_fence + s + close_fence;
    let n = f.len();
    assert(trim_start(f) == f);
    assert(trim_end(f) == f);
    assert(f.subrange(0, 3) =~= "```"@);
    assert(f.subrange(0, 7) =~= "```json"@);
    let g = f.subrange(7, n as int);
    assert(g =~= seq!['\n'] + s + close_fence);
    assert(!starts_with(g, "```json"@)) by {
        if g.len() >= 7 {
            assert(g.subrange(0, 7)[0] == g[0]);
        }
    }
    assert(!starts_with(g, "```JSON"@)) by {
        if g.len() >= 7 {
            assert(g.subrange(0, 7)[0] == g[0]);
        }
    }
    assert(!starts_with(g, "```"@)) by {
        assert(g.subrange(0, 3)[0] == g[0]);
    }
    assert(trim_start_matches(g, "```json"@) == g);
    assert(trim_start_matches(f, "```json"@) == g);
    assert(trim_start_matches(g, "```JSON"@) == g);
    assert(trim_start_matches(g, "```"@) == g);
    let h = s + close_fence;
    assert(g.drop_first() =~= h);
    assert(trim_start(h) == h);
    assert(trim_start(g) == h);
    assert(h.last() == '`');
    assert(trim_end(h) == h);
    let m = h.len();
    assert(h.subrange(m - 3, m as int) =~= "```"@);
    let k = h.subrange(0, m - 3);
    assert(k =~= s + seq!['\n']);
    assert(trim_start(k) == k);
    assert(k.drop_last() =~= s);
    assert(trim_end(k) == s);
}

} // verus!
