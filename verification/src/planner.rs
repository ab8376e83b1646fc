//! The planner protocol: the tool definitions offered to a planner model, the
//! chat messages sent to it, and the reply it gives back.
use crate::error::AppError;
use crate::json::{
    clone_value, entries_view, field, get, get_array, get_str, is_null, is_object, json_parse,
    json_view, map_of_entries, object, parse_json, string, values_view, JsonView,
};
use vstd::prelude::*;

verus! {

/// The instructions that every planner backend receives first.
pub const SYSTEM_PROMPT: &'static str = "You are B-Bot, the planner of a local command line assistant. You never run anything yourself. Read the user's request and, when exactly one of the provided tools clearly fits it, call that tool with typed arguments that follow its schema. If no provided tool can reliably do what the user asks, call no tool: reply in plain text, say which capability is missing, and, when it helps, name a tool that would cover it or an equivalent shell command.";

/// A tool as a planner sees it: `{"type": "function", "function": {...}}`.
#[derive(Debug)]
pub struct ToolDefinition {
    pub tool_type: String,
    pub function: ToolFunction,
}

/// The callable part of a tool definition: name, description and the JSON
/// schema of its arguments.
#[derive(Debug)]
pub struct ToolFunction {
    pub name: String,
    pub description: String,
    pub parameters: serde_json::Value,
}

pub struct ToolDefinitionView {
    pub tool_type: Seq<char>,
    pub name: Seq<char>,
    pub description: Seq<char>,
    pub parameters: JsonView,
}

impl View for ToolDefinition {
    type V = ToolDefinitionView;

    open spec fn view(&self) -> ToolDefinitionView {
        ToolDefinitionView {
            tool_type: self.tool_type@,
            name: self.function.name@,
            description: self.function.description@,
            parameters: json_view(self.function.parameters),
        }
    }
}

impl ToolDefinition {
    /// A function tool with the given name, description and argument schema.
    pub fn new(name: &str, description: &str, parameters: serde_json::Value) -> (r: Self)
        ensures
            r@.tool_type == "function"@,
            r@.name == name@,
            r@.description == description@,
            r@.parameters == json_view(parameters),
    {
        ToolDefinition {
            tool_type: "function".to_owned(),
            function: ToolFunction {
                name: name.to_owned(),
                description: description.to_owned(),
                parameters,
            },
        }
    }
}

/// One requested tool call: the tool's name and its JSON arguments.
#[derive(Debug)]
pub struct ToolCall {
    pub function: ToolCallFunction,
}

#[derive(Debug)]
pub struct ToolCallFunction {
    pub name: String,
    pub arguments: serde_json::Value,
}

pub struct ToolCallView {
    pub name: Seq<char>,
    pub arguments: JsonView,
}

impl View for ToolCall {
    type V = ToolCallView;

    open spec fn view(&self) -> ToolCallView {
        ToolCallView { name: self.function.name@, arguments: json_view(self.function.arguments) }
    }
}

/// A chat message: its role, its text, and the tool calls it asks for.
#[derive(Debug)]
pub struct Message {
    pub role: String,
    pub content: Option<String>,
    pub tool_calls: Option<Vec<ToolCall>>,
}

pub struct MessageView {
    pub role: Seq<char>,
    pub content: Option<Seq<char>>,
    pub tool_calls: Option<Seq<ToolCallView>>,
}

pub open spec fn calls_view(calls: Seq<ToolCall>) -> Seq<ToolCallView> {
    calls.map_values(|c: ToolCall| c@)
}

impl View for Message {
    type V = MessageView;

    open spec fn view(&self) -> MessageView {
        MessageView {
            role: self.role@,
            content: match self.content {
                Some(c) => Some(c@),
                None => None,
            },
            tool_calls: match self.tool_calls {
                Some(calls) => Some(calls_view(calls@)),
                None => None,
            },
        }
    }
}

/// A plain text message with the given role.
pub open spec fn text_message(role: Seq<char>, content: Seq<char>) -> MessageView {
    MessageView { role, content: Some(content), tool_calls: None }
}

impl Message {
    /// The system message that carries the planner instructions.
    pub fn system(content: &str) -> (r: Self)
        ensures
            r@ == text_message("system"@, content@),
    {
        Message { role: "system".to_owned(), content: Some(content.to_owned()), tool_calls: None }
    }

    /// A message written by the user.
    pub fn user(content: String) -> (r: Self)
        ensures
            r@ == text_message("user"@, content@),
    {
        Message { role: "user".to_owned(), content: Some(content), tool_calls: None }
    }

    /// A plain text answer of the assistant.
    pub fn assistant(content: String) -> (r: Self)
        ensures
            r@ == text_message("assistant"@, content@),
    {
        Message { role: "assistant".to_owned(), content: Some(content), tool_calls: None }
    }
}

/// A planner's reply: one assistant message.
#[derive(Debug)]
pub struct ChatResponse {
    pub message: Message,
}

impl View for ChatResponse {
    type V = MessageView;

    open spec fn view(&self) -> MessageView {
        self.message@
    }
}

/// A tool call as the reply encodes it: an object whose `function` object
/// holds a string `name` and any `arguments`.
pub open spec fn tool_call_of(j: JsonView) -> Option<ToolCallView> {
    match field(j, "function"@) {
        Some(f) => match (field(f, "name"@), field(f, "arguments"@)) {
            (Some(JsonView::Str(name)), Some(arguments)) => Some(ToolCallView { name, arguments }),
            _ => None,
        },
        None => None,
    }
}

/// The tool calls of an array: defined only where every item is one.
pub open spec fn tool_calls_of(items: Seq<JsonView>) -> Option<Seq<ToolCallView>> {
    if forall|i: int| 0 <= i < items.len() ==> (#[trigger] tool_call_of(items[i])) is Some {
        Some(Seq::new(items.len(), |i: int| tool_call_of(items[i])->0))
    } else {
        None
    }
}

/// A message object: `role` a string that defaults to `assistant`, `content`
/// an optional string, `tool_calls` an optional array of tool calls; absent
/// and `null` members both count as missing optional ones.
pub open spec fn message_of(j: JsonView) -> Option<MessageView> {
    let role = match field(j, "role"@) {
        None => Some("assistant"@),
        Some(JsonView::Str(r)) => Some(r),
        Some(_) => None,
    };
    let content = match field(j, "content"@) {
        None => Some(None),
        Some(JsonView::Null) => Some(None),
        Some(JsonView::Str(c)) => Some(Some(c)),
        Some(_) => None,
    };
    let tool_calls = match field(j, "tool_calls"@) {
        None => Some(None),
        Some(JsonView::Null) => Some(None),
        Some(JsonView::Array(items)) => match tool_calls_of(items) {
            Some(calls) => Some(Some(calls)),
            None => None,
        },
        Some(_) => None,
    };
    if j is Object && role is Some && content is Some && tool_calls is Some {
        Some(MessageView { role: role->0, content: content->0, tool_calls: tool_calls->0 })
    } else {
        None
    }
}

/// A chat reply: an object whose `message` member is a message.
pub open spec fn chat_response_of(j: JsonView) -> Option<MessageView> {
    match field(j, "message"@) {
        Some(m) => message_of(m),
        None => None,
    }
}

fn tool_call_from_json(v: &serde_json::Value) -> (r: Option<ToolCall>)
    ensures
        match r {
            Some(c) => tool_call_of(json_view(*v)) == Some(c@),
            None => tool_call_of(json_view(*v)) is None,
        },
{
    let function = match get(v, "function") {
        Some(f) => f,
        None => return None,
    };
    let name = match get(function, "name") {
        Some(n) => match get_str(n) {
            Some(s) => s,
            None => return None,
        },
        None => return None,
    };
    let arguments = match get(function, "arguments") {
        Some(a) => a,
        None => return None,
    };
    Some(
        ToolCall {
            function: ToolCallFunction { name: name.to_owned(), arguments: clone_value(arguments) },
        },
    )
}

fn tool_calls_from_json(items: &Vec<serde_json::Value>) -> (r: Option<Vec<ToolCall>>)
    ensures
        match r {
            Some(calls) => tool_calls_of(values_view(items@)) == Some(calls_view(calls@)),
            None => tool_calls_of(values_view(items@)) is None,
        },
{
    let ghost items_view = values_view(items@);
    let mut calls: Vec<ToolCall> = Vec::new();
    let mut i: usize = 0;
    while i < items.len()
        invariant
            i <= items.len(),
            items_view == values_view(items@),
            calls@.len() == i,
            forall|j: int| 0 <= j < i ==> (#[trigger] tool_call_of(items_view[j])) is Some,
            forall|j: int|
                0 <= j < i ==> tool_call_of(items_view[j]) == Some(#[trigger] calls@[j]@),
        decreases items.len() - i,
    {
        match tool_call_from_json(&items[i]) {
            Some(c) => calls.push(c),
            None => {
                assert(tool_call_of(items_view[i as int]) is None);
                return None;
            },
        }
        i = i + 1;
    }
    proof {
        assert(calls_view(calls@) =~= Seq::new(
            items_view.len(),
            |j: int| tool_call_of(items_view[j])->0,
        ));
    }
    Some(calls)
}

fn message_from_json(v: &serde_json::Value) -> (r: Option<Message>)
    ensures
        match r {
            Some(m) => message_of(json_view(*v)) == Some(m@),
            None => message_of(json_view(*v)) is None,
        },
{
    proof {
        reveal_strlit("assistant");
    }
    if !is_object(v) {
        return None;
    }
    let role = match get(v, "role") {
        None => "assistant".to_owned(),
        Some(r) => match get_str(r) {
            Some(s) => s.to_owned(),
            None => return None,
        },
    };
    let content = match get(v, "content") {
        None => None,
        Some(c) => if is_null(c) {
            None
        } else {
            match get_str(c) {
                Some(s) => Some(s.to_owned()),
                None => return None,
            }
        },
    };
    let tool_calls = match get(v, "tool_calls") {
        None => None,
        Some(t) => if is_null(t) {
            None
        } else {
            match get_array(t) {
                Some(items) => match tool_calls_from_json(items) {
                    Some(calls) => Some(calls),
                    None => return None,
                },
                None => return None,
            }
        },
    };
    Some(Message { role, content, tool_calls })
}

/// The reply that a parsed planner answer encodes; `None` where the JSON
/// value is not of the shape of a chat reply.
pub fn chat_response_from_json(v: &serde_json::Value) -> (r: Option<ChatResponse>)
    ensures
        match r {
            Some(c) => chat_response_of(json_view(*v)) == Some(c@),
            None => chat_response_of(json_view(*v)) is None,
        },
{
    match get(v, "message") {
        Some(m) => match message_from_json(m) {
            Some(message) => Some(ChatResponse { message }),
            None => None,
        },
        None => None,
    }
}

/// The reply that a planner's answer text encodes.
pub open spec fn chat_reply(body: Seq<char>) -> Option<MessageView> {
    match json_parse(body) {
        Some(j) => chat_response_of(j),
        None => None,
    }
}

/// Reads a planner's answer: a text that is no JSON is `OllamaParse`, which
/// carries the text; JSON of another shape is `InvalidOllamaResponse`. The
/// backend's name is taken for its callers' sake; neither error names it.
pub fn parse_chat_response(_backend: &str, body: &str) -> (r: Result<ChatResponse, AppError>)
    ensures
        body@.len() == 0 ==> (r matches Err(AppError::OllamaParse { .. })),
        json_parse(body@) is None ==> (r matches Err(AppError::OllamaParse { body: b, .. }) && b@
            == body@),
        json_parse(body@) matches Some(j) ==> match chat_response_of(j) {
            Some(m) => (r matches Ok(c) && c@ == m),
            None => (r matches Err(AppError::InvalidOllamaResponse)),
        },
{
    match parse_json(body) {
        Err(source) => Err(AppError::OllamaParse { source, body: body.to_owned() }),
        Ok(v) => match chat_response_from_json(&v) {
            Some(c) => Ok(c),
            None => Err(AppError::InvalidOllamaResponse),
        },
    }
}

} // verus!
