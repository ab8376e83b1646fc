//! The tool registry: the tools B-Bot can run, the definitions a planner is
//! shown, and what a tool's preview and run report.
use crate::error::AppError;
use crate::json::{
    array, boolean, deserialize_opt_string, entries_view, field, field_or_null, get, get_array,
    is_object, json_view, length_error, map_of_entries, object, string, value_type_error,
    values_view, JsonView,
};
use crate::planner::{ToolDefinition, ToolDefinitionView};
use crate::text::str_eq;
use vstd::prelude::*;

pub mod coverage;
pub mod docker;
pub mod loc;

verus! {

/// What running a tool printed.
#[derive(Debug)]
pub struct ToolExecutionOutcome {
    pub display: String,
}

/// What a tool would do, before it runs: a text to show, whether there is
/// nothing to do, and whether the user must confirm.
#[derive(Debug)]
pub struct ToolPreview {
    pub display: Option<String>,
    pub is_noop: bool,
    pub requires_confirmation: bool,
}

pub const DOCKER_TOOL_NAME: &'static str = "docker.remove_all_running_containers";

pub const DOCKER_TOOL_DESCRIPTION: &'static str = "Stop and remove every currently running Docker container. Use this only when the user wants running containers deleted or removed, not when they only want containers stopped.";

pub const DOCKER_STOP_TIMEOUT_DESCRIPTION: &'static str = "Grace period in seconds before Docker force-stops a container. Default to 10 unless the user asks for a different timeout.";

pub const DOCKER_VOLUMES_DESCRIPTION: &'static str = "Set true only if the user explicitly asks to remove anonymous volumes too. Default false.";

pub const LOC_TOOL_NAME: &'static str = "rust.count_lines_of_code";

pub const LOC_TOOL_DESCRIPTION: &'static str = "Count Rust source files and Rust lines of code in a repository or directory using the embedded tokei library. Use this for requests about lines of code, code size, Rust file counts, comments, blanks, or total Rust LOC.";

pub const LOC_PATH_DESCRIPTION: &'static str = "Repository or directory path to analyze. Use '.' for the current working directory when the user refers to this repo or does not specify a path.";

pub const COVERAGE_TOOL_NAME: &'static str = "rust.run_coverage";

pub const COVERAGE_TOOL_DESCRIPTION: &'static str = "Run Rust test coverage for a repository or crate using the embedded Tarpaulin library with the ptrace engine on Linux x86_64. Use this for requests about coverage, line coverage, uncovered code, or running Tarpaulin.";

pub const COVERAGE_PATH_DESCRIPTION: &'static str = "Repository directory or Cargo.toml path to analyze. Use '.' for the current working directory when the user refers to this repo or does not specify a path.";

/// A schema property of the given type and description.
pub open spec fn property_json(ty: Seq<char>, description: Seq<char>) -> JsonView {
    JsonView::Object(map!["type"@ => JsonView::Str(ty), "description"@ => JsonView::Str(description)])
}

/// The argument schema of the Docker tool: an integer stop timeout and a
/// boolean for anonymous volumes, both required, nothing else.
pub open spec fn docker_schema() -> JsonView {
    JsonView::Object(
        map![
            "type"@ => JsonView::Str("object"@),
            "additionalProperties"@ => JsonView::Bool(false),
            "properties"@ => JsonView::Object(
                map![
                    "stop_timeout_secs"@ => property_json("integer"@, DOCKER_STOP_TIMEOUT_DESCRIPTION@),
                    "remove_anonymous_volumes"@ => property_json("boolean"@, DOCKER_VOLUMES_DESCRIPTION@),
                ],
            ),
            "required"@ => JsonView::Array(
                seq![JsonView::Str("stop_timeout_secs"@), JsonView::Str("remove_anonymous_volumes"@)],
            ),
        ],
    )
}

/// An argument schema with one optional string `path` and nothing else.
pub open spec fn path_schema(description: Seq<char>) -> JsonView {
    JsonView::Object(
        map![
            "type"@ => JsonView::Str("object"@),
            "additionalProperties"@ => JsonView::Bool(false),
            "properties"@ => JsonView::Object(map!["path"@ => property_json("string"@, description)]),
        ],
    )
}

fn property(ty: &str, description: &str) -> (r: serde_json::Value)
    ensures
        json_view(r) == property_json(ty@, description@),
{
    let mut e: Vec<(String, serde_json::Value)> = Vec::new();
    e.push(("type".to_owned(), string(ty.to_owned())));
    e.push(("description".to_owned(), string(description.to_owned())));
    proof {
        reveal_with_fuel(map_of_entries, 3);
        reveal_strlit("type");
        reveal_strlit("description");
        assert(map_of_entries(entries_view(e@)) =~= map![
            "type"@ => JsonView::Str(ty@),
            "description"@ => JsonView::Str(description@),
        ]);
    }
    object(e)
}

fn object_schema(properties: serde_json::Value) -> (r: Vec<(String, serde_json::Value)>)
    ensures
        r@.len() == 3,
        entries_view(r@) == seq![
            ("type"@, JsonView::Str("object"@)),
            ("additionalProperties"@, JsonView::Bool(false)),
            ("properties"@, json_view(properties)),
        ],
{
    let ghost p = json_view(properties);
    let mut e: Vec<(String, serde_json::Value)> = Vec::new();
    e.push(("type".to_owned(), string("object".to_owned())));
    e.push(("additionalProperties".to_owned(), boolean(false)));
    e.push(("properties".to_owned(), properties));
    assert(entries_view(e@) =~= seq![
        ("type"@, JsonView::Str("object"@)),
        ("additionalProperties"@, JsonView::Bool(false)),
        ("properties"@, p),
    ]);
    e
}

fn path_parameters(description: &str) -> (r: serde_json::Value)
    ensures
        json_view(r) == path_schema(description@),
{
    let path = property("string", description);
    let ghost pv = json_view(path);
    let mut props: Vec<(String, serde_json::Value)> = Vec::new();
    props.push(("path".to_owned(), path));
    proof {
        reveal_with_fuel(map_of_entries, 2);
        assert(map_of_entries(entries_view(props@)) =~= map!["path"@ => pv]);
    }
    let props = object(props);
    let e = object_schema(props);
    proof {
        reveal_with_fuel(map_of_entries, 4);
        reveal_strlit("type");
        reveal_strlit("additionalProperties");
        reveal_strlit("properties");
        assert(map_of_entries(entries_view(e@)) =~= map![
            "type"@ => JsonView::Str("object"@),
            "additionalProperties"@ => JsonView::Bool(false),
            "properties"@ => JsonView::Object(map!["path"@ => property_json("string"@, description@)]),
        ]);
    }
    object(e)
}

/// The definition of `docker.remove_all_running_containers`.
pub fn docker_remove_all_tool_definition() -> (r: ToolDefinition)
    ensures
        r@ == (ToolDefinitionView {
            tool_type: "function"@,
            name: DOCKER_TOOL_NAME@,
            description: DOCKER_TOOL_DESCRIPTION@,
            parameters: docker_schema(),
        }),
{
    let timeout = property("integer", DOCKER_STOP_TIMEOUT_DESCRIPTION);
    let ghost tv = json_view(timeout);
    let volumes = property("boolean", DOCKER_VOLUMES_DESCRIPTION);
    let ghost vv = json_view(volumes);
    let mut props: Vec<(String, serde_json::Value)> = Vec::new();
    props.push(("stop_timeout_secs".to_owned(), timeout));
    props.push(("remove_anonymous_volumes".to_owned(), volumes));
    proof {
        reveal_with_fuel(map_of_entries, 3);
        reveal_strlit("stop_timeout_secs");
        reveal_strlit("remove_anonymous_volumes");
        assert(map_of_entries(entries_view(props@)) =~= map![
            "stop_timeout_secs"@ => tv,
            "remove_anonymous_volumes"@ => vv,
        ]);
    }
    let props = object(props);
    let mut required: Vec<serde_json::Value> = Vec::new();
    required.push(string("stop_timeout_secs".to_owned()));
    required.push(string("remove_anonymous_volumes".to_owned()));
    proof {
        assert(values_view(required@) =~= seq![
            JsonView::Str("stop_timeout_secs"@),
            JsonView::Str("remove_anonymous_volumes"@),
        ]);
    }
    let required = array(required);
    let ghost rv = json_view(required);
    let ghost pv = json_view(props);
    let mut e = object_schema(props);
    let ghost before = entries_view(e@);
    let ghost old_e = e@;
    e.push(("required".to_owned(), required));
    proof {
        assert(e@.len() == 4);
        assert(forall|i: int| 0 <= i < 3 ==> e@[i] == old_e[i]);
        assert(entries_view(e@)[0] == before[0]);
        assert(entries_view(e@)[1] == before[1]);
        assert(entries_view(e@)[2] == before[2]);
        assert(entries_view(e@)[3] == ("required"@, rv));
        assert(entries_view(e@) =~= seq![
            ("type"@, JsonView::Str("object"@)),
            ("additionalProperties"@, JsonView::Bool(false)),
            ("properties"@, pv),
            ("required"@, rv),
        ]);
        reveal_with_fuel(map_of_entries, 5);
        reveal_strlit("type");
        reveal_strlit("additionalProperties");
        reveal_strlit("properties");
        reveal_strlit("required");
        assert(map_of_entries(entries_view(e@)) =~= map![
            "type"@ => JsonView::Str("object"@),
            "additionalProperties"@ => JsonView::Bool(false),
            "properties"@ => JsonView::Object(
                map![
                    "stop_timeout_secs"@ => property_json("integer"@, DOCKER_STOP_TIMEOUT_DESCRIPTION@),
                    "remove_anonymous_volumes"@ => property_json("boolean"@, DOCKER_VOLUMES_DESCRIPTION@),
                ],
            ),
            "required"@ => rv,
        ]);
    }
    let parameters = object(e);
    ToolDefinition::new(DOCKER_TOOL_NAME, DOCKER_TOOL_DESCRIPTION, parameters)
}

/// The definition of `rust.count_lines_of_code`.
pub fn rust_count_lines_of_code_tool_definition() -> (r: ToolDefinition)
    ensures
        r@ == (ToolDefinitionView {
            tool_type: "function"@,
            name: LOC_TOOL_NAME@,
            description: LOC_TOOL_DESCRIPTION@,
            parameters: path_schema(LOC_PATH_DESCRIPTION@),
        }),
{
    ToolDefinition::new(LOC_TOOL_NAME, LOC_TOOL_DESCRIPTION, path_parameters(LOC_PATH_DESCRIPTION))
}

/// The definition of `rust.run_coverage`.
pub fn rust_run_coverage_tool_definition() -> (r: ToolDefinition)
    ensures
        r@ == (ToolDefinitionView {
            tool_type: "function"@,
            name: COVERAGE_TOOL_NAME@,
            description: COVERAGE_TOOL_DESCRIPTION@,
            parameters: path_schema(COVERAGE_PATH_DESCRIPTION@),
        }),
{
    ToolDefinition::new(
        COVERAGE_TOOL_NAME,
        COVERAGE_TOOL_DESCRIPTION,
        path_parameters(COVERAGE_PATH_DESCRIPTION),
    )
}

/// The tools B-Bot can run.
#[derive(Debug, Clone, Copy, PartialEq, Eq, Structural)]
pub enum ToolKind {
    DockerRemoveAllRunningContainers,
    RustCountLinesOfCode,
    RustRunCoverage,
}

impl ToolKind {
    /// The stable name of the tool.
    pub open spec fn tool_name(self) -> Seq<char> {
        match self {
            ToolKind::DockerRemoveAllRunningContainers => DOCKER_TOOL_NAME@,
            ToolKind::RustCountLinesOfCode => LOC_TOOL_NAME@,
            ToolKind::RustRunCoverage => COVERAGE_TOOL_NAME@,
        }
    }

    /// The definition a planner is shown for the tool.
    pub open spec fn definition_view(self) -> ToolDefinitionView {
        match self {
            ToolKind::DockerRemoveAllRunningContainers => ToolDefinitionView {
                tool_type: "function"@,
                name: DOCKER_TOOL_NAME@,
                description: DOCKER_TOOL_DESCRIPTION@,
                parameters: docker_schema(),
            },
            ToolKind::RustCountLinesOfCode => ToolDefinitionView {
                tool_type: "function"@,
                name: LOC_TOOL_NAME@,
                description: LOC_TOOL_DESCRIPTION@,
                parameters: path_schema(LOC_PATH_DESCRIPTION@),
            },
            ToolKind::RustRunCoverage => ToolDefinitionView {
                tool_type: "function"@,
                name: COVERAGE_TOOL_NAME@,
                description: COVERAGE_TOOL_DESCRIPTION@,
                parameters: path_schema(COVERAGE_PATH_DESCRIPTION@),
            },
        }
    }

    pub fn name(&self) -> (r: &'static str)
        ensures
            r@ == self.tool_name(),
    {
        match self {
            ToolKind::DockerRemoveAllRunningContainers => DOCKER_TOOL_NAME,
            ToolKind::RustCountLinesOfCode => LOC_TOOL_NAME,
            ToolKind::RustRunCoverage => COVERAGE_TOOL_NAME,
        }
    }

    pub fn definition(&self) -> (r: ToolDefinition)
        ensures
            r@ == self.definition_view(),
    {
        match self {
            ToolKind::DockerRemoveAllRunningContainers => docker_remove_all_tool_definition(),
            ToolKind::RustCountLinesOfCode => rust_count_lines_of_code_tool_definition(),
            ToolKind::RustRunCoverage => rust_run_coverage_tool_definition(),
        }
    }
}

/// The registry: the tools a plan may name. It is B-Bot's capability
/// boundary: a plan that names another tool is refused.
#[derive(Debug)]
pub struct ToolRegistry {
    pub tools: Vec<ToolKind>,
}

impl ToolRegistry {
    /// The registry of the three built-in tools.
    pub fn with_defaults() -> (r: Self)
        ensures
            r.tools@ == seq![
                ToolKind::DockerRemoveAllRunningContainers,
                ToolKind::RustCountLinesOfCode,
                ToolKind::RustRunCoverage,
            ],
    {
        let mut tools: Vec<ToolKind> = Vec::new();
        tools.push(ToolKind::DockerRemoveAllRunningContainers);
        tools.push(ToolKind::RustCountLinesOfCode);
        tools.push(ToolKind::RustRunCoverage);
        ToolRegistry { tools }
    }

    /// The definitions of the registered tools, in registry order.
    pub fn specs(&self) -> (r: Vec<ToolDefinition>)
        ensures
            r@.len() == self.tools@.len(),
            forall|i: int| 0 <= i < r@.len() ==> (#[trigger] r@[i])@ == self.tools@[i].definition_view(),
    {
        let mut out: Vec<ToolDefinition> = Vec::new();
        let mut i: usize = 0;
        while i < self.tools.len()
            invariant
                i <= self.tools@.len(),
                out@.len() == i,
                forall|j: int| 0 <= j < i ==> (#[trigger] out@[j])@ == self.tools@[j].definition_view(),
            decreases self.tools@.len() - i,
        {
            out.push(self.tools[i].definition());
            i = i + 1;
        }
        out
    }

    /// The registered tool a planner names, or `UnknownTool` where the
    /// registry holds no tool of that name.
    pub fn lookup(&self, tool_name: &str) -> (r: Result<ToolKind, AppError>)
        ensures
            match r {
                Ok(k) => k.tool_name() == tool_name@ && exists|i: int|
                    0 <= i < self.tools@.len() && #[trigger] self.tools@[i] == k && forall|j: int|
                        0 <= j < i ==> (#[trigger] self.tools@[j]).tool_name() != tool_name@,
                Err(e) => (e matches AppError::UnknownTool(n) && n@ == tool_name@) && forall|i: int|
                    0 <= i < self.tools@.len() ==> (#[trigger] self.tools@[i]).tool_name() != tool_name@,
            },
    {
        let mut i: usize = 0;
        while i < self.tools.len()
            invariant
                i <= self.tools@.len(),
                forall|j: int| 0 <= j < i ==> (#[trigger] self.tools@[j]).tool_name() != tool_name@,
            decreases self.tools@.len() - i,
        {
            let kind = self.tools[i];
            if str_eq(kind.name(), tool_name) {
                assert(self.tools@[i as int] == kind);
                return Ok(kind);
            }
            i = i + 1;
        }
        Err(AppError::UnknownTool(tool_name.to_owned()))
    }
}

/// Whether the arguments of a tool with one optional `path` are accepted, as
/// the derived `Deserialize` of such arguments reads them: an object by its
/// `path` member (others are ignored), an array holding exactly the path; a
/// path is a string, or `null` for none.
pub open spec fn path_args_accepted(j: JsonView) -> bool {
    match j {
        JsonView::Object(_) => match field(j, "path"@) {
            Some(v) => path_value_ok(v),
            None => true,
        },
        JsonView::Array(items) => items.len() == 1 && path_value_ok(items[0]),
        _ => false,
    }
}

/// Whether a value can be a `path`: a string, or `null` for none.
pub open spec fn path_value_ok(v: JsonView) -> bool {
    v is Null || v is Str
}

/// The path accepted arguments name: `.` where they name none.
pub open spec fn path_arg(j: JsonView) -> Seq<char> {
    let given = match j {
        JsonView::Array(items) => items[0],
        _ => field_or_null(j, "path"@),
    };
    match given {
        JsonView::Str(s) => s,
        _ => "."@,
    }
}

fn path_invalid(tool: &str, source: serde_json::Error) -> (r: AppError)
    ensures
        r matches AppError::InvalidToolArguments { tool: t, .. } && t@ == tool@,
{
    AppError::InvalidToolArguments { tool: tool.to_owned(), source }
}

fn path_value(tool: &str, v: &serde_json::Value) -> (r: Result<String, AppError>)
    ensures
        path_value_ok(json_view(*v)) ==> (r matches Ok(p) && p@ == match json_view(*v) {
            JsonView::Str(s) => s,
            _ => "."@,
        }),
        !path_value_ok(json_view(*v)) ==> (r matches Err(AppError::InvalidToolArguments {
            tool: t,
            ..
        }) && t@ == tool@),
{
    match deserialize_opt_string(v) {
        Ok(Some(p)) => Ok(p),
        Ok(None) => Ok(".".to_owned()),
        Err(source) => Err(path_invalid(tool, source)),
    }
}

/// Reads the optional `path` argument of the tool `tool`, `.` by default,
/// for arguments that serde would read into the struct `args_struct`. A
/// refusal carries the error serde_json reports: for arguments that are
/// neither an object nor an array, for an empty array, for a path that is
/// neither a string nor `null`, or for an array with more than one item.
pub fn path_argument(tool: &str, args_struct: &str, arguments: &serde_json::Value) -> (r: Result<
    String,
    AppError,
>)
    ensures
        path_args_accepted(json_view(*arguments)) ==> (r matches Ok(p) && p@ == path_arg(
            json_view(*arguments),
        )),
        !path_args_accepted(json_view(*arguments)) ==> (r matches Err(
            AppError::InvalidToolArguments { tool: t, .. },
        ) && t@ == tool@),
{
    let mut expected = "struct ".to_owned();
    expected.append(args_struct);
    if let Some(items) = get_array(arguments) {
        if items.len() == 0 {
            expected.append(" with 1 element");
            return Err(path_invalid(tool, length_error(0, expected.as_str())));
        }
        let path = path_value(tool, &items[0]);
        if path.is_ok() && items.len() > 1 {
            return Err(path_invalid(tool, length_error(items.len(), "fewer elements in array")));
        }
        return path;
    }
    if !is_object(arguments) {
        return Err(path_invalid(tool, value_type_error(arguments, expected.as_str())));
    }
    match get(arguments, "path") {
        None => Ok(".".to_owned()),
        Some(v) => path_value(tool, v),
    }
}

/// The error for a path that does not exist.
pub open spec fn missing_path_message(path: Seq<char>) -> Seq<char> {
    "path does not exist: "@ + path
}

/// Refuses a path that does not exist.
pub fn require_existing(path: &str, exists: bool) -> (r: Result<(), AppError>)
    ensures
        exists ==> r is Ok,
        !exists ==> (r matches Err(AppError::Message(m)) && m@ == missing_path_message(path@)),
{
    if exists {
        Ok(())
    } else {
        let mut m = "path does not exist: ".to_owned();
        m.append(path);
        Err(AppError::Message(m))
    }
}

} // verus!
