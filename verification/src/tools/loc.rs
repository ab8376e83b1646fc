//! `rust.count_lines_of_code`: counts Rust files and lines under a path. The
//! counting itself is tokei's, done by the caller; this module reads the
//! tool's argument and says what the preview and the result show.
use crate::error::AppError;
use crate::planner::{ToolDefinition, ToolDefinitionView};
use crate::text::{decimal, u64_text};
use crate::tools::{
    path_arg, path_args_accepted, path_argument, path_schema, rust_count_lines_of_code_tool_definition,
    ToolExecutionOutcome, ToolPreview, LOC_PATH_DESCRIPTION, LOC_TOOL_DESCRIPTION, LOC_TOOL_NAME,
};
use vstd::prelude::*;

verus! {

/// The Rust totals under a path.
#[derive(Debug)]
pub struct RustLocStats {
    pub path: String,
    pub files: usize,
    pub lines: usize,
    pub code: usize,
    pub comments: usize,
    pub blanks: usize,
}

impl RustLocStats {
    /// The totals of a path that holds no Rust source.
    pub fn empty(path: String) -> (r: Self)
        ensures
            r.path@ == path@,
            r.files == 0 && r.lines == 0 && r.code == 0 && r.comments == 0 && r.blanks == 0,
    {
        RustLocStats { path, files: 0, lines: 0, code: 0, comments: 0, blanks: 0 }
    }
}

/// The report of a count: a notice where no Rust file was found, else the
/// five totals.
pub open spec fn loc_report(s: RustLocStats) -> Seq<char> {
    if s.files == 0 {
        "No Rust source files found under "@ + s.path@ + "."@
    } else {
        "Rust LOC for "@ + s.path@ + ":\n- files: "@ + decimal(s.files as nat) + "\n- total lines: "@
            + decimal(s.lines as nat) + "\n- code: "@ + decimal(s.code as nat) + "\n- comments: "@
            + decimal(s.comments as nat) + "\n- blanks: "@ + decimal(s.blanks as nat)
    }
}

/// The tool that counts Rust lines of code.
#[derive(Debug)]
pub struct RustCountLinesOfCodeTool;

impl RustCountLinesOfCodeTool {
    pub fn new() -> (r: Self) {
        RustCountLinesOfCodeTool
    }

    /// The definition a planner is shown.
    pub fn definition(&self) -> (r: ToolDefinition)
        ensures
            r@ == (ToolDefinitionView {
                tool_type: "function"@,
                name: LOC_TOOL_NAME@,
                description: LOC_TOOL_DESCRIPTION@,
                parameters: path_schema(LOC_PATH_DESCRIPTION@),
            }),
    {
        rust_count_lines_of_code_tool_definition()
    }

    /// The path to count under: the `path` argument, `.` by default.
    pub fn parse_args(&self, arguments: &serde_json::Value) -> (r: Result<String, AppError>)
        ensures
            path_args_accepted(crate::json::json_view(*arguments)) ==> (r matches Ok(p) && p@
                == path_arg(crate::json::json_view(*arguments))),
            !path_args_accepted(crate::json::json_view(*arguments)) ==> (r matches Err(
                AppError::InvalidToolArguments { tool, .. },
            ) && tool@ == LOC_TOOL_NAME@),
    {
        path_argument(LOC_TOOL_NAME, "RustCountLinesOfCodeArgs", arguments)
    }

    /// The preview: the path counted under; nothing to confirm.
    pub fn preview(&self, stats: &RustLocStats) -> (r: ToolPreview)
        ensures
            r.display matches Some(d) && d@ == "Counting Rust lines of code under "@ + stats.path@
                + "."@,
            !r.is_noop,
            !r.requires_confirmation,
    {
        let mut d = "Counting Rust lines of code under ".to_owned();
        d.append(stats.path.as_str());
        d.append(".");
        ToolPreview { display: Some(d), is_noop: false, requires_confirmation: false }
    }

    /// The report of a count.
    pub fn outcome(&self, stats: &RustLocStats) -> (r: ToolExecutionOutcome)
        ensures
            r.display@ == loc_report(*stats),
    {
        if stats.files == 0 {
            let mut d = "No Rust source files found under ".to_owned();
            d.append(stats.path.as_str());
            d.append(".");
            return ToolExecutionOutcome { display: d };
        }
        let mut d = "Rust LOC for ".to_owned();
        d.append(stats.path.as_str());
        d.append(":\n- files: ");
        d.append(u64_text(stats.files as u64).as_str());
        d.append("\n- total lines: ");
        d.append(u64_text(stats.lines as u64).as_str());
        d.append("\n- code: ");
        d.append(u64_text(stats.code as u64).as_str());
        d.append("\n- comments: ");
        d.append(u64_text(stats.comments as u64).as_str());
        d.append("\n- blanks: ");
        d.append(u64_text(stats.blanks as u64).as_str());
        ToolExecutionOutcome { display: d }
    }
}

} // verus!
