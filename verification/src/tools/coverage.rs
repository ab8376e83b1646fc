//! `rust.run_coverage`: runs Tarpaulin on a crate. The run itself, and the
//! look at the filesystem, are the caller's; this module reads the tool's
//! argument, decides which directory and manifest a path means, and says what
//! the preview shows.
use crate::error::AppError;
use crate::paths::{file_name_of, join, join_path, parent_of, path_file_name, path_parent};
use crate::planner::{ToolDefinition, ToolDefinitionView};
use crate::tools::{
    missing_path_message, path_arg, path_args_accepted, path_argument, path_schema,
    rust_run_coverage_tool_definition, ToolPreview, COVERAGE_PATH_DESCRIPTION,
    COVERAGE_TOOL_DESCRIPTION, COVERAGE_TOOL_NAME,
};
use crate::text::str_eq;
use vstd::prelude::*;

verus! {

/// What coverage runs on: the directory shown to the user and the manifest
/// Tarpaulin reads.
#[derive(Debug)]
pub struct CoverageTarget {
    pub display_path: String,
    pub manifest_path: String,
}

/// Where a requested path leads, or the error text: a missing path is
/// refused; a directory means its `Cargo.toml`; a `Cargo.toml` file means
/// itself, shown by its directory (`.` where it has no parent); anything
/// else is refused.
pub open spec fn coverage_target(requested: Seq<char>, exists: bool, is_dir: bool) -> Result<
    (Seq<char>, Seq<char>),
    Seq<char>,
> {
    if !exists {
        Err(missing_path_message(requested))
    } else if is_dir {
        Ok((requested, join_path(requested, "Cargo.toml"@)))
    } else if path_file_name(requested) == Some("Cargo.toml"@) {
        Ok(
            (
                match path_parent(requested) {
                    Some(p) => p,
                    None => "."@,
                },
                requested,
            ),
        )
    } else {
        Err(
            "coverage path must be a repository directory or Cargo.toml file: "@ + requested,
        )
    }
}

/// The tool that runs Rust test coverage.
#[derive(Debug)]
pub struct RustRunCoverageTool;

impl RustRunCoverageTool {
    pub fn new() -> (r: Self) {
        RustRunCoverageTool
    }

    /// The definition a planner is shown.
    pub fn definition(&self) -> (r: ToolDefinition)
        ensures
            r@ == (ToolDefinitionView {
                tool_type: "function"@,
                name: COVERAGE_TOOL_NAME@,
                description: COVERAGE_TOOL_DESCRIPTION@,
                parameters: path_schema(COVERAGE_PATH_DESCRIPTION@),
            }),
    {
        rust_run_coverage_tool_definition()
    }

    /// The requested path: the `path` argument, `.` by default.
    pub fn parse_args(&self, arguments: &serde_json::Value) -> (r: Result<String, AppError>)
        ensures
            path_args_accepted(crate::json::json_view(*arguments)) ==> (r matches Ok(p) && p@
                == path_arg(crate::json::json_view(*arguments))),
            !path_args_accepted(crate::json::json_view(*arguments)) ==> (r matches Err(
                AppError::InvalidToolArguments { tool, .. },
            ) && tool@ == COVERAGE_TOOL_NAME@),
    {
        path_argument(COVERAGE_TOOL_NAME, "RustRunCoverageArgs", arguments)
    }

    /// Decides what a requested path means, given whether it exists and
    /// whether it is a directory.
    pub fn resolve_target(&self, requested: &str, exists: bool, is_dir: bool) -> (r: Result<
        CoverageTarget,
        AppError,
    >)
        ensures
            match coverage_target(requested@, exists, is_dir) {
                Ok((d, m)) => (r matches Ok(t) && t.display_path@ == d && t.manifest_path@ == m),
                Err(e) => (r matches Err(AppError::Message(s)) && s@ == e),
            },
    {
        if !exists {
            let mut m = "path does not exist: ".to_owned();
            m.append(requested);
            return Err(AppError::Message(m));
        }
        if is_dir {
            proof {
                reveal_strlit("Cargo.toml");
            }
            return Ok(
                CoverageTarget {
                    display_path: requested.to_owned(),
                    manifest_path: join(requested, "Cargo.toml"),
                },
            );
        }
        let is_manifest = match file_name_of(requested) {
            Some(n) => str_eq(n.as_str(), "Cargo.toml"),
            None => false,
        };
        if is_manifest {
            let display_path = match parent_of(requested) {
                Some(p) => p,
                None => ".".to_owned(),
            };
            Ok(CoverageTarget { display_path, manifest_path: requested.to_owned() })
        } else {
            let mut m = "coverage path must be a repository directory or Cargo.toml file: ".to_owned();
            m.append(requested);
            Err(AppError::Message(m))
        }
    }

    /// Refuses a target whose manifest does not exist.
    pub fn require_manifest(&self, target: CoverageTarget, manifest_exists: bool) -> (r: Result<
        CoverageTarget,
        AppError,
    >)
        ensures
            manifest_exists ==> (r matches Ok(t) && t.display_path@ == target.display_path@
                && t.manifest_path@ == target.manifest_path@),
            !manifest_exists ==> (r matches Err(AppError::Message(s)) && s@
                == "no Cargo.toml found for coverage target: "@ + target.manifest_path@),
    {
        if manifest_exists {
            Ok(target)
        } else {
            let mut m = "no Cargo.toml found for coverage target: ".to_owned();
            m.append(target.manifest_path.as_str());
            Err(AppError::Message(m))
        }
    }

    /// The preview: the directory covered; nothing to confirm.
    pub fn preview(&self, target: &CoverageTarget) -> (r: ToolPreview)
        ensures
            r.display matches Some(d) && d@ == "Running Rust coverage under "@
                + target.display_path@ + " with Tarpaulin using the ptrace engine."@,
            !r.is_noop,
            !r.requires_confirmation,
    {
        let mut d = "Running Rust coverage under ".to_owned();
        d.append(target.display_path.as_str());
        d.append(" with Tarpaulin using the ptrace engine.");
        ToolPreview { display: Some(d), is_noop: false, requires_confirmation: false }
    }
}

} // verus!
