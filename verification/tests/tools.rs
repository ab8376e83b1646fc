use bbot::error::AppError;
use bbot::tools::coverage::{CoverageTarget, RustRunCoverageTool};
use bbot::tools::docker::{
    container_step, ContainerAction, container_handle, container_label, default_stop_timeout_secs, no_running_containers,
    short_id, ContainerInfo, ContainerOutcome, DockerRemoveAllRunningContainersArgs,
    DockerRemoveAllRunningContainersTool, RemovalReport,
};
use bbot::tools::loc::{RustCountLinesOfCodeTool, RustLocStats};
use bbot::tools::{
    docker_remove_all_tool_definition, path_argument, require_existing,
    rust_count_lines_of_code_tool_definition, rust_run_coverage_tool_definition, ToolKind,
    ToolRegistry, COVERAGE_TOOL_NAME, DOCKER_TOOL_NAME, LOC_TOOL_NAME,
};
use serde_json::Value;

fn json(text: &str) -> Value {
    serde_json::from_str(text).unwrap()
}

fn invalid_arguments(r: Result<impl std::fmt::Debug, AppError>) -> (String, String) {
    match r {
        Err(AppError::InvalidToolArguments { tool, source }) => (tool, source.to_string()),
        other => panic!("unexpected {:?}", other),
    }
}

#[test]
fn docker_arguments_default() {
    assert_eq!(default_stop_timeout_secs(), 10);
    let args = DockerRemoveAllRunningContainersArgs::from_arguments(&json("{}")).unwrap();
    assert_eq!(args.stop_timeout_secs, 10);
    assert!(!args.remove_anonymous_volumes);
}

#[test]
fn docker_arguments_given() {
    let args = DockerRemoveAllRunningContainersArgs::from_arguments(&json(
        r#"{"stop_timeout_secs": 3, "remove_anonymous_volumes": true, "other": 1}"#,
    ))
    .unwrap();
    assert_eq!(args.stop_timeout_secs, 3);
    assert!(args.remove_anonymous_volumes);
    let negative =
        DockerRemoveAllRunningContainersArgs::from_arguments(&json(r#"{"stop_timeout_secs": -1}"#))
            .unwrap();
    assert_eq!(negative.stop_timeout_secs, -1);
}

#[test]
fn docker_arguments_refused() {
    let (tool, reason) =
        invalid_arguments(DockerRemoveAllRunningContainersArgs::from_arguments(&json("\"all\"")));
    assert_eq!(tool, DOCKER_TOOL_NAME);
    assert_eq!(
        reason,
        "invalid type: string \"all\", expected struct DockerRemoveAllRunningContainersArgs"
    );
    for (bad, expected) in [
        (r#"{"stop_timeout_secs": "ten"}"#, "invalid type: string \"ten\", expected i32"),
        (
            r#"{"stop_timeout_secs": 3000000000}"#,
            "invalid value: integer `3000000000`, expected i32",
        ),
        (r#"{"stop_timeout_secs": -3000000000}"#, "invalid value: integer `-3000000000`, expected i32"),
        (r#"{"stop_timeout_secs": 2.5}"#, "invalid type: floating point `2.5`, expected i32"),
    ] {
        let (_, reason) =
            invalid_arguments(DockerRemoveAllRunningContainersArgs::from_arguments(&json(bad)));
        assert_eq!(reason, expected);
    }
    for (bad, expected) in [
        ("7", "invalid type: integer `7`, expected struct DockerRemoveAllRunningContainersArgs"),
        ("-7", "invalid type: integer `-7`, expected struct DockerRemoveAllRunningContainersArgs"),
        ("0.5", "invalid type: floating point `0.5`, expected struct DockerRemoveAllRunningContainersArgs"),
        ("null", "invalid type: null, expected struct DockerRemoveAllRunningContainersArgs"),
        ("true", "invalid type: boolean `true`, expected struct DockerRemoveAllRunningContainersArgs"),
    ] {
        let (_, reason) =
            invalid_arguments(DockerRemoveAllRunningContainersArgs::from_arguments(&json(bad)));
        assert_eq!(reason, expected);
    }
    let (_, reason) = invalid_arguments(DockerRemoveAllRunningContainersArgs::from_arguments(
        &json(r#"{"remove_anonymous_volumes": "yes"}"#),
    ));
    assert_eq!(reason, "invalid type: string \"yes\", expected a boolean");
    let (_, reason) = invalid_arguments(DockerRemoveAllRunningContainersArgs::from_arguments(
        &json(r#"{"stop_timeout_secs": "ten", "remove_anonymous_volumes": "yes"}"#),
    ));
    assert_eq!(reason, "invalid type: string \"yes\", expected a boolean");
    let (_, reason) = invalid_arguments(DockerRemoveAllRunningContainersArgs::from_arguments(
        &json(r#"{"stop_timeout_secs": null}"#),
    ));
    assert_eq!(reason, "invalid type: null, expected i32");
}

#[test]
fn docker_arguments_as_array() {
    let args = DockerRemoveAllRunningContainersArgs::from_arguments(&json("[]")).unwrap();
    assert_eq!(args.stop_timeout_secs, 10);
    assert!(!args.remove_anonymous_volumes);
    let args = DockerRemoveAllRunningContainersArgs::from_arguments(&json("[4]")).unwrap();
    assert_eq!(args.stop_timeout_secs, 4);
    assert!(!args.remove_anonymous_volumes);
    let args = DockerRemoveAllRunningContainersArgs::from_arguments(&json("[4, true]")).unwrap();
    assert!(args.remove_anonymous_volumes);
    let (_, reason) = invalid_arguments(DockerRemoveAllRunningContainersArgs::from_arguments(
        &json("[4, true, 1]"),
    ));
    assert_eq!(reason, "invalid length 3, expected fewer elements in array");
    let (_, reason) = invalid_arguments(DockerRemoveAllRunningContainersArgs::from_arguments(
        &json(r#"["x", "y", 1]"#),
    ));
    assert_eq!(reason, "invalid type: string \"x\", expected i32");
    let (_, reason) = invalid_arguments(DockerRemoveAllRunningContainersArgs::from_arguments(
        &json("[4, 1]"),
    ));
    assert_eq!(reason, "invalid type: integer `1`, expected a boolean");
}

#[test]
fn container_ids_are_shortened() {
    assert_eq!(short_id("0123456789abcdef0123"), "0123456789ab");
    assert_eq!(short_id("abc"), "abc");
    assert_eq!(short_id(""), "");
}

#[test]
fn containers_are_labelled() {
    let named = ContainerInfo {
        id: Some("0123456789abcdef".to_owned()),
        names: Some(vec!["/web".to_owned(), "/alias".to_owned()]),
    };
    assert_eq!(container_label(&named), "web (0123456789ab)");
    assert_eq!(container_handle(&named).as_deref(), Some("0123456789abcdef"));
    let anonymous = ContainerInfo { id: None, names: None };
    assert_eq!(container_label(&anonymous), "<unnamed> (unknown)");
    assert_eq!(container_handle(&anonymous), None);
    let name_only = ContainerInfo { id: None, names: Some(vec!["//db".to_owned()]) };
    assert_eq!(container_handle(&name_only).as_deref(), Some("db"));
    assert_eq!(container_label(&name_only), "db (unknown)");
    let no_names = ContainerInfo { id: Some("abc".to_owned()), names: Some(vec![]) };
    assert_eq!(container_label(&no_names), "<unnamed> (abc)");
}

#[test]
fn docker_preview_lists_containers() {
    let tool = DockerRemoveAllRunningContainersTool::new();
    let containers = vec![
        ContainerInfo {
            id: Some("0123456789abcdef".to_owned()),
            names: Some(vec!["/web".to_owned()]),
        },
        ContainerInfo { id: Some("fedcba9876543210".to_owned()), names: Some(vec!["/db".to_owned()]) },
    ];
    let args = DockerRemoveAllRunningContainersArgs {
        stop_timeout_secs: 5,
        remove_anonymous_volumes: true,
    };
    let p = tool.preview(args, &containers);
    assert_eq!(
        p.display.as_deref(),
        Some(
            "This will stop and remove 2 running container(s) with a 5 second stop timeout and it will remove anonymous volumes:\n- web (0123456789ab)\n- db (fedcba987654)"
        )
    );
    assert!(!p.is_noop);
    assert!(p.requires_confirmation);
    let keep = DockerRemoveAllRunningContainersArgs {
        stop_timeout_secs: 10,
        remove_anonymous_volumes: false,
    };
    let p = tool.preview(keep, &containers[..1].iter().map(|c| ContainerInfo { id: c.id.clone(), names: c.names.clone() }).collect());
    assert_eq!(
        p.display.as_deref(),
        Some("This will stop and remove 1 running container(s) with a 10 second stop timeout:\n- web (0123456789ab)")
    );
}

#[test]
fn docker_preview_without_containers() {
    let tool = DockerRemoveAllRunningContainersTool::new();
    let args = DockerRemoveAllRunningContainersArgs {
        stop_timeout_secs: 10,
        remove_anonymous_volumes: false,
    };
    let p = tool.preview(args, &Vec::new());
    assert_eq!(p.display.as_deref(), Some("No running Docker containers found."));
    assert!(p.is_noop);
    assert!(!p.requires_confirmation);
    assert_eq!(no_running_containers().display, "No running Docker containers found.");
}

#[test]
fn removal_report_renders_outcomes() {
    let mut report = RemovalReport::new();
    assert_eq!(report.render(), "Removed 0 running Docker container(s).");
    report.record("web (0123456789ab)".to_owned(), ContainerOutcome::Removed);
    report.record("db (fedcba987654)".to_owned(), ContainerOutcome::StopFailed("timeout".to_owned()));
    report.record("cache (aaaaaaaaaaaa)".to_owned(), ContainerOutcome::RemoveFailed("in use".to_owned()));
    report.record("<unnamed> (unknown)".to_owned(), ContainerOutcome::MissingHandle);
    assert_eq!(report.removed.len(), 1);
    assert_eq!(report.failures.len(), 3);
    assert_eq!(
        report.render(),
        "Removed 1 running Docker container(s).\nRemoved:\n- web (0123456789ab)\n\nFailures:\n- db (fedcba987654): failed to stop: timeout\n- cache (aaaaaaaaaaaa): failed to remove: in use\n- <unnamed> (unknown): missing Docker handle"
    );
}

#[test]
fn removal_report_without_failures() {
    let mut report = RemovalReport::new();
    report.record("a (1)".to_owned(), ContainerOutcome::Removed);
    report.record("b (2)".to_owned(), ContainerOutcome::Removed);
    assert_eq!(
        report.render(),
        "Removed 2 running Docker container(s).\nRemoved:\n- a (1)\n- b (2)"
    );
}

#[test]
fn path_argument_defaults_to_current_directory() {
    assert_eq!(path_argument("t", "PathArgs", &json("{}")).unwrap(), ".");
    assert_eq!(path_argument("t", "PathArgs", &json(r#"{"path": null}"#)).unwrap(), ".");
    assert_eq!(path_argument("t", "PathArgs", &json(r#"{"path": "src"}"#)).unwrap(), "src");
}

#[test]
fn path_argument_refused() {
    let (tool, reason) = invalid_arguments(path_argument("t", "PathArgs", &json(r#"{"path": 3}"#)));
    assert_eq!(tool, "t");
    assert_eq!(reason, "invalid type: integer `3`, expected a string");
    let (_, reason) = invalid_arguments(path_argument("t", "PathArgs", &json(r#""src""#)));
    assert_eq!(reason, "invalid type: string \"src\", expected struct PathArgs");
}

#[test]
fn path_argument_as_array() {
    assert_eq!(path_argument("t", "PathArgs", &json(r#"["src"]"#)).unwrap(), "src");
    assert_eq!(path_argument("t", "PathArgs", &json("[null]")).unwrap(), ".");
    let (_, reason) = invalid_arguments(path_argument("t", "PathArgs", &json("[]")));
    assert_eq!(reason, "invalid length 0, expected struct PathArgs with 1 element");
    let (_, reason) = invalid_arguments(path_argument("t", "PathArgs", &json(r#"["a", "b"]"#)));
    assert_eq!(reason, "invalid length 2, expected fewer elements in array");
    let (_, reason) = invalid_arguments(path_argument("t", "PathArgs", &json(r#"[1, "b"]"#)));
    assert_eq!(reason, "invalid type: integer `1`, expected a string");
}

#[test]
fn loc_tool_reads_arguments() {
    let tool = RustCountLinesOfCodeTool::new();
    assert_eq!(tool.parse_args(&json(r#"{"path": "crates"}"#)).unwrap(), "crates");
    let (name, reason) = invalid_arguments(tool.parse_args(&json("null")));
    assert_eq!(name, LOC_TOOL_NAME);
    assert_eq!(reason, "invalid type: null, expected struct RustCountLinesOfCodeArgs");
    let (_, reason) = invalid_arguments(RustRunCoverageTool::new().parse_args(&json("[]")));
    assert_eq!(reason, "invalid length 0, expected struct RustRunCoverageArgs with 1 element");
}

#[test]
fn loc_report_counts() {
    let tool = RustCountLinesOfCodeTool::new();
    let stats = RustLocStats {
        path: "/repo".to_owned(),
        files: 3,
        lines: 120,
        code: 90,
        comments: 10,
        blanks: 20,
    };
    assert_eq!(
        tool.outcome(&stats).display,
        "Rust LOC for /repo:\n- files: 3\n- total lines: 120\n- code: 90\n- comments: 10\n- blanks: 20"
    );
    let p = tool.preview(&stats);
    assert_eq!(p.display.as_deref(), Some("Counting Rust lines of code under /repo."));
    assert!(!p.is_noop);
    assert!(!p.requires_confirmation);
}

#[test]
fn loc_report_without_files() {
    let tool = RustCountLinesOfCodeTool::new();
    let stats = RustLocStats::empty("/empty".to_owned());
    assert_eq!(stats.files, 0);
    assert_eq!(tool.outcome(&stats).display, "No Rust source files found under /empty.");
}

#[test]
fn coverage_target_of_directory() {
    let tool = RustRunCoverageTool::new();
    let t = tool.resolve_target("repo", true, true).unwrap();
    assert_eq!(t.display_path, "repo");
    assert_eq!(t.manifest_path, "repo/Cargo.toml");
    let t = tool.resolve_target("repo/", true, true).unwrap();
    assert_eq!(t.manifest_path, "repo/Cargo.toml");
}

#[test]
fn coverage_target_of_manifest() {
    let tool = RustRunCoverageTool::new();
    let t = tool.resolve_target("repo/Cargo.toml", true, false).unwrap();
    assert_eq!(t.display_path, "repo");
    assert_eq!(t.manifest_path, "repo/Cargo.toml");
    let t = tool.resolve_target("Cargo.toml", true, false).unwrap();
    assert_eq!(t.display_path, "");
    assert_eq!(t.manifest_path, "Cargo.toml");
    let t = tool.resolve_target("/Cargo.toml", true, false).unwrap();
    assert_eq!(t.display_path, "/");
    let t = tool.resolve_target("a/b/Cargo.toml/", true, false).unwrap();
    assert_eq!(t.display_path, "a/b");
    assert!(tool.resolve_target("repo/..", true, false).is_err());
    assert!(tool.resolve_target("Cargo.toml.bak", true, false).is_err());
}

#[test]
fn coverage_target_refused() {
    let tool = RustRunCoverageTool::new();
    match tool.resolve_target("missing", false, false) {
        Err(AppError::Message(m)) => assert_eq!(m, "path does not exist: missing"),
        other => panic!("unexpected {:?}", other),
    }
    match tool.resolve_target("repo/src/lib.rs", true, false) {
        Err(AppError::Message(m)) => assert_eq!(
            m,
            "coverage path must be a repository directory or Cargo.toml file: repo/src/lib.rs"
        ),
        other => panic!("unexpected {:?}", other),
    }
    let target = CoverageTarget {
        display_path: "repo".to_owned(),
        manifest_path: "repo/Cargo.toml".to_owned(),
    };
    match tool.require_manifest(target, false) {
        Err(AppError::Message(m)) => {
            assert_eq!(m, "no Cargo.toml found for coverage target: repo/Cargo.toml")
        }
        other => panic!("unexpected {:?}", other),
    }
    let target = CoverageTarget {
        display_path: "repo".to_owned(),
        manifest_path: "repo/Cargo.toml".to_owned(),
    };
    let kept = tool.require_manifest(target, true).unwrap();
    assert_eq!(kept.display_path, "repo");
    let (name, _) = invalid_arguments(tool.parse_args(&json(r#"{"path": false}"#)));
    assert_eq!(name, COVERAGE_TOOL_NAME);
}

#[test]
fn missing_path_is_refused() {
    assert!(require_existing("here", true).is_ok());
    match require_existing("gone", false) {
        Err(AppError::Message(m)) => assert_eq!(m, "path does not exist: gone"),
        other => panic!("unexpected {:?}", other),
    }
}

#[test]
fn registry_lists_builtin_tools_in_order() {
    let registry = ToolRegistry::with_defaults();
    let names: Vec<String> = registry.specs().iter().map(|d| d.function.name.clone()).collect();
    assert_eq!(names, vec![DOCKER_TOOL_NAME, LOC_TOOL_NAME, COVERAGE_TOOL_NAME]);
    for spec in registry.specs() {
        assert_eq!(spec.tool_type, "function");
    }
}

#[test]
fn registry_refuses_unknown_tools() {
    let registry = ToolRegistry::with_defaults();
    assert_eq!(registry.lookup("rust.run_coverage").unwrap(), ToolKind::RustRunCoverage);
    assert_eq!(
        registry.lookup("docker.remove_all_running_containers").unwrap(),
        ToolKind::DockerRemoveAllRunningContainers
    );
    match registry.lookup("shell.exec") {
        Err(AppError::UnknownTool(name)) => assert_eq!(name, "shell.exec"),
        other => panic!("unexpected {:?}", other),
    }
    let empty = ToolRegistry { tools: vec![] };
    assert!(matches!(empty.lookup(LOC_TOOL_NAME), Err(AppError::UnknownTool(_))));
}

#[test]
fn tool_definitions_carry_their_schemas() {
    let docker = docker_remove_all_tool_definition();
    assert_eq!(docker.tool_type, "function");
    assert_eq!(docker.function.name, DOCKER_TOOL_NAME);
    let params = &docker.function.parameters;
    assert_eq!(params["type"], "object");
    assert_eq!(params["additionalProperties"], false);
    assert_eq!(params["properties"]["stop_timeout_secs"]["type"], "integer");
    assert_eq!(params["properties"]["remove_anonymous_volumes"]["type"], "boolean");
    assert_eq!(params["required"], json(r#"["stop_timeout_secs", "remove_anonymous_volumes"]"#));
    let loc = rust_count_lines_of_code_tool_definition();
    assert_eq!(loc.function.name, LOC_TOOL_NAME);
    assert_eq!(loc.function.parameters["properties"]["path"]["type"], "string");
    assert!(loc.function.parameters.get("required").is_none());
    let coverage = rust_run_coverage_tool_definition();
    assert_eq!(coverage.function.name, COVERAGE_TOOL_NAME);
    assert_eq!(ToolKind::RustRunCoverage.name(), COVERAGE_TOOL_NAME);
    assert_eq!(ToolKind::RustCountLinesOfCode.definition().function.name, LOC_TOOL_NAME);
}

#[test]
fn containers_are_stopped_before_removal() {
    let web = ContainerInfo { id: Some("abc".to_owned()), names: Some(vec!["/web".to_owned()]) };
    assert!(matches!(container_step(&web, None, None), ContainerAction::Stop(h) if h == "abc"));
    assert!(matches!(container_step(&web, Some(Ok(())), None), ContainerAction::Remove(h) if h == "abc"));
    assert!(matches!(
        container_step(&web, Some(Ok(())), Some(Ok(()))),
        ContainerAction::Record(ContainerOutcome::Removed)
    ));
    assert!(matches!(
        container_step(&web, Some(Err("busy".to_owned())), None),
        ContainerAction::Record(ContainerOutcome::StopFailed(e)) if e == "busy"
    ));
    assert!(matches!(
        container_step(&web, Some(Ok(())), Some(Err("in use".to_owned()))),
        ContainerAction::Record(ContainerOutcome::RemoveFailed(e)) if e == "in use"
    ));
    let anonymous = ContainerInfo { id: None, names: None };
    assert!(matches!(
        container_step(&anonymous, None, None),
        ContainerAction::Record(ContainerOutcome::MissingHandle)
    ));
    let named = ContainerInfo { id: None, names: Some(vec!["/db".to_owned()]) };
    assert!(matches!(container_step(&named, None, None), ContainerAction::Stop(h) if h == "db"));
}
