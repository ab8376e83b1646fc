use bbot::error::AppError;
use bbot::planner::{Message, ToolCall, ToolCallFunction};
use bbot::session::{
    confirmation_answer, decide_plan, decide_preview, interactive_input, InputAction,
    PlanDecision, PreviewDecision,
};
use bbot::tools::docker::{
    ContainerInfo, DockerRemoveAllRunningContainersArgs, DockerRemoveAllRunningContainersTool,
};
use bbot::tools::ToolPreview;
use serde_json::Value;

fn call(name: &str, arguments: &str) -> ToolCall {
    ToolCall {
        function: ToolCallFunction {
            name: name.to_owned(),
            arguments: serde_json::from_str::<Value>(arguments).unwrap(),
        },
    }
}

fn preview(is_noop: bool, requires_confirmation: bool) -> ToolPreview {
    ToolPreview { display: Some("preview".to_owned()), is_noop, requires_confirmation }
}

#[test]
fn end_of_input_when_nothing_was_read() {
    assert!(matches!(interactive_input(0, ""), InputAction::EndOfInput));
    assert!(matches!(interactive_input(0, "count loc"), InputAction::EndOfInput));
}

#[test]
fn blank_line_is_skipped() {
    assert!(matches!(interactive_input(1, "\n"), InputAction::Skip));
    assert!(matches!(interactive_input(4, "  \t\n"), InputAction::Skip));
}

#[test]
fn exit_and_quit_leave() {
    assert!(matches!(interactive_input(5, "exit\n"), InputAction::Quit));
    assert!(matches!(interactive_input(7, "  quit \n"), InputAction::Quit));
    assert!(matches!(interactive_input(5, "Exit\n"), InputAction::Prompt(_)));
}

#[test]
fn request_is_trimmed() {
    match interactive_input(20, "  count rust loc  \n") {
        InputAction::Prompt(p) => assert_eq!(p, "count rust loc"),
        other => panic!("unexpected {:?}", other),
    }
}

#[test]
fn single_tool_call_runs() {
    let message = Message {
        role: "assistant".to_owned(),
        content: None,
        tool_calls: Some(vec![call("rust.count_lines_of_code", r#"{"path":"."}"#)]),
    };
    match decide_plan(message) {
        PlanDecision::RunTool(c) => {
            assert_eq!(c.function.name, "rust.count_lines_of_code");
            assert_eq!(c.function.arguments["path"], ".");
        }
        other => panic!("unexpected {:?}", other),
    }
}

#[test]
fn several_tool_calls_are_refused() {
    let message = Message {
        role: "assistant".to_owned(),
        content: None,
        tool_calls: Some(vec![call("a", "{}"), call("b", "{}")]),
    };
    match decide_plan(message) {
        PlanDecision::Reject(AppError::Message(m)) => {
            assert_eq!(m, "expected exactly one tool call, got 2")
        }
        other => panic!("unexpected {:?}", other),
    }
    let empty = Message { role: "assistant".to_owned(), content: None, tool_calls: Some(vec![]) };
    match decide_plan(empty) {
        PlanDecision::Reject(AppError::Message(m)) => {
            assert_eq!(m, "expected exactly one tool call, got 0")
        }
        other => panic!("unexpected {:?}", other),
    }
}

#[test]
fn text_reply_is_a_tooling_gap() {
    let message = Message {
        role: "assistant".to_owned(),
        content: Some("No tool can send email.".to_owned()),
        tool_calls: None,
    };
    match decide_plan(message) {
        PlanDecision::Reply(t) => assert_eq!(t, "No tool can send email."),
        other => panic!("unexpected {:?}", other),
    }
    let silent = Message { role: "assistant".to_owned(), content: None, tool_calls: None };
    match decide_plan(silent) {
        PlanDecision::Reply(t) => {
            assert_eq!(t, "B-Bot could not match that request to its current tool set.")
        }
        other => panic!("unexpected {:?}", other),
    }
}

#[test]
fn dry_run_stops_after_preview() {
    for noop in [false, true] {
        for confirm in [false, true] {
            for yes in [false, true] {
                assert_eq!(
                    decide_preview(&preview(noop, confirm), true, yes),
                    PreviewDecision::DryRun
                );
            }
        }
    }
}

#[test]
fn noop_preview_skips_the_run() {
    assert_eq!(decide_preview(&preview(true, false), false, false), PreviewDecision::NothingToDo);
    assert_eq!(decide_preview(&preview(true, true), false, true), PreviewDecision::NothingToDo);
}

#[test]
fn confirmation_is_asked_unless_yes() {
    assert_eq!(decide_preview(&preview(false, true), false, false), PreviewDecision::Confirm);
    assert_eq!(decide_preview(&preview(false, true), false, true), PreviewDecision::Execute);
    assert_eq!(decide_preview(&preview(false, false), false, false), PreviewDecision::Execute);
}

#[test]
fn yes_answers_are_accepted() {
    for answer in ["y", "yes", "Y", "YES", " Yes \n", "yEs\r\n"] {
        assert!(confirmation_answer(answer).is_ok(), "{:?}", answer);
    }
}

#[test]
fn other_answers_decline() {
    for answer in ["", "\n", "n", "no", "yess", "ye", "y es", "sure"] {
        assert!(
            matches!(confirmation_answer(answer), Err(AppError::UserDeclined)),
            "{:?}",
            answer
        );
    }
}

#[test]
fn docker_removal_needs_confirmation() {
    let tool = DockerRemoveAllRunningContainersTool::new();
    let args = DockerRemoveAllRunningContainersArgs {
        stop_timeout_secs: 10,
        remove_anonymous_volumes: false,
    };
    let containers = vec![ContainerInfo {
        id: Some("0123456789abcdef".to_owned()),
        names: Some(vec!["/web".to_owned()]),
    }];
    let p = tool.preview(args, &containers);
    assert_eq!(decide_preview(&p, false, false), PreviewDecision::Confirm);
    assert_eq!(decide_preview(&p, false, true), PreviewDecision::Execute);
    assert_eq!(decide_preview(&p, true, true), PreviewDecision::DryRun);
    let none = tool.preview(args, &Vec::new());
    assert_eq!(decide_preview(&none, false, false), PreviewDecision::NothingToDo);
}
