use bbot::app_server::{
    account_after_login, account_read_params, classify_line, closed_reply, describe_account,
    empty_params, initialize_params, login_check, login_event, login_start_params, login_url,
    message_line, model_from_list, model_list_params, notification_message, params_matches_turn,
    rejection_for, reply_result, request_message, runtime_defaults_from, server_method,
    thread_id_from, thread_start_params, turn_event, turn_id_from, turn_start_params,
    ApprovalPolicy, ClientMethod, Incoming, ItemStatus, LoginCheck, LoginEvent, RuntimeDefaults,
    ServerMethod, ThreadSandboxMode, TurnEvent, TurnStatus, TurnWait, decide_model,
    ModelDecision,
};
use bbot::codex::{CodexPlannerConfig, ReasoningEffort};
use serde_json::Value;

fn json(text: &str) -> Value {
    serde_json::from_str(text).unwrap()
}

#[test]
fn client_methods_on_the_wire() {
    assert_eq!(ClientMethod::Initialize.as_str(), "initialize");
    assert_eq!(ClientMethod::Initialized.as_str(), "initialized");
    assert_eq!(ClientMethod::AccountRead.as_str(), "account/read");
    assert_eq!(ClientMethod::AccountLoginStart.as_str(), "account/login/start");
    assert_eq!(ClientMethod::ConfigRequirementsRead.as_str(), "configRequirements/read");
    assert_eq!(ClientMethod::ModelList.as_str(), "model/list");
    assert_eq!(ClientMethod::ThreadStart.as_str(), "thread/start");
    assert_eq!(ClientMethod::TurnStart.as_str(), "turn/start");
}

#[test]
fn server_method_names_read_back() {
    for name in [
        "account/login/completed",
        "item/agentMessage/delta",
        "item/completed",
        "turn/completed",
        "error",
        "item/started",
    ] {
        assert_eq!(ServerMethod::from_wire(name).as_str(), name);
    }
    assert!(matches!(ServerMethod::from_wire("turn/completed"), ServerMethod::TurnCompleted));
    assert!(matches!(ServerMethod::from_wire("turn/started"), ServerMethod::Unknown(ref s) if s == "turn/started"));
}

#[test]
fn status_names_read_back() {
    for name in ["inProgress", "completed", "failed", "declined", "interrupted", "other"] {
        assert_eq!(ItemStatus::from_wire(name).as_str(), name);
    }
    for name in ["inProgress", "completed", "failed", "interrupted", "other"] {
        assert_eq!(TurnStatus::from_wire(name).as_str(), name);
    }
}

#[test]
fn policies_and_modes_read_back() {
    for p in [
        ApprovalPolicy::Never,
        ApprovalPolicy::OnFailure,
        ApprovalPolicy::Untrusted,
        ApprovalPolicy::OnRequest,
    ] {
        assert_eq!(ApprovalPolicy::from_wire(p.as_str()), Some(p));
    }
    assert_eq!(ApprovalPolicy::from_wire("always"), None);
    for m in [
        ThreadSandboxMode::WorkspaceWrite,
        ThreadSandboxMode::ReadOnly,
        ThreadSandboxMode::DangerFullAccess,
    ] {
        assert_eq!(ThreadSandboxMode::from_wire(m.as_str()), Some(m));
    }
    assert_eq!(ThreadSandboxMode::from_wire("readOnly"), None);
}

#[test]
fn sandbox_policies_of_turns() {
    assert_eq!(
        ThreadSandboxMode::ReadOnly.turn_policy_json("/w", true),
        json(r#"{"type":"readOnly","access":{"type":"fullAccess"}}"#)
    );
    assert_eq!(
        ThreadSandboxMode::DangerFullAccess.turn_policy_json("/w", false),
        json(r#"{"type":"dangerFullAccess"}"#)
    );
    assert_eq!(
        ThreadSandboxMode::WorkspaceWrite.turn_policy_json("/w", true),
        json(r#"{"type":"workspaceWrite","writableRoots":["/w"],"networkAccess":true}"#)
    );
}

#[test]
fn accounts_are_described() {
    assert_eq!(describe_account(&Value::Null), None);
    assert_eq!(
        describe_account(&json(r#"{"type":"chatgpt","email":"a@b.c","planType":"plus"}"#))
            .as_deref(),
        Some("chatgpt a@b.c (plus)")
    );
    assert_eq!(
        describe_account(&json(r#"{"type":"chatgpt"}"#)).as_deref(),
        Some("chatgpt unknown-email (unknown-plan)")
    );
    assert_eq!(describe_account(&json(r#"{"type":"apiKey"}"#)).as_deref(), Some("OpenAI API key"));
    assert_eq!(describe_account(&json(r#"{"type":"sso"}"#)).as_deref(), Some("sso"));
    assert_eq!(describe_account(&json("{}")).as_deref(), Some("unknown"));
}

#[test]
fn runtime_defaults_without_requirements() {
    let expected = RuntimeDefaults {
        approval_policy: ApprovalPolicy::Never,
        sandbox_mode: ThreadSandboxMode::ReadOnly,
    };
    assert_eq!(runtime_defaults_from(&json("{}")), expected);
    assert_eq!(runtime_defaults_from(&json(r#"{"requirements":null}"#)), expected);
    assert_eq!(RuntimeDefaults::default(), expected);
}

#[test]
fn runtime_defaults_pick_preferred_allowed() {
    let r = runtime_defaults_from(&json(
        r#"{"requirements":{"allowedApprovalPolicies":["on-request","untrusted"],"allowedSandboxModes":["danger-full-access","workspace-write"]}}"#,
    ));
    assert_eq!(r.approval_policy, ApprovalPolicy::Untrusted);
    assert_eq!(r.sandbox_mode, ThreadSandboxMode::WorkspaceWrite);
    let r = runtime_defaults_from(&json(
        r#"{"requirements":{"allowedApprovalPolicies":["bogus", 3],"allowedSandboxModes":[]}}"#,
    ));
    assert_eq!(r.approval_policy, ApprovalPolicy::Never);
    assert_eq!(r.sandbox_mode, ThreadSandboxMode::ReadOnly);
}

#[test]
fn model_is_picked_by_preference() {
    assert_eq!(
        model_from_list(&json(r#"{"data":[{"model":"gpt-5.1"},{"id":"gpt-5.4-mini"}]}"#)).unwrap(),
        "gpt-5.4-mini"
    );
    assert_eq!(
        model_from_list(&json(r#"{"data":[{"model":"o3"},{"model":"gpt-5.1-mini"}]}"#)).unwrap(),
        "gpt-5.1-mini"
    );
    assert_eq!(
        model_from_list(&json(r#"{"data":[{"model":7,"id":"gpt-5.4"},{"id":"o4"}]}"#)).unwrap(),
        "o4"
    );
}

#[test]
fn model_list_errors() {
    assert_eq!(
        model_from_list(&json(r#"{"data":[]}"#)).unwrap_err(),
        "model/list returned zero visible models"
    );
    assert_eq!(
        model_from_list(&json(r#"{"data":{}}"#)).unwrap_err(),
        "model/list returned no `data` array"
    );
    assert_eq!(model_from_list(&json("{}")).unwrap_err(), "model/list returned no `data` array");
}

#[test]
fn requests_and_notifications_are_framed() {
    let request = request_message(ClientMethod::ModelList, 7, model_list_params());
    assert_eq!(
        request,
        json(r#"{"method":"model/list","id":7,"params":{"limit":20,"includeHidden":false}}"#)
    );
    let note = notification_message(ClientMethod::Initialized, empty_params());
    assert_eq!(note, json(r#"{"method":"initialized","params":{}}"#));
    let line = message_line(&note);
    assert!(line.ends_with('\n'));
    assert_eq!(line.matches('\n').count(), 1);
    assert_eq!(json(line.trim_end()), note);
    assert_eq!(
        message_line(&json(r#"{"b":[1,2],"a":"x"}"#)),
        "{\"a\":\"x\",\"b\":[1,2]}\n"
    );
}

#[test]
fn client_parameters() {
    assert_eq!(
        initialize_params("1.2.3"),
        json(r#"{"clientInfo":{"name":"bbot","title":"B-Bot Codex Planner","version":"1.2.3"}}"#)
    );
    assert_eq!(account_read_params(), json(r#"{"refreshToken":false}"#));
    assert_eq!(login_start_params(), json(r#"{"type":"chatgpt"}"#));
    let runtime = RuntimeDefaults {
        approval_policy: ApprovalPolicy::OnFailure,
        sandbox_mode: ThreadSandboxMode::ReadOnly,
    };
    assert_eq!(
        thread_start_params("gpt-5.4", "/repo", &runtime),
        json(
            r#"{"model":"gpt-5.4","cwd":"/repo","approvalPolicy":"on-failure","sandbox":"read-only","serviceName":"bee_bot_planner"}"#
        )
    );
}

#[test]
fn turn_parameters() {
    let config = CodexPlannerConfig {
        binary: "codex".to_owned(),
        cwd: "/repo".to_owned(),
        model: None,
        effort: ReasoningEffort::Low,
        network_access: false,
    };
    let runtime = RuntimeDefaults {
        approval_policy: ApprovalPolicy::Never,
        sandbox_mode: ThreadSandboxMode::WorkspaceWrite,
    };
    assert_eq!(
        turn_start_params("th1", "gpt-5.4", "count loc", &config, &runtime),
        json(
            r#"{"threadId":"th1","input":[{"type":"text","text":"count loc"}],"cwd":"/repo","approvalPolicy":"never","sandboxPolicy":{"type":"workspaceWrite","writableRoots":["/repo"],"networkAccess":false},"model":"gpt-5.4","effort":"low","summary":"concise"}"#
        )
    );
}

#[test]
fn replies_give_their_result() {
    assert_eq!(
        reply_result(ClientMethod::AccountRead, &json(r#"{"id":1,"result":{"a":1}}"#)).unwrap(),
        json(r#"{"a":1}"#)
    );
    assert_eq!(
        reply_result(
            ClientMethod::ModelList,
            &json(r#"{"id":1,"error":{"code":-32600,"message":"bad"}}"#)
        )
        .unwrap_err(),
        "`model/list` failed with JSON-RPC error -32600: bad"
    );
    assert_eq!(
        reply_result(ClientMethod::TurnStart, &json(r#"{"id":1,"error":{}}"#)).unwrap_err(),
        "`turn/start` failed with JSON-RPC error 0: unknown JSON-RPC error"
    );
    assert_eq!(
        reply_result(ClientMethod::ThreadStart, &json(r#"{"id":1}"#)).unwrap_err(),
        "`thread/start` returned no result payload"
    );
}

#[test]
fn closed_server_reply() {
    let reply = closed_reply();
    assert_eq!(reply, json(r#"{"error":{"code":-32000,"message":"codex app-server closed"}}"#));
    assert_eq!(
        reply_result(ClientMethod::Initialize, &reply).unwrap_err(),
        "`initialize` failed with JSON-RPC error -32000: codex app-server closed"
    );
}

#[test]
fn output_lines_are_routed() {
    assert!(matches!(classify_line(""), Incoming::Blank));
    assert!(matches!(classify_line("   \t"), Incoming::Blank));
    assert!(matches!(classify_line("{not json"), Incoming::Invalid(_)));
    match classify_line(r#"{"id":4,"result":{}}"#) {
        Incoming::Response(4, v) => assert_eq!(v["result"], json("{}")),
        other => panic!("unexpected {:?}", other),
    }
    assert!(matches!(classify_line(r#"{"id":5,"error":{"code":1}}"#), Incoming::Response(5, _)));
    assert!(matches!(
        classify_line(r#"{"id":6,"method":"item/commandExecution/requestApproval","params":{}}"#),
        Incoming::ServerRequest(_)
    ));
    assert!(matches!(
        classify_line(r#"{"method":"turn/started","params":{}}"#),
        Incoming::Notification(_)
    ));
    assert!(matches!(
        classify_line(r#"{"id":"x","method":"m"}"#),
        Incoming::Notification(_)
    ));
    assert!(matches!(classify_line(r#"{"id":7}"#), Incoming::Unexpected));
    assert!(matches!(classify_line("[1,2]"), Incoming::Unexpected));
}

#[test]
fn server_requests_are_refused() {
    let reply = rejection_for(&json(r#"{"id":9,"method":"applyPatchApproval"}"#)).unwrap();
    assert_eq!(
        reply,
        json(
            r#"{"id":9,"error":{"code":-32601,"message":"bbot does not implement server request `applyPatchApproval`"}}"#
        )
    );
    let reply = rejection_for(&json(r#"{"id":"a"}"#)).unwrap();
    assert_eq!(
        reply["error"]["message"],
        "bbot does not implement server request `<unknown>`"
    );
    assert_eq!(reply["id"], "a");
    assert_eq!(
        rejection_for(&json(r#"{"method":"x"}"#)).unwrap_err(),
        "server request did not include an id"
    );
}

#[test]
fn login_is_checked() {
    match login_check(&json(r#"{"account":{"type":"apiKey"},"requiresOpenaiAuth":true}"#)) {
        LoginCheck::Authenticated(s) => assert_eq!(s, "OpenAI API key"),
        other => panic!("unexpected {:?}", other),
    }
    assert!(matches!(login_check(&json(r#"{"account":null}"#)), LoginCheck::Required));
    assert!(matches!(login_check(&json("{}")), LoginCheck::Required));
    assert!(matches!(
        login_check(&json(r#"{"account":null,"requiresOpenaiAuth":false}"#)),
        LoginCheck::NotRequired
    ));
}

#[test]
fn login_flow_replies() {
    assert_eq!(login_url(&json(r#"{"authUrl":"https://x"}"#)).unwrap(), "https://x");
    assert_eq!(
        login_url(&json(r#"{"authUrl":1}"#)).unwrap_err(),
        "ChatGPT login did not return `authUrl`"
    );
    assert_eq!(
        account_after_login(&json(r#"{"account":{"type":"chatgpt","email":"e","planType":"pro"}}"#))
            .unwrap(),
        "chatgpt e (pro)"
    );
    assert_eq!(
        account_after_login(&json("{}")).unwrap_err(),
        "login completed but account/read still returned no account"
    );
}

#[test]
fn login_events() {
    assert!(matches!(
        login_event(&json(r#"{"method":"account/login/completed","params":{"success":true}}"#)),
        LoginEvent::Succeeded
    ));
    match login_event(&json(
        r#"{"method":"account/login/completed","params":{"success":false,"error":"denied"}}"#,
    )) {
        LoginEvent::Failed(s) => assert_eq!(s, "ChatGPT login failed: denied"),
        other => panic!("unexpected {:?}", other),
    }
    match login_event(&json(r#"{"method":"account/login/completed"}"#)) {
        LoginEvent::Failed(s) => assert_eq!(s, "ChatGPT login failed: unknown login error"),
        other => panic!("unexpected {:?}", other),
    }
    assert!(matches!(login_event(&json(r#"{"method":"turn/started"}"#)), LoginEvent::Ignore));
}

#[test]
fn thread_and_turn_ids() {
    assert_eq!(thread_id_from(&json(r#"{"thread":{"id":"t1"}}"#)).unwrap(), "t1");
    assert_eq!(
        thread_id_from(&json(r#"{"thread":{}}"#)).unwrap_err(),
        "thread/start returned no thread id"
    );
    assert_eq!(turn_id_from(&json(r#"{"turn":{"id":"u1"}}"#)).unwrap(), "u1");
    assert_eq!(turn_id_from(&json("{}")).unwrap_err(), "turn/start returned no turn id");
    assert!(params_matches_turn(&json(r#"{"turnId":"u1"}"#), "u1"));
    assert!(!params_matches_turn(&json(r#"{"turnId":"u2"}"#), "u1"));
    assert!(!params_matches_turn(&json("{}"), "u1"));
    assert!(matches!(server_method(&json(r#"{"method":"error"}"#)), Some(ServerMethod::Error)));
    assert!(server_method(&json(r#"{"method":1}"#)).is_none());
}

#[test]
fn turn_gathers_deltas_until_completion() {
    let mut output = String::new();
    let steps = [
        r#"{"method":"item/agentMessage/delta","params":{"turnId":"u1","delta":"{\"message\":"}}"#,
        r#"{"method":"item/agentMessage/delta","params":{"turnId":"other","delta":"ignored"}}"#,
        r#"{"method":"item/agentMessage/delta","params":{"turnId":"u1","delta":"{}}"}}"#,
        r#"{"method":"item/completed","params":{"turnId":"u1","item":{"type":"agentMessage","text":"replaced?"}}}"#,
        r#"{"method":"turn/started","params":{"turnId":"u1"}}"#,
    ];
    for step in steps {
        assert!(matches!(turn_event(&mut output, &json(step), "u1"), TurnEvent::Continue));
    }
    assert_eq!(output, "{\"message\":{}}");
    let done = json(r#"{"method":"turn/completed","params":{"turn":{"id":"u1","status":"completed"}}}"#);
    assert!(matches!(turn_event(&mut output, &done, "u1"), TurnEvent::Completed));
    assert_eq!(output, "{\"message\":{}}");
}

#[test]
fn turn_uses_completed_message_without_deltas() {
    let mut output = String::new();
    let item = json(
        r#"{"method":"item/completed","params":{"turnId":"u1","item":{"type":"agentMessage","text":"final"}}}"#,
    );
    assert!(matches!(turn_event(&mut output, &item, "u1"), TurnEvent::Continue));
    assert_eq!(output, "final");
    let other_turn =
        json(r#"{"method":"turn/completed","params":{"turn":{"id":"u9","status":"failed"}}}"#);
    assert!(matches!(turn_event(&mut output, &other_turn, "u1"), TurnEvent::Continue));
}

#[test]
fn turn_fails_on_side_effects() {
    let mut output = String::new();
    let command = json(
        r#"{"method":"item/completed","params":{"turnId":"u1","item":{"type":"commandExecution","status":"declined","command":["ls","-la"]}}}"#,
    );
    match turn_event(&mut output, &command, "u1") {
        TurnEvent::Failed(s) => assert_eq!(
            s,
            "codex planner attempted command execution while planning: [declined] ls -la"
        ),
        other => panic!("unexpected {:?}", other),
    }
    let bare_command = json(
        r#"{"method":"item/completed","params":{"turnId":"u1","item":{"type":"commandExecution"}}}"#,
    );
    match turn_event(&mut output, &bare_command, "u1") {
        TurnEvent::Failed(s) => assert_eq!(
            s,
            "codex planner attempted command execution while planning: [unknown] <command>"
        ),
        other => panic!("unexpected {:?}", other),
    }
    let change = json(
        r#"{"method":"item/completed","params":{"turnId":"u1","item":{"type":"fileChange"}}}"#,
    );
    match turn_event(&mut output, &change, "u1") {
        TurnEvent::Failed(s) => assert_eq!(s, "codex planner attempted file changes while planning"),
        other => panic!("unexpected {:?}", other),
    }
}

#[test]
fn turn_failures_are_reported() {
    let mut output = String::new();
    let failed = json(
        r#"{"method":"turn/completed","params":{"turn":{"id":"u1","status":"failed","error":{"message":"quota"}}}}"#,
    );
    match turn_event(&mut output, &failed, "u1") {
        TurnEvent::Failed(s) => assert_eq!(s, "turn finished with status `failed`: quota"),
        other => panic!("unexpected {:?}", other),
    }
    let interrupted =
        json(r#"{"method":"turn/completed","params":{"turn":{"id":"u1","status":"interrupted"}}}"#);
    match turn_event(&mut output, &interrupted, "u1") {
        TurnEvent::Failed(s) => {
            assert_eq!(s, "turn finished with status `interrupted`: unknown turn failure")
        }
        other => panic!("unexpected {:?}", other),
    }
    let error = json(r#"{"method":"error","params":{"turnId":"u1","error":{"message":"boom"}}}"#);
    match turn_event(&mut output, &error, "u1") {
        TurnEvent::Failed(s) => assert_eq!(s, "codex planner turn failed: boom"),
        other => panic!("unexpected {:?}", other),
    }
    let bare_error = json(r#"{"method":"error","params":{"turnId":"u1"}}"#);
    match turn_event(&mut output, &bare_error, "u1") {
        TurnEvent::Failed(s) => assert_eq!(s, "codex planner turn failed: unknown app-server error"),
        other => panic!("unexpected {:?}", other),
    }
    let other_error = json(r#"{"method":"error","params":{"turnId":"u2"}}"#);
    assert!(matches!(turn_event(&mut output, &other_error, "u1"), TurnEvent::Continue));
    assert_eq!(output, "");
}

#[test]
fn fractional_numbers_are_written_apart() {
    let a = rejection_for(&json(r#"{"id":1.5,"method":"x"}"#)).unwrap();
    let b = rejection_for(&json(r#"{"id":2.5,"method":"x"}"#)).unwrap();
    assert_ne!(message_line(&a), message_line(&b));
    assert!(message_line(&a).starts_with(r#"{"error":"#));
    assert!(message_line(&a).contains(r#""id":1.5"#));
    assert!(message_line(&b).contains(r#""id":2.5"#));
}

#[test]
fn other_turns_never_change_the_answer() {
    let noise = [
        r#"{"params":{"turnId":"u1","delta":"x"}}"#,
        r#"{"method":"item/agentMessage/delta","params":{"turnId":"u2","delta":"x"}}"#,
        r#"{"method":"item/completed","params":{"turnId":"u2","item":{"type":"fileChange"}}}"#,
        r#"{"method":"error","params":{"turnId":"u2"}}"#,
        r#"{"method":"turn/completed","params":{"turn":{"id":"u2","status":"failed"}}}"#,
        r#"{"method":"thread/started","params":{"turnId":"u1"}}"#,
    ];
    let own = [
        r#"{"method":"item/agentMessage/delta","params":{"turnId":"u1","delta":"ok"}}"#,
        r#"{"method":"turn/completed","params":{"turn":{"id":"u1","status":"completed"}}}"#,
    ];
    let mut quiet = String::new();
    let mut quiet_end = None;
    for step in own {
        if let TurnEvent::Completed = turn_event(&mut quiet, &json(step), "u1") {
            quiet_end = Some("completed");
        }
    }
    let mut noisy = String::new();
    let mut noisy_end = None;
    for step in [noise[0], noise[1], own[0], noise[2], noise[3], noise[4], noise[5], own[1]] {
        match turn_event(&mut noisy, &json(step), "u1") {
            TurnEvent::Continue => {}
            TurnEvent::Completed => noisy_end = Some("completed"),
            TurnEvent::Failed(reason) => panic!("unexpected failure {}", reason),
        }
    }
    assert_eq!(quiet, "ok");
    assert_eq!(noisy, quiet);
    assert_eq!(noisy_end, quiet_end);
}

#[test]
fn turn_wait_keeps_its_end() {
    let mut wait = TurnWait::new("u1");
    let delta = json(r#"{"method":"item/agentMessage/delta","params":{"turnId":"u1","delta":"ab"}}"#);
    let other = json(r#"{"method":"item/agentMessage/delta","params":{"turnId":"u2","delta":"zz"}}"#);
    let done = json(r#"{"method":"turn/completed","params":{"turn":{"id":"u1","status":"completed"}}}"#);
    assert!(matches!(wait.take(&delta), TurnEvent::Continue));
    assert!(matches!(wait.take(&other), TurnEvent::Continue));
    assert!(matches!(wait.take(&done), TurnEvent::Completed));
    assert!(matches!(wait.take(&delta), TurnEvent::Completed));
    assert_eq!(wait.answer_text(), "ab");
    let mut failing = TurnWait::new("u1");
    let error = json(r#"{"method":"error","params":{"turnId":"u1","error":{"message":"boom"}}}"#);
    match failing.take(&error) {
        TurnEvent::Failed(s) => assert_eq!(s, "codex planner turn failed: boom"),
        other => panic!("unexpected {:?}", other),
    }
    match failing.take(&done) {
        TurnEvent::Failed(s) => assert_eq!(s, "codex planner turn failed: boom"),
        other => panic!("unexpected {:?}", other),
    }
}

#[test]
fn requested_model_is_used_as_given() {
    assert!(matches!(decide_model(Some("gpt-x"), None), ModelDecision::Use(ref m) if m == "gpt-x"));
    let listed = json(r#"{"data":[{"model":"gpt-5.4"}]}"#);
    assert!(matches!(decide_model(Some("gpt-x"), Some(&listed)), ModelDecision::Use(ref m) if m == "gpt-x"));
    assert!(matches!(decide_model(None, None), ModelDecision::ListModels));
    assert!(matches!(decide_model(None, Some(&listed)), ModelDecision::Use(ref m) if m == "gpt-5.4"));
    match decide_model(None, Some(&json(r#"{"data":[]}"#))) {
        ModelDecision::Failed(s) => assert_eq!(s, "model/list returned zero visible models"),
        other => panic!("unexpected {:?}", other),
    }
}
