//! The decisions of a session: what a line typed at the prompt means, what
//! a planner's reply leads to, whether a previewed tool runs, asks first, or
//! stops, and what counts as a yes at the confirmation prompt.
use crate::error::AppError;
use crate::planner::{calls_view, Message, MessageView, ToolCall, ToolCallView};
use crate::text::{
    ascii_lower, ascii_lowercase, chars_of, decimal, str_eq, sub_string, trim, trim_bounds,
    trim_str, u64_text,
};
use crate::tools::ToolPreview;
use vstd::prelude::*;

verus! {

/// What a line read at the interactive prompt means.
#[derive(Debug)]
pub enum InputAction {
    /// The input ended.
    EndOfInput,
    /// The user typed `exit` or `quit`.
    Quit,
    /// A blank line.
    Skip,
    /// A request, without surrounding whitespace.
    Prompt(String),
}

pub enum InputActionView {
    EndOfInput,
    Quit,
    Skip,
    Prompt(Seq<char>),
}

pub open spec fn input_action_view(a: InputAction) -> InputActionView {
    match a {
        InputAction::EndOfInput => InputActionView::EndOfInput,
        InputAction::Quit => InputActionView::Quit,
        InputAction::Skip => InputActionView::Skip,
        InputAction::Prompt(s) => InputActionView::Prompt(s@),
    }
}

/// The meaning of a line: no bytes read ends the input; a blank line is
/// skipped; `exit` and `quit` leave; anything else is a request.
pub open spec fn input_action(bytes_read: nat, line: Seq<char>) -> InputActionView {
    if bytes_read == 0 {
        InputActionView::EndOfInput
    } else if trim(line).len() == 0 {
        InputActionView::Skip
    } else if trim(line) == "exit"@ || trim(line) == "quit"@ {
        InputActionView::Quit
    } else {
        InputActionView::Prompt(trim(line))
    }
}

/// Reads a line typed at the interactive prompt.
pub fn interactive_input(bytes_read: usize, line: &str) -> (r: InputAction)
    ensures
        input_action_view(r) == input_action(bytes_read as nat, line@),
{
    if bytes_read == 0 {
        return InputAction::EndOfInput;
    }
    let prompt = trim_str(line);
    if prompt.as_str().is_empty() {
        return InputAction::Skip;
    }
    if str_eq(prompt.as_str(), "exit") || str_eq(prompt.as_str(), "quit") {
        return InputAction::Quit;
    }
    InputAction::Prompt(prompt)
}

/// The text shown when the planner matched no tool and said nothing.
pub open spec fn no_match_text() -> Seq<char> {
    "B-Bot could not match that request to its current tool set."@
}

/// What a planner's reply leads to.
#[derive(Debug)]
pub enum PlanDecision {
    /// Run the one tool call the reply asks for.
    RunTool(ToolCall),
    /// Show this text, and keep the request in the tooling-gap log.
    Reply(String),
    /// Refuse the reply.
    Reject(AppError),
}

pub enum PlanDecisionView {
    RunTool(ToolCallView),
    Reply(Seq<char>),
    Reject(Seq<char>),
}

pub open spec fn plan_decision_view(d: PlanDecision) -> PlanDecisionView {
    match d {
        PlanDecision::RunTool(c) => PlanDecisionView::RunTool(c@),
        PlanDecision::Reply(s) => PlanDecisionView::Reply(s@),
        PlanDecision::Reject(AppError::Message(m)) => PlanDecisionView::Reject(m@),
        PlanDecision::Reject(_) => PlanDecisionView::Reject(Seq::empty()),
    }
}

/// A reply with tool calls runs its call where it holds exactly one and is
/// refused otherwise; a reply without tool calls is shown as text (a fixed
/// notice where it has none) and counts as a tooling gap.
pub open spec fn plan_decision(m: MessageView) -> PlanDecisionView {
    match m.tool_calls {
        Some(calls) => if calls.len() == 1 {
            PlanDecisionView::RunTool(calls[0])
        } else {
            PlanDecisionView::Reject(
                "expected exactly one tool call, got "@ + decimal(calls.len()),
            )
        },
        None => PlanDecisionView::Reply(
            match m.content {
                Some(c) => c,
                None => no_match_text(),
            },
        ),
    }
}

/// Decides what a planner's reply leads to.
pub fn decide_plan(message: Message) -> (r: PlanDecision)
    ensures
        plan_decision_view(r) == plan_decision(message@),
{
    let ghost m = message@;
    match message.tool_calls {
        Some(mut calls) => {
            if calls.len() == 1 {
                let call = calls.remove(0);
                PlanDecision::RunTool(call)
            } else {
                let mut text = "expected exactly one tool call, got ".to_owned();
                text.append(u64_text(calls.len() as u64).as_str());
                PlanDecision::Reject(AppError::Message(text))
            }
        },
        None => match message.content {
            Some(c) => PlanDecision::Reply(c),
            None => PlanDecision::Reply(
                "B-Bot could not match that request to its current tool set.".to_owned(),
            ),
        },
    }
}

/// What happens after a tool's preview is shown.
#[derive(Debug, Clone, Copy, PartialEq, Eq, Structural)]
pub enum PreviewDecision {
    /// A dry run: stop here.
    DryRun,
    /// Nothing to do: skip the run and the confirmation.
    NothingToDo,
    /// Ask the user before running.
    Confirm,
    /// Run the tool.
    Execute,
}

/// A dry run stops after the preview; a preview with nothing to do skips the
/// run; a tool that needs confirmation asks unless `--yes` was given; else
/// the tool runs.
pub open spec fn preview_decision(
    is_noop: bool,
    requires_confirmation: bool,
    dry_run: bool,
    yes: bool,
) -> PreviewDecision {
    if dry_run {
        PreviewDecision::DryRun
    } else if is_noop {
        PreviewDecision::NothingToDo
    } else if requires_confirmation && !yes {
        PreviewDecision::Confirm
    } else {
        PreviewDecision::Execute
    }
}

/// Decides what happens after a preview.
pub fn decide_preview(preview: &ToolPreview, dry_run: bool, yes: bool) -> (r: PreviewDecision)
    ensures
        r == preview_decision(preview.is_noop, preview.requires_confirmation, dry_run, yes),
{
    if dry_run {
        PreviewDecision::DryRun
    } else if preview.is_noop {
        PreviewDecision::NothingToDo
    } else if preview.requires_confirmation && !yes {
        PreviewDecision::Confirm
    } else {
        PreviewDecision::Execute
    }
}

/// Whether an answer at the confirmation prompt is a yes: `y` or `yes` in
/// any ASCII case, with surrounding whitespace ignored.
pub open spec fn is_yes(answer: Seq<char>) -> bool {
    let a = ascii_lowercase(trim(answer));
    a == "y"@ || a == "yes"@
}

/// Reads the answer at the confirmation prompt: a yes lets the tool run,
/// anything else declines.
pub fn confirmation_answer(answer: &str) -> (r: Result<(), AppError>)
    ensures
        is_yes(answer@) ==> r is Ok,
        !is_yes(answer@) ==> (r matches Err(AppError::UserDeclined)),
{
    let trimmed = trim_str(answer);
    let cs = chars_of(trimmed.as_str());
    let mut lower: Vec<char> = Vec::new();
    let mut i: usize = 0;
    while i < cs.len()
        invariant
            i <= cs@.len(),
            lower@ == ascii_lowercase(cs@.subrange(0, i as int)),
        decreases cs@.len() - i,
    {
        let c = cs[i];
        let l = if 'A' <= c && c <= 'Z' {
            ((c as u8) + 32) as char
        } else {
            c
        };
        proof {
            assert(l == ascii_lower(c)) by {
                if 'A' <= c && c <= 'Z' {
                    assert((c as u8) as u32 == c as u32);
                }
            }
        }
        lower.push(l);
        assert(lower@ =~= ascii_lowercase(cs@.subrange(0, i + 1)));
        i = i + 1;
    }
    assert(cs@.subrange(0, cs@.len() as int) =~= cs@);
    let text = sub_string(&lower, 0, lower.len());
    assert(lower@.subrange(0, lower@.len() as int) =~= lower@);
    if str_eq(text.as_str(), "y") || str_eq(text.as_str(), "yes") {
        Ok(())
    } else {
        Err(AppError::UserDeclined)
    }
}

/// A dry run stops after the preview: it never runs a tool, nor asks to.
pub proof fn lemma_dry_run_never_executes(is_noop: bool, requires_confirmation: bool, yes: bool)
    ensures
        preview_decision(is_noop, requires_confirmation, true, yes) == PreviewDecision::DryRun,
{
}

/// A tool runs only where there is something to do, outside a dry run, and
/// either its preview needs no confirmation or `--yes` was given; a tool
/// whose preview needs confirmation is asked about unless `--yes` was given.
pub proof fn lemma_no_unconfirmed_execution(
    is_noop: bool,
    requires_confirmation: bool,
    dry_run: bool,
    yes: bool,
)
    ensures
        preview_decision(is_noop, requires_confirmation, dry_run, yes) == PreviewDecision::Execute
            ==> !dry_run && !is_noop && (!requires_confirmation || yes),
        !dry_run && !is_noop && requires_confirmation && !yes ==> preview_decision(
            is_noop,
            requires_confirmation,
            dry_run,
            yes,
        ) == PreviewDecision::Confirm,
{
}

/// Confirmation is asked exactly for a tool whose preview needs it, outside a
/// dry run, with something to do and without `--yes`; every other preview
/// with something to do, outside a dry run, runs the tool, whatever `--yes`
/// says of a tool that needs no confirmation.
pub proof fn lemma_confirmation_only_when_needed(
    is_noop: bool,
    requires_confirmation: bool,
    dry_run: bool,
    yes: bool,
)
    ensures
        (preview_decision(is_noop, requires_confirmation, dry_run, yes) == PreviewDecision::Confirm)
            <==> (!dry_run && !is_noop && requires_confirmation && !yes),
        (preview_decision(is_noop, requires_confirmation, dry_run, yes) == PreviewDecision::Execute)
            <==> (!dry_run && !is_noop && (!requires_confirmation || yes)),
        !dry_run && !is_noop && !requires_confirmation ==> preview_decision(
            is_noop,
            requires_confirmation,
            dry_run,
            true,
        ) == preview_decision(is_noop, requires_confirmation, dry_run, false),
{
}

/// A reply that carries tool calls never becomes a text reply, whatever its
/// text: it runs its call where it holds exactly one, else it is refused,
/// and its text plays no part. Only a reply without tool calls is shown as
/// text and kept as a tooling gap.
pub proof fn lemma_tool_calls_decide_the_plan(m: MessageView, other_content: Option<Seq<char>>)
    ensures
        (plan_decision(m) is Reply) <==> (m.tool_calls is None),
        m.tool_calls is Some && m.tool_calls->0.len() == 1 ==> plan_decision(m)
            == PlanDecisionView::RunTool(m.tool_calls->0[0]),
        m.tool_calls is Some && m.tool_calls->0.len() != 1 ==> plan_decision(m) is Reject,
        m.tool_calls is Some ==> plan_decision(m) == plan_decision(
            MessageView { content: other_content, ..m },
        ),
        m.tool_calls is None && m.content is Some ==> plan_decision(m) == PlanDecisionView::Reply(
            m.content->0,
        ),
{
}

/// Removing running Docker containers always asks first unless `--yes` was
/// given; with no container running, nothing runs and nothing is asked.
pub proof fn lemma_docker_removal_confirmed(
    args: crate::tools::docker::DockerRemoveAllRunningContainersArgs,
    containers: Seq<crate::tools::docker::ContainerInfo>,
    yes: bool,
)
    ensures
        ({
            let p = crate::tools::docker::docker_preview(args, containers);
            let d = preview_decision(p.1, p.2, false, yes);
            &&& containers.len() > 0 && !yes ==> d == PreviewDecision::Confirm
            &&& containers.len() > 0 && yes ==> d == PreviewDecision::Execute
            &&& containers.len() == 0 ==> d == PreviewDecision::NothingToDo
        }),
{
}

} // verus!
