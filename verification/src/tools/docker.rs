//! `docker.remove_all_running_containers`: stops and removes every running
//! container. The Docker calls are made by the caller; this module reads the
//! tool's arguments, names the containers, decides what the preview shows,
//! and accounts for what became of each container.
use crate::error::AppError;
use crate::json::{
    as_bool, as_i64, deserialize_bool, deserialize_i32, field, get, get_array, is_object,
    json_view, length_error, value_type_error, JsonView,
};
use crate::planner::{ToolDefinition, ToolDefinitionView};
use crate::text::{
    first_chars, first_chars_str, join, join_strings, signed_decimal, strings_view,
    trim_start_char, trim_start_char_str, i64_text, u64_text, decimal,
};
use crate::tools::{
    docker_remove_all_tool_definition, docker_schema, ToolPreview, DOCKER_TOOL_DESCRIPTION,
    DOCKER_TOOL_NAME,
};
use vstd::prelude::*;

verus! {

/// The stop timeout used where the planner gives none.
pub fn default_stop_timeout_secs() -> (r: i32)
    ensures
        r == 10,
{
    10
}

/// The arguments of the tool.
#[derive(Debug, Clone, Copy, PartialEq, Eq, Structural)]
pub struct DockerRemoveAllRunningContainersArgs {
    /// Seconds Docker waits before it force-stops a container.
    pub stop_timeout_secs: i32,
    /// Whether anonymous volumes go with the containers.
    pub remove_anonymous_volumes: bool,
}

/// Whether a value can be a stop timeout: an integer that fits in 32 bits.
pub open spec fn timeout_ok(v: JsonView) -> bool {
    match as_i64(v) {
        Some(n) => i32::MIN <= n <= i32::MAX,
        None => false,
    }
}

/// Whether the arguments are accepted, as the derived `Deserialize` of the
/// arguments reads them: an object by its members (others are ignored), an
/// array by position with at most two items; a timeout must be an integer
/// that fits in 32 bits, the volume flag a boolean.
pub open spec fn docker_args_accepted(j: JsonView) -> bool {
    match j {
        JsonView::Object(_) => (match field(j, "remove_anonymous_volumes"@) {
            None => true,
            Some(v) => v is Bool,
        }) && (match field(j, "stop_timeout_secs"@) {
            None => true,
            Some(v) => timeout_ok(v),
        }),
        JsonView::Array(items) => (items.len() > 0 ==> timeout_ok(items[0])) && (items.len() > 1
            ==> items[1] is Bool) && items.len() <= 2,
        _ => false,
    }
}

/// The arguments accepted ones give: a missing timeout is 10 seconds, a
/// missing volume flag is `false`.
pub open spec fn docker_args_of(j: JsonView) -> DockerRemoveAllRunningContainersArgs {
    match j {
        JsonView::Array(items) => DockerRemoveAllRunningContainersArgs {
            stop_timeout_secs: if items.len() > 0 {
                as_i64(items[0])->0 as i32
            } else {
                10
            },
            remove_anonymous_volumes: if items.len() > 1 {
                as_bool(items[1])->0
            } else {
                false
            },
        },
        _ => DockerRemoveAllRunningContainersArgs {
            stop_timeout_secs: match field(j, "stop_timeout_secs"@) {
                Some(v) => as_i64(v)->0 as i32,
                None => 10,
            },
            remove_anonymous_volumes: match field(j, "remove_anonymous_volumes"@) {
                Some(JsonView::Bool(b)) => b,
                _ => false,
            },
        },
    }
}

fn invalid(source: serde_json::Error) -> (r: AppError)
    ensures
        r matches AppError::InvalidToolArguments { tool, .. } && tool@ == DOCKER_TOOL_NAME@,
{
    AppError::InvalidToolArguments { tool: DOCKER_TOOL_NAME.to_owned(), source }
}

impl DockerRemoveAllRunningContainersArgs {
    /// Reads the planner's arguments for the tool. A refusal carries the
    /// error serde_json reports for the first argument found wrong: in key
    /// order for an object (`remove_anonymous_volumes` before
    /// `stop_timeout_secs`), in position order for an array, whose length is
    /// checked last.
    pub fn from_arguments(arguments: &serde_json::Value) -> (r: Result<Self, AppError>)
        ensures
            docker_args_accepted(json_view(*arguments)) ==> r == Ok::<Self, AppError>(
                docker_args_of(json_view(*arguments)),
            ),
            !docker_args_accepted(json_view(*arguments)) ==> (r matches Err(
                AppError::InvalidToolArguments { tool, .. },
            ) && tool@ == DOCKER_TOOL_NAME@),
    {
        if let Some(items) = get_array(arguments) {
            let stop_timeout_secs: i32 = if items.len() > 0 {
                match deserialize_i32(&items[0]) {
                    Ok(n) => n,
                    Err(source) => return Err(invalid(source)),
                }
            } else {
                default_stop_timeout_secs()
            };
            let remove_anonymous_volumes = if items.len() > 1 {
                match deserialize_bool(&items[1]) {
                    Ok(b) => b,
                    Err(source) => return Err(invalid(source)),
                }
            } else {
                false
            };
            if items.len() > 2 {
                return Err(invalid(length_error(items.len(), "fewer elements in array")));
            }
            return Ok(DockerRemoveAllRunningContainersArgs { stop_timeout_secs, remove_anonymous_volumes });
        }
        if !is_object(arguments) {
            return Err(
                invalid(value_type_error(arguments, "struct DockerRemoveAllRunningContainersArgs")),
            );
        }
        let remove_anonymous_volumes = match get(arguments, "remove_anonymous_volumes") {
            None => false,
            Some(v) => match deserialize_bool(v) {
                Ok(b) => b,
                Err(source) => return Err(invalid(source)),
            },
        };
        let stop_timeout_secs: i32 = match get(arguments, "stop_timeout_secs") {
            None => default_stop_timeout_secs(),
            Some(v) => match deserialize_i32(v) {
                Ok(n) => n,
                Err(source) => return Err(invalid(source)),
            },
        };
        Ok(DockerRemoveAllRunningContainersArgs { stop_timeout_secs, remove_anonymous_volumes })
    }
}

/// What Docker reports of a running container: its id and its names.
#[derive(Debug)]
pub struct ContainerInfo {
    pub id: Option<String>,
    pub names: Option<Vec<String>>,
}

pub struct ContainerView {
    pub id: Option<Seq<char>>,
    pub names: Option<Seq<Seq<char>>>,
}

impl View for ContainerInfo {
    type V = ContainerView;

    open spec fn view(&self) -> ContainerView {
        ContainerView {
            id: match self.id {
                Some(i) => Some(i@),
                None => None,
            },
            names: match self.names {
                Some(n) => Some(strings_view(n@)),
                None => None,
            },
        }
    }
}

/// The first name of a container without its leading slashes.
pub open spec fn first_name(c: ContainerView) -> Option<Seq<char>> {
    match c.names {
        Some(names) => if names.len() > 0 {
            Some(trim_start_char(names[0], '/'))
        } else {
            None
        },
        None => None,
    }
}

/// The handle Docker is called with: the id, else the first name.
pub open spec fn handle_of(c: ContainerView) -> Option<Seq<char>> {
    match c.id {
        Some(id) => Some(id),
        None => first_name(c),
    }
}

/// A short container id: its first twelve characters.
pub open spec fn short_id_of(id: Seq<char>) -> Seq<char> {
    first_chars(id, 12)
}

/// How a container is named to the user: `name (short id)`.
pub open spec fn label_of(c: ContainerView) -> Seq<char> {
    let name = match first_name(c) {
        Some(n) => n,
        None => "<unnamed>"@,
    };
    let id = match c.id {
        Some(i) => short_id_of(i),
        None => "unknown"@,
    };
    name + " ("@ + id + ")"@
}

/// The first twelve characters of a container id.
pub fn short_id(id: &str) -> (r: String)
    ensures
        r@ == short_id_of(id@),
{
    first_chars_str(id, 12)
}

fn first_name_of(container: &ContainerInfo) -> (r: Option<String>)
    ensures
        match first_name(container@) {
            Some(n) => (r matches Some(s) && s@ == n),
            None => r is None,
        },
{
    match &container.names {
        Some(names) => if names.len() > 0 {
            Some(trim_start_char_str(names[0].as_str(), '/'))
        } else {
            None
        },
        None => None,
    }
}

/// The handle to stop and remove a container by.
pub fn container_handle(container: &ContainerInfo) -> (r: Option<String>)
    ensures
        match handle_of(container@) {
            Some(h) => (r matches Some(s) && s@ == h),
            None => r is None,
        },
{
    match &container.id {
        Some(id) => Some(id.clone()),
        None => first_name_of(container),
    }
}

/// The label a container is shown with.
pub fn container_label(container: &ContainerInfo) -> (r: String)
    ensures
        r@ == label_of(container@),
{
    let mut out = match first_name_of(container) {
        Some(n) => n,
        None => "<unnamed>".to_owned(),
    };
    let id = match &container.id {
        Some(i) => short_id(i.as_str()),
        None => "unknown".to_owned(),
    };
    out.append(" (");
    out.append(id.as_str());
    out.append(")");
    out
}

pub open spec fn labels_of(cs: Seq<ContainerInfo>) -> Seq<Seq<char>> {
    cs.map_values(|c: ContainerInfo| label_of(c@))
}

/// The text that announces the removal.
pub open spec fn removal_headline(
    count: nat,
    args: DockerRemoveAllRunningContainersArgs,
) -> Seq<char> {
    "This will stop and remove "@ + decimal(count) + " running container(s) with a "@
        + signed_decimal(args.stop_timeout_secs as int) + " second stop timeout"@ + (
    if args.remove_anonymous_volumes {
        " and it will remove anonymous volumes"@
    } else {
        Seq::empty()
    }) + ":"@
}

/// A list item.
pub open spec fn bullet(s: Seq<char>) -> Seq<char> {
    "- "@ + s
}

pub open spec fn bullets(items: Seq<Seq<char>>) -> Seq<Seq<char>> {
    items.map_values(|s: Seq<char>| bullet(s))
}

/// The preview: with no running container there is nothing to do and
/// nothing to confirm; else the removal is announced, each container listed,
/// and the user must confirm.
pub open spec fn docker_preview(
    args: DockerRemoveAllRunningContainersArgs,
    containers: Seq<ContainerInfo>,
) -> (Option<Seq<char>>, bool, bool) {
    if containers.len() == 0 {
        (Some("No running Docker containers found."@), true, false)
    } else {
        (
            Some(
                join(
                    seq![removal_headline(containers.len(), args)] + bullets(labels_of(containers)),
                    "\n"@,
                ),
            ),
            false,
            true,
        )
    }
}

pub open spec fn preview_view(p: ToolPreview) -> (Option<Seq<char>>, bool, bool) {
    (
        match p.display {
            Some(d) => Some(d@),
            None => None,
        },
        p.is_noop,
        p.requires_confirmation,
    )
}

/// The tool that stops and removes every running container.
#[derive(Debug)]
pub struct DockerRemoveAllRunningContainersTool;

impl DockerRemoveAllRunningContainersTool {
    pub fn new() -> (r: Self) {
        DockerRemoveAllRunningContainersTool
    }

    /// The definition a planner is shown.
    pub fn definition(&self) -> (r: ToolDefinition)
        ensures
            r@ == (ToolDefinitionView {
                tool_type: "function"@,
                name: DOCKER_TOOL_NAME@,
                description: DOCKER_TOOL_DESCRIPTION@,
                parameters: docker_schema(),
            }),
    {
        docker_remove_all_tool_definition()
    }

    /// What the tool would do to the running containers.
    pub fn preview(
        &self,
        args: DockerRemoveAllRunningContainersArgs,
        containers: &Vec<ContainerInfo>,
    ) -> (r: ToolPreview)
        ensures
            preview_view(r) == docker_preview(args, containers@),
    {
        if containers.len() == 0 {
            return ToolPreview {
                display: Some("No running Docker containers found.".to_owned()),
                is_noop: true,
                requires_confirmation: false,
            };
        }
        let mut headline = "This will stop and remove ".to_owned();
        headline.append(u64_text(containers.len() as u64).as_str());
        headline.append(" running container(s) with a ");
        headline.append(i64_text(args.stop_timeout_secs as i64).as_str());
        headline.append(" second stop timeout");
        if args.remove_anonymous_volumes {
            headline.append(" and it will remove anonymous volumes");
        }
        headline.append(":");
        proof {
            reveal_strlit("");
            if !args.remove_anonymous_volumes {
                assert(Seq::<char>::empty() + ":"@ =~= ":"@);
            }
        }
        let mut lines: Vec<String> = Vec::new();
        lines.push(headline);
        let mut i: usize = 0;
        while i < containers.len()
            invariant
                i <= containers@.len(),
                lines@.len() == i + 1,
                strings_view(lines@) == seq![removal_headline(containers@.len(), args)] + bullets(
                    labels_of(containers@.subrange(0, i as int)),
                ),
            decreases containers@.len() - i,
        {
            let mut line = "- ".to_owned();
            line.append(container_label(&containers[i]).as_str());
            let ghost line_view = line@;
            let ghost old_lines = lines@;
            lines.push(line);
            proof {
                let head = seq![removal_headline(containers@.len(), args)];
                let prev = labels_of(containers@.subrange(0, i as int));
                let next = labels_of(containers@.subrange(0, i + 1));
                assert(next =~= prev.push(label_of(containers@[i as int]@)));
                assert(bullets(next) =~= bullets(prev).push(bullet(label_of(containers@[i as int]@))));
                assert(line_view == bullet(label_of(containers@[i as int]@)));
                assert(strings_view(lines@) =~= strings_view(old_lines).push(line_view));
                assert(strings_view(lines@) =~= head + bullets(next));
            }
            i = i + 1;
        }
        assert(containers@.subrange(0, containers@.len() as int) =~= containers@);
        ToolPreview {
            display: Some(join_strings(&lines, "\n")),
            is_noop: false,
            requires_confirmation: true,
        }
    }
}

/// What became of one running container.
#[derive(Debug)]
pub enum ContainerOutcome {
    /// Stopped and removed.
    Removed,
    /// Docker reported neither an id nor a name to call it by.
    MissingHandle,
    /// Stopping failed, for the reason the text gives.
    StopFailed(String),
    /// Removing failed, for the reason the text gives.
    RemoveFailed(String),
}

pub enum ContainerOutcomeView {
    Removed,
    MissingHandle,
    StopFailed(Seq<char>),
    RemoveFailed(Seq<char>),
}

pub open spec fn outcome_view(o: ContainerOutcome) -> ContainerOutcomeView {
    match o {
        ContainerOutcome::Removed => ContainerOutcomeView::Removed,
        ContainerOutcome::MissingHandle => ContainerOutcomeView::MissingHandle,
        ContainerOutcome::StopFailed(e) => ContainerOutcomeView::StopFailed(e@),
        ContainerOutcome::RemoveFailed(e) => ContainerOutcomeView::RemoveFailed(e@),
    }
}

/// The next thing to do for one running container.
#[derive(Debug)]
pub enum ContainerAction {
    /// Stop the container Docker knows by this handle.
    Stop(String),
    /// Remove the container Docker knows by this handle.
    Remove(String),
    /// The container is done with: record what became of it.
    Record(ContainerOutcome),
}

pub enum ContainerActionView {
    Stop(Seq<char>),
    Remove(Seq<char>),
    Record(ContainerOutcomeView),
}

pub open spec fn action_view(a: ContainerAction) -> ContainerActionView {
    match a {
        ContainerAction::Stop(h) => ContainerActionView::Stop(h@),
        ContainerAction::Remove(h) => ContainerActionView::Remove(h@),
        ContainerAction::Record(o) => ContainerActionView::Record(outcome_view(o)),
    }
}

/// The reply of a Docker call already made: `None` where it was not made,
/// else success or the error's text.
pub open spec fn reply_view(r: Option<Result<(), String>>) -> Option<Result<(), Seq<char>>> {
    match r {
        None => None,
        Some(Ok(())) => Some(Ok(())),
        Some(Err(e)) => Some(Err(e@)),
    }
}

/// How one running container is removed: a container without a handle is
/// skipped; else it is stopped first, and removed only once it stopped; a
/// failed stop or removal ends its handling with that failure.
pub open spec fn container_step_of(
    c: ContainerView,
    stopped: Option<Result<(), Seq<char>>>,
    removed: Option<Result<(), Seq<char>>>,
) -> ContainerActionView {
    match handle_of(c) {
        None => ContainerActionView::Record(ContainerOutcomeView::MissingHandle),
        Some(h) => match stopped {
            None => ContainerActionView::Stop(h),
            Some(Err(e)) => ContainerActionView::Record(ContainerOutcomeView::StopFailed(e)),
            Some(Ok(())) => match removed {
                None => ContainerActionView::Remove(h),
                Some(Err(e)) => ContainerActionView::Record(ContainerOutcomeView::RemoveFailed(e)),
                Some(Ok(())) => ContainerActionView::Record(ContainerOutcomeView::Removed),
            },
        },
    }
}

/// Decides the next step for a running container, given the replies of the
/// stop and remove calls made for it so far.
pub fn container_step(
    container: &ContainerInfo,
    stopped: Option<Result<(), String>>,
    removed: Option<Result<(), String>>,
) -> (r: ContainerAction)
    ensures
        action_view(r) == container_step_of(container@, reply_view(stopped), reply_view(removed)),
{
    let handle = match container_handle(container) {
        Some(h) => h,
        None => return ContainerAction::Record(ContainerOutcome::MissingHandle),
    };
    match stopped {
        None => ContainerAction::Stop(handle),
        Some(Err(e)) => ContainerAction::Record(ContainerOutcome::StopFailed(e)),
        Some(Ok(())) => match removed {
            None => ContainerAction::Remove(handle),
            Some(Err(e)) => ContainerAction::Record(ContainerOutcome::RemoveFailed(e)),
            Some(Ok(())) => ContainerAction::Record(ContainerOutcome::Removed),
        },
    }
}

/// A container is removed only after it was stopped, is counted as removed
/// only when both calls succeeded, and is never stopped twice nor called
/// again once its handling ended with a failure.
pub proof fn lemma_remove_only_after_stop(
    c: ContainerView,
    stopped: Option<Result<(), Seq<char>>>,
    removed: Option<Result<(), Seq<char>>>,
)
    ensures
        container_step_of(c, stopped, removed) is Remove ==> stopped == Some(
            Ok::<(), Seq<char>>(()),
        ) && removed is None,
        container_step_of(c, stopped, removed) is Stop ==> stopped is None,
        container_step_of(c, stopped, removed) == ContainerActionView::Record(
            ContainerOutcomeView::Removed,
        ) ==> stopped == Some(Ok::<(), Seq<char>>(())) && removed == Some(Ok::<(), Seq<char>>(())),
        handle_of(c) is None ==> container_step_of(c, stopped, removed)
            == ContainerActionView::Record(ContainerOutcomeView::MissingHandle),
{
    match stopped {
        Some(Ok(_u)) => {
            assert(stopped == Some(Ok::<(), Seq<char>>(())));
            match removed {
                Some(Ok(_v)) => assert(removed == Some(Ok::<(), Seq<char>>(()))),
                _ => {},
            }
        },
        _ => {},
    }
}

/// The containers removed and the failures, each as a line of text, in the
/// order the containers were handled.
#[derive(Debug)]
pub struct RemovalReport {
    pub removed: Vec<String>,
    pub failures: Vec<String>,
}

/// The line an outcome adds to the failures, if it is one.
pub open spec fn failure_line(label: Seq<char>, outcome: ContainerOutcome) -> Option<Seq<char>> {
    match outcome {
        ContainerOutcome::Removed => None,
        ContainerOutcome::MissingHandle => Some(label + ": missing Docker handle"@),
        ContainerOutcome::StopFailed(e) => Some(label + ": failed to stop: "@ + e@),
        ContainerOutcome::RemoveFailed(e) => Some(label + ": failed to remove: "@ + e@),
    }
}

/// The lines of the final report: how many containers were removed, which,
/// and, after a blank line, the failures.
pub open spec fn report_lines(removed: Seq<Seq<char>>, failures: Seq<Seq<char>>) -> Seq<Seq<char>> {
    seq!["Removed "@ + decimal(removed.len()) + " running Docker container(s)."@] + (if removed.len()
        > 0 {
        seq!["Removed:"@] + bullets(removed)
    } else {
        Seq::empty()
    }) + (if failures.len() > 0 {
        seq![Seq::empty(), "Failures:"@] + bullets(failures)
    } else {
        Seq::empty()
    })
}

fn push_bullets(lines: &mut Vec<String>, items: &Vec<String>)
    ensures
        strings_view(final(lines)@) == strings_view(old(lines)@) + bullets(strings_view(items@)),
{
    let ghost start = strings_view(lines@);
    let mut i: usize = 0;
    while i < items.len()
        invariant
            i <= items@.len(),
            strings_view(lines@) == start + bullets(strings_view(items@.subrange(0, i as int))),
        decreases items@.len() - i,
    {
        let mut line = "- ".to_owned();
        line.append(items[i].as_str());
        let ghost line_view = line@;
        let ghost old_lines = lines@;
        lines.push(line);
        proof {
            let prev = strings_view(items@.subrange(0, i as int));
            let next = strings_view(items@.subrange(0, i + 1));
            assert(next =~= prev.push(items@[i as int]@));
            assert(bullets(next) =~= bullets(prev).push(bullet(items@[i as int]@)));
            assert(strings_view(lines@) =~= strings_view(old_lines).push(line_view));
            assert(strings_view(lines@) =~= start + bullets(next));
        }
        i = i + 1;
    }
    assert(items@.subrange(0, items@.len() as int) =~= items@);
}

impl RemovalReport {
    /// A report of no container yet.
    pub fn new() -> (r: Self)
        ensures
            r.removed@.len() == 0,
            r.failures@.len() == 0,
    {
        RemovalReport { removed: Vec::new(), failures: Vec::new() }
    }

    /// Adds what became of the container shown as `label`: a removed one to
    /// the removed list, any other outcome to the failures.
    pub fn record(&mut self, label: String, outcome: ContainerOutcome)
        ensures
            match failure_line(label@, outcome) {
                None => strings_view(final(self).removed@) == strings_view(old(self).removed@).push(
                    label@,
                ) && final(self).failures@ == old(self).failures@,
                Some(line) => strings_view(final(self).failures@) == strings_view(
                    old(self).failures@,
                ).push(line) && final(self).removed@ == old(self).removed@,
            },
            final(self).removed@.len() + final(self).failures@.len() == old(self).removed@.len()
                + old(self).failures@.len() + 1,
    {
        let ghost label_view = label@;
        match outcome {
            ContainerOutcome::Removed => {
                self.removed.push(label);
                assert(strings_view(self.removed@) =~= strings_view(old(self).removed@).push(
                    label_view,
                ));
            },
            ContainerOutcome::MissingHandle => {
                let mut line = label;
                line.append(": missing Docker handle");
                let ghost l = line@;
                self.failures.push(line);
                assert(strings_view(self.failures@) =~= strings_view(old(self).failures@).push(l));
            },
            ContainerOutcome::StopFailed(e) => {
                let mut line = label;
                line.append(": failed to stop: ");
                line.append(e.as_str());
                let ghost l = line@;
                self.failures.push(line);
                assert(strings_view(self.failures@) =~= strings_view(old(self).failures@).push(l));
            },
            ContainerOutcome::RemoveFailed(e) => {
                let mut line = label;
                line.append(": failed to remove: ");
                line.append(e.as_str());
                let ghost l = line@;
                self.failures.push(line);
                assert(strings_view(self.failures@) =~= strings_view(old(self).failures@).push(l));
            },
        }
    }

    /// The report shown after the run.
    pub fn render(&self) -> (r: String)
        ensures
            r@ == join(
                report_lines(strings_view(self.removed@), strings_view(self.failures@)),
                "\n"@,
            ),
    {
        let mut head = "Removed ".to_owned();
        head.append(u64_text(self.removed.len() as u64).as_str());
        head.append(" running Docker container(s).");
        let mut lines: Vec<String> = Vec::new();
        lines.push(head);
        let ghost removed = strings_view(self.removed@);
        let ghost failures = strings_view(self.failures@);
        let ghost first = strings_view(lines@);
        if self.removed.len() > 0 {
            lines.push("Removed:".to_owned());
            push_bullets(&mut lines, &self.removed);
        }
        let ghost second = strings_view(lines@);
        proof {
            reveal_strlit("");
            if removed.len() > 0 {
                assert(second =~= first.push("Removed:"@) + bullets(removed));
            } else {
                assert(second =~= first);
            }
        }
        if self.failures.len() > 0 {
            lines.push(String::new());
            lines.push("Failures:".to_owned());
            push_bullets(&mut lines, &self.failures);
        }
        proof {
            let want = report_lines(removed, failures);
            if failures.len() > 0 {
                assert(strings_view(lines@) =~= second.push(Seq::empty()).push("Failures:"@)
                    + bullets(failures));
            }
            assert(strings_view(lines@) =~= want);
        }
        join_strings(&lines, "\n")
    }
}

/// The outcome of a run that found no running container.
pub fn no_running_containers() -> (r: crate::tools::ToolExecutionOutcome)
    ensures
        r.display@ == "No running Docker containers found."@,
{
    crate::tools::ToolExecutionOutcome { display: "No running Docker containers found.".to_owned() }
}

} // verus!
