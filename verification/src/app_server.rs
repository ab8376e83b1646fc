//! The Codex app-server protocol as the Codex planner speaks it: wire names,
//! the JSON-RPC messages it sends, and the decisions it takes on what the
//! server sends back.
use crate::codex::{CodexPlannerConfig, ReasoningEffort};
use crate::json::{
    array, as_bool, as_i64, as_str, as_u64, boolean, clone_value, entries_view, field,
    bool_field_or, boolean_field_or, field_or_null, get, get_array, get_bool, get_i64, get_str, get_u64, is_null, json_parse,
    json_text, json_view, map_of_entries, number_i64, number_u64, object, parse_json, signed,
    str_field_or, string, string_field_or, strings_in, strings_of, to_text, unsigned,
    values_view, JsonView,
};
use crate::text::{
    chars_of, decimal, i64_text, join, join_strings, signed_decimal, str_eq, strings_view, trim,
    trim_bounds,
};
use vstd::prelude::*;

verus! {

/// The methods the client calls on the app-server.
#[derive(Debug, Clone, Copy, PartialEq, Eq, Structural)]
pub enum ClientMethod {
    Initialize,
    Initialized,
    AccountRead,
    AccountLoginStart,
    ConfigRequirementsRead,
    ModelList,
    ThreadStart,
    TurnStart,
}

impl ClientMethod {
    pub open spec fn wire(self) -> Seq<char> {
        match self {
            ClientMethod::Initialize => "initialize"@,
            ClientMethod::Initialized => "initialized"@,
            ClientMethod::AccountRead => "account/read"@,
            ClientMethod::AccountLoginStart => "account/login/start"@,
            ClientMethod::ConfigRequirementsRead => "configRequirements/read"@,
            ClientMethod::ModelList => "model/list"@,
            ClientMethod::ThreadStart => "thread/start"@,
            ClientMethod::TurnStart => "turn/start"@,
        }
    }

    /// The method name on the wire.
    pub fn as_str(&self) -> (r: &'static str)
        ensures
            r@ == self.wire(),
    {
        match self {
            ClientMethod::Initialize => "initialize",
            ClientMethod::Initialized => "initialized",
            ClientMethod::AccountRead => "account/read",
            ClientMethod::AccountLoginStart => "account/login/start",
            ClientMethod::ConfigRequirementsRead => "configRequirements/read",
            ClientMethod::ModelList => "model/list",
            ClientMethod::ThreadStart => "thread/start",
            ClientMethod::TurnStart => "turn/start",
        }
    }
}

/// The notifications and requests the server sends.
#[derive(Debug)]
pub enum ServerMethod {
    AccountLoginCompleted,
    ItemAgentMessageDelta,
    ItemCompleted,
    TurnCompleted,
    Error,
    Unknown(String),
}

pub enum ServerMethodView {
    AccountLoginCompleted,
    ItemAgentMessageDelta,
    ItemCompleted,
    TurnCompleted,
    Error,
    Unknown(Seq<char>),
}

impl View for ServerMethod {
    type V = ServerMethodView;

    open spec fn view(&self) -> ServerMethodView {
        match self {
            ServerMethod::AccountLoginCompleted => ServerMethodView::AccountLoginCompleted,
            ServerMethod::ItemAgentMessageDelta => ServerMethodView::ItemAgentMessageDelta,
            ServerMethod::ItemCompleted => ServerMethodView::ItemCompleted,
            ServerMethod::TurnCompleted => ServerMethodView::TurnCompleted,
            ServerMethod::Error => ServerMethodView::Error,
            ServerMethod::Unknown(s) => ServerMethodView::Unknown(s@),
        }
    }
}

impl ServerMethodView {
    pub open spec fn from_wire(s: Seq<char>) -> Self {
        if s == "account/login/completed"@ {
            ServerMethodView::AccountLoginCompleted
        } else if s == "item/agentMessage/delta"@ {
            ServerMethodView::ItemAgentMessageDelta
        } else if s == "item/completed"@ {
            ServerMethodView::ItemCompleted
        } else if s == "turn/completed"@ {
            ServerMethodView::TurnCompleted
        } else if s == "error"@ {
            ServerMethodView::Error
        } else {
            ServerMethodView::Unknown(s)
        }
    }

    pub open spec fn wire(self) -> Seq<char> {
        match self {
            ServerMethodView::AccountLoginCompleted => "account/login/completed"@,
            ServerMethodView::ItemAgentMessageDelta => "item/agentMessage/delta"@,
            ServerMethodView::ItemCompleted => "item/completed"@,
            ServerMethodView::TurnCompleted => "turn/completed"@,
            ServerMethodView::Error => "error"@,
            ServerMethodView::Unknown(s) => s,
        }
    }
}

impl ServerMethod {
    /// The server method that a wire name names; any other name is kept as
    /// `Unknown`.
    pub fn from_wire(value: &str) -> (r: Self)
        ensures
            r@ == ServerMethodView::from_wire(value@),
    {
        if str_eq(value, "account/login/completed") {
            ServerMethod::AccountLoginCompleted
        } else if str_eq(value, "item/agentMessage/delta") {
            ServerMethod::ItemAgentMessageDelta
        } else if str_eq(value, "item/completed") {
            ServerMethod::ItemCompleted
        } else if str_eq(value, "turn/completed") {
            ServerMethod::TurnCompleted
        } else if str_eq(value, "error") {
            ServerMethod::Error
        } else {
            ServerMethod::Unknown(value.to_owned())
        }
    }

    /// The wire name of the method.
    pub fn as_str(&self) -> (r: &str)
        ensures
            r@ == self@.wire(),
    {
        match self {
            ServerMethod::AccountLoginCompleted => "account/login/completed",
            ServerMethod::ItemAgentMessageDelta => "item/agentMessage/delta",
            ServerMethod::ItemCompleted => "item/completed",
            ServerMethod::TurnCompleted => "turn/completed",
            ServerMethod::Error => "error",
            ServerMethod::Unknown(other) => other.as_str(),
        }
    }
}

/// The approval policies a thread can run under.
#[derive(Debug, Clone, Copy, PartialEq, Eq, Structural)]
pub enum ApprovalPolicy {
    Never,
    OnFailure,
    Untrusted,
    OnRequest,
}

impl ApprovalPolicy {
    pub open spec fn wire(self) -> Seq<char> {
        match self {
            ApprovalPolicy::Never => "never"@,
            ApprovalPolicy::OnFailure => "on-failure"@,
            ApprovalPolicy::Untrusted => "untrusted"@,
            ApprovalPolicy::OnRequest => "on-request"@,
        }
    }

    pub open spec fn parse(s: Seq<char>) -> Option<Self> {
        if s == "never"@ {
            Some(ApprovalPolicy::Never)
        } else if s == "on-failure"@ {
            Some(ApprovalPolicy::OnFailure)
        } else if s == "untrusted"@ {
            Some(ApprovalPolicy::Untrusted)
        } else if s == "on-request"@ {
            Some(ApprovalPolicy::OnRequest)
        } else {
            None
        }
    }

    /// The policies in the order the planner prefers them.
    pub open spec fn preferred() -> Seq<Self> {
        seq![
            ApprovalPolicy::Never,
            ApprovalPolicy::OnFailure,
            ApprovalPolicy::Untrusted,
            ApprovalPolicy::OnRequest,
        ]
    }

    /// The policy a wire name names.
    pub fn from_wire(value: &str) -> (r: Option<Self>)
        ensures
            r == Self::parse(value@),
    {
        if str_eq(value, "never") {
            Some(ApprovalPolicy::Never)
        } else if str_eq(value, "on-failure") {
            Some(ApprovalPolicy::OnFailure)
        } else if str_eq(value, "untrusted") {
            Some(ApprovalPolicy::Untrusted)
        } else if str_eq(value, "on-request") {
            Some(ApprovalPolicy::OnRequest)
        } else {
            None
        }
    }

    /// The wire name of the policy.
    pub fn as_str(&self) -> (r: &'static str)
        ensures
            r@ == self.wire(),
    {
        match self {
            ApprovalPolicy::Never => "never",
            ApprovalPolicy::OnFailure => "on-failure",
            ApprovalPolicy::Untrusted => "untrusted",
            ApprovalPolicy::OnRequest => "on-request",
        }
    }
}

impl Default for ApprovalPolicy {
    fn default() -> (r: Self)
        ensures
            r == ApprovalPolicy::Never,
    {
        ApprovalPolicy::Never
    }
}

/// The sandbox a thread runs in.
#[derive(Debug, Clone, Copy, PartialEq, Eq, Structural)]
pub enum ThreadSandboxMode {
    WorkspaceWrite,
    ReadOnly,
    DangerFullAccess,
}

impl ThreadSandboxMode {
    pub open spec fn wire(self) -> Seq<char> {
        match self {
            ThreadSandboxMode::WorkspaceWrite => "workspace-write"@,
            ThreadSandboxMode::ReadOnly => "read-only"@,
            ThreadSandboxMode::DangerFullAccess => "danger-full-access"@,
        }
    }

    pub open spec fn parse(s: Seq<char>) -> Option<Self> {
        if s == "workspace-write"@ {
            Some(ThreadSandboxMode::WorkspaceWrite)
        } else if s == "read-only"@ {
            Some(ThreadSandboxMode::ReadOnly)
        } else if s == "danger-full-access"@ {
            Some(ThreadSandboxMode::DangerFullAccess)
        } else {
            None
        }
    }

    /// The modes in the order the planner prefers them.
    pub open spec fn preferred() -> Seq<Self> {
        seq![
            ThreadSandboxMode::ReadOnly,
            ThreadSandboxMode::WorkspaceWrite,
            ThreadSandboxMode::DangerFullAccess,
        ]
    }

    /// The sandbox policy object a turn carries for this mode.
    pub open spec fn policy(self, cwd: Seq<char>, network_access: bool) -> JsonView {
        match self {
            ThreadSandboxMode::ReadOnly => JsonView::Object(
                map![
                    "type"@ => JsonView::Str("readOnly"@),
                    "access"@ => JsonView::Object(map!["type"@ => JsonView::Str("fullAccess"@)]),
                ],
            ),
            ThreadSandboxMode::DangerFullAccess => JsonView::Object(
                map!["type"@ => JsonView::Str("dangerFullAccess"@)],
            ),
            ThreadSandboxMode::WorkspaceWrite => JsonView::Object(
                map![
                    "type"@ => JsonView::Str("workspaceWrite"@),
                    "writableRoots"@ => JsonView::Array(seq![JsonView::Str(cwd)]),
                    "networkAccess"@ => JsonView::Bool(network_access),
                ],
            ),
        }
    }

    /// The mode a wire name names.
    pub fn from_wire(value: &str) -> (r: Option<Self>)
        ensures
            r == Self::parse(value@),
    {
        if str_eq(value, "workspace-write") {
            Some(ThreadSandboxMode::WorkspaceWrite)
        } else if str_eq(value, "read-only") {
            Some(ThreadSandboxMode::ReadOnly)
        } else if str_eq(value, "danger-full-access") {
            Some(ThreadSandboxMode::DangerFullAccess)
        } else {
            None
        }
    }

    /// The wire name of the mode.
    pub fn as_str(&self) -> (r: &'static str)
        ensures
            r@ == self.wire(),
    {
        match self {
            ThreadSandboxMode::WorkspaceWrite => "workspace-write",
            ThreadSandboxMode::ReadOnly => "read-only",
            ThreadSandboxMode::DangerFullAccess => "danger-full-access",
        }
    }

    /// The sandbox policy of a turn: a read-only or unrestricted policy, or
    /// a workspace-write policy rooted at `cwd` with the given network access.
    pub fn turn_policy_json(self, cwd: &str, network_access: bool) -> (r: serde_json::Value)
        ensures
            json_view(r) == self.policy(cwd@, network_access),
    {
        proof {
            reveal_with_fuel(map_of_entries, 4);
        }
        match self {
            ThreadSandboxMode::ReadOnly => {
                let mut access: Vec<(String, serde_json::Value)> = Vec::new();
                access.push(("type".to_owned(), string("fullAccess".to_owned())));
                let access = object(access);
                let mut e: Vec<(String, serde_json::Value)> = Vec::new();
                e.push(("type".to_owned(), string("readOnly".to_owned())));
                e.push(("access".to_owned(), access));
                proof {
                    reveal_strlit("type");
                    reveal_strlit("access");
                    assert(map_of_entries(entries_view(e@)) =~= map![
                        "type"@ => JsonView::Str("readOnly"@),
                        "access"@ => JsonView::Object(map!["type"@ => JsonView::Str("fullAccess"@)]),
                    ]);
                }
                object(e)
            },
            ThreadSandboxMode::DangerFullAccess => {
                let mut e: Vec<(String, serde_json::Value)> = Vec::new();
                e.push(("type".to_owned(), string("dangerFullAccess".to_owned())));
                proof {
                    assert(map_of_entries(entries_view(e@)) =~= map![
                        "type"@ => JsonView::Str("dangerFullAccess"@),
                    ]);
                }
                object(e)
            },
            ThreadSandboxMode::WorkspaceWrite => {
                let mut roots: Vec<serde_json::Value> = Vec::new();
                roots.push(string(cwd.to_owned()));
                proof {
                    assert(values_view(roots@) =~= seq![JsonView::Str(cwd@)]);
                }
                let roots = array(roots);
                let mut e: Vec<(String, serde_json::Value)> = Vec::new();
                e.push(("type".to_owned(), string("workspaceWrite".to_owned())));
                e.push(("writableRoots".to_owned(), roots));
                e.push(("networkAccess".to_owned(), boolean(network_access)));
                proof {
                    reveal_strlit("type");
                    reveal_strlit("writableRoots");
                    reveal_strlit("networkAccess");
                    assert(map_of_entries(entries_view(e@)) =~= map![
                        "type"@ => JsonView::Str("workspaceWrite"@),
                        "writableRoots"@ => JsonView::Array(seq![JsonView::Str(cwd@)]),
                        "networkAccess"@ => JsonView::Bool(network_access),
                    ]);
                }
                object(e)
            },
        }
    }
}

/// The login flow the client starts.
#[derive(Debug, Clone, Copy, PartialEq, Eq, Structural)]
pub enum LoginType {
    ChatGpt,
}

impl LoginType {
    pub fn as_str(&self) -> (r: &'static str)
        ensures
            r@ == "chatgpt"@,
    {
        "chatgpt"
    }
}

/// The kind of input item a turn carries.
#[derive(Debug, Clone, Copy, PartialEq, Eq, Structural)]
pub enum InputItemType {
    Text,
}

impl InputItemType {
    pub fn as_str(&self) -> (r: &'static str)
        ensures
            r@ == "text"@,
    {
        "text"
    }
}

/// How reasoning summaries are reported.
#[derive(Debug, Clone, Copy, PartialEq, Eq, Structural)]
pub enum SummaryMode {
    Concise,
}

impl SummaryMode {
    pub fn as_str(&self) -> (r: &'static str)
        ensures
            r@ == "concise"@,
    {
        "concise"
    }
}

/// The kind of account the server reports.
#[derive(Debug)]
pub enum AccountType {
    ChatGpt,
    ApiKey,
    Unknown(String),
}

pub enum AccountTypeView {
    ChatGpt,
    ApiKey,
    Unknown(Seq<char>),
}

impl View for AccountType {
    type V = AccountTypeView;

    open spec fn view(&self) -> AccountTypeView {
        match self {
            AccountType::ChatGpt => AccountTypeView::ChatGpt,
            AccountType::ApiKey => AccountTypeView::ApiKey,
            AccountType::Unknown(s) => AccountTypeView::Unknown(s@),
        }
    }
}

impl AccountTypeView {
    pub open spec fn from_wire(s: Seq<char>) -> Self {
        if s == "chatgpt"@ {
            AccountTypeView::ChatGpt
        } else if s == "apiKey"@ {
            AccountTypeView::ApiKey
        } else {
            AccountTypeView::Unknown(s)
        }
    }
}

impl AccountType {
    /// The account kind a wire name names; any other name is kept.
    pub fn from_wire(value: &str) -> (r: Self)
        ensures
            r@ == AccountTypeView::from_wire(value@),
    {
        if str_eq(value, "chatgpt") {
            AccountType::ChatGpt
        } else if str_eq(value, "apiKey") {
            AccountType::ApiKey
        } else {
            AccountType::Unknown(value.to_owned())
        }
    }
}

/// The kind of item a turn produces.
#[derive(Debug)]
pub enum ThreadItemType {
    AgentMessage,
    CommandExecution,
    FileChange,
    Unknown(String),
}

pub enum ThreadItemTypeView {
    AgentMessage,
    CommandExecution,
    FileChange,
    Unknown(Seq<char>),
}

impl View for ThreadItemType {
    type V = ThreadItemTypeView;

    open spec fn view(&self) -> ThreadItemTypeView {
        match self {
            ThreadItemType::AgentMessage => ThreadItemTypeView::AgentMessage,
            ThreadItemType::CommandExecution => ThreadItemTypeView::CommandExecution,
            ThreadItemType::FileChange => ThreadItemTypeView::FileChange,
            ThreadItemType::Unknown(s) => ThreadItemTypeView::Unknown(s@),
        }
    }
}

impl ThreadItemTypeView {
    pub open spec fn from_wire(s: Seq<char>) -> Self {
        if s == "agentMessage"@ {
            ThreadItemTypeView::AgentMessage
        } else if s == "commandExecution"@ {
            ThreadItemTypeView::CommandExecution
        } else if s == "fileChange"@ {
            ThreadItemTypeView::FileChange
        } else {
            ThreadItemTypeView::Unknown(s)
        }
    }
}

impl ThreadItemType {
    /// The item kind a wire name names; any other name is kept.
    pub fn from_wire(value: &str) -> (r: Self)
        ensures
            r@ == ThreadItemTypeView::from_wire(value@),
    {
        if str_eq(value, "agentMessage") {
            ThreadItemType::AgentMessage
        } else if str_eq(value, "commandExecution") {
            ThreadItemType::CommandExecution
        } else if str_eq(value, "fileChange") {
            ThreadItemType::FileChange
        } else {
            ThreadItemType::Unknown(value.to_owned())
        }
    }
}

/// The status of an item.
#[derive(Debug)]
pub enum ItemStatus {
    InProgress,
    Completed,
    Failed,
    Declined,
    Interrupted,
    Unknown(String),
}

pub enum ItemStatusView {
    InProgress,
    Completed,
    Failed,
    Declined,
    Interrupted,
    Unknown(Seq<char>),
}

impl View for ItemStatus {
    type V = ItemStatusView;

    open spec fn view(&self) -> ItemStatusView {
        match self {
            ItemStatus::InProgress => ItemStatusView::InProgress,
            ItemStatus::Completed => ItemStatusView::Completed,
            ItemStatus::Failed => ItemStatusView::Failed,
            ItemStatus::Declined => ItemStatusView::Declined,
            ItemStatus::Interrupted => ItemStatusView::Interrupted,
            ItemStatus::Unknown(s) => ItemStatusView::Unknown(s@),
        }
    }
}

impl ItemStatusView {
    pub open spec fn from_wire(s: Seq<char>) -> Self {
        if s == "inProgress"@ {
            ItemStatusView::InProgress
        } else if s == "completed"@ {
            ItemStatusView::Completed
        } else if s == "failed"@ {
            ItemStatusView::Failed
        } else if s == "declined"@ {
            ItemStatusView::Declined
        } else if s == "interrupted"@ {
            ItemStatusView::Interrupted
        } else {
            ItemStatusView::Unknown(s)
        }
    }

    pub open spec fn wire(self) -> Seq<char> {
        match self {
            ItemStatusView::InProgress => "inProgress"@,
            ItemStatusView::Completed => "completed"@,
            ItemStatusView::Failed => "failed"@,
            ItemStatusView::Declined => "declined"@,
            ItemStatusView::Interrupted => "interrupted"@,
            ItemStatusView::Unknown(s) => s,
        }
    }
}

impl ItemStatus {
    /// The status a wire name names; any other name is kept.
    pub fn from_wire(value: &str) -> (r: Self)
        ensures
            r@ == ItemStatusView::from_wire(value@),
    {
        if str_eq(value, "inProgress") {
            ItemStatus::InProgress
        } else if str_eq(value, "completed") {
            ItemStatus::Completed
        } else if str_eq(value, "failed") {
            ItemStatus::Failed
        } else if str_eq(value, "declined") {
            ItemStatus::Declined
        } else if str_eq(value, "interrupted") {
            ItemStatus::Interrupted
        } else {
            ItemStatus::Unknown(value.to_owned())
        }
    }

    /// The wire name of the status.
    pub fn as_str(&self) -> (r: &str)
        ensures
            r@ == self@.wire(),
    {
        match self {
            ItemStatus::InProgress => "inProgress",
            ItemStatus::Completed => "completed",
            ItemStatus::Failed => "failed",
            ItemStatus::Declined => "declined",
            ItemStatus::Interrupted => "interrupted",
            ItemStatus::Unknown(other) => other.as_str(),
        }
    }
}

/// The status of a turn.
#[derive(Debug)]
pub enum TurnStatus {
    InProgress,
    Completed,
    Interrupted,
    Failed,
    Unknown(String),
}

pub enum TurnStatusView {
    InProgress,
    Completed,
    Interrupted,
    Failed,
    Unknown(Seq<char>),
}

impl View for TurnStatus {
    type V = TurnStatusView;

    open spec fn view(&self) -> TurnStatusView {
        match self {
            TurnStatus::InProgress => TurnStatusView::InProgress,
            TurnStatus::Completed => TurnStatusView::Completed,
            TurnStatus::Interrupted => TurnStatusView::Interrupted,
            TurnStatus::Failed => TurnStatusView::Failed,
            TurnStatus::Unknown(s) => TurnStatusView::Unknown(s@),
        }
    }
}

impl TurnStatusView {
    pub open spec fn from_wire(s: Seq<char>) -> Self {
        if s == "inProgress"@ {
            TurnStatusView::InProgress
        } else if s == "completed"@ {
            TurnStatusView::Completed
        } else if s == "interrupted"@ {
            TurnStatusView::Interrupted
        } else if s == "failed"@ {
            TurnStatusView::Failed
        } else {
            TurnStatusView::Unknown(s)
        }
    }

    pub open spec fn wire(self) -> Seq<char> {
        match self {
            TurnStatusView::InProgress => "inProgress"@,
            TurnStatusView::Completed => "completed"@,
            TurnStatusView::Interrupted => "interrupted"@,
            TurnStatusView::Failed => "failed"@,
            TurnStatusView::Unknown(s) => s,
        }
    }
}

impl TurnStatus {
    /// The status a wire name names; any other name is kept.
    pub fn from_wire(value: &str) -> (r: Self)
        ensures
            r@ == TurnStatusView::from_wire(value@),
    {
        if str_eq(value, "inProgress") {
            TurnStatus::InProgress
        } else if str_eq(value, "completed") {
            TurnStatus::Completed
        } else if str_eq(value, "interrupted") {
            TurnStatus::Interrupted
        } else if str_eq(value, "failed") {
            TurnStatus::Failed
        } else {
            TurnStatus::Unknown(value.to_owned())
        }
    }

    /// The wire name of the status.
    pub fn as_str(&self) -> (r: &str)
        ensures
            r@ == self@.wire(),
    {
        match self {
            TurnStatus::InProgress => "inProgress",
            TurnStatus::Completed => "completed",
            TurnStatus::Interrupted => "interrupted",
            TurnStatus::Failed => "failed",
            TurnStatus::Unknown(other) => other.as_str(),
        }
    }
}

/// Reading a server method's wire name and writing the method back gives the
/// same text, for every text.
pub proof fn lemma_server_method_wire_round_trip(s: Seq<char>)
    ensures
        ServerMethodView::from_wire(s).wire() == s,
{
}

/// Writing a server method and reading its wire name back gives the same
/// method; an unknown method comes back unchanged where its text names none of
/// the known ones.
pub proof fn lemma_server_method_read_back(m: ServerMethodView)
    requires
        m matches ServerMethodView::Unknown(s) ==> ServerMethodView::from_wire(s) is Unknown,
    ensures
        ServerMethodView::from_wire(m.wire()) == m,
{
    reveal_strlit("account/login/completed");
    reveal_strlit("item/agentMessage/delta");
    reveal_strlit("item/completed");
    reveal_strlit("turn/completed");
    reveal_strlit("error");
    assert("account/login/completed"@[0] == 'a');
    assert("item/agentMessage/delta"@[0] == 'i');
    assert("item/completed"@[0] == 'i');
    assert("turn/completed"@[0] == 't');
    assert("account/login/completed"@.len() == 23);
    assert("item/agentMessage/delta"@.len() == 23);
    assert("item/completed"@.len() == 14);
    assert("turn/completed"@.len() == 14);
    assert("error"@.len() == 5);
}

/// Reading an item status's wire name and writing it back gives the same
/// text, for every text.
pub proof fn lemma_item_status_wire_round_trip(s: Seq<char>)
    ensures
        ItemStatusView::from_wire(s).wire() == s,
{
}

/// Writing an item status and reading it back gives the same status, an
/// unknown one where its text names none of the known ones.
pub proof fn lemma_item_status_read_back(st: ItemStatusView)
    requires
        st matches ItemStatusView::Unknown(s) ==> ItemStatusView::from_wire(s) is Unknown,
    ensures
        ItemStatusView::from_wire(st.wire()) == st,
{
    reveal_strlit("inProgress");
    reveal_strlit("completed");
    reveal_strlit("failed");
    reveal_strlit("declined");
    reveal_strlit("interrupted");
    assert("inProgress"@.len() == 10);
    assert("completed"@.len() == 9);
    assert("failed"@.len() == 6);
    assert("declined"@.len() == 8);
    assert("interrupted"@.len() == 11);
}

/// Reading a turn status's wire name and writing it back gives the same
/// text, for every text.
pub proof fn lemma_turn_status_wire_round_trip(s: Seq<char>)
    ensures
        TurnStatusView::from_wire(s).wire() == s,
{
}

/// Writing a turn status and reading it back gives the same status, an
/// unknown one where its text names none of the known ones.
pub proof fn lemma_turn_status_read_back(st: TurnStatusView)
    requires
        st matches TurnStatusView::Unknown(s) ==> TurnStatusView::from_wire(s) is Unknown,
    ensures
        TurnStatusView::from_wire(st.wire()) == st,
{
    reveal_strlit("inProgress");
    reveal_strlit("completed");
    reveal_strlit("interrupted");
    reveal_strlit("failed");
    assert("inProgress"@.len() == 10);
    assert("completed"@.len() == 9);
    assert("failed"@.len() == 6);
    assert("interrupted"@.len() == 11);
}

/// An approval policy's wire name reads back as that policy, and a text that
/// reads as a policy is that policy's wire name.
pub proof fn lemma_approval_policy_wire(p: ApprovalPolicy, s: Seq<char>)
    ensures
        ApprovalPolicy::parse(p.wire()) == Some(p),
        ApprovalPolicy::parse(s) matches Some(q) ==> q.wire() == s,
{
    reveal_strlit("never");
    reveal_strlit("on-failure");
    reveal_strlit("untrusted");
    reveal_strlit("on-request");
    assert("never"@.len() == 5);
    assert("untrusted"@.len() == 9);
    assert("on-failure"@[3] == 'f');
    assert("on-request"@[3] == 'r');
}

/// A sandbox mode's wire name reads back as that mode, and a text that reads
/// as a mode is that mode's wire name.
pub proof fn lemma_sandbox_mode_wire(m: ThreadSandboxMode, s: Seq<char>)
    ensures
        ThreadSandboxMode::parse(m.wire()) == Some(m),
        ThreadSandboxMode::parse(s) matches Some(q) ==> q.wire() == s,
{
    reveal_strlit("workspace-write");
    reveal_strlit("read-only");
    reveal_strlit("danger-full-access");
    assert("workspace-write"@.len() == 15);
    assert("read-only"@.len() == 9);
    assert("danger-full-access"@.len() == 18);
}

/// The kind of an account object: its `type` name, `unknown` where it has
/// none.
pub open spec fn account_kind(account: JsonView) -> AccountTypeView {
    match field(account, "type"@) {
        Some(t) => match as_str(t) {
            Some(s) => AccountTypeView::from_wire(s),
            None => AccountTypeView::Unknown("unknown"@),
        },
        None => AccountTypeView::Unknown("unknown"@),
    }
}

/// The line that names a signed-in account: `None` for no account (`null`).
pub open spec fn account_summary(account: JsonView) -> Option<Seq<char>> {
    if account is Null {
        None
    } else {
        match account_kind(account) {
            AccountTypeView::ChatGpt => Some(
                "chatgpt "@ + str_field_or(account, "email"@, "unknown-email"@) + " ("@
                    + str_field_or(account, "planType"@, "unknown-plan"@) + ")"@,
            ),
            AccountTypeView::ApiKey => Some("OpenAI API key"@),
            AccountTypeView::Unknown(other) => Some(other),
        }
    }
}

/// Describes the account that `account/read` reports, or `None` where no
/// account is signed in.
pub fn describe_account(account: &serde_json::Value) -> (r: Option<String>)
    ensures
        match account_summary(json_view(*account)) {
            Some(s) => (r matches Some(t) && t@ == s),
            None => r is None,
        },
{
    if is_null(account) {
        return None;
    }
    let kind = match get(account, "type") {
        Some(t) => match get_str(t) {
            Some(s) => AccountType::from_wire(s),
            None => AccountType::Unknown("unknown".to_owned()),
        },
        None => AccountType::Unknown("unknown".to_owned()),
    };
    match kind {
        AccountType::ChatGpt => {
            let email = string_field_or(account, "email", "unknown-email");
            let plan = string_field_or(account, "planType", "unknown-plan");
            let mut out = "chatgpt ".to_owned();
            out.append(email.as_str());
            out.append(" (");
            out.append(plan.as_str());
            out.append(")");
            Some(out)
        },
        AccountType::ApiKey => Some("OpenAI API key".to_owned()),
        AccountType::Unknown(other) => Some(other),
    }
}

/// The approval policy and sandbox mode a planning thread runs under.
#[derive(Debug, Clone, Copy, PartialEq, Eq, Structural)]
pub struct RuntimeDefaults {
    pub approval_policy: ApprovalPolicy,
    pub sandbox_mode: ThreadSandboxMode,
}

impl Default for RuntimeDefaults {
    fn default() -> (r: Self)
        ensures
            r == (RuntimeDefaults {
                approval_policy: ApprovalPolicy::Never,
                sandbox_mode: ThreadSandboxMode::ReadOnly,
            }),
    {
        RuntimeDefaults {
            approval_policy: ApprovalPolicy::Never,
            sandbox_mode: ThreadSandboxMode::ReadOnly,
        }
    }
}

/// The items of the array member `key` of `j`; none where it is no array.
pub open spec fn list_field(j: JsonView, key: Seq<char>) -> Seq<JsonView> {
    match field(j, key) {
        Some(JsonView::Array(items)) => items,
        _ => Seq::empty(),
    }
}

/// The approval policies named among `items`, in order.
pub open spec fn approvals_in(items: Seq<JsonView>) -> Seq<ApprovalPolicy>
    decreases items.len(),
{
    if items.len() == 0 {
        Seq::empty()
    } else {
        let rest = approvals_in(items.drop_last());
        match as_str(items.last()) {
            Some(s) => match ApprovalPolicy::parse(s) {
                Some(p) => rest.push(p),
                None => rest,
            },
            None => rest,
        }
    }
}

/// The sandbox modes named among `items`, in order.
pub open spec fn sandboxes_in(items: Seq<JsonView>) -> Seq<ThreadSandboxMode>
    decreases items.len(),
{
    if items.len() == 0 {
        Seq::empty()
    } else {
        let rest = sandboxes_in(items.drop_last());
        match as_str(items.last()) {
            Some(s) => match ThreadSandboxMode::parse(s) {
                Some(m) => rest.push(m),
                None => rest,
            },
            None => rest,
        }
    }
}

/// The first preferred policy that `allowed` holds, `Never` where it holds
/// none.
pub open spec fn choose_approval(allowed: Seq<ApprovalPolicy>) -> ApprovalPolicy {
    if allowed.contains(ApprovalPolicy::Never) {
        ApprovalPolicy::Never
    } else if allowed.contains(ApprovalPolicy::OnFailure) {
        ApprovalPolicy::OnFailure
    } else if allowed.contains(ApprovalPolicy::Untrusted) {
        ApprovalPolicy::Untrusted
    } else if allowed.contains(ApprovalPolicy::OnRequest) {
        ApprovalPolicy::OnRequest
    } else {
        ApprovalPolicy::Never
    }
}

/// The first preferred mode that `allowed` holds, `ReadOnly` where it holds
/// none.
pub open spec fn choose_sandbox(allowed: Seq<ThreadSandboxMode>) -> ThreadSandboxMode {
    if allowed.contains(ThreadSandboxMode::ReadOnly) {
        ThreadSandboxMode::ReadOnly
    } else if allowed.contains(ThreadSandboxMode::WorkspaceWrite) {
        ThreadSandboxMode::WorkspaceWrite
    } else if allowed.contains(ThreadSandboxMode::DangerFullAccess) {
        ThreadSandboxMode::DangerFullAccess
    } else {
        ThreadSandboxMode::ReadOnly
    }
}

/// The runtime a `configRequirements/read` reply allows: the defaults where
/// it states no requirements.
pub open spec fn runtime_defaults_of(response: JsonView) -> RuntimeDefaults {
    let requirements = field_or_null(response, "requirements"@);
    if requirements is Null {
        RuntimeDefaults {
            approval_policy: ApprovalPolicy::Never,
            sandbox_mode: ThreadSandboxMode::ReadOnly,
        }
    } else {
        RuntimeDefaults {
            approval_policy: choose_approval(
                approvals_in(list_field(requirements, "allowedApprovalPolicies"@)),
            ),
            sandbox_mode: choose_sandbox(
                sandboxes_in(list_field(requirements, "allowedSandboxModes"@)),
            ),
        }
    }
}

fn allowed_approvals(requirements: &serde_json::Value) -> (r: Vec<ApprovalPolicy>)
    ensures
        r@ == approvals_in(list_field(json_view(*requirements), "allowedApprovalPolicies"@)),
{
    let ghost items = list_field(json_view(*requirements), "allowedApprovalPolicies"@);
    let mut out: Vec<ApprovalPolicy> = Vec::new();
    match get(requirements, "allowedApprovalPolicies") {
        Some(list) => match get_array(list) {
            Some(values) => {
                let mut i: usize = 0;
                while i < values.len()
                    invariant
                        i <= values@.len(),
                        items == values_view(values@),
                        out@ == approvals_in(items.take(i as int)),
                    decreases values@.len() - i,
                {
                    assert(items.take(i + 1).drop_last() =~= items.take(i as int));
                    match get_str(&values[i]) {
                        Some(s) => match ApprovalPolicy::from_wire(s) {
                            Some(p) => out.push(p),
                            None => {},
                        },
                        None => {},
                    }
                    i = i + 1;
                }
                assert(items.take(values@.len() as int) =~= items);
            },
            None => {},
        },
        None => {},
    }
    out
}

fn allowed_sandboxes(requirements: &serde_json::Value) -> (r: Vec<ThreadSandboxMode>)
    ensures
        r@ == sandboxes_in(list_field(json_view(*requirements), "allowedSandboxModes"@)),
{
    let ghost items = list_field(json_view(*requirements), "allowedSandboxModes"@);
    let mut out: Vec<ThreadSandboxMode> = Vec::new();
    match get(requirements, "allowedSandboxModes") {
        Some(list) => match get_array(list) {
            Some(values) => {
                let mut i: usize = 0;
                while i < values.len()
                    invariant
                        i <= values@.len(),
                        items == values_view(values@),
                        out@ == sandboxes_in(items.take(i as int)),
                    decreases values@.len() - i,
                {
                    assert(items.take(i + 1).drop_last() =~= items.take(i as int));
                    match get_str(&values[i]) {
                        Some(s) => match ThreadSandboxMode::from_wire(s) {
                            Some(m) => out.push(m),
                            None => {},
                        },
                        None => {},
                    }
                    i = i + 1;
                }
                assert(items.take(values@.len() as int) =~= items);
            },
            None => {},
        },
        None => {},
    }
    out
}

fn holds_approval(v: &Vec<ApprovalPolicy>, p: ApprovalPolicy) -> (r: bool)
    ensures
        r == v@.contains(p),
{
    let mut i: usize = 0;
    while i < v.len()
        invariant
            i <= v@.len(),
            forall|j: int| 0 <= j < i ==> v@[j] != p,
        decreases v@.len() - i,
    {
        if v[i] == p {
            return true;
        }
        i = i + 1;
    }
    false
}

fn holds_sandbox(v: &Vec<ThreadSandboxMode>, m: ThreadSandboxMode) -> (r: bool)
    ensures
        r == v@.contains(m),
{
    let mut i: usize = 0;
    while i < v.len()
        invariant
            i <= v@.len(),
            forall|j: int| 0 <= j < i ==> v@[j] != m,
        decreases v@.len() - i,
    {
        if v[i] == m {
            return true;
        }
        i = i + 1;
    }
    false
}

/// The runtime the planner uses, read from a `configRequirements/read`
/// reply: the most preferred allowed approval policy and sandbox mode.
pub fn runtime_defaults_from(response: &serde_json::Value) -> (r: RuntimeDefaults)
    ensures
        r == runtime_defaults_of(json_view(*response)),
{
    let requirements = match get(response, "requirements") {
        Some(req) => req,
        None => return RuntimeDefaults::default(),
    };
    if is_null(requirements) {
        return RuntimeDefaults::default();
    }
    let approvals = allowed_approvals(requirements);
    let approval_policy = if holds_approval(&approvals, ApprovalPolicy::Never) {
        ApprovalPolicy::Never
    } else if holds_approval(&approvals, ApprovalPolicy::OnFailure) {
        ApprovalPolicy::OnFailure
    } else if holds_approval(&approvals, ApprovalPolicy::Untrusted) {
        ApprovalPolicy::Untrusted
    } else if holds_approval(&approvals, ApprovalPolicy::OnRequest) {
        ApprovalPolicy::OnRequest
    } else {
        ApprovalPolicy::Never
    };
    let sandboxes = allowed_sandboxes(requirements);
    let sandbox_mode = if holds_sandbox(&sandboxes, ThreadSandboxMode::ReadOnly) {
        ThreadSandboxMode::ReadOnly
    } else if holds_sandbox(&sandboxes, ThreadSandboxMode::WorkspaceWrite) {
        ThreadSandboxMode::WorkspaceWrite
    } else if holds_sandbox(&sandboxes, ThreadSandboxMode::DangerFullAccess) {
        ThreadSandboxMode::DangerFullAccess
    } else {
        ThreadSandboxMode::ReadOnly
    };
    RuntimeDefaults { approval_policy, sandbox_mode }
}

/// The model names the planner prefers, best first.
pub open spec fn preferred_models() -> Seq<Seq<char>> {
    seq!["gpt-5.4"@, "gpt-5.4-mini"@, "gpt-5.1"@, "gpt-5.1-mini"@]
}

/// The model name of a `model/list` entry: its `model`, else its `id`; an
/// entry whose `model` is present but no string has none.
pub open spec fn entry_model(e: JsonView) -> Option<Seq<char>> {
    match field(e, "model"@) {
        Some(m) => as_str(m),
        None => match field(e, "id"@) {
            Some(i) => as_str(i),
            None => None,
        },
    }
}

/// The model names of a list of entries, in order.
pub open spec fn models_in(items: Seq<JsonView>) -> Seq<Seq<char>>
    decreases items.len(),
{
    if items.len() == 0 {
        Seq::empty()
    } else {
        let rest = models_in(items.drop_last());
        match entry_model(items.last()) {
            Some(m) => rest.push(m),
            None => rest,
        }
    }
}

/// The model to plan with among `available`: the first preferred one that is
/// offered, else the first offered, else none.
pub open spec fn pick_model(available: Seq<Seq<char>>) -> Option<Seq<char>> {
    if available.contains(preferred_models()[0]) {
        Some(preferred_models()[0])
    } else if available.contains(preferred_models()[1]) {
        Some(preferred_models()[1])
    } else if available.contains(preferred_models()[2]) {
        Some(preferred_models()[2])
    } else if available.contains(preferred_models()[3]) {
        Some(preferred_models()[3])
    } else if available.len() > 0 {
        Some(available[0])
    } else {
        None
    }
}

/// The model a `model/list` reply leads to, or the error text.
pub open spec fn model_choice(response: JsonView) -> Result<Seq<char>, Seq<char>> {
    match field(response, "data"@) {
        Some(JsonView::Array(items)) => match pick_model(models_in(items)) {
            Some(m) => Ok(m),
            None => Err("model/list returned zero visible models"@),
        },
        _ => Err("model/list returned no `data` array"@),
    }
}

fn holds_text(v: &Vec<String>, s: &str) -> (r: bool)
    ensures
        r == strings_view(v@).contains(s@),
{
    let mut i: usize = 0;
    while i < v.len()
        invariant
            i <= v@.len(),
            forall|j: int| 0 <= j < i ==> v@[j]@ != s@,
        decreases v@.len() - i,
    {
        if str_eq(v[i].as_str(), s) {
            assert(strings_view(v@)[i as int] == s@);
            return true;
        }
        i = i + 1;
    }
    false
}

/// Picks the model to plan with from the entries of a `model/list` reply.
pub fn model_from_list(response: &serde_json::Value) -> (r: Result<String, String>)
    ensures
        match model_choice(json_view(*response)) {
            Ok(m) => (r matches Ok(s) && s@ == m),
            Err(e) => (r matches Err(s) && s@ == e),
        },
{
    let entries = match get(response, "data") {
        Some(d) => match get_array(d) {
            Some(items) => items,
            None => return Err("model/list returned no `data` array".to_owned()),
        },
        None => return Err("model/list returned no `data` array".to_owned()),
    };
    let ghost items = values_view(entries@);
    let mut available: Vec<String> = Vec::new();
    let mut i: usize = 0;
    while i < entries.len()
        invariant
            i <= entries@.len(),
            items == values_view(entries@),
            strings_view(available@) == models_in(items.take(i as int)),
        decreases entries@.len() - i,
    {
        assert(items.take(i + 1).drop_last() =~= items.take(i as int));
        let entry = &entries[i];
        let name = match get(entry, "model") {
            Some(m) => get_str(m),
            None => match get(entry, "id") {
                Some(id) => get_str(id),
                None => None,
            },
        };
        match name {
            Some(n) => {
                available.push(n.to_owned());
                assert(strings_view(available@) =~= strings_view(available@.drop_last()).push(
                    n@,
                ));
            },
            None => {},
        }
        i = i + 1;
    }
    assert(items.take(entries@.len() as int) =~= items);
    proof {
        reveal_strlit("gpt-5.4");
        reveal_strlit("gpt-5.4-mini");
        reveal_strlit("gpt-5.1");
        reveal_strlit("gpt-5.1-mini");
    }
    if holds_text(&available, "gpt-5.4") {
        Ok("gpt-5.4".to_owned())
    } else if holds_text(&available, "gpt-5.4-mini") {
        Ok("gpt-5.4-mini".to_owned())
    } else if holds_text(&available, "gpt-5.1") {
        Ok("gpt-5.1".to_owned())
    } else if holds_text(&available, "gpt-5.1-mini") {
        Ok("gpt-5.1-mini".to_owned())
    } else if available.len() > 0 {
        assert(strings_view(available@)[0] == available@[0]@);
        Ok(available[0].clone())
    } else {
        Err("model/list returned zero visible models".to_owned())
    }
}

/// What choosing the planning model calls for next.
#[derive(Debug)]
pub enum ModelDecision {
    /// Plan with this model.
    Use(String),
    /// Ask the server for its models (`model/list`), then decide again with
    /// the reply.
    ListModels,
    /// No model can be chosen, for the reason the text gives.
    Failed(String),
}

/// Chooses the planning model: a model the user asked for is used as it is,
/// without asking the server; else the server's `model/list` reply decides,
/// once it is there.
pub fn decide_model(requested: Option<&str>, listed: Option<&serde_json::Value>) -> (r:
    ModelDecision)
    ensures
        match requested {
            Some(m) => (r matches ModelDecision::Use(s) && s@ == m@),
            None => match listed {
                None => r is ListModels,
                Some(reply) => match model_choice(json_view(*reply)) {
                    Ok(m) => (r matches ModelDecision::Use(s) && s@ == m),
                    Err(e) => (r matches ModelDecision::Failed(s) && s@ == e),
                },
            },
        },
{
    match requested {
        Some(m) => ModelDecision::Use(m.to_owned()),
        None => match listed {
            None => ModelDecision::ListModels,
            Some(reply) => match model_from_list(reply) {
                Ok(m) => ModelDecision::Use(m),
                Err(e) => ModelDecision::Failed(e),
            },
        },
    }
}

/// A JSON-RPC request: `{"method", "id", "params"}`.
pub open spec fn request_json(method: ClientMethod, id: u64, params: JsonView) -> JsonView {
    JsonView::Object(
        map!["method"@ => JsonView::Str(method.wire()), "id"@ => number_u64(id), "params"@ => params],
    )
}

/// A JSON-RPC notification: `{"method", "params"}`.
pub open spec fn notification_json(method: ClientMethod, params: JsonView) -> JsonView {
    JsonView::Object(map!["method"@ => JsonView::Str(method.wire()), "params"@ => params])
}

/// The request that calls `method` with `params` under the request number `id`.
pub fn request_message(method: ClientMethod, id: u64, params: serde_json::Value) -> (r:
    serde_json::Value)
    ensures
        json_view(r) == request_json(method, id, json_view(params)),
{
    let ghost p = json_view(params);
    let mut e: Vec<(String, serde_json::Value)> = Vec::new();
    e.push(("method".to_owned(), string(method.as_str().to_owned())));
    e.push(("id".to_owned(), unsigned(id)));
    e.push(("params".to_owned(), params));
    proof {
        reveal_with_fuel(map_of_entries, 4);
        reveal_strlit("method");
        reveal_strlit("id");
        reveal_strlit("params");
        assert(map_of_entries(entries_view(e@)) =~= map![
            "method"@ => JsonView::Str(method.wire()),
            "id"@ => number_u64(id),
            "params"@ => p,
        ]);
    }
    object(e)
}

/// The notification of `method` with `params`.
pub fn notification_message(method: ClientMethod, params: serde_json::Value) -> (r:
    serde_json::Value)
    ensures
        json_view(r) == notification_json(method, json_view(params)),
{
    let ghost p = json_view(params);
    let mut e: Vec<(String, serde_json::Value)> = Vec::new();
    e.push(("method".to_owned(), string(method.as_str().to_owned())));
    e.push(("params".to_owned(), params));
    proof {
        reveal_with_fuel(map_of_entries, 3);
        reveal_strlit("method");
        reveal_strlit("params");
        assert(map_of_entries(entries_view(e@)) =~= map![
            "method"@ => JsonView::Str(method.wire()),
            "params"@ => p,
        ]);
    }
    object(e)
}

/// A message as one line of the app-server's input: its compact JSON text
/// and a newline.
pub fn message_line(message: &serde_json::Value) -> (r: String)
    ensures
        r@ == json_text(json_view(*message)) + "\n"@,
{
    let mut line = to_text(message);
    line.append("\n");
    line
}

/// What a JSON-RPC reply to `method` gives: its `result`, or the error text.
pub open spec fn reply_outcome(method: ClientMethod, response: JsonView) -> Result<
    JsonView,
    Seq<char>,
> {
    match field(response, "error"@) {
        Some(error) => {
            let code = match field(error, "code"@) {
                Some(c) => match as_i64(c) {
                    Some(n) => n as int,
                    None => 0,
                },
                None => 0,
            };
            Err(
                "`"@ + method.wire() + "` failed with JSON-RPC error "@ + signed_decimal(code) + ": "@
                    + str_field_or(error, "message"@, "unknown JSON-RPC error"@),
            )
        },
        None => match field(response, "result"@) {
            Some(result) => Ok(result),
            None => Err("`"@ + method.wire() + "` returned no result payload"@),
        },
    }
}

/// Reads the reply to a request: its `result`, or an error naming the method.
pub fn reply_result(method: ClientMethod, response: &serde_json::Value) -> (r: Result<
    serde_json::Value,
    String,
>)
    ensures
        match reply_outcome(method, json_view(*response)) {
            Ok(j) => (r matches Ok(v) && json_view(v) == j),
            Err(e) => (r matches Err(s) && s@ == e),
        },
{
    match get(response, "error") {
        Some(error) => {
            let code: i64 = match get(error, "code") {
                Some(c) => match get_i64(c) {
                    Some(n) => n,
                    None => 0,
                },
                None => 0,
            };
            let message = string_field_or(error, "message", "unknown JSON-RPC error");
            let mut out = "`".to_owned();
            out.append(method.as_str());
            out.append("` failed with JSON-RPC error ");
            out.append(i64_text(code).as_str());
            out.append(": ");
            out.append(message.as_str());
            Err(out)
        },
        None => match get(response, "result") {
            Some(result) => Ok(clone_value(result)),
            None => {
                let mut out = "`".to_owned();
                out.append(method.as_str());
                out.append("` returned no result payload");
                Err(out)
            },
        },
    }
}

/// The reply sent for every pending request when the app-server goes away.
pub open spec fn closed_reply_json() -> JsonView {
    JsonView::Object(
        map![
            "error"@ => JsonView::Object(
                map![
                    "code"@ => number_i64(-32000i64),
                    "message"@ => JsonView::Str("codex app-server closed"@),
                ],
            ),
        ],
    )
}

/// The error reply that a request still waiting gets when the server closes.
pub fn closed_reply() -> (r: serde_json::Value)
    ensures
        json_view(r) == closed_reply_json(),
{
    let mut inner: Vec<(String, serde_json::Value)> = Vec::new();
    inner.push(("code".to_owned(), signed(-32000)));
    inner.push(("message".to_owned(), string("codex app-server closed".to_owned())));
    let inner = object(inner);
    let mut outer: Vec<(String, serde_json::Value)> = Vec::new();
    outer.push(("error".to_owned(), inner));
    proof {
        reveal_with_fuel(map_of_entries, 3);
        reveal_strlit("code");
        reveal_strlit("message");
        assert(map_of_entries(entries_view(outer@)) =~= map![
            "error"@ => JsonView::Object(
                map![
                    "code"@ => number_i64(-32000i64),
                    "message"@ => JsonView::Str("codex app-server closed"@),
                ],
            ),
        ]);
    }
    object(outer)
}

/// The server method a message names, if it names one.
pub open spec fn method_of(message: JsonView) -> Option<ServerMethodView> {
    match field(message, "method"@) {
        Some(m) => match as_str(m) {
            Some(s) => Some(ServerMethodView::from_wire(s)),
            None => None,
        },
        None => None,
    }
}

/// The server method a message names.
pub fn server_method(message: &serde_json::Value) -> (r: Option<ServerMethod>)
    ensures
        match method_of(json_view(*message)) {
            Some(m) => (r matches Some(x) && x@ == m),
            None => r is None,
        },
{
    match get(message, "method") {
        Some(m) => match get_str(m) {
            Some(s) => Some(ServerMethod::from_wire(s)),
            None => None,
        },
        None => None,
    }
}

/// Whether a notification's parameters belong to the turn `turn_id`.
pub open spec fn params_match(params: JsonView, turn_id: Seq<char>) -> bool {
    match field(params, "turnId"@) {
        Some(t) => as_str(t) == Some(turn_id),
        None => false,
    }
}

/// Whether `params` carries the turn id `turn_id`.
pub fn params_matches_turn(params: &serde_json::Value, turn_id: &str) -> (r: bool)
    ensures
        r == params_match(json_view(*params), turn_id@),
{
    match get(params, "turnId") {
        Some(t) => match get_str(t) {
            Some(s) => str_eq(s, turn_id),
            None => false,
        },
        None => false,
    }
}

/// What one line of the app-server's output is.
#[derive(Debug)]
pub enum Incoming {
    /// An empty or all-whitespace line.
    Blank,
    /// A line that is no JSON text.
    Invalid(serde_json::Error),
    /// The reply to the request with this number.
    Response(u64, serde_json::Value),
    /// A request of the server to the client.
    ServerRequest(serde_json::Value),
    /// A notification.
    Notification(serde_json::Value),
    /// JSON that is none of these.
    Unexpected,
}

pub enum IncomingKind {
    Blank,
    Invalid,
    Response(u64),
    ServerRequest,
    Notification,
    Unexpected,
}

/// How a parsed message is routed: a numbered reply goes to its request, a
/// numbered message with a method is a server request, a message with a
/// method alone a notification.
pub open spec fn route_of(message: JsonView) -> IncomingKind {
    let has_method = field(message, "method"@) is Some;
    match as_u64(field_or_null(message, "id"@)) {
        Some(id) if field(message, "result"@) is Some || field(message, "error"@) is Some =>
            IncomingKind::Response(id),
        Some(_) if has_method => IncomingKind::ServerRequest,
        _ => if has_method {
            IncomingKind::Notification
        } else {
            IncomingKind::Unexpected
        },
    }
}

/// The kind of a line of output.
pub open spec fn incoming_kind(line: Seq<char>) -> IncomingKind {
    if trim(line).len() == 0 {
        IncomingKind::Blank
    } else {
        match json_parse(line) {
            None => IncomingKind::Invalid,
            Some(j) => route_of(j),
        }
    }
}

pub open spec fn incoming_view(i: Incoming) -> (IncomingKind, Option<JsonView>) {
    match i {
        Incoming::Blank => (IncomingKind::Blank, None),
        Incoming::Invalid(_) => (IncomingKind::Invalid, None),
        Incoming::Response(id, v) => (IncomingKind::Response(id), Some(json_view(v))),
        Incoming::ServerRequest(v) => (IncomingKind::ServerRequest, Some(json_view(v))),
        Incoming::Notification(v) => (IncomingKind::Notification, Some(json_view(v))),
        Incoming::Unexpected => (IncomingKind::Unexpected, None),
    }
}

/// Routes one line of the app-server's output; a message that is routed
/// carries the value the line parses to.
pub fn classify_line(line: &str) -> (r: Incoming)
    ensures
        incoming_view(r).0 == incoming_kind(line@),
        incoming_view(r).1 matches Some(j) ==> json_parse(line@) == Some(j),
{
    let cs = chars_of(line);
    let (lo, hi) = trim_bounds(&cs, 0, cs.len());
    assert(cs@.subrange(0, cs@.len() as int) =~= cs@);
    if lo == hi {
        return Incoming::Blank;
    }
    let message = match parse_json(line) {
        Ok(m) => m,
        Err(e) => return Incoming::Invalid(e),
    };
    let id = match get(&message, "id") {
        Some(i) => get_u64(i),
        None => None,
    };
    let has_method = get(&message, "method").is_some();
    match id {
        Some(n) => {
            if get(&message, "result").is_some() || get(&message, "error").is_some() {
                return Incoming::Response(n, message);
            }
            if has_method {
                return Incoming::ServerRequest(message);
            }
        },
        None => {},
    }
    if has_method {
        Incoming::Notification(message)
    } else {
        Incoming::Unexpected
    }
}

/// The refusal of a server request: `{"id", "error": {"code": -32601,
/// "message"}}`, naming the request's method (`<unknown>` where it names
/// none); `None` where the request carries no id.
pub open spec fn rejection_json(request: JsonView) -> Option<JsonView> {
    match field(request, "id"@) {
        None => None,
        Some(id) => {
            let method = match method_of(request) {
                Some(m) => m.wire(),
                None => "<unknown>"@,
            };
            Some(
                JsonView::Object(
                    map![
                        "id"@ => id,
                        "error"@ => JsonView::Object(
                            map![
                                "code"@ => number_i64(-32601i64),
                                "message"@ => JsonView::Str(
                                    "bbot does not implement server request `"@ + method + "`"@,
                                ),
                            ],
                        ),
                    ],
                ),
            )
        },
    }
}

/// The reply that refuses a request of the server.
pub fn rejection_for(request: &serde_json::Value) -> (r: Result<serde_json::Value, String>)
    ensures
        match rejection_json(json_view(*request)) {
            Some(j) => (r matches Ok(v) && json_view(v) == j),
            None => (r matches Err(s) && s@ == "server request did not include an id"@),
        },
{
    let id = match get(request, "id") {
        Some(i) => clone_value(i),
        None => return Err("server request did not include an id".to_owned()),
    };
    let ghost id_view = json_view(id);
    let method = match server_method(request) {
        Some(m) => m,
        None => ServerMethod::Unknown("<unknown>".to_owned()),
    };
    let mut text = "bbot does not implement server request `".to_owned();
    text.append(method.as_str());
    text.append("`");
    let ghost text_view = text@;
    let mut fields: Vec<(String, serde_json::Value)> = Vec::new();
    fields.push(("code".to_owned(), signed(-32601)));
    fields.push(("message".to_owned(), string(text)));
    let ghost fields_view = entries_view(fields@);
    let inner = object(fields);
    let ghost inner_view = json_view(inner);
    let mut outer: Vec<(String, serde_json::Value)> = Vec::new();
    outer.push(("id".to_owned(), id));
    outer.push(("error".to_owned(), inner));
    proof {
        reveal_with_fuel(map_of_entries, 3);
        reveal_strlit("code");
        reveal_strlit("message");
        reveal_strlit("id");
        reveal_strlit("error");
        assert(inner_view == JsonView::Object(
            map!["code"@ => number_i64(-32601i64), "message"@ => JsonView::Str(text_view)],
        )) by {
            assert(map_of_entries(fields_view) =~= map![
                "code"@ => number_i64(-32601i64),
                "message"@ => JsonView::Str(text_view),
            ]);
        }
        assert(map_of_entries(entries_view(outer@)) =~= map!["id"@ => id_view, "error"@ => inner_view]);
    }
    Ok(object(outer))
}

/// Whether a client must sign in before planning.
#[derive(Debug)]
pub enum LoginCheck {
    /// Signed in already, as the account the text describes.
    Authenticated(String),
    /// The server needs no OpenAI sign-in here.
    NotRequired,
    /// A ChatGPT sign-in has to be started.
    Required,
}

pub enum LoginCheckView {
    Authenticated(Seq<char>),
    NotRequired,
    Required,
}

pub open spec fn login_check_view(c: LoginCheck) -> LoginCheckView {
    match c {
        LoginCheck::Authenticated(s) => LoginCheckView::Authenticated(s@),
        LoginCheck::NotRequired => LoginCheckView::NotRequired,
        LoginCheck::Required => LoginCheckView::Required,
    }
}

/// What an `account/read` reply means for signing in: a described account is
/// signed in; else sign-in is needed unless `requiresOpenaiAuth` is `false`.
pub open spec fn login_check_of(response: JsonView) -> LoginCheckView {
    match account_summary(field_or_null(response, "account"@)) {
        Some(s) => LoginCheckView::Authenticated(s),
        None => if bool_field_or(response, "requiresOpenaiAuth"@, true) {
            LoginCheckView::Required
        } else {
            LoginCheckView::NotRequired
        },
    }
}

fn account_of(response: &serde_json::Value) -> (r: Option<String>)
    ensures
        match account_summary(field_or_null(json_view(*response), "account"@)) {
            Some(s) => (r matches Some(t) && t@ == s),
            None => r is None,
        },
{
    match get(response, "account") {
        Some(a) => describe_account(a),
        None => None,
    }
}

/// Decides, from an `account/read` reply, whether to sign in.
pub fn login_check(response: &serde_json::Value) -> (r: LoginCheck)
    ensures
        login_check_view(r) == login_check_of(json_view(*response)),
{
    match account_of(response) {
        Some(summary) => LoginCheck::Authenticated(summary),
        None => if boolean_field_or(response, "requiresOpenaiAuth", true) {
            LoginCheck::Required
        } else {
            LoginCheck::NotRequired
        },
    }
}

/// The browser address a `account/login/start` reply gives for a ChatGPT
/// sign-in.
pub fn login_url(response: &serde_json::Value) -> (r: Result<String, String>)
    ensures
        match field(json_view(*response), "authUrl"@) {
            Some(u) => match as_str(u) {
                Some(url) => (r matches Ok(s) && s@ == url),
                None => (r matches Err(s) && s@ == "ChatGPT login did not return `authUrl`"@),
            },
            None => (r matches Err(s) && s@ == "ChatGPT login did not return `authUrl`"@),
        },
{
    match get(response, "authUrl") {
        Some(u) => match get_str(u) {
            Some(url) => Ok(url.to_owned()),
            None => Err("ChatGPT login did not return `authUrl`".to_owned()),
        },
        None => Err("ChatGPT login did not return `authUrl`".to_owned()),
    }
}

/// The account that an `account/read` reply after a sign-in describes.
pub fn account_after_login(response: &serde_json::Value) -> (r: Result<String, String>)
    ensures
        match account_summary(field_or_null(json_view(*response), "account"@)) {
            Some(s) => (r matches Ok(t) && t@ == s),
            None => (r matches Err(t) && t@
                == "login completed but account/read still returned no account"@),
        },
{
    match account_of(response) {
        Some(summary) => Ok(summary),
        None => Err("login completed but account/read still returned no account".to_owned()),
    }
}

/// What a notification means while a sign-in is awaited.
#[derive(Debug)]
pub enum LoginEvent {
    /// Not the end of the sign-in.
    Ignore,
    Succeeded,
    /// The sign-in failed, for the reason the text gives.
    Failed(String),
}

pub enum LoginEventView {
    Ignore,
    Succeeded,
    Failed(Seq<char>),
}

pub open spec fn login_event_view(e: LoginEvent) -> LoginEventView {
    match e {
        LoginEvent::Ignore => LoginEventView::Ignore,
        LoginEvent::Succeeded => LoginEventView::Succeeded,
        LoginEvent::Failed(s) => LoginEventView::Failed(s@),
    }
}

/// Only `account/login/completed` ends the wait: with success where its
/// `success` is `true`, else with its `error`.
pub open spec fn login_event_of(message: JsonView) -> LoginEventView {
    if method_of(message) != Some(ServerMethodView::AccountLoginCompleted) {
        LoginEventView::Ignore
    } else {
        let params = field_or_null(message, "params"@);
        if bool_field_or(params, "success"@, false) {
            LoginEventView::Succeeded
        } else {
            LoginEventView::Failed(
                "ChatGPT login failed: "@ + str_field_or(params, "error"@, "unknown login error"@),
            )
        }
    }
}

fn params_of(message: &serde_json::Value) -> (r: serde_json::Value)
    ensures
        json_view(r) == field_or_null(json_view(*message), "params"@),
{
    match get(message, "params") {
        Some(p) => clone_value(p),
        None => crate::json::null(),
    }
}

/// Reads a notification while a sign-in is awaited.
pub fn login_event(message: &serde_json::Value) -> (r: LoginEvent)
    ensures
        login_event_view(r) == login_event_of(json_view(*message)),
{
    let completed = match server_method(message) {
        Some(ServerMethod::AccountLoginCompleted) => true,
        _ => false,
    };
    if !completed {
        return LoginEvent::Ignore;
    }
    let params = params_of(message);
    if boolean_field_or(&params, "success", false) {
        LoginEvent::Succeeded
    } else {
        let mut text = "ChatGPT login failed: ".to_owned();
        text.append(string_field_or(&params, "error", "unknown login error").as_str());
        LoginEvent::Failed(text)
    }
}

/// The parameters of `initialize`: the client's name, title and version.
pub fn initialize_params(version: &str) -> (r: serde_json::Value)
    ensures
        json_view(r) == JsonView::Object(
            map![
                "clientInfo"@ => JsonView::Object(
                    map![
                        "name"@ => JsonView::Str("bbot"@),
                        "title"@ => JsonView::Str("B-Bot Codex Planner"@),
                        "version"@ => JsonView::Str(version@),
                    ],
                ),
            ],
        ),
{
    let mut info: Vec<(String, serde_json::Value)> = Vec::new();
    info.push(("name".to_owned(), string("bbot".to_owned())));
    info.push(("title".to_owned(), string("B-Bot Codex Planner".to_owned())));
    info.push(("version".to_owned(), string(version.to_owned())));
    let ghost info_view = entries_view(info@);
    let info = object(info);
    let ghost iv = json_view(info);
    let mut outer: Vec<(String, serde_json::Value)> = Vec::new();
    outer.push(("clientInfo".to_owned(), info));
    proof {
        reveal_with_fuel(map_of_entries, 4);
        reveal_strlit("name");
        reveal_strlit("title");
        reveal_strlit("version");
        assert(map_of_entries(info_view) =~= map![
            "name"@ => JsonView::Str("bbot"@),
            "title"@ => JsonView::Str("B-Bot Codex Planner"@),
            "version"@ => JsonView::Str(version@),
        ]);
        assert(map_of_entries(entries_view(outer@)) =~= map!["clientInfo"@ => iv]);
    }
    object(outer)
}

/// The parameters of `account/read`: no token refresh.
pub fn account_read_params() -> (r: serde_json::Value)
    ensures
        json_view(r) == JsonView::Object(map!["refreshToken"@ => JsonView::Bool(false)]),
{
    let mut e: Vec<(String, serde_json::Value)> = Vec::new();
    e.push(("refreshToken".to_owned(), boolean(false)));
    proof {
        reveal_with_fuel(map_of_entries, 2);
        assert(map_of_entries(entries_view(e@)) =~= map!["refreshToken"@ => JsonView::Bool(false)]);
    }
    object(e)
}

/// The parameters of `account/login/start`: a ChatGPT sign-in.
pub fn login_start_params() -> (r: serde_json::Value)
    ensures
        json_view(r) == JsonView::Object(map!["type"@ => JsonView::Str("chatgpt"@)]),
{
    let mut e: Vec<(String, serde_json::Value)> = Vec::new();
    e.push(("type".to_owned(), string(LoginType::ChatGpt.as_str().to_owned())));
    proof {
        reveal_with_fuel(map_of_entries, 2);
        assert(map_of_entries(entries_view(e@)) =~= map!["type"@ => JsonView::Str("chatgpt"@)]);
    }
    object(e)
}

/// Empty parameters, `{}`.
pub fn empty_params() -> (r: serde_json::Value)
    ensures
        json_view(r) == JsonView::Object(Map::empty()),
{
    let e: Vec<(String, serde_json::Value)> = Vec::new();
    proof {
        assert(map_of_entries(entries_view(e@)) =~= Map::empty());
    }
    object(e)
}

/// The parameters of `model/list`: the first twenty visible models.
pub fn model_list_params() -> (r: serde_json::Value)
    ensures
        json_view(r) == JsonView::Object(
            map!["limit"@ => number_u64(20), "includeHidden"@ => JsonView::Bool(false)],
        ),
{
    let mut e: Vec<(String, serde_json::Value)> = Vec::new();
    e.push(("limit".to_owned(), unsigned(20)));
    e.push(("includeHidden".to_owned(), boolean(false)));
    proof {
        reveal_with_fuel(map_of_entries, 3);
        reveal_strlit("limit");
        reveal_strlit("includeHidden");
        assert(map_of_entries(entries_view(e@)) =~= map![
            "limit"@ => number_u64(20),
            "includeHidden"@ => JsonView::Bool(false),
        ]);
    }
    object(e)
}

/// The parameters of `thread/start`.
pub open spec fn thread_start_json(model: Seq<char>, cwd: Seq<char>, runtime: RuntimeDefaults) -> JsonView {
    JsonView::Object(
        map![
            "model"@ => JsonView::Str(model),
            "cwd"@ => JsonView::Str(cwd),
            "approvalPolicy"@ => JsonView::Str(runtime.approval_policy.wire()),
            "sandbox"@ => JsonView::Str(runtime.sandbox_mode.wire()),
            "serviceName"@ => JsonView::Str("bee_bot_planner"@),
        ],
    )
}

/// The parameters that start the planning thread.
pub fn thread_start_params(model: &str, cwd: &str, runtime: &RuntimeDefaults) -> (r:
    serde_json::Value)
    ensures
        json_view(r) == thread_start_json(model@, cwd@, *runtime),
{
    let mut e: Vec<(String, serde_json::Value)> = Vec::new();
    e.push(("model".to_owned(), string(model.to_owned())));
    e.push(("cwd".to_owned(), string(cwd.to_owned())));
    e.push(("approvalPolicy".to_owned(), string(runtime.approval_policy.as_str().to_owned())));
    e.push(("sandbox".to_owned(), string(runtime.sandbox_mode.as_str().to_owned())));
    e.push(("serviceName".to_owned(), string("bee_bot_planner".to_owned())));
    proof {
        reveal_with_fuel(map_of_entries, 6);
        reveal_strlit("model");
        reveal_strlit("cwd");
        reveal_strlit("approvalPolicy");
        reveal_strlit("sandbox");
        reveal_strlit("serviceName");
        assert(map_of_entries(entries_view(e@)) =~= map![
            "model"@ => JsonView::Str(model@),
            "cwd"@ => JsonView::Str(cwd@),
            "approvalPolicy"@ => JsonView::Str(runtime.approval_policy.wire()),
            "sandbox"@ => JsonView::Str(runtime.sandbox_mode.wire()),
            "serviceName"@ => JsonView::Str("bee_bot_planner"@),
        ]);
    }
    object(e)
}

/// The parameters of `turn/start`.
pub open spec fn turn_start_json(
    thread_id: Seq<char>,
    model: Seq<char>,
    prompt: Seq<char>,
    config: CodexPlannerConfig,
    runtime: RuntimeDefaults,
) -> JsonView {
    JsonView::Object(
        map![
            "threadId"@ => JsonView::Str(thread_id),
            "input"@ => JsonView::Array(
                seq![
                    JsonView::Object(
                        map!["type"@ => JsonView::Str("text"@), "text"@ => JsonView::Str(prompt)],
                    ),
                ],
            ),
            "cwd"@ => JsonView::Str(config.cwd@),
            "approvalPolicy"@ => JsonView::Str(runtime.approval_policy.wire()),
            "sandboxPolicy"@ => runtime.sandbox_mode.policy(config.cwd@, config.network_access),
            "model"@ => JsonView::Str(model),
            "effort"@ => JsonView::Str(config.effort.wire()),
            "summary"@ => JsonView::Str("concise"@),
        ],
    )
}

/// The parameters that start the planning turn with the prompt as its
/// single text input.
pub fn turn_start_params(
    thread_id: &str,
    model: &str,
    prompt: &str,
    config: &CodexPlannerConfig,
    runtime: &RuntimeDefaults,
) -> (r: serde_json::Value)
    ensures
        json_view(r) == turn_start_json(thread_id@, model@, prompt@, *config, *runtime),
{
    let mut item: Vec<(String, serde_json::Value)> = Vec::new();
    item.push(("type".to_owned(), string(InputItemType::Text.as_str().to_owned())));
    item.push(("text".to_owned(), string(prompt.to_owned())));
    let ghost item_entries = entries_view(item@);
    let item = object(item);
    let ghost item_view = json_view(item);
    let mut input: Vec<serde_json::Value> = Vec::new();
    input.push(item);
    let ghost input_view = values_view(input@);
    let input = array(input);
    let ghost iv = json_view(input);
    let policy = runtime.sandbox_mode.turn_policy_json(config.cwd.as_str(), config.network_access);
    let ghost pv = json_view(policy);
    let mut e: Vec<(String, serde_json::Value)> = Vec::new();
    e.push(("threadId".to_owned(), string(thread_id.to_owned())));
    e.push(("input".to_owned(), input));
    e.push(("cwd".to_owned(), string(config.cwd.clone())));
    e.push(("approvalPolicy".to_owned(), string(runtime.approval_policy.as_str().to_owned())));
    e.push(("sandboxPolicy".to_owned(), policy));
    e.push(("model".to_owned(), string(model.to_owned())));
    e.push(("effort".to_owned(), string(config.effort.as_str().to_owned())));
    e.push(("summary".to_owned(), string(SummaryMode::Concise.as_str().to_owned())));
    proof {
        reveal_with_fuel(map_of_entries, 9);
        reveal_strlit("type");
        reveal_strlit("text");
        reveal_strlit("threadId");
        reveal_strlit("input");
        reveal_strlit("cwd");
        reveal_strlit("approvalPolicy");
        reveal_strlit("sandboxPolicy");
        reveal_strlit("model");
        reveal_strlit("effort");
        reveal_strlit("summary");
        assert(map_of_entries(item_entries) =~= map![
            "type"@ => JsonView::Str("text"@),
            "text"@ => JsonView::Str(prompt@),
        ]);
        assert(input_view =~= seq![item_view]);
        assert(map_of_entries(entries_view(e@)) =~= map![
            "threadId"@ => JsonView::Str(thread_id@),
            "input"@ => iv,
            "cwd"@ => JsonView::Str(config.cwd@),
            "approvalPolicy"@ => JsonView::Str(runtime.approval_policy.wire()),
            "sandboxPolicy"@ => pv,
            "model"@ => JsonView::Str(model@),
            "effort"@ => JsonView::Str(config.effort.wire()),
            "summary"@ => JsonView::Str("concise"@),
        ]);
    }
    object(e)
}

/// The `id` of the object member `outer` of a reply.
pub open spec fn nested_id(response: JsonView, outer: Seq<char>) -> Option<Seq<char>> {
    match field(response, outer) {
        Some(o) => match field(o, "id"@) {
            Some(i) => as_str(i),
            None => None,
        },
        None => None,
    }
}

fn nested_id_of(response: &serde_json::Value, outer: &str) -> (r: Option<String>)
    ensures
        match nested_id(json_view(*response), outer@) {
            Some(s) => (r matches Some(t) && t@ == s),
            None => r is None,
        },
{
    match get(response, outer) {
        Some(o) => match get(o, "id") {
            Some(i) => match get_str(i) {
                Some(s) => Some(s.to_owned()),
                None => None,
            },
            None => None,
        },
        None => None,
    }
}

/// The thread id a `thread/start` reply gives.
pub fn thread_id_from(response: &serde_json::Value) -> (r: Result<String, String>)
    ensures
        match nested_id(json_view(*response), "thread"@) {
            Some(s) => (r matches Ok(t) && t@ == s),
            None => (r matches Err(t) && t@ == "thread/start returned no thread id"@),
        },
{
    match nested_id_of(response, "thread") {
        Some(id) => Ok(id),
        None => Err("thread/start returned no thread id".to_owned()),
    }
}

/// The turn id a `turn/start` reply gives.
pub fn turn_id_from(response: &serde_json::Value) -> (r: Result<String, String>)
    ensures
        match nested_id(json_view(*response), "turn"@) {
            Some(s) => (r matches Ok(t) && t@ == s),
            None => (r matches Err(t) && t@ == "turn/start returned no turn id"@),
        },
{
    match nested_id_of(response, "turn") {
        Some(id) => Ok(id),
        None => Err("turn/start returned no turn id".to_owned()),
    }
}

/// What one notification means for the turn being awaited.
#[derive(Debug)]
pub enum TurnEvent {
    /// Keep waiting.
    Continue,
    /// The turn finished; the text gathered so far is its answer.
    Completed,
    /// The turn failed, for the reason the text gives.
    Failed(String),
}

pub enum TurnEventView {
    Continue,
    Completed,
    Failed(Seq<char>),
}

pub open spec fn turn_event_view(e: TurnEvent) -> TurnEventView {
    match e {
        TurnEvent::Continue => TurnEventView::Continue,
        TurnEvent::Completed => TurnEventView::Completed,
        TurnEvent::Failed(s) => TurnEventView::Failed(s@),
    }
}

/// The kind of a turn item, `unknown` where it names none.
pub open spec fn item_kind(item: JsonView) -> ThreadItemTypeView {
    match field(item, "type"@) {
        Some(t) => match as_str(t) {
            Some(s) => ThreadItemTypeView::from_wire(s),
            None => ThreadItemTypeView::Unknown("unknown"@),
        },
        None => ThreadItemTypeView::Unknown("unknown"@),
    }
}

/// The status of a turn item, `unknown` where it names none.
pub open spec fn item_status(item: JsonView) -> ItemStatusView {
    match field(item, "status"@) {
        Some(t) => match as_str(t) {
            Some(s) => ItemStatusView::from_wire(s),
            None => ItemStatusView::Unknown("unknown"@),
        },
        None => ItemStatusView::Unknown("unknown"@),
    }
}

/// The status of a finished turn, `unknown` where it names none.
pub open spec fn turn_status(turn: JsonView) -> TurnStatusView {
    match field(turn, "status"@) {
        Some(t) => match as_str(t) {
            Some(s) => TurnStatusView::from_wire(s),
            None => TurnStatusView::Unknown("unknown"@),
        },
        None => TurnStatusView::Unknown("unknown"@),
    }
}

/// The command of a command item: its string parts joined by spaces, or
/// `<command>` where it has no list of parts.
pub open spec fn command_text(item: JsonView) -> Seq<char> {
    match field(item, "command"@) {
        Some(JsonView::Array(parts)) => join(strings_in(parts), " "@),
        _ => "<command>"@,
    }
}

/// The text `error.message` of `j`, or `default`.
pub open spec fn error_message(j: JsonView, default: Seq<char>) -> Seq<char> {
    match field(j, "error"@) {
        Some(e) => str_field_or(e, "message"@, default),
        None => default,
    }
}

/// One step of waiting for a turn: the answer text gathered after the
/// notification, and what the notification means. Only notifications of
/// this turn count: text deltas are appended; a completed agent message
/// gives the text where no delta did; a command or file change ends the
/// turn as a failure; the turn's completion ends it, with success only where
/// its status is `completed`; an error notification ends it as a failure.
pub open spec fn turn_step(output: Seq<char>, message: JsonView, turn_id: Seq<char>) -> (
    Seq<char>,
    TurnEventView,
) {
    let params = field_or_null(message, "params"@);
    match method_of(message) {
        Some(ServerMethodView::ItemAgentMessageDelta) => if params_match(params, turn_id) {
            (output + str_field_or(params, "delta"@, Seq::empty()), TurnEventView::Continue)
        } else {
            (output, TurnEventView::Continue)
        },
        Some(ServerMethodView::ItemCompleted) => if params_match(params, turn_id) {
            let item = field_or_null(params, "item"@);
            match item_kind(item) {
                ThreadItemTypeView::AgentMessage => if output.len() == 0 {
                    (output + str_field_or(item, "text"@, Seq::empty()), TurnEventView::Continue)
                } else {
                    (output, TurnEventView::Continue)
                },
                ThreadItemTypeView::CommandExecution => (
                    output,
                    TurnEventView::Failed(
                        "codex planner attempted command execution while planning: ["@
                            + item_status(item).wire() + "] "@ + command_text(item),
                    ),
                ),
                ThreadItemTypeView::FileChange => (
                    output,
                    TurnEventView::Failed("codex planner attempted file changes while planning"@),
                ),
                ThreadItemTypeView::Unknown(_) => (output, TurnEventView::Continue),
            }
        } else {
            (output, TurnEventView::Continue)
        },
        Some(ServerMethodView::TurnCompleted) => {
            let turn = field_or_null(params, "turn"@);
            if nested_id(params, "turn"@) != Some(turn_id) {
                (output, TurnEventView::Continue)
            } else {
                match turn_status(turn) {
                    TurnStatusView::Completed => (output, TurnEventView::Completed),
                    status => (
                        output,
                        TurnEventView::Failed(
                            "turn finished with status `"@ + status.wire() + "`: "@
                                + error_message(turn, "unknown turn failure"@),
                        ),
                    ),
                }
            }
        },
        Some(ServerMethodView::Error) => if params_match(params, turn_id) {
            (
                output,
                TurnEventView::Failed(
                    "codex planner turn failed: "@ + error_message(
                        params,
                        "unknown app-server error"@,
                    ),
                ),
            )
        } else {
            (output, TurnEventView::Continue)
        },
        _ => (output, TurnEventView::Continue),
    }
}

fn field_or_null_of(v: &serde_json::Value, key: &str) -> (r: serde_json::Value)
    ensures
        json_view(r) == field_or_null(json_view(*v), key@),
{
    match get(v, key) {
        Some(m) => clone_value(m),
        None => crate::json::null(),
    }
}

fn error_message_of(v: &serde_json::Value, default: &str) -> (r: String)
    ensures
        r@ == error_message(json_view(*v), default@),
{
    match get(v, "error") {
        Some(e) => string_field_or(e, "message", default),
        None => default.to_owned(),
    }
}

fn item_status_of(item: &serde_json::Value) -> (r: ItemStatus)
    ensures
        r@ == item_status(json_view(*item)),
{
    match get(item, "status") {
        Some(t) => match get_str(t) {
            Some(s) => ItemStatus::from_wire(s),
            None => ItemStatus::Unknown("unknown".to_owned()),
        },
        None => ItemStatus::Unknown("unknown".to_owned()),
    }
}

fn command_text_of(item: &serde_json::Value) -> (r: String)
    ensures
        r@ == command_text(json_view(*item)),
{
    match get(item, "command") {
        Some(c) => match get_array(c) {
            Some(parts) => join_strings(&strings_of(parts), " "),
            None => "<command>".to_owned(),
        },
        None => "<command>".to_owned(),
    }
}

/// Takes one notification while the turn `turn_id` is awaited: gathers the
/// answer text in `output` and says whether the turn goes on, completed or
/// failed.
pub fn turn_event(output: &mut String, message: &serde_json::Value, turn_id: &str) -> (r:
    TurnEvent)
    ensures
        (final(output)@, turn_event_view(r)) == turn_step(old(output)@, json_view(*message), turn_id@),
{
    proof {
        reveal_strlit("");
    }
    let method = match server_method(message) {
        Some(m) => m,
        None => return TurnEvent::Continue,
    };
    let params = field_or_null_of(message, "params");
    match method {
        ServerMethod::ItemAgentMessageDelta => {
            if params_matches_turn(&params, turn_id) {
                let delta = string_field_or(&params, "delta", "");
                output.append(delta.as_str());
            }
            TurnEvent::Continue
        },
        ServerMethod::ItemCompleted => {
            if !params_matches_turn(&params, turn_id) {
                return TurnEvent::Continue;
            }
            let item = field_or_null_of(&params, "item");
            let kind = match get(&item, "type") {
                Some(t) => match get_str(t) {
                    Some(s) => ThreadItemType::from_wire(s),
                    None => ThreadItemType::Unknown("unknown".to_owned()),
                },
                None => ThreadItemType::Unknown("unknown".to_owned()),
            };
            match kind {
                ThreadItemType::AgentMessage => {
                    if output.as_str().is_empty() {
                        let text = string_field_or(&item, "text", "");
                        output.append(text.as_str());
                    }
                    TurnEvent::Continue
                },
                ThreadItemType::CommandExecution => {
                    let status = item_status_of(&item);
                    let command = command_text_of(&item);
                    let mut text =
                        "codex planner attempted command execution while planning: [".to_owned();
                    text.append(status.as_str());
                    text.append("] ");
                    text.append(command.as_str());
                    TurnEvent::Failed(text)
                },
                ThreadItemType::FileChange => TurnEvent::Failed(
                    "codex planner attempted file changes while planning".to_owned(),
                ),
                ThreadItemType::Unknown(_) => TurnEvent::Continue,
            }
        },
        ServerMethod::TurnCompleted => {
            let same_turn = match nested_id_of(&params, "turn") {
                Some(id) => str_eq(id.as_str(), turn_id),
                None => false,
            };
            if !same_turn {
                return TurnEvent::Continue;
            }
            let turn = field_or_null_of(&params, "turn");
            let status = match get(&turn, "status") {
                Some(t) => match get_str(t) {
                    Some(s) => TurnStatus::from_wire(s),
                    None => TurnStatus::Unknown("unknown".to_owned()),
                },
                None => TurnStatus::Unknown("unknown".to_owned()),
            };
            match status {
                TurnStatus::Completed => TurnEvent::Completed,
                _ => {
                    let mut text = "turn finished with status `".to_owned();
                    text.append(status.as_str());
                    text.append("`: ");
                    text.append(error_message_of(&turn, "unknown turn failure").as_str());
                    TurnEvent::Failed(text)
                },
            }
        },
        ServerMethod::Error => {
            if params_matches_turn(&params, turn_id) {
                let mut text = "codex planner turn failed: ".to_owned();
                text.append(error_message_of(&params, "unknown app-server error").as_str());
                TurnEvent::Failed(text)
            } else {
                TurnEvent::Continue
            }
        },
        _ => TurnEvent::Continue,
    }
}

/// A turn ends successfully only on its own completion notice, with the
/// status `completed`; the answer is then the text gathered before it.
pub proof fn lemma_turn_success_only_on_completion(
    output: Seq<char>,
    message: JsonView,
    turn_id: Seq<char>,
)
    ensures
        turn_step(output, message, turn_id).1 is Completed ==> {
            let params = field_or_null(message, "params"@);
            &&& method_of(message) == Some(ServerMethodView::TurnCompleted)
            &&& nested_id(params, "turn"@) == Some(turn_id)
            &&& turn_status(field_or_null(params, "turn"@)) is Completed
            &&& turn_step(output, message, turn_id).0 == output
        },
{
}

/// Whether a notification leaves the turn `turn_id` alone: it names no
/// method, a method the turn does not wait for, or it belongs to another
/// turn.
pub open spec fn ignored_by_turn(message: JsonView, turn_id: Seq<char>) -> bool {
    let params = field_or_null(message, "params"@);
    match method_of(message) {
        Some(ServerMethodView::ItemAgentMessageDelta) => !params_match(params, turn_id),
        Some(ServerMethodView::ItemCompleted) => !params_match(params, turn_id),
        Some(ServerMethodView::Error) => !params_match(params, turn_id),
        Some(ServerMethodView::TurnCompleted) => nested_id(params, "turn"@) != Some(turn_id),
        _ => true,
    }
}

/// Waiting for the turn `turn_id` over the notifications `messages`, in
/// order, from the answer text `output`: each is taken as `turn_event` takes
/// it, until one ends the turn. The result is the answer text and how the
/// wait ended (`Continue` where the notifications ran out first).
pub open spec fn turn_run(output: Seq<char>, messages: Seq<JsonView>, turn_id: Seq<char>) -> (
    Seq<char>,
    TurnEventView,
)
    decreases messages.len(),
{
    if messages.len() == 0 {
        (output, TurnEventView::Continue)
    } else {
        let step = turn_step(output, messages[0], turn_id);
        if step.1 is Continue {
            turn_run(step.0, messages.drop_first(), turn_id)
        } else {
            step
        }
    }
}

/// The notifications among `messages` that the turn `turn_id` does not
/// ignore, in order.
pub open spec fn turn_relevant(messages: Seq<JsonView>, turn_id: Seq<char>) -> Seq<JsonView>
    decreases messages.len(),
{
    if messages.len() == 0 {
        messages
    } else if ignored_by_turn(messages[0], turn_id) {
        turn_relevant(messages.drop_first(), turn_id)
    } else {
        seq![messages[0]] + turn_relevant(messages.drop_first(), turn_id)
    }
}

/// A notification of another turn, or of a method the turn does not wait
/// for, neither changes the gathered answer nor ends the turn being awaited.
pub proof fn lemma_other_turns_ignored(output: Seq<char>, message: JsonView, turn_id: Seq<char>)
    requires
        ignored_by_turn(message, turn_id),
    ensures
        turn_step(output, message, turn_id) == (output, TurnEventView::Continue),
{
}

/// Notifications of other turns, or of methods the turn does not wait for,
/// never change what waiting for a turn gives: the wait over any sequence of
/// notifications ends as the wait over the notifications it does not ignore.
pub proof fn lemma_turn_run_ignores_other_turns(
    output: Seq<char>,
    messages: Seq<JsonView>,
    turn_id: Seq<char>,
)
    ensures
        turn_run(output, messages, turn_id) == turn_run(
            output,
            turn_relevant(messages, turn_id),
            turn_id,
        ),
    decreases messages.len(),
{
    if messages.len() > 0 {
        let rest = messages.drop_first();
        if ignored_by_turn(messages[0], turn_id) {
            lemma_other_turns_ignored(output, messages[0], turn_id);
            lemma_turn_run_ignores_other_turns(output, rest, turn_id);
        } else {
            let rel = seq![messages[0]] + turn_relevant(rest, turn_id);
            assert(rel[0] == messages[0]);
            assert(rel.drop_first() =~= turn_relevant(rest, turn_id));
            let step = turn_step(output, messages[0], turn_id);
            if step.1 is Continue {
                lemma_turn_run_ignores_other_turns(step.0, rest, turn_id);
            }
        }
    }
}

/// Waiting over one more notification: where the wait had ended it stays as
/// it ended; else the notification is taken as `turn_event` takes it.
pub proof fn lemma_turn_run_push(
    output: Seq<char>,
    messages: Seq<JsonView>,
    message: JsonView,
    turn_id: Seq<char>,
)
    ensures
        turn_run(output, messages.push(message), turn_id) == if turn_run(
            output,
            messages,
            turn_id,
        ).1 is Continue {
            turn_step(turn_run(output, messages, turn_id).0, message, turn_id)
        } else {
            turn_run(output, messages, turn_id)
        },
    decreases messages.len(),
{
    let all = messages.push(message);
    if messages.len() == 0 {
        assert(all[0] == message);
        assert(all.drop_first() =~= Seq::<JsonView>::empty());
        let step = turn_step(output, message, turn_id);
        assert(turn_run(step.0, Seq::<JsonView>::empty(), turn_id) == (
            step.0,
            TurnEventView::Continue,
        ));
        assert(turn_run(output, messages, turn_id) == (output, TurnEventView::Continue));
        if step.1 is Continue {
            assert(step.1 == TurnEventView::Continue);
        }
    } else {
        assert(all[0] == messages[0]);
        assert(all.drop_first() =~= messages.drop_first().push(message));
        let step = turn_step(output, messages[0], turn_id);
        if step.1 is Continue {
            lemma_turn_run_push(step.0, messages.drop_first(), message, turn_id);
        }
    }
}

/// How a wait for a turn ended.
#[derive(Debug)]
enum TurnEnd {
    Completed,
    Failed(String),
}

spec fn end_view(end: Option<TurnEnd>) -> TurnEventView {
    match end {
        None => TurnEventView::Continue,
        Some(TurnEnd::Completed) => TurnEventView::Completed,
        Some(TurnEnd::Failed(s)) => TurnEventView::Failed(s@),
    }
}

/// The wait for one turn: the answer gathered so far and, once the turn
/// ended, how it ended. It stands at every moment as `turn_run` says of the
/// notifications taken so far.
pub struct TurnWait {
    turn_id: String,
    output: String,
    end: Option<TurnEnd>,
    seen: Ghost<Seq<JsonView>>,
}

impl TurnWait {
    #[verifier::type_invariant]
    spec fn waits_as_run(self) -> bool {
        turn_run(Seq::empty(), self.seen@, self.turn_id@) == (self.output@, end_view(self.end))
    }

    /// The turn waited for.
    pub closed spec fn turn_id(self) -> Seq<char> {
        self.turn_id@
    }

    /// The notifications taken so far, in order.
    pub closed spec fn seen(self) -> Seq<JsonView> {
        self.seen@
    }

    /// The answer gathered so far.
    pub closed spec fn answer(self) -> Seq<char> {
        self.output@
    }

    /// A wait for the turn `turn_id` that has taken nothing yet.
    pub fn new(turn_id: &str) -> (r: Self)
        ensures
            r.turn_id() == turn_id@,
            r.seen() == Seq::<JsonView>::empty(),
            r.answer() == Seq::<char>::empty(),
    {
        proof {
            reveal_strlit("");
        }
        TurnWait {
            turn_id: turn_id.to_owned(),
            output: String::new(),
            end: None,
            seen: Ghost(Seq::empty()),
        }
    }

    /// Takes the next notification. The answer and the event returned are
    /// what waiting over all notifications taken so far gives: once the turn
    /// ended, further notifications change nothing and the same end is
    /// returned again.
    pub fn take(&mut self, message: &serde_json::Value) -> (r: TurnEvent)
        ensures
            final(self).turn_id() == old(self).turn_id(),
            final(self).seen() == old(self).seen().push(json_view(*message)),
            (final(self).answer(), turn_event_view(r)) == turn_run(
                Seq::empty(),
                final(self).seen(),
                final(self).turn_id(),
            ),
    {
        proof {
            use_type_invariant(&*self);
            lemma_turn_run_push(Seq::empty(), self.seen@, json_view(*message), self.turn_id@);
        }
        let ghost seen = self.seen@.push(json_view(*message));
        let turn_id = self.turn_id.clone();
        let mut output = self.output.clone();
        let (event, end) = match &self.end {
            Some(TurnEnd::Completed) => (TurnEvent::Completed, Some(TurnEnd::Completed)),
            Some(TurnEnd::Failed(reason)) => (
                TurnEvent::Failed(reason.clone()),
                Some(TurnEnd::Failed(reason.clone())),
            ),
            None => {
                let event = turn_event(&mut output, message, turn_id.as_str());
                let end = match &event {
                    TurnEvent::Continue => None,
                    TurnEvent::Completed => Some(TurnEnd::Completed),
                    TurnEvent::Failed(reason) => Some(TurnEnd::Failed(reason.clone())),
                };
                (event, end)
            },
        };
        *self = TurnWait { turn_id, output, end, seen: Ghost(seen) };
        event
    }

    /// The answer gathered so far.
    pub fn answer_text(&self) -> (r: String)
        ensures
            r@ == self.answer(),
    {
        self.output.clone()
    }
}

/// An item of this turn whose kind is neither an agent message, a command
/// execution nor a file change (a reasoning item, say) is ignored: the
/// answer stays and the wait goes on. Among finished items, only a command
/// execution or a file change makes the turn fail.
pub proof fn lemma_other_items_ignored(output: Seq<char>, message: JsonView, turn_id: Seq<char>)
    ensures
        ({
            let params = field_or_null(message, "params"@);
            let kind = as_str(field_or_null(field_or_null(params, "item"@), "type"@));
            &&& field(message, "method"@) == Some(JsonView::Str("item/completed"@))
                && field(params, "turnId"@) == Some(JsonView::Str(turn_id))
                && kind != Some("agentMessage"@) && kind != Some("commandExecution"@)
                && kind != Some("fileChange"@) ==> turn_step(output, message, turn_id) == (
                output,
                TurnEventView::Continue,
            )
            &&& field(message, "method"@) == Some(JsonView::Str("item/completed"@))
                && turn_step(output, message, turn_id).1 is Failed ==> (kind == Some(
                "commandExecution"@,
            ) || kind == Some("fileChange"@))
        }),
{
    reveal_strlit("item/completed");
    reveal_strlit("account/login/completed");
    reveal_strlit("item/agentMessage/delta");
    reveal_strlit("turn/completed");
    reveal_strlit("error");
    assert("item/completed"@.len() != "account/login/completed"@.len());
    assert("item/completed"@.len() != "item/agentMessage/delta"@.len());
    assert("item/completed"@[0] != "turn/completed"@[0]);
    assert("item/completed"@.len() != "error"@.len());
    let params = field_or_null(message, "params"@);
    let item = field_or_null(params, "item"@);
    match field_or_null(item, "type"@) {
        JsonView::Str(k) => {
            assert(item_kind(item) == ThreadItemTypeView::from_wire(k));
        },
        _ => {},
    }
}

/// The planning model is the first of the preferred models, in the order
/// `gpt-5.4`, `gpt-5.4-mini`, `gpt-5.1`, `gpt-5.1-mini`, that the server
/// lists; where it lists none of them, the first model it lists; where it
/// lists no model, none.
pub proof fn lemma_model_preference(response: JsonView)
    ensures
        ({
            let prefs = seq!["gpt-5.4"@, "gpt-5.4-mini"@, "gpt-5.1"@, "gpt-5.1-mini"@];
            match field(response, "data"@) {
                Some(JsonView::Array(items)) => {
                    let listed = models_in(items);
                    &&& forall|i: int|
                        0 <= i < 4 && listed.contains(#[trigger] prefs[i]) && (forall|k: int|
                            0 <= k < i ==> !listed.contains(prefs[k])) ==> model_choice(response)
                            == Ok::<Seq<char>, Seq<char>>(prefs[i])
                    &&& (forall|k: int| 0 <= k < 4 ==> !listed.contains(#[trigger] prefs[k]))
                        && listed.len() > 0 ==> model_choice(response) == Ok::<
                        Seq<char>,
                        Seq<char>,
                    >(listed[0])
                    &&& listed.len() == 0 ==> model_choice(response) is Err
                },
                _ => model_choice(response) is Err,
            }
        }),
{
    let prefs = seq!["gpt-5.4"@, "gpt-5.4-mini"@, "gpt-5.1"@, "gpt-5.1-mini"@];
    assert(preferred_models() == prefs);
    match field(response, "data"@) {
        Some(JsonView::Array(items)) => {
            let listed = models_in(items);
            if listed.len() == 0 {
                assert(!listed.contains(prefs[0]));
                assert(!listed.contains(prefs[1]));
                assert(!listed.contains(prefs[2]));
                assert(!listed.contains(prefs[3]));
            }
            assert forall|k: int| 0 <= k < 4 implies prefs[k] == preferred_models()[k] by {}
        },
        _ => {},
    }
}

/// The planning runtime prefers the safest mode allowed: read-only whenever
/// it is allowed, else workspace-write, else full access, and read-only where
/// no mode is named; the approval policy is, likewise, the first allowed of
/// `never`, `on-failure`, `untrusted`, `on-request`, and `never` where none
/// is named. Without requirements, the runtime is read-only under `never`.
pub proof fn lemma_runtime_prefers_safest(response: JsonView)
    ensures
        ({
            let requirements = field_or_null(response, "requirements"@);
            let modes = sandboxes_in(list_field(requirements, "allowedSandboxModes"@));
            let policies = approvals_in(list_field(requirements, "allowedApprovalPolicies"@));
            let r = runtime_defaults_of(response);
            if requirements is Null {
                r.sandbox_mode == ThreadSandboxMode::ReadOnly && r.approval_policy
                    == ApprovalPolicy::Never
            } else {
                &&& modes.contains(ThreadSandboxMode::ReadOnly) ==> r.sandbox_mode
                    == ThreadSandboxMode::ReadOnly
                &&& !modes.contains(ThreadSandboxMode::ReadOnly) && modes.contains(
                    ThreadSandboxMode::WorkspaceWrite,
                ) ==> r.sandbox_mode == ThreadSandboxMode::WorkspaceWrite
                &&& !modes.contains(ThreadSandboxMode::ReadOnly) && !modes.contains(
                    ThreadSandboxMode::WorkspaceWrite,
                ) && modes.contains(ThreadSandboxMode::DangerFullAccess) ==> r.sandbox_mode
                    == ThreadSandboxMode::DangerFullAccess
                &&& modes.len() == 0 ==> r.sandbox_mode == ThreadSandboxMode::ReadOnly
                &&& modes.len() > 0 ==> modes.contains(r.sandbox_mode)
                &&& policies.contains(ApprovalPolicy::Never) ==> r.approval_policy
                    == ApprovalPolicy::Never
                &&& !policies.contains(ApprovalPolicy::Never) && policies.contains(
                    ApprovalPolicy::OnFailure,
                ) ==> r.approval_policy == ApprovalPolicy::OnFailure
                &&& !policies.contains(ApprovalPolicy::Never) && !policies.contains(
                    ApprovalPolicy::OnFailure,
                ) && policies.contains(ApprovalPolicy::Untrusted) ==> r.approval_policy
                    == ApprovalPolicy::Untrusted
                &&& policies.len() == 0 ==> r.approval_policy == ApprovalPolicy::Never
                &&& policies.len() > 0 ==> policies.contains(r.approval_policy)
            }
        }),
{
    let requirements = field_or_null(response, "requirements"@);
    let modes = sandboxes_in(list_field(requirements, "allowedSandboxModes"@));
    let policies = approvals_in(list_field(requirements, "allowedApprovalPolicies"@));
    if modes.len() > 0 {
        let m = modes[0];
        assert(modes.contains(m));
        match m {
            ThreadSandboxMode::ReadOnly => {},
            ThreadSandboxMode::WorkspaceWrite => {},
            ThreadSandboxMode::DangerFullAccess => {},
        }
    } else {
        assert(!modes.contains(ThreadSandboxMode::ReadOnly));
        assert(!modes.contains(ThreadSandboxMode::WorkspaceWrite));
        assert(!modes.contains(ThreadSandboxMode::DangerFullAccess));
    }
    if policies.len() > 0 {
        let p = policies[0];
        assert(policies.contains(p));
        match p {
            ApprovalPolicy::Never => {},
            ApprovalPolicy::OnFailure => {},
            ApprovalPolicy::Untrusted => {},
            ApprovalPolicy::OnRequest => {},
        }
    } else {
        assert(!policies.contains(ApprovalPolicy::Never));
        assert(!policies.contains(ApprovalPolicy::OnFailure));
        assert(!policies.contains(ApprovalPolicy::Untrusted));
        assert(!policies.contains(ApprovalPolicy::OnRequest));
    }
}

/// While a turn is awaited, the answer text only grows: each notification
/// leaves the text gathered so far as a prefix of the new text.
pub proof fn lemma_turn_output_grows(output: Seq<char>, message: JsonView, turn_id: Seq<char>)
    ensures
        turn_step(output, message, turn_id).0.len() >= output.len(),
        turn_step(output, message, turn_id).0.subrange(0, output.len() as int) == output,
{
    let next = turn_step(output, message, turn_id).0;
    assert(next.subrange(0, output.len() as int) =~= output);
}

} // verus!
