//! The protocol dispatcher: session calls, the tool catalog, and tool calls
//! routed by a closed enumeration of tool names.
//!
//! Two tiers of failure are kept apart: a malformed call (unknown method,
//! no tool name) is a protocol error with its numeric code; a call that is
//! well formed but cannot be satisfied is a successful reply whose payload
//! is flagged as an error.
use vstd::prelude::*;
use crate::server::{result_view, Server, ToolArgs};
use crate::text::str_eq;
use crate::tools::{
    architecture_spec, commands_spec, conventions_spec, docs_spec, list_prompts_spec,
    list_projects_text, project_info_spec, prompt_path_spec, prompt_text, prompt_text_spec,
    related_files_spec,
};
use crate::workspace::{name_order, overview_text, workspace_conventions_spec};

verus! {

/// The tools that a client can call.
#[derive(Clone, Copy, Debug, PartialEq, Eq)]
pub enum ToolKind {
    ListProjects,
    GetProjectInfo,
    GetCommands,
    GetArchitecture,
    GetRelatedFiles,
    ListPrompts,
    GetPrompt,
    GetConventions,
    GetDocs,
    GetWorkspaceOverview,
    GetWorkspaceConventions,
}

pub open spec fn tool_name_of(k: ToolKind) -> Seq<char> {
    match k {
        ToolKind::ListProjects => "list_projects"@,
        ToolKind::GetProjectInfo => "get_project_info"@,
        ToolKind::GetCommands => "get_commands"@,
        ToolKind::GetArchitecture => "get_architecture"@,
        ToolKind::GetRelatedFiles => "get_related_files"@,
        ToolKind::ListPrompts => "list_prompts"@,
        ToolKind::GetPrompt => "get_prompt"@,
        ToolKind::GetConventions => "get_conventions"@,
        ToolKind::GetDocs => "get_docs"@,
        ToolKind::GetWorkspaceOverview => "get_workspace_overview"@,
        ToolKind::GetWorkspaceConventions => "get_workspace_conventions"@,
    }
}

/// The tool that a name calls, if any.
pub open spec fn tool_named(name: Seq<char>) -> Option<ToolKind> {
    if name == "list_projects"@ {
        Some(ToolKind::ListProjects)
    } else if name == "get_project_info"@ {
        Some(ToolKind::GetProjectInfo)
    } else if name == "get_commands"@ {
        Some(ToolKind::GetCommands)
    } else if name == "get_architecture"@ {
        Some(ToolKind::GetArchitecture)
    } else if name == "get_related_files"@ {
        Some(ToolKind::GetRelatedFiles)
    } else if name == "list_prompts"@ {
        Some(ToolKind::ListPrompts)
    } else if name == "get_prompt"@ {
        Some(ToolKind::GetPrompt)
    } else if name == "get_conventions"@ {
        Some(ToolKind::GetConventions)
    } else if name == "get_docs"@ {
        Some(ToolKind::GetDocs)
    } else if name == "get_workspace_overview"@ {
        Some(ToolKind::GetWorkspaceOverview)
    } else if name == "get_workspace_conventions"@ {
        Some(ToolKind::GetWorkspaceConventions)
    } else {
        None
    }
}

impl ToolKind {
    /// The tool that a name calls, if any.
    pub fn from_name(name: &str) -> (r: Option<ToolKind>)
        ensures
            r == tool_named(name@),
    {
        if str_eq(name, "list_projects") {
            Some(ToolKind::ListProjects)
        } else if str_eq(name, "get_project_info") {
            Some(ToolKind::GetProjectInfo)
        } else if str_eq(name, "get_commands") {
            Some(ToolKind::GetCommands)
        } else if str_eq(name, "get_architecture") {
            Some(ToolKind::GetArchitecture)
        } else if str_eq(name, "get_related_files") {
            Some(ToolKind::GetRelatedFiles)
        } else if str_eq(name, "list_prompts") {
            Some(ToolKind::ListPrompts)
        } else if str_eq(name, "get_prompt") {
            Some(ToolKind::GetPrompt)
        } else if str_eq(name, "get_conventions") {
            Some(ToolKind::GetConventions)
        } else if str_eq(name, "get_docs") {
            Some(ToolKind::GetDocs)
        } else if str_eq(name, "get_workspace_overview") {
            Some(ToolKind::GetWorkspaceOverview)
        } else if str_eq(name, "get_workspace_conventions") {
            Some(ToolKind::GetWorkspaceConventions)
        } else {
            None
        }
    }

    /// The name under which the tool is called.
    pub fn name(&self) -> (r: &'static str)
        ensures
            r@ == tool_name_of(*self),
    {
        match self {
            ToolKind::ListProjects => "list_projects",
            ToolKind::GetProjectInfo => "get_project_info",
            ToolKind::GetCommands => "get_commands",
            ToolKind::GetArchitecture => "get_architecture",
            ToolKind::GetRelatedFiles => "get_related_files",
            ToolKind::ListPrompts => "list_prompts",
            ToolKind::GetPrompt => "get_prompt",
            ToolKind::GetConventions => "get_conventions",
            ToolKind::GetDocs => "get_docs",
            ToolKind::GetWorkspaceOverview => "get_workspace_overview",
            ToolKind::GetWorkspaceConventions => "get_workspace_conventions",
        }
    }
}

/// A request, as the transport parsed it.
#[derive(Clone, Debug)]
pub struct Request {
    pub method: String,
    /// The `name` parameter of a tool call, when present and a string.
    pub tool: Option<String>,
    pub arguments: ToolArgs,
}

/// What the server identifies itself with at session start.
#[derive(Clone, Debug)]
pub struct ServerInfo {
    pub protocol_version: String,
    pub name: String,
}

/// A protocol-level error: a numeric code and a message.
#[derive(Clone, Debug)]
pub struct ProtocolError {
    pub code: i32,
    pub message: String,
}

/// The payload of a tool call: its text, and whether it reports a failure.
#[derive(Clone, Debug)]
pub struct ToolReply {
    pub text: String,
    pub is_error: bool,
}

/// One parameter of a tool's input schema.
#[derive(Clone, Debug)]
pub struct ParamSpec {
    pub name: String,
    pub description: String,
    /// The values the parameter may take; empty for a free string.
    pub choices: Vec<String>,
}

/// One entry of the tool catalog.
#[derive(Clone, Debug)]
pub struct ToolSpec {
    pub name: String,
    pub description: String,
    pub params: Vec<ParamSpec>,
    pub required: Vec<String>,
}

/// The answer to a request.
#[derive(Clone, Debug)]
pub enum Reply {
    /// The session descriptor.
    Initialize(ServerInfo),
    /// An empty acknowledgement.
    Empty,
    /// The tool catalog.
    Tools(Vec<ToolSpec>),
    /// The result of a tool call.
    Tool(ToolReply),
    /// A prompt file must be read; `Server::finish_prompt` makes the reply.
    ReadPrompt(String),
    /// A protocol-level error.
    Error(ProtocolError),
}

pub const PARSE_ERROR: i32 = -32700;
pub const METHOD_NOT_FOUND: i32 = -32601;
pub const INVALID_PARAMS: i32 = -32602;

/// The text and error flag that a tool outcome is delivered with.
pub open spec fn reply_for(res: Result<Seq<char>, Seq<char>>) -> (Seq<char>, bool) {
    match res {
        Ok(text) => (text, false),
        Err(msg) => ("Error: "@ + msg, true),
    }
}

/// Delivers a tool outcome: a failure is flagged, with its message prefixed.
pub fn wrap_result(res: Result<String, String>) -> (r: ToolReply)
    ensures
        (r.text@, r.is_error) == reply_for(result_view(res)),
{
    match res {
        Ok(text) => ToolReply { text, is_error: false },
        Err(msg) => {
            let mut text = "Error: ".to_owned();
            text.append(msg.as_str());
            ToolReply { text, is_error: true }
        },
    }
}

/// Whether the tool `k`, called with `args`, may answer `res` (for a prompt,
/// `res` is where its file lies).
pub open spec fn answers(s: Server, k: ToolKind, args: ToolArgs, res: Result<Seq<char>, Seq<char>>) -> bool {
    let reg = s.registry.projects@;
    match k {
        ToolKind::ListProjects => res == Ok::<Seq<char>, Seq<char>>(list_projects_text(reg)),
        ToolKind::GetProjectInfo => res == project_info_spec(reg, args),
        ToolKind::GetCommands => res == commands_spec(reg, args),
        ToolKind::GetArchitecture => res == architecture_spec(reg, args),
        ToolKind::GetRelatedFiles => res == related_files_spec(reg, args),
        ToolKind::ListPrompts => res == list_prompts_spec(reg, args),
        ToolKind::GetPrompt => res == prompt_path_spec(reg, args),
        ToolKind::GetConventions => res == conventions_spec(reg, args),
        ToolKind::GetDocs => res == docs_spec(reg, args),
        ToolKind::GetWorkspaceOverview => (exists|order: Seq<usize>| name_order(reg, order))
            && forall|order: Seq<usize>|
            #[trigger] name_order(reg, order) ==> res == Ok::<Seq<char>, Seq<char>>(
                overview_text(s.root@, s.workspace, reg, order),
            ),
        ToolKind::GetWorkspaceConventions => res == workspace_conventions_spec(s.workspace, args),
    }
}

/// The methods of the protocol.
pub enum Method {
    Initialize,
    Initialized,
    ToolsList,
    ToolsCall,
    Other,
}

pub open spec fn method_of(m: Seq<char>) -> Method {
    if m == "initialize"@ {
        Method::Initialize
    } else if m == "initialized"@ {
        Method::Initialized
    } else if m == "tools/list"@ {
        Method::ToolsList
    } else if m == "tools/call"@ {
        Method::ToolsCall
    } else {
        Method::Other
    }
}

/// Whether a request needs a fresh discovery pass before it is handled.
pub fn needs_discovery(method: &str) -> (r: bool)
    ensures
        r == (method@ == "tools/call"@),
{
    str_eq(method, "tools/call")
}

fn protocol_error(code: i32, message: String) -> (r: Reply)
    ensures
        r matches Reply::Error(e) && e.code == code && e.message == message,
{
    Reply::Error(ProtocolError { code, message })
}

impl Server {
    /// The outcome of a tool, `Ok` or `Err` as the tool decides; for
    /// `get_prompt`, the path of the file to read.
    pub fn call_tool(&self, kind: ToolKind, args: &ToolArgs) -> (r: Result<String, String>)
        requires
            self.wf(),
        ensures
            answers(*self, kind, *args, result_view(r)),
    {
        match kind {
            ToolKind::ListProjects => self.tool_list_projects(),
            ToolKind::GetProjectInfo => self.tool_get_project_info(args),
            ToolKind::GetCommands => self.tool_get_commands(args),
            ToolKind::GetArchitecture => self.tool_get_architecture(args),
            ToolKind::GetRelatedFiles => self.tool_get_related_files(args),
            ToolKind::ListPrompts => self.tool_list_prompts(args),
            ToolKind::GetPrompt => self.tool_get_prompt(args),
            ToolKind::GetConventions => self.tool_get_conventions(args),
            ToolKind::GetDocs => self.tool_get_docs(args),
            ToolKind::GetWorkspaceOverview => self.tool_get_workspace_overview(),
            ToolKind::GetWorkspaceConventions => self.tool_get_workspace_conventions(args),
        }
    }

    /// The reply to a tool call once the prompt file it asked for was read.
    pub fn finish_prompt(&self, read: Result<String, String>) -> (r: ToolReply)
        ensures
            (r.text@, r.is_error) == reply_for(prompt_text_spec(result_view(read))),
    {
        wrap_result(prompt_text(read))
    }

    /// Answers one request. Session calls get fixed answers; a tool call
    /// without a tool name is a protocol error; any tool call with a name,
    /// known or not, is answered with a tool reply, flagged when it failed;
    /// any other method is a protocol error.
    pub fn handle_request(&self, req: &Request) -> (r: Reply)
        requires
            self.wf(),
        ensures
            match method_of(req.method@) {
                Method::Initialize => r matches Reply::Initialize(info)
                    && info.protocol_version@ == "2024-11-05"@ && info.name@ == "jumble"@,
                Method::Initialized => r is Empty,
                Method::ToolsList => r matches Reply::Tools(tools) && catalog(tools@),
                Method::ToolsCall => match req.tool {
                    None => r matches Reply::Error(e) && e.code == INVALID_PARAMS && e.message@
                        == "Missing 'name' parameter"@,
                    Some(name) => match tool_named(name@) {
                        None => r matches Reply::Tool(t) && t.is_error && t.text@ == "Error: "@
                            + "Unknown tool: "@ + name@,
                        Some(ToolKind::GetPrompt) => exists|res: Result<Seq<char>, Seq<char>>|
                            answers(*self, ToolKind::GetPrompt, req.arguments, res) && match res {
                                Ok(path) => r matches Reply::ReadPrompt(p) && p@ == path,
                                Err(msg) => r matches Reply::Tool(t) && (t.text@, t.is_error)
                                    == reply_for(Err(msg)),
                            },
                        Some(k) => r matches Reply::Tool(t) && exists|
                            res: Result<Seq<char>, Seq<char>>,
                        |
                            answers(*self, k, req.arguments, res) && (t.text@, t.is_error)
                                == reply_for(res),
                    },
                },
                Method::Other => r matches Reply::Error(e) && e.code == METHOD_NOT_FOUND
                    && e.message@ == "Method not found: "@ + req.method@,
            },
    {
        let m = req.method.as_str();
        if str_eq(m, "initialize") {
            Reply::Initialize(
                ServerInfo { protocol_version: "2024-11-05".to_owned(), name: "jumble".to_owned() },
            )
        } else if str_eq(m, "initialized") {
            Reply::Empty
        } else if str_eq(m, "tools/list") {
            Reply::Tools(tool_catalog())
        } else if str_eq(m, "tools/call") {
            let name = match &req.tool {
                None => {
                    return protocol_error(INVALID_PARAMS, "Missing 'name' parameter".to_owned());
                },
                Some(n) => n,
            };
            match ToolKind::from_name(name.as_str()) {
                None => {
                    let mut msg = "Unknown tool: ".to_owned();
                    msg.append(name.as_str());
                    let r = wrap_result(Err(msg));
                    assert(r.text@ =~= "Error: "@ + "Unknown tool: "@ + name@);
                    Reply::Tool(r)
                },
                Some(kind) => {
                    let res = self.call_tool(kind, &req.arguments);
                    match kind {
                        ToolKind::GetPrompt => match res {
                            Ok(path) => Reply::ReadPrompt(path),
                            Err(msg) => Reply::Tool(wrap_result(Err(msg))),
                        },
                        _ => Reply::Tool(wrap_result(res)),
                    }
                },
            }
        } else {
            let mut msg = "Method not found: ".to_owned();
            msg.append(m);
            protocol_error(METHOD_NOT_FOUND, msg)
        }
    }
}

/// The parameters each tool takes, in catalog order.
pub open spec fn param_names(k: ToolKind) -> Seq<Seq<char>> {
    match k {
        ToolKind::ListProjects => seq![],
        ToolKind::GetProjectInfo => seq!["project"@, "field"@],
        ToolKind::GetCommands => seq!["project"@, "command_type"@],
        ToolKind::GetArchitecture => seq!["project"@, "concept"@],
        ToolKind::GetRelatedFiles => seq!["project"@, "query"@],
        ToolKind::ListPrompts => seq!["project"@],
        ToolKind::GetPrompt => seq!["project"@, "topic"@],
        ToolKind::GetConventions => seq!["project"@, "category"@],
        ToolKind::GetDocs => seq!["project"@, "topic"@],
        ToolKind::GetWorkspaceOverview => seq![],
        ToolKind::GetWorkspaceConventions => seq!["category"@],
    }
}

/// The parameters each tool requires.
pub open spec fn required_names(k: ToolKind) -> Seq<Seq<char>> {
    match k {
        ToolKind::GetProjectInfo => seq!["project"@],
        ToolKind::GetCommands => seq!["project"@],
        ToolKind::GetArchitecture => seq!["project"@, "concept"@],
        ToolKind::GetRelatedFiles => seq!["project"@, "query"@],
        ToolKind::ListPrompts => seq!["project"@],
        ToolKind::GetPrompt => seq!["project"@, "topic"@],
        ToolKind::GetConventions => seq!["project"@],
        ToolKind::GetDocs => seq!["project"@],
        _ => seq![],
    }
}

/// The values a parameter is restricted to; empty for a free string.
pub open spec fn choices_of(param: Seq<char>) -> Seq<Seq<char>> {
    if param == "field"@ {
        seq!["commands"@, "entry_points"@, "dependencies"@, "api"@, "related_projects"@]
    } else if param == "category"@ {
        seq!["conventions"@, "gotchas"@]
    } else {
        seq![]
    }
}

/// The tools in catalog order.
pub open spec fn all_tools() -> Seq<ToolKind> {
    seq![
        ToolKind::ListProjects,
        ToolKind::GetProjectInfo,
        ToolKind::GetCommands,
        ToolKind::GetArchitecture,
        ToolKind::GetRelatedFiles,
        ToolKind::ListPrompts,
        ToolKind::GetPrompt,
        ToolKind::GetConventions,
        ToolKind::GetDocs,
        ToolKind::GetWorkspaceOverview,
        ToolKind::GetWorkspaceConventions,
    ]
}

pub open spec fn texts(v: Seq<String>) -> Seq<Seq<char>> {
    v.map_values(|s: String| s@)
}

/// What each tool is for, as the catalog tells clients.
pub open spec fn tool_description(k: ToolKind) -> Seq<char> {
    match k {
        ToolKind::ListProjects => "Lists all projects with their descriptions. Use this to discover what projects exist in the workspace."@,
        ToolKind::GetProjectInfo => "Returns metadata about a specific project including description, language, version, entry points, and dependencies."@,
        ToolKind::GetCommands => "Returns executable commands for a project (build, test, lint, run, dev, etc.)"@,
        ToolKind::GetArchitecture => "Returns architectural info for a specific concept/area of a project, including relevant files and a summary."@,
        ToolKind::GetRelatedFiles => "Finds files related to a concept or feature by searching through all defined concepts."@,
        ToolKind::ListPrompts => "Lists available task-specific prompts for a project. Prompts provide focused context for specific tasks like adding endpoints, debugging, etc."@,
        ToolKind::GetPrompt => "Retrieves a task-specific prompt containing focused context and instructions for a particular task."@,
        ToolKind::GetConventions => "Returns project-specific coding conventions and gotchas. Conventions are architectural patterns and standards; gotchas are common mistakes to avoid."@,
        ToolKind::GetDocs => "Returns a documentation index for a project, listing available docs with summaries. Optionally retrieves the path to a specific doc."@,
        ToolKind::GetWorkspaceOverview => "Returns a high-level overview of the entire workspace: workspace info, all projects with descriptions, and their dependency relationships. Call this first to understand the workspace structure."@,
        ToolKind::GetWorkspaceConventions => "Returns workspace-level conventions and gotchas that apply across all projects in the workspace."@,
    }
}

/// The descriptions of each tool's parameters, in the order of `param_names`.
pub open spec fn param_descriptions(k: ToolKind) -> Seq<Seq<char>> {
    match k {
        ToolKind::ListProjects => seq![],
        ToolKind::GetProjectInfo => seq![
            "The project name"@,
            "Optional specific field to retrieve: 'commands', 'entry_points', 'dependencies', 'api', 'related_projects'"@,
        ],
        ToolKind::GetCommands => seq![
            "The project name"@,
            "Optional specific command type: 'build', 'test', 'lint', 'run', 'dev'"@,
        ],
        ToolKind::GetArchitecture => seq![
            "The project name"@,
            "The architectural concept to look up (e.g., 'authentication', 'routing', 'database')"@,
        ],
        ToolKind::GetRelatedFiles => seq![
            "The project name"@,
            "Search query to match against concept names and summaries"@,
        ],
        ToolKind::ListPrompts => seq!["The project name"@],
        ToolKind::GetPrompt => seq![
            "The project name"@,
            "The prompt topic (e.g., 'add-endpoint', 'debug-auth')"@,
        ],
        ToolKind::GetConventions => seq![
            "The project name"@,
            "Optional: 'conventions' or 'gotchas' to filter results"@,
        ],
        ToolKind::GetDocs => seq![
            "The project name"@,
            "Optional: specific doc topic to get the path for"@,
        ],
        ToolKind::GetWorkspaceOverview => seq![],
        ToolKind::GetWorkspaceConventions => seq![
            "Optional: 'conventions' or 'gotchas' to filter results"@,
        ],
    }
}

/// A catalog entry describes the tool `k`: its name and description, each
/// parameter's name, description and allowed values, and the required ones.
pub open spec fn describes(t: ToolSpec, k: ToolKind) -> bool {
    &&& t.name@ == tool_name_of(k)
    &&& t.description@ == tool_description(k)
    &&& t.params@.map_values(|p: ParamSpec| p.name@) == param_names(k)
    &&& t.params@.map_values(|p: ParamSpec| p.description@) == param_descriptions(k)
    &&& forall|i: int| 0 <= i < t.params@.len() ==> texts(#[trigger] t.params@[i].choices@) == choices_of(t.params@[i].name@)
    &&& texts(t.required@) == required_names(k)
}

/// The catalog lists every tool once, in the order of `all_tools`, each
/// entry fixed by `describes`: the same for every server state.
pub open spec fn catalog(tools: Seq<ToolSpec>) -> bool {
    tools.len() == all_tools().len() && forall|i: int| 0 <= i < tools.len() ==> describes(#[trigger] tools[i], all_tools()[i])
}

fn texts_of(a: &str, b: &str, n: usize) -> (r: Vec<String>)
    requires
        n <= 2,
    ensures
        texts(r@) == (if n == 0 {
            seq![]
        } else if n == 1 {
            seq![a@]
        } else {
            seq![a@, b@]
        }),
{
    let mut v: Vec<String> = Vec::new();
    if n >= 1 {
        v.push(a.to_owned());
    }
    if n >= 2 {
        v.push(b.to_owned());
    }
    assert(texts(v@) =~= (if n == 0 {
        seq![]
    } else if n == 1 {
        seq![a@]
    } else {
        seq![a@, b@]
    }));
    v
}

fn param(name: &str, description: &str) -> (r: ParamSpec)
    ensures
        r.name@ == name@,
        r.description@ == description@,
        texts(r.choices@) == choices_of(name@),
{
    let mut choices: Vec<String> = Vec::new();
    if str_eq(name, "field") {
        choices.push("commands".to_owned());
        choices.push("entry_points".to_owned());
        choices.push("dependencies".to_owned());
        choices.push("api".to_owned());
        choices.push("related_projects".to_owned());
    } else if str_eq(name, "category") {
        choices.push("conventions".to_owned());
        choices.push("gotchas".to_owned());
    }
    assert(texts(choices@) =~= choices_of(name@));
    ParamSpec { name: name.to_owned(), description: description.to_owned(), choices }
}

/// The parameters of a tool: none, one, or two, given as name and description.
fn params_of(n: usize, a: &str, a_desc: &str, b: &str, b_desc: &str) -> (r: Vec<ParamSpec>)
    requires
        n <= 2,
    ensures
        r@.map_values(|p: ParamSpec| p.name@) == (if n == 0 {
            seq![]
        } else if n == 1 {
            seq![a@]
        } else {
            seq![a@, b@]
        }),
        r@.map_values(|p: ParamSpec| p.description@) == (if n == 0 {
            seq![]
        } else if n == 1 {
            seq![a_desc@]
        } else {
            seq![a_desc@, b_desc@]
        }),
        forall|i: int| 0 <= i < r@.len() ==> texts(#[trigger] r@[i].choices@) == choices_of(r@[i].name@),
{
    let mut v: Vec<ParamSpec> = Vec::new();
    if n >= 1 {
        v.push(param(a, a_desc));
    }
    if n >= 2 {
        v.push(param(b, b_desc));
    }
    assert(v@.map_values(|p: ParamSpec| p.name@) =~= (if n == 0 {
        seq![]
    } else if n == 1 {
        seq![a@]
    } else {
        seq![a@, b@]
    }));
    assert(v@.map_values(|p: ParamSpec| p.description@) =~= (if n == 0 {
        seq![]
    } else if n == 1 {
        seq![a_desc@]
    } else {
        seq![a_desc@, b_desc@]
    }));
    v
}

/// The catalog entry of one tool.
fn tool_entry(kind: ToolKind) -> (r: ToolSpec)
    ensures
        describes(r, kind),
{
    let project = "The project name";
    let category = "Optional: 'conventions' or 'gotchas' to filter results";
    let (description, params, required) = match kind {
        ToolKind::ListProjects => (
            "Lists all projects with their descriptions. Use this to discover what projects exist in the workspace.",
            params_of(0, "", "", "", ""),
            texts_of("", "", 0),
        ),
        ToolKind::GetProjectInfo => (
            "Returns metadata about a specific project including description, language, version, entry points, and dependencies.",
            params_of(
                2,
                "project",
                project,
                "field",
                "Optional specific field to retrieve: 'commands', 'entry_points', 'dependencies', 'api', 'related_projects'",
            ),
            texts_of("project", "", 1),
        ),
        ToolKind::GetCommands => (
            "Returns executable commands for a project (build, test, lint, run, dev, etc.)",
            params_of(
                2,
                "project",
                project,
                "command_type",
                "Optional specific command type: 'build', 'test', 'lint', 'run', 'dev'",
            ),
            texts_of("project", "", 1),
        ),
        ToolKind::GetArchitecture => (
            "Returns architectural info for a specific concept/area of a project, including relevant files and a summary.",
            params_of(
                2,
                "project",
                project,
                "concept",
                "The architectural concept to look up (e.g., 'authentication', 'routing', 'database')",
            ),
            texts_of("project", "concept", 2),
        ),
        ToolKind::GetRelatedFiles => (
            "Finds files related to a concept or feature by searching through all defined concepts.",
            params_of(
                2,
                "project",
                project,
                "query",
                "Search query to match against concept names and summaries",
            ),
            texts_of("project", "query", 2),
        ),
        ToolKind::ListPrompts => (
            "Lists available task-specific prompts for a project. Prompts provide focused context for specific tasks like adding endpoints, debugging, etc.",
            params_of(1, "project", project, "", ""),
            texts_of("project", "", 1),
        ),
        ToolKind::GetPrompt => (
            "Retrieves a task-specific prompt containing focused context and instructions for a particular task.",
            params_of(
                2,
                "project",
                project,
                "topic",
                "The prompt topic (e.g., 'add-endpoint', 'debug-auth')",
            ),
            texts_of("project", "topic", 2),
        ),
        ToolKind::GetConventions => (
            "Returns project-specific coding conventions and gotchas. Conventions are architectural patterns and standards; gotchas are common mistakes to avoid.",
            params_of(2, "project", project, "category", category),
            texts_of("project", "", 1),
        ),
        ToolKind::GetDocs => (
            "Returns a documentation index for a project, listing available docs with summaries. Optionally retrieves the path to a specific doc.",
            params_of(
                2,
                "project",
                project,
                "topic",
                "Optional: specific doc topic to get the path for",
            ),
            texts_of("project", "", 1),
        ),
        ToolKind::GetWorkspaceOverview => (
            "Returns a high-level overview of the entire workspace: workspace info, all projects with descriptions, and their dependency relationships. Call this first to understand the workspace structure.",
            params_of(0, "", "", "", ""),
            texts_of("", "", 0),
        ),
        ToolKind::GetWorkspaceConventions => (
            "Returns workspace-level conventions and gotchas that apply across all projects in the workspace.",
            params_of(1, "category", category, "", ""),
            texts_of("", "", 0),
        ),
    };
    ToolSpec { name: kind.name().to_owned(), description: description.to_owned(), params, required }
}

/// The static catalog of tools, with their descriptions and input schemas.
pub fn tool_catalog() -> (r: Vec<ToolSpec>)
    ensures
        catalog(r@),
{
    let mut tools: Vec<ToolSpec> = Vec::new();
    tools.push(tool_entry(ToolKind::ListProjects));
    tools.push(tool_entry(ToolKind::GetProjectInfo));
    tools.push(tool_entry(ToolKind::GetCommands));
    tools.push(tool_entry(ToolKind::GetArchitecture));
    tools.push(tool_entry(ToolKind::GetRelatedFiles));
    tools.push(tool_entry(ToolKind::ListPrompts));
    tools.push(tool_entry(ToolKind::GetPrompt));
    tools.push(tool_entry(ToolKind::GetConventions));
    tools.push(tool_entry(ToolKind::GetDocs));
    tools.push(tool_entry(ToolKind::GetWorkspaceOverview));
    tools.push(tool_entry(ToolKind::GetWorkspaceConventions));
    tools
}

} // verus!
