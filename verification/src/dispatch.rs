//! The dispatcher: what is to be done for a request, step by step.  The
//! dispatcher itself starts no process and reads no directory.  Where a
//! request needs one of these, it says so and waits; whoever runs it does
//! the work and hands back what came of it.

use crate::angreal::{
    acceptable, call_result, check_angreal_available, check_angreal_project_status,
    get_angreal_tree, invocation, lemma_accepted_commands, lemma_invocation_bounded,
    lemma_listing_invocation, listing_arguments, listing_invocation,
    listing_result, prepare_invocation, prepare_listing, project_status, run_angreal_command,
    succeeded, AngrealError, ErrorView, ProcessOutcome, ProjectProbe, MAX_ARGUMENT_LEN,
};
use crate::json::{parse_json, parsed_json, string_items, Json, JsonView};
use crate::listing::{available_commands, commands_in, text_or};
use crate::mcp::{
    capabilities_json, content_of, optional_view, text_content, tool_names, tools_list,
    JsonRpcRequest, JsonRpcResponse, McpServer, RequestView, ResponseView, ServerCapabilities,
    ServerToolsCapability, ToolCallParams, ToolCallView, INTERNAL_ERROR, INVALID_PARAMS,
    METHOD_NOT_FOUND, PARSE_ERROR,
};
use crate::text::{decimal, same_text, to_decimal, trim, trimmed};
use vstd::prelude::*;

verus! {

/// What the status of the project is gathered for.
#[derive(Clone, Copy, Debug, PartialEq, Eq)]
pub enum Purpose {
    /// For the answer to `initialize`.
    Initialize,
    /// For the answer to a call of `angreal_check`.
    Check,
}

/// What a request waits for while the tool runs.
#[derive(Debug, PartialEq)]
pub enum AfterRun {
    /// The tool was asked for its version.
    Version { id: Option<Json>, purpose: Purpose },
    /// The tool was asked for its listing, to see what state the project is in.
    Listing { id: Option<Json>, purpose: Purpose, version: ProcessOutcome },
    /// The tool was asked for its listing in JSON, to name its commands.
    Commands { id: Option<Json>, probe: ProjectProbe },
    /// The tool runs the command of a call of `angreal_run`.
    Command { id: Option<Json>, command: String, args: Vec<String> },
    /// The tool writes its listing for a call of `angreal_tree`.
    Tree { id: Option<Json>, format: String },
}

/// What a request waits for while the directory `.angreal` is looked for.
#[derive(Debug, PartialEq)]
pub struct AfterMarker {
    pub id: Option<Json>,
    pub purpose: Purpose,
    pub version: ProcessOutcome,
}

/// What a request waits for while the working directory is asked for.
#[derive(Debug, PartialEq)]
pub struct AfterDirectory {
    pub id: Option<Json>,
    pub purpose: Purpose,
    pub version: ProcessOutcome,
    pub marker_present: bool,
    pub listing: Option<ProcessOutcome>,
}

/// What is to be done next for a request.
#[derive(Debug, PartialEq)]
pub enum Step {
    /// Nothing: the line was blank.
    Idle,
    /// Write this response; the request is done.
    Reply(JsonRpcResponse),
    /// Run the tool with these arguments, and go on with
    /// `McpServer::resume_run`.
    Run(Vec<String>, AfterRun),
    /// See whether the directory `.angreal` is there, and go on with
    /// `McpServer::resume_marker`.
    LookForMarker(AfterMarker),
    /// Ask for the working directory, and go on with
    /// `McpServer::resume_directory`.
    AskDirectory(AfterDirectory),
}

/// An `AfterRun` with its parts as what they stand for.
pub enum AfterRunView {
    Version { id: Option<JsonView>, purpose: Purpose },
    Listing { id: Option<JsonView>, purpose: Purpose, version: ProcessOutcome },
    Commands { id: Option<JsonView>, probe: ProjectProbe },
    Command { id: Option<JsonView>, command: Seq<char>, args: Seq<Seq<char>> },
    Tree { id: Option<JsonView>, format: Seq<char> },
}

/// An `AfterMarker` with its parts as what they stand for.
pub struct AfterMarkerView {
    pub id: Option<JsonView>,
    pub purpose: Purpose,
    pub version: ProcessOutcome,
}

/// An `AfterDirectory` with its parts as what they stand for.
pub struct AfterDirectoryView {
    pub id: Option<JsonView>,
    pub purpose: Purpose,
    pub version: ProcessOutcome,
    pub marker_present: bool,
    pub listing: Option<ProcessOutcome>,
}

/// A `Step` with its parts as what they stand for.
pub enum StepView {
    Idle,
    Reply(ResponseView),
    Run(Seq<Seq<char>>, AfterRunView),
    LookForMarker(AfterMarkerView),
    AskDirectory(AfterDirectoryView),
}

impl View for AfterRun {
    type V = AfterRunView;

    open spec fn view(&self) -> AfterRunView {
        match self {
            AfterRun::Version { id, purpose } => AfterRunView::Version {
                id: optional_view(*id),
                purpose: *purpose,
            },
            AfterRun::Listing { id, purpose, version } => AfterRunView::Listing {
                id: optional_view(*id),
                purpose: *purpose,
                version: *version,
            },
            AfterRun::Commands { id, probe } => AfterRunView::Commands {
                id: optional_view(*id),
                probe: *probe,
            },
            AfterRun::Command { id, command, args } => AfterRunView::Command {
                id: optional_view(*id),
                command: command@,
                args: args.deep_view(),
            },
            AfterRun::Tree { id, format } => AfterRunView::Tree {
                id: optional_view(*id),
                format: format@,
            },
        }
    }
}

impl View for AfterMarker {
    type V = AfterMarkerView;

    open spec fn view(&self) -> AfterMarkerView {
        AfterMarkerView { id: optional_view(self.id), purpose: self.purpose, version: self.version }
    }
}

impl View for AfterDirectory {
    type V = AfterDirectoryView;

    open spec fn view(&self) -> AfterDirectoryView {
        AfterDirectoryView {
            id: optional_view(self.id),
            purpose: self.purpose,
            version: self.version,
            marker_present: self.marker_present,
            listing: self.listing,
        }
    }
}

impl View for Step {
    type V = StepView;

    open spec fn view(&self) -> StepView {
        match self {
            Step::Idle => StepView::Idle,
            Step::Reply(response) => StepView::Reply(response@),
            Step::Run(argv, after) => StepView::Run(argv.deep_view(), after@),
            Step::LookForMarker(after) => StepView::LookForMarker(after@),
            Step::AskDirectory(after) => StepView::AskDirectory(after@),
        }
    }
}

/// The version of the protocol that the server speaks.
pub const PROTOCOL_VERSION: &'static str = "2024-11-05";

/// The version of the server.
pub const SERVER_VERSION: &'static str = "0.1.0";

/// What the server says it can do: it has tools, and their list never
/// changes.
pub open spec fn server_capabilities() -> ServerCapabilities {
    ServerCapabilities { tools: Some(ServerToolsCapability { list_changed: Some(false) }) }
}

/// The name under which the server presents itself.
pub open spec fn server_name(is_project: bool) -> Seq<char> {
    if is_project {
        "angreal_mcp (\u{2713} Angreal Project)"@
    } else {
        "angreal_mcp (\u{26a0} Not Angreal Project)"@
    }
}

/// What the server says of itself.
pub open spec fn server_description(is_project: bool, commands: nat) -> Seq<char> {
    if is_project {
        "MCP server for angreal project automation ("@ + decimal(commands)
            + " commands available)"@
    } else {
        "MCP server for angreal project discovery and automation"@
    }
}

/// What the answer to `initialize` says of the place where the server runs.
/// The working directory is `unknown` where it could not be had.
pub open spec fn context_of(probe: ProjectProbe, commands: Seq<Seq<char>>) -> JsonView {
    JsonView::object().with(
        "currentDirectory"@,
        JsonView::Str(
            match probe.directory {
                Some(path) => path@,
                None => "unknown"@,
            },
        ),
    ).with("isAngrealProject"@, JsonView::Bool(probe.marker_present)).with(
        "availableCommands"@,
        JsonView::strings(commands),
    ).with("projectStatus"@, JsonView::Str(project_status(probe)))
}

/// The result of `initialize`: the version of the protocol, what the server
/// can do, and what it is and where it runs.
pub open spec fn initialize_result(probe: ProjectProbe, commands: Seq<Seq<char>>) -> JsonView {
    JsonView::object().with("protocolVersion"@, JsonView::Str(PROTOCOL_VERSION@)).with(
        "capabilities"@,
        capabilities_json(server_capabilities()),
    ).with(
        "serverInfo"@,
        JsonView::object().with("name"@, JsonView::Str(server_name(probe.marker_present))).with(
            "version"@,
            JsonView::Str(SERVER_VERSION@),
        ).with(
            "description"@,
            JsonView::Str(server_description(probe.marker_present, commands.len())),
        ).with("context"@, context_of(probe, commands)),
    )
}

/// What the result of `initialize` tells of whether the working directory
/// is a project: the truth value under `isAngrealProject`.
pub open spec fn project_flag(result: JsonView) -> Option<JsonView> {
    match result.member("serverInfo"@) {
        Some(info) => match info.member("context"@) {
            Some(context) => context.member("isAngrealProject"@),
            None => None,
        },
        None => None,
    }
}

/// The result of `initialize` tells that the working directory is a project
/// exactly when the directory `.angreal` was found.
pub proof fn lemma_project_flag(probe: ProjectProbe, commands: Seq<Seq<char>>)
    ensures
        project_flag(initialize_result(probe, commands)) == Some(
            JsonView::Bool(probe.marker_present),
        ),
{
    reveal_strlit("isAngrealProject");
    reveal_strlit("availableCommands");
    reveal_strlit("projectStatus");
    assert("isAngrealProject"@.len() == 16 && "availableCommands"@.len() == 17
        && "projectStatus"@.len() == 13);
}

impl McpServer {
    /// Answers `initialize`, where `probe` is what was found out about the
    /// tool and the working directory, and `commands` are the lines that
    /// describe the commands of the tool.
    pub fn handle_initialize(
        &self,
        id: Option<Json>,
        probe: &ProjectProbe,
        commands: &Vec<String>,
    ) -> (response: JsonRpcResponse)
        ensures
            response@ == ResponseView::success(
                optional_view(id),
                initialize_result(*probe, commands.deep_view()),
            ),
            response.id == id,
    {
        let capabilities = ServerCapabilities {
            tools: Some(ServerToolsCapability { list_changed: Some(false) }),
        };
        let status = check_angreal_project_status(probe);
        let is_project = probe.marker_present;
        let directory = match &probe.directory {
            Some(path) => path.clone(),
            None => "unknown".to_owned(),
        };
        let name = if is_project {
            "angreal_mcp (\u{2713} Angreal Project)".to_owned()
        } else {
            "angreal_mcp (\u{26a0} Not Angreal Project)".to_owned()
        };
        let description = if is_project {
            "MCP server for angreal project automation (".to_owned().concat(
                to_decimal(commands.len()).as_str(),
            ).concat(" commands available)")
        } else {
            "MCP server for angreal project discovery and automation".to_owned()
        };
        let context = Json::object().with("currentDirectory", Json::Str(directory)).with(
            "isAngrealProject",
            Json::Bool(is_project),
        ).with("availableCommands", Json::strings(commands)).with(
            "projectStatus",
            Json::Str(status),
        );
        let info = Json::object().with("name", Json::Str(name)).with(
            "version",
            Json::text(SERVER_VERSION),
        ).with("description", Json::Str(description)).with("context", context);
        let result = Json::object().with("protocolVersion", Json::text(PROTOCOL_VERSION)).with(
            "capabilities",
            capabilities.to_json(),
        ).with("serverInfo", info);
        JsonRpcResponse::success(id, result)
    }
}

/// The value, unless it is missing or `null`.
pub open spec fn present(value: Option<JsonView>) -> Option<JsonView> {
    match value {
        Some(JsonView::Null) => None,
        other => other,
    }
}

/// The request that `j` holds: an object with the strings `jsonrpc` and
/// `method`, and maybe `id` and `params`.  Anything else is no request.
pub open spec fn request_of(j: JsonView) -> Option<RequestView> {
    match (j.text_at("jsonrpc"@), j.text_at("method"@)) {
        (Some(jsonrpc), Some(method)) => Some(
            RequestView {
                jsonrpc,
                id: present(j.member("id"@)),
                method,
                params: present(j.member("params"@)),
            },
        ),
        _ => None,
    }
}

/// The call of a tool that `j` holds: an object with the string `name`, and
/// maybe `arguments`.  Anything else is no call.
pub open spec fn tool_call_of(j: JsonView) -> Option<ToolCallView> {
    match j.text_at("name"@) {
        Some(name) => Some(ToolCallView { name, arguments: present(j.member("arguments"@)) }),
        None => None,
    }
}

/// The command that a call of `angreal_run` asks for: the string under
/// `command`.
pub open spec fn requested_command(arguments: Option<JsonView>) -> Option<Seq<char>> {
    match arguments {
        Some(given) => given.text_at("command"@),
        None => None,
    }
}

/// The arguments that a call of `angreal_run` hands on: the strings in the
/// array under `args`.
pub open spec fn requested_args(arguments: Option<JsonView>) -> Seq<Seq<char>> {
    match arguments {
        Some(given) => match given.member("args"@) {
            Some(JsonView::Array(items)) => string_items(items),
            _ => Seq::empty(),
        },
        None => Seq::empty(),
    }
}

/// The format that a call of `angreal_tree` asks for: the string under
/// `format`, and `json` where there is none.
pub open spec fn requested_format(arguments: Option<JsonView>) -> Seq<char> {
    match arguments {
        Some(given) => text_or(given, "format"@, "json"@),
        None => "json"@,
    }
}

/// The arguments with which the tool is asked for its version.
pub open spec fn version_probe() -> Seq<Seq<char>> {
    seq!["--version"@]
}

/// The arguments with which the tool is asked for its listing, to see what
/// state the project is in.
pub open spec fn listing_probe() -> Seq<Seq<char>> {
    seq!["tree"@]
}

/// The arguments with which the tool is asked for its listing in JSON.
pub open spec fn commands_probe() -> Seq<Seq<char>> {
    seq!["tree"@, "--json"@]
}

/// The response to a call that failed with `e`.
pub open spec fn call_failure(id: Option<JsonView>, message: Seq<char>, e: ErrorView)
    -> ResponseView {
    ResponseView::failure_with_details(id, INTERNAL_ERROR, message, e.message())
}

/// The first step for the call `call` of a tool.  A call of a tool that the
/// registry does not have is answered at once, with `INVALID_PARAMS`; so is
/// a call that is refused, with `INTERNAL_ERROR`: for neither is the tool
/// started.
pub open spec fn call_step(id: Option<JsonView>, call: ToolCallView) -> StepView {
    if call.name == "angreal_check"@ {
        StepView::Run(version_probe(), AfterRunView::Version { id, purpose: Purpose::Check })
    } else if call.name == "angreal_run"@ {
        match requested_command(call.arguments) {
            None => StepView::Reply(
                ResponseView::failure_with_details(
                    id,
                    INTERNAL_ERROR,
                    "Internal error"@,
                    "Missing required 'command' parameter"@,
                ),
            ),
            Some(command) => match invocation(command, requested_args(call.arguments)) {
                Err(e) => StepView::Reply(call_failure(id, "Command execution failed"@, e)),
                Ok(argv) => StepView::Run(
                    argv,
                    AfterRunView::Command { id, command, args: requested_args(call.arguments) },
                ),
            },
        }
    } else if call.name == "angreal_tree"@ {
        match listing_invocation(requested_format(call.arguments)) {
            Err(e) => StepView::Reply(call_failure(id, "Internal error"@, e)),
            Ok(argv) => StepView::Run(
                argv,
                AfterRunView::Tree { id, format: requested_format(call.arguments) },
            ),
        }
    } else {
        StepView::Reply(
            ResponseView::failure_with_details(
                id,
                INVALID_PARAMS,
                "Invalid params"@,
                "Unknown tool: "@ + call.name,
            ),
        )
    }
}

/// The first step for the request `request`.
pub open spec fn first_step(request: RequestView) -> StepView {
    if request.method == "initialize"@ {
        StepView::Run(
            version_probe(),
            AfterRunView::Version { id: request.id, purpose: Purpose::Initialize },
        )
    } else if request.method == "tools/list"@ {
        StepView::Reply(ResponseView::success(request.id, tools_list()))
    } else if request.method == "tools/call"@ {
        match request.params {
            None => StepView::Reply(
                ResponseView::failure_with_details(
                    request.id,
                    INVALID_PARAMS,
                    "Invalid params"@,
                    "Missing params"@,
                ),
            ),
            Some(params) => match tool_call_of(params) {
                None => StepView::Reply(
                    ResponseView::failure_with_details(
                        request.id,
                        INVALID_PARAMS,
                        "Invalid params"@,
                        "Malformed tool call"@,
                    ),
                ),
                Some(call) => call_step(request.id, call),
            },
        }
    } else {
        StepView::Reply(
            ResponseView::failure(request.id, METHOD_NOT_FOUND, "Method not found"@, None),
        )
    }
}

/// The step for a line that was read as `parsed`: the response to a parse
/// error where the line is no JSON or holds no request, and else the first
/// step for the request it holds.
pub open spec fn json_step(parsed: Option<JsonView>) -> StepView {
    match parsed {
        None => StepView::Reply(ResponseView::parse_error()),
        Some(j) => match request_of(j) {
            None => StepView::Reply(ResponseView::parse_error()),
            Some(request) => first_step(request),
        },
    }
}

/// The step for the line `line`: none where it is blank, and else the step
/// for what the line is read as, the white space at its ends apart.
pub open spec fn line_step(line: Seq<char>) -> StepView {
    if trimmed(line).len() == 0 {
        StepView::Idle
    } else {
        json_step(parsed_json(trimmed(line)))
    }
}

/// The lines that describe the commands of the tool, where `outcome` is how
/// the run ended in which it was asked for its listing in JSON.  There are
/// none where the run failed.
pub open spec fn commands_after(outcome: ProcessOutcome) -> Seq<Seq<char>> {
    match listing_result("json"@, outcome) {
        Ok(text) => commands_in(text),
        Err(_) => Seq::empty(),
    }
}

/// The step after a run of the tool that ended in `outcome`.
pub open spec fn step_after_run(after: AfterRunView, outcome: ProcessOutcome) -> StepView {
    match after {
        AfterRunView::Version { id, purpose } => StepView::LookForMarker(
            AfterMarkerView { id, purpose, version: outcome },
        ),
        AfterRunView::Listing { id, purpose, version } => StepView::AskDirectory(
            AfterDirectoryView {
                id,
                purpose,
                version,
                marker_present: true,
                listing: Some(outcome),
            },
        ),
        AfterRunView::Commands { id, probe } => StepView::Reply(
            ResponseView::success(id, initialize_result(probe, commands_after(outcome))),
        ),
        AfterRunView::Command { id, command, args } => match call_result(command, args, outcome) {
            Ok(output) => StepView::Reply(
                ResponseView::success(
                    id,
                    content_of("$ angreal "@ + command + "\n\n"@ + output),
                ),
            ),
            Err(e) => StepView::Reply(call_failure(id, "Command execution failed"@, e)),
        },
        AfterRunView::Tree { id, format } => match listing_result(format, outcome) {
            Ok(output) => StepView::Reply(ResponseView::success(id, content_of(output))),
            Err(e) => StepView::Reply(call_failure(id, "Internal error"@, e)),
        },
    }
}

/// The step after the directory `.angreal` was looked for.  The tool is
/// asked for its listing only where it is at hand and the directory is
/// there.
pub open spec fn step_after_marker(after: AfterMarkerView, marker_present: bool) -> StepView {
    if succeeded(after.version) && marker_present {
        StepView::Run(
            listing_probe(),
            AfterRunView::Listing { id: after.id, purpose: after.purpose, version: after.version },
        )
    } else {
        StepView::AskDirectory(
            AfterDirectoryView {
                id: after.id,
                purpose: after.purpose,
                version: after.version,
                marker_present,
                listing: None,
            },
        )
    }
}

/// What was found out about the tool and the working directory, once the
/// working directory was asked for.
pub open spec fn probe_of(after: AfterDirectoryView, directory: Option<String>) -> ProjectProbe {
    ProjectProbe {
        version: after.version,
        marker_present: after.marker_present,
        listing: after.listing,
        directory,
    }
}

/// The step after the working directory was asked for.  A call of
/// `angreal_check` is answered with the status.  For `initialize` the tool
/// is asked for its commands where the directory `.angreal` is there; else
/// the answer names no commands.
pub open spec fn step_after_directory(after: AfterDirectoryView, directory: Option<String>)
    -> StepView {
    let probe = probe_of(after, directory);
    match after.purpose {
        Purpose::Check => StepView::Reply(
            ResponseView::success(after.id, content_of(project_status(probe))),
        ),
        Purpose::Initialize => if after.marker_present {
            StepView::Run(commands_probe(), AfterRunView::Commands { id: after.id, probe })
        } else {
            StepView::Reply(
                ResponseView::success(after.id, initialize_result(probe, Seq::empty())),
            )
        },
    }
}

/// The value under `key` in `j`, unless it is missing or `null`.
fn present_member(j: &Json, key: &str) -> (value: Option<Json>)
    ensures
        optional_view(value) == present(j@.member(key@)),
{
    match j.get(key) {
        Some(found) => if found.is_null() {
            None
        } else {
            Some(found.clone())
        },
        None => None,
    }
}

/// The text under `key` in `j`, where `j` holds a string there.
fn text_member<'a>(j: &'a Json, key: &str) -> (text: Option<&'a str>)
    ensures
        match text {
            Some(t) => j@.text_at(key@) == Some(t@),
            None => j@.text_at(key@) is None,
        },
{
    match j.get(key) {
        Some(found) => found.as_str(),
        None => None,
    }
}

impl JsonRpcRequest {
    /// Reads a request out of `j`.  Gives nothing where `j` holds none.
    pub fn from_json(j: &Json) -> (r: Option<JsonRpcRequest>)
        ensures
            match r {
                Some(request) => request_of(j@) == Some(request@),
                None => request_of(j@) is None,
            },
    {
        match (text_member(j, "jsonrpc"), text_member(j, "method")) {
            (Some(jsonrpc), Some(method)) => Some(
                JsonRpcRequest {
                    jsonrpc: jsonrpc.to_owned(),
                    id: present_member(j, "id"),
                    method: method.to_owned(),
                    params: present_member(j, "params"),
                },
            ),
            _ => None,
        }
    }
}

impl ToolCallParams {
    /// Reads the call of a tool out of `j`.  Gives nothing where `j` holds
    /// none.
    pub fn from_json(j: &Json) -> (r: Option<ToolCallParams>)
        ensures
            match r {
                Some(call) => tool_call_of(j@) == Some(call@),
                None => tool_call_of(j@) is None,
            },
    {
        match text_member(j, "name") {
            Some(name) => Some(
                ToolCallParams { name: name.to_owned(), arguments: present_member(j, "arguments") },
            ),
            None => None,
        }
    }
}

/// The arguments that a call of `angreal_run` hands on.
fn args_of(arguments: &Option<Json>) -> (args: Vec<String>)
    ensures
        args.deep_view() == requested_args(optional_view(*arguments)),
{
    let found = match arguments {
        Some(given) => match given.get("args") {
            Some(list) => list.string_items(),
            None => None,
        },
        None => None,
    };
    match found {
        Some(args) => args,
        None => Vec::new(),
    }
}

/// The response to a call that failed with `e`.
fn fail_call(id: Option<Json>, message: &str, e: &AngrealError) -> (response: JsonRpcResponse)
    ensures
        response@ == call_failure(optional_view(id), message@, e@),
        response.id == id,
{
    JsonRpcResponse::failure_with_details(id, INTERNAL_ERROR, message, e.message().as_str())
}

/// No lines at all.
fn no_lines() -> (lines: Vec<String>)
    ensures
        lines.deep_view() == Seq::<Seq<char>>::empty(),
{
    let lines: Vec<String> = Vec::new();
    assert(lines.deep_view() =~= Seq::<Seq<char>>::empty());
    lines
}

/// The one argument `arg`, as an argument vector.
fn single_argument(arg: &str) -> (argv: Vec<String>)
    ensures
        argv.deep_view() == seq![arg@],
{
    vec![arg.to_owned()]
}

impl McpServer {
    /// Takes the first step for the call `params` of a tool.
    pub fn handle_tool_call(&self, id: Option<Json>, params: ToolCallParams) -> (step: Step)
        ensures
            step@ == call_step(optional_view(id), params@),
    {
        let name = params.name.as_str();
        if same_text(name, "angreal_check") {
            Step::Run(single_argument("--version"), AfterRun::Version { id, purpose: Purpose::Check })
        } else if same_text(name, "angreal_run") {
            let command = match &params.arguments {
                Some(given) => text_member(given, "command"),
                None => None,
            };
            match command {
                None => Step::Reply(
                    JsonRpcResponse::failure_with_details(
                        id,
                        INTERNAL_ERROR,
                        "Internal error",
                        "Missing required 'command' parameter",
                    ),
                ),
                Some(command) => {
                    let args = args_of(&params.arguments);
                    match prepare_invocation(command, args.as_slice()) {
                        Err(e) => Step::Reply(fail_call(id, "Command execution failed", &e)),
                        Ok(argv) => Step::Run(
                            argv,
                            AfterRun::Command { id, command: command.to_owned(), args },
                        ),
                    }
                },
            }
        } else if same_text(name, "angreal_tree") {
            let format = match &params.arguments {
                Some(given) => match text_member(given, "format") {
                    Some(format) => format,
                    None => "json",
                },
                None => "json",
            };
            match prepare_listing(format) {
                Err(e) => Step::Reply(fail_call(id, "Internal error", &e)),
                Ok(argv) => Step::Run(argv, AfterRun::Tree { id, format: format.to_owned() }),
            }
        } else {
            Step::Reply(
                JsonRpcResponse::failure_with_details(
                    id,
                    INVALID_PARAMS,
                    "Invalid params",
                    "Unknown tool: ".to_owned().concat(name).as_str(),
                ),
            )
        }
    }

    /// Takes the first step for the request `request`: the answer, where it
    /// can be given at once, or what is to be found out first.
    pub fn handle_request(&self, request: JsonRpcRequest) -> (step: Step)
        ensures
            step@ == first_step(request@),
    {
        let method = request.method.as_str();
        if same_text(method, "initialize") {
            Step::Run(
                single_argument("--version"),
                AfterRun::Version { id: request.id, purpose: Purpose::Initialize },
            )
        } else if same_text(method, "tools/list") {
            Step::Reply(self.handle_tools_list(request.id))
        } else if same_text(method, "tools/call") {
            match &request.params {
                None => Step::Reply(
                    JsonRpcResponse::failure_with_details(
                        request.id,
                        INVALID_PARAMS,
                        "Invalid params",
                        "Missing params",
                    ),
                ),
                Some(params) => match ToolCallParams::from_json(params) {
                    None => Step::Reply(
                        JsonRpcResponse::failure_with_details(
                            request.id,
                            INVALID_PARAMS,
                            "Invalid params",
                            "Malformed tool call",
                        ),
                    ),
                    Some(call) => self.handle_tool_call(request.id, call),
                },
            }
        } else {
            Step::Reply(
                JsonRpcResponse::failure(request.id, METHOD_NOT_FOUND, "Method not found", None),
            )
        }
    }

    /// Takes the first step for a line that was read as `parsed`.
    pub fn handle_json(&self, parsed: Option<Json>) -> (step: Step)
        ensures
            step@ == json_step(optional_view(parsed)),
    {
        match parsed {
            None => Step::Reply(JsonRpcResponse::parse_error()),
            Some(j) => match JsonRpcRequest::from_json(&j) {
                None => Step::Reply(JsonRpcResponse::parse_error()),
                Some(request) => self.handle_request(request),
            },
        }
    }

    /// Takes the first step for the line `line` as it came in.
    pub fn receive(&self, line: &str) -> (step: Step)
        ensures
            step@ == line_step(line@),
    {
        let text = trim(line);
        if text.unicode_len() == 0 {
            return Step::Idle;
        }
        self.handle_json(parse_json(text))
    }

    /// Takes the step after a run of the tool that ended in `outcome`.
    pub fn resume_run(&self, after: AfterRun, outcome: ProcessOutcome) -> (step: Step)
        ensures
            step@ == step_after_run(after@, outcome),
    {
        match after {
            AfterRun::Version { id, purpose } => Step::LookForMarker(
                AfterMarker { id, purpose, version: outcome },
            ),
            AfterRun::Listing { id, purpose, version } => Step::AskDirectory(
                AfterDirectory {
                    id,
                    purpose,
                    version,
                    marker_present: true,
                    listing: Some(outcome),
                },
            ),
            AfterRun::Commands { id, probe } => {
                let commands = match get_angreal_tree("json", &outcome) {
                    Ok(text) => available_commands(text.as_str()),
                    Err(_) => no_lines(),
                };
                Step::Reply(self.handle_initialize(id, &probe, &commands))
            },
            AfterRun::Command { id, command, args } => {
                match run_angreal_command(command.as_str(), args.as_slice(), &outcome) {
                    Ok(output) => {
                        let text = "$ angreal ".to_owned().concat(command.as_str()).concat(
                            "\n\n",
                        ).concat(output.as_str());
                        Step::Reply(JsonRpcResponse::success(id, text_content(text.as_str())))
                    },
                    Err(e) => Step::Reply(fail_call(id, "Command execution failed", &e)),
                }
            },
            AfterRun::Tree { id, format } => {
                match get_angreal_tree(format.as_str(), &outcome) {
                    Ok(output) => Step::Reply(
                        JsonRpcResponse::success(id, text_content(output.as_str())),
                    ),
                    Err(e) => Step::Reply(fail_call(id, "Internal error", &e)),
                }
            },
        }
    }

    /// Takes the step after the directory `.angreal` was looked for.
    pub fn resume_marker(&self, after: AfterMarker, marker_present: bool) -> (step: Step)
        ensures
            step@ == step_after_marker(after@, marker_present),
    {
        if check_angreal_available(&after.version) && marker_present {
            Step::Run(
                single_argument("tree"),
                AfterRun::Listing { id: after.id, purpose: after.purpose, version: after.version },
            )
        } else {
            Step::AskDirectory(
                AfterDirectory {
                    id: after.id,
                    purpose: after.purpose,
                    version: after.version,
                    marker_present,
                    listing: None,
                },
            )
        }
    }

    /// Takes the step after the working directory was asked for.
    pub fn resume_directory(
        &self,
        after: AfterDirectory,
        directory: Option<String>,
    ) -> (step: Step)
        ensures
            step@ == step_after_directory(after@, directory),
    {
        let probe = ProjectProbe {
            version: after.version,
            marker_present: after.marker_present,
            listing: after.listing,
            directory,
        };
        match after.purpose {
            Purpose::Check => {
                let status = check_angreal_project_status(&probe);
                Step::Reply(JsonRpcResponse::success(after.id, text_content(status.as_str())))
            },
            Purpose::Initialize => {
                let none = no_lines();
                if !probe.marker_present {
                    return Step::Reply(self.handle_initialize(after.id, &probe, &none));
                }
                proof {
                    lemma_listing_invocation("json"@);
                    assert(seq!["tree"@] + seq!["--json"@] =~= commands_probe());
                }
                match prepare_listing("json") {
                    Ok(argv) => Step::Run(argv, AfterRun::Commands { id: after.id, probe }),
                    Err(_) => Step::Reply(self.handle_initialize(after.id, &probe, &none)),
                }
            },
        }
    }
}

/// What the dispatcher is told when it asks: how a run of the tool with
/// given arguments ends, whether the directory `.angreal` is there, and what
/// the working directory is.
pub struct Surroundings {
    pub run: spec_fn(Seq<Seq<char>>) -> ProcessOutcome,
    pub marker_present: bool,
    pub directory: Option<String>,
}

impl AfterRunView {
    /// The id of the request that waits.
    pub open spec fn id(self) -> Option<JsonView> {
        match self {
            AfterRunView::Version { id, .. } => id,
            AfterRunView::Listing { id, .. } => id,
            AfterRunView::Commands { id, .. } => id,
            AfterRunView::Command { id, .. } => id,
            AfterRunView::Tree { id, .. } => id,
        }
    }
}

impl StepView {
    /// The id of the request that the step belongs to.
    pub open spec fn id(self) -> Option<JsonView> {
        match self {
            StepView::Idle => None,
            StepView::Reply(response) => response.id,
            StepView::Run(_, after) => after.id(),
            StepView::LookForMarker(after) => after.id,
            StepView::AskDirectory(after) => after.id,
        }
    }

    /// How many more steps the request may take at most.
    pub open spec fn steps_left(self) -> nat {
        match self {
            StepView::Idle => 0,
            StepView::Reply(_) => 0,
            StepView::Run(_, AfterRunView::Version { .. }) => 5,
            StepView::LookForMarker(_) => 4,
            StepView::Run(_, AfterRunView::Listing { .. }) => 3,
            StepView::AskDirectory(_) => 2,
            StepView::Run(_, _) => 1,
        }
    }

    /// The step that follows this one in `surroundings`.  A step that asks
    /// nothing is the last.
    pub open spec fn next(self, surroundings: Surroundings) -> StepView {
        match self {
            StepView::Run(argv, after) => step_after_run(after, (surroundings.run)(argv)),
            StepView::LookForMarker(after) => step_after_marker(after, surroundings.marker_present),
            StepView::AskDirectory(after) => step_after_directory(after, surroundings.directory),
            last => last,
        }
    }

    /// The step in which the request ends in `surroundings`.
    pub open spec fn last(self, surroundings: Surroundings) -> StepView
        decreases self.steps_left(),
    {
        if self.steps_left() == 0 {
            self
        } else {
            self.next(surroundings).last(surroundings)
        }
    }

    /// Whether the step, if it starts the tool, hands it no argument longer
    /// than `MAX_ARGUMENT_LEN`.
    pub open spec fn bounded(self) -> bool {
        self matches StepView::Run(argv, _) ==> forall|i: int|
            0 <= i < argv.len() ==> (#[trigger] argv[i]).len() <= MAX_ARGUMENT_LEN
    }
}

/// The response with which the request `request` is answered in
/// `surroundings`.
pub open spec fn answer(request: RequestView, surroundings: Surroundings) -> ResponseView {
    first_step(request).last(surroundings)->Reply_0
}

/// The names of the tools are three different texts, and so are the names
/// of the methods.
proof fn lemma_names_differ()
    ensures
        "angreal_check"@ != "angreal_run"@,
        "angreal_check"@ != "angreal_tree"@,
        "angreal_tree"@ != "angreal_run"@,
        "initialize"@ != "tools/list"@,
        "initialize"@ != "tools/call"@,
        "tools/list"@ != "tools/call"@,
{
    reveal_strlit("angreal_check");
    reveal_strlit("angreal_run");
    reveal_strlit("angreal_tree");
    reveal_strlit("initialize");
    reveal_strlit("tools/list");
    reveal_strlit("tools/call");
    assert("angreal_check"@.len() == 13 && "angreal_run"@.len() == 11 && "angreal_tree"@.len()
        == 12);
    assert("initialize"@[0] == 'i' && "tools/list"@[0] == 't');
    assert("tools/list"@[6] == 'l' && "tools/call"@[6] == 'c');
}

/// A command of which a character is neither white space nor allowed is
/// refused before the tool is started: the call of `angreal_run` is answered
/// at once, with an error.
pub proof fn lemma_refused_before_run(id: Option<JsonView>, call: ToolCallView)
    requires
        call.name == "angreal_run"@,
        requested_command(call.arguments) is Some,
        !acceptable(requested_command(call.arguments)->0),
    ensures
        call_step(id, call) is Reply,
        call_step(id, call)->Reply_0.result is None,
        call_step(id, call)->Reply_0.error_code() == Some(INTERNAL_ERROR),
{
    lemma_names_differ();
    lemma_accepted_commands(requested_command(call.arguments)->0);
}

/// Whatever the dispatcher starts the tool with, no argument is longer than
/// `MAX_ARGUMENT_LEN` characters.
pub proof fn lemma_arguments_bounded(
    request: RequestView,
    run: AfterRunView,
    outcome: ProcessOutcome,
    marker: AfterMarkerView,
    marker_present: bool,
    directory: AfterDirectoryView,
    path: Option<String>,
)
    ensures
        first_step(request).bounded(),
        step_after_run(run, outcome).bounded(),
        step_after_marker(marker, marker_present).bounded(),
        step_after_directory(directory, path).bounded(),
{
    reveal_strlit("--version");
    reveal_strlit("tree");
    reveal_strlit("--json");
    if request.params is Some && tool_call_of(request.params->0) is Some {
        let call = tool_call_of(request.params->0)->0;
        if requested_command(call.arguments) is Some {
            lemma_invocation_bounded(
                requested_command(call.arguments)->0,
                requested_args(call.arguments),
            );
        }
        lemma_invocation_bounded("tree"@, listing_arguments(requested_format(call.arguments)));
    }
}

/// A call that names a tool which the registry does not have is answered
/// with `INVALID_PARAMS`, and never with `INTERNAL_ERROR`.
pub proof fn lemma_unknown_tool(request: RequestView)
    requires
        request.method == "tools/call"@,
        request.params is Some,
        tool_call_of(request.params->0) is Some,
        !tool_names().contains(tool_call_of(request.params->0)->0.name),
    ensures
        first_step(request) is Reply,
        first_step(request)->Reply_0.id == request.id,
        first_step(request)->Reply_0.result is None,
        first_step(request)->Reply_0.error_code() == Some(INVALID_PARAMS),
        first_step(request)->Reply_0.error_code() != Some(INTERNAL_ERROR),
{
    lemma_names_differ();
    assert(tool_names()[0] == "angreal_check"@ && tool_names()[1] == "angreal_tree"@
        && tool_names()[2] == "angreal_run"@);
}

/// A line that is not blank and holds no request is answered with
/// `PARSE_ERROR`, and the response names no request.
pub proof fn lemma_malformed_line(line: Seq<char>)
    requires
        trimmed(line).len() > 0,
        parsed_json(trimmed(line)) is None || request_of(parsed_json(trimmed(line))->0) is None,
    ensures
        line_step(line) is Reply,
        line_step(line)->Reply_0.id is None,
        line_step(line)->Reply_0.result is None,
        line_step(line)->Reply_0.error_code() == Some(PARSE_ERROR),
{
}

/// Every step belongs to the request that it was taken for, and a response
/// carries either a result or an error.
pub proof fn lemma_steps_keep_id(
    request: RequestView,
    run: AfterRunView,
    outcome: ProcessOutcome,
    marker: AfterMarkerView,
    marker_present: bool,
    directory: AfterDirectoryView,
    path: Option<String>,
)
    ensures
        first_step(request).id() == request.id,
        step_after_run(run, outcome).id() == run.id(),
        step_after_marker(marker, marker_present).id() == marker.id,
        step_after_directory(directory, path).id() == directory.id,
        first_step(request) matches StepView::Reply(r) ==> r.well_formed(),
        step_after_run(run, outcome) matches StepView::Reply(r) ==> r.well_formed(),
        step_after_directory(directory, path) matches StepView::Reply(r) ==> r.well_formed(),
{
}

/// Each step leaves fewer steps to take, so a request is answered after
/// five steps at most.
pub proof fn lemma_steps_decrease(step: StepView, surroundings: Surroundings)
    requires
        step.steps_left() > 0,
    ensures
        step.next(surroundings).steps_left() < step.steps_left(),
        step.next(surroundings).id() == step.id(),
{
}

/// Every request is answered, with a response that names the request and
/// carries either a result or an error.
pub proof fn lemma_answered(request: RequestView, surroundings: Surroundings)
    ensures
        first_step(request).last(surroundings) is Reply,
        answer(request, surroundings).id == request.id,
        answer(request, surroundings).well_formed(),
{
    lemma_last_step(first_step(request), surroundings);
}

/// The last step of a request is a response of the same id, which carries
/// either a result or an error.
proof fn lemma_last_step(step: StepView, surroundings: Surroundings)
    requires
        step !is Idle,
        step matches StepView::Reply(r) ==> r.well_formed(),
    ensures
        step.last(surroundings) is Reply,
        step.last(surroundings)->Reply_0.id == step.id(),
        step.last(surroundings)->Reply_0.well_formed(),
    decreases step.steps_left(),
{
    if step.steps_left() > 0 {
        lemma_steps_decrease(step, surroundings);
        lemma_last_step(step.next(surroundings), surroundings);
    }
}

/// The answer to `initialize` tells that the working directory is a project
/// exactly when the directory `.angreal` is there.  So two requests that
/// meet the same surroundings are told the same.
pub proof fn lemma_initialize_flag(
    first: RequestView,
    second: RequestView,
    surroundings: Surroundings,
)
    requires
        first.method == "initialize"@,
        second.method == "initialize"@,
    ensures
        answer(first, surroundings).result is Some,
        answer(second, surroundings).result is Some,
        project_flag(answer(first, surroundings).result->0) == Some(
            JsonView::Bool(surroundings.marker_present),
        ),
        project_flag(answer(second, surroundings).result->0) == project_flag(
            answer(first, surroundings).result->0,
        ),
{
    lemma_initialize_answer(first, surroundings);
    lemma_initialize_answer(second, surroundings);
}

/// The answer to `initialize` is the result of `initialize` for what was
/// found out about the working directory.
proof fn lemma_initialize_answer(request: RequestView, surroundings: Surroundings)
    requires
        request.method == "initialize"@,
    ensures
        answer(request, surroundings).result is Some,
        project_flag(answer(request, surroundings).result->0) == Some(
            JsonView::Bool(surroundings.marker_present),
        ),
{
    // The tool is asked for its version, the directory `.angreal` is looked
    // for, the tool is asked for its listing where both are there, and the
    // working directory is asked for.
    let s0 = first_step(request);
    let s1 = s0.next(surroundings);
    let s2 = s1.next(surroundings);
    let s3 = if s2 is Run {
        s2.next(surroundings)
    } else {
        s2
    };
    // Then the tool is asked for its commands where the directory
    // `.angreal` is there, and the answer is given.
    let s4 = s3.next(surroundings);
    let s5 = if s4 is Run {
        s4.next(surroundings)
    } else {
        s4
    };
    assert(s0.last(surroundings) == s1.last(surroundings));
    assert(s1.last(surroundings) == s2.last(surroundings));
    assert(s2.last(surroundings) == s3.last(surroundings));
    assert(s3.last(surroundings) == s4.last(surroundings));
    assert(s4.last(surroundings) == s5.last(surroundings));
    assert(s5.last(surroundings) == s5);
    lemma_project_flag(
        probe_of(s3->AskDirectory_0, surroundings.directory),
        if surroundings.marker_present {
            commands_after((surroundings.run)(commands_probe()))
        } else {
            Seq::empty()
        },
    );
}

} // verus!
