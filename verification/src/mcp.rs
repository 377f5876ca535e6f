//! The protocol: requests, responses, the registry of tools, and the
//! dispatcher that leads from one to the other.

use crate::json::{items_view, json_text, render_json, Json, JsonView};
use crate::text::{signed_decimal, to_signed_decimal};
use vstd::prelude::*;

verus! {

/// The version tag that every response carries.
pub const JSONRPC_VERSION: &'static str = "2.0";

/// The request line was no well-formed request.
pub const PARSE_ERROR: i32 = -32700;

/// The method has no handler.
pub const METHOD_NOT_FOUND: i32 = -32601;

/// The call names no tool of the registry, or has not the shape of a call.
pub const INVALID_PARAMS: i32 = -32602;

/// The call failed on the way to its result.
pub const INTERNAL_ERROR: i32 = -32603;

/// A request as a client sends it.
#[derive(Debug, PartialEq)]
pub struct JsonRpcRequest {
    pub jsonrpc: String,
    pub id: Option<Json>,
    pub method: String,
    pub params: Option<Json>,
}

/// A response: it carries either a result or an error.
#[derive(Debug, PartialEq)]
pub struct JsonRpcResponse {
    pub jsonrpc: String,
    pub id: Option<Json>,
    pub result: Option<Json>,
    pub error: Option<JsonRpcError>,
}

/// The error of a response.
#[derive(Debug, PartialEq)]
pub struct JsonRpcError {
    pub code: i32,
    pub message: String,
    pub data: Option<Json>,
}

/// What a client sends with `initialize`.
#[derive(Debug, PartialEq)]
pub struct InitializeParams {
    pub protocol_version: String,
    pub capabilities: ClientCapabilities,
}

/// What a client says it can do.
#[derive(Debug, PartialEq)]
pub struct ClientCapabilities {
    pub tools: Option<ToolsCapability>,
}

/// What a client says of tools.
#[derive(Debug, PartialEq)]
pub struct ToolsCapability {
    pub call_tool: Option<bool>,
}

/// What the server says it can do.
#[derive(Debug, PartialEq)]
pub struct ServerCapabilities {
    pub tools: Option<ServerToolsCapability>,
}

/// What the server says of its tools.
#[derive(Debug, PartialEq)]
pub struct ServerToolsCapability {
    pub list_changed: Option<bool>,
}

/// A tool that a client may call.
#[derive(Debug, Clone, PartialEq)]
pub struct Tool {
    pub name: String,
    pub description: String,
    pub input_schema: Json,
}

/// What a client sends with `tools/call`.
#[derive(Debug, PartialEq)]
pub struct ToolCallParams {
    pub name: String,
    pub arguments: Option<Json>,
}

/// What an optional JSON value stands for.
pub open spec fn optional_view(value: Option<Json>) -> Option<JsonView> {
    match value {
        Some(j) => Some(j@),
        None => None,
    }
}

/// A `JsonRpcError` with its parts as what they stand for.
pub struct ErrorObjectView {
    pub code: i32,
    pub message: Seq<char>,
    pub data: Option<JsonView>,
}

/// A `JsonRpcResponse` with its parts as what they stand for.
pub struct ResponseView {
    pub jsonrpc: Seq<char>,
    pub id: Option<JsonView>,
    pub result: Option<JsonView>,
    pub error: Option<ErrorObjectView>,
}

/// A `JsonRpcRequest` with its parts as what they stand for.
pub struct RequestView {
    pub jsonrpc: Seq<char>,
    pub id: Option<JsonView>,
    pub method: Seq<char>,
    pub params: Option<JsonView>,
}

/// A `Tool` with its parts as what they stand for.
pub struct ToolView {
    pub name: Seq<char>,
    pub description: Seq<char>,
    pub input_schema: JsonView,
}

/// A `ToolCallParams` with its parts as what they stand for.
pub struct ToolCallView {
    pub name: Seq<char>,
    pub arguments: Option<JsonView>,
}

impl View for JsonRpcError {
    type V = ErrorObjectView;

    open spec fn view(&self) -> ErrorObjectView {
        ErrorObjectView { code: self.code, message: self.message@, data: optional_view(self.data) }
    }
}

impl View for JsonRpcResponse {
    type V = ResponseView;

    open spec fn view(&self) -> ResponseView {
        ResponseView {
            jsonrpc: self.jsonrpc@,
            id: optional_view(self.id),
            result: optional_view(self.result),
            error: match self.error {
                Some(e) => Some(e@),
                None => None,
            },
        }
    }
}

impl View for JsonRpcRequest {
    type V = RequestView;

    open spec fn view(&self) -> RequestView {
        RequestView {
            jsonrpc: self.jsonrpc@,
            id: optional_view(self.id),
            method: self.method@,
            params: optional_view(self.params),
        }
    }
}

impl View for Tool {
    type V = ToolView;

    open spec fn view(&self) -> ToolView {
        ToolView {
            name: self.name@,
            description: self.description@,
            input_schema: self.input_schema@,
        }
    }
}

impl View for ToolCallParams {
    type V = ToolCallView;

    open spec fn view(&self) -> ToolCallView {
        ToolCallView { name: self.name@, arguments: optional_view(self.arguments) }
    }
}

impl ResponseView {
    /// Whether the response carries a result or an error, and not both.
    pub open spec fn well_formed(self) -> bool {
        (self.result is Some) != (self.error is Some)
    }

    /// The code of the error, where the response carries one.
    pub open spec fn error_code(self) -> Option<i32> {
        match self.error {
            Some(e) => Some(e.code),
            None => None,
        }
    }

    /// The response that carries `result`.
    pub open spec fn success(id: Option<JsonView>, result: JsonView) -> ResponseView {
        ResponseView { jsonrpc: JSONRPC_VERSION@, id, result: Some(result), error: None }
    }

    /// The response that carries an error.
    pub open spec fn failure(
        id: Option<JsonView>,
        code: i32,
        message: Seq<char>,
        data: Option<JsonView>,
    ) -> ResponseView {
        ResponseView {
            jsonrpc: JSONRPC_VERSION@,
            id,
            result: None,
            error: Some(ErrorObjectView { code, message, data }),
        }
    }

    /// The response that carries an error with `details` as its data.
    pub open spec fn failure_with_details(
        id: Option<JsonView>,
        code: i32,
        message: Seq<char>,
        details: Seq<char>,
    ) -> ResponseView {
        ResponseView::failure(id, code, message, Some(details_of(details)))
    }

    /// The response to a line that is no request.
    pub open spec fn parse_error() -> ResponseView {
        ResponseView::failure(None, PARSE_ERROR, "Parse error"@, None)
    }
}

/// The data of an error that has `text` to say.
pub open spec fn details_of(text: Seq<char>) -> JsonView {
    JsonView::object().with("details"@, JsonView::Str(text))
}

/// The result of a call of a tool that has `text` to show.
pub open spec fn content_of(text: Seq<char>) -> JsonView {
    JsonView::object().with(
        "content"@,
        JsonView::Array(
            seq![
                JsonView::object().with("type"@, JsonView::Str("text"@)).with(
                    "text"@,
                    JsonView::Str(text),
                ),
            ],
        ),
    )
}

impl JsonRpcResponse {
    /// The response that carries `result`.
    pub fn success(id: Option<Json>, result: Json) -> (response: JsonRpcResponse)
        ensures
            response@ == ResponseView::success(optional_view(id), result@),
            response.id == id,
    {
        JsonRpcResponse {
            jsonrpc: JSONRPC_VERSION.to_owned(),
            id,
            result: Some(result),
            error: None,
        }
    }

    /// The response that carries an error.
    pub fn failure(
        id: Option<Json>,
        code: i32,
        message: &str,
        data: Option<Json>,
    ) -> (response: JsonRpcResponse)
        ensures
            response@ == ResponseView::failure(
                optional_view(id),
                code,
                message@,
                optional_view(data),
            ),
            response.id == id,
    {
        JsonRpcResponse {
            jsonrpc: JSONRPC_VERSION.to_owned(),
            id,
            result: None,
            error: Some(JsonRpcError { code, message: message.to_owned(), data }),
        }
    }

    /// The response that carries an error with `details` as its data.
    pub fn failure_with_details(
        id: Option<Json>,
        code: i32,
        message: &str,
        details: &str,
    ) -> (response: JsonRpcResponse)
        ensures
            response@ == ResponseView::failure_with_details(
                optional_view(id),
                code,
                message@,
                details@,
            ),
            response.id == id,
    {
        let data = Json::object().with("details", Json::text(details));
        JsonRpcResponse::failure(id, code, message, Some(data))
    }

    /// The response to a line that is no request: whose request it was
    /// cannot be told, so it names none.
    pub fn parse_error() -> (response: JsonRpcResponse)
        ensures
            response@ == ResponseView::parse_error(),
    {
        JsonRpcResponse::failure(None, PARSE_ERROR, "Parse error", None)
    }
}

/// The result of a call of a tool that has `text` to show.
pub fn text_content(text: &str) -> (content: Json)
    ensures
        content@ == content_of(text@),
{
    let block = Json::object().with("type", Json::text("text")).with("text", Json::text(text));
    let mut blocks: Vec<Json> = Vec::new();
    blocks.push(block);
    assert(items_view(blocks@) =~= seq![block@]);
    Json::object().with("content", Json::Array(blocks))
}

/// The text of an error as it stands in the line of a response, where
/// `message` and `data` are already written as JSON.
pub open spec fn framed_error(code: i32, message: Seq<char>, data: Option<Seq<char>>) -> Seq<char> {
    "{\"code\":"@ + signed_decimal(code as int) + ",\"message\":"@ + message + (match data {
        Some(data) => ",\"data\":"@ + data,
        None => Seq::empty(),
    }) + "}"@
}

/// The line of a response, where its parts are already written as JSON:
/// the version tag and the id, then the result and the error, as far as the
/// response carries them.
pub open spec fn framed_response(
    jsonrpc: Seq<char>,
    id: Seq<char>,
    result: Option<Seq<char>>,
    error: Option<Seq<char>>,
) -> Seq<char> {
    "{\"jsonrpc\":"@ + jsonrpc + ",\"id\":"@ + id + (match result {
        Some(result) => ",\"result\":"@ + result,
        None => Seq::empty(),
    }) + (match error {
        Some(error) => ",\"error\":"@ + error,
        None => Seq::empty(),
    }) + "}"@
}

/// The text of the error `e`, as it stands in the line of a response.
pub open spec fn error_line(e: ErrorObjectView) -> Seq<char> {
    framed_error(
        e.code,
        json_text(JsonView::Str(e.message)),
        match e.data {
            Some(data) => Some(json_text(data)),
            None => None,
        },
    )
}

/// The line that is written for the response `r`.  An id that is missing is
/// written as `null`.
pub open spec fn response_line(r: ResponseView) -> Seq<char> {
    framed_response(
        json_text(JsonView::Str(r.jsonrpc)),
        json_text(
            match r.id {
                Some(id) => id,
                None => JsonView::Null,
            },
        ),
        match r.result {
            Some(result) => Some(json_text(result)),
            None => None,
        },
        match r.error {
            Some(e) => Some(error_line(e)),
            None => None,
        },
    )
}

/// Writes an error as it stands in the line of a response, where `message`
/// and `data` are already written as JSON.
pub fn frame_error(code: i32, message: &str, data: Option<&str>) -> (line: String)
    ensures
        line@ == framed_error(
            code,
            message@,
            match data {
                Some(data) => Some(data@),
                None => None,
            },
        ),
{
    let mut line = "{\"code\":".to_owned();
    line.append(to_signed_decimal(code).as_str());
    line.append(",\"message\":");
    line.append(message);
    match data {
        Some(data) => {
            line.append(",\"data\":");
            line.append(data);
        },
        None => {
        },
    }
    line.append("}");
    line
}

/// Writes the line of a response, where its parts are already written as
/// JSON.
pub fn frame_response(
    jsonrpc: &str,
    id: &str,
    result: Option<&str>,
    error: Option<&str>,
) -> (line: String)
    ensures
        line@ == framed_response(
            jsonrpc@,
            id@,
            match result {
                Some(result) => Some(result@),
                None => None,
            },
            match error {
                Some(error) => Some(error@),
                None => None,
            },
        ),
{
    let mut line = "{\"jsonrpc\":".to_owned();
    line.append(jsonrpc);
    line.append(",\"id\":");
    line.append(id);
    match result {
        Some(result) => {
            line.append(",\"result\":");
            line.append(result);
        },
        None => {
        },
    }
    match error {
        Some(error) => {
            line.append(",\"error\":");
            line.append(error);
        },
        None => {
        },
    }
    line.append("}");
    line
}

impl JsonRpcError {
    /// Writes the error as it stands in the line of a response.
    pub fn to_line(&self) -> (line: String)
        ensures
            line@ == error_line(self@),
    {
        let message = render_json(&Json::Str(self.message.clone()));
        match &self.data {
            Some(data) => {
                let data = render_json(data);
                frame_error(self.code, message.as_str(), Some(data.as_str()))
            },
            None => frame_error(self.code, message.as_str(), None),
        }
    }
}

impl JsonRpcResponse {
    /// Writes the response as the one line that goes to the client.
    pub fn to_line(&self) -> (line: String)
        ensures
            line@ == response_line(self@),
    {
        let jsonrpc = render_json(&Json::Str(self.jsonrpc.clone()));
        let id = match &self.id {
            Some(id) => render_json(id),
            None => render_json(&Json::Null),
        };
        let result = match &self.result {
            Some(result) => Some(render_json(result)),
            None => None,
        };
        let error = match &self.error {
            Some(e) => Some(e.to_line()),
            None => None,
        };
        frame_response(
            jsonrpc.as_str(),
            id.as_str(),
            match &result {
                Some(result) => Some(result.as_str()),
                None => None,
            },
            match &error {
                Some(error) => Some(error.as_str()),
                None => None,
            },
        )
    }
}

/// What the tool `angreal_check` is for.
pub const ANGREAL_CHECK_DESC: &'static str =
    "Check if the current directory is an angreal project and get project status including available commands";

/// What the tool `angreal_tree` is for.
pub const ANGREAL_TREE_DESC: &'static str =
    "Get a structured view of all available angreal commands and tasks in the project";

/// What the tool `angreal_run` is for.
pub const ANGREAL_RUN_DESC: &'static str =
    "Execute an angreal command or task with optional arguments";

/// The schema of `angreal_check`: it takes no parameter.
pub open spec fn check_schema() -> JsonView {
    JsonView::object().with("type"@, JsonView::Str("object"@)).with(
        "properties"@,
        JsonView::object(),
    )
}

/// The schema of `angreal_tree`: it takes `format`, which is `human` or
/// `json`, and `json` where it is left out.
pub open spec fn tree_schema() -> JsonView {
    JsonView::object().with("type"@, JsonView::Str("object"@)).with(
        "properties"@,
        JsonView::object().with(
            "format"@,
            JsonView::object().with("type"@, JsonView::Str("string"@)).with(
                "enum"@,
                JsonView::strings(seq!["human"@, "json"@]),
            ).with("default"@, JsonView::Str("json"@)).with(
                "description"@,
                JsonView::Str(
                    "Output format - 'json' for structured data, 'human' for readable tree"@,
                ),
            ),
        ),
    )
}

/// The schema of `angreal_run`: it takes `command`, which is required, and
/// `args`, a list of strings.
pub open spec fn run_schema() -> JsonView {
    JsonView::object().with("type"@, JsonView::Str("object"@)).with(
        "properties"@,
        JsonView::object().with(
            "command"@,
            JsonView::object().with("type"@, JsonView::Str("string"@)).with(
                "description"@,
                JsonView::Str(
                    "The angreal command/task to execute. Can include subcommands (e.g., 'test', 'build', 'task deploy', 'init template-name')"@,
                ),
            ).with(
                "examples"@,
                JsonView::strings(
                    seq!["test"@, "build"@, "lint"@, "task deploy"@, "init my-template"@],
                ),
            ),
        ).with(
            "args"@,
            JsonView::object().with("type"@, JsonView::Str("array"@)).with(
                "items"@,
                JsonView::object().with("type"@, JsonView::Str("string"@)),
            ).with(
                "description"@,
                JsonView::Str(
                    "Additional arguments, options, and flags to pass to the command"@,
                ),
            ).with(
                "examples"@,
                JsonView::Array(
                    seq![
                        JsonView::strings(seq!["--release"@]),
                        JsonView::strings(seq!["--env"@, "production"@]),
                        JsonView::strings(seq!["--var"@, "name=value"@]),
                    ],
                ),
            ).with("default"@, JsonView::strings(Seq::empty())),
        ),
    ).with("required"@, JsonView::strings(seq!["command"@]))
}

/// The tools that a client may call, in the order in which they are listed.
pub open spec fn registry() -> Seq<ToolView> {
    seq![
        ToolView {
            name: "angreal_check"@,
            description: ANGREAL_CHECK_DESC@,
            input_schema: check_schema(),
        },
        ToolView {
            name: "angreal_tree"@,
            description: ANGREAL_TREE_DESC@,
            input_schema: tree_schema(),
        },
        ToolView { name: "angreal_run"@, description: ANGREAL_RUN_DESC@, input_schema: run_schema() },
    ]
}

/// The names of the tools, in the order in which they are listed.
pub open spec fn tool_names() -> Seq<Seq<char>> {
    seq!["angreal_check"@, "angreal_tree"@, "angreal_run"@]
}

/// What the tools `tools` stand for, one by one.
pub open spec fn tools_view(tools: Seq<Tool>) -> Seq<ToolView> {
    Seq::new(tools.len(), |i: int| tools[i]@)
}

/// The tool `tool` as it is listed.
pub open spec fn listed_tool(tool: ToolView) -> JsonView {
    JsonView::object().with("name"@, JsonView::Str(tool.name)).with(
        "description"@,
        JsonView::Str(tool.description),
    ).with("inputSchema"@, tool.input_schema)
}

/// The result of `tools/list`: the tools of the registry, each as it is
/// listed.
pub open spec fn tools_list() -> JsonView {
    JsonView::object().with(
        "tools"@,
        JsonView::Array(Seq::new(registry().len(), |i: int| listed_tool(registry()[i]))),
    )
}

/// What the strings `texts` hold, one by one.
pub open spec fn texts_view(texts: Seq<&str>) -> Seq<Seq<char>> {
    Seq::new(texts.len(), |i: int| texts[i]@)
}

/// The array of the strings `texts`.
fn string_array(texts: Vec<&str>) -> (j: Json)
    ensures
        j@ == JsonView::strings(texts_view(texts@)),
{
    let mut items: Vec<Json> = Vec::new();
    let mut i: usize = 0;
    while i < texts.len()
        invariant
            i <= texts.len(),
            items.len() == i,
            forall|k: int| 0 <= k < i ==> (#[trigger] items@[k])@ == JsonView::Str(texts@[k]@),
        decreases texts.len() - i,
    {
        items.push(Json::text(texts[i]));
        i += 1;
    }
    assert(items_view(items@) =~= JsonView::strings(texts_view(texts@))->Array_0);
    Json::Array(items)
}

/// The schema of `angreal_check`.
fn build_check_schema() -> (schema: Json)
    ensures
        schema@ == check_schema(),
{
    Json::object().with("type", Json::text("object")).with("properties", Json::object())
}

/// The schema of `angreal_tree`.
fn build_tree_schema() -> (schema: Json)
    ensures
        schema@ == tree_schema(),
{
    let texts = vec!["human", "json"];
    assert(texts_view(texts@) =~= seq!["human"@, "json"@]);
    let formats = string_array(texts);
    let format = Json::object().with("type", Json::text("string")).with("enum", formats).with(
        "default",
        Json::text("json"),
    ).with(
        "description",
        Json::text("Output format - 'json' for structured data, 'human' for readable tree"),
    );
    Json::object().with("type", Json::text("object")).with(
        "properties",
        Json::object().with("format", format),
    )
}

/// The schema of `angreal_run`.
fn build_run_schema() -> (schema: Json)
    ensures
        schema@ == run_schema(),
{
    let texts = vec!["test", "build", "lint", "task deploy", "init my-template"];
    assert(texts_view(texts@) =~= seq![
        "test"@,
        "build"@,
        "lint"@,
        "task deploy"@,
        "init my-template"@,
    ]);
    let commands = string_array(texts);
    let command = Json::object().with("type", Json::text("string")).with(
        "description",
        Json::text(
            "The angreal command/task to execute. Can include subcommands (e.g., 'test', 'build', 'task deploy', 'init template-name')",
        ),
    ).with("examples", commands);
    let texts = vec!["--release"];
    assert(texts_view(texts@) =~= seq!["--release"@]);
    let release = string_array(texts);
    let texts = vec!["--env", "production"];
    assert(texts_view(texts@) =~= seq!["--env"@, "production"@]);
    let env = string_array(texts);
    let texts = vec!["--var", "name=value"];
    assert(texts_view(texts@) =~= seq!["--var"@, "name=value"@]);
    let var = string_array(texts);
    let examples = vec![release, env, var];
    assert(items_view(examples@) =~= seq![release@, env@, var@]);
    let texts: Vec<&str> = Vec::new();
    assert(texts_view(texts@) =~= Seq::<Seq<char>>::empty());
    let none = string_array(texts);
    let args = Json::object().with("type", Json::text("array")).with(
        "items",
        Json::object().with("type", Json::text("string")),
    ).with(
        "description",
        Json::text("Additional arguments, options, and flags to pass to the command"),
    ).with("examples", Json::Array(examples)).with("default", none);
    let texts = vec!["command"];
    assert(texts_view(texts@) =~= seq!["command"@]);
    let required = string_array(texts);
    Json::object().with("type", Json::text("object")).with(
        "properties",
        Json::object().with("command", command).with("args", args),
    ).with("required", required)
}

/// The server: it holds the registry of tools, which is the same from its
/// making to its end.
pub struct McpServer {
    tools: Vec<Tool>,
}

impl McpServer {
    #[verifier::type_invariant]
    spec fn holds_registry(self) -> bool {
        tools_view(self.tools@) == registry()
    }

    /// The tools that the server holds.
    pub closed spec fn tools(self) -> Seq<ToolView> {
        tools_view(self.tools@)
    }

    /// The server with its registry.
    pub fn new() -> (server: McpServer)
        ensures
            server.tools() == registry(),
    {
        let check = Tool {
            name: "angreal_check".to_owned(),
            description: ANGREAL_CHECK_DESC.to_owned(),
            input_schema: build_check_schema(),
        };
        let tree = Tool {
            name: "angreal_tree".to_owned(),
            description: ANGREAL_TREE_DESC.to_owned(),
            input_schema: build_tree_schema(),
        };
        let run = Tool {
            name: "angreal_run".to_owned(),
            description: ANGREAL_RUN_DESC.to_owned(),
            input_schema: build_run_schema(),
        };
        let tools = vec![check, tree, run];
        assert(tools_view(tools@) =~= registry());
        McpServer { tools }
    }

    /// Answers `tools/list`: the registry as it is, whoever asks and whatever
    /// was asked before.
    pub fn handle_tools_list(&self, id: Option<Json>) -> (response: JsonRpcResponse)
        ensures
            response@ == ResponseView::success(optional_view(id), tools_list()),
            response.id == id,
    {
        proof {
            use_type_invariant(self);
        }
        let mut listed: Vec<Json> = Vec::new();
        let mut i: usize = 0;
        while i < self.tools.len()
            invariant
                i <= self.tools.len(),
                listed.len() == i,
                forall|k: int|
                    0 <= k < i ==> (#[trigger] listed@[k])@ == listed_tool(self.tools@[k]@),
            decreases self.tools.len() - i,
        {
            let tool = &self.tools[i];
            listed.push(
                Json::object().with("name", Json::Str(tool.name.clone())).with(
                    "description",
                    Json::Str(tool.description.clone()),
                ).with("inputSchema", tool.input_schema.clone()),
            );
            i += 1;
        }
        assert(items_view(listed@) =~= Seq::new(
            registry().len(),
            |i: int| listed_tool(registry()[i]),
        ));
        JsonRpcResponse::success(id, Json::object().with("tools", Json::Array(listed)))
    }
}

impl Default for McpServer {
    fn default() -> (server: McpServer)
        ensures
            server.tools() == registry(),
    {
        McpServer::new()
    }
}

/// The tools that the result `result` of `tools/list` lists.
pub open spec fn listed_tools(result: JsonView) -> Seq<JsonView> {
    match result.member("tools"@) {
        Some(JsonView::Array(tools)) => tools,
        _ => Seq::empty(),
    }
}

/// The registry names its tools `angreal_check`, `angreal_tree` and
/// `angreal_run`, in this order, and so does every answer to `tools/list`.
/// No two tools have the same name.
pub proof fn lemma_tool_names()
    ensures
        registry().len() == 3,
        Seq::new(registry().len(), |i: int| registry()[i].name) == tool_names(),
        listed_tools(tools_list()).len() == 3,
        forall|i: int|
            0 <= i < 3 ==> (#[trigger] listed_tools(tools_list())[i]).text_at("name"@) == Some(
                tool_names()[i],
            ),
        tool_names().no_duplicates(),
{
    reveal_strlit("name");
    reveal_strlit("description");
    reveal_strlit("inputSchema");
    assert("name"@.len() == 4 && "description"@.len() == 11 && "inputSchema"@.len() == 11);
    reveal_strlit("angreal_check");
    reveal_strlit("angreal_tree");
    reveal_strlit("angreal_run");
    assert("angreal_check"@.len() == 13 && "angreal_tree"@.len() == 12 && "angreal_run"@.len()
        == 11);
}

/// What the server says of its tools, as it stands in the answer to
/// `initialize`: a part that is missing is left out.
pub open spec fn tools_capability_json(tools: ServerToolsCapability) -> JsonView {
    match tools.list_changed {
        Some(changed) => JsonView::object().with("list_changed"@, JsonView::Bool(changed)),
        None => JsonView::object(),
    }
}

/// What the server says it can do, as it stands in the answer to
/// `initialize`: a part that is missing is left out.
pub open spec fn capabilities_json(capabilities: ServerCapabilities) -> JsonView {
    match capabilities.tools {
        Some(tools) => JsonView::object().with("tools"@, tools_capability_json(tools)),
        None => JsonView::object(),
    }
}

impl ServerToolsCapability {
    /// Writes what the server says of its tools.
    pub fn to_json(&self) -> (j: Json)
        ensures
            j@ == tools_capability_json(*self),
    {
        match self.list_changed {
            Some(changed) => Json::object().with("list_changed", Json::Bool(changed)),
            None => Json::object(),
        }
    }
}

impl ServerCapabilities {
    /// Writes what the server says it can do.
    pub fn to_json(&self) -> (j: Json)
        ensures
            j@ == capabilities_json(*self),
    {
        match &self.tools {
            Some(tools) => Json::object().with("tools", tools.to_json()),
            None => Json::object(),
        }
    }
}

} // verus!
