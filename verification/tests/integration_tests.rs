use angreal_mcp::angreal::ProcessOutcome;
use angreal_mcp::dispatch::{AfterRun, Purpose, Step};
use angreal_mcp::json::{parse_json, Json};
use angreal_mcp::mcp::{
    frame_error, frame_response, JsonRpcRequest, JsonRpcResponse, McpServer, Tool, ToolCallParams,
};

/// What the server is told when it asks.
struct Surroundings {
    run: fn(&[String]) -> ProcessOutcome,
    marker_present: bool,
    directory: Option<String>,
}

fn exited(code: i32, stdout: &str, stderr: &str) -> ProcessOutcome {
    ProcessOutcome::Exited {
        code: Some(code),
        stdout: stdout.to_string(),
        stderr: stderr.to_string(),
    }
}

fn never_run(argv: &[String]) -> ProcessOutcome {
    panic!("the tool was started with {:?}", argv)
}

fn no_tool(_argv: &[String]) -> ProcessOutcome {
    ProcessOutcome::LaunchFailed {
        not_found: true,
        reason: "No such file or directory (os error 2)".to_string(),
    }
}

fn not_a_project(argv: &[String]) -> ProcessOutcome {
    if argv == ["--version"] {
        exited(0, "angreal 2.0.0\n", "")
    } else {
        exited(1, "", "Error: This directory is not an angreal project\n")
    }
}

fn project(argv: &[String]) -> ProcessOutcome {
    let words: Vec<&str> = argv.iter().map(String::as_str).collect();
    match words.as_slice() {
        ["--version"] => exited(0, "angreal 2.0.0\n", ""),
        ["tree"] => exited(0, "test - run the tests\n", ""),
        ["tree", "--json"] => exited(
            0,
            "{\"commands\":[{\"name\":\"test\",\"path\":\"test\",\"description\":\"Run the tests\",\
             \"arguments\":[{\"flag\":\"--fast\",\"type\":\"flag\",\"required\":false}]},\
             {\"name\":\"deploy\",\"path\":\"task deploy\",\"description\":\"Ship it\"}]}",
            "",
        ),
        ["test", "--fast"] => exited(0, "2 passed\n", "note: cached\n"),
        ["build"] => exited(2, "step 1\n", "step 2 failed\n"),
        _ => exited(1, "", "unknown command"),
    }
}

fn nowhere() -> Surroundings {
    Surroundings { run: never_run, marker_present: false, directory: None }
}

/// Takes a request through its steps to its response.
fn drive(server: &McpServer, first: Step, surroundings: &Surroundings) -> Option<JsonRpcResponse> {
    let mut step = first;
    let mut taken = 0;
    loop {
        assert!(taken <= 5, "more than five steps");
        taken += 1;
        step = match step {
            Step::Idle => return None,
            Step::Reply(response) => return Some(response),
            Step::Run(argv, after) => server.resume_run(after, (surroundings.run)(&argv)),
            Step::LookForMarker(after) => server.resume_marker(after, surroundings.marker_present),
            Step::AskDirectory(after) => {
                server.resume_directory(after, surroundings.directory.clone())
            }
        };
    }
}

fn handle_line(line: &str, surroundings: &Surroundings) -> Option<String> {
    let server = McpServer::new();
    drive(&server, server.receive(line), surroundings).map(|response| response.to_line())
}

fn handle_request_string(request_str: String) -> String {
    handle_line(&request_str, &nowhere()).unwrap()
}

fn details(response: &serde_json::Value) -> &str {
    response["error"]["data"]["details"].as_str().unwrap()
}

fn text(response: &serde_json::Value) -> &str {
    assert_eq!(response["result"]["content"].as_array().unwrap().len(), 1);
    assert_eq!(response["result"]["content"][0]["type"], "text");
    response["result"]["content"][0]["text"].as_str().unwrap()
}

#[test]
fn test_tools_list() {
    let request = "{\"id\":2,\"jsonrpc\":\"2.0\",\"method\":\"tools/list\"}";

    let response_str = handle_request_string(request.to_string());
    let response: serde_json::Value = serde_json::from_str(&response_str).unwrap();

    assert_eq!(response["jsonrpc"], "2.0");
    assert_eq!(response["id"], 2);

    let tools = &response["result"]["tools"];
    assert!(tools.is_array());
    assert_eq!(tools.as_array().unwrap().len(), 3);
    assert_eq!(tools[0]["name"], "angreal_check");
}

#[test]
fn test_invalid_method() {
    let request = "{\"id\":3,\"jsonrpc\":\"2.0\",\"method\":\"invalid/method\"}";

    let response_str = handle_request_string(request.to_string());
    let response: serde_json::Value = serde_json::from_str(&response_str).unwrap();

    assert_eq!(response["jsonrpc"], "2.0");
    assert_eq!(response["id"], 3);
    assert!(response["error"].is_object());
    assert_eq!(response["error"]["code"], -32601);
    assert_eq!(response["error"]["message"], "Method not found");
}

#[test]
fn test_malformed_json() {
    let response_str = handle_request_string("not valid json".to_string());
    let response: serde_json::Value = serde_json::from_str(&response_str).unwrap();

    assert_eq!(response["jsonrpc"], "2.0");
    assert!(response["error"].is_object());
    assert_eq!(response["error"]["code"], -32700);
    assert_eq!(response["error"]["message"], "Parse error");
}

#[test]
fn the_parse_error_is_written_letter_by_letter() {
    assert_eq!(
        handle_request_string("not valid json".to_string()),
        "{\"jsonrpc\":\"2.0\",\"id\":null,\"error\":{\"code\":-32700,\"message\":\"Parse error\"}}"
    );
}

#[test]
fn a_line_that_holds_no_request_is_a_parse_error() {
    for line in [
        "{",
        "[]",
        "42",
        "\"initialize\"",
        "{}",
        "{\"jsonrpc\":\"2.0\"}",
        "{\"method\":\"tools/list\"}",
        "{\"jsonrpc\":2,\"method\":\"tools/list\"}",
        "{\"jsonrpc\":\"2.0\",\"method\":null,\"id\":7}",
        "{\"jsonrpc\":\"2.0\",\"id\":1,\"method\":\"tools/list\"} trailing",
    ] {
        let response: serde_json::Value =
            serde_json::from_str(&handle_request_string(line.to_string())).unwrap();
        assert_eq!(response["error"]["code"], -32700, "{}", line);
        assert!(response["id"].is_null(), "{}", line);
        assert!(response.get("result").is_none(), "{}", line);
    }
}

#[test]
fn a_blank_line_is_not_answered() {
    for line in ["", "   ", "\n", " \t\r\n"] {
        assert_eq!(handle_line(line, &nowhere()), None);
    }
}

#[test]
fn white_space_around_a_request_is_ignored() {
    let response_str =
        handle_request_string("  {\"jsonrpc\":\"2.0\",\"id\":1,\"method\":\"tools/list\"}\n".to_string());
    let response: serde_json::Value = serde_json::from_str(&response_str).unwrap();
    assert_eq!(response["id"], 1);
    assert_eq!(response["result"]["tools"].as_array().unwrap().len(), 3);
}

#[test]
fn tools_list_names_the_three_tools() {
    let response_str =
        handle_request_string("{\"jsonrpc\":\"2.0\",\"id\":1,\"method\":\"tools/list\"}".to_string());
    let response: serde_json::Value = serde_json::from_str(&response_str).unwrap();
    assert_eq!(response["id"], 1);
    assert!(response.get("error").is_none());
    let tools = response["result"]["tools"].as_array().unwrap();
    let names: Vec<&str> = tools.iter().map(|tool| tool["name"].as_str().unwrap()).collect();
    assert_eq!(names, ["angreal_check", "angreal_tree", "angreal_run"]);
    assert_eq!(
        tools[0]["description"],
        "Check if the current directory is an angreal project and get project status including available commands"
    );
    assert_eq!(
        tools[0]["inputSchema"],
        serde_json::from_str::<serde_json::Value>("{\"type\":\"object\",\"properties\":{}}").unwrap()
    );
    assert_eq!(
        tools[1]["inputSchema"],
        serde_json::from_str::<serde_json::Value>(
            "{\"type\":\"object\",\"properties\":{\"format\":{\"type\":\"string\",\
             \"enum\":[\"human\",\"json\"],\"default\":\"json\",\
             \"description\":\"Output format - 'json' for structured data, 'human' for readable tree\"}}}"
        )
        .unwrap()
    );
    assert_eq!(
        tools[2]["inputSchema"],
        serde_json::from_str::<serde_json::Value>(
            "{\"type\":\"object\",\"properties\":{\"command\":{\"type\":\"string\",\
             \"description\":\"The angreal command/task to execute. Can include subcommands (e.g., 'test', 'build', 'task deploy', 'init template-name')\",\
             \"examples\":[\"test\",\"build\",\"lint\",\"task deploy\",\"init my-template\"]},\
             \"args\":{\"type\":\"array\",\"items\":{\"type\":\"string\"},\
             \"description\":\"Additional arguments, options, and flags to pass to the command\",\
             \"examples\":[[\"--release\"],[\"--env\",\"production\"],[\"--var\",\"name=value\"]],\
             \"default\":[]}},\"required\":[\"command\"]}"
        )
        .unwrap()
    );
}

#[test]
fn tools_list_is_the_same_wherever_and_whenever_it_is_asked() {
    let server = McpServer::new();
    let first = server.handle_tools_list(None).to_line();
    let _ = drive(
        &server,
        server.receive("{\"jsonrpc\":\"2.0\",\"id\":1,\"method\":\"initialize\"}"),
        &Surroundings { run: project, marker_present: true, directory: Some("/a".to_string()) },
    );
    assert_eq!(server.handle_tools_list(None).to_line(), first);
    assert_eq!(McpServer::new().handle_tools_list(None).to_line(), first);
}

#[test]
fn the_id_is_echoed_as_it_came() {
    for id in ["1", "-5", "1.5", "\"abc\"", "[1,\"two\"]", "{\"k\":true}"] {
        let line = format!("{{\"jsonrpc\":\"2.0\",\"id\":{},\"method\":\"tools/list\"}}", id);
        let response = handle_request_string(line);
        assert!(response.starts_with(&format!("{{\"jsonrpc\":\"2.0\",\"id\":{},\"result\":", id)));
    }
    for line in [
        "{\"jsonrpc\":\"2.0\",\"method\":\"nope\"}",
        "{\"jsonrpc\":\"2.0\",\"id\":null,\"method\":\"nope\"}",
    ] {
        assert_eq!(
            handle_request_string(line.to_string()),
            "{\"jsonrpc\":\"2.0\",\"id\":null,\"error\":{\"code\":-32601,\"message\":\"Method not found\"}}"
        );
    }
}

#[test]
fn a_call_of_an_unknown_tool_is_invalid_params() {
    for name in ["nope", "", "angreal", "angreal_run ", "ANGREAL_RUN", "tools/list"] {
        let line = format!(
            "{{\"jsonrpc\":\"2.0\",\"id\":9,\"method\":\"tools/call\",\"params\":{{\"name\":{:?},\"arguments\":{{\"command\":\"test\"}}}}}}",
            name
        );
        let response: serde_json::Value =
            serde_json::from_str(&handle_request_string(line)).unwrap();
        assert_eq!(response["id"], 9);
        assert_eq!(response["error"]["code"], -32602);
        assert_eq!(response["error"]["message"], "Invalid params");
        assert_eq!(details(&response), format!("Unknown tool: {}", name));
        assert!(response.get("result").is_none());
    }
}

#[test]
fn a_call_without_its_shape_is_invalid_params() {
    let cases = [
        ("{\"jsonrpc\":\"2.0\",\"id\":4,\"method\":\"tools/call\"}", "Missing params"),
        ("{\"jsonrpc\":\"2.0\",\"id\":4,\"method\":\"tools/call\",\"params\":null}", "Missing params"),
        ("{\"jsonrpc\":\"2.0\",\"id\":4,\"method\":\"tools/call\",\"params\":{}}", "Malformed tool call"),
        ("{\"jsonrpc\":\"2.0\",\"id\":4,\"method\":\"tools/call\",\"params\":[1]}", "Malformed tool call"),
        (
            "{\"jsonrpc\":\"2.0\",\"id\":4,\"method\":\"tools/call\",\"params\":{\"name\":5}}",
            "Malformed tool call",
        ),
    ];
    for (line, expected) in cases {
        let response: serde_json::Value =
            serde_json::from_str(&handle_request_string(line.to_string())).unwrap();
        assert_eq!(response["id"], 4, "{}", line);
        assert_eq!(response["error"]["code"], -32602, "{}", line);
        assert_eq!(response["error"]["message"], "Invalid params", "{}", line);
        assert_eq!(details(&response), expected, "{}", line);
    }
}

#[test]
fn a_run_without_a_command_is_an_internal_error() {
    for arguments in ["{}", "{\"args\":[\"x\"]}", "{\"command\":7}", "null", "[\"test\"]"] {
        let line = format!(
            "{{\"jsonrpc\":\"2.0\",\"id\":6,\"method\":\"tools/call\",\"params\":{{\"name\":\"angreal_run\",\"arguments\":{}}}}}",
            arguments
        );
        let response: serde_json::Value =
            serde_json::from_str(&handle_request_string(line)).unwrap();
        assert_eq!(response["id"], 6);
        assert_eq!(response["error"]["code"], -32603);
        assert_eq!(response["error"]["message"], "Internal error");
        assert_eq!(details(&response), "Missing required 'command' parameter");
    }
}

#[test]
fn an_injection_is_refused_before_the_tool_is_started() {
    let line = "{\"jsonrpc\":\"2.0\",\"id\":2,\"method\":\"tools/call\",\"params\":{\"name\":\"angreal_run\",\"arguments\":{\"command\":\"build; rm -rf /\",\"args\":[]}}}";
    let server = McpServer::new();
    let step = server.receive(line);
    assert!(matches!(step, Step::Reply(_)));
    let response: serde_json::Value =
        serde_json::from_str(&handle_request_string(line.to_string())).unwrap();
    assert_eq!(response["id"], 2);
    assert_eq!(response["error"]["code"], -32603);
    assert_eq!(response["error"]["message"], "Command execution failed");
    assert_eq!(
        details(&response),
        "Invalid command component 'build;': contains disallowed characters"
    );
    assert!(response.get("result").is_none());
}

#[test]
fn no_refused_command_starts_the_tool() {
    for command in ["a&&b", "a || b", "x;y", "ls | wc", "$HOME", "a>b", "caf\u{e9}", "a\\b", "a\"b"] {
        let call = ToolCallParams {
            name: "angreal_run".to_string(),
            arguments: Some(Json::object().with("command", Json::text(command))),
        };
        let server = McpServer::new();
        match server.handle_tool_call(Some(Json::text("id")), call) {
            Step::Reply(response) => {
                assert_eq!(response.id, Some(Json::text("id")));
                assert_eq!(response.result, None);
                assert_eq!(response.error.unwrap().code, -32603);
            }
            other => panic!("{:?} led to {:?}", command, other),
        }
    }
}

#[test]
fn an_argument_that_is_too_long_is_refused_before_the_tool_is_started() {
    let call = |len: usize| ToolCallParams {
        name: "angreal_run".to_string(),
        arguments: Some(
            Json::object()
                .with("command", Json::text("test"))
                .with("args", Json::Array(vec![Json::text(&"x".repeat(len))])),
        ),
    };
    let server = McpServer::new();
    match server.handle_tool_call(None, call(1001)) {
        Step::Reply(response) => {
            let error = response.error.unwrap();
            assert_eq!(error.code, -32603);
            assert_eq!(error.message, "Command execution failed");
            assert_eq!(
                error.data,
                Some(Json::object().with("details", Json::text("Argument too long: 1001")))
            );
        }
        other => panic!("{:?}", other),
    }
    match server.handle_tool_call(None, call(1000)) {
        Step::Run(argv, AfterRun::Command { id, command, args }) => {
            assert_eq!(argv, ["test".to_string(), "x".repeat(1000)]);
            assert_eq!(id, None);
            assert_eq!(command, "test");
            assert_eq!(args, ["x".repeat(1000)]);
        }
        other => panic!("{:?}", other),
    }
}

#[test]
fn a_run_hands_on_the_words_and_the_strings_among_the_arguments() {
    let line = "{\"jsonrpc\":\"2.0\",\"id\":\"r\",\"method\":\"tools/call\",\"params\":{\"name\":\"angreal_run\",\"arguments\":{\"command\":\" task  deploy \",\"args\":[\"--env\",3,\"two words\",null,\"a;b\"]}}}";
    let server = McpServer::new();
    match server.receive(line) {
        Step::Run(argv, AfterRun::Command { id, command, args }) => {
            assert_eq!(argv, ["task", "deploy", "--env", "two words", "a;b"]);
            assert_eq!(id, Some(Json::text("r")));
            assert_eq!(command, " task  deploy ");
            assert_eq!(args, ["--env", "two words", "a;b"]);
        }
        other => panic!("{:?}", other),
    }
}

#[test]
fn a_run_shows_what_the_tool_printed() {
    let surroundings =
        Surroundings { run: project, marker_present: true, directory: Some("/p".to_string()) };
    let line = "{\"jsonrpc\":\"2.0\",\"id\":11,\"method\":\"tools/call\",\"params\":{\"name\":\"angreal_run\",\"arguments\":{\"command\":\"test\",\"args\":[\"--fast\"]}}}";
    let response: serde_json::Value =
        serde_json::from_str(&handle_line(line, &surroundings).unwrap()).unwrap();
    assert_eq!(response["id"], 11);
    assert!(response.get("error").is_none());
    assert_eq!(text(&response), "$ angreal test\n\n2 passed\n\n\nStderr:\nnote: cached\n");
}

#[test]
fn a_run_that_fails_is_an_error_with_what_was_printed() {
    let surroundings =
        Surroundings { run: project, marker_present: true, directory: Some("/p".to_string()) };
    let line = "{\"jsonrpc\":\"2.0\",\"id\":12,\"method\":\"tools/call\",\"params\":{\"name\":\"angreal_run\",\"arguments\":{\"command\":\"build\"}}}";
    let response: serde_json::Value =
        serde_json::from_str(&handle_line(line, &surroundings).unwrap()).unwrap();
    assert_eq!(response["id"], 12);
    assert!(response.get("result").is_none());
    assert_eq!(response["error"]["code"], -32603);
    assert_eq!(response["error"]["message"], "Command execution failed");
    assert_eq!(
        details(&response),
        "Angreal execution failed: Output:\nstep 1\n\n\nError:\nstep 2 failed\n"
    );
}

#[test]
fn a_run_without_the_tool_says_so() {
    let surroundings = Surroundings { run: no_tool, marker_present: false, directory: None };
    let line = "{\"jsonrpc\":\"2.0\",\"id\":13,\"method\":\"tools/call\",\"params\":{\"name\":\"angreal_run\",\"arguments\":{\"command\":\"test\"}}}";
    let response: serde_json::Value =
        serde_json::from_str(&handle_line(line, &surroundings).unwrap()).unwrap();
    assert_eq!(response["error"]["code"], -32603);
    assert_eq!(
        details(&response),
        "The 'angreal' command is not available. Please install angreal first."
    );
}

#[test]
fn the_listing_outside_a_project_is_an_error_of_that_kind() {
    let surroundings = Surroundings { run: not_a_project, marker_present: false, directory: None };
    let line = "{\"jsonrpc\":\"2.0\",\"id\":5,\"method\":\"tools/call\",\"params\":{\"name\":\"angreal_tree\",\"arguments\":{\"format\":\"human\"}}}";
    let server = McpServer::new();
    match server.receive(line) {
        Step::Run(argv, AfterRun::Tree { format, .. }) => {
            assert_eq!(argv, ["tree"]);
            assert_eq!(format, "human");
        }
        other => panic!("{:?}", other),
    }
    let response: serde_json::Value =
        serde_json::from_str(&handle_line(line, &surroundings).unwrap()).unwrap();
    assert_eq!(response["id"], 5);
    assert!(response.get("result").is_none());
    assert_eq!(response["error"]["code"], -32603);
    assert_eq!(response["error"]["message"], "Internal error");
    assert_eq!(
        details(&response),
        "Not in an angreal project. Please run this command from within an angreal project directory."
    );
}

#[test]
fn the_listing_is_in_json_unless_asked_otherwise() {
    let server = McpServer::new();
    for arguments in ["{}", "null", "{\"format\":\"json\"}", "{\"format\":7}"] {
        let line = format!(
            "{{\"jsonrpc\":\"2.0\",\"id\":1,\"method\":\"tools/call\",\"params\":{{\"name\":\"angreal_tree\",\"arguments\":{}}}}}",
            arguments
        );
        match server.receive(&line) {
            Step::Run(argv, AfterRun::Tree { format, .. }) => {
                assert_eq!(argv, ["tree", "--json"]);
                assert_eq!(format, "json");
            }
            other => panic!("{:?}", other),
        }
    }
    let line = "{\"jsonrpc\":\"2.0\",\"id\":1,\"method\":\"tools/call\",\"params\":{\"name\":\"angreal_tree\",\"arguments\":{\"format\":\"yaml\"}}}";
    let response: serde_json::Value =
        serde_json::from_str(&handle_request_string(line.to_string())).unwrap();
    assert_eq!(response["error"]["code"], -32603);
    assert_eq!(response["error"]["message"], "Internal error");
    assert_eq!(details(&response), "Invalid format 'yaml'. Must be 'json' or 'human'");
}

#[test]
fn the_listing_of_a_project_is_shown_as_it_was_printed() {
    let surroundings =
        Surroundings { run: project, marker_present: true, directory: Some("/p".to_string()) };
    let line = "{\"jsonrpc\":\"2.0\",\"id\":1,\"method\":\"tools/call\",\"params\":{\"name\":\"angreal_tree\",\"arguments\":{\"format\":\"human\"}}}";
    let response: serde_json::Value =
        serde_json::from_str(&handle_line(line, &surroundings).unwrap()).unwrap();
    assert_eq!(text(&response), "test - run the tests\n");
}

#[test]
fn the_check_reports_the_status() {
    let line = "{\"jsonrpc\":\"2.0\",\"id\":8,\"method\":\"tools/call\",\"params\":{\"name\":\"angreal_check\"}}";
    let surroundings =
        Surroundings { run: project, marker_present: true, directory: Some("/p".to_string()) };
    let response: serde_json::Value =
        serde_json::from_str(&handle_line(line, &surroundings).unwrap()).unwrap();
    assert_eq!(response["id"], 8);
    assert_eq!(
        text(&response),
        "\u{2713} Angreal is installed: angreal 2.0.0\n\
         \u{2713} Found .angreal/ directory - this is an angreal project\n\
         \u{2713} Project is properly initialized with available commands\n  \
         Use 'angreal_tree' tool to see available commands\n\
         \nCurrent directory: /p"
    );
    let surroundings = Surroundings { run: no_tool, marker_present: false, directory: None };
    let response: serde_json::Value =
        serde_json::from_str(&handle_line(line, &surroundings).unwrap()).unwrap();
    assert_eq!(
        text(&response),
        "\u{2717} Angreal is not installed or not available in PATH\n  \
         Install angreal first: pip install angreal\n\
         \u{2717} No .angreal/ directory found - this is not an angreal project"
    );
}

#[test]
fn the_steps_of_a_check_come_in_their_order() {
    let server = McpServer::new();
    let call = ToolCallParams { name: "angreal_check".to_string(), arguments: None };
    let after = match server.handle_tool_call(None, call) {
        Step::Run(argv, after) => {
            assert_eq!(argv, ["--version"]);
            assert_eq!(after, AfterRun::Version { id: None, purpose: Purpose::Check });
            after
        }
        other => panic!("{:?}", other),
    };
    let after = match server.resume_run(after, exited(0, "v1", "")) {
        Step::LookForMarker(after) => after,
        other => panic!("{:?}", other),
    };
    let after = match server.resume_marker(after, true) {
        Step::Run(argv, after) => {
            assert_eq!(argv, ["tree"]);
            after
        }
        other => panic!("{:?}", other),
    };
    let after = match server.resume_run(after, exited(0, "", "")) {
        Step::AskDirectory(after) => {
            assert!(after.marker_present);
            assert_eq!(after.listing, Some(exited(0, "", "")));
            after
        }
        other => panic!("{:?}", other),
    };
    assert!(matches!(server.resume_directory(after, None), Step::Reply(_)));
}

#[test]
fn the_listing_is_not_asked_for_without_the_tool_or_the_directory() {
    let server = McpServer::new();
    for (version, marker_present) in
        [(exited(0, "v1", ""), false), (exited(1, "", ""), true), (no_tool(&[]), true)]
    {
        let after = match server.resume_run(
            AfterRun::Version { id: None, purpose: Purpose::Initialize },
            version,
        ) {
            Step::LookForMarker(after) => after,
            other => panic!("{:?}", other),
        };
        match server.resume_marker(after, marker_present) {
            Step::AskDirectory(after) => {
                assert_eq!(after.marker_present, marker_present);
                assert_eq!(after.listing, None);
            }
            other => panic!("{:?}", other),
        }
    }
}

#[test]
fn initialize_in_a_project() {
    let surroundings =
        Surroundings { run: project, marker_present: true, directory: Some("/work/p".to_string()) };
    let line = "{\"jsonrpc\":\"2.0\",\"id\":1,\"method\":\"initialize\",\"params\":{\"protocolVersion\":\"1.0\",\"capabilities\":{\"tools\":{\"callTool\":true}}}}";
    let response: serde_json::Value =
        serde_json::from_str(&handle_line(line, &surroundings).unwrap()).unwrap();
    assert_eq!(response["jsonrpc"], "2.0");
    assert_eq!(response["id"], 1);
    assert!(response.get("error").is_none());
    let result = &response["result"];
    assert_eq!(result["protocolVersion"], "2024-11-05");
    assert_eq!(
        result["capabilities"],
        serde_json::from_str::<serde_json::Value>("{\"tools\":{\"list_changed\":false}}").unwrap()
    );
    let info = &result["serverInfo"];
    assert_eq!(info["name"], "angreal_mcp (\u{2713} Angreal Project)");
    assert_eq!(info["version"], "0.1.0");
    assert_eq!(
        info["description"],
        "MCP server for angreal project automation (2 commands available)"
    );
    let context = &info["context"];
    assert_eq!(context["currentDirectory"], "/work/p");
    assert_eq!(context["isAngrealProject"], true);
    assert_eq!(
        context["availableCommands"],
        serde_json::from_str::<serde_json::Value>(
            "[\"test [--fast] - Run the tests\",\"task deploy - Ship it\"]"
        )
        .unwrap()
    );
    assert_eq!(
        context["projectStatus"],
        "\u{2713} Angreal is installed: angreal 2.0.0\n\
         \u{2713} Found .angreal/ directory - this is an angreal project\n\
         \u{2713} Project is properly initialized with available commands\n  \
         Use 'angreal_tree' tool to see available commands\n\
         \nCurrent directory: /work/p"
    );
}

#[test]
fn initialize_outside_a_project() {
    let surroundings = Surroundings { run: not_a_project, marker_present: false, directory: None };
    let line = "{\"jsonrpc\":\"2.0\",\"id\":\"init\",\"method\":\"initialize\"}";
    let response: serde_json::Value =
        serde_json::from_str(&handle_line(line, &surroundings).unwrap()).unwrap();
    assert_eq!(response["id"], "init");
    let info = &response["result"]["serverInfo"];
    assert_eq!(info["name"], "angreal_mcp (\u{26a0} Not Angreal Project)");
    assert_eq!(info["description"], "MCP server for angreal project discovery and automation");
    assert_eq!(info["context"]["currentDirectory"], "unknown");
    assert_eq!(info["context"]["isAngrealProject"], false);
    assert_eq!(info["context"]["availableCommands"].as_array().unwrap().len(), 0);
    assert_eq!(
        info["context"]["projectStatus"],
        "\u{2713} Angreal is installed: angreal 2.0.0\n\
         \u{2717} No .angreal/ directory found - this is not an angreal project\n  \
         This directory is not an angreal project\n  \
         To create an angreal project: angreal init <template-url>"
    );
}

#[test]
fn initialize_never_fails() {
    fn garbage(argv: &[String]) -> ProcessOutcome {
        if argv == ["--version"] {
            exited(0, "v", "")
        } else {
            exited(0, "this is not json", "")
        }
    }
    for run in [no_tool as fn(&[String]) -> ProcessOutcome, garbage, not_a_project] {
        for marker_present in [false, true] {
            let surroundings = Surroundings { run, marker_present, directory: None };
            let line = "{\"jsonrpc\":\"2.0\",\"id\":1,\"method\":\"initialize\"}";
            let response: serde_json::Value =
                serde_json::from_str(&handle_line(line, &surroundings).unwrap()).unwrap();
            assert!(response.get("error").is_none());
            let context = &response["result"]["serverInfo"]["context"];
            assert_eq!(context["isAngrealProject"], marker_present);
            assert_eq!(context["availableCommands"].as_array().unwrap().len(), 0);
        }
    }
}

#[test]
fn two_initialize_calls_tell_the_same() {
    for marker_present in [false, true] {
        let surroundings =
            Surroundings { run: project, marker_present, directory: Some("/p".to_string()) };
        let first = handle_line("{\"jsonrpc\":\"2.0\",\"id\":1,\"method\":\"initialize\"}", &surroundings)
            .unwrap();
        let second = handle_line("{\"jsonrpc\":\"2.0\",\"id\":2,\"method\":\"initialize\"}", &surroundings)
            .unwrap();
        let first: serde_json::Value = serde_json::from_str(&first).unwrap();
        let second: serde_json::Value = serde_json::from_str(&second).unwrap();
        assert_eq!(first["result"], second["result"]);
        assert_eq!(
            first["result"]["serverInfo"]["context"]["isAngrealProject"],
            marker_present
        );
    }
}

#[test]
fn a_response_carries_a_result_or_an_error() {
    let surroundings =
        Surroundings { run: project, marker_present: true, directory: Some("/p".to_string()) };
    for line in [
        "nonsense",
        "{\"jsonrpc\":\"2.0\",\"id\":1,\"method\":\"initialize\"}",
        "{\"jsonrpc\":\"2.0\",\"id\":1,\"method\":\"tools/list\"}",
        "{\"jsonrpc\":\"2.0\",\"id\":1,\"method\":\"tools/call\"}",
        "{\"jsonrpc\":\"2.0\",\"id\":1,\"method\":\"tools/call\",\"params\":{\"name\":\"angreal_check\"}}",
        "{\"jsonrpc\":\"2.0\",\"id\":1,\"method\":\"tools/call\",\"params\":{\"name\":\"angreal_run\",\"arguments\":{\"command\":\"build\"}}}",
        "{\"jsonrpc\":\"2.0\",\"id\":1,\"method\":\"tools/call\",\"params\":{\"name\":\"angreal_run\",\"arguments\":{\"command\":\"test\",\"args\":[\"--fast\"]}}}",
        "{\"jsonrpc\":\"2.0\",\"id\":1,\"method\":\"elsewhere\"}",
    ] {
        let server = McpServer::new();
        let response = drive(&server, server.receive(line), &surroundings).unwrap();
        assert_ne!(response.result.is_some(), response.error.is_some(), "{}", line);
        assert_eq!(response.jsonrpc, "2.0");
        let written: serde_json::Value = serde_json::from_str(&response.to_line()).unwrap();
        assert_ne!(written.get("result").is_some(), written.get("error").is_some(), "{}", line);
    }
}

#[test]
fn requests_are_read_from_objects() {
    let j = parse_json("{\"jsonrpc\":\"2.0\",\"id\":null,\"method\":\"m\",\"params\":[1],\"more\":1}")
        .unwrap();
    let request = JsonRpcRequest::from_json(&j).unwrap();
    assert_eq!(request.jsonrpc, "2.0");
    assert_eq!(request.id, None);
    assert_eq!(request.method, "m");
    assert_eq!(request.params, Some(Json::Array(vec![Json::Number(serde_json::Number::from(1))])));
    assert_eq!(JsonRpcRequest::from_json(&Json::Array(vec![])), None);
    let call = ToolCallParams::from_json(&parse_json("{\"name\":\"t\",\"arguments\":{}}").unwrap())
        .unwrap();
    assert_eq!(call.name, "t");
    assert_eq!(call.arguments, Some(Json::object()));
    assert_eq!(ToolCallParams::from_json(&Json::Null), None);
}

#[test]
fn an_error_with_data_is_written_in_full() {
    let response = JsonRpcResponse::failure_with_details(
        Some(Json::text("a\"b")),
        -32603,
        "Internal error",
        "line one\nline two",
    );
    assert_eq!(
        response.to_line(),
        "{\"jsonrpc\":\"2.0\",\"id\":\"a\\\"b\",\"error\":{\"code\":-32603,\"message\":\"Internal error\",\"data\":{\"details\":\"line one\\nline two\"}}}"
    );
    let response = JsonRpcResponse::success(None, Json::object().with("ok", Json::Bool(true)));
    assert_eq!(response.to_line(), "{\"jsonrpc\":\"2.0\",\"id\":null,\"result\":{\"ok\":true}}");
}

#[test]
fn the_parts_of_a_line_are_framed_in_their_order() {
    assert_eq!(
        frame_error(-32602, "\"Invalid params\"", Some("{\"details\":\"x\"}")),
        "{\"code\":-32602,\"message\":\"Invalid params\",\"data\":{\"details\":\"x\"}}"
    );
    assert_eq!(frame_error(7, "\"m\"", None), "{\"code\":7,\"message\":\"m\"}");
    assert_eq!(
        frame_response("\"2.0\"", "1", Some("[]"), None),
        "{\"jsonrpc\":\"2.0\",\"id\":1,\"result\":[]}"
    );
    assert_eq!(
        frame_response("\"2.0\"", "null", None, Some("{}")),
        "{\"jsonrpc\":\"2.0\",\"id\":null,\"error\":{}}"
    );
}

#[test]
fn what_was_read_from_a_line_is_handled() {
    let server = McpServer::default();
    match server.handle_json(None) {
        Step::Reply(response) => {
            assert_eq!(response.id, None);
            assert_eq!(response.result, None);
            let error = response.error.unwrap();
            assert_eq!(error.code, -32700);
            assert_eq!(error.message, "Parse error");
            assert_eq!(error.data, None);
        }
        other => panic!("{:?}", other),
    }
    assert!(matches!(server.handle_json(Some(Json::Null)), Step::Reply(_)));
    let request = Json::object()
        .with("jsonrpc", Json::text("2.0"))
        .with("method", Json::text("initialize"))
        .with("id", Json::Bool(true));
    match server.handle_json(Some(request)) {
        Step::Run(argv, AfterRun::Version { id, purpose }) => {
            assert_eq!(argv, ["--version"]);
            assert_eq!(id, Some(Json::Bool(true)));
            assert_eq!(purpose, Purpose::Initialize);
        }
        other => panic!("{:?}", other),
    }
}

#[test]
fn an_unknown_method_is_not_found() {
    let line = "{\"jsonrpc\":\"2.0\",\"id\":4,\"method\":\"unknown/method\"}";
    let response: serde_json::Value =
        serde_json::from_str(&handle_request_string(line.to_string())).unwrap();
    assert_eq!(response["id"], 4);
    assert_eq!(response["error"]["code"], -32601);
    assert_eq!(response["error"]["message"], "Method not found");
    assert!(response["error"].get("data").is_none());
    assert!(response.get("result").is_none());
}

#[test]
fn a_tool_is_copied_whole() {
    let tool = Tool {
        name: "angreal_check".to_string(),
        description: "what it is for".to_string(),
        input_schema: Json::object()
            .with("type", Json::text("object"))
            .with("properties", Json::object()),
    };
    assert_eq!(tool.clone(), tool);
}
