use jumble::protocol::{
    needs_discovery, Reply, Request, ToolKind, INVALID_PARAMS, METHOD_NOT_FOUND,
};
use jumble::server::{Server, ToolArgs};

fn request(method: &str, tool: Option<&str>) -> Request {
    Request { method: method.to_string(), tool: tool.map(|t| t.to_string()), arguments: ToolArgs::none() }
}

fn server() -> Server {
    Server::new("/ws".to_string(), None, Vec::new())
}

#[test]
fn unknown_method_is_protocol_error() {
    match server().handle_request(&request("resources/list", None)) {
        Reply::Error(e) => {
            assert_eq!(e.code, METHOD_NOT_FOUND);
            assert_eq!(e.code, -32601);
            assert_eq!(e.message, "Method not found: resources/list");
        }
        other => panic!("unexpected reply {:?}", other),
    }
}

#[test]
fn missing_tool_name_is_invalid_params() {
    match server().handle_request(&request("tools/call", None)) {
        Reply::Error(e) => {
            assert_eq!(e.code, INVALID_PARAMS);
            assert_eq!(e.code, -32602);
            assert_eq!(e.message, "Missing 'name' parameter");
        }
        other => panic!("unexpected reply {:?}", other),
    }
}

#[test]
fn tool_failures_are_flagged_successes() {
    match server().handle_request(&request("tools/call", Some("frobnicate"))) {
        Reply::Tool(t) => {
            assert!(t.is_error);
            assert_eq!(t.text, "Error: Unknown tool: frobnicate");
        }
        other => panic!("unexpected reply {:?}", other),
    }
    match server().handle_request(&request("tools/call", Some("get_commands"))) {
        Reply::Tool(t) => {
            assert!(t.is_error);
            assert_eq!(t.text, "Error: Missing 'project' argument");
        }
        other => panic!("unexpected reply {:?}", other),
    }
    match server().handle_request(&request("tools/call", Some("list_projects"))) {
        Reply::Tool(t) => assert!(!t.is_error),
        other => panic!("unexpected reply {:?}", other),
    }
}

#[test]
fn session_calls() {
    match server().handle_request(&request("initialize", None)) {
        Reply::Initialize(info) => {
            assert_eq!(info.protocol_version, "2024-11-05");
            assert_eq!(info.name, "jumble");
        }
        other => panic!("unexpected reply {:?}", other),
    }
    assert!(matches!(server().handle_request(&request("initialized", None)), Reply::Empty));
    assert!(needs_discovery("tools/call"));
    assert!(!needs_discovery("tools/list"));
}

#[test]
fn catalog_matches_dispatch() {
    let tools = match server().handle_request(&request("tools/list", None)) {
        Reply::Tools(t) => t,
        other => panic!("unexpected reply {:?}", other),
    };
    assert_eq!(tools.len(), 11);
    for t in &tools {
        let kind = ToolKind::from_name(&t.name).expect("catalog name dispatches");
        assert_eq!(kind.name(), t.name);
    }
    let info = &tools[1];
    assert_eq!(info.name, "get_project_info");
    assert_eq!(info.required, vec!["project".to_string()]);
    assert_eq!(info.params[1].choices.len(), 5);
}

#[test]
fn get_prompt_asks_for_a_read() {
    match server().handle_request(&request("tools/call", Some("get_prompt"))) {
        Reply::Tool(t) => assert_eq!(t.text, "Error: Missing 'project' argument"),
        other => panic!("unexpected reply {:?}", other),
    }
}

#[test]
fn catalog_descriptions_are_fixed() {
    let tools = match server().handle_request(&request("tools/list", None)) {
        Reply::Tools(t) => t,
        other => panic!("unexpected reply {:?}", other),
    };
    assert_eq!(
        tools[4].description,
        "Finds files related to a concept or feature by searching through all defined concepts."
    );
    assert_eq!(tools[4].params[1].name, "query");
    assert_eq!(tools[4].params[1].description, "Search query to match against concept names and summaries");
    assert_eq!(tools[10].params[0].choices, vec!["conventions".to_string(), "gotchas".to_string()]);
    assert_eq!(tools[9].params.len(), 0);
}
