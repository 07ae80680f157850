use affinity_mcp::action::{Action, ActionStatus};
use affinity_mcp::calls::{complete_call, parse_tool_call, CallError, ToolCall};
use affinity_mcp::json::Json;
use affinity_mcp::mcp::{handle_request, normalize_initialize, Step};

fn s(x: &str) -> Json {
    Json::Str(x.to_string())
}

fn obj(entries: Vec<(&str, Json)>) -> Json {
    Json::Object(entries.into_iter().map(|(k, v)| (k.to_string(), v)).collect())
}

fn text_at<'a>(j: &'a Json, key: &str) -> &'a str {
    match j.get(key) {
        Some(Json::Str(t)) => t.as_str(),
        other => panic!("{key} is not a string: {other:?}"),
    }
}

fn reply(step: Step) -> Json {
    match step {
        Step::Reply(j) => j,
        other => panic!("expected a reply, got {other:?}"),
    }
}

#[test]
fn initialize_answers_fixed_identity() {
    let params = obj(vec![
        ("protocolVersion", s("2024-11-05")),
        ("clientInfo", obj(vec![("name", s("client"))])),
    ]);
    let j = reply(handle_request("initialize", params, "affinity-mcp"));
    assert_eq!(text_at(&j, "protocolVersion"), "2024-11-05");
    let server = j.get("serverInfo").unwrap();
    assert_eq!(text_at(server, "name"), "affinity-mcp");
    assert_eq!(text_at(server, "version"), "0.1.0");
    let tools = j.get("capabilities").unwrap().get("tools").unwrap();
    assert!(matches!(tools.get("listChanged"), Some(Json::Bool(false))));
}

#[test]
fn initialize_either_spelling_same_reply() {
    let camel = obj(vec![
        ("protocolVersion", s("2024-11-05")),
        ("clientInfo", obj(vec![("name", s("c")), ("version", s("1"))])),
    ]);
    let snake = obj(vec![
        ("protocol_version", s("2024-11-05")),
        ("client_info", obj(vec![("name", s("c")), ("version", s("1"))])),
    ]);
    let a = reply(handle_request("initialize", camel, "srv"));
    let b = reply(handle_request("initialize", snake, "srv"));
    assert_eq!(format!("{a:?}"), format!("{b:?}"));
}

#[test]
fn client_info_either_spelling_same_identity() {
    let camel = obj(vec![
        ("protocolVersion", s("v")),
        ("clientInfo", obj(vec![("name", s("c")), ("version", s("1"))])),
    ]);
    let snake = obj(vec![
        ("protocol_version", s("v")),
        ("client_info", obj(vec![("name", s("c")), ("version", s("1"))])),
    ]);
    let a = normalize_initialize(camel).unwrap();
    let b = normalize_initialize(snake).unwrap();
    assert_eq!(a.protocol_version, "v");
    assert_eq!(b.protocol_version, "v");
    let (ca, cb) = (a.client_info.unwrap(), b.client_info.unwrap());
    assert_eq!(ca.name, "c");
    assert_eq!(cb.name, "c");
    assert_eq!(ca.version.as_deref(), Some("1"));
    assert_eq!(cb.version.as_deref(), Some("1"));
}

#[test]
fn initialize_without_version_is_invalid_params() {
    match handle_request("initialize", obj(vec![]), "srv") {
        Step::Fail(e) => {
            assert_eq!(e.code, -32602);
            assert_eq!(e.message, "missing protocolVersion");
        }
        other => panic!("expected an error, got {other:?}"),
    }
}

#[test]
fn initialize_with_numeric_version_is_invalid_params() {
    let params = obj(vec![("protocolVersion", Json::UInt(5))]);
    assert!(matches!(handle_request("initialize", params, "srv"), Step::Fail(e) if e.code == -32602));
}

#[test]
fn initialized_notification_is_silent() {
    assert!(matches!(handle_request("initialized", Json::Null, "srv"), Step::Silent));
}

#[test]
fn unknown_method_is_method_not_found() {
    assert!(matches!(handle_request("resources/list", Json::Null, "srv"), Step::Fail(e) if e.code == -32601));
}

#[test]
fn tools_list_is_the_catalog_in_order() {
    let j = reply(handle_request("tools/list", Json::Null, "srv"));
    let names: Vec<String> = match j.get("tools") {
        Some(Json::Array(items)) => items.iter().map(|t| text_at(t, "name").to_string()).collect(),
        other => panic!("no tools array: {other:?}"),
    };
    assert_eq!(
        names,
        vec![
            "affinity.open_file",
            "affinity.create_new",
            "affinity.export",
            "affinity.apply_filter",
            "affinity.get_active_document",
            "affinity.close_document",
            "affinity.batch_open_files",
            "affinity.batch_export",
            "affinity.draw_pikachu",
            "canva.create_design",
        ]
    );
    if let Some(Json::Array(items)) = j.get("tools") {
        for t in items {
            let schema = t.get("input_schema").unwrap();
            assert_eq!(text_at(schema, "type"), "object");
        }
    }
}

#[test]
fn tools_call_without_name_is_invalid_params() {
    match handle_request("tools/call", obj(vec![("arguments", obj(vec![]))]), "srv") {
        Step::Reject(cause) => {
            assert!(matches!(cause, CallError::MissingToolName));
            let e = cause.to_rpc();
            assert_eq!(e.code, -32602);
            assert_eq!(e.message, "missing tool name");
        }
        other => panic!("expected an error, got {other:?}"),
    }
}

#[test]
fn unknown_tool_then_valid_call() {
    let unknown = obj(vec![("name", s("affinity.fly")), ("arguments", obj(vec![]))]);
    match handle_request("tools/call", unknown, "srv") {
        Step::Reject(cause) => {
            let e = cause.to_rpc();
            assert_eq!(e.code, -32603);
            assert_eq!(e.message, "Internal error");
        }
        other => panic!("expected an error, got {other:?}"),
    }
    let valid = obj(vec![("name", s("affinity.close_document"))]);
    let call = match handle_request("tools/call", valid, "srv") {
        Step::Perform(c) => c,
        other => panic!("expected a call, got {other:?}"),
    };
    assert!(matches!(call.actions()[0], Action::CloseDocument));
    let j = complete_call(call, vec![ActionStatus::Done(String::new())]).unwrap();
    assert!(matches!(j.get("closed"), Some(Json::Bool(true))));
}

#[test]
fn unknown_tool_error_names_the_tool() {
    let p = obj(vec![("name", s("nope"))]);
    match parse_tool_call(&p) {
        Err(CallError::UnknownTool(n)) => assert_eq!(n, "nope"),
        other => panic!("unexpected {other:?}"),
    }
}

#[test]
fn malformed_arguments_are_an_internal_error() {
    let p = obj(vec![
        ("name", s("affinity.export")),
        ("arguments", obj(vec![("path", s("/o.png")), ("format", s("bmp"))])),
    ]);
    match parse_tool_call(&p) {
        Err(e) => {
            assert!(matches!(&e, CallError::InvalidArguments(n, m) if n == "affinity.export" && m == "format"));
            assert_eq!(e.to_rpc().code, -32603);
        }
        other => panic!("unexpected {other:?}"),
    }
}

#[test]
fn batch_open_with_one_failure() {
    let params = obj(vec![
        ("name", s("affinity.batch_open_files")),
        ("arguments", obj(vec![("paths", Json::Array(vec![s("a"), s("b")]))])),
    ]);
    let call = match handle_request("tools/call", params, "srv") {
        Step::Perform(c) => c,
        other => panic!("expected a call, got {other:?}"),
    };
    let actions = call.actions();
    assert_eq!(actions.len(), 2);
    match (&actions[0], &actions[1]) {
        (Action::Open { path: p0, .. }, Action::Open { path: p1, .. }) => {
            assert_eq!(p0, "a");
            assert_eq!(p1, "b");
        }
        other => panic!("unexpected actions {other:?}"),
    }
    let statuses = vec![
        ActionStatus::Done(String::new()),
        ActionStatus::Failed("target not reachable".to_string()),
    ];
    let j = complete_call(call, statuses).unwrap();
    assert!(matches!(j.get("success_count"), Some(Json::UInt(1))));
    assert!(matches!(j.get("failure_count"), Some(Json::UInt(1))));
    match j.get("results") {
        Some(Json::Array(items)) => {
            assert_eq!(items.len(), 2);
            assert!(matches!(items[0].get("opened"), Some(Json::Bool(true))));
            assert_eq!(text_at(&items[0], "path"), "a");
            assert!(matches!(items[1].get("opened"), Some(Json::Bool(false))));
            assert_eq!(text_at(&items[1], "path"), "b");
        }
        other => panic!("no results: {other:?}"),
    }
}

#[test]
fn report_count_mismatch_is_internal_error() {
    let call = ToolCall::CloseDocument;
    let r = complete_call(call, vec![]);
    assert_eq!(r.unwrap_err().code, -32603);
}

#[test]
fn create_design_reply_has_fresh_id() {
    let params = obj(vec![
        ("name", s("canva.create_design")),
        ("arguments", obj(vec![("title", s("Poster"))])),
    ]);
    let call = parse_tool_call(&params).unwrap();
    assert_eq!(call.actions().len(), 0);
    let j = complete_call(call, vec![]).unwrap();
    let id = text_at(&j, "design_id");
    assert_eq!(id.len(), 41);
    assert!(id.starts_with("demo-"));
    assert!(matches!(j.get("url"), Some(Json::Null)));
}

#[test]
fn active_document_reply() {
    let call = parse_tool_call(&obj(vec![("name", s("affinity.get_active_document"))])).unwrap();
    let j = complete_call(call, vec![ActionStatus::Done("Poster|/tmp/poster.afdesign".to_string())]).unwrap();
    assert!(matches!(j.get("is_open"), Some(Json::Bool(true))));
    assert_eq!(text_at(&j, "name"), "Poster");
    assert_eq!(text_at(&j, "path"), "/tmp/poster.afdesign");
    let call = parse_tool_call(&obj(vec![("name", s("affinity.get_active_document"))])).unwrap();
    let j = complete_call(call, vec![ActionStatus::Done("||".to_string())]).unwrap();
    assert!(matches!(j.get("is_open"), Some(Json::Bool(false))));
    assert!(matches!(j.get("name"), Some(Json::Null)));
}

#[test]
fn tool_schemas_declare_required_members() {
    let j = reply(handle_request("tools/list", Json::Null, "srv"));
    let items = match j.get("tools") {
        Some(Json::Array(items)) => items,
        other => panic!("no tools array: {other:?}"),
    };
    let required = |i: usize| -> Vec<String> {
        match items[i].get("input_schema").unwrap().get("required") {
            Some(Json::Array(r)) => r.iter().map(|x| match x {
                Json::Str(t) => t.clone(),
                other => panic!("not a string: {other:?}"),
            }).collect(),
            None => vec![],
            other => panic!("bad required list: {other:?}"),
        }
    };
    assert_eq!(required(0), vec!["path"]);
    assert_eq!(required(2), vec!["path", "format"]);
    assert_eq!(required(4), Vec::<String>::new());
    assert_eq!(required(9), vec!["title"]);
    let export_props = items[2].get("input_schema").unwrap().get("properties").unwrap();
    assert!(matches!(export_props.get("quality").unwrap().get("maximum"), Some(Json::UInt(100))));
}
