use rusqlite::Connection;
use serde_json::{Number, Value};
use tsk::catalogue::{get_tools, PropertyKind};
use tsk::json::{flag_arg, is_given, text_arg, text_arg_or_empty};
use tsk::mcp::{
    handle_request, parse_error, preparation, skips, JsonRpcError, JsonRpcRequest,
    JsonRpcResponse, Payload, INVALID_PARAMS, METHOD_NOT_FOUND, PARSE_ERROR,
};
use tsk::status::TaskStatus;
use tsk::store::{init_db, migrate_db};
use tsk::calls::{
    last_arg, read_call, validate_arguments, ArgumentError, Reading, ToolCall,
};
use tsk::tools::{
    handle_tool_call, handle_tool_with_db, run_tool, tool_preparation, unknown_tool, Preparation,
    Prepared, ToolReply, ToolResult, NOT_INITIALIZED_ERROR,
};

fn project() -> Connection {
    let conn = Connection::open_in_memory().unwrap();
    init_db(&conn).unwrap();
    migrate_db(&conn).unwrap();
    conn
}

fn text(value: &str) -> Value {
    Value::String(value.to_string())
}

fn bundle(members: Vec<(&str, Value)>) -> Value {
    let mut map = serde_json::Map::new();
    for (key, value) in members {
        map.insert(key.to_string(), value);
    }
    Value::Object(map)
}

fn request(id: Option<Value>, method: &str, params: Value) -> JsonRpcRequest {
    JsonRpcRequest { jsonrpc: "2.0".to_string(), id, method: method.to_string(), params }
}

fn call(name: &str, args: Value) -> Value {
    bundle(vec![("name", text(name)), ("arguments", args)])
}

fn created(reply: ToolReply) -> String {
    match reply {
        ToolReply::Created { id } => id,
        other => panic!("no creation: {:?}", other),
    }
}

fn failure(message: &str) -> ToolReply {
    ToolReply::Failed { message: message.to_string() }
}

fn run(conn: &Connection, name: &str, args: &Value) -> ToolReply {
    handle_tool_with_db(conn, name, args).unwrap()
}

fn unknown(name: &str) -> JsonRpcError {
    JsonRpcError { code: -32602, message: format!("Unknown tool: {}", name) }
}

#[test]
fn arguments_are_read_by_key_and_type() {
    let args = bundle(vec![
        ("title", text("Fix bug")),
        ("all", Value::Bool(true)),
        ("inprogress", text("true")),
        ("last", Value::Number(Number::from(3u64))),
        ("count", Value::Number(Number::from(-3i64))),
    ]);
    assert_eq!(text_arg(&args, "title"), Some("Fix bug"));
    assert_eq!(text_arg(&args, "all"), None);
    assert_eq!(text_arg(&args, "absent"), None);
    assert_eq!(text_arg_or_empty(&args, "title"), "Fix bug");
    assert_eq!(text_arg_or_empty(&args, "absent"), "");
    assert!(flag_arg(&args, "all"));
    assert!(!flag_arg(&args, "inprogress"));
    assert!(!flag_arg(&args, "absent"));
    assert_eq!(last_arg(&args), Some(3));
    assert_eq!(last_arg(&bundle(vec![("last", text("3"))])), None);
    assert_eq!(last_arg(&bundle(vec![("last", Value::Number(Number::from(-3i64)))])), None);
    assert_eq!(last_arg(&Value::Null), None);
    assert_eq!(text_arg(&Value::Null, "title"), None);
    assert_eq!(text_arg(&text("title"), "title"), None);
    assert!(is_given(&args, "title"));
    assert!(is_given(&args, "count"));
    assert!(!is_given(&args, "absent"));
    assert!(!is_given(&bundle(vec![("title", Value::Null)]), "title"));
    assert!(!is_given(&Value::Null, "title"));
}

#[test]
fn the_catalogue_lists_every_tool() {
    let tools = get_tools();
    let names: Vec<&str> = tools.iter().map(|tool| tool.name.as_str()).collect();
    assert_eq!(
        names,
        vec![
            "init",
            "create",
            "list",
            "show",
            "update",
            "start",
            "done",
            "remove",
            "memory_create",
            "memory_list",
            "memory_show",
            "memory_search",
            "memory_remove",
        ]
    );
    let create = &tools[1];
    assert_eq!(create.description, "Create a new task");
    let properties: Vec<&str> =
        create.input_schema.properties.iter().map(|p| p.name.as_str()).collect();
    assert_eq!(properties, vec!["title", "description", "parent", "depend"]);
    assert_eq!(create.input_schema.required, vec!["title", "description"]);
    assert!(tools[0].input_schema.properties.is_empty());
    assert!(tools[0].input_schema.required.is_empty());
    assert_eq!(tools[2].input_schema.properties[0].kind, PropertyKind::Flag);
    assert_eq!(tools[2].input_schema.properties[2].kind, PropertyKind::Text);
    assert!(tools[2].input_schema.required.is_empty());
    assert_eq!(tools[9].input_schema.properties[1].name, "last");
    assert_eq!(tools[9].input_schema.properties[1].kind, PropertyKind::Count);
    assert_eq!(tools[9].input_schema.properties[1].description, "Show only last N entries");
    assert_eq!(tools[10].input_schema.properties[0].description, "Memory ID (6 characters)");
    assert_eq!(tools[3].input_schema.properties[0].description, "Task ID (6 characters)");
    assert_eq!(PropertyKind::Text.as_str(), "string");
    assert_eq!(PropertyKind::Flag.as_str(), "boolean");
    assert_eq!(PropertyKind::Count.as_str(), "integer");
}

#[test]
fn every_argument_name_is_a_stable_field() {
    let stable = [
        "title",
        "description",
        "parent",
        "depend",
        "id",
        "inprogress",
        "all",
        "tag",
        "last",
        "content",
        "tags",
        "query",
    ];
    for tool in get_tools() {
        for property in &tool.input_schema.properties {
            assert!(stable.contains(&property.name.as_str()));
        }
        for name in &tool.input_schema.required {
            assert!(tool.input_schema.properties.iter().any(|p| &p.name == name));
        }
    }
}

#[test]
fn every_listed_tool_is_dispatched() {
    let conn = project();
    for tool in get_tools() {
        if tool.name == "init" {
            continue;
        }
        assert!(handle_tool_with_db(&conn, &tool.name, &Value::Null).is_ok());
    }
    assert_eq!(handle_tool_with_db(&conn, "init", &Value::Null), Err(unknown("init")));
    assert_eq!(handle_tool_with_db(&conn, "drop", &Value::Null), Err(unknown("drop")));
    assert_eq!(handle_tool_with_db(&conn, "Create", &Value::Null), Err(unknown("Create")));
    assert_eq!(handle_tool_with_db(&conn, "", &Value::Null), Err(unknown("")));
    assert_eq!(unknown_tool("drop"), unknown("drop"));
    assert_eq!(INVALID_PARAMS, -32602);
}

#[test]
fn tools_work_on_the_store() {
    let conn = project();
    let first = created(run(
        &conn,
        "create",
        &bundle(vec![("title", text("A")), ("description", text("desc"))]),
    ));
    let second = created(run(
        &conn,
        "create",
        &bundle(vec![
            ("title", text("B")),
            ("description", text("desc2")),
            ("depend", text(&first)),
            ("parent", text(&first)),
        ]),
    ));
    let id_of = |id: &str| bundle(vec![("id", text(id))]);

    assert_eq!(
        run(&conn, "done", &id_of(&second)),
        failure(&format!("Cannot complete: depends on '{}' which is not done.", first))
    );
    assert_eq!(
        run(&conn, "start", &id_of(&first)),
        ToolReply::Changed { id: first.clone() }
    );
    assert_eq!(
        run(&conn, "start", &id_of(&first)),
        failure(&format!("Task '{}' is already in progress.", first))
    );
    match run(&conn, "list", &bundle(vec![("inprogress", Value::Bool(true))])) {
        ToolReply::Tasks(entries) => {
            assert_eq!(entries.len(), 1);
            assert_eq!(entries[0].id, first);
            assert_eq!(entries[0].status, TaskStatus::InProgress);
        }
        other => panic!("no listing: {:?}", other),
    }
    match run(&conn, "list", &bundle(vec![("parent", text(&first))])) {
        ToolReply::Tasks(entries) => {
            assert_eq!(entries.len(), 1);
            assert_eq!(entries[0].id, second);
        }
        other => panic!("no listing: {:?}", other),
    }
    match run(&conn, "list", &bundle(vec![("all", Value::Bool(true))])) {
        ToolReply::Tasks(entries) => assert_eq!(entries.len(), 2),
        other => panic!("no listing: {:?}", other),
    }
    assert_eq!(
        run(
            &conn,
            "update",
            &bundle(vec![("id", text(&second)), ("description", text("new"))]),
        ),
        ToolReply::Changed { id: second.clone() }
    );
    match run(&conn, "show", &id_of(&second)) {
        ToolReply::TaskDetails(task) => {
            assert_eq!(task.id, second);
            assert_eq!(task.title, "B");
            assert_eq!(task.description, "new");
            assert_eq!(task.depend_id, Some(first.clone()));
        }
        other => panic!("no task: {:?}", other),
    }
    assert_eq!(
        run(&conn, "remove", &id_of(&first)),
        failure(&format!("Cannot remove: 1 active task(s) depend on '{}'.", first))
    );
    assert_eq!(
        run(&conn, "done", &id_of(&first)),
        ToolReply::Changed { id: first.clone() }
    );
    assert_eq!(
        run(&conn, "remove", &id_of(&second)),
        ToolReply::Changed { id: second }
    );
    assert_eq!(
        run(&conn, "remove", &id_of(&first)),
        ToolReply::Changed { id: first.clone() }
    );
    assert_eq!(
        run(&conn, "show", &id_of(&first)),
        failure(&format!("Task '{}' not found.", first))
    );
}

#[test]
fn memory_tools_work_on_the_store() {
    let conn = project();
    let one = created(run(
        &conn,
        "memory_create",
        &bundle(vec![("content", text("x")), ("tags", text("a,b"))]),
    ));
    let two = created(run(
        &conn,
        "memory_create",
        &bundle(vec![("content", text("y"))]),
    ));
    let listed = |args: Value| match run(&conn, "memory_list", &args) {
        ToolReply::Memories(entries) => {
            entries.into_iter().map(|m| m.id).collect::<Vec<String>>()
        }
        other => panic!("no listing: {:?}", other),
    };
    assert_eq!(listed(Value::Null), vec![two.clone(), one.clone()]);
    assert_eq!(listed(bundle(vec![("tag", text("a"))])), vec![one.clone()]);
    assert_eq!(listed(bundle(vec![("tag", text("z"))])), Vec::<String>::new());
    assert_eq!(
        listed(bundle(vec![("last", Value::Number(Number::from(1u64)))])),
        vec![two.clone()]
    );
    match run(&conn, "memory_search", &bundle(vec![("query", text("x"))])) {
        ToolReply::Memories(entries) => {
            assert_eq!(entries.len(), 1);
            assert_eq!(entries[0].id, one);
            assert_eq!(entries[0].tags, Some("a,b".to_string()));
        }
        other => panic!("no search: {:?}", other),
    }
    match run(&conn, "memory_show", &bundle(vec![("id", text(&two))])) {
        ToolReply::MemoryDetails(note) => assert_eq!(note.content, "y"),
        other => panic!("no note: {:?}", other),
    }
    assert_eq!(
        run(&conn, "memory_remove", &bundle(vec![("id", text(&one))])),
        ToolReply::Changed { id: one.clone() }
    );
    assert_eq!(
        run(&conn, "memory_show", &bundle(vec![("id", text(&one))])),
        failure(&format!("Memory '{}' not found.", one))
    );
}

#[test]
fn a_missing_required_argument_is_a_tool_failure() {
    let conn = project();
    for name in ["show", "update", "start", "done", "remove", "memory_show", "memory_remove"] {
        assert_eq!(run(&conn, name, &Value::Null), failure("Missing required parameter: id"));
        assert_eq!(
            run(&conn, name, &bundle(vec![("id", Value::Null)])),
            failure("Missing required parameter: id")
        );
    }
    assert_eq!(
        run(&conn, "memory_search", &Value::Null),
        failure("Missing required parameter: query")
    );
    assert_eq!(run(&conn, "create", &Value::Null), failure("Missing required parameter: title"));
    assert_eq!(
        run(&conn, "create", &bundle(vec![("title", text("A"))])),
        failure("Missing required parameter: description")
    );
    assert_eq!(
        run(&conn, "update", &bundle(vec![("id", text("aaaaaa"))])),
        failure("Missing required parameter: description")
    );
    assert_eq!(
        run(&conn, "memory_create", &bundle(vec![("tags", text("a"))])),
        failure("Missing required parameter: content")
    );
    assert_eq!(
        run(&conn, "show", &bundle(vec![("id", text("BAD"))])),
        failure("Invalid task ID 'BAD'. Must be 6 characters [a-z0-9].")
    );
}

#[test]
fn an_argument_of_the_wrong_type_is_a_tool_failure() {
    let conn = project();
    assert_eq!(
        run(&conn, "show", &bundle(vec![("id", Value::Bool(true))])),
        failure("Invalid parameter: id (expected string)")
    );
    assert_eq!(
        run(&conn, "list", &bundle(vec![("all", text("yes"))])),
        failure("Invalid parameter: all (expected boolean)")
    );
    assert_eq!(
        run(&conn, "list", &bundle(vec![("parent", Value::Number(Number::from(7u64)))])),
        failure("Invalid parameter: parent (expected string)")
    );
    assert_eq!(
        run(&conn, "memory_list", &bundle(vec![("last", text("3"))])),
        failure("Invalid parameter: last (expected integer)")
    );
    assert_eq!(
        run(&conn, "memory_list", &bundle(vec![("last", Value::Number(Number::from(-3i64)))])),
        failure("Invalid parameter: last (expected integer)")
    );
    assert_eq!(
        run(
            &conn,
            "create",
            &bundle(vec![
                ("description", Value::Bool(false)),
                ("title", Value::Number(Number::from(1u64))),
            ]),
        ),
        failure("Invalid parameter: title (expected string)")
    );
    assert_eq!(
        run(
            &conn,
            "create",
            &bundle(vec![("depend", Value::Bool(false)), ("description", text("d"))]),
        ),
        failure("Missing required parameter: title")
    );
    assert_eq!(
        run(&conn, "list", &bundle(vec![("unknown", Value::Bool(false))])),
        ToolReply::Tasks(Vec::new())
    );
}

#[test]
fn a_refused_call_changes_nothing() {
    let conn = project();
    assert!(run(&conn, "create", &bundle(vec![("title", text("A"))])).is_failure());
    assert!(run(
        &conn,
        "memory_create",
        &bundle(vec![("content", text("x")), ("tags", Value::Bool(true))])
    )
    .is_failure());
    assert_eq!(
        run(&conn, "list", &bundle(vec![("all", Value::Bool(true))])),
        ToolReply::Tasks(Vec::new())
    );
    assert_eq!(run(&conn, "memory_list", &Value::Null), ToolReply::Memories(Vec::new()));
}

#[test]
fn calls_are_read_into_typed_records() {
    assert_eq!(
        read_call(
            "create",
            &bundle(vec![
                ("title", text("A")),
                ("description", text("d")),
                ("depend", text("aaaaaa")),
            ]),
        ),
        Reading::Call(ToolCall::Create {
            title: "A".to_string(),
            description: "d".to_string(),
            parent: None,
            depend: Some("aaaaaa".to_string()),
        })
    );
    assert_eq!(
        read_call("list", &bundle(vec![("inprogress", Value::Bool(true))])),
        Reading::Call(ToolCall::List { inprogress: true, all: false, parent: None })
    );
    assert_eq!(
        read_call("list", &Value::Null),
        Reading::Call(ToolCall::List { inprogress: false, all: false, parent: None })
    );
    assert_eq!(
        read_call("update", &bundle(vec![("id", text("x")), ("description", text(""))])),
        Reading::Call(ToolCall::Update { id: "x".to_string(), description: String::new() })
    );
    for (name, call) in [
        ("show", ToolCall::Show { id: "a1b2c3".to_string() }),
        ("start", ToolCall::Start { id: "a1b2c3".to_string() }),
        ("done", ToolCall::Done { id: "a1b2c3".to_string() }),
        ("remove", ToolCall::Remove { id: "a1b2c3".to_string() }),
        ("memory_show", ToolCall::MemoryShow { id: "a1b2c3".to_string() }),
        ("memory_remove", ToolCall::MemoryRemove { id: "a1b2c3".to_string() }),
    ] {
        assert_eq!(read_call(name, &bundle(vec![("id", text("a1b2c3"))])), Reading::Call(call));
    }
    assert_eq!(
        read_call("memory_create", &bundle(vec![("content", text("x")), ("tags", text("a,b"))])),
        Reading::Call(ToolCall::MemoryCreate {
            content: "x".to_string(),
            tags: Some("a,b".to_string()),
        })
    );
    assert_eq!(
        read_call(
            "memory_list",
            &bundle(vec![("tag", text("a")), ("last", Value::Number(Number::from(2u64)))]),
        ),
        Reading::Call(ToolCall::MemoryList { tag: Some("a".to_string()), last: Some(2) })
    );
    assert_eq!(
        read_call("memory_search", &bundle(vec![("query", text("JWT"))])),
        Reading::Call(ToolCall::MemorySearch { query: "JWT".to_string() })
    );
    assert_eq!(read_call("init", &Value::Null), Reading::UnknownTool);
    assert_eq!(read_call("drop", &Value::Null), Reading::UnknownTool);
    assert_eq!(
        read_call("show", &Value::Null),
        Reading::Refused(ArgumentError::Missing { parameter: "id".to_string() })
    );
    assert_eq!(
        read_call("list", &bundle(vec![("all", text("yes"))])),
        Reading::Refused(ArgumentError::Invalid {
            parameter: "all".to_string(),
            expected: PropertyKind::Flag,
        })
    );
}

#[test]
fn arguments_are_held_against_the_declared_schema() {
    let tools = get_tools();
    for tool in &tools {
        let mut members: Vec<(&str, Value)> = Vec::new();
        for property in &tool.input_schema.properties {
            let value = match property.kind {
                PropertyKind::Text => text("a1b2c3"),
                PropertyKind::Flag => Value::Bool(true),
                PropertyKind::Count => Value::Number(Number::from(1u64)),
            };
            members.push((property.name.as_str(), value));
        }
        assert_eq!(validate_arguments(tool, &bundle(members)), Ok(()));
        let missing = validate_arguments(tool, &Value::Null);
        match tool.input_schema.required.first() {
            Some(name) => {
                assert_eq!(missing, Err(ArgumentError::Missing { parameter: name.clone() }))
            }
            None => assert_eq!(missing, Ok(())),
        }
    }
    assert_eq!(
        ArgumentError::Missing { parameter: "id".to_string() }.message(),
        "Missing required parameter: id"
    );
    assert_eq!(
        ArgumentError::Invalid { parameter: "last".to_string(), expected: PropertyKind::Count }
            .message(),
        "Invalid parameter: last (expected integer)"
    );
}

#[test]
fn typed_calls_run_on_the_store() {
    let conn = project();
    let made = run_tool(
        &conn,
        &ToolCall::Create {
            title: "A".to_string(),
            description: "d".to_string(),
            parent: None,
            depend: None,
        },
    );
    let id = created(made);
    assert_eq!(
        run_tool(&conn, &ToolCall::Start { id: id.clone() }),
        ToolReply::Changed { id: id.clone() }
    );
    assert_eq!(
        run_tool(&conn, &ToolCall::Show { id: "BAD".to_string() }),
        failure("Invalid task ID 'BAD'. Must be 6 characters [a-z0-9].")
    );
    match run_tool(&conn, &ToolCall::List { inprogress: true, all: false, parent: None }) {
        ToolReply::Tasks(entries) => assert_eq!(entries.len(), 1),
        other => panic!("no listing: {:?}", other),
    }
}

#[test]
fn a_tool_call_follows_its_preparation() {
    let conn = project();
    assert_eq!(tool_preparation("init"), Preparation::InitProject);
    assert_eq!(tool_preparation("list"), Preparation::OpenStore);
    assert_eq!(tool_preparation("drop"), Preparation::OpenStore);
    assert_eq!(
        handle_tool_call(
            "init",
            &Value::Null,
            Prepared::Initialized { path: "/p/.tsk/tsk.sqlite".to_string() },
        ),
        Ok(ToolReply::Initialized { path: "/p/.tsk/tsk.sqlite".to_string() })
    );
    assert_eq!(
        handle_tool_call(
            "init",
            &Value::Null,
            Prepared::InitFailed { message: "Failed to create .tsk directory".to_string() },
        ),
        Ok(failure("Failed to create .tsk directory"))
    );
    assert_eq!(
        handle_tool_call("init", &Value::Null, Prepared::Store(&conn)),
        Ok(failure(NOT_INITIALIZED_ERROR))
    );
    assert_eq!(
        handle_tool_call("list", &Value::Null, Prepared::NoStore),
        Ok(failure(
            "Project not initialized. Run 'tsk init' in terminal or use the 'init' tool."
        ))
    );
    assert_eq!(
        handle_tool_call("drop", &Value::Null, Prepared::NoStore),
        Ok(failure(NOT_INITIALIZED_ERROR))
    );
    assert_eq!(
        handle_tool_call("list", &Value::Null, Prepared::Nothing),
        Ok(failure(NOT_INITIALIZED_ERROR))
    );
    assert_eq!(
        handle_tool_call(
            "list",
            &Value::Null,
            Prepared::StoreFailed { message: "file is not a database".to_string() },
        ),
        Ok(failure("Database error: file is not a database"))
    );
    assert_eq!(
        handle_tool_call("list", &Value::Null, Prepared::Store(&conn)),
        Ok(ToolReply::Tasks(Vec::new()))
    );
    assert_eq!(
        handle_tool_call("drop", &Value::Null, Prepared::Store(&conn)),
        Err(unknown("drop"))
    );
}

#[test]
fn requests_say_what_they_need() {
    assert_eq!(preparation(&request(None, "initialize", Value::Null)), Preparation::Nothing);
    assert_eq!(preparation(&request(None, "tools/list", Value::Null)), Preparation::Nothing);
    assert_eq!(preparation(&request(None, "nonsense", Value::Null)), Preparation::Nothing);
    assert_eq!(
        preparation(&request(None, "tools/call", call("init", Value::Null))),
        Preparation::InitProject
    );
    assert_eq!(
        preparation(&request(None, "tools/call", call("list", Value::Null))),
        Preparation::OpenStore
    );
    assert_eq!(
        preparation(&request(None, "tools/call", Value::Null)),
        Preparation::OpenStore
    );
}

#[test]
fn the_handshake_announces_the_server() {
    let id = Some(Value::Number(Number::from(1u64)));
    let response = handle_request(request(id.clone(), "initialize", Value::Null), Prepared::Nothing)
        .unwrap();
    assert_eq!(response.jsonrpc, "2.0");
    assert_eq!(response.id, id);
    assert_eq!(response.error, None);
    match response.result {
        Some(Payload::Initialize(info)) => {
            assert_eq!(info.protocol_version, "2024-11-05");
            assert_eq!(info.server_info.name, "tsk");
            assert_eq!(info.server_info.version, "0.1.0");
            assert!(!info.capabilities.tools.list_changed);
        }
        other => panic!("no handshake: {:?}", other),
    }
}

#[test]
fn the_acknowledgment_gets_no_answer() {
    let note = request(None, "notifications/initialized", Value::Null);
    assert_eq!(handle_request(note, Prepared::Nothing), None);
    let with_id = request(Some(text("7")), "notifications/initialized", Value::Null);
    assert_eq!(handle_request(with_id, Prepared::Nothing), None);
}

#[test]
fn the_listing_carries_the_catalogue() {
    let id = Some(text("abc"));
    let response =
        handle_request(request(id.clone(), "tools/list", Value::Null), Prepared::Nothing).unwrap();
    assert_eq!(response.id, id);
    assert_eq!(response.error, None);
    match response.result {
        Some(Payload::ToolsList(list)) => assert_eq!(list.tools, get_tools()),
        other => panic!("no listing: {:?}", other),
    }
}

#[test]
fn an_unknown_method_is_a_protocol_error() {
    let id = Some(Value::Number(Number::from(9u64)));
    let response =
        handle_request(request(id.clone(), "tools/drop", Value::Null), Prepared::Nothing).unwrap();
    assert_eq!(response.jsonrpc, "2.0");
    assert_eq!(response.id, id);
    assert_eq!(response.result, None);
    let error = response.error.unwrap();
    assert_eq!(error.code, -32601);
    assert_eq!(error.code, METHOD_NOT_FOUND);
    assert_eq!(error.message, "Method not found: tools/drop");
}

#[test]
fn a_store_failure_stays_inside_a_successful_response() {
    let conn = project();
    let id = Some(Value::Number(Number::from(2u64)));
    let show = request(
        id.clone(),
        "tools/call",
        call("show", bundle(vec![("id", text("zzzzzz"))])),
    );
    let response = handle_request(show, Prepared::Store(&conn)).unwrap();
    assert_eq!(response.id, id);
    assert_eq!(response.error, None);
    assert_eq!(
        response.result,
        Some(Payload::ToolCall(failure("Task 'zzzzzz' not found.")))
    );

    let nameless = request(id, "tools/call", Value::Null);
    let response = handle_request(nameless, Prepared::NoStore).unwrap();
    assert_eq!(response.error, None);
    assert_eq!(response.result, Some(Payload::ToolCall(failure(NOT_INITIALIZED_ERROR))));
}

#[test]
fn an_unknown_tool_is_a_protocol_error() {
    let conn = project();
    let id = Some(Value::Number(Number::from(4u64)));
    let drop = request(id.clone(), "tools/call", call("drop", Value::Null));
    let response = handle_request(drop, Prepared::Store(&conn)).unwrap();
    assert_eq!(response.jsonrpc, "2.0");
    assert_eq!(response.id, id);
    assert_eq!(response.result, None);
    assert_eq!(response.error, Some(unknown("drop")));

    let nameless = request(id.clone(), "tools/call", Value::Null);
    let response = handle_request(nameless, Prepared::Store(&conn)).unwrap();
    assert_eq!(response.result, None);
    assert_eq!(response.error, Some(unknown("")));
}

#[test]
fn an_invocation_runs_its_tool() {
    let conn = project();
    let create = request(
        Some(text("r1")),
        "tools/call",
        call("create", bundle(vec![("title", text("A")), ("description", text("d"))])),
    );
    let response = handle_request(create, Prepared::Store(&conn)).unwrap();
    assert_eq!(response.id, Some(text("r1")));
    let id = match response.result {
        Some(Payload::ToolCall(reply)) => created(reply),
        other => panic!("no call: {:?}", other),
    };
    let list = request(None, "tools/call", call("list", Value::Null));
    let response = handle_request(list, Prepared::Store(&conn)).unwrap();
    assert_eq!(response.id, None);
    match response.result {
        Some(Payload::ToolCall(ToolReply::Tasks(entries))) => {
            assert_eq!(entries.len(), 1);
            assert_eq!(entries[0].id, id);
            assert_eq!(entries[0].title, "A");
        }
        other => panic!("no listing: {:?}", other),
    }
}

#[test]
fn responses_carry_a_result_or_an_error() {
    let ok = JsonRpcResponse::success(Some(text("1")), Payload::ToolCall(failure("x")));
    assert_eq!(ok.jsonrpc, "2.0");
    assert_eq!(ok.id, Some(text("1")));
    assert!(ok.result.is_some());
    assert!(ok.error.is_none());
    let bad = JsonRpcResponse::error(None, -1, "broken".to_string());
    assert_eq!(bad.jsonrpc, "2.0");
    assert_eq!(bad.id, None);
    assert!(bad.result.is_none());
    let error = bad.error.unwrap();
    assert_eq!(error.code, -1);
    assert_eq!(error.message, "broken");
}

#[test]
fn a_malformed_line_is_a_parse_error() {
    let response = parse_error("expected value at line 1 column 1");
    assert_eq!(response.id, None);
    assert_eq!(response.result, None);
    let error = response.error.unwrap();
    assert_eq!(error.code, -32700);
    assert_eq!(error.code, PARSE_ERROR);
    assert_eq!(error.message, "Parse error: expected value at line 1 column 1");
}

#[test]
fn blank_lines_are_skipped() {
    assert!(skips(""));
    assert!(skips("   "));
    assert!(skips("\t\r"));
    assert!(!skips("{}"));
    assert!(!skips("  {\"jsonrpc\":\"2.0\"} "));
}

#[test]
fn tool_results_flag_failures() {
    let ok = ToolResult::text("done".to_string());
    assert_eq!(ok.content.len(), 1);
    assert_eq!(ok.content[0].content_type, "text");
    assert_eq!(ok.content[0].text, "done");
    assert_eq!(ok.is_error, None);
    let bad = ToolResult::error("Task 'aaaaaa' not found.".to_string());
    assert_eq!(bad.content.len(), 1);
    assert_eq!(bad.content[0].content_type, "text");
    assert_eq!(bad.content[0].text, "Task 'aaaaaa' not found.");
    assert_eq!(bad.is_error, Some(true));

    let failed = failure("Unknown tool: x");
    assert!(failed.is_failure());
    assert_eq!(
        failed.into_result("ignored".to_string()),
        ToolResult::error("Unknown tool: x".to_string())
    );
    let made = ToolReply::Created { id: "aaaaaa".to_string() };
    assert!(!made.is_failure());
    assert_eq!(
        made.into_result("{\n  \"id\": \"aaaaaa\"\n}".to_string()),
        ToolResult::text("{\n  \"id\": \"aaaaaa\"\n}".to_string())
    );
}
