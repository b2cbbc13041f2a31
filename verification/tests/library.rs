use reverse_proxy::json::array;
use reverse_proxy::mcp::{
    acknowledgement, empty_result, initialize_result, list_changed_notification, method_not_found,
    read_message_payload, route, rpc_result, text_result, tool_entry, tools_list_result,
    unknown_tool, Route,
};
use reverse_proxy::message::{starts_with, copy_range, Message, Tool};
use reverse_proxy::openai::{text_reply, tool_call_reply};
use reverse_proxy::state::{PushOutcome, State};
use serde_json::Value;

fn parse(text: &str) -> Value {
    serde_json::from_str(text).unwrap()
}

fn message(json: &str) -> Message {
    let value = parse(json);
    Message::new(value.to_string(), value["content"].as_str().map(|c| c.to_string()))
}

fn user(content: &str) -> Message {
    message(&format!(r#"{{"role":"user","content":{}}}"#, Value::String(content.to_string())))
}

fn assistant(content: &str) -> Message {
    message(&format!(r#"{{"role":"assistant","content":{}}}"#, Value::String(content.to_string())))
}

fn dup(messages: &[Message]) -> Vec<Message> {
    messages.iter().map(|m| m.duplicate()).collect()
}

fn calculator() -> Tool {
    Tool::new(
        r#""add""#.to_string(),
        r#""Add two numbers""#.to_string(),
        r#"{"type":"object"}"#.to_string(),
    )
}

fn started_of(outcome: PushOutcome) -> Option<bool> {
    match outcome {
        PushOutcome::Queued { started } => started,
        PushOutcome::ToolResult { .. } => panic!("not a tool result"),
    }
}

fn tool_names(state: &State) -> Vec<String> {
    state
        .list_tools()
        .iter()
        .map(|t| parse(t)["name"].as_str().unwrap().to_string())
        .collect()
}

#[test]
fn unseen_messages_are_read_once() {
    let mut state = State::new();
    state.push(vec![user("Hi")], vec![], 1);
    assert!(state.read_message().is_some());
    assert!(state.read_message().is_none());
}

#[test]
fn nothing_to_read_when_idle() {
    let mut state = State::new();
    assert!(state.read_message().is_none());
}

#[test]
fn first_request_starts_a_new_conversation() {
    let mut state = State::new();
    assert_eq!(started_of(state.push(vec![user("Hi")], vec![], 1)), Some(true));
}

#[test]
fn request_waits_while_a_turn_is_active() {
    let mut state = State::new();
    state.push(vec![user("First")], vec![], 1);
    assert_eq!(started_of(state.push(vec![user("Second")], vec![], 2)), None);
}

#[test]
fn continuation_keeps_id_and_reads_only_new_messages() {
    let mut state = State::new();
    state.push(vec![user("Hello")], vec![], 1);
    let (first_id, _) = state.read_message().unwrap();
    let answer = state.write_message("Hi there");
    assert_eq!(answer.started, None);

    let history = vec![user("Hello"), assistant("Hi there"), user("How are you?")];
    assert_eq!(started_of(state.push(dup(&history), vec![], 2)), Some(false));
    let (second_id, delta) = state.read_message().unwrap();
    assert_eq!(second_id, first_id);
    let texts: Vec<String> = delta.iter().map(|m| m.json.clone()).collect();
    assert_eq!(texts, vec![history[1].json.clone(), history[2].json.clone()]);
}

#[test]
fn unrelated_request_gets_a_new_conversation_id() {
    let mut state = State::new();
    state.push(vec![user("First")], vec![], 1);
    let (first_id, _) = state.read_message().unwrap();
    state.write_message("reply");

    assert_eq!(started_of(state.push(vec![user("Other")], vec![], 2)), Some(true));
    let (second_id, delta) = state.read_message().unwrap();
    assert_ne!(first_id, second_id);
    assert_eq!(second_id.len(), 36);
    assert_eq!(delta.len(), 1);
}

#[test]
fn queued_continuation_starts_when_the_turn_ends() {
    let mut state = State::new();
    state.push(vec![user("A")], vec![], 1);
    state.push(vec![user("A"), assistant("B"), user("C")], vec![], 2);
    state.read_message();
    let answer = state.write_message("B");
    assert_eq!(answer.reply_to, 1);
    assert_eq!(answer.started, Some(false));
}

#[test]
fn finished_turn_leaves_no_tools() {
    let mut state = State::new();
    state.push(vec![user("Add 1 and 2")], vec![calculator()], 1);
    assert_eq!(tool_names(&state), vec!["read_message", "write_message", "add"]);
    state.write_message("3");
    assert_eq!(tool_names(&state), vec!["read_message", "write_message"]);
}

#[test]
fn next_turn_offers_only_its_own_tools() {
    let mut state = State::new();
    state.push(vec![user("Add 1 and 2")], vec![calculator()], 1);
    state.push(vec![user("Something else")], vec![], 2);
    state.write_message("3");
    assert_eq!(tool_names(&state), vec!["read_message", "write_message"]);
}

#[test]
fn tool_call_without_active_turn_is_unknown() {
    let mut state = State::new();
    assert!(!state.declares_tool("add"));
    assert!(state.call_tool("add", "{}", 5).is_none());
}

#[test]
fn undeclared_tool_is_unknown_and_changes_nothing() {
    let mut state = State::new();
    state.push(vec![user("Add")], vec![calculator()], 1);
    assert!(state.declares_tool("add"));
    assert!(!state.declares_tool("get_weather"));
    assert!(state.call_tool("get_weather", "{}", 2).is_none());
    assert!(state.can_write());
    assert_eq!(state.write_message("3").reply_to, 1);
}

#[test]
fn unknown_tool_is_answered_with_an_error() {
    let response = parse(&unknown_tool("3", "get_weather"));
    assert_eq!(response["id"], 3);
    assert_eq!(response["error"]["code"], -32602);
    assert_eq!(response["error"]["message"], "Unknown tool: get_weather");
}

#[test]
fn start_front_uses_the_given_id_for_a_new_conversation() {
    let mut state = State::new();
    state.push(vec![user("First")], vec![], 1);
    state.push(vec![user("Second")], vec![], 2);
    state.read_message();
    state.write_message("reply");
    let (id, _) = state.read_message().unwrap();
    assert_eq!(id.len(), 36);
    assert_eq!(state.start_front("unused".to_string()), None);
}

#[test]
fn waiting_tool_call_blocks_text_answers_and_tool_calls() {
    let mut state = State::new();
    state.push(vec![user("Add")], vec![calculator()], 1);
    assert!(state.can_write());
    let call = state.call_tool("add", r#"{"a":1}"#, 2).unwrap();
    assert_eq!(call.call_id.len(), 36);
    let response = parse(&call.reply);
    let tool_call = &response["choices"][0]["message"]["tool_calls"][0];
    assert_eq!(tool_call["id"], call.call_id.as_str());
    assert_eq!(tool_call["type"], "function");
    assert_eq!(tool_call["function"]["arguments"], r#"{"a":1}"#);
    assert_eq!(response["choices"][0]["message"]["content"], Value::Null);
    assert!(!state.can_write());
    assert!(state.declares_tool("add"));
}

#[test]
fn unrelated_request_during_tool_call_is_queued() {
    let mut state = State::new();
    state.push(vec![user("Add")], vec![calculator()], 1);
    state.read_message();
    state.call_tool("add", "{}", 2).unwrap();
    assert_eq!(started_of(state.push(vec![user("Other")], vec![], 3)), None);
}

#[test]
fn tool_result_without_content_is_empty() {
    let mut state = State::new();
    state.push(vec![user("Add")], vec![calculator()], 1);
    state.read_message();
    state.call_tool("add", "{}", 2).unwrap();
    let history = vec![user("Add"), message(r#"{"role":"tool","content":[1,2]}"#)];
    match state.push(history, vec![], 3) {
        PushOutcome::ToolResult { waiter, content } => {
            assert_eq!(waiter, 2);
            assert_eq!(content, "");
        }
        PushOutcome::Queued { .. } => panic!("the tool result was queued"),
    }
}

#[test]
fn empty_tool_result_request_gives_an_empty_result() {
    let mut state = State::new();
    state.push(vec![user("Add")], vec![calculator()], 1);
    state.call_tool("add", "{}", 2).unwrap();
    match state.push(vec![], vec![], 3) {
        PushOutcome::ToolResult { waiter, content } => {
            assert_eq!(waiter, 2);
            assert_eq!(content, "");
        }
        PushOutcome::Queued { .. } => panic!("the tool result was queued"),
    }
    assert!(state.read_message().is_none());
}

#[test]
fn tool_result_without_new_messages_is_not_read_again() {
    let mut state = State::new();
    state.push(vec![user("Add")], vec![calculator()], 1);
    state.read_message();
    state.call_tool("add", "{}", 2).unwrap();
    match state.push(vec![user("Add")], vec![], 3) {
        PushOutcome::ToolResult { content, .. } => assert_eq!(content, "Add"),
        PushOutcome::Queued { .. } => panic!("the tool result was queued"),
    }
    assert!(state.read_message().is_none());
}

#[test]
fn text_reply_escapes_its_content() {
    let content = "He said \"hi\"\\\n\tbye";
    let reply = parse(&text_reply(content));
    assert_eq!(reply["choices"][0]["message"]["content"], content);
}

#[test]
fn tool_call_reply_has_openai_shape() {
    let reply = parse(&tool_call_reply("call-1", "get_weather", r#"{"location":"Paris"}"#));
    let expected = parse(
        r#"{"choices":[{"finish_reason":"tool_calls","message":{"content":null,"role":"assistant","tool_calls":[{"function":{"arguments":"{\"location\":\"Paris\"}","name":"get_weather"},"id":"call-1","type":"function"}]}}]}"#,
    );
    assert_eq!(reply, expected);
}

#[test]
fn routes_follow_method_and_tool_name() {
    assert_eq!(route(true, "initialize", ""), Route::Initialize);
    assert_eq!(route(true, "ping", ""), Route::Ping);
    assert_eq!(route(true, "tools/list", ""), Route::ListTools);
    assert_eq!(route(true, "tools/call", "read_message"), Route::ReadMessage);
    assert_eq!(route(true, "tools/call", "write_message"), Route::WriteMessage);
    assert_eq!(route(true, "tools/call", "get_weather"), Route::CallTool);
    assert_eq!(route(true, "tools/call", ""), Route::CallTool);
    assert_eq!(route(true, "resources/list", "read_message"), Route::MethodNotFound);
}

#[test]
fn message_without_id_is_a_notification() {
    assert_eq!(route(false, "notifications/initialized", ""), Route::Notification);
    assert_eq!(route(false, "tools/list", ""), Route::Notification);
}

#[test]
fn ping_is_answered_with_an_empty_result() {
    let response = parse(&rpc_result("\"p1\"", &empty_result()));
    assert_eq!(response, parse(r#"{"jsonrpc":"2.0","id":"p1","result":{}}"#));
}

#[test]
fn initialize_reports_protocol_and_server() {
    let result = parse(&initialize_result());
    assert_eq!(result["protocolVersion"], "2025-11-25");
    assert_eq!(result["serverInfo"]["name"], "reverse-proxy");
    assert_eq!(result["serverInfo"]["version"], "0.1.0");
    assert_eq!(result["capabilities"]["tools"]["listChanged"], true);
}

#[test]
fn unknown_method_is_answered_with_an_error() {
    let response = parse(&method_not_found("7"));
    assert_eq!(response["id"], 7);
    assert_eq!(response["jsonrpc"], "2.0");
    assert_eq!(response["error"]["code"], -32601);
    assert_eq!(response["error"]["message"], "Method not found");
}

#[test]
fn result_is_wrapped_in_json_rpc() {
    let response = parse(&rpc_result("\"abc\"", &acknowledgement()));
    assert_eq!(response["id"], "abc");
    assert_eq!(response["jsonrpc"], "2.0");
    assert_eq!(response["result"]["content"][0]["type"], "text");
    assert_eq!(response["result"]["content"][0]["text"], "ok");
}

#[test]
fn tool_text_result_escapes_its_text() {
    let text = "line one\nline \"two\"";
    let result = parse(&text_result(text));
    assert_eq!(result["content"][0]["text"], text);
}

#[test]
fn list_changed_notification_names_the_method() {
    let notification = parse(&list_changed_notification());
    assert_eq!(notification["method"], "notifications/tools/list_changed");
    assert!(notification["params"].is_object());
}

#[test]
fn tool_entry_mirrors_the_function() {
    let entry = parse(&tool_entry(&calculator()));
    assert_eq!(entry["name"], "add");
    assert_eq!(entry["description"], "Add two numbers");
    assert_eq!(entry["inputSchema"], parse(r#"{"type":"object"}"#));
}

#[test]
fn tool_without_parameters_gets_an_object_schema() {
    let entry = parse(&tool_entry(&Tool::new(r#""x""#.to_string(), "null".to_string(), "null".to_string())));
    assert_eq!(entry["inputSchema"], parse(r#"{"type":"object","properties":{}}"#));
    assert_eq!(entry["description"], Value::Null);
}

#[test]
fn tools_list_wraps_the_tools() {
    let listed = parse(&tools_list_result(&vec!["1".to_string(), "{}".to_string()]));
    assert_eq!(listed, parse(r#"{"tools":[1,{}]}"#));
}

#[test]
fn array_joins_items_with_commas() {
    assert_eq!(array(&vec![]), "[]");
    assert_eq!(array(&vec!["1".to_string(), "2".to_string(), "3".to_string()]), "[1,2,3]");
}

#[test]
fn read_payload_lists_messages_in_order() {
    let payload = parse(&read_message_payload("c-1", &vec![user("a"), user("b")]));
    assert_eq!(payload["conversation_id"], "c-1");
    assert_eq!(payload["messages"][0]["content"], "a");
    assert_eq!(payload["messages"][1]["content"], "b");
}

#[test]
fn starts_with_compares_whole_messages() {
    let history = vec![user("a"), user("b")];
    assert!(starts_with(&history, &vec![user("a")]));
    assert!(starts_with(&history, &vec![]));
    assert!(!starts_with(&history, &vec![user("b")]));
    assert!(!starts_with(&vec![user("a")], &history));
}

#[test]
fn copy_range_takes_the_slice() {
    let history = vec![user("a"), user("b"), user("c")];
    let middle = copy_range(&history, 1, 3);
    assert_eq!(middle.len(), 2);
    assert_eq!(middle[0].json, history[1].json);
    assert_eq!(middle[1].content, Some("c".to_string()));
}

#[test]
fn messages_compare_as_json_values() {
    let negative_zero = vec![message(r#"{"role":"user","weight":-0.0}"#)];
    let positive_zero = vec![message(r#"{"role":"user","weight":0.0}"#)];
    assert_ne!(negative_zero[0].json, positive_zero[0].json);
    assert!(starts_with(&positive_zero, &negative_zero));
    let integer = vec![message(r#"{"role":"user","weight":1}"#)];
    let float = vec![message(r#"{"role":"user","weight":1.0}"#)];
    assert!(!starts_with(&integer, &float));
}

#[test]
fn continuation_is_detected_on_equal_values() {
    let mut state = State::new();
    state.push(vec![message(r#"{"role":"user","content":"a","weight":-0.0}"#)], vec![], 1);
    let (first_id, _) = state.read_message().unwrap();
    state.write_message("b");
    let history = vec![message(r#"{"role":"user","content":"a","weight":0.0}"#), user("c")];
    assert_eq!(started_of(state.push(history, vec![], 2)), Some(false));
    let (second_id, delta) = state.read_message().unwrap();
    assert_eq!(second_id, first_id);
    assert_eq!(delta.len(), 1);
    assert_eq!(delta[0].content, Some("c".to_string()));
}
