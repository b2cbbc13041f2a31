use reverse_proxy::mcp::{read_message_payload, tools_list_result};
use reverse_proxy::message::{Message, Tool};
use reverse_proxy::state::{PushOutcome, State};
use serde_json::Value;

fn parse(text: &str) -> Value {
    serde_json::from_str(text).unwrap()
}

fn message(json: &str) -> Message {
    let value = parse(json);
    Message::new(value.to_string(), value["content"].as_str().map(|c| c.to_string()))
}

fn messages(json: &str) -> Vec<Message> {
    parse(json).as_array().unwrap().iter().map(|m| message(&m.to_string())).collect()
}

fn tool(json: &str) -> Tool {
    let value = parse(json);
    let function = &value["function"];
    Tool::new(
        function["name"].to_string(),
        function["description"].to_string(),
        function["parameters"].to_string(),
    )
}

fn weather_tool() -> Tool {
    tool(r#"{"type":"function","function":{"name":"get_weather","description":"Get the current weather for a location","parameters":{"type":"object","properties":{"location":{"type":"string"}},"required":["location"]}}}"#)
}

fn read_payload(state: &mut State) -> Value {
    let (conversation_id, delta) = state.read_message().unwrap();
    parse(&read_message_payload(&conversation_id, &delta))
}

#[test]
fn simple_message_is_exposed_to_agent() {
    let mut state = State::new();
    let request = messages(r#"[{ "role": "user", "content": "What is the capital of France?" }]"#);
    state.push(request, vec![], 1);

    let read_result = read_payload(&mut state);
    let expected = parse(&format!(
        r#"{{"conversation_id": {}, "messages": [{{ "role": "user", "content": "What is the capital of France?" }}]}}"#,
        read_result["conversation_id"]
    ));
    assert_eq!(read_result, expected);

    let answer = state.write_message("Paris.");
    assert_eq!(answer.reply_to, 1);
}

#[test]
fn request_tools_appear_in_mcp_tool_list() {
    let mut state = State::new();
    state.push(messages(r#"[{ "role": "user", "content": "Weather?" }]"#), vec![weather_tool()], 1);

    let listed = parse(&tools_list_result(&state.list_tools()));
    let names: Vec<&str> = listed["tools"].as_array().unwrap().iter().map(|t| t["name"].as_str().unwrap()).collect();
    assert_eq!(names, vec!["read_message", "write_message", "get_weather"]);

    state.write_message("done");
}

#[test]
fn write_message_returns_openai_text_response() {
    let mut state = State::new();
    state.push(messages(r#"[{ "role": "user", "content": "Hi" }]"#), vec![], 7);

    state.read_message();
    let answer = state.write_message("Hello!");

    assert_eq!(answer.reply_to, 7);
    let response = parse(&answer.reply);
    assert_eq!(response["choices"][0]["message"]["role"], "assistant");
    assert_eq!(response["choices"][0]["message"]["content"], "Hello!");
    assert_eq!(response["choices"][0]["finish_reason"], "stop");
}

#[test]
fn tool_call_blocks_until_codebase_returns_result() {
    let mut state = State::new();
    state.push(messages(r#"[{ "role": "user", "content": "Weather in Paris?" }]"#), vec![weather_tool()], 1);
    state.read_message();

    let call = state.call_tool("get_weather", r#"{"location":"Paris"}"#, 2).unwrap();
    assert_eq!(call.reply_to, 1);
    let tool_call_response = parse(&call.reply);
    assert_eq!(tool_call_response["choices"][0]["finish_reason"], "tool_calls");
    assert_eq!(
        tool_call_response["choices"][0]["message"]["tool_calls"][0]["function"]["name"],
        "get_weather"
    );

    let history = format!(
        r#"[
            {{ "role": "user",      "content": "Weather in Paris?" }},
            {{ "role": "assistant", "tool_calls": {} }},
            {{ "role": "tool",      "content": "Sunny, 22°C", "tool_call_id": "1" }}
        ]"#,
        tool_call_response["choices"][0]["message"]["tool_calls"]
    );
    let tool_result = match state.push(messages(&history), vec![], 3) {
        PushOutcome::ToolResult { waiter, content } => {
            assert_eq!(waiter, 2);
            content
        }
        PushOutcome::Queued { .. } => panic!("the tool result was queued"),
    };
    assert_eq!(tool_result, "Sunny, 22°C");

    let final_answer = state.write_message("It's sunny and 22°C in Paris.");
    assert_eq!(final_answer.reply_to, 3);
    let final_response = parse(&final_answer.reply);
    assert_eq!(
        final_response["choices"][0]["message"]["content"],
        "It's sunny and 22°C in Paris."
    );
}

#[test]
fn requests_are_served_in_arrival_order() {
    let mut state = State::new();
    state.push(messages(r#"[{ "role": "user", "content": "First" }]"#), vec![], 1);
    state.push(messages(r#"[{ "role": "user", "content": "Second" }]"#), vec![], 2);

    let first_read = read_payload(&mut state);
    assert_eq!(first_read["messages"][0]["content"], "First");
    assert_eq!(state.write_message("reply").reply_to, 1);

    let second_read = read_payload(&mut state);
    assert_eq!(second_read["messages"][0]["content"], "Second");
    assert_eq!(state.write_message("reply").reply_to, 2);
}

#[test]
fn read_message_returns_only_delta_on_same_conversation() {
    let mut state = State::new();
    state.push(messages(r#"[{ "role": "user", "content": "First message" }]"#), vec![weather_tool()], 1);

    let first_read = read_payload(&mut state);
    let conversation_id = first_read["conversation_id"].clone();

    let call = state.call_tool("get_weather", r#"{"location":"Paris"}"#, 2).unwrap();
    let tool_call_response = parse(&call.reply);

    let history = format!(
        r#"[
            {{ "role": "user",      "content": "First message" }},
            {{ "role": "assistant", "tool_calls": {} }},
            {{ "role": "tool",      "content": "Sunny, 22°C", "tool_call_id": "1" }}
        ]"#,
        tool_call_response["choices"][0]["message"]["tool_calls"]
    );
    let tool_result = match state.push(messages(&history), vec![], 3) {
        PushOutcome::ToolResult { content, .. } => content,
        PushOutcome::Queued { .. } => panic!("the tool result was queued"),
    };
    assert_eq!(tool_result, "Sunny, 22°C");

    let delta_read = read_payload(&mut state);
    assert_eq!(delta_read["conversation_id"], conversation_id);
    assert_eq!(
        delta_read["messages"],
        parse(r#"[{ "role": "tool", "content": "Sunny, 22°C", "tool_call_id": "1" }]"#)
    );

    state.write_message("done");
}
