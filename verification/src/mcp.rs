use vstd::prelude::*;
use vstd::string::StringExecFns;
use crate::json::{array, array_text, json_string, quote, strings_view};
use crate::message::{Message, MessageView, Tool, ToolView, messages_view};

verus! {

/// What an MCP JSON-RPC message asks for, decided from whether it has an
/// `id`, its `method` and, for `tools/call`, the called tool's name.
#[derive(PartialEq, Eq, Structural, Clone, Copy, Debug)]
pub enum Route {
    /// A message without `id`: it gets no response.
    Notification,
    Initialize,
    Ping,
    ListTools,
    ReadMessage,
    WriteMessage,
    /// A call of any other tool; `State::call_tool` tells a tool the active
    /// request declares from an unknown one.
    CallTool,
    MethodNotFound,
}

pub open spec fn route_of(has_id: bool, method: Seq<char>, tool: Seq<char>) -> Route {
    if !has_id {
        Route::Notification
    } else if method == "initialize"@ {
        Route::Initialize
    } else if method == "ping"@ {
        Route::Ping
    } else if method == "tools/list"@ {
        Route::ListTools
    } else if method == "tools/call"@ {
        if tool == "read_message"@ {
            Route::ReadMessage
        } else if tool == "write_message"@ {
            Route::WriteMessage
        } else {
            Route::CallTool
        }
    } else {
        Route::MethodNotFound
    }
}

fn same_text(a: &str, b: &str) -> (same: bool)
    ensures
        same == (a@ == b@),
{
    String::from_str(a) == String::from_str(b)
}

/// Decides what a message asks for: `has_id` tells whether it carries an
/// `id`, `method` is its method and `tool` the tool name of a `tools/call`.
pub fn route(has_id: bool, method: &str, tool: &str) -> (r: Route)
    ensures
        r == route_of(has_id, method@, tool@),
{
    if !has_id {
        Route::Notification
    } else if same_text(method, "initialize") {
        Route::Initialize
    } else if same_text(method, "ping") {
        Route::Ping
    } else if same_text(method, "tools/list") {
        Route::ListTools
    } else if same_text(method, "tools/call") {
        if same_text(tool, "read_message") {
            Route::ReadMessage
        } else if same_text(tool, "write_message") {
            Route::WriteMessage
        } else {
            Route::CallTool
        }
    } else {
        Route::MethodNotFound
    }
}

pub open spec fn initialize_result_text() -> Seq<char> {
    r#"{"capabilities":{"tools":{"listChanged":true}},"protocolVersion":"2025-11-25","serverInfo":{"name":"reverse-proxy","version":"0.1.0"}}"#@
}

/// The result of `initialize`: protocol version, capabilities and server info.
pub fn initialize_result() -> (result: String)
    ensures
        result@ == initialize_result_text(),
{
    String::from_str(
        r#"{"capabilities":{"tools":{"listChanged":true}},"protocolVersion":"2025-11-25","serverInfo":{"name":"reverse-proxy","version":"0.1.0"}}"#,
    )
}

pub open spec fn read_message_tool_text() -> Seq<char> {
    r#"{"description":"Read the next queued message","inputSchema":{"properties":{},"type":"object"},"name":"read_message"}"#@
}

pub open spec fn write_message_tool_text() -> Seq<char> {
    r#"{"description":"Send a response to the caller","inputSchema":{"properties":{"content":{"type":"string"}},"required":["content"],"type":"object"},"name":"write_message"}"#@
}

/// The MCP description of the built-in `read_message` tool.
pub fn read_message_tool() -> (tool: String)
    ensures
        tool@ == read_message_tool_text(),
{
    String::from_str(
        r#"{"description":"Read the next queued message","inputSchema":{"properties":{},"type":"object"},"name":"read_message"}"#,
    )
}

/// The MCP description of the built-in `write_message` tool.
pub fn write_message_tool() -> (tool: String)
    ensures
        tool@ == write_message_tool_text(),
{
    String::from_str(
        r#"{"description":"Send a response to the caller","inputSchema":{"properties":{"content":{"type":"string"}},"required":["content"],"type":"object"},"name":"write_message"}"#,
    )
}

pub open spec fn empty_schema_text() -> Seq<char> {
    r#"{"properties":{},"type":"object"}"#@
}

/// The MCP input schema for a function's `parameters`: the parameters
/// themselves, or an object schema without properties when there are none.
pub open spec fn input_schema_text(parameters: Seq<char>) -> Seq<char> {
    if parameters == "null"@ {
        empty_schema_text()
    } else {
        parameters
    }
}

/// The MCP tool that mirrors a request's function: same name and description,
/// its `parameters` as the input schema.
pub open spec fn tool_entry_text(tool: ToolView) -> Seq<char> {
    r#"{"description":"#@ + tool.description + r#","inputSchema":"#@ + input_schema_text(tool.parameters)
        + r#","name":"#@ + tool.name + "}"@
}

/// Writes the MCP input schema for a function's `parameters`.
pub fn input_schema(parameters: &String) -> (schema: String)
    ensures
        schema@ == input_schema_text(parameters@),
{
    if same_text(parameters.as_str(), "null") {
        String::from_str(r#"{"properties":{},"type":"object"}"#)
    } else {
        parameters.clone()
    }
}

/// Writes the MCP tool that mirrors `tool`.
pub fn tool_entry(tool: &Tool) -> (entry: String)
    ensures
        entry@ == tool_entry_text(tool@),
{
    let mut entry = String::from_str(r#"{"description":"#);
    entry.append(tool.description.as_str());
    entry.append(r#","inputSchema":"#);
    let schema = input_schema(&tool.parameters);
    entry.append(schema.as_str());
    entry.append(r#","name":"#);
    entry.append(tool.name.as_str());
    entry.append("}");
    entry
}

pub open spec fn tools_list_result_text(tools: Seq<Seq<char>>) -> Seq<char> {
    r#"{"tools":"#@ + array_text(tools) + "}"@
}

/// The result of `tools/list` for the given tool descriptions.
pub fn tools_list_result(tools: &Vec<String>) -> (result: String)
    ensures
        result@ == tools_list_result_text(strings_view(tools@)),
{
    let mut result = String::from_str(r#"{"tools":"#);
    let listed = array(tools);
    result.append(listed.as_str());
    result.append("}");
    result
}

pub open spec fn text_result_text(text: Seq<char>) -> Seq<char> {
    r#"{"content":[{"text":"#@ + json_string(text) + r#","type":"text"}]}"#@
}

/// The result of a `tools/call`: one text content item holding `text`.
pub fn text_result(text: &str) -> (result: String)
    ensures
        result@ == text_result_text(text@),
{
    let mut result = String::from_str(r#"{"content":[{"text":"#);
    let quoted = quote(text);
    result.append(quoted.as_str());
    result.append(r#","type":"text"}]}"#);
    result
}

pub open spec fn message_jsons(messages: Seq<MessageView>) -> Seq<Seq<char>> {
    messages.map_values(|m: MessageView| m.json)
}

pub open spec fn read_message_payload_text(conversation_id: Seq<char>, messages: Seq<MessageView>) -> Seq<char> {
    r#"{"conversation_id":"#@ + json_string(conversation_id) + r#","messages":"#@
        + array_text(message_jsons(messages)) + "}"@
}

/// The text that `read_message` hands the agent: the conversation id and the
/// messages it has not seen yet.
pub fn read_message_payload(conversation_id: &str, messages: &Vec<Message>) -> (payload: String)
    ensures
        payload@ == read_message_payload_text(conversation_id@, messages_view(messages@)),
{
    let ghost delta = messages_view(messages@);
    let mut jsons: Vec<String> = Vec::new();
    let mut i: usize = 0;
    while i < messages.len()
        invariant
            i <= messages.len(),
            delta == messages_view(messages@),
            strings_view(jsons@) =~= message_jsons(delta.take(i as int)),
        decreases messages.len() - i,
    {
        let ghost before = jsons@;
        jsons.push(messages[i].json.clone());
        assert(strings_view(jsons@) =~= strings_view(before).push(delta[i as int].json));
        assert(delta.take(i + 1) =~= delta.take(i as int).push(delta[i as int]));
        i = i + 1;
    }
    assert(delta.take(messages.len() as int) =~= delta);
    let mut payload = String::from_str(r#"{"conversation_id":"#);
    let quoted = quote(conversation_id);
    payload.append(quoted.as_str());
    payload.append(r#","messages":"#);
    let listed = array(&jsons);
    payload.append(listed.as_str());
    payload.append("}");
    payload
}

pub open spec fn rpc_result_text(id: Seq<char>, result: Seq<char>) -> Seq<char> {
    r#"{"id":"#@ + id + r#","jsonrpc":"2.0","result":"#@ + result + "}"@
}

/// The JSON-RPC response carrying `result` for the request whose `id` is the
/// JSON text `id`.
pub fn rpc_result(id: &str, result: &str) -> (response: String)
    ensures
        response@ == rpc_result_text(id@, result@),
{
    let mut response = String::from_str(r#"{"id":"#);
    response.append(id);
    response.append(r#","jsonrpc":"2.0","result":"#);
    response.append(result);
    response.append("}");
    response
}

pub open spec fn method_not_found_text(id: Seq<char>) -> Seq<char> {
    r#"{"error":{"code":-32601,"message":"Method not found"},"id":"#@ + id + r#","jsonrpc":"2.0"}"#@
}

/// The JSON-RPC error response for a method the server does not know.
pub fn method_not_found(id: &str) -> (response: String)
    ensures
        response@ == method_not_found_text(id@),
{
    let mut response = String::from_str(r#"{"error":{"code":-32601,"message":"Method not found"},"id":"#);
    response.append(id);
    response.append(r#","jsonrpc":"2.0"}"#);
    response
}

pub open spec fn list_changed_notification_text() -> Seq<char> {
    r#"{"jsonrpc":"2.0","method":"notifications/tools/list_changed","params":{}}"#@
}

/// The notification sent when a new conversation changes the tool list.
pub fn list_changed_notification() -> (notification: String)
    ensures
        notification@ == list_changed_notification_text(),
{
    String::from_str(r#"{"jsonrpc":"2.0","method":"notifications/tools/list_changed","params":{}}"#)
}

pub open spec fn acknowledgement_text() -> Seq<char> {
    text_result_text("ok"@)
}

/// The result of a `write_message` call.
pub fn acknowledgement() -> (result: String)
    ensures
        result@ == acknowledgement_text(),
{
    text_result("ok")
}

pub open spec fn empty_result_text() -> Seq<char> {
    "{}"@
}

/// The empty result that answers a `ping`.
pub fn empty_result() -> (result: String)
    ensures
        result@ == empty_result_text(),
{
    String::from_str("{}")
}

pub open spec fn unknown_tool_text(id: Seq<char>, tool: Seq<char>) -> Seq<char> {
    r#"{"error":{"code":-32602,"message":"#@ + json_string("Unknown tool: "@ + tool) + r#"},"id":"#@ + id
        + r#","jsonrpc":"2.0"}"#@
}

/// The JSON-RPC error response for a call of a tool that is not offered.
pub fn unknown_tool(id: &str, tool: &str) -> (response: String)
    ensures
        response@ == unknown_tool_text(id@, tool@),
{
    let mut message = String::from_str("Unknown tool: ");
    message.append(tool);
    let mut response = String::from_str(r#"{"error":{"code":-32602,"message":"#);
    let quoted = quote(message.as_str());
    response.append(quoted.as_str());
    response.append(r#"},"id":"#);
    response.append(id);
    response.append(r#","jsonrpc":"2.0"}"#);
    response
}

} // verus!
