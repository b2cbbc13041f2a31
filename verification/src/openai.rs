use vstd::prelude::*;
use vstd::string::StringExecFns;
use crate::json::{json_string, quote};

verus! {

/// The chat completion that answers a request with the agent's text.
pub open spec fn text_reply_text(content: Seq<char>) -> Seq<char> {
    r#"{"choices":[{"finish_reason":"stop","message":{"content":"#@
        + json_string(content)
        + r#","role":"assistant"}}]}"#@
}

/// The chat completion that asks the caller to run the tool `name` with the
/// JSON text `arguments`, under the call id `call_id`.
pub open spec fn tool_call_reply_text(call_id: Seq<char>, name: Seq<char>, arguments: Seq<char>) -> Seq<char> {
    r#"{"choices":[{"finish_reason":"tool_calls","message":{"content":null,"role":"assistant","tool_calls":[{"function":{"arguments":"#@
        + json_string(arguments)
        + r#","name":"#@
        + json_string(name)
        + r#"},"id":"#@
        + json_string(call_id)
        + r#","type":"function"}]}}]}"#@
}

/// Writes the chat completion that carries the agent's text answer.
pub fn text_reply(content: &str) -> (reply: String)
    ensures
        reply@ == text_reply_text(content@),
{
    let mut reply = String::from_str(r#"{"choices":[{"finish_reason":"stop","message":{"content":"#);
    let quoted = quote(content);
    reply.append(quoted.as_str());
    reply.append(r#","role":"assistant"}}]}"#);
    reply
}

/// Writes the chat completion that asks the caller to run a tool.
pub fn tool_call_reply(call_id: &str, name: &str, arguments: &str) -> (reply: String)
    ensures
        reply@ == tool_call_reply_text(call_id@, name@, arguments@),
{
    let mut reply = String::from_str(
        r#"{"choices":[{"finish_reason":"tool_calls","message":{"content":null,"role":"assistant","tool_calls":[{"function":{"arguments":"#,
    );
    let quoted_arguments = quote(arguments);
    reply.append(quoted_arguments.as_str());
    reply.append(r#","name":"#);
    let quoted_name = quote(name);
    reply.append(quoted_name.as_str());
    reply.append(r#"},"id":"#);
    let quoted_id = quote(call_id);
    reply.append(quoted_id.as_str());
    reply.append(r#","type":"function"}]}}]}"#);
    reply
}

} // verus!
