use vstd::prelude::*;
use crate::json::{json_values_equal, same_json_value};

verus! {

/// One entry of a chat request's `messages` array.
///
/// `json` is the entry as JSON text; `content` is its `content` field when that
/// field is a string.
pub struct Message {
    pub json: String,
    pub content: Option<String>,
}

pub struct MessageView {
    pub json: Seq<char>,
    pub content: Option<Seq<char>>,
}

pub open spec fn text_option_view(text: Option<String>) -> Option<Seq<char>> {
    match text {
        Some(t) => Some(t@),
        None => None,
    }
}

impl View for Message {
    type V = MessageView;

    open spec fn view(&self) -> MessageView {
        MessageView { json: self.json@, content: text_option_view(self.content) }
    }
}

impl Message {
    pub fn new(json: String, content: Option<String>) -> (message: Message)
        ensures
            message.json == json,
            message.content == content,
    {
        Message { json, content }
    }

    /// Two messages are the same when `serde_json` reads their JSON texts as
    /// equal values.
    pub fn same_as(&self, other: &Message) -> (same: bool)
        ensures
            same == same_json_value(self.json@, other.json@),
    {
        json_values_equal(self.json.as_str(), other.json.as_str())
    }

    pub fn duplicate(&self) -> (copy: Message)
        ensures
            copy@ == self@,
    {
        let content = match &self.content {
            Some(text) => Some(text.clone()),
            None => None,
        };
        Message { json: self.json.clone(), content }
    }
}

/// One function declared in a chat request's `tools` array, each field kept as
/// the JSON text found under `function` (`null` where it is absent).
pub struct Tool {
    pub name: String,
    pub description: String,
    pub parameters: String,
}

pub struct ToolView {
    pub name: Seq<char>,
    pub description: Seq<char>,
    pub parameters: Seq<char>,
}

impl View for Tool {
    type V = ToolView;

    open spec fn view(&self) -> ToolView {
        ToolView { name: self.name@, description: self.description@, parameters: self.parameters@ }
    }
}

impl Tool {
    pub fn new(name: String, description: String, parameters: String) -> (tool: Tool)
        ensures
            tool.name == name,
            tool.description == description,
            tool.parameters == parameters,
    {
        Tool { name, description, parameters }
    }
}

pub open spec fn messages_view(messages: Seq<Message>) -> Seq<MessageView> {
    messages.map_values(|m: Message| m@)
}

pub open spec fn tools_view(tools: Seq<Tool>) -> Seq<ToolView> {
    tools.map_values(|t: Tool| t@)
}

/// `prefix` is where `messages` starts, message for message the same text.
pub open spec fn is_prefix(prefix: Seq<MessageView>, messages: Seq<MessageView>) -> bool {
    prefix.len() <= messages.len() && messages.subrange(0, prefix.len() as int) =~= prefix
}

/// `messages` starts with messages that `serde_json` reads as the values of
/// those of `prefix`.
pub open spec fn starts_like(messages: Seq<MessageView>, prefix: Seq<MessageView>) -> bool {
    &&& prefix.len() <= messages.len()
    &&& forall|i: int| 0 <= i < prefix.len() ==> #[trigger] same_json_value(messages[i].json, prefix[i].json)
}

/// Whether `messages` starts with `prefix`, each message compared as the JSON
/// value it holds.
pub fn starts_with(messages: &Vec<Message>, prefix: &Vec<Message>) -> (starts: bool)
    ensures
        starts == starts_like(messages_view(messages@), messages_view(prefix@)),
{
    let ghost whole = messages_view(messages@);
    let ghost head = messages_view(prefix@);
    if prefix.len() > messages.len() {
        return false;
    }
    let mut i: usize = 0;
    while i < prefix.len()
        invariant
            i <= prefix.len() <= messages.len(),
            whole == messages_view(messages@),
            head == messages_view(prefix@),
            forall|j: int| 0 <= j < i ==> #[trigger] same_json_value(whole[j].json, head[j].json),
        decreases prefix.len() - i,
    {
        if !messages[i].same_as(&prefix[i]) {
            assert(!same_json_value(whole[i as int].json, head[i as int].json));
            return false;
        }
        i = i + 1;
    }
    true
}

/// A copy of `messages[start..end]`.
pub fn copy_range(messages: &Vec<Message>, start: usize, end: usize) -> (copy: Vec<Message>)
    requires
        start <= end <= messages.len(),
    ensures
        messages_view(copy@) == messages_view(messages@).subrange(start as int, end as int),
{
    let ghost whole = messages_view(messages@);
    let mut copy: Vec<Message> = Vec::new();
    let mut i: usize = start;
    while i < end
        invariant
            start <= i <= end <= messages.len(),
            whole == messages_view(messages@),
            messages_view(copy@) =~= whole.subrange(start as int, i as int),
        decreases end - i,
    {
        let ghost before = copy@;
        copy.push(messages[i].duplicate());
        assert(messages_view(copy@) =~= messages_view(before).push(whole[i as int]));
        i = i + 1;
    }
    copy
}

} // verus!
