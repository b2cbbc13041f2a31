use vstd::prelude::*;
use std::collections::VecDeque;
use crate::json::{json_string, quote, strings_view};
use crate::mcp::{
    read_message_tool, read_message_tool_text, tool_entry, tool_entry_text, write_message_tool,
    write_message_tool_text,
};
use crate::message::{
    Message, MessageView, Tool, ToolView, copy_range, is_prefix, messages_view, starts_like, starts_with,
    text_option_view, tools_view,
};
use crate::openai::{text_reply, text_reply_text, tool_call_reply, tool_call_reply_text};

verus! {

/// A fresh identifier for a conversation or a tool call.
///
/// Trusted: calls `uuid::Uuid::new_v4` and writes the UUID with its `Display`
/// impl, the hyphenated lower-case form of 36 characters. The value is random:
/// nothing is claimed of it beyond its length, not even that two calls differ.
/// `uuid` panics when the operating system hands out no random bytes, which
/// no argument can rule out.
#[verifier::external_body]
fn new_id() -> (id: String)
    ensures
        id@.len() == 36,
{
    uuid::Uuid::new_v4().to_string()
}

/// A request waiting in the queue.
#[verifier::ext_equal]
pub struct PendingView {
    pub messages: Seq<MessageView>,
    pub tools: Seq<ToolView>,
    /// The ticket of the caller waiting for the chat completion.
    pub respond: u64,
}

/// The request the agent is working on.
#[verifier::ext_equal]
pub struct TurnView {
    pub id: Seq<char>,
    pub messages: Seq<MessageView>,
    /// The messages the agent has already seen.
    pub snapshot: Seq<MessageView>,
    pub tools: Seq<ToolView>,
    /// The caller still waiting for a chat completion, if any.
    pub respond: Option<u64>,
    /// The agent's tool call waiting for the caller's tool result, if any.
    pub tool_result: Option<u64>,
}

#[verifier::ext_equal]
pub struct StateView {
    pub queue: Seq<PendingView>,
    pub active: Option<TurnView>,
    /// The messages of the last finished turn.
    pub last_snapshot: Seq<MessageView>,
    pub last_conversation_id: Option<Seq<char>>,
}

struct Pending {
    messages: Vec<Message>,
    tools: Vec<Tool>,
    respond: u64,
}

impl View for Pending {
    type V = PendingView;

    closed spec fn view(&self) -> PendingView {
        PendingView {
            messages: messages_view(self.messages@),
            tools: tools_view(self.tools@),
            respond: self.respond,
        }
    }
}

struct Turn {
    id: String,
    messages: Vec<Message>,
    snapshot: Vec<Message>,
    tools: Vec<Tool>,
    respond: Option<u64>,
    tool_result: Option<u64>,
}

impl View for Turn {
    type V = TurnView;

    closed spec fn view(&self) -> TurnView {
        TurnView {
            id: self.id@,
            messages: messages_view(self.messages@),
            snapshot: messages_view(self.snapshot@),
            tools: tools_view(self.tools@),
            respond: self.respond,
            tool_result: self.tool_result,
        }
    }
}

/// The proxy's queue of chat requests and the turn the agent is working on.
///
/// Callers and tool calls are named by tickets: numbers that the caller of
/// this library picks and that come back in the outcomes, so that it can
/// deliver each answer to the party waiting for it.
pub struct State {
    queue: VecDeque<Pending>,
    active: Option<Turn>,
    last_snapshot: Vec<Message>,
    last_conversation_id: Option<String>,
}

impl View for State {
    type V = StateView;

    closed spec fn view(&self) -> StateView {
        StateView {
            queue: self.queue@.map_values(|p: Pending| p@),
            active: match self.active {
                Some(t) => Some(t@),
                None => None,
            },
            last_snapshot: messages_view(self.last_snapshot@),
            last_conversation_id: text_option_view(self.last_conversation_id),
        }
    }
}

/// What a push did with the request.
pub enum PushOutcome {
    /// The request carried the result of the tool call that `waiter` is
    /// waiting on; `content` is that result.
    ToolResult { waiter: u64, content: String },
    /// The request joined the queue. `started` is `Some(new_conversation)`
    /// when a turn began because of it.
    Queued { started: Option<bool> },
}

/// The answer to a caller that `write_message` produced.
pub struct WriteOutcome {
    pub reply_to: u64,
    pub reply: String,
    /// `Some(new_conversation)` when the next queued request became active.
    pub started: Option<bool>,
}

/// The tool-call answer that `call_tool` produced.
pub struct ToolCallOutcome {
    pub reply_to: u64,
    pub call_id: String,
    pub reply: String,
}

/// What holds of every state in any sequence of operations, and of every state
/// between two of them.
pub open spec fn consistent(s: StateView) -> bool {
    &&& (s.last_snapshot.len() > 0 ==> s.last_conversation_id is Some)
    &&& (s.active matches Some(t) ==> {
        &&& is_prefix(t.snapshot, t.messages)
        &&& (t.respond is Some) != (t.tool_result is Some)
        &&& s.last_conversation_id == Some(t.id)
    })
}

/// The invariant of the state: consistent, and requests wait in the queue only
/// while a turn is active.
pub open spec fn well_formed(s: StateView) -> bool {
    &&& consistent(s)
    &&& (s.active is None ==> s.queue.len() == 0)
}

/// A request with these messages is the tool result the active turn waits for.
pub open spec fn routes_tool_result(s: StateView, messages: Seq<MessageView>) -> bool {
    &&& s.active matches Some(t)
    &&& t.tool_result is Some
    &&& starts_like(messages, t.snapshot)
}

/// The tool result: the last message's `content`, or the empty text.
pub open spec fn tool_result_content(messages: Seq<MessageView>) -> Seq<char> {
    if messages.len() == 0 {
        Seq::empty()
    } else {
        match messages.last().content {
            Some(content) => content,
            None => Seq::empty(),
        }
    }
}

/// What the agent has seen once a tool result arrives: all but the result,
/// the last message, when the request brings something new; otherwise the
/// request's messages, which hold the values of those it had seen before.
pub open spec fn seen_after_tool_result(seen: Seq<MessageView>, messages: Seq<MessageView>) -> Seq<MessageView> {
    if messages.len() > seen.len() {
        messages.drop_last()
    } else {
        messages
    }
}

/// The active turn after a tool result: the new messages, those before the
/// result counted as seen, and the new caller waiting for the next completion.
pub open spec fn with_tool_result(s: StateView, messages: Seq<MessageView>, respond: u64) -> StateView {
    let t = s.active.unwrap();
    StateView {
        queue: s.queue,
        active: Some(
            TurnView {
                id: t.id,
                messages: messages,
                snapshot: seen_after_tool_result(t.snapshot, messages),
                tools: t.tools,
                respond: Some(respond),
                tool_result: None,
            },
        ),
        last_snapshot: s.last_snapshot,
        last_conversation_id: s.last_conversation_id,
    }
}

pub open spec fn enqueue(s: StateView, messages: Seq<MessageView>, tools: Seq<ToolView>, respond: u64) -> StateView {
    StateView {
        queue: s.queue.push(PendingView { messages, tools, respond }),
        active: s.active,
        last_snapshot: s.last_snapshot,
        last_conversation_id: s.last_conversation_id,
    }
}

/// A request continues the last conversation when its messages start with
/// everything that conversation had.
pub open spec fn is_continuation(last_snapshot: Seq<MessageView>, messages: Seq<MessageView>) -> bool {
    last_snapshot.len() > 0 && starts_like(messages, last_snapshot)
}

pub open spec fn can_advance(s: StateView) -> bool {
    s.active is None && s.queue.len() > 0
}

pub open spec fn next_continues(s: StateView) -> bool {
    is_continuation(s.last_snapshot, s.queue[0].messages)
}

/// The front request becomes the active turn under the conversation id `id`;
/// on a continuation the last conversation's messages count as seen.
pub open spec fn activate(s: StateView, id: Seq<char>) -> StateView {
    let p = s.queue[0];
    StateView {
        queue: s.queue.drop_first(),
        active: Some(
            TurnView {
                id: id,
                messages: p.messages,
                snapshot: if is_continuation(s.last_snapshot, p.messages) {
                    p.messages.take(s.last_snapshot.len() as int)
                } else {
                    Seq::empty()
                },
                tools: p.tools,
                respond: Some(p.respond),
                tool_result: None,
            },
        ),
        last_snapshot: s.last_snapshot,
        last_conversation_id: Some(id),
    }
}

/// The id of the turn that the front request starts: the last conversation's
/// on a continuation, `fresh` otherwise.
pub open spec fn next_turn_id(s: StateView, fresh: Seq<char>) -> Seq<char> {
    if next_continues(s) && s.last_conversation_id is Some {
        s.last_conversation_id.unwrap()
    } else {
        fresh
    }
}

/// The queue advances with `fresh` as the id for a new conversation: when no
/// turn is active the front request starts one, and `Some(new_conversation)`
/// says so.
pub open spec fn advance_step(s: StateView, fresh: Seq<char>) -> (StateView, Option<bool>) {
    if can_advance(s) {
        (activate(s, next_turn_id(s, fresh)), Some(!next_continues(s)))
    } else {
        (s, None)
    }
}

/// The length of a freshly drawn id, a hyphenated UUID.
pub open spec fn fresh_id_len() -> nat {
    36
}

/// `t` is `s` after the queue advanced, and `started` says whether and how a
/// turn began: a continuation keeps the conversation id, a new conversation
/// gets a freshly drawn id.
pub open spec fn advanced(s: StateView, t: StateView, started: Option<bool>) -> bool {
    if can_advance(s) {
        &&& t.active is Some
        &&& t == activate(s, t.active.unwrap().id)
        &&& started == Some(!next_continues(s))
        &&& (next_continues(s) ==> s.last_conversation_id == Some(t.active.unwrap().id))
        &&& (started == Some(true) ==> t.active.unwrap().id.len() == fresh_id_len())
    } else {
        &&& t == s
        &&& started is None
    }
}

/// The active turn has messages the agent has not read.
pub open spec fn has_delta(s: StateView) -> bool {
    s.active matches Some(t) && t.messages.len() > t.snapshot.len()
}

pub open spec fn delta(s: StateView) -> Seq<MessageView> {
    let t = s.active.unwrap();
    t.messages.skip(t.snapshot.len() as int)
}

/// After a read every message of the active turn counts as seen.
pub open spec fn after_read(s: StateView) -> StateView {
    let t = s.active.unwrap();
    StateView {
        queue: s.queue,
        active: Some(
            TurnView {
                id: t.id,
                messages: t.messages,
                snapshot: t.messages,
                tools: t.tools,
                respond: t.respond,
                tool_result: t.tool_result,
            },
        ),
        last_snapshot: s.last_snapshot,
        last_conversation_id: s.last_conversation_id,
    }
}

/// The agent can answer with text: a caller waits for the active turn.
pub open spec fn writable(s: StateView) -> bool {
    s.active matches Some(t) && t.respond is Some
}

/// The turn is over; its messages are what a continuation must start with.
pub open spec fn finish_turn(s: StateView) -> StateView {
    StateView {
        queue: s.queue,
        active: None,
        last_snapshot: s.active.unwrap().messages,
        last_conversation_id: s.last_conversation_id,
    }
}

/// The active turn's request declares a function called `name`.
pub open spec fn declares(s: StateView, name: Seq<char>) -> bool {
    &&& s.active matches Some(t)
    &&& exists|i: int| 0 <= i < t.tools.len() && #[trigger] t.tools[i].name == json_string(name)
}

/// The active turn after a tool call: its caller got the tool call and the
/// agent's call `waiter` waits for the result.
pub open spec fn awaiting_tool(s: StateView, waiter: u64) -> StateView {
    let t = s.active.unwrap();
    StateView {
        queue: s.queue,
        active: Some(
            TurnView {
                id: t.id,
                messages: t.messages,
                snapshot: t.snapshot,
                tools: t.tools,
                respond: None,
                tool_result: Some(waiter),
            },
        ),
        last_snapshot: s.last_snapshot,
        last_conversation_id: s.last_conversation_id,
    }
}

/// The MCP tools offered: the two built-in ones, then one per function of the
/// active turn's request.
pub open spec fn tool_list(s: StateView) -> Seq<Seq<char>> {
    seq![read_message_tool_text(), write_message_tool_text()] + match s.active {
        Some(t) => t.tools.map_values(|tool: ToolView| tool_entry_text(tool)),
        None => Seq::empty(),
    }
}

pub open spec fn empty_state() -> StateView {
    StateView {
        queue: Seq::empty(),
        active: None,
        last_snapshot: Seq::empty(),
        last_conversation_id: None,
    }
}

impl State {
    /// An idle proxy with nothing queued and no conversation yet.
    pub fn new() -> (state: State)
        ensures
            state@ == empty_state(),
            well_formed(state@),
    {
        let state = State {
            queue: VecDeque::new(),
            active: None,
            last_snapshot: Vec::new(),
            last_conversation_id: None,
        };
        assert(state@ =~= empty_state());
        state
    }

    /// Takes a chat request from the caller with ticket `respond`.
    ///
    /// While the agent waits on a tool call and the request's messages start
    /// with those the agent has seen, the request is the tool result: it goes
    /// to the waiting call and the turn goes on with the new messages. Any other
    /// request joins the queue, and becomes the active turn at once when the
    /// proxy was idle.
    pub fn push(&mut self, messages: Vec<Message>, tools: Vec<Tool>, respond: u64) -> (outcome: PushOutcome)
        requires
            well_formed(old(self)@),
        ensures
            well_formed(final(self)@),
            routes_tool_result(old(self)@, messages_view(messages@)) ==> match outcome {
                PushOutcome::ToolResult { waiter, content } => {
                    &&& old(self)@.active.unwrap().tool_result == Some(waiter)
                    &&& content@ == tool_result_content(messages_view(messages@))
                    &&& final(self)@ == with_tool_result(old(self)@, messages_view(messages@), respond)
                },
                PushOutcome::Queued { .. } => false,
            },
            !routes_tool_result(old(self)@, messages_view(messages@)) ==> match outcome {
                PushOutcome::Queued { started } => advanced(
                    enqueue(old(self)@, messages_view(messages@), tools_view(tools@), respond),
                    final(self)@,
                    started,
                ),
                PushOutcome::ToolResult { .. } => false,
            },
    {
        let ghost before = self@;
        let ghost incoming = messages_view(messages@);
        match self.active.take() {
            Some(mut turn) => {
                if turn.tool_result.is_some() && starts_with(&messages, &turn.snapshot) {
                    let content = if messages.len() == 0 {
                        String::new()
                    } else {
                        match &messages[messages.len() - 1].content {
                            Some(text) => text.clone(),
                            None => String::new(),
                        }
                    };
                    let waiter = turn.tool_result.unwrap();
                    if messages.len() > turn.snapshot.len() {
                        let last = messages.len() - 1;
                        turn.snapshot = copy_range(&messages, 0, last);
                        assert(incoming.subrange(0, last as int) =~= incoming.drop_last());
                    } else {
                        turn.snapshot = copy_range(&messages, 0, messages.len());
                        assert(incoming.subrange(0, incoming.len() as int) =~= incoming);
                    }
                    turn.messages = messages;
                    turn.respond = Some(respond);
                    turn.tool_result = None;
                    self.active = Some(turn);
                    assert(self@ =~= with_tool_result(before, incoming, respond));
                    return PushOutcome::ToolResult { waiter, content };
                }
                self.active = Some(turn);
            },
            None => {},
        }
        assert(self@ =~= before);
        let was_idle = self.active.is_none();
        self.queue.push_back(Pending { messages, tools, respond });
        assert(self@ =~= enqueue(before, incoming, tools_view(tools@), respond));
        let started = if was_idle {
            self.advance()
        } else {
            None
        };
        PushOutcome::Queued { started }
    }

    /// When no turn is active, the front request becomes the active turn,
    /// under a freshly drawn id if it starts a new conversation.
    fn advance(&mut self) -> (started: Option<bool>)
        requires
            consistent(old(self)@),
        ensures
            well_formed(final(self)@),
            advanced(old(self)@, final(self)@, started),
    {
        if self.active.is_some() || self.queue.len() == 0 {
            return None;
        }
        let fresh_id = new_id();
        self.start_front(fresh_id)
    }

    /// When no turn is active, the front request becomes the active turn. A
    /// continuation of the last conversation keeps its id; a new conversation
    /// gets `fresh_id`.
    pub fn start_front(&mut self, fresh_id: String) -> (started: Option<bool>)
        requires
            consistent(old(self)@),
        ensures
            well_formed(final(self)@),
            (final(self)@, started) == advance_step(old(self)@, fresh_id@),
            started == Some(true) ==> final(self)@.active.unwrap().id == fresh_id@,
            fresh_id@.len() == fresh_id_len() ==> advanced(old(self)@, final(self)@, started),
    {
        if self.active.is_some() || self.queue.len() == 0 {
            return None;
        }
        let ghost before = self@;
        let pending = self.queue.pop_front().unwrap();
        let continues = self.last_snapshot.len() > 0 && starts_with(&pending.messages, &self.last_snapshot);
        let id = if continues {
            match &self.last_conversation_id {
                Some(id) => id.clone(),
                None => fresh_id,
            }
        } else {
            fresh_id
        };
        let snapshot = if continues {
            copy_range(&pending.messages, 0, self.last_snapshot.len())
        } else {
            Vec::new()
        };
        self.last_conversation_id = Some(id.clone());
        self.active = Some(
            Turn {
                id,
                messages: pending.messages,
                snapshot,
                tools: pending.tools,
                respond: Some(pending.respond),
                tool_result: None,
            },
        );
        assert(self@ =~= activate(before, next_turn_id(before, fresh_id@)));
        Some(!continues)
    }

    /// The messages of the active turn that the agent has not seen, with the
    /// conversation id; from then on they count as seen. `None` when there is
    /// nothing new to read.
    pub fn read_message(&mut self) -> (read: Option<(String, Vec<Message>)>)
        requires
            well_formed(old(self)@),
        ensures
            well_formed(final(self)@),
            has_delta(old(self)@) ==> match read {
                Some((id, messages)) => {
                    &&& id@ == old(self)@.active.unwrap().id
                    &&& messages_view(messages@) == delta(old(self)@)
                    &&& final(self)@ == after_read(old(self)@)
                },
                None => false,
            },
            !has_delta(old(self)@) ==> read is None && final(self)@ == old(self)@,
    {
        let ghost before = self@;
        match self.active.take() {
            Some(mut turn) => {
                let seen = turn.snapshot.len();
                let total = turn.messages.len();
                if total > seen {
                    let unseen = copy_range(&turn.messages, seen, total);
                    let id = turn.id.clone();
                    turn.snapshot = copy_range(&turn.messages, 0, total);
                    self.active = Some(turn);
                    assert(self@ =~= after_read(before));
                    return Some((id, unseen));
                }
                self.active = Some(turn);
                assert(self@ =~= before);
                None
            },
            None => None,
        }
    }

    /// Whether the agent can answer with text now.
    pub fn can_write(&self) -> (can: bool)
        ensures
            can == writable(self@),
    {
        match &self.active {
            Some(turn) => turn.respond.is_some(),
            None => false,
        }
    }

    /// The agent's text answer: it goes to the caller waiting on the active
    /// turn, the turn ends, and the next queued request becomes active.
    pub fn write_message(&mut self, content: &str) -> (outcome: WriteOutcome)
        requires
            well_formed(old(self)@),
            writable(old(self)@),
        ensures
            well_formed(final(self)@),
            outcome.reply_to == old(self)@.active.unwrap().respond.unwrap(),
            outcome.reply@ == text_reply_text(content@),
            advanced(finish_turn(old(self)@), final(self)@, outcome.started),
    {
        let ghost before = self@;
        let turn = self.active.take().unwrap();
        let reply_to = turn.respond.unwrap();
        self.last_snapshot = turn.messages;
        assert(self@ =~= finish_turn(before));
        let reply = text_reply(content);
        let started = self.advance();
        WriteOutcome { reply_to, reply, started }
    }

    /// Whether the active turn's request declares a function called `name`.
    pub fn declares_tool(&self, name: &str) -> (declared: bool)
        ensures
            declared == declares(self@, name@),
    {
        match &self.active {
            Some(turn) => {
                let ghost tools = tools_view(turn.tools@);
                assert(self@.active.unwrap().tools == tools);
                let quoted = quote(name);
                let mut i: usize = 0;
                while i < turn.tools.len()
                    invariant
                        i <= turn.tools.len(),
                        tools == tools_view(turn.tools@),
                        self@.active is Some,
                        self@.active.unwrap().tools == tools,
                        quoted@ == json_string(name@),
                        forall|j: int| 0 <= j < i ==> tools[j].name != json_string(name@),
                    decreases turn.tools.len() - i,
                {
                    if turn.tools[i].name == quoted {
                        assert(tools[i as int].name == turn.tools@[i as int].name@);
                        assert(self@.active.unwrap().tools[i as int].name == json_string(name@));
                        return true;
                    }
                    i = i + 1;
                }
                false
            },
            None => false,
        }
    }

    /// The agent calls the tool `name` with the JSON text `arguments`. When
    /// the active turn's request declares it, the caller waiting on the turn
    /// gets the tool call and the agent's call, ticket `waiter`, waits for the
    /// result. Any other name is an unknown tool: `None`, and nothing changes.
    pub fn call_tool(&mut self, name: &str, arguments: &str, waiter: u64) -> (outcome: Option<ToolCallOutcome>)
        requires
            well_formed(old(self)@),
            declares(old(self)@, name@) ==> writable(old(self)@),
        ensures
            well_formed(final(self)@),
            !declares(old(self)@, name@) ==> outcome is None && final(self)@ == old(self)@,
            declares(old(self)@, name@) ==> match outcome {
                Some(call) => {
                    &&& call.reply_to == old(self)@.active.unwrap().respond.unwrap()
                    &&& call.call_id@.len() == fresh_id_len()
                    &&& call.reply@ == tool_call_reply_text(call.call_id@, name@, arguments@)
                    &&& final(self)@ == awaiting_tool(old(self)@, waiter)
                },
                None => false,
            },
    {
        if !self.declares_tool(name) {
            return None;
        }
        let ghost before = self@;
        let mut turn = self.active.take().unwrap();
        let reply_to = turn.respond.unwrap();
        turn.respond = None;
        turn.tool_result = Some(waiter);
        self.active = Some(turn);
        assert(self@ =~= awaiting_tool(before, waiter));
        let call_id = new_id();
        let reply = tool_call_reply(call_id.as_str(), name, arguments);
        Some(ToolCallOutcome { reply_to, call_id, reply })
    }

    /// The MCP tools the agent is offered now.
    pub fn list_tools(&self) -> (tools: Vec<String>)
        ensures
            strings_view(tools@) == tool_list(self@),
    {
        let mut tools: Vec<String> = Vec::new();
        tools.push(read_message_tool());
        tools.push(write_message_tool());
        match &self.active {
            Some(turn) => {
                let ghost declared = tools_view(turn.tools@);
                let mut i: usize = 0;
                while i < turn.tools.len()
                    invariant
                        i <= turn.tools.len(),
                        declared == tools_view(turn.tools@),
                        strings_view(tools@) =~= seq![read_message_tool_text(), write_message_tool_text()]
                            + declared.take(i as int).map_values(|tool: ToolView| tool_entry_text(tool)),
                    decreases turn.tools.len() - i,
                {
                    let ghost before = tools@;
                    tools.push(tool_entry(&turn.tools[i]));
                    assert(strings_view(tools@) =~= strings_view(before).push(tool_entry_text(declared[i as int])));
                    assert(declared.take(i + 1) =~= declared.take(i as int).push(declared[i as int]));
                    i = i + 1;
                }
                assert(declared.take(turn.tools.len() as int) =~= declared);
            },
            None => {
                assert(strings_view(tools@) =~= tool_list(self@));
            },
        }
        tools
    }
}

} // verus!
