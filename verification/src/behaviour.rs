use vstd::prelude::*;
use crate::json::{escaped, json_string, same_json_value};
use crate::mcp::{read_message_tool_text, tool_entry_text, write_message_tool_text};
use crate::message::{MessageView, ToolView};
use crate::state::{
    PendingView, StateView, activate, advance_step, after_read, awaiting_tool, can_advance, declares,
    delta, enqueue, finish_turn, has_delta, writable, is_continuation, routes_tool_result, tool_list,
    tool_result_content, with_tool_result,
};

verus! {

/// A request is the waiting tool call's result exactly when a tool call waits
/// and the request begins with every message the agent has seen, each holding
/// the same JSON value; a request that differs from any seen message, or is
/// shorter than what was seen, is not.
pub proof fn tool_result_needs_every_seen_message(s: StateView, messages: Seq<MessageView>)
    ensures
        routes_tool_result(s, messages) <==> {
            &&& s.active is Some
            &&& s.active.unwrap().tool_result is Some
            &&& s.active.unwrap().snapshot.len() <= messages.len()
            &&& forall|i: int| 0 <= i < s.active.unwrap().snapshot.len()
                ==> #[trigger] same_json_value(messages[i].json, s.active.unwrap().snapshot[i].json)
        },
{
}

/// The tool result handed to the waiting call is the text content of the
/// request's last message, and the empty text when the request has no
/// message or its last message has no text content.
pub proof fn tool_result_is_the_last_message_text(messages: Seq<MessageView>)
    ensures
        messages.len() == 0 ==> tool_result_content(messages) == Seq::<char>::empty(),
        messages.len() > 0 ==> match messages[messages.len() - 1].content {
            Some(text) => tool_result_content(messages) == text,
            None => tool_result_content(messages) == Seq::<char>::empty(),
        },
{
}

/// A tool result goes on with the same turn: same conversation id, same
/// declared functions and tool list, the request's messages, its caller
/// waiting for the next completion and no tool call waiting; the agent has
/// then exactly one unread message, the result, when the request brought a new
/// message, and none otherwise. Nothing outside the turn changes.
pub proof fn tool_result_keeps_the_turn(s: StateView, messages: Seq<MessageView>, respond: u64)
    requires
        routes_tool_result(s, messages),
    ensures
        ({
            let t = s.active.unwrap();
            let resumed = with_tool_result(s, messages, respond);
            let u = resumed.active.unwrap();
            &&& resumed.active is Some
            &&& u.id == t.id
            &&& u.tools == t.tools
            &&& u.messages == messages
            &&& u.respond == Some(respond)
            &&& u.tool_result is None
            &&& t.snapshot.len() <= u.snapshot.len() <= messages.len()
            &&& (messages.len() > t.snapshot.len() ==> messages.len() - u.snapshot.len() == 1)
            &&& (messages.len() <= t.snapshot.len() ==> u.snapshot.len() == messages.len())
            &&& forall|i: int| 0 <= i < u.snapshot.len() ==> #[trigger] u.snapshot[i] == messages[i]
            &&& resumed.queue == s.queue
            &&& resumed.last_snapshot == s.last_snapshot
            &&& resumed.last_conversation_id == s.last_conversation_id
            &&& tool_list(resumed) == tool_list(s)
        }),
{
}

/// Every function the active request declares can be called by its name, and
/// only those: a name is declared exactly when some declared function's name
/// is that name as a JSON string.
pub proof fn every_declared_function_is_callable(s: StateView, name: Seq<char>)
    ensures
        declares(s, name) <==> {
            &&& s.active is Some
            &&& exists|i: int| 0 <= i < s.active.unwrap().tools.len()
                && #[trigger] s.active.unwrap().tools[i].name == json_string(name)
        },
        s.active is Some ==> forall|i: int| 0 <= i < s.active.unwrap().tools.len()
            && #[trigger] s.active.unwrap().tools[i].name == json_string(name) ==> declares(s, name),
{
}

/// The tool list is the two built-in tools and then one entry per declared
/// function of the active request, in order, in every state: whatever the
/// agent has read, and whether or not a tool call waits.
pub proof fn tool_list_lists_every_function(s: StateView)
    ensures
        tool_list(s)[0] == read_message_tool_text(),
        tool_list(s)[1] == write_message_tool_text(),
        s.active is None ==> tool_list(s) == seq![read_message_tool_text(), write_message_tool_text()],
        s.active is Some ==> {
            &&& tool_list(s).len() == s.active.unwrap().tools.len() + 2
            &&& forall|i: int| 0 <= i < s.active.unwrap().tools.len()
                ==> tool_list(s)[i + 2] == tool_entry_text(#[trigger] s.active.unwrap().tools[i])
        },
{
    assert(seq![read_message_tool_text(), write_message_tool_text()] + Seq::<Seq<char>>::empty()
        =~= seq![read_message_tool_text(), write_message_tool_text()]);
}

/// Reading, calling a tool and taking its result leave the tool list as it
/// was.
pub proof fn tool_list_survives_the_turn(s: StateView, waiter: u64, messages: Seq<MessageView>, respond: u64)
    requires
        s.active is Some,
    ensures
        tool_list(after_read(s)) == tool_list(s),
        tool_list(awaiting_tool(s, waiter)) == tool_list(s),
        routes_tool_result(s, messages) ==> tool_list(with_tool_result(s, messages, respond)) == tool_list(s),
{
}

/// A queued request goes to the back of the queue: the requests before it stay
/// as they were, in order, and nothing else changes.
pub proof fn queueing_appends_at_the_back(
    s: StateView,
    messages: Seq<MessageView>,
    tools: Seq<ToolView>,
    respond: u64,
)
    ensures
        ({
            let q = enqueue(s, messages, tools, respond);
            &&& q.queue.len() == s.queue.len() + 1
            &&& q.queue[s.queue.len() as int] == (PendingView { messages, tools, respond })
            &&& forall|i: int| 0 <= i < s.queue.len() ==> #[trigger] q.queue[i] == s.queue[i]
            &&& q.active == s.active
            &&& q.last_snapshot == s.last_snapshot
            &&& q.last_conversation_id == s.last_conversation_id
        }),
{
}

/// A request continues the last conversation exactly when that conversation
/// had messages and the request begins with all of them, value for value.
pub proof fn continuation_means_the_same_history(last: Seq<MessageView>, messages: Seq<MessageView>)
    ensures
        is_continuation(last, messages) <==> {
            &&& last.len() > 0
            &&& last.len() <= messages.len()
            &&& forall|i: int| 0 <= i < last.len() ==> #[trigger] same_json_value(messages[i].json, last[i].json)
        },
{
}

/// The front request becomes the turn: its messages, functions and caller,
/// no tool call waiting, the rest of the queue in order behind; on a
/// continuation the last conversation's messages count as seen, otherwise
/// nothing does.
pub proof fn the_front_request_becomes_the_turn(s: StateView, id: Seq<char>)
    requires
        s.queue.len() > 0,
    ensures
        ({
            let p = s.queue[0];
            let next = activate(s, id);
            let t = next.active.unwrap();
            &&& next.active is Some
            &&& t.id == id
            &&& t.messages == p.messages
            &&& t.tools == p.tools
            &&& t.respond == Some(p.respond)
            &&& t.tool_result is None
            &&& next.queue.len() == s.queue.len() - 1
            &&& forall|i: int| 0 <= i < next.queue.len() ==> #[trigger] next.queue[i] == s.queue[i + 1]
            &&& next.last_conversation_id == Some(id)
            &&& next.last_snapshot == s.last_snapshot
            &&& (is_continuation(s.last_snapshot, p.messages) ==> t.snapshot.len() == s.last_snapshot.len())
            &&& (!is_continuation(s.last_snapshot, p.messages) ==> t.snapshot.len() == 0)
            &&& forall|i: int| 0 <= i < t.snapshot.len() ==> #[trigger] t.snapshot[i] == p.messages[i]
        }),
{
}

/// The queue advances only when no turn is active and a request waits; a new
/// conversation takes the drawn id, a continuation keeps the last one.
pub proof fn advancing_starts_the_front_request(s: StateView, fresh: Seq<char>)
    ensures
        !can_advance(s) ==> advance_step(s, fresh) == (s, None::<bool>),
        can_advance(s) ==> {
            let (next, started) = advance_step(s, fresh);
            let continues = is_continuation(s.last_snapshot, s.queue[0].messages);
            &&& started == Some(!continues)
            &&& next.active.unwrap().messages == s.queue[0].messages
            &&& (!continues ==> next.active.unwrap().id == fresh)
            &&& (continues && s.last_conversation_id is Some ==> next.active.unwrap().id
                == s.last_conversation_id.unwrap())
        },
{
}

/// A read hands out the messages from the first unseen one to the last, in
/// order, and then counts all of them as seen, changing nothing else.
pub proof fn reading_hands_out_the_unseen_messages(s: StateView)
    requires
        has_delta(s),
    ensures
        ({
            let t = s.active.unwrap();
            let r = after_read(s);
            &&& delta(s).len() == t.messages.len() - t.snapshot.len()
            &&& forall|i: int| 0 <= i < delta(s).len() ==> #[trigger] delta(s)[i] == t.messages[t.snapshot.len() + i]
            &&& r.active.unwrap().snapshot == t.messages
            &&& r.active.unwrap().messages == t.messages
            &&& r.active.unwrap().id == t.id
            &&& r.active.unwrap().tools == t.tools
            &&& r.active.unwrap().respond == t.respond
            &&& r.active.unwrap().tool_result == t.tool_result
            &&& r.queue == s.queue
            &&& r.last_snapshot == s.last_snapshot
            &&& r.last_conversation_id == s.last_conversation_id
        }),
{
}

/// An answer ends the turn: no turn is active, and the turn's messages are
/// what the next request must start with to continue the conversation.
pub proof fn answering_ends_the_turn(s: StateView)
    requires
        s.active is Some,
    ensures
        finish_turn(s).active is None,
        finish_turn(s).last_snapshot == s.active.unwrap().messages,
        finish_turn(s).queue == s.queue,
        finish_turn(s).last_conversation_id == s.last_conversation_id,
{
}

/// A tool call hands the turn's caller the call and makes `waiter` wait for the
/// result; the rest of the turn stays as it was.
pub proof fn calling_a_tool_waits_for_its_result(s: StateView, waiter: u64)
    requires
        s.active is Some,
    ensures
        ({
            let t = s.active.unwrap();
            let w = awaiting_tool(s, waiter);
            &&& w.active.unwrap().respond is None
            &&& w.active.unwrap().tool_result == Some(waiter)
            &&& w.active.unwrap().id == t.id
            &&& w.active.unwrap().messages == t.messages
            &&& w.active.unwrap().snapshot == t.snapshot
            &&& w.active.unwrap().tools == t.tools
            &&& w.queue == s.queue
            &&& w.last_snapshot == s.last_snapshot
            &&& w.last_conversation_id == s.last_conversation_id
        }),
{
}

/// The agent has something to read exactly when the active turn holds more
/// messages than it has seen; it can answer with text exactly when a caller
/// waits on the active turn; the queue can advance exactly when no turn is
/// active and a request waits.
pub proof fn when_operations_act(s: StateView)
    ensures
        has_delta(s) <==> (s.active is Some && s.active.unwrap().messages.len() > s.active.unwrap().snapshot.len()),
        writable(s) <==> (s.active is Some && s.active.unwrap().respond is Some),
        can_advance(s) <==> (s.active is None && s.queue.len() > 0),
{
}

/// A text with no quote, backslash or control character stands in its JSON
/// string as it is, between double quotes.
pub proof fn plain_text_is_quoted_as_is(text: Seq<char>)
    requires
        forall|i: int| 0 <= i < text.len() ==> {
            &&& #[trigger] text[i] != '"'
            &&& text[i] != '\\'
            &&& (text[i] as u32) >= 32
        },
    ensures
        json_string(text) == seq!['"'] + text + seq!['"'],
{
    plain_text_escapes_to_itself(text);
}

proof fn plain_text_escapes_to_itself(text: Seq<char>)
    requires
        forall|i: int| 0 <= i < text.len() ==> {
            &&& #[trigger] text[i] != '"'
            &&& text[i] != '\\'
            &&& (text[i] as u32) >= 32
        },
    ensures
        escaped(text) == text,
    decreases text.len(),
{
    if text.len() > 0 {
        let front = text.drop_last();
        assert forall|i: int| 0 <= i < front.len() implies {
            &&& #[trigger] front[i] != '"'
            &&& front[i] != '\\'
            &&& (front[i] as u32) >= 32
        } by {
            assert(front[i] == text[i]);
        }
        plain_text_escapes_to_itself(front);
        assert(text[text.len() - 1] != '"');
        assert(front + seq![text.last()] =~= text);
    }
}

} // verus!
