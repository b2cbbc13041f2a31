use vstd::prelude::*;
use crate::mcp::{read_message_tool_text, tool_entry_text, write_message_tool_text};
use crate::message::{MessageView, ToolView, starts_like};
use crate::state::{
    PendingView, StateView, activate, advance_step, advanced, after_read, declares, awaiting_tool, can_advance, consistent, delta,
    enqueue, finish_turn, has_delta, next_continues, routes_tool_result, tool_list,
    well_formed, with_tool_result, writable,
};

verus! {

/// Requests are served one at a time in arrival order: while a turn is active
/// and nothing waits, two requests queued one after the other become the
/// active turn in that order as the turns before them finish.
pub proof fn requests_are_served_in_arrival_order(
    s: StateView,
    first: PendingView,
    second: PendingView,
    first_id: Seq<char>,
    second_id: Seq<char>,
)
    requires
        well_formed(s),
        s.active is Some,
        s.queue.len() == 0,
    ensures
        ({
            let queued = enqueue(
                enqueue(s, first.messages, first.tools, first.respond),
                second.messages,
                second.tools,
                second.respond,
            );
            let serving_first = activate(finish_turn(queued), first_id);
            let serving_second = activate(finish_turn(serving_first), second_id);
            &&& serving_first.active.unwrap().messages == first.messages
            &&& serving_first.active.unwrap().respond == Some(first.respond)
            &&& serving_first.queue == seq![second]
            &&& serving_second.active.unwrap().messages == second.messages
            &&& serving_second.active.unwrap().respond == Some(second.respond)
            &&& serving_second.queue.len() == 0
        }),
{
    let queued = enqueue(
        enqueue(s, first.messages, first.tools, first.respond),
        second.messages,
        second.tools,
        second.respond,
    );
    assert(queued.queue =~= seq![first, second]);
    assert(queued.queue.drop_first() =~= seq![second]);
    assert(seq![second].drop_first() =~= Seq::<PendingView>::empty());
}

/// A read hands out every unseen message once: right after it there is
/// nothing left to read.
pub proof fn unseen_messages_are_read_once(s: StateView)
    requires
        well_formed(s),
        has_delta(s),
    ensures
        !has_delta(after_read(s)),
        well_formed(after_read(s)),
{
    let t = s.active.unwrap();
    assert(t.messages.subrange(0, t.messages.len() as int) =~= t.messages);
}

/// What the agent reads is exactly what follows the messages it has already
/// seen.
pub proof fn read_follows_what_was_seen(s: StateView)
    requires
        well_formed(s),
        has_delta(s),
    ensures
        s.active.unwrap().snapshot + delta(s) == s.active.unwrap().messages,
{
    let t = s.active.unwrap();
    assert(t.snapshot + t.messages.skip(t.snapshot.len() as int) =~= t.messages);
}

/// A request that starts a new conversation is read whole.
pub proof fn new_conversation_is_read_whole(s: StateView, id: Seq<char>)
    requires
        consistent(s),
        can_advance(s),
        !next_continues(s),
        s.queue[0].messages.len() > 0,
    ensures
        has_delta(activate(s, id)),
        delta(activate(s, id)) == s.queue[0].messages,
        activate(s, id).active.unwrap().id == id,
{
    assert(s.queue[0].messages.skip(0) =~= s.queue[0].messages);
}

/// A request that continues the last conversation keeps its id and is read
/// from where that conversation ended: everything the finished turn held
/// counts as seen.
pub proof fn continuation_reads_only_new_messages(s: StateView)
    requires
        consistent(s),
        can_advance(s),
        next_continues(s),
    ensures
        ({
            let next = activate(s, s.last_conversation_id.unwrap());
            &&& next.active.unwrap().id == s.last_conversation_id.unwrap()
            &&& next.active.unwrap().snapshot == s.queue[0].messages.take(s.last_snapshot.len() as int)
            &&& next.active.unwrap().snapshot.len() == s.last_snapshot.len()
            &&& s.queue[0].messages.len() > s.last_snapshot.len() ==> has_delta(next)
                && delta(next) == s.queue[0].messages.skip(s.last_snapshot.len() as int)
        }),
{
}

/// While the agent waits on a tool call, a request that starts with what the
/// agent has seen is that tool's result: it joins no queue, keeps the
/// conversation id, and when it brings a message the agent has not seen, the
/// agent then reads only the last message, the result.
pub proof fn tool_result_continues_the_turn(
    s: StateView,
    waiter: u64,
    messages: Seq<MessageView>,
    respond: u64,
)
    requires
        well_formed(s),
        writable(s),
        starts_like(messages, s.active.unwrap().snapshot),
        messages.len() > s.active.unwrap().snapshot.len(),
    ensures
        ({
            let waiting = awaiting_tool(s, waiter);
            let resumed = with_tool_result(waiting, messages, respond);
            &&& well_formed(waiting)
            &&& routes_tool_result(waiting, messages)
            &&& well_formed(resumed)
            &&& resumed.queue == s.queue
            &&& resumed.active.unwrap().id == s.active.unwrap().id
            &&& has_delta(resumed)
            &&& delta(resumed) == seq![messages.last()]
        }),
{
    let waiting = awaiting_tool(s, waiter);
    let resumed = with_tool_result(waiting, messages, respond);
    assert(messages.subrange(0, messages.drop_last().len() as int) =~= messages.drop_last());
    assert(messages.skip(messages.len() - 1) =~= seq![messages.last()]);
}

/// Nothing of a finished turn leaks into the next: once the agent answers,
/// the tools offered are the built-in ones and those of the request that
/// becomes active, if any.
pub proof fn finished_turn_leaves_no_tools(s: StateView, id: Seq<char>)
    requires
        well_formed(s),
        writable(s),
    ensures
        s.queue.len() == 0 ==> tool_list(finish_turn(s)) == seq![
            read_message_tool_text(),
            write_message_tool_text(),
        ],
        s.queue.len() > 0 ==> tool_list(activate(finish_turn(s), id)) == seq![
            read_message_tool_text(),
            write_message_tool_text(),
        ] + s.queue[0].tools.map_values(|tool: ToolView| tool_entry_text(tool)),
{
    assert(seq![read_message_tool_text(), write_message_tool_text()] + Seq::<Seq<char>>::empty()
        =~= seq![read_message_tool_text(), write_message_tool_text()]);
}

/// The agent is told that the tool list changed only when a new
/// conversation begins; a continuation keeps its conversation id.
pub proof fn list_changes_only_for_new_conversations(s: StateView, t: StateView, started: Option<bool>)
    requires
        consistent(s),
        can_advance(s),
        advanced(s, t, started),
    ensures
        started == Some(true) <==> !next_continues(s),
        started == Some(false) ==> t.active.unwrap().id == s.last_conversation_id.unwrap(),
        started == Some(true) ==> t.active.unwrap().snapshot.len() == 0,
{
}

/// One operation on the proxy's state, as the agent or a caller performs it.
pub enum Operation {
    Push { messages: Seq<MessageView>, tools: Seq<ToolView>, respond: u64 },
    Read,
    Write,
    CallTool { name: Seq<char>, waiter: u64 },
    ListTools,
}

/// The state after `op`, and `Some(new_conversation)` when a turn began;
/// `fresh` is the id drawn for a new conversation.
pub open spec fn step(s: StateView, op: Operation, fresh: Seq<char>) -> (StateView, Option<bool>) {
    match op {
        Operation::Push { messages, tools, respond } => {
            if routes_tool_result(s, messages) {
                (with_tool_result(s, messages, respond), None)
            } else {
                advance_step(enqueue(s, messages, tools, respond), fresh)
            }
        },
        Operation::Read => {
            if has_delta(s) {
                (after_read(s), None)
            } else {
                (s, None)
            }
        },
        Operation::Write => advance_step(finish_turn(s), fresh),
        Operation::CallTool { name, waiter } => {
            if declares(s, name) {
                (awaiting_tool(s, waiter), None)
            } else {
                (s, None)
            }
        },
        Operation::ListTools => (s, None),
    }
}

/// `op` is within its operation's precondition in `s`.
pub open spec fn allowed(s: StateView, op: Operation) -> bool {
    match op {
        Operation::Write => writable(s),
        Operation::CallTool { name, .. } => declares(s, name) ==> writable(s),
        _ => true,
    }
}

/// The request `op` adds to the queue.
pub open spec fn arrived(s: StateView, op: Operation) -> Seq<PendingView> {
    match op {
        Operation::Push { messages, tools, respond } => {
            if routes_tool_result(s, messages) {
                Seq::empty()
            } else {
                seq![PendingView { messages, tools, respond }]
            }
        },
        _ => Seq::empty(),
    }
}

/// The request that leaves the queue to become the active turn during `op`.
pub open spec fn served(s: StateView, op: Operation) -> Seq<PendingView> {
    match op {
        Operation::Push { messages, tools, respond } => {
            let queued = enqueue(s, messages, tools, respond);
            if !routes_tool_result(s, messages) && can_advance(queued) {
                seq![queued.queue[0]]
            } else {
                Seq::empty()
            }
        },
        Operation::Write => {
            if can_advance(finish_turn(s)) {
                seq![s.queue[0]]
            } else {
                Seq::empty()
            }
        },
        _ => Seq::empty(),
    }
}

/// The state after the operations `ops`, the `i`-th drawing `fresh[i]` for a
/// new conversation.
pub open spec fn run(s: StateView, ops: Seq<Operation>, fresh: Seq<Seq<char>>) -> StateView
    decreases ops.len(),
{
    if ops.len() == 0 {
        s
    } else {
        run(step(s, ops[0], fresh[0]).0, ops.drop_first(), fresh.drop_first())
    }
}

/// Every operation of `ops` is within its precondition when it comes.
pub open spec fn allowed_run(s: StateView, ops: Seq<Operation>, fresh: Seq<Seq<char>>) -> bool
    decreases ops.len(),
{
    ops.len() == 0 || (allowed(s, ops[0]) && allowed_run(step(s, ops[0], fresh[0]).0, ops.drop_first(), fresh.drop_first()))
}

/// The requests queued during `ops`, in the order they came.
pub open spec fn arrivals(s: StateView, ops: Seq<Operation>, fresh: Seq<Seq<char>>) -> Seq<PendingView>
    decreases ops.len(),
{
    if ops.len() == 0 {
        Seq::empty()
    } else {
        arrived(s, ops[0]) + arrivals(step(s, ops[0], fresh[0]).0, ops.drop_first(), fresh.drop_first())
    }
}

/// The requests that became the active turn during `ops`, in that order.
pub open spec fn served_all(s: StateView, ops: Seq<Operation>, fresh: Seq<Seq<char>>) -> Seq<PendingView>
    decreases ops.len(),
{
    if ops.len() == 0 {
        Seq::empty()
    } else {
        served(s, ops[0]) + served_all(step(s, ops[0], fresh[0]).0, ops.drop_first(), fresh.drop_first())
    }
}

/// No push during `ops` is taken as a tool result.
pub open spec fn no_tool_result(s: StateView, ops: Seq<Operation>, fresh: Seq<Seq<char>>) -> bool
    decreases ops.len(),
{
    ops.len() == 0 || ({
        &&& !(ops[0] matches Operation::Push { messages, .. } && routes_tool_result(s, messages))
        &&& no_tool_result(step(s, ops[0], fresh[0]).0, ops.drop_first(), fresh.drop_first())
    })
}

/// Every allowed operation keeps the state's invariant.
pub proof fn operations_keep_the_invariant(s: StateView, op: Operation, fresh: Seq<char>)
    requires
        well_formed(s),
        allowed(s, op),
    ensures
        well_formed(step(s, op, fresh).0),
{
    match op {
        Operation::Push { messages, tools, respond } => {
            if routes_tool_result(s, messages) {
                let t = s.active.unwrap();
                if messages.len() > t.snapshot.len() {
                    assert(messages.subrange(0, messages.drop_last().len() as int) =~= messages.drop_last());
                }
            } else {
                let queued = enqueue(s, messages, tools, respond);
                if can_advance(queued) {
                    assert(queued.last_snapshot.subrange(0, queued.last_snapshot.len() as int) =~= queued.last_snapshot);
                }
            }
        },
        Operation::Read => {
            if has_delta(s) {
                let t = s.active.unwrap();
                assert(t.messages.subrange(0, t.messages.len() as int) =~= t.messages);
            }
        },
        Operation::Write => {
            let finished = finish_turn(s);
            if can_advance(finished) {
                assert(finished.last_snapshot.subrange(0, finished.last_snapshot.len() as int) =~= finished.last_snapshot);
            }
        },
        _ => {},
    }
}

/// One step of the queue: what waited plus what arrived is what was served
/// plus what still waits.
pub proof fn step_keeps_arrival_order(s: StateView, op: Operation, fresh: Seq<char>)
    ensures
        s.queue + arrived(s, op) == served(s, op) + step(s, op, fresh).0.queue,
{
    match op {
        Operation::Push { messages, tools, respond } => {
            let queued = enqueue(s, messages, tools, respond);
            if !routes_tool_result(s, messages) && can_advance(queued) {
                assert(queued.queue =~= seq![queued.queue[0]] + queued.queue.drop_first());
            } else if routes_tool_result(s, messages) {
                assert(s.queue + Seq::<PendingView>::empty() =~= Seq::<PendingView>::empty() + s.queue);
            } else {
                assert(s.queue + arrived(s, op) =~= Seq::<PendingView>::empty() + queued.queue);
            }
        },
        Operation::Write => {
            if can_advance(finish_turn(s)) {
                assert(s.queue + Seq::<PendingView>::empty() =~= seq![s.queue[0]] + s.queue.drop_first());
            } else {
                assert(s.queue + Seq::<PendingView>::empty() =~= Seq::<PendingView>::empty() + s.queue);
            }
        },
        _ => {
            assert(s.queue + Seq::<PendingView>::empty() =~= Seq::<PendingView>::empty() + step(s, op, fresh).0.queue);
        },
    }
}

/// Requests are served in the order they arrived, over any sequence of
/// operations: the requests waiting at the start followed by those that
/// arrived are the requests served, in order, followed by those still waiting.
pub proof fn requests_are_served_in_order(s: StateView, ops: Seq<Operation>, fresh: Seq<Seq<char>>)
    ensures
        s.queue + arrivals(s, ops, fresh) == served_all(s, ops, fresh) + run(s, ops, fresh).queue,
    decreases ops.len(),
{
    if ops.len() == 0 {
        assert(s.queue + Seq::<PendingView>::empty() =~= Seq::<PendingView>::empty() + s.queue);
    } else {
        let next = step(s, ops[0], fresh[0]).0;
        step_keeps_arrival_order(s, ops[0], fresh[0]);
        requests_are_served_in_order(next, ops.drop_first(), fresh.drop_first());
        let a = arrived(s, ops[0]);
        let b = served(s, ops[0]);
        let rest_a = arrivals(next, ops.drop_first(), fresh.drop_first());
        let rest_b = served_all(next, ops.drop_first(), fresh.drop_first());
        assert(s.queue + (a + rest_a) =~= (s.queue + a) + rest_a);
        assert((b + next.queue) + rest_a =~= b + (next.queue + rest_a));
        assert(b + (rest_b + run(next, ops.drop_first(), fresh.drop_first()).queue)
            =~= (b + rest_b) + run(next, ops.drop_first(), fresh.drop_first()).queue);
    }
}

/// One turn at a time: an active turn stays active, under the same id, through
/// every operation but the agent's text answer, and no other turn begins.
/// What the agent has seen of the turn never shrinks.
pub proof fn only_an_answer_ends_a_turn(s: StateView, op: Operation, fresh: Seq<char>)
    requires
        well_formed(s),
        allowed(s, op),
        s.active is Some,
        !(op matches Operation::Write),
    ensures
        step(s, op, fresh).0.active is Some,
        step(s, op, fresh).0.active.unwrap().id == s.active.unwrap().id,
        step(s, op, fresh).1 is None,
        s.active.unwrap().snapshot.len() <= step(s, op, fresh).0.active.unwrap().snapshot.len(),
{
}

/// A tool call waits for its result: through any allowed operations in which
/// no push is taken as a tool result, the turn keeps waiting on the same call.
pub proof fn tool_call_waits_for_its_result(s: StateView, ops: Seq<Operation>, fresh: Seq<Seq<char>>, waiter: u64)
    requires
        well_formed(s),
        s.active is Some,
        s.active.unwrap().tool_result == Some(waiter),
        allowed_run(s, ops, fresh),
        no_tool_result(s, ops, fresh),
    ensures
        run(s, ops, fresh).active is Some,
        run(s, ops, fresh).active.unwrap().tool_result == Some(waiter),
        run(s, ops, fresh).active.unwrap().id == s.active.unwrap().id,
    decreases ops.len(),
{
    if ops.len() > 0 {
        let next = step(s, ops[0], fresh[0]).0;
        operations_keep_the_invariant(s, ops[0], fresh[0]);
        only_an_answer_ends_a_turn(s, ops[0], fresh[0]);
        tool_call_waits_for_its_result(next, ops.drop_first(), fresh.drop_first(), waiter);
    }
}

/// The agent is told of a new tool list only when a new conversation begins,
/// whatever the operation: reads, tool calls, tool lists and tool results
/// start nothing; a continuation keeps the conversation id; a new conversation
/// gets the freshly drawn id and counts nothing as seen.
pub proof fn only_new_conversations_change_the_tool_list(s: StateView, op: Operation, fresh: Seq<char>)
    requires
        well_formed(s),
    ensures
        ({
            let (t, started) = step(s, op, fresh);
            &&& (op matches Operation::Read || op matches Operation::ListTools
                || op matches Operation::CallTool { .. }) ==> started is None
            &&& (op matches Operation::Push { messages, .. } && routes_tool_result(s, messages)) ==> started is None
            &&& started == Some(true) ==> t.active.unwrap().id == fresh && t.active.unwrap().snapshot.len() == 0
            &&& started == Some(false) ==> t.active.unwrap().id == s.last_conversation_id.unwrap()
        }),
{
}

/// What the exec operations state of an advancing queue is one `step` of the
/// queue, with the id the new turn got as the drawn id: the laws over `run`
/// cover every sequence of calls.
pub proof fn advancing_is_a_step(s: StateView, t: StateView, started: Option<bool>)
    requires
        consistent(s),
        advanced(s, t, started),
    ensures
        can_advance(s) ==> (t, started) == advance_step(s, t.active.unwrap().id),
        !can_advance(s) ==> (t, started) == advance_step(s, Seq::empty()),
{
}

/// No message is read twice within a turn: through any allowed operations but
/// the agent's text answer, the number of messages the agent has seen only
/// grows, and each read hands out only what follows them.
pub proof fn seen_messages_only_grow(s: StateView, ops: Seq<Operation>, fresh: Seq<Seq<char>>)
    requires
        well_formed(s),
        s.active is Some,
        allowed_run(s, ops, fresh),
        forall|i: int| 0 <= i < ops.len() ==> !(#[trigger] ops[i] matches Operation::Write),
    ensures
        run(s, ops, fresh).active is Some,
        run(s, ops, fresh).active.unwrap().id == s.active.unwrap().id,
        s.active.unwrap().snapshot.len() <= run(s, ops, fresh).active.unwrap().snapshot.len(),
    decreases ops.len(),
{
    if ops.len() > 0 {
        let next = step(s, ops[0], fresh[0]).0;
        assert(!(ops[0] matches Operation::Write));
        operations_keep_the_invariant(s, ops[0], fresh[0]);
        only_an_answer_ends_a_turn(s, ops[0], fresh[0]);
        let rest = ops.drop_first();
        assert forall|i: int| 0 <= i < rest.len() implies !(#[trigger] rest[i] matches Operation::Write) by {
            assert(rest[i] == ops[i + 1]);
        }
        seen_messages_only_grow(next, rest, fresh.drop_first());
    }
}

/// The turn a continuation starts counts as seen every message of the turn
/// it continues: its seen part is as long as that turn's messages, which its
/// own messages start with, and the agent had seen no more than those.
pub proof fn continuation_starts_after_the_finished_turn(s: StateView, fresh: Seq<char>)
    requires
        well_formed(s),
        writable(s),
    ensures
        ({
            let finished = s.active.unwrap();
            let (next, started) = step(s, Operation::Write, fresh);
            started == Some(false) ==> {
                &&& next.active.unwrap().id == finished.id
                &&& finished.snapshot.len() <= finished.messages.len()
                &&& next.active.unwrap().snapshot.len() == finished.messages.len()
                &&& starts_like(next.active.unwrap().messages, finished.messages)
                &&& delta(next) == next.active.unwrap().messages.skip(finished.messages.len() as int)
            }
        }),
{
}

/// No message of a conversation is read twice across its turns: from any
/// point of a turn, through any allowed operations but the agent's answer and
/// then the answer, a continuation that follows counts as seen at least what
/// the agent had seen, namely every message of the finished turn, and reads
/// only what comes after.
pub proof fn conversation_never_rereads(s: StateView, ops: Seq<Operation>, fresh: Seq<Seq<char>>, last_fresh: Seq<char>)
    requires
        well_formed(s),
        s.active is Some,
        allowed_run(s, ops, fresh),
        forall|i: int| 0 <= i < ops.len() ==> !(#[trigger] ops[i] matches Operation::Write),
        allowed(run(s, ops, fresh), Operation::Write),
    ensures
        ({
            let before = run(s, ops, fresh);
            let (next, started) = step(before, Operation::Write, last_fresh);
            started == Some(false) ==> {
                &&& next.active.unwrap().id == s.active.unwrap().id
                &&& s.active.unwrap().snapshot.len() <= next.active.unwrap().snapshot.len()
                &&& next.active.unwrap().snapshot.len() == before.active.unwrap().messages.len()
                &&& starts_like(next.active.unwrap().messages, before.active.unwrap().messages)
                &&& delta(next) == next.active.unwrap().messages.skip(before.active.unwrap().messages.len() as int)
            }
        }),
{
    seen_messages_only_grow(s, ops, fresh);
    run_keeps_the_invariant(s, ops, fresh);
    continuation_starts_after_the_finished_turn(run(s, ops, fresh), last_fresh);
}

/// Every allowed run keeps the state's invariant.
pub proof fn run_keeps_the_invariant(s: StateView, ops: Seq<Operation>, fresh: Seq<Seq<char>>)
    requires
        well_formed(s),
        allowed_run(s, ops, fresh),
    ensures
        well_formed(run(s, ops, fresh)),
    decreases ops.len(),
{
    if ops.len() > 0 {
        operations_keep_the_invariant(s, ops[0], fresh[0]);
        run_keeps_the_invariant(step(s, ops[0], fresh[0]).0, ops.drop_first(), fresh.drop_first());
    }
}

} // verus!
