//! The work on one line of input: which of its calls are answered at once,
//! which tools have to run, and the line that goes back in the end.
//!
//! The caller opens a line, runs the tools that it is asked for one after
//! the other, hands back what came of each, and closes the line.

use crate::dispatch::{ToolCall, ToolCallV};
use crate::json::{Json, JsonV};
use crate::json::parse_spec;
use crate::outside::parsed_request;
use crate::protocol::{
    asks_no_answer, call_from, decode, incoming_spec, lacks_id, lemma_answered_under_its_id,
    malformed, malformed_reply, owes_reply, plan, plan_spec, readings, render, reply_views,
    request_id, response_text, tool_reply, tool_reply_spec, CallV, Incoming, IncomingV, Plan,
    PlanV, Reply, ReplyV, RequestId, RequestIdV,
};
use crate::text::trim_text;
use crate::{other_error, ErrorV, TauriMcpError};
use std::collections::VecDeque;
use vstd::prelude::*;

verus! {

/// The mathematical value of the work on one line.
pub struct LineV {
    /// Whether the line holds a batch of calls.
    pub batch: bool,
    /// The replies so far, in the order of their calls.
    pub done: Seq<ReplyV>,
    /// The id of the request whose tool runs right now.
    pub waiting: Option<RequestIdV>,
    /// What is to be done about the calls that have not been looked at.
    pub rest: Seq<PlanV>,
}

/// The error that stands for the outcome of a tool that was not run.
pub open spec fn not_run() -> ErrorV {
    other_error("Tool was not run"@)
}

/// What is to be done about the calls of a line, in their order.  A line
/// that is no request is answered with the reply for a malformed line.
pub open spec fn plans_of(incoming: IncomingV) -> Seq<PlanV> {
    match incoming {
        IncomingV::Blank => Seq::empty(),
        IncomingV::Malformed => seq![PlanV::Answer(malformed_reply())],
        IncomingV::Single(call) => seq![plan_spec(call)],
        IncomingV::Batch(calls) => Seq::new(calls.len(), |i: int| plan_spec(calls[i])),
    }
}

/// The work on a line at its start.
pub open spec fn opened(line: Seq<char>) -> LineV {
    LineV {
        batch: incoming_spec(line) is Batch,
        done: Seq::empty(),
        waiting: None,
        rest: plans_of(incoming_spec(line)),
    }
}

/// The work after the tool that ran came to `outcome`: its outcome is the
/// reply to the request that waited for it.  A tool that was not run
/// counts as failed.
pub open spec fn supplied(job: LineV, outcome: Option<Result<JsonV, ErrorV>>) -> LineV {
    match job.waiting {
        None => job,
        Some(id) => LineV {
            done: job.done.push(
                tool_reply_spec(
                    id,
                    match outcome {
                        Some(o) => o,
                        None => Err(not_run()),
                    },
                ),
            ),
            waiting: None,
            ..job
        },
    }
}

/// The work after the calls were gone through up to the next tool that has
/// to run, and that tool.  A call that is owed no reply is passed over, and
/// a reply that is known is put down.
pub open spec fn advanced(job: LineV) -> (LineV, Option<ToolCallV>)
    decreases job.rest.len(),
{
    if job.rest.len() == 0 {
        (job, None)
    } else {
        let rest = job.rest.drop_first();
        match job.rest[0] {
            PlanV::Silent => advanced(LineV { rest, ..job }),
            PlanV::Answer(reply) => advanced(LineV { done: job.done.push(reply), rest, ..job }),
            PlanV::Run { id, call } => (LineV { waiting: Some(id), rest, ..job }, Some(call)),
        }
    }
}

/// One step of the work: the outcome of the tool that ran is taken in, and
/// the calls are gone through up to the next tool.
pub open spec fn stepped(job: LineV, outcome: Option<Result<JsonV, ErrorV>>) -> (
    LineV,
    Option<ToolCallV>,
) {
    advanced(supplied(job, outcome))
}

/// The line that goes back: the replies so far as one response, and none
/// where there is no reply.
pub open spec fn closed(job: LineV) -> Option<Seq<char>> {
    response_text(job.batch, job.done)
}

/// The number of `plans` that end in a reply.
pub open spec fn replies_owed(plans: Seq<PlanV>) -> nat
    decreases plans.len(),
{
    if plans.len() == 0 {
        0
    } else if plans[0] is Silent {
        replies_owed(plans.drop_first())
    } else {
        1 + replies_owed(plans.drop_first())
    }
}

/// The value of the outcome of a tool.
pub open spec fn outcome_value(outcome: Option<Result<Json, TauriMcpError>>) -> Option<
    Result<JsonV, ErrorV>,
> {
    match outcome {
        Some(Ok(j)) => Some(Ok(j@)),
        Some(Err(e)) => Some(Err(e@)),
        None => None,
    }
}

/// The value of a tool that is asked for.
pub open spec fn asked(call: Option<ToolCall>) -> Option<ToolCallV> {
    match call {
        Some(c) => Some(c@),
        None => None,
    }
}

/// The values of `plans`, in order.
pub open spec fn plan_views(plans: Seq<Plan>) -> Seq<PlanV> {
    Seq::new(plans.len(), |i: int| plans[i]@)
}

/// The work on one line of input.
pub struct LineJob {
    batch: bool,
    done: Vec<Reply>,
    waiting: Option<RequestId>,
    rest: VecDeque<Plan>,
}

impl View for LineJob {
    type V = LineV;

    closed spec fn view(&self) -> LineV {
        LineV {
            batch: self.batch,
            done: reply_views(self.done@),
            waiting: match self.waiting {
                Some(id) => Some(id@),
                None => None,
            },
            rest: plan_views(self.rest@),
        }
    }
}

impl LineJob {
    /// Opens the work on `line`: reads it and decides about each of its
    /// calls.
    pub fn open(line: &str) -> (job: LineJob)
        ensures
            job@ == opened(line@),
    {
        let incoming = decode(line);
        let mut rest: VecDeque<Plan> = VecDeque::new();
        let mut batch = false;
        match incoming {
            Incoming::Blank => {},
            Incoming::Malformed => {
                rest.push_back(Plan::Answer(malformed()));
            },
            Incoming::Single(call) => {
                rest.push_back(plan(call));
            },
            Incoming::Batch(calls) => {
                batch = true;
                let ghost all = crate::protocol::call_views(calls@);
                for call in iter: calls
                    invariant
                        all == crate::protocol::call_views(iter.seq()),
                        rest@.len() == iter.index@,
                        forall|k: int| 0 <= k < rest@.len() ==> rest@[k]@ == plan_spec(all[k]),
                {
                    rest.push_back(plan(call));
                }
            },
        }
        let job = LineJob { batch, done: Vec::new(), waiting: None, rest };
        proof {
            assert(job@.done =~= Seq::<ReplyV>::empty());
            assert(job@.rest =~= plans_of(incoming_spec(line@)));
        }
        job
    }

    /// Whether the line holds a batch of calls.
    pub fn is_batch(&self) -> (batch: bool)
        ensures
            batch == self@.batch,
    {
        self.batch
    }

    /// The next tool that has to run.  `outcome` is what came of the tool
    /// that was asked for before; it becomes the reply to its request.
    /// `None` where no tool is left; the line can then be closed.
    pub fn next_tool(&mut self, outcome: Option<Result<Json, TauriMcpError>>) -> (call: Option<
        ToolCall,
    >)
        ensures
            (final(self)@, asked(call)) == stepped(old(self)@, outcome_value(outcome)),
    {
        let ghost before = self@;
        let mut waiting: Option<RequestId> = None;
        core::mem::swap(&mut self.waiting, &mut waiting);
        match waiting {
            Some(id) => {
                let ghost had = reply_views(self.done@);
                let reply = match outcome {
                    Some(o) => tool_reply(id, o),
                    None => tool_reply(id, Err(TauriMcpError::Other("Tool was not run".to_owned()))),
                };
                self.done.push(reply);
                proof {
                    assert(reply_views(self.done@) =~= had.push(reply@));
                }
            },
            None => {},
        }
        proof {
            assert(self@ == supplied(before, outcome_value(outcome)));
        }
        let ghost start = self@;
        loop
            invariant
                self@.waiting is None,
                start == supplied(before, outcome_value(outcome)),
                before == old(self)@,
                advanced(self@) == advanced(start),
            decreases self@.rest.len(),
        {
            let ghost now = self@;
            let ghost had = reply_views(self.done@);
            match self.rest.pop_front() {
                None => {
                    proof {
                        assert(self@ == now);
                        assert(advanced(now) == (now, None::<ToolCallV>));
                    }
                    return None;
                },
                Some(next) => {
                    proof {
                        assert(plan_views(self.rest@) =~= now.rest.drop_first());
                        assert(next@ == now.rest[0]);
                    }
                    match next {
                        Plan::Silent => {},
                        Plan::Answer(reply) => {
                            self.done.push(reply);
                            proof {
                                assert(reply_views(self.done@) =~= had.push(reply@));
                            }
                        },
                        Plan::Run { id, call } => {
                            self.waiting = Some(id);
                            proof {
                                assert(advanced(now) == (self@, Some(call@)));
                            }
                            return Some(call);
                        },
                    }
                },
            }
        }
    }

    /// Closes the line: hands out the line that goes back, if there is one.
    pub fn close(self) -> (line: Option<String>)
        ensures
            match line {
                Some(text) => closed(self@) == Some(text@),
                None => closed(self@) is None,
            },
    {
        render(self.batch, &self.done)
    }
}

/// Going through calls puts down one reply for each call that is owed one
/// and is answered at once, in the order of the calls, and stops at the
/// first tool that has to run.
pub proof fn lemma_advanced(job: LineV)
    ensures
        advanced(job).0.batch == job.batch,
        advanced(job).0.done.len() >= job.done.len(),
        advanced(job).0.done.take(job.done.len() as int) == job.done,
        advanced(job).1 is None ==> advanced(job).0.rest.len() == 0 && advanced(job).0.waiting
            == job.waiting && advanced(job).0.done.len() == job.done.len() + replies_owed(
            job.rest,
        ),
        advanced(job).1 is Some ==> advanced(job).0.waiting is Some,
    decreases job.rest.len(),
{
    if job.rest.len() > 0 {
        let rest = job.rest.drop_first();
        match job.rest[0] {
            PlanV::Silent => {
                lemma_advanced(LineV { rest, ..job });
            },
            PlanV::Answer(reply) => {
                let next = LineV { done: job.done.push(reply), rest, ..job };
                lemma_advanced(next);
                assert(advanced(next).0.done.take(job.done.len() as int) =~= advanced(
                    next,
                ).0.done.take(next.done.len() as int).take(job.done.len() as int));
                assert(job.done.push(reply).take(job.done.len() as int) =~= job.done);
            },
            PlanV::Run { id, call } => {},
        }
    } else {
        assert(job.done.take(job.done.len() as int) =~= job.done);
    }
}

/// A line none of whose calls is owed a reply is never answered: no tool is
/// asked for, and nothing goes back.  Such are the blank line, the
/// notification, the document with a method and without an id, and the
/// batch of such.
pub proof fn lemma_unanswered_line(line: Seq<char>)
    requires
        replies_owed(plans_of(incoming_spec(line))) == 0,
    ensures
        stepped(opened(line), None).1 is None,
        closed(stepped(opened(line), None).0) is None,
{
    let job = opened(line);
    lemma_nothing_owed(job);
}

/// Where no reply is owed, no tool is asked for and no reply is put down.
proof fn lemma_nothing_owed(job: LineV)
    requires
        replies_owed(job.rest) == 0,
    ensures
        advanced(job).1 is None,
        advanced(job).0.done == job.done,
    decreases job.rest.len(),
{
    if job.rest.len() > 0 {
        lemma_nothing_owed(LineV { rest: job.rest.drop_first(), ..job });
    }
}

/// A notification is owed no reply, and neither is a document with a method
/// and without an id; so a line that holds one of them, or a batch of them,
/// is never answered.
pub proof fn lemma_notifications_owe_nothing(calls: Seq<CallV>)
    requires
        forall|i: int| 0 <= i < calls.len() ==> !owes_reply(#[trigger] calls[i]),
    ensures
        replies_owed(Seq::new(calls.len(), |i: int| plan_spec(calls[i]))) == 0,
        calls.len() == 1 ==> replies_owed(seq![plan_spec(calls[0])]) == 0,
    decreases calls.len(),
{
    let plans = Seq::new(calls.len(), |i: int| plan_spec(calls[i]));
    if calls.len() > 0 {
        let rest = calls.drop_first();
        assert forall|i: int| 0 <= i < rest.len() implies !owes_reply(#[trigger] rest[i]) by {
            assert(rest[i] == calls[i + 1]);
        }
        lemma_notifications_owe_nothing(rest);
        assert(plans.drop_first() =~= Seq::new(rest.len(), |i: int| plan_spec(rest[i])));
        assert(plans[0] == plan_spec(calls[0]));
        if calls.len() == 1 {
            assert(seq![plan_spec(calls[0])] =~= plans);
        }
    }
}

/// A single request is answered with exactly one response: at once where
/// the reply is known, and else once its tool has run.
pub proof fn lemma_request_gets_one_response(
    line: Seq<char>,
    call: CallV,
    outcome: Option<Result<JsonV, ErrorV>>,
)
    requires
        incoming_spec(line) == IncomingV::Single(call),
        owes_reply(call),
    ensures
        match stepped(opened(line), None).1 {
            None => stepped(opened(line), None).0.done.len() == 1 && closed(
                stepped(opened(line), None).0,
            ) is Some,
            Some(tool) => stepped(stepped(opened(line), None).0, outcome).1 is None && stepped(
                stepped(opened(line), None).0,
                outcome,
            ).0.done.len() == 1 && closed(stepped(stepped(opened(line), None).0, outcome).0)
                is Some,
        },
{
    let job = opened(line);
    let plans = seq![plan_spec(call)];
    assert(job.rest == plans);
    assert(plans.drop_first() =~= Seq::<PlanV>::empty());
    let first = advanced(job);
    match plan_spec(call) {
        PlanV::Silent => {},
        PlanV::Answer(reply) => {
            let next = LineV { done: job.done.push(reply), rest: plans.drop_first(), ..job };
            assert(advanced(next) == (next, None::<ToolCallV>));
        },
        PlanV::Run { id, call: tool } => {
            let running = LineV { waiting: Some(id), rest: plans.drop_first(), ..job };
            assert(first.0 == running);
            let after = supplied(running, outcome);
            assert(advanced(after) == (after, None::<ToolCallV>));
        },
    }
}

/// The number of replies that the work on a line ends in: those that are
/// put down, the one that the running tool will bring, and those that the
/// calls not yet looked at are owed.
pub open spec fn replies_in_all(job: LineV) -> nat {
    job.done.len() + (if job.waiting is Some {
        1nat
    } else {
        0nat
    }) + replies_owed(job.rest)
}

/// The number of `items` that ask for an answer: all but those with a
/// method and without an id.
pub open spec fn answers_wanted(items: Seq<JsonV>) -> nat
    decreases items.len(),
{
    if items.len() == 0 {
        0
    } else if lacks_id(items[0]) {
        answers_wanted(items.drop_first())
    } else {
        1 + answers_wanted(items.drop_first())
    }
}

/// No step of the work changes the number of replies that the line ends
/// in; and once no tool is asked for, all of them are put down, so the line
/// that goes back holds exactly that many replies, and there is none where
/// that number is zero.
pub proof fn lemma_step_keeps_count(job: LineV, outcome: Option<Result<JsonV, ErrorV>>)
    ensures
        replies_in_all(stepped(job, outcome).0) == replies_in_all(job),
        stepped(job, outcome).0.batch == job.batch,
        stepped(job, outcome).1 is None ==> stepped(job, outcome).0.done.len() == replies_in_all(
            job,
        ),
        closed(job) is None <==> job.done.len() == 0,
{
    let taken = supplied(job, outcome);
    assert(replies_in_all(taken) == replies_in_all(job));
    lemma_advance_keeps_count(taken);
}

/// Going through the calls changes nothing of the number of replies that
/// the line ends in.
proof fn lemma_advance_keeps_count(job: LineV)
    requires
        job.waiting is None,
    ensures
        replies_in_all(advanced(job).0) == replies_in_all(job),
        advanced(job).0.batch == job.batch,
        advanced(job).1 is None ==> advanced(job).0.done.len() == replies_in_all(job),
    decreases job.rest.len(),
{
    if job.rest.len() > 0 {
        let rest = job.rest.drop_first();
        match job.rest[0] {
            PlanV::Silent => {
                lemma_advance_keeps_count(LineV { rest, ..job });
            },
            PlanV::Answer(reply) => {
                lemma_advance_keeps_count(LineV { done: job.done.push(reply), rest, ..job });
            },
            PlanV::Run { id, call } => {},
        }
    }
}

/// What is to be done about the items of a batch, where `read_items` holds
/// what the request made of each.
pub open spec fn batch_plans(raw_items: Seq<JsonV>, read_items: Seq<JsonV>) -> Seq<PlanV> {
    Seq::new(raw_items.len(), |i: int| plan_spec(call_from(raw_items[i], read_items[i])))
}

/// In a batch, each item that asks for an answer is owed one reply, and no
/// other item is owed any.
pub proof fn lemma_batch_owes_its_answers(raw_items: Seq<JsonV>, read_items: Seq<JsonV>)
    requires
        raw_items.len() == read_items.len(),
    ensures
        replies_owed(batch_plans(raw_items, read_items)) == answers_wanted(raw_items),
    decreases raw_items.len(),
{
    let plans = batch_plans(raw_items, read_items);
    if raw_items.len() > 0 {
        let raw_rest = raw_items.drop_first();
        let read_rest = read_items.drop_first();
        lemma_batch_owes_its_answers(raw_rest, read_rest);
        assert(plans.drop_first() =~= batch_plans(raw_rest, read_rest));
        lemma_answered_under_its_id(raw_items[0], read_items[0]);
        assert(plans[0] == plan_spec(call_from(raw_items[0], read_items[0])));
    }
}

/// Where none of `items` asks for an answer, none is wanted.
proof fn lemma_none_wanted(items: Seq<JsonV>)
    requires
        forall|i: int| 0 <= i < items.len() ==> lacks_id(#[trigger] items[i]),
    ensures
        answers_wanted(items) == 0,
    decreases items.len(),
{
    if items.len() > 0 {
        let rest = items.drop_first();
        assert forall|i: int| 0 <= i < rest.len() implies lacks_id(#[trigger] rest[i]) by {
            assert(rest[i] == items[i + 1]);
        }
        lemma_none_wanted(rest);
        assert(lacks_id(items[0]));
    }
}

/// How many replies a line ends in, by the document that it holds.  A
/// document with a method and without an id is never answered, whatever
/// method it names and whatever else it holds.  Any other document that is
/// no array is answered exactly once.  An array none of whose items asks
/// for an answer is never answered; and an array that is read as a request
/// is answered once for each item that asks for an answer and is a batch.
pub proof fn lemma_line_is_answered_by_its_ids(line: Seq<char>, raw: JsonV)
    requires
        trim_text(line).len() > 0,
        parse_spec(trim_text(line)) == Ok::<JsonV, Seq<char>>(raw),
    ensures
        replies_in_all(opened(line)) == replies_owed(plans_of(incoming_spec(line))),
        !(raw is Array) && lacks_id(raw) ==> replies_in_all(opened(line)) == 0,
        !(raw is Array) && !lacks_id(raw) ==> replies_in_all(opened(line)) == 1,
        asks_no_answer(raw) ==> replies_in_all(opened(line)) == 0,
        raw is Array && parsed_request(trim_text(line)) is Some ==> opened(line).batch
            && replies_in_all(opened(line)) == answers_wanted(raw->Array_0),
{
    let text = trim_text(line);
    let incoming = incoming_spec(line);
    let job = opened(line);
    assert(job.done.len() == 0);
    match raw {
        JsonV::Array(raw_items) => {
            if parsed_request(text) is Some || asks_no_answer(raw) {
                let read = if parsed_request(text) is Some {
                    crate::outside::value_json(
                        crate::outside::request_value(parsed_request(text)->Some_0),
                    )
                } else {
                    raw
                };
                let read_items = readings(raw_items, read);
                assert(incoming == crate::protocol::request_calls(raw, read));
                let calls = Seq::new(
                    raw_items.len(),
                    |i: int| call_from(raw_items[i], read_items[i]),
                );
                assert(incoming == IncomingV::Batch(calls));
                assert(plans_of(incoming) =~= batch_plans(raw_items, read_items));
                lemma_batch_owes_its_answers(raw_items, read_items);
                if asks_no_answer(raw) {
                    lemma_none_wanted(raw_items);
                }
            }
        },
        _ => {
            if parsed_request(text) is Some || lacks_id(raw) {
                let read = if parsed_request(text) is Some {
                    crate::outside::value_json(
                        crate::outside::request_value(parsed_request(text)->Some_0),
                    )
                } else {
                    raw
                };
                assert(incoming == IncomingV::Single(call_from(raw, read)));
                lemma_answered_under_its_id(raw, read);
                let plans = seq![plan_spec(call_from(raw, read))];
                assert(plans_of(incoming) == plans);
                assert(plans.drop_first() =~= Seq::<PlanV>::empty());
                assert(replies_owed(plans.drop_first()) == 0);
                assert(replies_owed(plans) == (if lacks_id(raw) {
                    0nat
                } else {
                    1nat
                }));
            } else {
                assert(incoming == IncomingV::Malformed);
                let plans = seq![PlanV::Answer(malformed_reply())];
                assert(plans_of(incoming) == plans);
                assert(plans.drop_first() =~= Seq::<PlanV>::empty());
                assert(replies_owed(plans.drop_first()) == 0);
                assert(replies_owed(plans) == 1);
            }
        },
    }
}

/// The reply to a single document that is read as a request carries the id
/// of that document, whether the reply is known at once or a tool has to
/// run first.
pub proof fn lemma_reply_carries_the_id(
    line: Seq<char>,
    raw: JsonV,
    outcome: Option<Result<JsonV, ErrorV>>,
)
    requires
        trim_text(line).len() > 0,
        parse_spec(trim_text(line)) == Ok::<JsonV, Seq<char>>(raw),
        parsed_request(trim_text(line)) is Some,
        !(raw is Array),
        !lacks_id(raw),
    ensures
        match stepped(opened(line), None).1 {
            None => stepped(opened(line), None).0.done.len() == 1 && stepped(
                opened(line),
                None,
            ).0.done[0].id == request_id(raw),
            Some(tool) => stepped(stepped(opened(line), None).0, outcome).1 is None && stepped(
                stepped(opened(line), None).0,
                outcome,
            ).0.done.len() == 1 && stepped(stepped(opened(line), None).0, outcome).0.done[0].id
                == request_id(raw),
        },
{
    let text = trim_text(line);
    let read = crate::outside::value_json(
        crate::outside::request_value(parsed_request(text)->Some_0),
    );
    let call = call_from(raw, read);
    assert(incoming_spec(line) == IncomingV::Single(call));
    lemma_answered_under_its_id(raw, read);
    let job = opened(line);
    let plans = seq![plan_spec(call)];
    assert(job.rest == plans);
    assert(plans.drop_first() =~= Seq::<PlanV>::empty());
    match plan_spec(call) {
        PlanV::Silent => {},
        PlanV::Answer(reply) => {
            let next = LineV { done: job.done.push(reply), rest: plans.drop_first(), ..job };
            assert(advanced(next) == (next, None::<ToolCallV>));
        },
        PlanV::Run { id, call: tool } => {
            let running = LineV { waiting: Some(id), rest: plans.drop_first(), ..job };
            assert(advanced(job).0 == running);
            let after = supplied(running, outcome);
            assert(advanced(after) == (after, None::<ToolCallV>));
        },
    }
}

} // verus!
