//! The background worker's dispatch rules: what one queued action makes
//! the remote client do, in what order, and which events come back.
//!
//! The worker consumes actions one at a time in submission order. A fetch
//! is a single read. A mutation is a write followed — only on success — by
//! one re-read under the action's attached filter; a failed write reports
//! a single error and nothing else, so a stale list is never papered over.

use vstd::prelude::*;

use crate::domain::{Filter, Priority, Task};

verus! {

/// An intent the UI hands to the background worker. Every mutating intent
/// carries the filter to re-apply once the mutation lands.
#[derive(Debug, PartialEq)]
pub enum Action {
    Fetch(Filter),
    Create(String, Filter),
    Delete(i64, Filter),
    Update(i64, Option<String>, Option<bool>, Option<Priority>, Filter),
}

/// A result the worker delivers back to the UI: a fresh snapshot of the
/// list, or the message of a failed step.
#[derive(Debug, PartialEq)]
pub enum TuiEvent {
    TasksFetched(Vec<Task>),
    Error(String),
}

/// One call into the remote client, as the remote side observes it.
#[derive(Debug, PartialEq)]
pub enum ClientCall {
    Fetch(Filter),
    Create(String),
    Delete(i64),
    Update(i64, Option<String>, Option<bool>, Option<Priority>),
}

/// The filter a mutating action asks to re-apply afterwards; for a fetch,
/// the filter it reads under.
pub open spec fn attached_filter(a: Action) -> Filter {
    match a {
        Action::Fetch(f) => f,
        Action::Create(_, f) => f,
        Action::Delete(_, f) => f,
        Action::Update(_, _, _, _, f) => f,
    }
}

/// The first call the worker makes for an action.
pub open spec fn first_call(a: Action) -> ClientCall {
    match a {
        Action::Fetch(f) => ClientCall::Fetch(f),
        Action::Create(text, _) => ClientCall::Create(text),
        Action::Delete(id, _) => ClientCall::Delete(id),
        Action::Update(id, text, done, priority, _) => ClientCall::Update(
            id,
            text,
            done,
            priority,
        ),
    }
}

/// Every call the worker makes for one action: a fetch is one read; a
/// mutation is its write, followed by one read exactly when the write
/// succeeded.
pub open spec fn action_calls(a: Action, write_ok: bool) -> Seq<ClientCall> {
    if a is Fetch {
        seq![first_call(a)]
    } else if write_ok {
        seq![first_call(a), ClientCall::Fetch(attached_filter(a))]
    } else {
        seq![first_call(a)]
    }
}

/// The event a finished read turns into.
pub open spec fn fetched_event(r: Result<Vec<Task>, String>) -> TuiEvent {
    match r {
        Ok(tasks) => TuiEvent::TasksFetched(tasks),
        Err(m) => TuiEvent::Error(m),
    }
}

/// Every event the worker emits for one action. `write_res` is the
/// outcome of the write (unused for a fetch); `fetch_res` the outcome of
/// whichever read ran.
pub open spec fn action_events(
    a: Action,
    write_res: Result<(), String>,
    fetch_res: Result<Vec<Task>, String>,
) -> Seq<TuiEvent> {
    if a is Fetch {
        seq![fetched_event(fetch_res)]
    } else {
        match write_res {
            Ok(_) => seq![fetched_event(fetch_res)],
            Err(m) => seq![TuiEvent::Error(m)],
        }
    }
}

impl Action {
    /// Reads the attached filter off an action.
    pub fn filter(&self) -> (f: Filter)
        ensures
            f == attached_filter(*self),
    {
        match self {
            Action::Fetch(f) => *f,
            Action::Create(_, f) => *f,
            Action::Delete(_, f) => *f,
            Action::Update(_, _, _, _, f) => *f,
        }
    }

    /// Whether the action mutates the remote list (everything but a fetch).
    pub fn is_write(&self) -> (b: bool)
        ensures
            b == (*self !is Fetch),
    {
        match self {
            Action::Fetch(_) => false,
            _ => true,
        }
    }

    /// Turns the action into the first call the worker makes for it.
    pub fn into_call(self) -> (c: ClientCall)
        ensures
            c == first_call(self),
    {
        match self {
            Action::Fetch(f) => ClientCall::Fetch(f),
            Action::Create(text, _) => ClientCall::Create(text),
            Action::Delete(id, _) => ClientCall::Delete(id),
            Action::Update(id, text, done, priority, _) => ClientCall::Update(
                id,
                text,
                done,
                priority,
            ),
        }
    }
}

/// What the worker does after a write comes back: re-read under the
/// attached filter on success, report the error and stop on failure.
#[derive(Debug, PartialEq)]
pub enum WriteFollowUp {
    Refetch(Filter),
    Report(TuiEvent),
}

/// Decides the follow-up of a finished write. Success owes the UI a fresh
/// snapshot under `filter`; failure owes it exactly the error, with no
/// re-read masking the stale list.
pub fn write_follow_up(write_res: Result<(), String>, filter: Filter) -> (s: WriteFollowUp)
    ensures
        write_res is Ok ==> s == WriteFollowUp::Refetch(filter),
        write_res matches Err(m) ==> s == WriteFollowUp::Report(TuiEvent::Error(m)),
{
    match write_res {
        Ok(_) => WriteFollowUp::Refetch(filter),
        Err(m) => WriteFollowUp::Report(TuiEvent::Error(m)),
    }
}

/// Turns the outcome of a read into the event the UI receives.
pub fn fetched(fetch_res: Result<Vec<Task>, String>) -> (e: TuiEvent)
    ensures
        e == fetched_event(fetch_res),
{
    match fetch_res {
        Ok(tasks) => TuiEvent::TasksFetched(tasks),
        Err(m) => TuiEvent::Error(m),
    }
}

/// A failed write produces exactly one event — an error — and no
/// follow-up read; a successful write produces exactly one follow-up
/// read, under the action's own attached filter.
pub proof fn lemma_write_outcome(
    a: Action,
    write_res: Result<(), String>,
    fetch_res: Result<Vec<Task>, String>,
)
    requires
        a !is Fetch,
    ensures
        write_res matches Err(m) ==> {
            &&& action_events(a, write_res, fetch_res) == seq![TuiEvent::Error(m)]
            &&& action_calls(a, false) == seq![first_call(a)]
            &&& forall|k: int|
                0 <= k < action_calls(a, false).len() ==> #[trigger] action_calls(a, false)[k]
                    !is Fetch
        },
        write_res is Ok ==> {
            &&& action_calls(a, true) == seq![
                first_call(a),
                ClientCall::Fetch(attached_filter(a)),
            ]
            &&& action_calls(a, true)[0] !is Fetch
            &&& action_events(a, write_res, fetch_res) == seq![fetched_event(fetch_res)]
        },
{
    assert(first_call(a) !is Fetch);
    assert(action_calls(a, false) =~= seq![first_call(a)]);
    assert(action_calls(a, true) =~= seq![first_call(a), ClientCall::Fetch(attached_filter(a))]);
}

/// Every call the worker makes while consuming a whole queue of actions,
/// in the order the remote client observes them. `write_oks[i]` is
/// whether the write of `actions[i]` succeeded (ignored for fetches).
pub open spec fn worker_trace(actions: Seq<Action>, write_oks: Seq<bool>) -> Seq<ClientCall>
    decreases actions.len(),
{
    if actions.len() == 0 {
        Seq::empty()
    } else {
        action_calls(actions[0], write_oks[0]) + worker_trace(
            actions.drop_first(),
            write_oks.drop_first(),
        )
    }
}

/// Where the calls of `actions[i]` start inside the worker trace.
pub open spec fn trace_offset(actions: Seq<Action>, write_oks: Seq<bool>, i: int) -> int
    decreases i,
{
    if i <= 0 {
        0
    } else {
        action_calls(actions[0], write_oks[0]).len() + trace_offset(
            actions.drop_first(),
            write_oks.drop_first(),
            i - 1,
        )
    }
}

/// Actions enqueued in one order are observed by the remote client in
/// exactly that order: the calls of each action sit contiguously in the
/// trace at its offset, starting with its own first call, and offsets
/// grow strictly with the queue position.
pub proof fn lemma_worker_trace_in_order(actions: Seq<Action>, write_oks: Seq<bool>, i: int)
    requires
        write_oks.len() == actions.len(),
        0 <= i < actions.len(),
    ensures
        ({
            let trace = worker_trace(actions, write_oks);
            let off = trace_offset(actions, write_oks, i);
            let calls = action_calls(actions[i], write_oks[i]);
            &&& 0 <= off
            &&& off + calls.len() <= trace.len()
            &&& forall|k: int| 0 <= k < calls.len() ==> trace[off + k] == calls[k]
            &&& trace[off] == first_call(actions[i])
            &&& i + 1 < actions.len() ==> trace_offset(actions, write_oks, i) < trace_offset(
                actions,
                write_oks,
                i + 1,
            )
        }),
    decreases i,
{
    let trace = worker_trace(actions, write_oks);
    let head = action_calls(actions[0], write_oks[0]);
    let rest_trace = worker_trace(actions.drop_first(), write_oks.drop_first());
    if i == 0 {
        assert(forall|k: int| 0 <= k < head.len() ==> trace[k] == head[k]);
        if 1 < actions.len() {
            assert(trace_offset(actions, write_oks, 1) == head.len() + trace_offset(
                actions.drop_first(),
                write_oks.drop_first(),
                0,
            ));
        }
    } else {
        lemma_worker_trace_in_order(actions.drop_first(), write_oks.drop_first(), i - 1);
        assert(actions.drop_first()[i - 1] == actions[i]);
        assert(write_oks.drop_first()[i - 1] == write_oks[i]);
        let off_rest = trace_offset(actions.drop_first(), write_oks.drop_first(), i - 1);
        assert(trace_offset(actions, write_oks, i) == head.len() + off_rest);
        let calls = action_calls(actions[i], write_oks[i]);
        assert forall|k: int| 0 <= k < calls.len() implies trace[trace_offset(
            actions,
            write_oks,
            i,
        ) + k] == calls[k] by {
            assert(rest_trace[off_rest + k] == calls[k]);
            assert(trace[head.len() + off_rest + k] == rest_trace[off_rest + k]);
        }
        if i + 1 < actions.len() {
            assert(trace_offset(actions, write_oks, i + 1) == head.len() + trace_offset(
                actions.drop_first(),
                write_oks.drop_first(),
                i,
            ));
        }
    }
}

} // verus!
