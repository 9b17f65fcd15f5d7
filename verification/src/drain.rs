//! The event drain: at the start of each render cycle the main loop
//! applies every queued worker event, in arrival order, to the UI state.

use vstd::prelude::*;

use crate::dispatch::TuiEvent;
use crate::domain::Task;
use crate::input::App;

verus! {

/// The task snapshot after applying a run of events in order: each fresh
/// list replaces the snapshot wholesale, errors leave it alone.
pub open spec fn tasks_after(tasks: Vec<Task>, events: Seq<TuiEvent>) -> Vec<Task>
    decreases events.len(),
{
    if events.len() == 0 {
        tasks
    } else {
        tasks_after(
            match events[0] {
                TuiEvent::TasksFetched(ts) => ts,
                TuiEvent::Error(_) => tasks,
            },
            events.drop_first(),
        )
    }
}

/// The messages of the error events in a run, in arrival order: what the
/// drain hands to the diagnostic log instead of the screen.
pub open spec fn error_logs(events: Seq<TuiEvent>) -> Seq<String>
    decreases events.len(),
{
    if events.len() == 0 {
        Seq::empty()
    } else {
        match events[0] {
            TuiEvent::Error(m) => seq![m] + error_logs(events.drop_first()),
            TuiEvent::TasksFetched(_) => error_logs(events.drop_first()),
        }
    }
}

/// Applies one worker event: a fresh list replaces the snapshot, an error
/// touches nothing and comes back as a message for the diagnostic log.
/// No event moves the cursors, the mode, the buffer or the filter.
pub fn apply_event(app: &mut App, event: TuiEvent) -> (log: Option<String>)
    ensures
        match event {
            TuiEvent::TasksFetched(ts) => {
                &&& *final(app) == (App { tasks: final(app).tasks, ..*old(app) })
                &&& final(app).tasks == ts
                &&& log is None
            },
            TuiEvent::Error(m) => *final(app) == *old(app) && log == Some(m),
        },
{
    match event {
        TuiEvent::TasksFetched(ts) => {
            app.tasks = ts;
            None
        },
        TuiEvent::Error(m) => Some(m),
    }
}

/// Drains a whole run of events in arrival order and returns the error
/// messages to log, oldest first.
pub fn drain_events(app: &mut App, events: Vec<TuiEvent>) -> (logs: Vec<String>)
    ensures
        *final(app) == (App { tasks: final(app).tasks, ..*old(app) }),
        final(app).tasks == tasks_after(old(app).tasks, events@),
        logs@ == error_logs(events@),
{
    let mut events = events;
    let ghost all = events@;
    let mut logs: Vec<String> = Vec::new();
    proof {
        assert(logs@ + error_logs(all) =~= error_logs(all));
    }
    while events.len() > 0
        invariant
            *app == (App { tasks: app.tasks, ..*old(app) }),
            tasks_after(app.tasks, events@) == tasks_after(old(app).tasks, all),
            logs@ + error_logs(events@) == error_logs(all),
        decreases events.len(),
    {
        let ghost before = events@;
        let ghost logs_before = logs@;
        let e = events.remove(0);
        let ghost ge = e;
        proof {
            assert(events@ =~= before.drop_first());
            assert(before[0] == ge);
        }
        match apply_event(app, e) {
            Some(m) => {
                logs.push(m);
                proof {
                    assert(error_logs(before) == seq![m] + error_logs(events@));
                    assert(logs_before.push(m) + error_logs(events@) =~= logs_before + (seq![m]
                        + error_logs(events@)));
                }
            },
            None => {
                proof {
                    match ge {
                        TuiEvent::TasksFetched(ts) => {
                            assert(tasks_after(app.tasks, events@) == tasks_after(
                                old(app).tasks,
                                all,
                            ));
                        },
                        TuiEvent::Error(_) => {},
                    }
                }
            },
        }
    }
    proof {
        assert(logs@ + error_logs(events@) =~= logs@);
    }
    logs
}

} // verus!
