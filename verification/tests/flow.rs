use todo_core::dispatch::{fetched, write_follow_up, Action, ClientCall, TuiEvent, WriteFollowUp};
use todo_core::domain::{Filter, Priority, Task, TaskQuery};
use todo_core::drain::{apply_event, drain_events};
use todo_core::input::{App, InputMode, Key, KeyOutcome};
use todo_core::model::TodoList;
use todo_core::render::{render, Overlay};

/// Drives the worker over a queue of actions, in submission order,
/// against a fake remote client: an in-memory list that records every
/// call it observes. Every write succeeds.
fn run_worker(
    actions: Vec<Action>,
    server: &mut TodoList,
    log: &mut Vec<ClientCall>,
    events: &mut Vec<TuiEvent>,
) {
    for action in actions {
        let filter = action.filter();
        let is_write = action.is_write();
        let call = action.into_call();
        if is_write {
            let res: Result<(), String> = match call {
                ClientCall::Create(text) => {
                    log.push(ClientCall::Create(text.clone()));
                    server.add(text);
                    Ok(())
                }
                ClientCall::Delete(id) => {
                    log.push(ClientCall::Delete(id));
                    server.delete(id);
                    Ok(())
                }
                ClientCall::Update(id, text, done, priority) => {
                    log.push(ClientCall::Update(id, text.clone(), done, priority));
                    server.update(id, text, done, priority);
                    Ok(())
                }
                ClientCall::Fetch(_) => unreachable!("a write action never starts with a read"),
            };
            match write_follow_up(res, filter) {
                WriteFollowUp::Refetch(f) => {
                    log.push(ClientCall::Fetch(f));
                    let tasks = server.fetch(&TaskQuery::from(f));
                    events.push(fetched(Ok(tasks)));
                }
                WriteFollowUp::Report(e) => events.push(e),
            }
        } else {
            match call {
                ClientCall::Fetch(f) => {
                    log.push(ClientCall::Fetch(f));
                    let tasks = server.fetch(&TaskQuery::from(f));
                    events.push(fetched(Ok(tasks)));
                }
                _ => unreachable!("a fetch action is a single read"),
            }
        }
    }
}

#[test]
fn actions_are_observed_in_submission_order() {
    let mut server = TodoList::default();
    let mut log = Vec::new();
    let mut events = Vec::new();
    let actions = vec![
        Action::Create("a".to_string(), Filter::All),
        Action::Update(1, Some("b".to_string()), None, None, Filter::All),
        Action::Delete(1, Filter::All),
    ];
    run_worker(actions, &mut server, &mut log, &mut events);
    assert_eq!(
        log,
        vec![
            ClientCall::Create("a".to_string()),
            ClientCall::Fetch(Filter::All),
            ClientCall::Update(1, Some("b".to_string()), None, None),
            ClientCall::Fetch(Filter::All),
            ClientCall::Delete(1),
            ClientCall::Fetch(Filter::All),
        ]
    );
    assert_eq!(events.len(), 3);
}

#[test]
fn failed_write_reports_one_error_and_no_refetch() {
    let action = Action::Create("a".to_string(), Filter::Todo);
    let filter = action.filter();
    let call = action.into_call();
    let mut log = Vec::new();
    match call {
        ClientCall::Create(text) => log.push(ClientCall::Create(text)),
        _ => unreachable!(),
    }
    let res: Result<(), String> = Err("connection refused".to_string());
    let mut events = Vec::new();
    match write_follow_up(res, filter) {
        WriteFollowUp::Refetch(_) => panic!("a failed write must not be followed by a read"),
        WriteFollowUp::Report(e) => events.push(e),
    }
    assert_eq!(events, vec![TuiEvent::Error("connection refused".to_string())]);
    assert!(log.iter().all(|c| !matches!(c, ClientCall::Fetch(_))));
}

#[test]
fn successful_write_refetches_under_the_attached_filter() {
    let res: Result<(), String> = Ok(());
    let step = write_follow_up(res, Filter::Done);
    assert_eq!(step, WriteFollowUp::Refetch(Filter::Done));
}

#[test]
fn create_while_todo_filter_shows_the_new_undone_task() {
    let mut server = TodoList::default();
    server.add("chore".to_string());
    server.mark_done(1).unwrap();

    let mut app = App::default();
    app.filter = Filter::Todo;

    let mut log = Vec::new();
    let mut events = Vec::new();
    run_worker(
        vec![Action::Create("buy milk".to_string(), Filter::Todo)],
        &mut server,
        &mut log,
        &mut events,
    );
    assert_eq!(log[0], ClientCall::Create("buy milk".to_string()));
    assert_eq!(log[1], ClientCall::Fetch(Filter::Todo));

    let logs = drain_events(&mut app, events);
    assert!(logs.is_empty());
    let texts: Vec<&str> = app.tasks.iter().map(|t| t.text.as_str()).collect();
    assert_eq!(texts, ["buy milk"]);
    assert!(!app.tasks[0].done);
}

#[test]
fn increase_priority_on_medium_emits_high_and_refetch_shows_it() {
    let mut server = TodoList::default();
    server.add("m".to_string());
    server.set_priority(1, Priority::Medium).unwrap();

    let mut app = App::default();
    app.tasks = server.get_list();
    app.todo_selected = Some(0);

    let out = app.handle_key(Key::Ctrl('a'));
    let action = match out {
        KeyOutcome::Emit(a) => a,
        _ => panic!("increase-priority must emit an action"),
    };
    assert_eq!(
        action,
        Action::Update(1, None, None, Some(Priority::High), Filter::All)
    );

    let mut log = Vec::new();
    let mut events = Vec::new();
    run_worker(vec![action], &mut server, &mut log, &mut events);
    let logs = drain_events(&mut app, events);
    assert!(logs.is_empty());
    assert_eq!(app.tasks[0].priority, Priority::High);
    assert_eq!(app.tasks[0].id, 1);
}

#[test]
fn editing_task_seven_submits_new_text_with_current_done() {
    let mut app = App::default();
    app.tasks = vec![Task { id: 7, text: "old".to_string(), done: false, priority: Priority::Low }];
    app.todo_selected = Some(0);

    assert_eq!(app.handle_key(Key::Char('e')), KeyOutcome::Idle);
    assert_eq!(app.mode, InputMode::Editing);
    assert_eq!(app.input, "old");
    assert_eq!(app.currently_editing_id, Some(7));

    for _ in 0..3 {
        app.handle_key(Key::Backspace);
    }
    for c in ['n', 'e', 'w'] {
        app.handle_key(Key::Char(c));
    }
    assert_eq!(app.input, "new");

    let out = app.handle_key(Key::Enter);
    assert_eq!(
        out,
        KeyOutcome::Emit(Action::Update(
            7,
            Some("new".to_string()),
            Some(false),
            None,
            Filter::All
        ))
    );
    assert_eq!(app.mode, InputMode::Normal);
    assert_eq!(app.input, "");
    assert_eq!(app.currently_editing_id, None);
}

#[test]
fn quit_refresh_and_new_task_keys() {
    let mut app = App::default();
    assert_eq!(app.handle_key(Key::Char('q')), KeyOutcome::Quit);
    assert_eq!(
        app.handle_key(Key::Char('r')),
        KeyOutcome::Emit(Action::Fetch(Filter::All))
    );
    app.currently_editing_id = Some(3);
    assert_eq!(app.handle_key(Key::Char('i')), KeyOutcome::Idle);
    assert_eq!(app.mode, InputMode::Editing);
    assert_eq!(app.input, "");
    assert_eq!(app.currently_editing_id, None);
}

#[test]
fn task_commands_without_a_selection_do_nothing() {
    let mut app = App::default();
    app.tasks = vec![Task { id: 1, text: "a".to_string(), done: false, priority: Priority::Low }];
    for key in [Key::Char('d'), Key::Char('e'), Key::Enter, Key::Ctrl('a'), Key::Ctrl('x')] {
        assert_eq!(app.handle_key(key), KeyOutcome::Idle);
        assert_eq!(app.mode, InputMode::Normal);
    }
    app.todo_selected = Some(5);
    assert_eq!(app.handle_key(Key::Char('d')), KeyOutcome::Idle);
}

#[test]
fn toggle_and_delete_on_the_selected_task() {
    let mut app = App::default();
    app.tasks = vec![
        Task { id: 1, text: "a".to_string(), done: false, priority: Priority::Low },
        Task { id: 2, text: "b".to_string(), done: true, priority: Priority::High },
    ];
    app.filter = Filter::Done;
    app.todo_selected = Some(1);
    assert_eq!(
        app.handle_key(Key::Enter),
        KeyOutcome::Emit(Action::Update(2, None, Some(false), None, Filter::Done))
    );
    assert_eq!(
        app.handle_key(Key::Char('d')),
        KeyOutcome::Emit(Action::Delete(2, Filter::Done))
    );
    assert_eq!(
        app.handle_key(Key::Ctrl('x')),
        KeyOutcome::Emit(Action::Update(2, None, None, Some(Priority::Medium), Filter::Done))
    );
}

#[test]
fn normal_mode_navigation_wraps_over_the_tasks() {
    let mut app = App::default();
    app.tasks = (1..4)
        .map(|i| Task { id: i, text: format!("t{i}"), done: false, priority: Priority::Low })
        .collect();
    assert_eq!(app.handle_key(Key::Down), KeyOutcome::Idle);
    assert_eq!(app.todo_selected, Some(0));
    app.handle_key(Key::Up);
    assert_eq!(app.todo_selected, Some(2));
    app.handle_key(Key::Char('j'));
    assert_eq!(app.todo_selected, Some(0));
    app.handle_key(Key::Char('k'));
    assert_eq!(app.todo_selected, Some(2));
}

#[test]
fn escape_discards_the_buffer_without_emitting() {
    let mut app = App::default();
    app.handle_key(Key::Char('i'));
    for c in ['a', 'b'] {
        app.handle_key(Key::Char(c));
    }
    assert_eq!(app.handle_key(Key::Esc), KeyOutcome::Idle);
    assert_eq!(app.mode, InputMode::Normal);
    assert_eq!(app.input, "");
}

#[test]
fn submitting_without_edit_target_creates() {
    let mut app = App::default();
    app.filter = Filter::Todo;
    app.handle_key(Key::Char('i'));
    for c in ['h', 'i'] {
        app.handle_key(Key::Char(c));
    }
    let out = app.handle_key(Key::Enter);
    assert_eq!(
        out,
        KeyOutcome::Emit(Action::Create("hi".to_string(), Filter::Todo))
    );
    assert_eq!(app.mode, InputMode::Normal);
    assert_eq!(app.input, "");
}

#[test]
fn filter_menu_cycle_and_apply() {
    let mut app = App::default();
    assert_eq!(app.handle_key(Key::Char('f')), KeyOutcome::Idle);
    assert_eq!(app.mode, InputMode::Filter);
    assert_eq!(app.filter_selected, Some(0));

    app.handle_key(Key::Up);
    assert_eq!(app.filter_selected, Some(3));
    app.handle_key(Key::Down);
    assert_eq!(app.filter_selected, Some(0));

    // the priority keys only act while the cursor sits on the fourth entry
    app.handle_key(Key::Ctrl('a'));
    assert_eq!(app.priority, Priority::Low);
    app.handle_key(Key::Up);
    app.handle_key(Key::Ctrl('a'));
    assert_eq!(app.priority, Priority::Medium);
    app.handle_key(Key::Ctrl('x'));
    assert_eq!(app.priority, Priority::Low);
    app.handle_key(Key::Ctrl('a'));

    let out = app.handle_key(Key::Enter);
    assert_eq!(app.mode, InputMode::Normal);
    assert_eq!(app.filter, Filter::Priority(Priority::Medium));
    assert_eq!(
        out,
        KeyOutcome::Emit(Action::Fetch(Filter::Priority(Priority::Medium)))
    );
}

#[test]
fn leaving_the_filter_menu_keeps_the_active_filter() {
    let mut app = App::default();
    app.filter = Filter::Done;
    app.handle_key(Key::Char('f'));
    app.handle_key(Key::Down);
    assert_eq!(app.handle_key(Key::Esc), KeyOutcome::Idle);
    assert_eq!(app.mode, InputMode::Normal);
    assert_eq!(app.filter, Filter::Done);
}

#[test]
fn drain_applies_snapshots_in_order_and_collects_errors() {
    let mut app = App::default();
    app.todo_selected = Some(1);
    let first = vec![Task { id: 1, text: "a".to_string(), done: false, priority: Priority::Low }];
    let second = vec![
        Task { id: 1, text: "a".to_string(), done: false, priority: Priority::Low },
        Task { id: 2, text: "b".to_string(), done: true, priority: Priority::High },
    ];
    let events = vec![
        TuiEvent::TasksFetched(first),
        TuiEvent::Error("boom".to_string()),
        TuiEvent::TasksFetched(second),
        TuiEvent::Error("again".to_string()),
    ];
    let logs = drain_events(&mut app, events);
    assert_eq!(logs, vec!["boom".to_string(), "again".to_string()]);
    assert_eq!(app.tasks.len(), 2);
    assert_eq!(app.tasks[1].text, "b");
    // errors and snapshots move nothing else
    assert_eq!(app.todo_selected, Some(1));
    assert_eq!(app.mode, InputMode::Normal);
}

#[test]
fn apply_error_leaves_the_snapshot_alone() {
    let mut app = App::default();
    app.tasks = vec![Task { id: 1, text: "a".to_string(), done: false, priority: Priority::Low }];
    let log = apply_event(&mut app, TuiEvent::Error("offline".to_string()));
    assert_eq!(log, Some("offline".to_string()));
    assert_eq!(app.tasks.len(), 1);
}

#[test]
fn render_shows_rows_markers_and_title() {
    let mut app = App::default();
    app.tasks = vec![
        Task { id: 1, text: "a".to_string(), done: true, priority: Priority::Medium },
        Task { id: 2, text: "b".to_string(), done: false, priority: Priority::Low },
    ];
    app.todo_selected = Some(1);
    let s = render(&app);
    assert_eq!(s.title, "todo");
    assert_eq!(s.list_title, "Tasks (All)");
    assert_eq!(s.rows.len(), 2);
    assert_eq!(s.rows[0].marker, "[x]");
    assert_eq!(s.rows[0].text, "a");
    assert_eq!(s.rows[0].tag, "(M)");
    assert_eq!(s.rows[1].marker, "[ ]");
    assert_eq!(s.highlighted, Some(1));
    assert!(matches!(s.overlay, Overlay::Closed));
    assert_eq!(
        s.help,
        "q: quit | <CR>: toggle done | d: delete task | i: add task | e: edit task | r: refresh"
    );
}

#[test]
fn render_in_filter_mode_hides_the_highlight_and_shows_the_menu() {
    let mut app = App::default();
    app.tasks = vec![Task { id: 1, text: "a".to_string(), done: false, priority: Priority::Low }];
    app.todo_selected = Some(0);
    app.filter = Filter::Priority(Priority::High);
    app.priority = Priority::High;
    app.mode = InputMode::Filter;
    app.filter_selected = Some(3);
    let s = render(&app);
    assert_eq!(s.list_title, "Tasks (Priority (H))");
    assert_eq!(s.highlighted, None);
    match s.overlay {
        Overlay::FilterMenu(entries, sel) => {
            assert_eq!(
                entries,
                vec![
                    Filter::All,
                    Filter::Todo,
                    Filter::Done,
                    Filter::Priority(Priority::High)
                ]
            );
            assert_eq!(sel, Some(3));
        }
        _ => panic!("filter mode must show the filter menu"),
    }
    assert_eq!(
        s.help,
        "esc: exit filter mode | left/right: change priority | <CR>: filter"
    );
}

#[test]
fn render_in_editing_mode_shows_the_buffer() {
    let mut app = App::default();
    app.mode = InputMode::Editing;
    app.input = "buy".to_string();
    let s = render(&app);
    match s.overlay {
        Overlay::EditBox(b) => assert_eq!(b, "buy"),
        _ => panic!("editing mode must show the edit box"),
    }
    assert_eq!(s.help, "esc: exit editing mode | <CR>: submit");
}
