//! The renderer: a pure mapping from the UI state to what one frame
//! shows. Drawing primitives live outside; this fixes the content.

use vstd::prelude::*;
use vstd::string::StringExecFns;

use crate::domain::{Filter, Priority};
use crate::input::{App, InputMode, get_menu_filters, menu_entries};

verus! {

/// The done marker shown at the left of a row.
pub open spec fn marker_of(done: bool) -> Seq<char> {
    if done {
        "[x]"@
    } else {
        "[ ]"@
    }
}

/// The priority tag shown at the right of a row.
pub open spec fn tag_of(p: Priority) -> Seq<char> {
    match p {
        Priority::Low => "(L)"@,
        Priority::Medium => "(M)"@,
        Priority::High => "(H)"@,
    }
}

/// The label inside the list border: the active filter's name; while a
/// priority filter is active the priority shown is the considered one.
pub open spec fn filter_label(f: Filter, considered: Priority) -> Seq<char> {
    match f {
        Filter::All => "All"@,
        Filter::Todo => "Todo"@,
        Filter::Done => "Done"@,
        Filter::Priority(_) => "Priority "@ + tag_of(considered),
    }
}

/// The key reference shown in the footer for each mode.
pub open spec fn help_line(m: InputMode) -> Seq<char> {
    match m {
        InputMode::Normal => "q: quit | <CR>: toggle done | d: delete task | i: add task | e: edit task | r: refresh"@,
        InputMode::Editing => "esc: exit editing mode | <CR>: submit"@,
        InputMode::Filter => "esc: exit filter mode | left/right: change priority | <CR>: filter"@,
    }
}

/// One displayed task row: done marker, the task's text, priority tag.
#[derive(Debug)]
pub struct TaskRow {
    pub marker: String,
    pub text: String,
    pub tag: String,
}

/// The modal overlay over the list region: none, the edit box with the
/// input buffer, or the filter menu with its cursor.
#[derive(Debug)]
pub enum Overlay {
    Closed,
    EditBox(String),
    FilterMenu(Vec<Filter>, Option<usize>),
}

/// Everything one frame shows: title, list border label, the task rows,
/// which row is highlighted (none while the filter menu is open), the
/// overlay, and the footer help line.
#[derive(Debug)]
pub struct Screen {
    pub title: String,
    pub list_title: String,
    pub rows: Vec<TaskRow>,
    pub highlighted: Option<usize>,
    pub overlay: Overlay,
    pub help: String,
}

/// Lays out one frame from the UI state.
pub fn render(app: &App) -> (s: Screen)
    ensures
        s.title@ == "todo"@,
        s.list_title@ == "Tasks ("@ + filter_label(app.filter, app.priority) + ")"@,
        s.rows@.len() == app.tasks@.len(),
        forall|i: int|
            0 <= i < app.tasks@.len() ==> {
                &&& (#[trigger] s.rows@[i]).marker@ == marker_of(app.tasks@[i].done)
                &&& s.rows@[i].text@ == app.tasks@[i].text@
                &&& s.rows@[i].tag@ == tag_of(app.tasks@[i].priority)
            },
        app.mode is Filter ==> s.highlighted is None,
        app.mode !is Filter ==> s.highlighted == app.todo_selected,
        match app.mode {
            InputMode::Normal => s.overlay is Closed,
            InputMode::Editing => s.overlay matches Overlay::EditBox(b) && b@ == app.input@,
            InputMode::Filter => s.overlay matches Overlay::FilterMenu(m, sel) && m@
                == menu_entries(app.priority) && sel == app.filter_selected,
        },
        s.help@ == help_line(app.mode),
{
    let title = "todo".to_owned();

    let mut list_title = "Tasks (".to_owned();
    match app.filter {
        Filter::All => list_title.append("All"),
        Filter::Todo => list_title.append("Todo"),
        Filter::Done => list_title.append("Done"),
        Filter::Priority(_) => {
            list_title.append("Priority ");
            list_title.append(app.priority.tag());
            proof {
                assert(("Tasks ("@ + "Priority "@) + tag_of(app.priority) =~= "Tasks ("@ + (
                "Priority "@ + tag_of(app.priority)));
            }
        },
    }
    list_title.append(")");

    let mut rows: Vec<TaskRow> = Vec::new();
    let n = app.tasks.len();
    let mut i: usize = 0;
    while i < n
        invariant
            n == app.tasks@.len(),
            i <= n,
            rows@.len() == i,
            forall|k: int|
                0 <= k < i ==> {
                    &&& (#[trigger] rows@[k]).marker@ == marker_of(app.tasks@[k].done)
                    &&& rows@[k].text@ == app.tasks@[k].text@
                    &&& rows@[k].tag@ == tag_of(app.tasks@[k].priority)
                },
        decreases n - i,
    {
        let t = &app.tasks[i];
        let marker = if t.done {
            "[x]".to_owned()
        } else {
            "[ ]".to_owned()
        };
        rows.push(TaskRow { marker, text: t.text.clone(), tag: t.priority.tag().to_owned() });
        i += 1;
    }

    let highlighted = match app.mode {
        InputMode::Filter => None,
        _ => app.todo_selected,
    };

    let overlay = match app.mode {
        InputMode::Normal => Overlay::Closed,
        InputMode::Editing => Overlay::EditBox(app.input.clone()),
        InputMode::Filter => Overlay::FilterMenu(
            get_menu_filters(app.priority),
            app.filter_selected,
        ),
    };

    let help = match app.mode {
        InputMode::Normal => "q: quit | <CR>: toggle done | d: delete task | i: add task | e: edit task | r: refresh".to_owned(),
        InputMode::Editing => "esc: exit editing mode | <CR>: submit".to_owned(),
        InputMode::Filter => "esc: exit filter mode | left/right: change priority | <CR>: filter".to_owned(),
    };

    Screen { title, list_title, rows, highlighted, overlay, help }
}

} // verus!
