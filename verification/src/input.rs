//! The mode-driven input state machine: how one key press moves the UI
//! state and which action, if any, it hands to the background worker.

use vstd::prelude::*;

use crate::dispatch::Action;
use crate::domain::{Filter, Priority, Task, raised, lowered};
use crate::model::{task_index, lemma_task_index, lemma_task_index_first};
use crate::navigate::{Direction, nav_target, navigate};

verus! {

/// How the next key press is interpreted.
#[derive(Clone, Copy, Debug, PartialEq, Eq, Structural)]
pub enum InputMode {
    Normal,
    Editing,
    Filter,
}

impl Default for InputMode {
    /// The UI starts out interpreting keys as list commands.
    fn default() -> (m: Self)
        ensures
            m == InputMode::Normal,
    {
        InputMode::Normal
    }
}

/// A key press, reduced to what the state machine distinguishes.
#[derive(Clone, Copy, Debug, PartialEq, Eq, Structural)]
pub enum Key {
    Char(char),
    Ctrl(char),
    Up,
    Down,
    Enter,
    Esc,
    Backspace,
}

/// The UI state the main loop owns: the last fetched snapshot, the two
/// selection cursors, the text buffer, and the active mode, filter and
/// considered priority.
#[derive(Debug)]
pub struct App {
    pub tasks: Vec<Task>,
    pub todo_selected: Option<usize>,
    pub filter_selected: Option<usize>,
    pub input: String,
    pub mode: InputMode,
    pub filter: Filter,
    pub currently_editing_id: Option<i64>,
    pub priority: Priority,
}

impl Default for App {
    /// A fresh session: nothing fetched yet, nothing selected, empty
    /// buffer, normal mode, the unrestricted filter, lowest considered
    /// priority.
    fn default() -> (a: Self)
        ensures
            a.tasks@ == Seq::<Task>::empty(),
            a.todo_selected is None,
            a.filter_selected is None,
            a.input@ == Seq::<char>::empty(),
            a.mode == InputMode::Normal,
            a.filter == Filter::All,
            a.currently_editing_id is None,
            a.priority == Priority::Low,
    {
        App {
            tasks: Vec::new(),
            todo_selected: None,
            filter_selected: None,
            input: String::new(),
            mode: InputMode::Normal,
            filter: Filter::All,
            currently_editing_id: None,
            priority: Priority::Low,
        }
    }
}

/// What one handled key press asks the main loop to do: end the session,
/// hand an action to the background worker, or nothing beyond the state
/// change already made.
#[derive(Debug, PartialEq)]
pub enum KeyOutcome {
    Quit,
    Emit(Action),
    Idle,
}

/// The task under the cursor, when the cursor points into the snapshot.
pub open spec fn selected_task(a: App) -> Option<Task> {
    match a.todo_selected {
        Some(i) => if i < a.tasks@.len() {
            Some(a.tasks@[i as int])
        } else {
            None
        },
        None => None,
    }
}

/// The four entries of the filter menu, in their fixed order; the last
/// one proposes the currently considered priority.
pub open spec fn menu_entries(p: Priority) -> Seq<Filter> {
    seq![Filter::All, Filter::Todo, Filter::Done, Filter::Priority(p)]
}

/// The filter menu as the overlay shows it.
pub fn get_menu_filters(cur_priority: Priority) -> (v: Vec<Filter>)
    ensures
        v@ == menu_entries(cur_priority),
{
    let v = vec![Filter::All, Filter::Todo, Filter::Done, Filter::Priority(cur_priority)];
    proof {
        assert(v@ =~= menu_entries(cur_priority));
    }
    v
}

/// Relies on `String::push`: appends the given character to the end of
/// the string.
pub assume_specification[ String::push ](s: &mut String, ch: char)
    ensures
        final(s)@ == old(s)@.push(ch),
;

/// Relies on `String::pop`: removes and returns the last character, or
/// returns nothing when the string is empty.
pub assume_specification[ String::pop ](s: &mut String) -> (r: Option<char>)
    ensures
        old(s)@.len() == 0 ==> r is None && final(s)@ == old(s)@,
        old(s)@.len() > 0 ==> r == Some(old(s)@.last()) && final(s)@ == old(s)@.drop_last(),
;

/// What one key does in normal mode. Navigation moves the task cursor
/// with wrap-around; the commands that act on a task do nothing without a
/// task under the cursor; nothing here ever touches the snapshot, the
/// active filter or the considered priority.
pub open spec fn normal_transition(pre: App, key: Key, post: App, out: KeyOutcome) -> bool {
    match key {
        Key::Char(c) => if c == 'q' {
            post == pre && out == KeyOutcome::Quit
        } else if c == 'r' {
            post == pre && out == KeyOutcome::Emit(Action::Fetch(pre.filter))
        } else if c == 'i' {
            &&& post == (App {
                mode: InputMode::Editing,
                input: post.input,
                currently_editing_id: None,
                ..pre
            })
            &&& post.input@ == Seq::<char>::empty()
            &&& out == KeyOutcome::Idle
        } else if c == 'e' {
            match selected_task(pre) {
                Some(t) => {
                    &&& post == (App {
                        mode: InputMode::Editing,
                        input: post.input,
                        currently_editing_id: Some(t.id),
                        ..pre
                    })
                    &&& post.input@ == t.text@
                    &&& out == KeyOutcome::Idle
                },
                None => post == pre && out == KeyOutcome::Idle,
            }
        } else if c == 'd' {
            match selected_task(pre) {
                Some(t) => post == pre && out == KeyOutcome::Emit(
                    Action::Delete(t.id, pre.filter),
                ),
                None => post == pre && out == KeyOutcome::Idle,
            }
        } else if c == 'f' {
            &&& post == (App {
                mode: InputMode::Filter,
                filter_selected: Some(0usize),
                ..pre
            })
            &&& out == KeyOutcome::Idle
        } else if c == 'k' {
            normal_nav(pre, post, out, Direction::Up)
        } else if c == 'j' {
            normal_nav(pre, post, out, Direction::Down)
        } else {
            post == pre && out == KeyOutcome::Idle
        },
        Key::Up => normal_nav(pre, post, out, Direction::Up),
        Key::Down => normal_nav(pre, post, out, Direction::Down),
        Key::Enter => match selected_task(pre) {
            Some(t) => post == pre && out == KeyOutcome::Emit(
                Action::Update(t.id, None, Some(!t.done), None, pre.filter),
            ),
            None => post == pre && out == KeyOutcome::Idle,
        },
        Key::Ctrl(c) => if c == 'a' {
            match selected_task(pre) {
                Some(t) => post == pre && out == KeyOutcome::Emit(
                    Action::Update(t.id, None, None, Some(raised(t.priority)), pre.filter),
                ),
                None => post == pre && out == KeyOutcome::Idle,
            }
        } else if c == 'x' {
            match selected_task(pre) {
                Some(t) => post == pre && out == KeyOutcome::Emit(
                    Action::Update(t.id, None, None, Some(lowered(t.priority)), pre.filter),
                ),
                None => post == pre && out == KeyOutcome::Idle,
            }
        } else {
            post == pre && out == KeyOutcome::Idle
        },
        _ => post == pre && out == KeyOutcome::Idle,
    }
}

/// The task cursor moves one wrapped step; everything else stays.
pub open spec fn normal_nav(pre: App, post: App, out: KeyOutcome, dir: Direction) -> bool {
    &&& post == (App {
        todo_selected: nav_target(pre.todo_selected, pre.tasks@.len() as usize, dir),
        ..pre
    })
    &&& out == KeyOutcome::Idle
}

/// What one key does in editing mode: characters grow the buffer,
/// backspace shrinks it, escape discards it, and enter submits it — as an
/// update of the recorded edit target if there is one, else as a
/// creation. Either submission clears the buffer and the edit target and
/// returns to normal mode. The update leaves the completion flag as it
/// stands: it carries the target's current flag, or no flag at all if the
/// target has left the snapshot.
pub open spec fn editing_transition(pre: App, key: Key, post: App, out: KeyOutcome) -> bool {
    match key {
        Key::Esc => {
            &&& post == (App { mode: InputMode::Normal, input: post.input, ..pre })
            &&& post.input@ == Seq::<char>::empty()
            &&& out == KeyOutcome::Idle
        },
        Key::Char(c) => {
            &&& post == (App { input: post.input, ..pre })
            &&& post.input@ == pre.input@.push(c)
            &&& out == KeyOutcome::Idle
        },
        Key::Backspace => {
            &&& post == (App { input: post.input, ..pre })
            &&& post.input@ == if pre.input@.len() > 0 {
                pre.input@.drop_last()
            } else {
                pre.input@
            }
            &&& out == KeyOutcome::Idle
        },
        Key::Enter => {
            &&& post == (App {
                mode: InputMode::Normal,
                input: post.input,
                currently_editing_id: None,
                ..pre
            })
            &&& post.input@ == Seq::<char>::empty()
            &&& match pre.currently_editing_id {
                Some(id) => out == KeyOutcome::Emit(
                    Action::Update(
                        id,
                        Some(pre.input),
                        ({
                            let at = task_index(pre.tasks@, id);
                            if at >= 0 {
                                Some(pre.tasks@[at].done)
                            } else {
                                None
                            }
                        }),
                        None,
                        pre.filter,
                    ),
                ),
                None => out == KeyOutcome::Emit(Action::Create(pre.input, pre.filter)),
            }
        },
        _ => post == pre && out == KeyOutcome::Idle,
    }
}

/// What one key does in the filter menu: up and down move the menu cursor
/// over its four entries with wrap-around; the priority keys re-aim the
/// fourth entry when the cursor sits on it; enter installs the selected
/// entry as the active filter and asks for a fresh fetch under it; escape
/// leaves the menu with the active filter untouched.
pub open spec fn filter_transition(pre: App, key: Key, post: App, out: KeyOutcome) -> bool {
    match key {
        Key::Esc => {
            &&& post == (App { mode: InputMode::Normal, ..pre })
            &&& out == KeyOutcome::Idle
        },
        Key::Enter => match pre.filter_selected {
            Some(i) => if i < 4 {
                let nf = menu_entries(pre.priority)[i as int];
                &&& post == (App { mode: InputMode::Normal, filter: nf, ..pre })
                &&& out == KeyOutcome::Emit(Action::Fetch(nf))
            } else {
                post == (App { mode: InputMode::Normal, ..pre }) && out == KeyOutcome::Idle
            },
            None => post == (App { mode: InputMode::Normal, ..pre }) && out == KeyOutcome::Idle,
        },
        Key::Up => filter_nav(pre, post, out, Direction::Up),
        Key::Down => filter_nav(pre, post, out, Direction::Down),
        Key::Char(c) => if c == 'k' {
            filter_nav(pre, post, out, Direction::Up)
        } else if c == 'j' {
            filter_nav(pre, post, out, Direction::Down)
        } else {
            post == pre && out == KeyOutcome::Idle
        },
        Key::Ctrl(c) => if c == 'a' || c == 'x' {
            if considering_priority_entry(pre) {
                &&& post == (App {
                    priority: if c == 'a' {
                        raised(pre.priority)
                    } else {
                        lowered(pre.priority)
                    },
                    ..pre
                })
                &&& out == KeyOutcome::Idle
            } else {
                post == pre && out == KeyOutcome::Idle
            }
        } else {
            post == pre && out == KeyOutcome::Idle
        },
        _ => post == pre && out == KeyOutcome::Idle,
    }
}

/// The menu cursor moves one wrapped step over the four entries;
/// everything else stays.
pub open spec fn filter_nav(pre: App, post: App, out: KeyOutcome, dir: Direction) -> bool {
    &&& post == (App {
        filter_selected: nav_target(pre.filter_selected, 4usize, dir),
        ..pre
    })
    &&& out == KeyOutcome::Idle
}

/// Whether the menu cursor sits on the entry that proposes a priority
/// filter: the fourth and last one.
pub open spec fn considering_priority_entry(a: App) -> bool {
    a.filter_selected matches Some(i) && i < 4 && menu_entries(a.priority)[i as int] is Priority
}

impl App {
    /// Handles one key press according to the active mode.
    pub fn handle_key(&mut self, key: Key) -> (out: KeyOutcome)
        ensures
            match old(self).mode {
                InputMode::Normal => normal_transition(*old(self), key, *final(self), out),
                InputMode::Editing => editing_transition(*old(self), key, *final(self), out),
                InputMode::Filter => filter_transition(*old(self), key, *final(self), out),
            },
    {
        match self.mode {
            InputMode::Normal => self.handle_normal(key),
            InputMode::Editing => self.handle_editing(key),
            InputMode::Filter => self.handle_filter(key),
        }
    }

    /// Handles one key press in normal mode.
    pub fn handle_normal(&mut self, key: Key) -> (out: KeyOutcome)
        requires
            old(self).mode == InputMode::Normal,
        ensures
            normal_transition(*old(self), key, *final(self), out),
    {
        match key {
            Key::Char(c) => {
                if c == 'q' {
                    KeyOutcome::Quit
                } else if c == 'r' {
                    KeyOutcome::Emit(Action::Fetch(self.filter))
                } else if c == 'i' {
                    self.mode = InputMode::Editing;
                    self.input = String::new();
                    self.currently_editing_id = None;
                    KeyOutcome::Idle
                } else if c == 'e' {
                    match self.selected() {
                        Some(i) => {
                            let id = self.tasks[i].id;
                            let text = self.tasks[i].text.clone();
                            self.mode = InputMode::Editing;
                            self.input = text;
                            self.currently_editing_id = Some(id);
                            KeyOutcome::Idle
                        },
                        None => KeyOutcome::Idle,
                    }
                } else if c == 'd' {
                    match self.selected() {
                        Some(i) => KeyOutcome::Emit(
                            Action::Delete(self.tasks[i].id, self.filter),
                        ),
                        None => KeyOutcome::Idle,
                    }
                } else if c == 'f' {
                    self.mode = InputMode::Filter;
                    self.filter_selected = Some(0);
                    KeyOutcome::Idle
                } else if c == 'k' {
                    self.todo_selected = navigate(
                        self.todo_selected,
                        self.tasks.len(),
                        Direction::Up,
                    );
                    KeyOutcome::Idle
                } else if c == 'j' {
                    self.todo_selected = navigate(
                        self.todo_selected,
                        self.tasks.len(),
                        Direction::Down,
                    );
                    KeyOutcome::Idle
                } else {
                    KeyOutcome::Idle
                }
            },
            Key::Up => {
                self.todo_selected = navigate(self.todo_selected, self.tasks.len(), Direction::Up);
                KeyOutcome::Idle
            },
            Key::Down => {
                self.todo_selected = navigate(
                    self.todo_selected,
                    self.tasks.len(),
                    Direction::Down,
                );
                KeyOutcome::Idle
            },
            Key::Enter => match self.selected() {
                Some(i) => {
                    let t = &self.tasks[i];
                    KeyOutcome::Emit(Action::Update(t.id, None, Some(!t.done), None, self.filter))
                },
                None => KeyOutcome::Idle,
            },
            Key::Ctrl(c) => {
                if c == 'a' {
                    match self.selected() {
                        Some(i) => {
                            let t = &self.tasks[i];
                            KeyOutcome::Emit(
                                Action::Update(
                                    t.id,
                                    None,
                                    None,
                                    Some(t.priority.increase()),
                                    self.filter,
                                ),
                            )
                        },
                        None => KeyOutcome::Idle,
                    }
                } else if c == 'x' {
                    match self.selected() {
                        Some(i) => {
                            let t = &self.tasks[i];
                            KeyOutcome::Emit(
                                Action::Update(
                                    t.id,
                                    None,
                                    None,
                                    Some(t.priority.decrease()),
                                    self.filter,
                                ),
                            )
                        },
                        None => KeyOutcome::Idle,
                    }
                } else {
                    KeyOutcome::Idle
                }
            },
            _ => KeyOutcome::Idle,
        }
    }

    /// Handles one key press in editing mode.
    pub fn handle_editing(&mut self, key: Key) -> (out: KeyOutcome)
        requires
            old(self).mode == InputMode::Editing,
        ensures
            editing_transition(*old(self), key, *final(self), out),
    {
        match key {
            Key::Esc => {
                self.mode = InputMode::Normal;
                self.input = String::new();
                KeyOutcome::Idle
            },
            Key::Char(c) => {
                self.input.push(c);
                KeyOutcome::Idle
            },
            Key::Backspace => {
                self.input.pop();
                KeyOutcome::Idle
            },
            Key::Enter => {
                let text = self.input.clone();
                self.input = String::new();
                let out = match self.currently_editing_id {
                    Some(id) => {
                        let done = find_done_by_id(&self.tasks, id);
                        KeyOutcome::Emit(Action::Update(id, Some(text), done, None, self.filter))
                    },
                    None => KeyOutcome::Emit(Action::Create(text, self.filter)),
                };
                self.mode = InputMode::Normal;
                self.currently_editing_id = None;
                out
            },
            _ => KeyOutcome::Idle,
        }
    }

    /// Handles one key press in the filter menu.
    pub fn handle_filter(&mut self, key: Key) -> (out: KeyOutcome)
        requires
            old(self).mode == InputMode::Filter,
        ensures
            filter_transition(*old(self), key, *final(self), out),
    {
        match key {
            Key::Esc => {
                self.mode = InputMode::Normal;
                KeyOutcome::Idle
            },
            Key::Enter => {
                let out = match self.filter_selected {
                    Some(i) => if i < 4 {
                        let menu = get_menu_filters(self.priority);
                        let nf = menu[i];
                        self.filter = nf;
                        KeyOutcome::Emit(Action::Fetch(nf))
                    } else {
                        KeyOutcome::Idle
                    },
                    None => KeyOutcome::Idle,
                };
                self.mode = InputMode::Normal;
                out
            },
            Key::Up => {
                self.filter_selected = navigate(self.filter_selected, 4, Direction::Up);
                KeyOutcome::Idle
            },
            Key::Down => {
                self.filter_selected = navigate(self.filter_selected, 4, Direction::Down);
                KeyOutcome::Idle
            },
            Key::Char(c) => {
                if c == 'k' {
                    self.filter_selected = navigate(self.filter_selected, 4, Direction::Up);
                    KeyOutcome::Idle
                } else if c == 'j' {
                    self.filter_selected = navigate(self.filter_selected, 4, Direction::Down);
                    KeyOutcome::Idle
                } else {
                    KeyOutcome::Idle
                }
            },
            Key::Ctrl(c) => {
                if c == 'a' || c == 'x' {
                    let on_priority_entry = match self.filter_selected {
                        Some(i) => {
                            if i < 4 {
                                let menu = get_menu_filters(self.priority);
                                match menu[i] {
                                    Filter::Priority(_) => true,
                                    _ => false,
                                }
                            } else {
                                false
                            }
                        },
                        None => false,
                    };
                    if on_priority_entry {
                        if c == 'a' {
                            self.priority = self.priority.increase();
                        } else {
                            self.priority = self.priority.decrease();
                        }
                    }
                    KeyOutcome::Idle
                } else {
                    KeyOutcome::Idle
                }
            },
            _ => KeyOutcome::Idle,
        }
    }

    /// The position of the task under the cursor, when it points into the
    /// snapshot.
    fn selected(&self) -> (r: Option<usize>)
        ensures
            match selected_task(*self) {
                Some(t) => r matches Some(i) && i < self.tasks@.len() && self.tasks@[i as int]
                    == t,
                None => r is None,
            },
    {
        match self.todo_selected {
            Some(i) => if i < self.tasks.len() {
                Some(i)
            } else {
                None
            },
            None => None,
        }
    }
}

/// The completion flag of the first task carrying `id`, if any does.
fn find_done_by_id(tasks: &Vec<Task>, id: i64) -> (r: Option<bool>)
    ensures
        r == ({
            let at = task_index(tasks@, id);
            if at >= 0 {
                Some(tasks@[at].done)
            } else {
                None
            }
        }),
{
    let n = tasks.len();
    let mut i: usize = 0;
    while i < n
        invariant
            n == tasks@.len(),
            i <= n,
            forall|k: int| 0 <= k < i ==> tasks@[k].id != id,
        decreases n - i,
    {
        if tasks[i].id == id {
            proof {
                lemma_task_index_first(tasks@, id, i as int);
            }
            return Some(tasks[i].done);
        }
        i += 1;
    }
    proof {
        lemma_task_index(tasks@, id);
    }
    None
}

} // verus!
