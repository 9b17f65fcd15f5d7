//! The task list the service maintains, with the exact semantics of each
//! command it serves: add, toggle/patch, delete, and filtered reads.

use vstd::prelude::*;

use crate::domain::{Priority, Task, TaskQuery, TodoError};

verus! {

/// Position of the first task carrying `id`, or `-1` when none does.
pub open spec fn task_index(tasks: Seq<Task>, id: i64) -> int
    decreases tasks.len(),
{
    if tasks.len() == 0 {
        -1
    } else if tasks[0].id == id {
        0
    } else {
        let rest = task_index(tasks.drop_first(), id);
        if rest < 0 {
            -1
        } else {
            rest + 1
        }
    }
}

/// `task_index` finds an in-range position holding `id` whenever one
/// exists, and `-1` exactly when none does.
pub proof fn lemma_task_index(tasks: Seq<Task>, id: i64)
    ensures
        task_index(tasks, id) >= 0 ==> {
            &&& task_index(tasks, id) < tasks.len()
            &&& tasks[task_index(tasks, id)].id == id
        },
        task_index(tasks, id) < 0 <==> (forall|i: int|
            0 <= i < tasks.len() ==> tasks[i].id != id),
    decreases tasks.len(),
{
    if tasks.len() > 0 && tasks[0].id != id {
        let rest = tasks.drop_first();
        lemma_task_index(rest, id);
        assert forall|i: int| 0 <= i < rest.len() implies rest[i] == tasks[i + 1] by {}
        if task_index(tasks, id) < 0 {
            assert forall|i: int| 0 <= i < tasks.len() implies tasks[i].id != id by {
                if i > 0 {
                    assert(rest[i - 1] == tasks[i]);
                }
            }
        } else {
            let ri = task_index(rest, id);
            assert(rest[ri] == tasks[ri + 1]);
        }
    }
}

/// Whether a task satisfies a selector: each present constraint must hold.
pub open spec fn matches_query(t: Task, q: TaskQuery) -> bool {
    &&& (q.done matches Some(d) ==> t.done == d)
    &&& (q.priority matches Some(p) ==> t.priority == p)
}

/// The in-memory task list. `next_id` is the identity the next created
/// task will get.
#[derive(Debug)]
pub struct TodoList {
    pub tasks: Vec<Task>,
    pub next_id: i64,
}

impl Clone for TodoList {
    fn clone(&self) -> (l: Self)
        ensures
            l.tasks@ == self.tasks@,
            l.next_id == self.next_id,
    {
        let tasks = self.tasks.clone();
        proof {
            assert(tasks@ =~= self.tasks@);
        }
        TodoList { tasks, next_id: self.next_id }
    }
}

impl Default for TodoList {
    /// An empty list whose first created task will get identity 1.
    fn default() -> (l: Self)
        ensures
            l.tasks@ == Seq::<Task>::empty(),
            l.next_id == 1,
            l.wf(),
    {
        TodoList { tasks: Vec::new(), next_id: 1 }
    }
}

impl TodoList {
    /// Every task holds a positive identity below `next_id`, and no two
    /// tasks share one.
    pub open spec fn wf(self) -> bool {
        &&& 1 <= self.next_id
        &&& forall|i: int|
            0 <= i < self.tasks@.len() ==> 0 < #[trigger] self.tasks@[i].id < self.next_id
        &&& forall|i: int, j: int|
            0 <= i < j < self.tasks@.len() ==> #[trigger] self.tasks@[i].id != #[trigger] self.tasks@[j].id
    }

    /// Appends a fresh task: it gets the next identity, the given text,
    /// the not-done flag and the default priority. Returns the new task.
    pub fn add(&mut self, text: String) -> (t: Task)
        requires
            old(self).wf(),
            old(self).next_id < i64::MAX,
        ensures
            final(self).wf(),
            t == (Task {
                id: old(self).next_id,
                text: text,
                done: false,
                priority: Priority::Low,
            }),
            final(self).tasks@ == old(self).tasks@.push(t),
            final(self).next_id == old(self).next_id + 1,
    {
        let id = self.next_id;
        let task = Task { id, text, done: false, priority: Priority::Low };
        let out = task.clone();
        self.tasks.push(task);
        self.next_id = id + 1;
        out
    }

    /// A copy of the whole list, in storage order.
    pub fn get_list(&self) -> (v: Vec<Task>)
        ensures
            v@ == self.tasks@,
    {
        let v = self.tasks.clone();
        proof {
            assert(v@ =~= self.tasks@);
        }
        v
    }

    /// Sets the completion flag of the task carrying `id` and returns a
    /// copy of it; fails with `TaskNotFound` exactly when no task does,
    /// leaving the list unchanged.
    pub fn mark_done(&mut self, id: i64) -> (r: Result<Task, TodoError>)
        requires
            old(self).wf(),
        ensures
            final(self).wf(),
            final(self).next_id == old(self).next_id,
            ({
                let at = task_index(old(self).tasks@, id);
                if at >= 0 {
                    &&& r matches Ok(t)
                    &&& t == (Task { done: true, ..old(self).tasks@[at] })
                    &&& final(self).tasks@ == old(self).tasks@.update(at, t)
                } else {
                    &&& r matches Err(e) && e is TaskNotFound
                    &&& final(self).tasks@ == old(self).tasks@
                }
            }),
    {
        proof {
            lemma_task_index(old(self).tasks@, id);
        }
        let ghost at = task_index(old(self).tasks@, id);
        let n = self.tasks.len();
        let mut i: usize = 0;
        while i < n
            invariant
                old(self).wf(),
                n == self.tasks@.len(),
                i <= n,
                *self == *old(self),
                forall|k: int| 0 <= k < i ==> old(self).tasks@[k].id != id,
            decreases n - i,
        {
            if self.tasks[i].id == id {
                proof {
                    lemma_task_index_first(old(self).tasks@, id, i as int);
                }
                let updated = Task { done: true, ..self.tasks[i].clone() };
                let out = updated.clone();
                self.tasks.set(i, updated);
                proof {
                    assert forall|k: int| 0 <= k < self.tasks@.len()
                        implies #[trigger] self.tasks@[k].id == old(self).tasks@[k].id by {}
                }
                return Ok(out);
            }
            i += 1;
        }
        proof {
            assert(at < 0);
        }
        Err(TodoError::TaskNotFound)
    }

    /// Sets the priority of the task carrying `id` and returns a copy of
    /// it; fails with `TaskNotFound` exactly when no task does, leaving
    /// the list unchanged.
    pub fn set_priority(&mut self, id: i64, priority: Priority) -> (r: Result<Task, TodoError>)
        requires
            old(self).wf(),
        ensures
            final(self).wf(),
            final(self).next_id == old(self).next_id,
            ({
                let at = task_index(old(self).tasks@, id);
                if at >= 0 {
                    &&& r matches Ok(t)
                    &&& t == (Task { priority: priority, ..old(self).tasks@[at] })
                    &&& final(self).tasks@ == old(self).tasks@.update(at, t)
                } else {
                    &&& r matches Err(e) && e is TaskNotFound
                    &&& final(self).tasks@ == old(self).tasks@
                }
            }),
    {
        proof {
            lemma_task_index(old(self).tasks@, id);
        }
        let n = self.tasks.len();
        let mut i: usize = 0;
        while i < n
            invariant
                old(self).wf(),
                n == self.tasks@.len(),
                i <= n,
                *self == *old(self),
                forall|k: int| 0 <= k < i ==> old(self).tasks@[k].id != id,
            decreases n - i,
        {
            if self.tasks[i].id == id {
                proof {
                    lemma_task_index_first(old(self).tasks@, id, i as int);
                }
                let updated = Task { priority, ..self.tasks[i].clone() };
                let out = updated.clone();
                self.tasks.set(i, updated);
                proof {
                    assert forall|k: int| 0 <= k < self.tasks@.len()
                        implies #[trigger] self.tasks@[k].id == old(self).tasks@[k].id by {}
                }
                return Ok(out);
            }
            i += 1;
        }
        Err(TodoError::TaskNotFound)
    }
}

/// The result of patching a task: each present field replaces the stored
/// one, each absent field leaves it unchanged. The identity never moves.
pub open spec fn patched(
    t: Task,
    text: Option<String>,
    done: Option<bool>,
    priority: Option<Priority>,
) -> Task {
    Task {
        id: t.id,
        text: match text {
            Some(s) => s,
            None => t.text,
        },
        done: match done {
            Some(d) => d,
            None => t.done,
        },
        priority: match priority {
            Some(p) => p,
            None => t.priority,
        },
    }
}

impl TodoList {
    /// Removes the task carrying `id`; a miss removes nothing. Mirrors a
    /// delete-by-identity on a table whose identities are unique.
    pub fn delete(&mut self, id: i64)
        requires
            old(self).wf(),
        ensures
            final(self).wf(),
            final(self).next_id == old(self).next_id,
            ({
                let at = task_index(old(self).tasks@, id);
                if at >= 0 {
                    final(self).tasks@ == old(self).tasks@.remove(at)
                } else {
                    final(self).tasks@ == old(self).tasks@
                }
            }),
    {
        proof {
            lemma_task_index(old(self).tasks@, id);
        }
        let n = self.tasks.len();
        let mut i: usize = 0;
        while i < n
            invariant
                old(self).wf(),
                n == self.tasks@.len(),
                i <= n,
                *self == *old(self),
                forall|k: int| 0 <= k < i ==> old(self).tasks@[k].id != id,
            decreases n - i,
        {
            if self.tasks[i].id == id {
                proof {
                    lemma_task_index_first(old(self).tasks@, id, i as int);
                }
                self.tasks.remove(i);
                proof {
                    let s = old(self).tasks@;
                    assert forall|k: int| 0 <= k < self.tasks@.len()
                        implies #[trigger] self.tasks@[k] == (if k < i { s[k] } else { s[k + 1] }) by {}
                }
                return ;
            }
            i += 1;
        }
    }

    /// Patches the task carrying `id` with the present fields, leaving the
    /// absent ones as they were; a miss changes nothing. Mirrors an update
    /// statement that coalesces each bound value with the stored one.
    pub fn update(
        &mut self,
        id: i64,
        text: Option<String>,
        done: Option<bool>,
        priority: Option<Priority>,
    )
        requires
            old(self).wf(),
        ensures
            final(self).wf(),
            final(self).next_id == old(self).next_id,
            ({
                let at = task_index(old(self).tasks@, id);
                if at >= 0 {
                    final(self).tasks@ == old(self).tasks@.update(
                        at,
                        patched(old(self).tasks@[at], text, done, priority),
                    )
                } else {
                    final(self).tasks@ == old(self).tasks@
                }
            }),
    {
        proof {
            lemma_task_index(old(self).tasks@, id);
        }
        let n = self.tasks.len();
        let mut i: usize = 0;
        while i < n
            invariant
                old(self).wf(),
                n == self.tasks@.len(),
                i <= n,
                *self == *old(self),
                forall|k: int| 0 <= k < i ==> old(self).tasks@[k].id != id,
            decreases n - i,
        {
            if self.tasks[i].id == id {
                proof {
                    lemma_task_index_first(old(self).tasks@, id, i as int);
                }
                let cur = self.tasks[i].clone();
                let new_done = match done {
                    Some(d) => d,
                    None => cur.done,
                };
                let new_priority = match priority {
                    Some(p) => p,
                    None => cur.priority,
                };
                let new_text = match text {
                    Some(s) => s,
                    None => cur.text,
                };
                let updated = Task { id: cur.id, text: new_text, done: new_done, priority: new_priority };
                self.tasks.set(i, updated);
                proof {
                    assert forall|k: int| 0 <= k < self.tasks@.len()
                        implies #[trigger] self.tasks@[k].id == old(self).tasks@[k].id by {}
                }
                return ;
            }
            i += 1;
        }
    }

    /// The tasks satisfying a selector, in storage order: the read the
    /// service answers a filtered list query with.
    pub fn fetch(&self, q: &TaskQuery) -> (v: Vec<Task>)
        ensures
            v@ == self.tasks@.filter(|t: Task| matches_query(t, *q)),
    {
        let ghost pred = |t: Task| matches_query(t, *q);
        let mut v: Vec<Task> = Vec::new();
        let n = self.tasks.len();
        let mut i: usize = 0;
        proof {
            assert(self.tasks@.take(0) =~= Seq::<Task>::empty());
            reveal(Seq::filter);
        }
        while i < n
            invariant
                n == self.tasks@.len(),
                i <= n,
                pred == (|t: Task| matches_query(t, *q)),
                v@ == self.tasks@.take(i as int).filter(pred),
            decreases n - i,
        {
            let t = &self.tasks[i];
            proof {
                lemma_filter_push(self.tasks@.take(i as int), pred, self.tasks@[i as int]);
                assert(self.tasks@.take(i + 1) =~= self.tasks@.take(i as int).push(
                    self.tasks@[i as int],
                ));
            }
            let matches_done = match q.done {
                Some(d) => t.done == d,
                None => true,
            };
            let matches_priority = match q.priority {
                Some(p) => t.priority == p,
                None => true,
            };
            if matches_done && matches_priority {
                v.push(t.clone());
            }
            i += 1;
        }
        proof {
            assert(self.tasks@.take(n as int) =~= self.tasks@);
        }
        v
    }
}

/// Filtering a sequence extended by one element keeps the old selection
/// and appends the element exactly when it satisfies the predicate.
pub proof fn lemma_filter_push<A>(s: Seq<A>, pred: spec_fn(A) -> bool, x: A)
    ensures
        s.push(x).filter(pred) == if pred(x) {
            s.filter(pred).push(x)
        } else {
            s.filter(pred)
        },
{
    reveal(Seq::filter);
    assert(s.push(x).drop_last() =~= s);
    assert(s.push(x).last() == x);
}

/// When position `i` is the first to carry `id`, `task_index` finds
/// exactly `i`.
pub proof fn lemma_task_index_first(tasks: Seq<Task>, id: i64, i: int)
    requires
        0 <= i < tasks.len(),
        tasks[i].id == id,
        forall|k: int| 0 <= k < i ==> tasks[k].id != id,
    ensures
        task_index(tasks, id) == i,
    decreases i,
{
    if i > 0 {
        let rest = tasks.drop_first();
        assert forall|k: int| 0 <= k < i - 1 implies rest[k].id != id by {
            assert(rest[k] == tasks[k + 1]);
        }
        lemma_task_index_first(rest, id, i - 1);
    }
}

} // verus!
