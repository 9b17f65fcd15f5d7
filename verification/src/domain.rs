//! Shared domain vocabulary: priorities, filters, tasks, list queries,
//! and the error taxonomy.

use vstd::prelude::*;

verus! {

/// Urgency of a task. Newly created tasks start at `Low`.
#[derive(Clone, Copy, Debug, PartialEq, Eq, Structural)]
pub enum Priority {
    Low,
    Medium,
    High,
}

/// The next value in the cyclic order Low -> Medium -> High -> Low.
pub open spec fn raised(p: Priority) -> Priority {
    match p {
        Priority::Low => Priority::Medium,
        Priority::Medium => Priority::High,
        Priority::High => Priority::Low,
    }
}

/// The previous value in the cyclic order: the exact inverse of [`raised`].
pub open spec fn lowered(p: Priority) -> Priority {
    match p {
        Priority::Low => Priority::High,
        Priority::Medium => Priority::Low,
        Priority::High => Priority::Medium,
    }
}

impl Priority {
    /// Steps one place forward in the cycle Low -> Medium -> High -> Low.
    pub fn increase(self) -> (r: Priority)
        ensures
            r == raised(self),
    {
        match self {
            Priority::Low => Priority::Medium,
            Priority::Medium => Priority::High,
            Priority::High => Priority::Low,
        }
    }

    /// Steps one place backward in the cycle: the inverse of `increase`.
    pub fn decrease(self) -> (r: Priority)
        ensures
            r == lowered(self),
    {
        match self {
            Priority::Low => Priority::High,
            Priority::Medium => Priority::Low,
            Priority::High => Priority::Medium,
        }
    }

    /// The short tag shown next to a task, `(L)`, `(M)` or `(H)`.
    pub fn tag(self) -> (s: &'static str)
        ensures
            s@ == match self {
                Priority::Low => "(L)"@,
                Priority::Medium => "(M)"@,
                Priority::High => "(H)"@,
            },
    {
        match self {
            Priority::Low => "(L)",
            Priority::Medium => "(M)",
            Priority::High => "(H)",
        }
    }
}

impl Default for Priority {
    /// Tasks default to the lowest urgency.
    fn default() -> (p: Self)
        ensures
            p == Priority::Low,
    {
        Priority::Low
    }
}

/// Cycling priorities is a 3-cycle: stepping forward three times returns to
/// the start, and `decrease` undoes `increase` (and the other way round).
pub proof fn lemma_priority_cycle(p: Priority)
    ensures
        raised(raised(raised(p))) == p,
        lowered(lowered(lowered(p))) == p,
        lowered(raised(p)) == p,
        raised(lowered(p)) == p,
{
}

/// Which tasks the list view currently asks for.
#[derive(Clone, Copy, Debug, PartialEq, Eq, Structural)]
pub enum Filter {
    All,
    Todo,
    Done,
    Priority(Priority),
}

impl Default for Filter {
    /// Every run starts under the unrestricted view.
    fn default() -> (f: Self)
        ensures
            f == Filter::All,
    {
        Filter::All
    }
}

/// The wire-level selector a [`Filter`] turns into: an optional constraint
/// on the completion flag and an optional constraint on the priority.
/// An absent field constrains nothing.
#[derive(Clone, Copy, Debug)]
pub struct TaskQuery {
    pub done: Option<bool>,
    pub priority: Option<Priority>,
}

/// The selector each filter stands for. `Todo` keeps unfinished tasks,
/// `Done` finished ones, `Priority(p)` those at urgency `p`; `All` keeps
/// everything.
pub open spec fn query_of_filter(f: Filter) -> TaskQuery {
    match f {
        Filter::All => TaskQuery { done: None, priority: None },
        Filter::Todo => TaskQuery { done: Some(false), priority: None },
        Filter::Done => TaskQuery { done: Some(true), priority: None },
        Filter::Priority(p) => TaskQuery { done: None, priority: Some(p) },
    }
}

/// The filter a selector reads back as. A priority constraint wins over a
/// completion constraint; a selector with neither is the unrestricted view.
pub open spec fn filter_of_query(q: TaskQuery) -> Filter {
    match q.priority {
        Some(p) => Filter::Priority(p),
        None => match q.done {
            Some(true) => Filter::Done,
            Some(false) => Filter::Todo,
            None => Filter::All,
        },
    }
}

impl From<Filter> for TaskQuery {
    /// Lowers a filter to the selector it stands for.
    fn from(filter: Filter) -> (q: Self)
        ensures
            q == query_of_filter(filter),
    {
        match filter {
            Filter::All => TaskQuery { done: None, priority: None },
            Filter::Todo => TaskQuery { done: Some(false), priority: None },
            Filter::Done => TaskQuery { done: Some(true), priority: None },
            Filter::Priority(priority) => TaskQuery { done: None, priority: Some(priority) },
        }
    }
}

impl vstd::std_specs::convert::FromSpecImpl<Filter> for TaskQuery {
    open spec fn obeys_from_spec() -> bool {
        true
    }

    open spec fn from_spec(filter: Filter) -> Self {
        query_of_filter(filter)
    }
}

impl TaskQuery {
    /// Reads the selector back as the filter it stands for.
    pub fn to_filter(&self) -> (f: Filter)
        ensures
            f == filter_of_query(*self),
    {
        match self.priority {
            Some(p) => Filter::Priority(p),
            None => match self.done {
                Some(true) => Filter::Done,
                Some(false) => Filter::Todo,
                None => Filter::All,
            },
        }
    }
}

/// Lowering a filter to a selector and reading it back preserves the
/// filter exactly; in particular a priority filter keeps its priority and
/// puts no constraint on the completion flag.
pub proof fn lemma_filter_query_roundtrip(f: Filter)
    ensures
        filter_of_query(query_of_filter(f)) == f,
        f is Priority ==> query_of_filter(f).done is None,
{
}

/// One task as both sides know it: the service assigns the identity at
/// creation and the client never invents one.
#[derive(Debug, PartialEq)]
pub struct Task {
    pub id: i64,
    pub text: String,
    pub done: bool,
    pub priority: Priority,
}

impl Clone for Task {
    fn clone(&self) -> (t: Self)
        ensures
            t == *self,
    {
        Task {
            id: self.id,
            text: self.text.clone(),
            done: self.done,
            priority: self.priority,
        }
    }
}

impl Default for Task {
    /// A blank task: no identity yet, empty text, not done, lowest urgency.
    fn default() -> (t: Self)
        ensures
            t.id == 0,
            t.text@ == Seq::<char>::empty(),
            !t.done,
            t.priority == Priority::Low,
    {
        Task { id: 0, text: String::new(), done: false, priority: Priority::Low }
    }
}

/// Declares `core::num::ParseIntError` (opaque here) so the error
/// taxonomy can carry the cause of a malformed task id.
#[verifier::external_type_specification]
#[verifier::external_body]
pub struct ExParseIntError(core::num::ParseIntError);

/// Declares `std::io::Error` (opaque here) so the error taxonomy can
/// carry the cause of a failed save.
#[verifier::external_type_specification]
#[verifier::external_body]
pub struct ExIoError(std::io::Error);

/// What can go wrong while serving a command against the task list.
#[derive(Debug)]
pub enum TodoError {
    UnknownCommand,
    MissingArgument,
    TaskNotFound,
    InvalidId(core::num::ParseIntError),
    SaveError(std::io::Error),
    PriorityError,
}

} // verus!
