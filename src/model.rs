use vstd::prelude::*;

verus! {

/// The largest sub-second part a stored timestamp carries: past 999_999_999 only
/// during a leap second.
pub const MAX_SUBSEC_NANOS: u32 = 1_999_999_999;

/// A point in time held as plain values: whole seconds since the Unix epoch and
/// the nanoseconds past that second.
#[derive(Clone, Copy, Debug, PartialEq, Eq, Structural)]
pub struct Timestamp {
    pub seconds: i64,
    pub nanos: u32,
}

impl Timestamp {
    pub open spec fn wf(&self) -> bool {
        self.nanos <= MAX_SUBSEC_NANOS
    }
}

/// A task as the store holds it.
#[derive(Clone, Debug)]
pub struct Task {
    pub id: i32,
    pub name: String,
    pub created_at: Timestamp,
    pub done_at: Option<Timestamp>,
    pub done: bool,
}

/// The mathematical value of a task: its name as a sequence of characters.
pub ghost struct TaskView {
    pub id: i32,
    pub name: Seq<char>,
    pub created_at: Timestamp,
    pub done_at: Option<Timestamp>,
    pub done: bool,
}

impl View for Task {
    type V = TaskView;

    open spec fn view(&self) -> TaskView {
        TaskView {
            id: self.id,
            name: self.name@,
            created_at: self.created_at,
            done_at: self.done_at,
            done: self.done,
        }
    }
}

impl TaskView {
    /// `done_at` is present exactly when the task is done.
    pub open spec fn consistent(&self) -> bool {
        self.done_at.is_some() == self.done
    }

    /// Every timestamp of the task is well formed.
    pub open spec fn timestamps_wf(&self) -> bool {
        &&& self.created_at.wf()
        &&& (self.done_at matches Some(t) ==> t.wf())
    }

    pub open spec fn wf(&self) -> bool {
        self.consistent() && self.timestamps_wf()
    }
}

impl Task {
    /// A copy of the task with the same value.
    pub fn duplicate(&self) -> (r: Task)
        ensures
            r@ == self@,
    {
        Task {
            id: self.id,
            name: self.name.clone(),
            created_at: self.created_at,
            done_at: self.done_at,
            done: self.done,
        }
    }
}

/// The row the store is asked to insert: the server fills in the rest.
#[derive(Clone, Debug)]
pub struct NewTask {
    pub name: String,
    pub created_at: Timestamp,
}

/// A partial change to one row: each field that is `None` is left as it is.
/// `done_at` is `Some(None)` where the completion time is to be cleared.
#[derive(Clone, Debug)]
pub struct UpdateTask {
    pub name: Option<String>,
    pub done_at: Option<Option<Timestamp>>,
    pub done: Option<bool>,
}

pub ghost struct UpdateTaskView {
    pub name: Option<Seq<char>>,
    pub done_at: Option<Option<Timestamp>>,
    pub done: Option<bool>,
}

pub open spec fn name_view(name: Option<String>) -> Option<Seq<char>> {
    match name {
        Some(n) => Some(n@),
        None => None,
    }
}

impl View for UpdateTask {
    type V = UpdateTaskView;

    open spec fn view(&self) -> UpdateTaskView {
        UpdateTaskView { name: name_view(self.name), done_at: self.done_at, done: self.done }
    }
}

/// The change that an update request stands for, given the time it is handled at.
/// Supplying `done` sets `done_at` to `now` (when true) or clears it (when false);
/// leaving `done` out leaves `done_at` untouched.
pub open spec fn derived_update(name: Option<Seq<char>>, done: Option<bool>, now: Timestamp) -> UpdateTaskView {
    UpdateTaskView {
        name,
        done_at: match done {
            Some(true) => Some(Some(now)),
            Some(false) => Some(None),
            None => None,
        },
        done,
    }
}

/// A task after a change has been applied to it: supplied fields replace the old ones.
pub open spec fn applied(t: TaskView, u: UpdateTaskView) -> TaskView {
    TaskView {
        id: t.id,
        name: match u.name {
            Some(n) => n,
            None => t.name,
        },
        created_at: t.created_at,
        done_at: match u.done_at {
            Some(d) => d,
            None => t.done_at,
        },
        done: match u.done {
            Some(b) => b,
            None => t.done,
        },
    }
}

/// Builds the row to insert for a create request, whose task definition may be absent.
pub fn prepare_create(name: Option<String>, now: Timestamp) -> (r: Option<NewTask>)
    ensures
        name.is_none() <==> r.is_none(),
        r matches Some(n) ==> name matches Some(m) && n.name@ == m@ && n.created_at == now,
{
    match name {
        Some(n) => Some(NewTask { name: n, created_at: now }),
        None => None,
    }
}

/// Builds the change for an update request from the fields it supplies.
pub fn prepare_update(name: Option<String>, done: Option<bool>, now: Timestamp) -> (r: UpdateTask)
    ensures
        r@ == derived_update(name_view(name), done, now),
{
    let mut update_task = UpdateTask { name: None, done_at: None, done: None };
    if let Some(d) = done {
        update_task.done = Some(d);
        if d {
            update_task.done_at = Some(Some(now));
        } else {
            update_task.done_at = Some(None);
        }
    }
    if name.is_some() {
        update_task.name = name;
    }
    update_task
}

/// Applies a change to a task, as the store does to the matching row.
pub fn apply_update(task: Task, change: &UpdateTask) -> (r: Task)
    ensures
        r@ == applied(task@, change@),
{
    let mut t = task;
    match &change.name {
        Some(n) => {
            t.name = n.clone();
        },
        None => {},
    }
    match change.done_at {
        Some(d) => {
            t.done_at = d;
        },
        None => {},
    }
    match change.done {
        Some(b) => {
            t.done = b;
        },
        None => {},
    }
    t
}

/// Every update leaves a consistent task consistent: `done_at` stays present
/// exactly when `done` is true, and a well-formed clock keeps timestamps well formed.
pub proof fn lemma_update_keeps_invariant(t: TaskView, name: Option<Seq<char>>, done: Option<bool>, now: Timestamp)
    requires
        t.wf(),
        now.wf(),
    ensures
        applied(t, derived_update(name, done, now)).wf(),
{
}

/// Marking a task done records a completion time; marking it not done clears it.
pub proof fn lemma_done_sets_and_clears(t: TaskView, now: Timestamp, later: Timestamp)
    ensures
        applied(t, derived_update(None, Some(true), now)).done,
        applied(t, derived_update(None, Some(true), now)).done_at == Some(now),
        !applied(applied(t, derived_update(None, Some(true), now)), derived_update(None, Some(false), later)).done,
        applied(applied(t, derived_update(None, Some(true), now)), derived_update(None, Some(false), later)).done_at.is_none(),
{
}

/// An update that supplies only a name changes the name and nothing else.
pub proof fn lemma_rename_keeps_completion(t: TaskView, name: Seq<char>, now: Timestamp)
    ensures
        applied(t, derived_update(Some(name), None, now)) == (TaskView { name, ..t }),
{
}

} // verus!
