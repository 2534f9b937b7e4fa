use vstd::prelude::*;
use crate::model::{Task, TaskView, Timestamp, MAX_SUBSEC_NANOS};

verus! {

/// A timestamp as it travels over the wire: whole seconds and a signed
/// nanosecond remainder.
#[derive(Clone, Copy, Debug, PartialEq, Eq, Structural)]
pub struct WireTimestamp {
    pub seconds: i64,
    pub nanos: i32,
}

/// The wire form of a task. A timestamp that is `None` is unset, which is
/// not the same as the epoch.
#[derive(Clone, Debug)]
pub struct WireTask {
    pub id: i32,
    pub name: String,
    pub created_at: Option<WireTimestamp>,
    pub done: bool,
    pub done_at: Option<WireTimestamp>,
}

pub ghost struct WireTaskView {
    pub id: i32,
    pub name: Seq<char>,
    pub created_at: Option<WireTimestamp>,
    pub done: bool,
    pub done_at: Option<WireTimestamp>,
}

impl View for WireTask {
    type V = WireTaskView;

    open spec fn view(&self) -> WireTaskView {
        WireTaskView {
            id: self.id,
            name: self.name@,
            created_at: self.created_at,
            done: self.done,
            done_at: self.done_at,
        }
    }
}

/// The error payload of a response: one human-readable message.
#[derive(Clone, Debug)]
pub struct WireError {
    pub message: String,
}

pub open spec fn wire_timestamp(t: Timestamp) -> WireTimestamp {
    WireTimestamp { seconds: t.seconds, nanos: t.nanos as i32 }
}

/// The wire form of a stored task.
pub open spec fn wire_of(t: TaskView) -> WireTaskView {
    WireTaskView {
        id: t.id,
        name: t.name,
        created_at: Some(wire_timestamp(t.created_at)),
        done: t.done,
        done_at: match t.done_at {
            Some(d) => Some(wire_timestamp(d)),
            None => None,
        },
    }
}

/// The stored timestamp that a wire timestamp stands for, where there is one.
pub open spec fn timestamp_of(w: WireTimestamp) -> Option<Timestamp> {
    if 0 <= w.nanos <= MAX_SUBSEC_NANOS {
        Some(Timestamp { seconds: w.seconds, nanos: w.nanos as u32 })
    } else {
        None
    }
}

impl WireTask {
    /// A wire task with every field at its default and both timestamps unset.
    pub fn new() -> (r: WireTask)
        ensures
            r@ == (WireTaskView { id: 0, name: Seq::empty(), created_at: None, done: false, done_at: None }),
    {
        WireTask { id: 0, name: String::new(), created_at: None, done: false, done_at: None }
    }
}

/// Converts a stored timestamp to its wire form.
pub fn to_wire_timestamp(t: Timestamp) -> (r: WireTimestamp)
    requires
        t.wf(),
    ensures
        r == wire_timestamp(t),
        r.nanos as int == t.nanos as int,
{
    WireTimestamp { seconds: t.seconds, nanos: t.nanos as i32 }
}

/// Converts a wire timestamp back, if its nanoseconds are in range.
pub fn from_wire_timestamp(w: WireTimestamp) -> (r: Option<Timestamp>)
    ensures
        r == timestamp_of(w),
{
    if 0 <= w.nanos && w.nanos as u32 <= MAX_SUBSEC_NANOS {
        Some(Timestamp { seconds: w.seconds, nanos: w.nanos as u32 })
    } else {
        None
    }
}

/// Writes a stored task into a wire task. Every field is set but `done_at`,
/// which is set only where the task has one and otherwise left as it was.
pub fn map_db_struct_to_proto(proto_task: &mut WireTask, db_task: Task)
    requires
        db_task@.timestamps_wf(),
    ensures
        final(proto_task)@ == (WireTaskView {
            done_at: if db_task.done_at.is_some() { wire_of(db_task@).done_at } else { old(proto_task)@.done_at },
            ..wire_of(db_task@)
        }),
{
    proto_task.name = db_task.name;
    proto_task.created_at = Some(to_wire_timestamp(db_task.created_at));
    proto_task.id = db_task.id;
    proto_task.done = db_task.done;
    if let Some(done_time_db) = db_task.done_at {
        proto_task.done_at = Some(to_wire_timestamp(done_time_db));
    }
}

/// The wire form of a stored task.
pub fn task_to_wire(db_task: Task) -> (r: WireTask)
    requires
        db_task@.timestamps_wf(),
    ensures
        r@ == wire_of(db_task@),
{
    let mut task = WireTask::new();
    map_db_struct_to_proto(&mut task, db_task);
    task
}

/// The stored task that a wire task stands for: none where `created_at` is
/// unset or a timestamp is out of range.
pub open spec fn task_of_wire(w: WireTaskView) -> Option<TaskView> {
    match w.created_at {
        Some(c) => match timestamp_of(c) {
            Some(created_at) => match w.done_at {
                Some(d) => match timestamp_of(d) {
                    Some(done_at) => Some(
                        TaskView { id: w.id, name: w.name, created_at, done_at: Some(done_at), done: w.done },
                    ),
                    None => None,
                },
                None => Some(TaskView { id: w.id, name: w.name, created_at, done_at: None, done: w.done }),
            },
            None => None,
        },
        None => None,
    }
}

/// Reads a stored task back from its wire form.
pub fn task_from_wire(w: &WireTask) -> (r: Option<Task>)
    ensures
        match r {
            Some(t) => task_of_wire(w@) == Some(t@),
            None => task_of_wire(w@).is_none(),
        },
{
    let created_at = match w.created_at {
        Some(c) => match from_wire_timestamp(c) {
            Some(t) => t,
            None => {
                return None;
            },
        },
        None => {
            return None;
        },
    };
    let done_at = match w.done_at {
        Some(d) => match from_wire_timestamp(d) {
            Some(t) => Some(t),
            None => {
                return None;
            },
        },
        None => None,
    };
    Some(Task { id: w.id, name: w.name.clone(), created_at, done_at, done: w.done })
}

/// Mapping a stored task to its wire form and back gives the same task:
/// id, name, completion flag and both timestamps to the nanosecond.
pub proof fn lemma_wire_round_trip(t: TaskView)
    requires
        t.timestamps_wf(),
    ensures
        task_of_wire(wire_of(t)) == Some(t),
{
}

} // verus!
