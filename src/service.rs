use vstd::prelude::*;
use crate::model::{
    applied, derived_update, lemma_update_keeps_invariant, name_view, prepare_create, prepare_update,
    Task, TaskView, Timestamp,
};
use crate::store::{lemma_select_all, selected, views, MemoryStore, StoreError, NOT_FOUND};
use crate::wire::{task_to_wire, wire_of, WireError, WireTask, WireTaskView};

verus! {

pub const MISSING_DEFINITION: &'static str = "missing task definition";

pub const CREATE_FAILED: &'static str = "Task creation failed. ";

pub const UPDATE_FAILED: &'static str = "update task failed. ";

pub const DELETE_FAILED: &'static str = "Task deletion failed. ";

pub const LIST_FAILED: &'static str = "Task listing failed. ";

/// The three ways a listing can select tasks.
#[derive(Clone, Copy, Debug, PartialEq, Eq, Structural)]
pub enum ListOptionKind {
    All,
    Done,
    NotDone,
}

pub open spec fn filter_of(kind: ListOptionKind) -> Option<bool> {
    match kind {
        ListOptionKind::All => None,
        ListOptionKind::Done => Some(true),
        ListOptionKind::NotDone => Some(false),
    }
}

/// The filter a listing applies to the store.
pub fn list_filter(kind: ListOptionKind) -> (r: Option<bool>)
    ensures
        r == filter_of(kind),
{
    match kind {
        ListOptionKind::All => None,
        ListOptionKind::Done => Some(true),
        ListOptionKind::NotDone => Some(false),
    }
}

/// The message a failed operation reports: a connection failure verbatim, a
/// store failure behind the operation's prefix.
pub open spec fn failure_message(prefix: Seq<char>, e: StoreError) -> Seq<char> {
    match e {
        StoreError::Connection(s) => s@,
        StoreError::Operation(s) => prefix + s@,
    }
}

/// The error payload for a failed operation.
pub fn respond_failure(prefix: &str, e: StoreError) -> (r: WireError)
    ensures
        r.message@ == failure_message(prefix@, e),
{
    match e {
        StoreError::Connection(s) => WireError { message: s },
        StoreError::Operation(s) => WireError { message: String::from_str(prefix).concat(s.as_str()) },
    }
}

/// What a create or update handler answers for the store's outcome.
pub open spec fn answers_task(r: Result<WireTask, WireError>, prefix: Seq<char>, outcome: Result<Task, StoreError>) -> bool {
    match outcome {
        Ok(t) => r matches Ok(w) && w@ == wire_of(t@),
        Err(e) => r matches Err(m) && m.message@ == failure_message(prefix, e),
    }
}

fn respond_task(prefix: &str, outcome: Result<Task, StoreError>) -> (r: Result<WireTask, WireError>)
    requires
        outcome matches Ok(t) ==> t@.timestamps_wf(),
    ensures
        answers_task(r, prefix@, outcome),
{
    match outcome {
        Ok(t) => Ok(task_to_wire(t)),
        Err(e) => Err(respond_failure(prefix, e)),
    }
}

/// The answer to a create request whose definition was absent.
pub fn respond_missing_definition() -> (r: WireError)
    ensures
        r.message@ == MISSING_DEFINITION@,
{
    WireError { message: String::from_str(MISSING_DEFINITION) }
}

/// The answer to a create request, given what the store's insert gave back.
pub fn respond_create(outcome: Result<Task, StoreError>) -> (r: Result<WireTask, WireError>)
    requires
        outcome matches Ok(t) ==> t@.timestamps_wf(),
    ensures
        answers_task(r, CREATE_FAILED@, outcome),
{
    respond_task(CREATE_FAILED, outcome)
}

/// The answer to an update request, given what the store's update gave back.
pub fn respond_update(outcome: Result<Task, StoreError>) -> (r: Result<WireTask, WireError>)
    requires
        outcome matches Ok(t) ==> t@.timestamps_wf(),
    ensures
        answers_task(r, UPDATE_FAILED@, outcome),
{
    respond_task(UPDATE_FAILED, outcome)
}

/// The answer to a delete request, given how many rows the store deleted.
/// Deleting nothing is a success.
pub fn respond_delete(outcome: Result<usize, StoreError>) -> (r: Result<(), WireError>)
    ensures
        match outcome {
            Ok(_) => r is Ok,
            Err(e) => r matches Err(m) && m.message@ == failure_message(DELETE_FAILED@, e),
        },
{
    match outcome {
        Ok(_) => Ok(()),
        Err(e) => Err(respond_failure(DELETE_FAILED, e)),
    }
}

pub open spec fn wire_views(ts: Seq<WireTask>) -> Seq<WireTaskView> {
    ts.map_values(|w: WireTask| w@)
}

/// The answer to a list request, given the rows the store fetched: every
/// row in wire form, in order, or only an error where the fetch failed.
pub fn respond_list(outcome: Result<Vec<Task>, StoreError>) -> (r: Result<Vec<WireTask>, WireError>)
    requires
        outcome matches Ok(rows) ==> forall|i: int| 0 <= i < rows@.len() ==> (#[trigger] rows@[i])@.timestamps_wf(),
    ensures
        match outcome {
            Ok(rows) => r matches Ok(ws) && wire_views(ws@) == views(rows@).map_values(|t: TaskView| wire_of(t)),
            Err(e) => r matches Err(m) && m.message@ == failure_message(LIST_FAILED@, e),
        },
{
    match outcome {
        Ok(rows) => {
            let mut task_list: Vec<WireTask> = Vec::new();
            let mut i: usize = 0;
            while i < rows.len()
                invariant
                    i <= rows@.len(),
                    forall|k: int| 0 <= k < rows@.len() ==> (#[trigger] rows@[k])@.timestamps_wf(),
                    wire_views(task_list@) == views(rows@).subrange(0, i as int).map_values(|t: TaskView| wire_of(t)),
                decreases rows@.len() - i,
            {
                let w = task_to_wire(rows[i].duplicate());
                let ghost before = task_list@;
                let ghost wv = w@;
                task_list.push(w);
                assert(views(rows@)[i as int] == rows@[i as int]@);
                assert(wire_views(task_list@) =~= wire_views(before).push(wv));
                assert(wire_views(task_list@) =~= views(rows@).subrange(0, i + 1).map_values(|t: TaskView| wire_of(t)));
                i = i + 1;
            }
            assert(views(rows@).subrange(0, rows@.len() as int) =~= views(rows@));
            Ok(task_list)
        },
        Err(e) => Err(respond_failure(LIST_FAILED, e)),
    }
}

/// The task a create request for `name` stores, given the id it is handed and the time.
pub open spec fn created_task(id: i32, name: Seq<char>, now: Timestamp) -> TaskView {
    TaskView { id, name, created_at: now, done_at: None, done: false }
}

/// Handles a create request against a store. An absent definition is refused
/// before the store is touched; otherwise one row is appended and returned.
pub fn create(store: &mut MemoryStore, todo: Option<String>, now: Timestamp) -> (r: Result<WireTask, WireError>)
    requires
        old(store).wf(),
        now.wf(),
    ensures
        final(store).wf(),
        todo.is_none() ==> (r matches Err(m) && m.message@ == MISSING_DEFINITION@ && *final(store) == *old(store)),
        todo matches Some(n) ==> {
            if old(store).next_id() < i32::MAX {
                let t = created_task(old(store).next_id(), n@, now);
                &&& r matches Ok(w) && w@ == wire_of(t)
                &&& final(store)@ == old(store)@.push(t)
            } else {
                r is Err && *final(store) == *old(store)
            }
        },
{
    match prepare_create(todo, now) {
        None => Err(respond_missing_definition()),
        Some(new_task) => {
            let outcome = store.insert(new_task);
            respond_create(outcome)
        },
    }
}

/// Handles an update request against a store: the supplied fields are set,
/// `done_at` follows `done`, and the row as it now stands is returned. An id
/// that matches no row is an error and changes nothing.
pub fn update(store: &mut MemoryStore, id: i32, name: Option<String>, done: Option<bool>, now: Timestamp) -> (r: Result<WireTask, WireError>)
    requires
        old(store).wf(),
        now.wf(),
    ensures
        final(store).wf(),
        (exists|i: int| 0 <= i < old(store)@.len() && old(store)@[i].id == id) <==> r is Ok,
        match r {
            Ok(w) => exists|i: int| #![trigger old(store)@[i]] {
                let t = applied(old(store)@[i], derived_update(name_view(name), done, now));
                &&& 0 <= i < old(store)@.len() && old(store)@[i].id == id
                &&& w@ == wire_of(t)
                &&& t.wf()
                &&& final(store)@ == old(store)@.update(i, t)
            },
            Err(m) => *final(store) == *old(store)
                && m.message@ == UPDATE_FAILED@ + NOT_FOUND@,
        },
{
    let ghost name_v = name_view(name);
    let change = prepare_update(name, done, now);
    let outcome = store.update(id, &change);
    proof {
        if outcome is Ok {
            let i = choose|i: int| 0 <= i < old(store)@.len() && old(store)@[i].id == id
                && outcome.unwrap()@ == applied(old(store)@[i], change@)
                && final(store)@ == old(store)@.update(i, outcome.unwrap()@);
            lemma_update_keeps_invariant(old(store)@[i], name_v, done, now);
            assert(change@ == derived_update(name_v, done, now));
            let t = applied(old(store)@[i], derived_update(name_v, done, now));
            assert(wire_of(outcome.unwrap()@) == wire_of(t));
        }
    }
    respond_update(outcome)
}

/// Handles a delete request against a store. Deleting an id that matches no
/// row succeeds and changes nothing; otherwise exactly that row goes, and a
/// listing of all rows is one shorter.
pub fn delete(store: &mut MemoryStore, id: i32) -> (r: Result<(), WireError>)
    requires
        old(store).wf(),
    ensures
        final(store).wf(),
        r is Ok,
        (forall|i: int| 0 <= i < old(store)@.len() ==> old(store)@[i].id != id) ==> {
            &&& final(store)@ == old(store)@
            &&& selected(final(store)@, None).len() == selected(old(store)@, None).len()
        },
        (exists|i: int| 0 <= i < old(store)@.len() && old(store)@[i].id == id) ==> {
            &&& exists|i: int|
                0 <= i < old(store)@.len() && old(store)@[i].id == id && final(store)@ == old(store)@.remove(i)
            &&& selected(final(store)@, None).len() == selected(old(store)@, None).len() - 1
        },
{
    let n = store.delete(id);
    proof {
        lemma_select_all(old(store)@);
        lemma_select_all(final(store)@);
    }
    respond_delete(Ok(n))
}

/// Handles a list request against a store: the selected rows in wire form, in
/// table order.
pub fn list(store: &MemoryStore, option: ListOptionKind) -> (r: Result<Vec<WireTask>, WireError>)
    requires
        store.wf(),
    ensures
        r matches Ok(ws) && wire_views(ws@) == selected(store@, filter_of(option)).map_values(|t: TaskView| wire_of(t)),
{
    let rows = store.select(list_filter(option));
    respond_list(Ok(rows))
}

/// How many rows a list request of the given kind would return.
pub fn count(store: &MemoryStore, option: ListOptionKind) -> (r: usize)
    requires
        store.wf(),
    ensures
        r == selected(store@, filter_of(option)).len(),
{
    store.count(list_filter(option))
}

} // verus!
