use vstd::prelude::*;
use crate::model::{apply_update, applied, NewTask, Task, TaskView, UpdateTask, UpdateTaskView};

verus! {

/// The cause an update gives where no row has the id.
pub const NOT_FOUND: &'static str = "Record not found";

/// Why a store operation failed.
#[derive(Clone, Debug)]
pub enum StoreError {
    /// No connection to the store could be had; the text says why.
    Connection(String),
    /// The operation itself failed; the text is the store's cause.
    Operation(String),
}

/// Which rows a listing selects: all of them, or those whose `done` is the given value.
pub open spec fn selects(filter: Option<bool>, t: TaskView) -> bool {
    match filter {
        Some(d) => t.done == d,
        None => true,
    }
}

pub open spec fn views(rows: Seq<Task>) -> Seq<TaskView> {
    rows.map_values(|t: Task| t@)
}

/// The rows of a table that a filter selects, in the table's order.
pub open spec fn selected(rows: Seq<TaskView>, filter: Option<bool>) -> Seq<TaskView> {
    rows.filter(|t: TaskView| selects(filter, t))
}

/// A change that keeps every well-formed task well formed: it sets `done`
/// and `done_at` together, in agreement, and any timestamp it sets is in range.
pub open spec fn keeps_consistent(u: UpdateTaskView) -> bool {
    &&& u.done.is_some() == u.done_at.is_some()
    &&& (u.done matches Some(b) ==> u.done_at.unwrap().is_some() == b)
    &&& (u.done_at matches Some(Some(t)) ==> t.wf())
}

/// Selecting with no filter gives every row.
pub proof fn lemma_select_all(rows: Seq<TaskView>)
    ensures
        selected(rows, None) == rows,
    decreases rows.len(),
{
    reveal(Seq::filter);
    if rows.len() > 0 {
        lemma_select_all(rows.drop_last());
        assert(rows.drop_last().push(rows.last()) =~= rows);
    }
}

/// An in-memory table of tasks keyed by `id`, which hands out ids in increasing order.
pub struct MemoryStore {
    rows: Vec<Task>,
    next_id: i32,
}

impl View for MemoryStore {
    type V = Seq<TaskView>;

    closed spec fn view(&self) -> Seq<TaskView> {
        views(self.rows@)
    }
}

impl MemoryStore {
    /// The id the next insert will be given.
    pub closed spec fn next_id(&self) -> i32 {
        self.next_id
    }

    /// Ids are unique, every id is below the next one handed out, and every
    /// row is well formed: `done_at` present exactly when done, timestamps in range.
    pub open spec fn wf(&self) -> bool {
        &&& 1 <= self.next_id()
        &&& forall|i: int| 0 <= i < self@.len() ==> #[trigger] self@[i].id < self.next_id()
        &&& forall|i: int| 0 <= i < self@.len() ==> (#[trigger] self@[i]).wf()
        &&& forall|i: int, j: int| 0 <= i < j < self@.len() ==> #[trigger] self@[i].id != #[trigger] self@[j].id
    }

    /// An empty table.
    pub fn new() -> (r: MemoryStore)
        ensures
            r.wf(),
            r@ == Seq::<TaskView>::empty(),
            r.next_id() == 1,
    {
        let r = MemoryStore { rows: Vec::new(), next_id: 1 };
        assert(r@ =~= Seq::<TaskView>::empty());
        r
    }

    /// Inserts a new row and returns it as stored: a fresh id, not done, no
    /// completion time. Fails, changing nothing, once the ids are used up.
    pub fn insert(&mut self, new_task: NewTask) -> (r: Result<Task, StoreError>)
        requires
            old(self).wf(),
            new_task.created_at.wf(),
        ensures
            final(self).wf(),
            old(self).next_id() < i32::MAX <==> r.is_ok(),
            match r {
                Ok(t) => {
                    &&& t@ == (TaskView {
                        id: old(self).next_id(),
                        name: new_task.name@,
                        created_at: new_task.created_at,
                        done_at: None,
                        done: false,
                    })
                    &&& final(self)@ == old(self)@.push(t@)
                    &&& final(self).next_id() == old(self).next_id() + 1
                },
                Err(e) => *final(self) == *old(self) && e is Operation,
            },
    {
        if self.next_id == i32::MAX {
            return Err(StoreError::Operation(String::from_str("the id sequence is exhausted")));
        }
        let t = Task {
            id: self.next_id,
            name: new_task.name,
            created_at: new_task.created_at,
            done_at: None,
            done: false,
        };
        let stored = t.duplicate();
        self.rows.push(t);
        self.next_id = self.next_id + 1;
        assert(self@ =~= old(self)@.push(stored@));
        Ok(stored)
    }

    /// The position of the row with the given id, if there is one.
    fn find(&self, id: i32) -> (r: Option<usize>)
        requires
            self.wf(),
        ensures
            match r {
                Some(i) => i < self@.len() && self@[i as int].id == id,
                None => forall|i: int| 0 <= i < self@.len() ==> self@[i].id != id,
            },
    {
        let mut i: usize = 0;
        while i < self.rows.len()
            invariant
                i <= self.rows@.len(),
                forall|k: int| 0 <= k < i ==> self@[k].id != id,
            decreases self.rows@.len() - i,
        {
            if self.rows[i].id == id {
                return Some(i);
            }
            i = i + 1;
        }
        None
    }

    /// Applies a change to the row with the given id and returns the row as
    /// it now stands. Fails, changing nothing, where no row has that id.
    pub fn update(&mut self, id: i32, change: &UpdateTask) -> (r: Result<Task, StoreError>)
        requires
            old(self).wf(),
            keeps_consistent(change@),
        ensures
            final(self).wf(),
            final(self).next_id() == old(self).next_id(),
            (exists|i: int| 0 <= i < old(self)@.len() && old(self)@[i].id == id) <==> r.is_ok(),
            match r {
                Ok(t) => exists|i: int|
                    0 <= i < old(self)@.len() && old(self)@[i].id == id
                    && t@ == applied(old(self)@[i], change@)
                    && final(self)@ == old(self)@.update(i, t@),
                Err(e) => *final(self) == *old(self) && (e matches StoreError::Operation(s)
                    && s@ == NOT_FOUND@),
            },
    {
        match self.find(id) {
            Some(i) => {
                let t = apply_update(self.rows[i].duplicate(), change);
                let stored = t.duplicate();
                self.rows.set(i, t);
                assert(self@ =~= old(self)@.update(i as int, stored@));
                assert(self@[i as int] == stored@);
                Ok(stored)
            },
            None => Err(StoreError::Operation(String::from_str(NOT_FOUND))),
        }
    }

    /// Deletes the row with the given id, if there is one, and returns how
    /// many rows went: one, or none where no row had that id.
    pub fn delete(&mut self, id: i32) -> (r: usize)
        requires
            old(self).wf(),
        ensures
            final(self).wf(),
            final(self).next_id() == old(self).next_id(),
            (forall|i: int| 0 <= i < old(self)@.len() ==> old(self)@[i].id != id) ==> {
                r == 0 && final(self)@ == old(self)@
            },
            (exists|i: int| 0 <= i < old(self)@.len() && old(self)@[i].id == id) ==> {
                r == 1 && exists|i: int|
                    0 <= i < old(self)@.len() && old(self)@[i].id == id
                    && final(self)@ == old(self)@.remove(i)
            },
    {
        match self.find(id) {
            Some(i) => {
                self.rows.remove(i);
                assert(self@ =~= old(self)@.remove(i as int));
                1
            },
            None => 0,
        }
    }

    /// The rows that a filter selects, in table order.
    pub fn select(&self, filter: Option<bool>) -> (r: Vec<Task>)
        requires
            self.wf(),
        ensures
            views(r@) == selected(self@, filter),
            forall|i: int| 0 <= i < r@.len() ==> (#[trigger] r@[i])@.wf(),
    {
        let mut out: Vec<Task> = Vec::new();
        let mut i: usize = 0;
        proof {
            reveal(Seq::filter);
            assert(views(out@) =~= selected(self@.subrange(0, 0), filter));
        }
        while i < self.rows.len()
            invariant
                self.wf(),
                i <= self.rows@.len(),
                views(out@) == selected(self@.subrange(0, i as int), filter),
                forall|k: int| 0 <= k < out@.len() ==> (#[trigger] out@[k])@.wf(),
            decreases self.rows@.len() - i,
        {
            let ghost before = out@;
            let ghost pred = |t: TaskView| selects(filter, t);
            assert(self@.subrange(0, i + 1).drop_last() =~= self@.subrange(0, i as int));
            assert(self@[i as int] == self.rows@[i as int]@);
            reveal(Seq::filter);
            assert(self@.subrange(0, i + 1).filter(pred) == if pred(self@[i as int]) {
                self@.subrange(0, i as int).filter(pred).push(self@[i as int])
            } else {
                self@.subrange(0, i as int).filter(pred)
            });
            let keep = match filter {
                Some(d) => self.rows[i].done == d,
                None => true,
            };
            if keep {
                out.push(self.rows[i].duplicate());
                assert(views(out@) =~= views(before).push(self@[i as int]));
            }
            assert(self@.subrange(0, i + 1).last() == self@[i as int]);
            i = i + 1;
        }
        assert(self@.subrange(0, self.rows@.len() as int) =~= self@);
        out
    }

    /// How many rows a filter selects.
    pub fn count(&self, filter: Option<bool>) -> (r: usize)
        requires
            self.wf(),
        ensures
            r == selected(self@, filter).len(),
    {
        self.select(filter).len()
    }
}

} // verus!
