use crate::models::{StoreError, Todo, TodoInput};
use vstd::prelude::*;

verus! {

/// The abstract state of the todo table: its rows in insertion order and the
/// identifier that the next creation assigns.
pub ghost struct TableModel {
    pub rows: Seq<Todo>,
    pub next_id: int,
}

/// Whether some row carries the identifier `id`.
pub open spec fn has_id(rows: Seq<Todo>, id: i32) -> bool {
    exists|i: int| 0 <= i < rows.len() && rows[i].id == id
}

/// The position of the row with identifier `id` (meaningful when `has_id`).
pub open spec fn index_of(rows: Seq<Todo>, id: i32) -> int {
    choose|i: int| 0 <= i < rows.len() && rows[i].id == id
}

/// The row with identifier `id`, if any.
pub open spec fn lookup(rows: Seq<Todo>, id: i32) -> Option<Todo> {
    if has_id(rows, id) {
        Some(rows[index_of(rows, id)])
    } else {
        None
    }
}

impl TableModel {
    /// Identifiers are positive, below `next_id`, and strictly increase along
    /// the rows, so that each identifies at most one row.
    pub open spec fn wf(self) -> bool {
        &&& 1 <= self.next_id <= i32::MAX
        &&& forall|i: int| 0 <= i < self.rows.len() ==> 1 <= #[trigger] self.rows[i].id < self.next_id
        &&& forall|i: int, j: int|
            0 <= i < j < self.rows.len() ==> #[trigger] self.rows[i].id < #[trigger] self.rows[j].id
    }

    /// Whether a creation can still be given a fresh identifier.
    pub open spec fn can_create(self) -> bool {
        self.next_id < i32::MAX
    }

    /// The record that a creation with `title` inserts.
    pub open spec fn new_record(self, title: String) -> Todo {
        Todo { id: self.next_id as i32, title, completed: false }
    }

    /// The state after a creation with `title`; unchanged when no identifier is left.
    pub open spec fn create(self, title: String) -> TableModel {
        if self.can_create() {
            TableModel { rows: self.rows.push(self.new_record(title)), next_id: self.next_id + 1 }
        } else {
            self
        }
    }

    /// The state after setting the title of the row `id` (unchanged if absent).
    pub open spec fn update(self, id: i32, title: String) -> TableModel {
        if has_id(self.rows, id) {
            let old_row = self.rows[index_of(self.rows, id)];
            TableModel {
                rows: self.rows.update(
                    index_of(self.rows, id),
                    Todo { id: old_row.id, title, completed: old_row.completed },
                ),
                next_id: self.next_id,
            }
        } else {
            self
        }
    }

    /// The state after deleting the row `id` (unchanged if absent).
    pub open spec fn delete(self, id: i32) -> TableModel {
        if has_id(self.rows, id) {
            TableModel { rows: self.rows.remove(index_of(self.rows, id)), next_id: self.next_id }
        } else {
            self
        }
    }

    /// How many rows a deletion of `id` affects.
    pub open spec fn delete_count(self, id: i32) -> nat {
        if has_id(self.rows, id) {
            1
        } else {
            0
        }
    }
}

/// An in-memory todo table with the semantics of the relational store:
/// the table assigns identifiers in increasing order and never reuses one.
pub struct TodoTable {
    rows: Vec<Todo>,
    next_id: i32,
}

impl View for TodoTable {
    type V = TableModel;

    closed spec fn view(&self) -> TableModel {
        TableModel { rows: self.rows@, next_id: self.next_id as int }
    }
}

impl TodoTable {
    pub open spec fn wf(&self) -> bool {
        self@.wf()
    }

    /// An empty table whose first identifier is 1.
    pub fn new() -> (r: TodoTable)
        ensures
            r.wf(),
            r@.rows.len() == 0,
            r@.next_id == 1,
    {
        TodoTable { rows: Vec::new(), next_id: 1 }
    }

    /// Inserts a record with the given title, `completed = false` and a fresh
    /// identifier, and returns it; fails when no identifier is left.
    pub fn create(&mut self, input: TodoInput) -> (r: Result<Todo, StoreError>)
        requires
            old(self).wf(),
        ensures
            final(self).wf(),
            final(self)@ == old(self)@.create(input.title),
            old(self)@.can_create() ==> r == Ok::<Todo, StoreError>(
                old(self)@.new_record(input.title),
            ),
            !old(self)@.can_create() ==> r == Err::<Todo, StoreError>(StoreError),
    {
        if self.next_id == i32::MAX {
            return Err(StoreError);
        }
        let ghost before = self@;
        let record = Todo { id: self.next_id, title: input.title, completed: false };
        let reply = record.copied();
        self.rows.push(record);
        self.next_id = self.next_id + 1;
        proof {
            let rows = self.rows@;
            assert forall|i: int| 0 <= i < rows.len() implies 1 <= #[trigger] rows[i].id
                < self.next_id by {
                if i < rows.len() - 1 {
                    assert(rows[i] == before.rows[i]);
                }
            }
            assert forall|i: int, j: int| 0 <= i < j < rows.len() implies rows[i].id
                < rows[j].id by {
                assert(rows[i] == before.rows[i]);
                if j < rows.len() - 1 {
                    assert(rows[j] == before.rows[j]);
                }
            }
        }
        Ok(reply)
    }

    /// The position of the row with identifier `id`, if any.
    fn position(&self, id: i32) -> (r: Option<usize>)
        requires
            self.wf(),
        ensures
            r is Some <==> has_id(self@.rows, id),
            r matches Some(i) ==> i == index_of(self@.rows, id) && i < self@.rows.len(),
    {
        let mut i: usize = 0;
        while i < self.rows.len()
            invariant
                self.wf(),
                i <= self.rows@.len(),
                forall|k: int| 0 <= k < i ==> (#[trigger] self.rows@[k]).id != id,
            decreases self.rows@.len() - i,
        {
            if self.rows[i].id == id {
                proof {
                    let rows = self.rows@;
                    assert(self@.rows == rows);
                    assert(self@.wf());
                    assert(has_id(rows, id));
                    let j = index_of(rows, id);
                    assert(0 <= j < rows.len());
                    assert(rows[j].id == id);
                    if j < i {
                        assert(rows[j].id < rows[i as int].id);
                    } else if j > i {
                        assert(rows[i as int].id < rows[j].id);
                    }
                }
                return Some(i);
            }
            i = i + 1;
        }
        None
    }

    /// Every row, in insertion order.
    pub fn list(&self) -> (r: Vec<Todo>)
        ensures
            r@ == self@.rows,
    {
        let mut out: Vec<Todo> = Vec::new();
        let mut i: usize = 0;
        while i < self.rows.len()
            invariant
                i <= self.rows@.len(),
                out@ == self.rows@.subrange(0, i as int),
            decreases self.rows@.len() - i,
        {
            out.push(self.rows[i].copied());
            i = i + 1;
            assert(out@ =~= self.rows@.subrange(0, i as int));
        }
        assert(out@ =~= self.rows@);
        out
    }

    /// The row with identifier `id`, if any.
    pub fn get(&self, id: i32) -> (r: Option<Todo>)
        requires
            self.wf(),
        ensures
            r == lookup(self@.rows, id),
    {
        match self.position(id) {
            Some(i) => Some(self.rows[i].copied()),
            None => None,
        }
    }

    /// Sets the title of the row `id`, leaving its identifier and `completed`
    /// unchanged, and returns the updated row; `None` when no row has `id`.
    pub fn update(&mut self, id: i32, title: String) -> (r: Option<Todo>)
        requires
            old(self).wf(),
        ensures
            final(self).wf(),
            final(self)@ == old(self)@.update(id, title),
            r == lookup(final(self)@.rows, id),
    {
        match self.position(id) {
            Some(i) => {
                let ghost before = self@;
                assert(before.rows[i as int].id == id);
                let row = Todo { id: self.rows[i].id, title, completed: self.rows[i].completed };
                let reply = row.copied();
                self.rows.set(i, row);
                proof {
                    let rows = self.rows@;
                    assert(forall|k: int| 0 <= k < rows.len() ==> rows[k].id == before.rows[k].id);
                    assert(rows.len() == before.rows.len());
                    assert(rows[i as int].id == id);
                    assert(has_id(rows, id));
                    let j = index_of(rows, id);
                    if j < i {
                        assert(rows[j].id < rows[i as int].id);
                    } else if j > i {
                        assert(rows[i as int].id < rows[j].id);
                    }
                }
                Some(reply)
            },
            None => None,
        }
    }

    /// Deletes the row `id` and returns how many rows were affected (0 or 1).
    pub fn delete(&mut self, id: i32) -> (r: usize)
        requires
            old(self).wf(),
        ensures
            final(self).wf(),
            final(self)@ == old(self)@.delete(id),
            r == old(self)@.delete_count(id),
    {
        match self.position(id) {
            Some(i) => {
                let ghost before = self@;
                self.rows.remove(i);
                proof {
                    let rows = self.rows@;
                    assert forall|k: int| 0 <= k < rows.len() implies #[trigger] rows[k] == (
                    if k < i {
                        before.rows[k]
                    } else {
                        before.rows[k + 1]
                    }) by {}
                    assert forall|a: int, b: int| 0 <= a < b < rows.len() implies rows[a].id
                        < rows[b].id by {
                        let a0 = if a < i { a } else { a + 1 };
                        let b0 = if b < i { b } else { b + 1 };
                        assert(rows[a] == before.rows[a0]);
                        assert(rows[b] == before.rows[b0]);
                        assert(before.rows[a0].id < before.rows[b0].id);
                    }
                }
                1
            },
            None => 0,
        }
    }
}

} // verus!
