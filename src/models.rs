use vstd::prelude::*;

verus! {

/// A persisted todo record.
#[derive(Debug, Clone, PartialEq, Eq)]
pub struct Todo {
    pub id: i32,
    pub title: String,
    pub completed: bool,
}

/// The payload of a creation or an update: a title only.
#[derive(Debug, Clone, PartialEq, Eq)]
pub struct TodoInput {
    pub title: String,
}

/// Any failure of the store or of its access path, not classified further.
#[derive(Debug, Clone, Copy, PartialEq, Eq, Structural)]
pub struct StoreError;

impl Todo {
    /// A field-by-field copy of the record.
    pub fn copied(&self) -> (r: Todo)
        ensures
            r == *self,
    {
        Todo { id: self.id, title: self.title.clone(), completed: self.completed }
    }
}

} // verus!
