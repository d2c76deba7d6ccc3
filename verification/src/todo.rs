use vstd::prelude::*;

verus! {

// The todo-CRUD collaborator the gateway forwards authorized requests to
// is out of the gateway's scope: each of its operations is a single SQL
// statement executed elsewhere. What is modelled here is the record those
// operations produce and the pure row transitions around them, so that the
// surrounding program only ever moves validated rows in and out of SQL.

/// One row of the todo table; timestamps are seconds since the epoch.
#[derive(Debug)]
pub struct Todo {
    pub id: i64,
    pub description: Option<String>,
    pub done_at: Option<i64>,
    pub created_at: i64,
    pub category: String,
    pub title: String,
}

/// The payload accepted when creating or replacing a todo.
#[derive(Debug)]
pub struct CreateTodoRequest {
    pub title: String,
    pub category: String,
    pub description: Option<String>,
}

impl Todo {
    /// The row a create operation inserts: not yet done, stamped with the
    /// creation time.
    pub fn create(id: i64, request: CreateTodoRequest, created_at: i64) -> (t: Todo)
        ensures
            t.id == id,
            t.title == request.title,
            t.category == request.category,
            t.description == request.description,
            t.created_at == created_at,
            t.done_at is None,
    {
        Todo {
            id,
            description: request.description,
            done_at: None,
            created_at,
            category: request.category,
            title: request.title,
        }
    }

    /// The update operation: replaces title, category and description,
    /// leaving identity and both timestamps untouched.
    pub fn apply_update(&mut self, request: CreateTodoRequest)
        ensures
            final(self).title == request.title,
            final(self).category == request.category,
            final(self).description == request.description,
            final(self).id == old(self).id,
            final(self).created_at == old(self).created_at,
            final(self).done_at == old(self).done_at,
    {
        self.title = request.title;
        self.category = request.category;
        self.description = request.description;
    }

    /// Marking done stamps the row with the completion time and changes
    /// nothing else.
    pub fn mark_done(&mut self, done_at: i64)
        ensures
            final(self).done_at == Some(done_at),
            final(self).id == old(self).id,
            final(self).title == old(self).title,
            final(self).category == old(self).category,
            final(self).description == old(self).description,
            final(self).created_at == old(self).created_at,
    {
        self.done_at = Some(done_at);
    }

    /// Marking undone clears the completion time and changes nothing else.
    pub fn mark_undone(&mut self)
        ensures
            final(self).done_at is None,
            final(self).id == old(self).id,
            final(self).title == old(self).title,
            final(self).category == old(self).category,
            final(self).description == old(self).description,
            final(self).created_at == old(self).created_at,
    {
        self.done_at = None;
    }
}

} // verus!
