//! What the handlers ask of the credential store and the todo store, and what
//! the stores answer.

use vstd::prelude::*;
use crate::ident::Id;
use crate::models::Timestamp;

verus! {

/// The SQLSTATE code with which a store reports that a value which must be
/// unique is there already.
pub open spec fn unique_violation_code() -> Seq<char> {
    "23505"@
}

/// A request to a store. A request for todo items names the user whom the
/// items must belong to.
#[derive(Clone, Debug, PartialEq, Eq)]
pub enum StoreCommand {
    /// Insert a user.
    InsertUser { id: Id, email: String, password_hash: String },
    /// Find the user with an address.
    FindUserByEmail { email: String },
    /// Insert a todo item that is not completed.
    InsertTodo { id: Id, owner: Id, title: String },
    /// List the items of a user.
    ListTodos { owner: Id },
    /// Give an item a new title and state, if the user owns it.
    UpdateTodo { id: Id, owner: Id, title: String, completed: bool },
    /// Delete an item, if the user owns it.
    DeleteTodo { id: Id, owner: Id },
}

/// A `StoreCommand` as contracts see it.
pub enum StoreCommandView {
    InsertUser { id: Id, email: Seq<char>, password_hash: Seq<char> },
    FindUserByEmail { email: Seq<char> },
    InsertTodo { id: Id, owner: Id, title: Seq<char> },
    ListTodos { owner: Id },
    UpdateTodo { id: Id, owner: Id, title: Seq<char>, completed: bool },
    DeleteTodo { id: Id, owner: Id },
}

impl View for StoreCommand {
    type V = StoreCommandView;

    open spec fn view(&self) -> StoreCommandView {
        match self {
            StoreCommand::InsertUser { id, email, password_hash } => StoreCommandView::InsertUser {
                id: *id,
                email: email@,
                password_hash: password_hash@,
            },
            StoreCommand::FindUserByEmail { email } => StoreCommandView::FindUserByEmail {
                email: email@,
            },
            StoreCommand::InsertTodo { id, owner, title } => StoreCommandView::InsertTodo {
                id: *id,
                owner: *owner,
                title: title@,
            },
            StoreCommand::ListTodos { owner } => StoreCommandView::ListTodos { owner: *owner },
            StoreCommand::UpdateTodo { id, owner, title, completed } => StoreCommandView::UpdateTodo {
                id: *id,
                owner: *owner,
                title: title@,
                completed: *completed,
            },
            StoreCommand::DeleteTodo { id, owner } => StoreCommandView::DeleteTodo {
                id: *id,
                owner: *owner,
            },
        }
    }
}

impl StoreCommandView {
    /// The SQL statement that carries the request out. Its parameters are the
    /// request's fields, bound in the order of the placeholders.
    pub open spec fn statement(self) -> Seq<char> {
        match self {
            StoreCommandView::InsertUser { .. } =>
                "INSERT INTO users (id, email, password_hash) VALUES ($1, $2, $3)"@,
            StoreCommandView::FindUserByEmail { .. } =>
                "SELECT id, password_hash FROM users WHERE email = $1"@,
            StoreCommandView::InsertTodo { .. } =>
                "INSERT INTO todos (id, user_id, title) VALUES ($1, $2, $3)"@,
            StoreCommandView::ListTodos { .. } =>
                "SELECT id, title, completed, created_at FROM todos WHERE user_id = $1"@,
            StoreCommandView::UpdateTodo { .. } =>
                "UPDATE todos SET title = $1, completed = $2 WHERE id = $3 AND user_id = $4 RETURNING id, title, completed, created_at"@,
            StoreCommandView::DeleteTodo { .. } =>
                "DELETE FROM todos WHERE id = $1 AND user_id = $2"@,
        }
    }
}

impl StoreCommand {
    /// The SQL statement that carries the request out.
    pub fn statement(&self) -> (sql: &'static str)
        ensures
            sql@ == self@.statement(),
    {
        match self {
            StoreCommand::InsertUser { .. } =>
                "INSERT INTO users (id, email, password_hash) VALUES ($1, $2, $3)",
            StoreCommand::FindUserByEmail { .. } =>
                "SELECT id, password_hash FROM users WHERE email = $1",
            StoreCommand::InsertTodo { .. } =>
                "INSERT INTO todos (id, user_id, title) VALUES ($1, $2, $3)",
            StoreCommand::ListTodos { .. } =>
                "SELECT id, title, completed, created_at FROM todos WHERE user_id = $1",
            StoreCommand::UpdateTodo { .. } =>
                "UPDATE todos SET title = $1, completed = $2 WHERE id = $3 AND user_id = $4 RETURNING id, title, completed, created_at",
            StoreCommand::DeleteTodo { .. } => "DELETE FROM todos WHERE id = $1 AND user_id = $2",
        }
    }
}

/// A request that a store could not serve. `code` is the SQLSTATE code where
/// the database gave one.
#[derive(Clone, Debug, PartialEq, Eq)]
pub struct StoreFailure {
    pub code: Option<String>,
}

/// A user's record as the credential store hands it out. A field is `None`
/// where the column could not be read.
#[derive(Clone, Debug, PartialEq, Eq)]
pub struct UserRow {
    pub id: Option<Id>,
    pub password_hash: Option<String>,
}

/// A todo item as the todo store hands it out. A field is `None` where the
/// column could not be read.
#[derive(Clone, Debug, PartialEq, Eq)]
pub struct TodoRow {
    pub id: Option<Id>,
    pub title: Option<String>,
    pub completed: Option<bool>,
    pub created_at: Option<Timestamp>,
}

impl StoreFailure {
    /// Whether the store refused a value that must be unique and is there
    /// already.
    pub open spec fn is_unique_violation_spec(&self) -> bool {
        self.code.deep_view() == Some(unique_violation_code())
    }
}

/// Tells whether the store refused a value that must be unique and is there
/// already.
pub fn is_unique_violation(failure: &StoreFailure) -> (r: bool)
    ensures
        r == failure.is_unique_violation_spec(),
{
    match &failure.code {
        Some(code) => {
            let expected = "23505".to_owned();
            *code == expected
        },
        None => false,
    }
}

} // verus!
