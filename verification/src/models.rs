//! Bodies of requests and replies.

use vstd::prelude::*;
use crate::ident::Id;

verus! {

/// A point in time: seconds since the Unix epoch and the nanoseconds within
/// that second.
#[derive(Clone, Copy, Debug, PartialEq, Eq, Structural)]
pub struct Timestamp {
    pub secs: i64,
    pub nanos: u32,
}

/// The body of a registration.
#[derive(Clone, Debug, PartialEq, Eq)]
pub struct RegisterReq {
    pub email: String,
    pub password: String,
}

/// The body of a login.
#[derive(Clone, Debug, PartialEq, Eq)]
pub struct LoginReq {
    pub email: String,
    pub password: String,
}

/// The body of the creation of a todo item.
#[derive(Clone, Debug, PartialEq, Eq)]
pub struct CreateTodoReq {
    pub title: String,
}

/// The body of the update of a todo item.
#[derive(Clone, Debug, PartialEq, Eq)]
pub struct UpdateTodoReq {
    pub title: String,
    pub completed: bool,
}

/// A reply that only tells what was done.
#[derive(Clone, Debug, PartialEq, Eq)]
pub struct MessageResponse {
    pub message: String,
}

/// The body of a reply that reports a failure.
#[derive(Clone, Debug, PartialEq, Eq)]
pub struct ErrorResponse {
    pub error: String,
}

/// The reply to a login: the bearer token.
#[derive(Clone, Debug, PartialEq, Eq)]
pub struct TokenResponse {
    pub token: String,
}

/// The reply to the creation of a todo item: its identifier.
#[derive(Clone, Copy, Debug, PartialEq, Eq, Structural)]
pub struct CreateTodoResponse {
    pub id: Id,
}

/// A todo item as replies hand it out.
#[derive(Clone, Debug, PartialEq, Eq)]
pub struct TodoResponse {
    pub id: Id,
    pub title: String,
    pub completed: bool,
    pub created_at: Timestamp,
}

/// A todo item as contracts see it.
pub struct TodoView {
    pub id: Id,
    pub title: Seq<char>,
    pub completed: bool,
    pub created_at: Timestamp,
}

impl View for TodoResponse {
    type V = TodoView;

    open spec fn view(&self) -> TodoView {
        TodoView {
            id: self.id,
            title: self.title@,
            completed: self.completed,
            created_at: self.created_at,
        }
    }
}

} // verus!
