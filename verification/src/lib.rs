//! Core of a todo-list service: request validation, password hashing,
//! bearer tokens, the identity check made for each request, the requests
//! that the resource handlers make to the stores and the replies they give
//! to the stores' answers, and a store that keeps its records in memory.

pub mod auth;
pub mod error;
pub mod ident;
pub mod memory;
pub mod models;
pub mod routes;
pub mod store;
pub mod text;
