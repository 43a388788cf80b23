//! An in-memory store of todo items with create, list, patch and delete
//! operations, each with a machine-checked contract.
//!
//! The store keeps its records in insertion order, never holds two records
//! with the same identifier, and never hands out an identifier twice, not
//! even after the record that carried it was deleted.

pub mod error;
pub mod ident;
pub mod model;
pub mod state;
pub mod controller;
pub mod laws;

pub use crate::controller::ModelController;
pub use crate::error::Error;
pub use crate::model::{Pagination, PatchTodo, PostTodo, Todo};
