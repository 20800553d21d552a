//! A persistent singly-linked list of `i32` values.
//!
//! The list is a recursive chain of nodes, each owning its tail. All
//! operations consume their inputs and build new lists; contracts are
//! stated over the list's view, a `Seq<i32>` of its elements in order.

pub mod list;
pub mod text;
