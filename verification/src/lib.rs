//! A singly linked list of `u32` values, built cell by cell.
//!
//! A list is either empty or a cell that owns one element and the rest of
//! the list. It grows at the head only: `prepend` takes the list by value and
//! hands back a new one whose tail is the old list.
//!
//! Every contract is stated over the list's view, the `Seq<u32>` of its
//! elements from head to tail.

pub mod decimal;
pub mod list;

pub use list::List;
