//! An in-memory key-value server's core: the key-value store,
//! the `GET` and `SET` commands with their registry, the request parser, and
//! the step that a connection takes on each read.
use vstd::prelude::*;

pub mod command;
pub mod connection;
pub mod reply;
pub mod request;
pub mod storage;

verus! {

} // verus!
