//! An in-memory bill tracker: a store of named bills and the decisions of the
//! text menu that drives it.
//!
//! The library holds every rule of the tracker and performs no input or
//! output. A front end reads lines, hands them to a [`session::Session`] and
//! prints what the session returns.

pub mod bill;
pub mod bills;
pub mod input;
pub mod main_menu;
pub mod menu;
pub mod output;
pub mod session;
pub mod text;
