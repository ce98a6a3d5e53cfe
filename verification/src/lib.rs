//! Client-side logic of a dot-voting poll application.
//!
//! A poll offers a list of choices; each respondent distributes a fixed
//! budget of dots across the choices and submits the allocation under a
//! name.  A results page colours every submitted dot by its voter.  This
//! crate holds the data model and the state transitions of the three
//! pages (poll creation, voting, results); rendering and the REST calls
//! live outside it.

use vstd::prelude::*;

pub mod api;
pub mod component;
pub mod poll;

verus! {

/// The pages of the application: a poll page addressed by the poll's
/// identifier, and the index page where a poll is created.
#[derive(Clone, Debug, PartialEq)]
pub enum AppRoute {
    Poll(String),
    Index,
}

} // verus!
