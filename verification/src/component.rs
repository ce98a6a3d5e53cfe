//! Reusable view components.  Only the generic pure-component wrapper
//! carries any state logic; the concrete panels are rendering alone and
//! live outside this crate.

pub mod pure;
