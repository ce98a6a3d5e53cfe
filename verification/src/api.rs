//! Data model of the backend's REST interface.
//!
//! The backend is an external collaborator reached over four endpoints
//! (create a poll, fetch a poll, submit a vote, fetch results).  The
//! calls themselves are made outside this crate; these are the values
//! that travel over them.

use std::collections::HashMap;
use vstd::prelude::*;

verus! {

/// One choice of a poll, as the backend stores it.
#[derive(Debug)]
pub struct PollChoice {
    pub id: i32,
    pub poll_id: usize,
    pub details: String,
    pub created_at: String,
}

/// A poll's own row: identifier, shareable uuid, and title.
#[derive(Debug)]
pub struct PollMetadata {
    pub id: i32,
    pub uuid: String,
    pub title: String,
    pub created_at: String,
}

/// A poll together with its ordered choices.
#[derive(Debug)]
pub struct Poll {
    pub poll: PollMetadata,
    pub choices: Vec<PollChoice>,
}

/// The payload that creates a poll: a title and the choice texts.
#[derive(Debug)]
pub struct CreatePoll {
    pub title: String,
    pub choices: Vec<String>,
}

/// The backend's answer to a creation request: the new poll's identifier.
#[derive(Debug)]
pub struct CreatePollResponse {
    pub poll: String,
}

/// The payload that submits a vote: the voter's name and the dot count
/// allocated to each chosen choice, keyed by choice identifier.
#[derive(Debug)]
pub struct VoteSubmission {
    pub voter: String,
    pub choices: HashMap<i32, i32>,
}

/// One recorded vote row: `dots` dots put on `choice_id` by `voter`.
#[derive(Debug)]
pub struct Vote {
    pub id: i32,
    pub poll_id: i32,
    pub choice_id: i32,
    pub dots: i32,
    pub voter: String,
    pub created_at: String,
}

/// Everything the results page shows: the poll, its choices, and all
/// recorded votes.
#[derive(Debug)]
pub struct PollResults {
    pub poll: PollMetadata,
    pub choices: Vec<PollChoice>,
    pub votes: Vec<Vote>,
}

} // verus!
