//! The voting page.
//!
//! A respondent holds a fixed budget of dots and puts them on choices
//! one click at a time; a dot can be taken back as long as the vote has
//! not been submitted.  The allocation is kept as a list of pairs
//! `(choice identifier, dot count)` with pairwise distinct identifiers,
//! in the order the choices first received a dot.  Once a vote has been
//! submitted, the allocation is persisted under a key derived from the
//! poll's identifier, and a later visit of the page starts from the
//! persisted allocation with nothing left to spend.

use std::collections::HashMap;
use vstd::prelude::*;
use vstd::string::StringExecFns;

use crate::api::{Poll, VoteSubmission};

verus! {

/// How many dots each respondent may distribute.
pub const VOTE_BUDGET: i32 = 2;

/// True when no two pairs of the allocation name the same choice.
pub open spec fn keys_unique(s: Seq<(i32, i32)>) -> bool {
    forall|i: int, j: int| 0 <= i < j < s.len() ==> s[i].0 != s[j].0
}

/// True when some pair of the allocation names `id`.
pub open spec fn has_choice(s: Seq<(i32, i32)>, id: i32) -> bool {
    exists|k: int| 0 <= k < s.len() && s[k].0 == id
}

/// The position of the pair naming `id` (meaningful when `has_choice`
/// holds and the keys are distinct).
pub open spec fn choice_index(s: Seq<(i32, i32)>, id: i32) -> int {
    choose|k: int| 0 <= k < s.len() && s[k].0 == id
}

/// The dots the allocation puts on `id`: the count of its pair, or zero
/// when no pair names it.
pub open spec fn dots_for(s: Seq<(i32, i32)>, id: i32) -> int {
    if has_choice(s, id) {
        s[choice_index(s, id)].1 as int
    } else {
        0
    }
}

/// The dots the allocation has placed in total.
pub open spec fn total_dots(s: Seq<(i32, i32)>) -> int
    decreases s.len(),
{
    if s.len() == 0 {
        0
    } else {
        total_dots(s.drop_last()) + s.last().1
    }
}

/// The allocation read as a map from choice identifier to dot count.
pub open spec fn votes_map(s: Seq<(i32, i32)>) -> Map<i32, i32>
    decreases s.len(),
{
    if s.len() == 0 {
        Map::empty()
    } else {
        votes_map(s.drop_last()).insert(s.last().0, s.last().1)
    }
}

proof fn lemma_choice_index_is(s: Seq<(i32, i32)>, j: int)
    requires
        keys_unique(s),
        0 <= j < s.len(),
    ensures
        has_choice(s, s[j].0),
        choice_index(s, s[j].0) == j,
{
    let id = s[j].0;
    assert(has_choice(s, id));
    let c = choice_index(s, id);
    assert(0 <= c < s.len() && s[c].0 == id);
    if c < j {
        assert(s[c].0 != s[j].0);
    } else if j < c {
        assert(s[j].0 != s[c].0);
    }
}

proof fn lemma_total_dots_update(s: Seq<(i32, i32)>, j: int, p: (i32, i32))
    requires
        0 <= j < s.len(),
    ensures
        total_dots(s.update(j, p)) == total_dots(s) - s[j].1 + p.1,
    decreases s.len(),
{
    let t = s.update(j, p);
    if j == s.len() - 1 {
        assert(t.drop_last() =~= s.drop_last());
    } else {
        assert(t.drop_last() =~= s.drop_last().update(j, p));
        lemma_total_dots_update(s.drop_last(), j, p);
    }
}

proof fn lemma_total_dots_push(s: Seq<(i32, i32)>, p: (i32, i32))
    ensures
        total_dots(s.push(p)) == total_dots(s) + p.1,
{
    assert(s.push(p).drop_last() =~= s);
}

proof fn lemma_total_dots_nonneg(s: Seq<(i32, i32)>)
    requires
        forall|k: int| 0 <= k < s.len() ==> s[k].1 >= 0,
    ensures
        total_dots(s) >= 0,
    decreases s.len(),
{
    if s.len() > 0 {
        lemma_total_dots_nonneg(s.drop_last());
    }
}

proof fn lemma_entry_le_total(s: Seq<(i32, i32)>, j: int)
    requires
        forall|k: int| 0 <= k < s.len() ==> s[k].1 >= 0,
        0 <= j < s.len(),
    ensures
        s[j].1 <= total_dots(s),
    decreases s.len(),
{
    if j == s.len() - 1 {
        lemma_total_dots_nonneg(s.drop_last());
    } else {
        lemma_entry_le_total(s.drop_last(), j);
    }
}

/// Properties of the voting page: which poll it shows.
pub struct Props {
    pub poll_id: String,
}

/// The page's state.  `poll` is filled once the poll has been fetched;
/// `votes` is the allocation; `voted` records that a vote stands
/// submitted (whether in this visit or a persisted earlier one).
pub struct State {
    pub voted: bool,
    pub poll: Option<Poll>,
    pub votes: Vec<(i32, i32)>,
    pub name: String,
    pub dots_remaining: i32,
}

/// Events the page reacts to.
pub enum Msg {
    AddDot(i32),
    RemoveDot(i32),
    UpdateName(String),
    FetchSuccess(Poll),
    SubmitVote,
    FetchFailed,
    VoteSuccess,
    VoteFailed,
}

/// What a step asks the page's surroundings to carry out.
#[derive(Debug, PartialEq)]
pub enum Effect {
    /// Nothing beyond rendering.
    Nothing,
    /// Send the current name and allocation to the backend.
    SubmitVote,
    /// Persist the current allocation under the poll's storage key.
    PersistVotes,
    /// Fetch the poll with the given identifier anew.
    FetchPoll(String),
}

/// Which of the page's three screens is due.
#[derive(Debug, PartialEq)]
pub enum Screen {
    Loading,
    Voted,
    CanVote,
}

/// The voting page: its properties and its state.
pub struct ShowPoll {
    pub props: Props,
    pub state: State,
}

impl ShowPoll {
    /// The state invariant: distinct choices, no negative counts, a
    /// non-negative rest, and placed dots plus rest within the budget.
    pub open spec fn wf(self) -> bool {
        &&& keys_unique(self.state.votes@)
        &&& forall|k: int| 0 <= k < self.state.votes@.len() ==> self.state.votes@[k].1 >= 0
        &&& self.state.dots_remaining >= 0
        &&& total_dots(self.state.votes@) + self.state.dots_remaining <= VOTE_BUDGET
    }

    /// Sets the page up.  With a persisted allocation the page starts
    /// as already voted, showing that allocation and no dots to spend;
    /// without one it starts fresh with the whole budget.  In either
    /// case the poll itself is still to be fetched.
    pub fn create(props: Props, restored: Option<Vec<(i32, i32)>>) -> (r: ShowPoll)
        requires
            restored matches Some(v) ==> {
                &&& keys_unique(v@)
                &&& forall|k: int| 0 <= k < v@.len() ==> v@[k].1 >= 0
                &&& total_dots(v@) <= VOTE_BUDGET
            },
        ensures
            r.wf(),
            r.props == props,
            r.state.poll is None,
            r.state.name@ =~= Seq::<char>::empty(),
            match restored {
                Some(v) => {
                    &&& r.state.voted
                    &&& r.state.votes == v
                    &&& r.state.dots_remaining == 0
                },
                None => {
                    &&& !r.state.voted
                    &&& r.state.votes@ =~= Seq::<(i32, i32)>::empty()
                    &&& r.state.dots_remaining == VOTE_BUDGET
                },
            },
    {
        let state = match restored {
            Some(votes) => State {
                poll: None,
                name: String::new(),
                votes,
                dots_remaining: 0,
                voted: true,
            },
            None => State {
                poll: None,
                name: String::new(),
                votes: Vec::new(),
                dots_remaining: VOTE_BUDGET,
                voted: false,
            },
        };
        ShowPoll { props, state }
    }

    /// One step of the page.  Returns whether a re-render is due and
    /// what the surroundings should do.
    pub fn update(&mut self, msg: Msg) -> (r: (bool, Effect))
        requires
            old(self).wf(),
        ensures
            final(self).wf(),
            final(self).props == old(self).props,
            match msg {
                Msg::AddDot(id) => {
                    if old(self).state.dots_remaining == 0 {
                        &&& *final(self) == *old(self)
                        &&& r == (false, Effect::Nothing)
                    } else {
                        &&& final(self).state.voted == old(self).state.voted
                        &&& final(self).state.poll == old(self).state.poll
                        &&& final(self).state.name == old(self).state.name
                        &&& final(self).state.dots_remaining == old(
                            self,
                        ).state.dots_remaining - 1
                        &&& final(self).state.votes@ == (if has_choice(
                            old(self).state.votes@,
                            id,
                        ) {
                            old(self).state.votes@.update(
                                choice_index(old(self).state.votes@, id),
                                (id, (dots_for(old(self).state.votes@, id) + 1) as i32),
                            )
                        } else {
                            old(self).state.votes@.push((id, 1))
                        })
                        &&& r == (true, Effect::Nothing)
                    }
                },
                Msg::RemoveDot(id) => {
                    if has_choice(old(self).state.votes@, id) && dots_for(
                        old(self).state.votes@,
                        id,
                    ) >= 1 {
                        &&& final(self).state.voted == old(self).state.voted
                        &&& final(self).state.poll == old(self).state.poll
                        &&& final(self).state.name == old(self).state.name
                        &&& final(self).state.dots_remaining == old(
                            self,
                        ).state.dots_remaining + 1
                        &&& final(self).state.votes@ == old(self).state.votes@.update(
                            choice_index(old(self).state.votes@, id),
                            (id, (dots_for(old(self).state.votes@, id) - 1) as i32),
                        )
                        &&& r == (true, Effect::Nothing)
                    } else {
                        &&& *final(self) == *old(self)
                        &&& r == (false, Effect::Nothing)
                    }
                },
                Msg::UpdateName(value) => {
                    &&& final(self).state.name == value
                    &&& final(self).state.voted == old(self).state.voted
                    &&& final(self).state.poll == old(self).state.poll
                    &&& final(self).state.votes == old(self).state.votes
                    &&& final(self).state.dots_remaining == old(self).state.dots_remaining
                    &&& r == (true, Effect::Nothing)
                },
                Msg::FetchSuccess(poll) => {
                    &&& final(self).state.poll == Some(poll)
                    &&& final(self).state.voted == old(self).state.voted
                    &&& final(self).state.name == old(self).state.name
                    &&& final(self).state.votes == old(self).state.votes
                    &&& final(self).state.dots_remaining == old(self).state.dots_remaining
                    &&& r == (true, Effect::Nothing)
                },
                Msg::FetchFailed => {
                    &&& *final(self) == *old(self)
                    &&& r == (false, Effect::Nothing)
                },
                Msg::SubmitVote => {
                    &&& *final(self) == *old(self)
                    &&& r == (true, Effect::SubmitVote)
                },
                Msg::VoteSuccess => {
                    &&& final(self).state.voted
                    &&& final(self).state.poll == old(self).state.poll
                    &&& final(self).state.name == old(self).state.name
                    &&& final(self).state.votes == old(self).state.votes
                    &&& final(self).state.dots_remaining == old(self).state.dots_remaining
                    &&& r == (true, Effect::PersistVotes)
                },
                Msg::VoteFailed => {
                    &&& *final(self) == *old(self)
                    &&& r == (true, Effect::Nothing)
                },
            },
    {
        match msg {
            Msg::AddDot(id) => {
                if self.state.dots_remaining == 0 {
                    return (false, Effect::Nothing);
                }
                let found = find_choice(&self.state.votes, id);
                match found {
                    Some(j) => {
                        let (k, v) = self.state.votes[j];
                        proof {
                            lemma_choice_index_is(self.state.votes@, j as int);
                            lemma_entry_le_total(self.state.votes@, j as int);
                            lemma_total_dots_update(
                                self.state.votes@,
                                j as int,
                                (k, (v + 1) as i32),
                            );
                        }
                        self.state.votes.set(j, (k, v + 1));
                    },
                    None => {
                        proof {
                            lemma_total_dots_push(self.state.votes@, (id, 1));
                        }
                        self.state.votes.push((id, 1));
                    },
                }
                self.state.dots_remaining = self.state.dots_remaining - 1;
                (true, Effect::Nothing)
            },
            Msg::RemoveDot(id) => {
                let found = find_choice(&self.state.votes, id);
                match found {
                    Some(j) => {
                        let (k, v) = self.state.votes[j];
                        if v >= 1 {
                            proof {
                                lemma_choice_index_is(self.state.votes@, j as int);
                                lemma_total_dots_nonneg(self.state.votes@);
                                lemma_total_dots_update(
                                    self.state.votes@,
                                    j as int,
                                    (k, (v - 1) as i32),
                                );
                            }
                            self.state.votes.set(j, (k, v - 1));
                            self.state.dots_remaining = self.state.dots_remaining + 1;
                            (true, Effect::Nothing)
                        } else {
                            proof {
                                lemma_choice_index_is(self.state.votes@, j as int);
                            }
                            (false, Effect::Nothing)
                        }
                    },
                    None => (false, Effect::Nothing),
                }
            },
            Msg::UpdateName(value) => {
                self.state.name = value;
                (true, Effect::Nothing)
            },
            Msg::FetchSuccess(poll) => {
                self.state.poll = Some(poll);
                (true, Effect::Nothing)
            },
            Msg::FetchFailed => (false, Effect::Nothing),
            Msg::SubmitVote => (true, Effect::SubmitVote),
            Msg::VoteSuccess => {
                self.state.voted = true;
                (true, Effect::PersistVotes)
            },
            Msg::VoteFailed => (true, Effect::Nothing),
        }
    }

    /// New properties arrived.  When they name another poll, the shown
    /// poll is dropped and a fresh fetch of the new one is asked for;
    /// otherwise nothing happens.
    pub fn change(&mut self, props: Props) -> (r: (bool, Effect))
        ensures
            final(self).props == old(self).props,
            if old(self).props.poll_id@ == props.poll_id@ {
                &&& *final(self) == *old(self)
                &&& r == (false, Effect::Nothing)
            } else {
                &&& final(self).state.poll is None
                &&& final(self).state.voted == old(self).state.voted
                &&& final(self).state.name == old(self).state.name
                &&& final(self).state.votes == old(self).state.votes
                &&& final(self).state.dots_remaining == old(self).state.dots_remaining
                &&& r == (true, Effect::FetchPoll(props.poll_id))
            },
    {
        if !self.props.poll_id.eq(&props.poll_id) {
            self.state.poll = None;
            (true, Effect::FetchPoll(props.poll_id))
        } else {
            (false, Effect::Nothing)
        }
    }

    /// Which screen the page shows: loading until the poll arrived,
    /// then the ballot or the already-voted view.
    pub fn screen(&self) -> (r: Screen)
        ensures
            r == (if self.state.poll is None {
                Screen::Loading
            } else if self.state.voted {
                Screen::Voted
            } else {
                Screen::CanVote
            }),
    {
        match &self.state.poll {
            None => Screen::Loading,
            Some(_) => {
                if self.state.voted {
                    Screen::Voted
                } else {
                    Screen::CanVote
                }
            },
        }
    }

    /// The ballot can be sent exactly when a name was given and every
    /// dot of the budget has been placed.
    pub fn can_submit(&self) -> (r: bool)
        ensures
            r == (self.state.name@.len() > 0 && self.state.dots_remaining == 0),
    {
        !self.state.name.as_str().is_empty() && self.state.dots_remaining == 0
    }

    /// The dots currently placed on one choice.
    pub fn dots_on(&self, choice_id: i32) -> (r: i32)
        requires
            keys_unique(self.state.votes@),
        ensures
            r as int == dots_for(self.state.votes@, choice_id),
    {
        let found = find_choice(&self.state.votes, choice_id);
        match found {
            Some(j) => {
                proof {
                    lemma_choice_index_is(self.state.votes@, j as int);
                }
                self.state.votes[j].1
            },
            None => 0,
        }
    }

    /// A delete control is offered on a choice exactly when it carries
    /// a dot and the vote is still open.
    pub fn shows_delete(&self, choice_id: i32) -> (r: bool)
        requires
            keys_unique(self.state.votes@),
        ensures
            r == (dots_for(self.state.votes@, choice_id) > 0 && !self.state.voted),
    {
        self.dots_on(choice_id) > 0 && !self.state.voted
    }

    /// The allocation and name as the backend takes them: the list of
    /// pairs turned into a map.
    pub fn submission(&self) -> (r: VoteSubmission)
        requires
            keys_unique(self.state.votes@),
        ensures
            r.voter@ == self.state.name@,
            r.choices@ == votes_map(self.state.votes@),
    {
        let mut choices: HashMap<i32, i32> = HashMap::new();
        let n = self.state.votes.len();
        let mut i: usize = 0;
        while i < n
            invariant
                n == self.state.votes@.len(),
                i <= n,
                choices@ == votes_map(self.state.votes@.take(i as int)),
            decreases n - i,
        {
            let (id, dots) = self.state.votes[i];
            choices.insert(id, dots);
            proof {
                assert(self.state.votes@.take(i + 1).drop_last() =~= self.state.votes@.take(
                    i as int,
                ));
            }
            i = i + 1;
        }
        proof {
            assert(self.state.votes@.take(n as int) =~= self.state.votes@);
        }
        VoteSubmission { voter: self.state.name.clone(), choices }
    }
}

/// The position of the pair naming `id`, or `None` when no pair does.
fn find_choice(votes: &Vec<(i32, i32)>, id: i32) -> (r: Option<usize>)
    ensures
        match r {
            Some(j) => {
                &&& (j as int) < votes@.len()
                &&& votes@[j as int].0 == id
                &&& forall|k: int| 0 <= k < j as int ==> votes@[k].0 != id
            },
            None => !has_choice(votes@, id),
        },
{
    let mut i: usize = 0;
    while i < votes.len()
        invariant
            i <= votes@.len(),
            forall|k: int| 0 <= k < i as int ==> votes@[k].0 != id,
        decreases votes@.len() - i,
    {
        if votes[i].0 == id {
            return Some(i);
        }
        i = i + 1;
    }
    None
}

/// The key under which a poll's submitted allocation is persisted.
pub fn storage_key(poll_id: &str) -> (r: String)
    ensures
        r@ == "com.dotdotyew.votes."@ + poll_id@,
{
    let mut key = "com.dotdotyew.votes.".to_owned();
    key.append(poll_id);
    key
}

} // verus!
