//! The results page.
//!
//! Every voter is given a colour: walking the recorded votes in order,
//! each voter not seen before takes the next colour of a fixed palette
//! of twelve, wrapping around when the palette is exhausted.  A choice
//! is then shown with one dot per allocated dot, each dot carrying its
//! voter's name and colour.

use vstd::prelude::*;

use crate::api;
use crate::api::Vote;

verus! {

/// The palette colour at position `i` (the palette repeats every
/// twelve positions).
pub open spec fn palette_colour(i: int) -> Seq<char> {
    let k: int = i % 12;
    if k == 0 {
        "#8ecbb7"@
    } else if k == 1 {
        "#e4aee0"@
    } else if k == 2 {
        "#88ddad"@
    } else if k == 3 {
        "#efa6a6"@
    } else if k == 4 {
        "#6adcdc"@
    } else if k == 5 {
        "#e8ba85"@
    } else if k == 6 {
        "#77cdef"@
    } else if k == 7 {
        "#d7e599"@
    } else if k == 8 {
        "#acb9ec"@
    } else if k == 9 {
        "#a0c583"@
    } else if k == 10 {
        "#c6f0ce"@
    } else {
        "#d1c99a"@
    }
}

/// A colour table as the mathematics sees it: voter name and colour,
/// both as character sequences.
pub open spec fn table_view(table: Seq<(String, String)>) -> Seq<(Seq<char>, Seq<char>)> {
    table.map_values(|p: (String, String)| (p.0@, p.1@))
}

/// The voters of a colour table, in table order.
pub open spec fn table_voters(t: Seq<(Seq<char>, Seq<char>)>) -> Seq<Seq<char>> {
    t.map_values(|p: (Seq<char>, Seq<char>)| p.0)
}

/// True when no voter appears twice in the table.
pub open spec fn voters_distinct(t: Seq<(Seq<char>, Seq<char>)>) -> bool {
    forall|i: int, j: int| 0 <= i < j < t.len() ==> t[i].0 != t[j].0
}

/// The colour the table gives a voter (meaningful when the voter is in
/// the table and the voters are distinct).
pub open spec fn colour_of(t: Seq<(Seq<char>, Seq<char>)>, voter: Seq<char>) -> Seq<char> {
    t[choose|k: int| 0 <= k < t.len() && t[k].0 == voter].1
}

/// One vote's worth of colour assignment: a voter already in the table
/// changes nothing; a new voter takes the palette colour at the count
/// of assignments made so far.
pub open spec fn assign_step(
    t: Seq<(Seq<char>, Seq<char>)>,
    fresh: int,
    voter: Seq<char>,
) -> (Seq<(Seq<char>, Seq<char>)>, int) {
    if table_voters(t).contains(voter) {
        (t, fresh)
    } else {
        (t.push((voter, palette_colour(fresh))), fresh + 1)
    }
}

/// The colour table after walking `votes` in order, starting from the
/// table `t` with `fresh` assignments already made in this walk.
pub open spec fn assign_colours(
    t: Seq<(Seq<char>, Seq<char>)>,
    fresh: int,
    votes: Seq<Vote>,
) -> (Seq<(Seq<char>, Seq<char>)>, int)
    decreases votes.len(),
{
    if votes.len() == 0 {
        (t, fresh)
    } else {
        let prior = assign_colours(t, fresh, votes.drop_last());
        assign_step(prior.0, prior.1, votes.last().voter@)
    }
}

/// The dots one choice shows, walking the votes in order: a vote on
/// the choice contributes its voter's name once per dot.
pub open spec fn vote_rows(v: Vote, choice_id: i32) -> Seq<Seq<char>> {
    if v.choice_id == choice_id && v.dots > 0 {
        Seq::new(v.dots as nat, |k: int| v.voter@)
    } else {
        Seq::empty()
    }
}

/// All dots of one choice over a vote list, in vote order.
pub open spec fn dot_rows(votes: Seq<Vote>, choice_id: i32) -> Seq<Seq<char>>
    decreases votes.len(),
{
    if votes.len() == 0 {
        Seq::empty()
    } else {
        dot_rows(votes.drop_last(), choice_id) + vote_rows(votes.last(), choice_id)
    }
}

/// The voters of `votes` that are not in `seen`, each once, in order
/// of first appearance.
pub open spec fn new_voters(seen: Seq<Seq<char>>, votes: Seq<Vote>) -> Seq<Seq<char>>
    decreases votes.len(),
{
    if votes.len() == 0 {
        Seq::empty()
    } else {
        let prefix = new_voters(seen, votes.drop_last());
        let v = votes.last().voter@;
        if seen.contains(v) || prefix.contains(v) {
            prefix
        } else {
            prefix.push(v)
        }
    }
}

proof fn lemma_contains_concat(a: Seq<Seq<char>>, b: Seq<Seq<char>>, x: Seq<char>)
    ensures
        (a + b).contains(x) <==> a.contains(x) || b.contains(x),
{
    if a.contains(x) {
        let i = choose|i: int| 0 <= i < a.len() && a[i] == x;
        assert((a + b)[i] == x);
    }
    if b.contains(x) {
        let i = choose|i: int| 0 <= i < b.len() && b[i] == x;
        assert((a + b)[a.len() + i] == x);
    }
    if (a + b).contains(x) {
        let i = choose|i: int| 0 <= i < (a + b).len() && (a + b)[i] == x;
        if i < a.len() {
            assert(a[i] == x);
        } else {
            assert(b[i - a.len()] == x);
        }
    }
}

/// Walking a vote list extends a colour table by exactly the voters
/// not yet in it, each once, in order of first appearance; the entries
/// already in the table stay untouched, and every added entry takes
/// the next palette colour, counted from `fresh`.
pub proof fn lemma_assign_colours_table(
    t: Seq<(Seq<char>, Seq<char>)>,
    fresh: int,
    votes: Seq<Vote>,
)
    ensures
        table_voters(assign_colours(t, fresh, votes).0) == table_voters(t) + new_voters(
            table_voters(t),
            votes,
        ),
        assign_colours(t, fresh, votes).1 == fresh + new_voters(table_voters(t), votes).len(),
        forall|i: int| 0 <= i < t.len() ==> assign_colours(t, fresh, votes).0[i] == t[i],
        forall|i: int|
            t.len() <= i < assign_colours(t, fresh, votes).0.len() ==> assign_colours(
                t,
                fresh,
                votes,
            ).0[i].1 == palette_colour(fresh + i - t.len()),
    decreases votes.len(),
{
    let seen = table_voters(t);
    if votes.len() == 0 {
        assert(table_voters(assign_colours(t, fresh, votes).0) =~= seen + new_voters(
            seen,
            votes,
        ));
    } else {
        let rest = votes.drop_last();
        lemma_assign_colours_table(t, fresh, rest);
        let prior = assign_colours(t, fresh, rest);
        let v = votes.last().voter@;
        lemma_contains_concat(seen, new_voters(seen, rest), v);
        if table_voters(prior.0).contains(v) {
            assert(new_voters(seen, votes) == new_voters(seen, rest));
        } else {
            assert(new_voters(seen, votes) == new_voters(seen, rest).push(v));
            assert(table_voters(assign_step(prior.0, prior.1, v).0) =~= table_voters(
                prior.0,
            ).push(v));
            assert(table_voters(assign_colours(t, fresh, votes).0) =~= seen + new_voters(
                seen,
                votes,
            ));
        }
    }
}

/// The colour scheme in one statement: built from an empty table, the
/// table lists the distinct voters in order of first appearance, and
/// the voter at position `i` wears the palette colour at `i`.
pub proof fn lemma_colour_table_from_empty(votes: Seq<Vote>)
    ensures
        table_voters(assign_colours(Seq::empty(), 0, votes).0) == new_voters(
            Seq::empty(),
            votes,
        ),
        forall|i: int|
            0 <= i < assign_colours(Seq::empty(), 0, votes).0.len() ==> assign_colours(
                Seq::empty(),
                0,
                votes,
            ).0[i].1 == palette_colour(i),
{
    let t: Seq<(Seq<char>, Seq<char>)> = Seq::empty();
    lemma_assign_colours_table(t, 0, votes);
    assert(table_voters(t) =~= Seq::<Seq<char>>::empty());
    assert(table_voters(t) + new_voters(Seq::empty(), votes) =~= new_voters(
        Seq::empty(),
        votes,
    ));
}

proof fn lemma_voter_index_is(t: Seq<(Seq<char>, Seq<char>)>, j: int)
    requires
        voters_distinct(t),
        0 <= j < t.len(),
    ensures
        table_voters(t).contains(t[j].0),
        colour_of(t, t[j].0) == t[j].1,
{
    assert(table_voters(t)[j] == t[j].0);
    let c = choose|k: int| 0 <= k < t.len() && t[k].0 == t[j].0;
    assert(0 <= c < t.len() && t[c].0 == t[j].0);
    if c < j {
        assert(t[c].0 != t[j].0);
    } else if j < c {
        assert(t[j].0 != t[c].0);
    }
}

/// Properties of the results page: which poll's results it shows.
pub struct Props {
    pub poll_id: String,
}

/// The page's state: the fetched results, and the colour table built
/// from their votes.
pub struct State {
    pub results: Option<api::PollResults>,
    pub voter_colours: Vec<(String, String)>,
}

/// Events the page reacts to.
pub enum Msg {
    FetchSuccess(api::PollResults),
    FetchFailed,
}

/// The results page: its properties and its state.
pub struct PollResults {
    pub props: Props,
    pub state: State,
}

impl PollResults {
    /// The state invariant: the colour table names no voter twice, and
    /// once results stand, every recorded vote's voter has a colour.
    pub open spec fn wf(self) -> bool {
        &&& voters_distinct(table_view(self.state.voter_colours@))
        &&& match self.state.results {
            Some(results) => forall|k: int|
                0 <= k < results.votes@.len() ==> table_voters(
                    table_view(self.state.voter_colours@),
                ).contains(results.votes@[k].voter@),
            None => true,
        }
    }

    /// Sets the page up: no results yet, an empty colour table.  The
    /// results themselves are still to be fetched.
    pub fn create(props: Props) -> (r: PollResults)
        ensures
            r.wf(),
            r.props == props,
            r.state.results is None,
            r.state.voter_colours@ =~= Seq::<(String, String)>::empty(),
    {
        PollResults { props, state: State { results: None, voter_colours: Vec::new() } }
    }

    /// One step of the page.  Arrived results are stored and their
    /// voters coloured in order of first appearance; a failed fetch
    /// changes nothing.  Returns whether a re-render is due.
    pub fn update(&mut self, msg: Msg) -> (render: bool)
        requires
            old(self).wf(),
        ensures
            final(self).wf(),
            final(self).props == old(self).props,
            match msg {
                Msg::FetchSuccess(results) => {
                    &&& final(self).state.results == Some(results)
                    &&& table_view(final(self).state.voter_colours@) == assign_colours(
                        table_view(old(self).state.voter_colours@),
                        0,
                        results.votes@,
                    ).0
                    &&& render
                },
                Msg::FetchFailed => *final(self) == *old(self) && !render,
            },
    {
        match msg {
            Msg::FetchSuccess(results) => {
                let ghost t0 = table_view(self.state.voter_colours@);
                let n = results.votes.len();
                let mut fresh: usize = 0;
                let mut i: usize = 0;
                while i < n
                    invariant
                        n == results.votes@.len(),
                        i <= n,
                        fresh <= i,
                        voters_distinct(table_view(self.state.voter_colours@)),
                        (table_view(self.state.voter_colours@), fresh as int) == assign_colours(
                            t0,
                            0,
                            results.votes@.take(i as int),
                        ),
                        forall|k: int|
                            0 <= k < i ==> table_voters(
                                table_view(self.state.voter_colours@),
                            ).contains(results.votes@[k].voter@),
                        self.state.results == old(self).state.results,
                        self.props == old(self).props,
                    decreases n - i,
                {
                    let ghost t_prev = table_view(self.state.voter_colours@);
                    let voter = &results.votes[i].voter;
                    let found = find_voter(&self.state.voter_colours, voter);
                    match found {
                        Some(j) => {
                            proof {
                                assert(t_prev[j as int].0 == voter@);
                                lemma_voter_index_is(t_prev, j as int);
                            }
                        },
                        None => {
                            proof {
                                assert forall|k: int| 0 <= k < t_prev.len() implies table_voters(
                                    t_prev,
                                )[k] != voter@ by {
                                    assert(table_voters(t_prev)[k] == t_prev[k].0);
                                }
                                assert(!table_voters(t_prev).contains(voter@));
                            }
                            let colour = palette_colour_at(fresh);
                            let entry = (voter.clone(), colour);
                            self.state.voter_colours.push(entry);
                            fresh = fresh + 1;
                            proof {
                                assert(table_view(self.state.voter_colours@) =~= t_prev.push(
                                    (voter@, palette_colour(fresh - 1)),
                                ));
                                assert(table_voters(table_view(self.state.voter_colours@))[
                                    t_prev.len() as int] == voter@);
                                assert forall|a: int, b: int|
                                    0 <= a < b < table_view(
                                        self.state.voter_colours@,
                                    ).len() implies table_view(self.state.voter_colours@)[a].0
                                    != table_view(self.state.voter_colours@)[b].0 by {
                                    if b == t_prev.len() {
                                        assert(table_voters(t_prev)[a] == t_prev[a].0);
                                    }
                                }
                            }
                        },
                    }
                    proof {
                        let t_now = table_view(self.state.voter_colours@);
                        assert(results.votes@.take(i + 1).drop_last() =~= results.votes@.take(
                            i as int,
                        ));
                        assert(results.votes@.take(i + 1).last() == results.votes@[i as int]);
                        assert forall|v: Seq<char>|
                            table_voters(t_prev).contains(v) implies table_voters(
                            t_now,
                        ).contains(v) by {
                            let w = choose|w: int|
                                0 <= w < table_voters(t_prev).len() && table_voters(t_prev)[w]
                                    == v;
                            assert(table_voters(t_now)[w] == v);
                        }
                        assert(table_voters(t_now).contains(results.votes@[i as int].voter@));
                    }
                    i = i + 1;
                }
                proof {
                    assert(results.votes@.take(n as int) =~= results.votes@);
                }
                self.state.results = Some(results);
                true
            },
            Msg::FetchFailed => false,
        }
    }

    /// New properties arrived: store them when they differ; report
    /// whether a re-render is due.
    pub fn change(&mut self, props: Props) -> (render: bool)
        ensures
            final(self).state == old(self).state,
            if old(self).props.poll_id@ == props.poll_id@ {
                &&& final(self).props == old(self).props
                &&& !render
            } else {
                &&& final(self).props == props
                &&& render
            },
    {
        if !self.props.poll_id.eq(&props.poll_id) {
            self.props = props;
            true
        } else {
            false
        }
    }

    /// Whether results have arrived (before that, the page shows an
    /// empty frame).
    pub fn has_results(&self) -> (r: bool)
        ensures
            r == (self.state.results is Some),
    {
        match &self.state.results {
            Some(_) => true,
            None => false,
        }
    }

    /// How many voters submitted a vote: one colour table entry each.
    pub fn vote_count(&self) -> (r: usize)
        ensures
            r == table_view(self.state.voter_colours@).len(),
    {
        self.state.voter_colours.len()
    }

    /// The dots one choice shows: per vote on the choice, the voter's
    /// name and colour repeated once per allocated dot, in vote order.
    pub fn choice_rows(&self, choice_id: i32) -> (r: Vec<(String, String)>)
        requires
            self.wf(),
            self.state.results is Some,
        ensures
            r@.map_values(|p: (String, String)| p.0@) == dot_rows(
                self.state.results->Some_0.votes@,
                choice_id,
            ),
            forall|k: int|
                0 <= k < r@.len() ==> r@[k].1@ == colour_of(
                    table_view(self.state.voter_colours@),
                    r@[k].0@,
                ),
    {
        let ghost tv = table_view(self.state.voter_colours@);
        let results = match &self.state.results {
            Some(results) => results,
            None => unreached(),
        };
        let votes = &results.votes;
        let n = votes.len();
        let mut r: Vec<(String, String)> = Vec::new();
        let mut i: usize = 0;
        while i < n
            invariant
                self.wf(),
                self.state.results is Some,
                results == self.state.results->Some_0,
                tv == table_view(self.state.voter_colours@),
                n == votes@.len(),
                votes == results.votes,
                i <= n,
                r@.map_values(|p: (String, String)| p.0@) == dot_rows(
                    votes@.take(i as int),
                    choice_id,
                ),
                forall|k: int| 0 <= k < r@.len() ==> r@[k].1@ == colour_of(tv, r@[k].0@),
            decreases n - i,
        {
            let vote = &votes[i];
            if vote.choice_id == choice_id && vote.dots > 0 {
                let found = find_voter(&self.state.voter_colours, &vote.voter);
                let j = match found {
                    Some(j) => j,
                    None => {
                        proof {
                            assert(table_voters(tv).contains(votes@[i as int].voter@));
                            let w = choose|w: int|
                                0 <= w < table_voters(tv).len() && table_voters(tv)[w]
                                    == votes@[i as int].voter@;
                            assert(tv[w].0 == votes@[i as int].voter@);
                            assert(self.state.voter_colours@[w].0@ == vote.voter@);
                            assert(false);
                        }
                        unreached()
                    },
                };
                proof {
                    assert(tv[j as int].0 == vote.voter@);
                    lemma_voter_index_is(tv, j as int);
                }
                let colour = &self.state.voter_colours[j].1;
                proof {
                    assert(colour@ == tv[j as int].1);
                    assert(colour@ == colour_of(tv, vote.voter@));
                }
                let ghost r_before = r@;
                let mut d: i32 = 0;
                while d < vote.dots
                    invariant
                        i < n,
                        0 <= d <= vote.dots,
                        vote == votes@[i as int],
                        tv == table_view(self.state.voter_colours@),
                        colour@ == colour_of(tv, vote.voter@),
                        r@.map_values(|p: (String, String)| p.0@) == r_before.map_values(
                            (|p: (String, String)| p.0@),
                        ) + Seq::new(d as nat, |k: int| vote.voter@),
                        forall|k: int| 0 <= k < r@.len() ==> r@[k].1@ == colour_of(tv, r@[k].0@),
                    decreases vote.dots - d,
                {
                    let entry = (vote.voter.clone(), colour.clone());
                    let ghost r_prev = r@;
                    r.push(entry);
                    proof {
                        assert(r@.map_values(|p: (String, String)| p.0@) =~= r_prev.map_values(
                            (|p: (String, String)| p.0@),
                        ).push(vote.voter@));
                        assert(r_before.map_values((|p: (String, String)| p.0@)) + Seq::new(
                            (d + 1) as nat,
                            |k: int| vote.voter@,
                        ) =~= r_prev.map_values((|p: (String, String)| p.0@)).push(vote.voter@));
                    }
                    d = d + 1;
                }
                proof {
                    assert(vote_rows(votes@[i as int], choice_id) =~= Seq::new(
                        vote.dots as nat,
                        |k: int| vote.voter@,
                    ));
                }
            } else {
                proof {
                    assert(vote_rows(votes@[i as int], choice_id) =~= Seq::<Seq<char>>::empty());
                }
            }
            proof {
                assert(votes@.take(i + 1).drop_last() =~= votes@.take(i as int));
                assert(votes@.take(i + 1).last() == votes@[i as int]);
                assert(r@.map_values(|p: (String, String)| p.0@) =~= dot_rows(
                    votes@.take(i + 1),
                    choice_id,
                ));
            }
            i = i + 1;
        }
        proof {
            assert(votes@.take(n as int) =~= votes@);
        }
        r
    }
}

/// The position of the table entry naming `voter`, or `None` when no
/// entry does.
fn find_voter(table: &Vec<(String, String)>, voter: &String) -> (r: Option<usize>)
    ensures
        match r {
            Some(j) => {
                &&& (j as int) < table@.len()
                &&& table@[j as int].0@ == voter@
            },
            None => forall|k: int| 0 <= k < table@.len() ==> table@[k].0@ != voter@,
        },
{
    let mut i: usize = 0;
    while i < table.len()
        invariant
            i <= table@.len(),
            forall|k: int| 0 <= k < i as int ==> table@[k].0@ != voter@,
        decreases table@.len() - i,
    {
        if table[i].0.eq(voter) {
            return Some(i);
        }
        i = i + 1;
    }
    None
}

/// The palette colour at position `i`, as text.
pub fn palette_colour_at(i: usize) -> (r: String)
    ensures
        r@ == palette_colour(i as int),
{
    let k: usize = i % 12;
    if k == 0 {
        "#8ecbb7".to_owned()
    } else if k == 1 {
        "#e4aee0".to_owned()
    } else if k == 2 {
        "#88ddad".to_owned()
    } else if k == 3 {
        "#efa6a6".to_owned()
    } else if k == 4 {
        "#6adcdc".to_owned()
    } else if k == 5 {
        "#e8ba85".to_owned()
    } else if k == 6 {
        "#77cdef".to_owned()
    } else if k == 7 {
        "#d7e599".to_owned()
    } else if k == 8 {
        "#acb9ec".to_owned()
    } else if k == 9 {
        "#a0c583".to_owned()
    } else if k == 10 {
        "#c6f0ce".to_owned()
    } else {
        "#d1c99a".to_owned()
    }
}

} // verus!
