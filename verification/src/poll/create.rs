//! The poll-creation page.
//!
//! A poll needs a title and at least two non-empty choices.  The form
//! keeps one spare empty choice field at the end: filling in the last
//! field grows the list by one.  The first few fields suggest the days
//! of the week as placeholder text.

use vstd::prelude::*;

use crate::api::CreatePollResponse;
use crate::AppRoute;

verus! {

/// The placeholder suggested for choice field `i`: the days of the
/// week in order, nothing from the eighth field on.
pub open spec fn answer_suggestion(i: int) -> Seq<char> {
    if i == 0 {
        "Sunday"@
    } else if i == 1 {
        "Monday"@
    } else if i == 2 {
        "Tuesday"@
    } else if i == 3 {
        "Wednesday"@
    } else if i == 4 {
        "Thursday"@
    } else if i == 5 {
        "Friday"@
    } else if i == 6 {
        "Saturday"@
    } else {
        Seq::empty()
    }
}

/// How many of the choice texts are non-empty.
pub open spec fn nonempty_count(s: Seq<String>) -> int
    decreases s.len(),
{
    if s.len() == 0 {
        0
    } else {
        nonempty_count(s.drop_last()) + (if s.last()@.len() > 0 {
            1int
        } else {
            0int
        })
    }
}

/// The form's state: the title, the choice texts, and whether a
/// creation request is under way.
pub struct State {
    pub title: String,
    pub choices: Vec<String>,
    pub loading: bool,
}

/// Events the page reacts to.
pub enum Msg {
    UpdateTitle(String),
    UpdateChoice(usize, String),
    Submit,
    PostSuccess(CreatePollResponse),
    PostFailed,
}

/// What a step asks the page's surroundings to carry out.
#[derive(Debug, PartialEq)]
pub enum Effect {
    /// Nothing beyond rendering.
    Nothing,
    /// Send the title and choices to the backend.
    SubmitPoll,
    /// Leave the page for the given route.
    Navigate(AppRoute),
}

/// The poll-creation page.
pub struct CreatePoll {
    pub state: State,
}

impl CreatePoll {
    /// A fresh form: no title, three empty choice fields, not loading.
    pub fn create() -> (r: CreatePoll)
        ensures
            r.state.title@ =~= Seq::<char>::empty(),
            r.state.choices@.len() == 3,
            forall|k: int|
                0 <= k < r.state.choices@.len() ==> r.state.choices@[k]@ =~= Seq::<char>::empty(),
            !r.state.loading,
    {
        let mut choices: Vec<String> = Vec::new();
        choices.push(String::new());
        choices.push(String::new());
        choices.push(String::new());
        CreatePoll { state: State { title: String::new(), choices, loading: false } }
    }

    /// One step of the page.  Editing the last choice field appends a
    /// spare empty one.  Submitting marks the form loading and asks
    /// for the request; a successful answer asks to leave for the new
    /// poll's page.  Returns whether a re-render is due and what the
    /// surroundings should do.
    pub fn update(&mut self, msg: Msg) -> (r: (bool, Effect))
        requires
            msg matches Msg::UpdateChoice(i, _) ==> (i as int) < old(
                self,
            ).state.choices@.len(),
        ensures
            match msg {
                Msg::UpdateTitle(value) => {
                    &&& final(self).state.title == value
                    &&& final(self).state.choices == old(self).state.choices
                    &&& final(self).state.loading == old(self).state.loading
                    &&& r == (true, Effect::Nothing)
                },
                Msg::UpdateChoice(i, value) => {
                    &&& final(self).state.title == old(self).state.title
                    &&& final(self).state.loading == old(self).state.loading
                    &&& if i as int == old(self).state.choices@.len() - 1 {
                        &&& final(self).state.choices@.len() == old(self).state.choices@.len()
                            + 1
                        &&& final(self).state.choices@.drop_last() == old(
                            self,
                        ).state.choices@.update(i as int, value)
                        &&& final(self).state.choices@.last()@ =~= Seq::<char>::empty()
                    } else {
                        final(self).state.choices@ == old(self).state.choices@.update(
                            i as int,
                            value,
                        )
                    }
                    &&& r == (true, Effect::Nothing)
                },
                Msg::Submit => {
                    &&& final(self).state.title == old(self).state.title
                    &&& final(self).state.choices == old(self).state.choices
                    &&& final(self).state.loading
                    &&& r == (true, Effect::SubmitPoll)
                },
                Msg::PostSuccess(response) => {
                    &&& *final(self) == *old(self)
                    &&& r == (false, Effect::Navigate(AppRoute::Poll(response.poll)))
                },
                Msg::PostFailed => {
                    &&& *final(self) == *old(self)
                    &&& r == (false, Effect::Nothing)
                },
            },
    {
        match msg {
            Msg::UpdateTitle(value) => {
                self.state.title = value;
                (true, Effect::Nothing)
            },
            Msg::UpdateChoice(i, value) => {
                self.state.choices.set(i, value);
                if i == self.state.choices.len() - 1 {
                    self.state.choices.push(String::new());
                    proof {
                        assert(self.state.choices@.drop_last() =~= old(
                            self,
                        ).state.choices@.update(i as int, value));
                    }
                }
                (true, Effect::Nothing)
            },
            Msg::Submit => {
                self.state.loading = true;
                (true, Effect::SubmitPoll)
            },
            Msg::PostSuccess(response) => {
                (false, Effect::Navigate(AppRoute::Poll(response.poll)))
            },
            Msg::PostFailed => (false, Effect::Nothing),
        }
    }

    /// The form can be sent exactly when a title was given and at
    /// least two choices are non-empty.
    pub fn can_submit(&self) -> (r: bool)
        ensures
            r == (self.state.title@.len() > 0 && nonempty_count(self.state.choices@) >= 2),
    {
        let valid_choices = count_nonempty(&self.state.choices);
        !self.state.title.as_str().is_empty() && valid_choices >= 2
    }

    /// The submit button's style: primary, with a loading spinner
    /// while the request is under way.
    pub fn button_class(&self) -> (r: String)
        ensures
            r@ == (if self.state.loading {
                "button is-primary is-loading"@
            } else {
                "button is-primary"@
            }),
    {
        if self.state.loading {
            "button is-primary is-loading".to_owned()
        } else {
            "button is-primary".to_owned()
        }
    }
}

/// How many of the given choice texts are non-empty.
fn count_nonempty(choices: &Vec<String>) -> (r: usize)
    ensures
        r as int == nonempty_count(choices@),
{
    let mut count: usize = 0;
    let mut i: usize = 0;
    while i < choices.len()
        invariant
            i <= choices@.len(),
            count <= i,
            count as int == nonempty_count(choices@.take(i as int)),
        decreases choices@.len() - i,
    {
        if !choices[i].as_str().is_empty() {
            count = count + 1;
        }
        proof {
            assert(choices@.take(i + 1).drop_last() =~= choices@.take(i as int));
        }
        i = i + 1;
    }
    proof {
        assert(choices@.take(choices@.len() as int) =~= choices@);
    }
    count
}

/// The placeholder text of choice field `i`.
pub fn answer_placeholder(i: usize) -> (r: String)
    ensures
        r@ == answer_suggestion(i as int),
{
    if i == 0 {
        "Sunday".to_owned()
    } else if i == 1 {
        "Monday".to_owned()
    } else if i == 2 {
        "Tuesday".to_owned()
    } else if i == 3 {
        "Wednesday".to_owned()
    } else if i == 4 {
        "Thursday".to_owned()
    } else if i == 5 {
        "Friday".to_owned()
    } else if i == 6 {
        "Saturday".to_owned()
    } else {
        String::new()
    }
}

} // verus!
