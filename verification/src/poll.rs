//! Poll pages: an early question-and-answers form, and the three pages
//! of the application proper (creation, voting, results).

use vstd::prelude::*;

pub mod create;
pub mod results;
pub mod show;

verus! {

/// State of the early poll form: a question, the answer being typed,
/// and the answers collected so far.
pub struct PollState {
    pub question: String,
    pub answer_value: String,
    pub answers: Vec<String>,
}

/// Messages of the early poll form.
pub enum PollMsg {
    UpdateQuestion(String),
    SubmitAnswer,
    UpdateAnswer(String),
    SubmitPoll,
}

/// The early poll form.
pub struct PollModel {
    pub state: PollState,
}

impl PollModel {
    /// A fresh form: everything empty.
    pub fn create() -> (r: PollModel)
        ensures
            r.state.question@ =~= Seq::<char>::empty(),
            r.state.answer_value@ =~= Seq::<char>::empty(),
            r.state.answers@ =~= Seq::<String>::empty(),
    {
        PollModel {
            state: PollState {
                question: String::new(),
                answer_value: String::new(),
                answers: Vec::new(),
            },
        }
    }

    /// One step of the form.  Editing the question is accepted and
    /// dropped; editing the answer stores the text; submitting an
    /// answer appends it and clears the field.  Submitting the whole
    /// poll is not implemented, so that message is not admitted.
    /// Always asks for a re-render.
    pub fn update(&mut self, msg: PollMsg) -> (render: bool)
        requires
            !(msg is SubmitPoll),
        ensures
            render,
            final(self).state.question == old(self).state.question,
            match msg {
                PollMsg::UpdateQuestion(_) => *final(self) == *old(self),
                PollMsg::UpdateAnswer(value) => {
                    &&& final(self).state.answer_value == value
                    &&& final(self).state.answers == old(self).state.answers
                },
                PollMsg::SubmitAnswer => {
                    &&& final(self).state.answer_value@ =~= Seq::<char>::empty()
                    &&& final(self).state.answers@.len() == old(self).state.answers@.len() + 1
                    &&& final(self).state.answers@.last()@ == old(self).state.answer_value@
                    &&& final(self).state.answers@.take(
                        old(self).state.answers@.len() as int,
                    ) =~= old(self).state.answers@
                },
                PollMsg::SubmitPoll => false,
            },
    {
        match msg {
            PollMsg::UpdateQuestion(_value) => {}
            PollMsg::UpdateAnswer(value) => {
                self.state.answer_value = value;
            }
            PollMsg::SubmitAnswer => {
                let answer = self.state.answer_value.clone();
                self.state.answers.push(answer);
                self.state.answer_value = String::new();
            }
            PollMsg::SubmitPoll => {
                // excluded by the precondition
            }
        }
        true
    }
}

} // verus!
