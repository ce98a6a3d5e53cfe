use dotdotyew::poll::{PollModel, PollMsg};

#[test]
fn a_fresh_form_is_empty() {
    let form = PollModel::create();
    assert_eq!(form.state.question, "");
    assert_eq!(form.state.answer_value, "");
    assert!(form.state.answers.is_empty());
}

#[test]
fn editing_the_answer_stores_the_text() {
    let mut form = PollModel::create();
    let render = form.update(PollMsg::UpdateAnswer("One".to_string()));
    assert!(render);
    assert_eq!(form.state.answer_value, "One");
    assert!(form.state.answers.is_empty());
}

#[test]
fn submitting_an_answer_appends_it_and_clears_the_field() {
    let mut form = PollModel::create();
    form.update(PollMsg::UpdateAnswer("One".to_string()));
    form.update(PollMsg::SubmitAnswer);
    form.update(PollMsg::UpdateAnswer("Two".to_string()));
    form.update(PollMsg::SubmitAnswer);
    assert_eq!(form.state.answers, vec!["One", "Two"]);
    assert_eq!(form.state.answer_value, "");
}

#[test]
fn editing_the_question_is_dropped() {
    let mut form = PollModel::create();
    let render = form.update(PollMsg::UpdateQuestion("How many?".to_string()));
    assert!(render);
    assert_eq!(form.state.question, "");
}
