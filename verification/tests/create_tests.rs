use dotdotyew::api::CreatePollResponse;
use dotdotyew::poll::create::{answer_placeholder, CreatePoll, Effect, Msg};
use dotdotyew::AppRoute;

#[test]
fn a_fresh_form_has_three_empty_choices() {
    let form = CreatePoll::create();
    assert_eq!(form.state.title, "");
    assert_eq!(form.state.choices, vec!["", "", ""]);
    assert!(!form.state.loading);
    assert!(!form.can_submit());
}

#[test]
fn editing_the_title_stores_it() {
    let mut form = CreatePoll::create();
    let (render, effect) = form.update(Msg::UpdateTitle("Lunch spot".to_string()));
    assert!(render);
    assert_eq!(effect, Effect::Nothing);
    assert_eq!(form.state.title, "Lunch spot");
}

#[test]
fn editing_a_middle_choice_keeps_the_list_length() {
    let mut form = CreatePoll::create();
    let (render, _) = form.update(Msg::UpdateChoice(0, "Tacos".to_string()));
    assert!(render);
    assert_eq!(form.state.choices, vec!["Tacos", "", ""]);
}

#[test]
fn editing_the_last_choice_grows_the_list() {
    let mut form = CreatePoll::create();
    form.update(Msg::UpdateChoice(2, "Ramen".to_string()));
    assert_eq!(form.state.choices, vec!["", "", "Ramen", ""]);
    form.update(Msg::UpdateChoice(3, "Sushi".to_string()));
    assert_eq!(form.state.choices, vec!["", "", "Ramen", "Sushi", ""]);
}

#[test]
fn the_form_needs_a_title_and_two_choices() {
    let mut form = CreatePoll::create();
    form.update(Msg::UpdateTitle("Lunch spot".to_string()));
    assert!(!form.can_submit());
    form.update(Msg::UpdateChoice(0, "Tacos".to_string()));
    assert!(!form.can_submit());
    form.update(Msg::UpdateChoice(1, "Ramen".to_string()));
    assert!(form.can_submit());
    form.update(Msg::UpdateTitle("".to_string()));
    assert!(!form.can_submit());
}

#[test]
fn submitting_marks_the_form_loading() {
    let mut form = CreatePoll::create();
    let (render, effect) = form.update(Msg::Submit);
    assert!(render);
    assert_eq!(effect, Effect::SubmitPoll);
    assert!(form.state.loading);
    assert_eq!(form.button_class(), "button is-primary is-loading");
}

#[test]
fn the_button_is_plain_while_idle() {
    let form = CreatePoll::create();
    assert_eq!(form.button_class(), "button is-primary");
}

#[test]
fn a_successful_creation_navigates_to_the_poll() {
    let mut form = CreatePoll::create();
    let (render, effect) = form.update(Msg::PostSuccess(CreatePollResponse {
        poll: "p-42".to_string(),
    }));
    assert!(!render);
    assert_eq!(effect, Effect::Navigate(AppRoute::Poll("p-42".to_string())));
}

#[test]
fn a_failed_creation_changes_nothing() {
    let mut form = CreatePoll::create();
    form.update(Msg::Submit);
    let (render, effect) = form.update(Msg::PostFailed);
    assert!(!render);
    assert_eq!(effect, Effect::Nothing);
    assert!(form.state.loading);
}

#[test]
fn the_first_fields_suggest_the_days_of_the_week() {
    assert_eq!(answer_placeholder(0), "Sunday");
    assert_eq!(answer_placeholder(3), "Wednesday");
    assert_eq!(answer_placeholder(6), "Saturday");
    assert_eq!(answer_placeholder(7), "");
    assert_eq!(answer_placeholder(100), "");
}
