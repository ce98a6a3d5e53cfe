use dotdotyew::api::{PollChoice, PollMetadata, PollResults as ResultsData, Vote};
use dotdotyew::poll::results::{palette_colour_at, Msg, PollResults, Props};

fn props(id: &str) -> Props {
    Props { poll_id: id.to_string() }
}

fn vote(id: i32, choice_id: i32, dots: i32, voter: &str) -> Vote {
    Vote {
        id,
        poll_id: 1,
        choice_id,
        dots,
        voter: voter.to_string(),
        created_at: "2021-01-01".to_string(),
    }
}

fn results_with(votes: Vec<Vote>) -> ResultsData {
    ResultsData {
        poll: PollMetadata {
            id: 1,
            uuid: "u-1".to_string(),
            title: "Lunch spot".to_string(),
            created_at: "2021-01-01".to_string(),
        },
        choices: vec![
            PollChoice {
                id: 10,
                poll_id: 1,
                details: "Tacos".to_string(),
                created_at: "2021-01-01".to_string(),
            },
            PollChoice {
                id: 11,
                poll_id: 1,
                details: "Ramen".to_string(),
                created_at: "2021-01-01".to_string(),
            },
        ],
        votes,
    }
}

#[test]
fn a_fresh_page_has_no_results() {
    let page = PollResults::create(props("p1"));
    assert!(!page.has_results());
    assert_eq!(page.vote_count(), 0);
}

#[test]
fn a_failed_results_fetch_changes_nothing() {
    let mut page = PollResults::create(props("p1"));
    let render = page.update(Msg::FetchFailed);
    assert!(!render);
    assert!(!page.has_results());
}

#[test]
fn voters_take_palette_colours_in_order_of_first_appearance() {
    let mut page = PollResults::create(props("p1"));
    let render = page.update(Msg::FetchSuccess(results_with(vec![
        vote(1, 10, 2, "Ada"),
        vote(2, 11, 1, "Grace"),
        vote(3, 11, 1, "Ada"),
    ])));
    assert!(render);
    assert!(page.has_results());
    assert_eq!(page.vote_count(), 2);
    assert_eq!(page.state.voter_colours[0].0, "Ada");
    assert_eq!(page.state.voter_colours[0].1, "#8ecbb7");
    assert_eq!(page.state.voter_colours[1].0, "Grace");
    assert_eq!(page.state.voter_colours[1].1, "#e4aee0");
}

#[test]
fn the_palette_wraps_after_twelve_voters() {
    let mut page = PollResults::create(props("p1"));
    let votes: Vec<Vote> = (0..13)
        .map(|k| vote(k, 10, 1, &format!("voter-{}", k)))
        .collect();
    page.update(Msg::FetchSuccess(results_with(votes)));
    assert_eq!(page.vote_count(), 13);
    assert_eq!(page.state.voter_colours[0].1, "#8ecbb7");
    assert_eq!(page.state.voter_colours[11].1, "#d1c99a");
    assert_eq!(page.state.voter_colours[12].1, "#8ecbb7");
}

#[test]
fn the_palette_positions_repeat_every_twelve() {
    assert_eq!(palette_colour_at(0), "#8ecbb7");
    assert_eq!(palette_colour_at(5), "#e8ba85");
    assert_eq!(palette_colour_at(11), "#d1c99a");
    assert_eq!(palette_colour_at(12), "#8ecbb7");
    assert_eq!(palette_colour_at(25), "#e4aee0");
}

#[test]
fn a_choice_shows_one_coloured_dot_per_allocated_dot() {
    let mut page = PollResults::create(props("p1"));
    page.update(Msg::FetchSuccess(results_with(vec![
        vote(1, 10, 2, "Ada"),
        vote(2, 11, 2, "Grace"),
        vote(3, 10, 1, "Grace"),
    ])));
    let rows = page.choice_rows(10);
    assert_eq!(rows.len(), 3);
    assert_eq!(rows[0], ("Ada".to_string(), "#8ecbb7".to_string()));
    assert_eq!(rows[1], ("Ada".to_string(), "#8ecbb7".to_string()));
    assert_eq!(rows[2], ("Grace".to_string(), "#e4aee0".to_string()));
    let rows = page.choice_rows(11);
    assert_eq!(rows.len(), 2);
    assert_eq!(rows[0], ("Grace".to_string(), "#e4aee0".to_string()));
    let rows = page.choice_rows(12);
    assert_eq!(rows.len(), 0);
}

#[test]
fn new_properties_are_stored_only_when_they_differ() {
    let mut page = PollResults::create(props("p1"));
    assert!(!page.change(props("p1")));
    assert_eq!(page.props.poll_id, "p1");
    assert!(page.change(props("p2")));
    assert_eq!(page.props.poll_id, "p2");
}
