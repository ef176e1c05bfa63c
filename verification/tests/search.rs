use giantbomb_rs::exchange::{Action, Awaiting, Event, Shape};
use giantbomb_rs::failure::Failure;
use giantbomb_rs::http::{Request, USER_AGENT};
use giantbomb_rs::model::{Game, GiantBombResponse, GiantBombSearchResponse};
use giantbomb_rs::respond::{search_game_name, SearchBody};
use giantbomb_rs::search::{search_by_game_name, search_games, Search, SearchPhase};

const FIELDS: &str = "name,site_detail_url,themes,platforms,original_release_date,image,id,guid,expected_release_year,expected_release_quarter,expected_release_month,expected_release_day,developers,deck,concepts,characters";

fn found(games: Vec<Game>) -> GiantBombSearchResponse {
    GiantBombSearchResponse {
        error: String::from("OK"),
        version: String::from("1.0"),
        limit: 5,
        offset: 0,
        number_of_page_results: games.len() as i64,
        number_of_total_results: games.len() as i64,
        status_code: 1,
        results: games,
    }
}

fn run_search(script: Vec<Event>) -> Result<Vec<Game>, Failure> {
    let (mut flow, mut action) = search_games("k", "term", "http://h");
    let mut script = script.into_iter();
    loop {
        match action {
            Action::Send(_) | Action::Decode(_) => {}
            Action::Deliver(games) => return Ok(games),
            Action::Fail(failure) => return Err(failure),
            Action::Idle => panic!("the search had ended before"),
        }
        action = flow.step(script.next().expect("the search asks for more than the script holds"));
    }
}

#[test]
fn search_starts_with_its_one_request() {
    let (flow, action) = search_by_game_name("SECRET", "metroid prime");
    assert_eq!(flow, Search { phase: SearchPhase::Fetch, awaiting: Awaiting::Status });
    assert!(!flow.is_over());
    assert_eq!(
        action,
        Action::Send(Request {
            url: format!(
                "https://www.giantbomb.com/api/search?api_key=SECRET&format=json&resources=game&limit=5&field_list={}&query=metroid%20prime",
                FIELDS
            ),
            user_agent: USER_AGENT,
        })
    );
}

#[test]
fn search_without_a_match_is_no_failure() {
    let outcome = run_search(vec![Event::Status(200), Event::Search(found(Vec::new()))]);
    assert_eq!(outcome, Ok(Vec::new()));

    let answer = search_game_name(outcome);
    assert_eq!(answer.status, 200);
    assert_eq!(answer.log, None);
    match answer.body {
        SearchBody::Found(found) => {
            assert_eq!(found.games.len(), 0);
            assert_eq!(found.message, "OK");
        }
        other => panic!("a list of games was expected, not {:?}", other),
    }
}

#[test]
fn search_delivers_the_games_in_the_order_found() {
    let outcome = run_search(vec![
        Event::Status(200),
        Event::Search(found(vec![
            Game::minimal(2, String::from("3030-2"), String::from("b")),
            Game::minimal(1, String::from("3030-1"), String::from("a")),
            Game::minimal(2, String::from("3030-2"), String::from("b")),
        ])),
    ]);
    let games = outcome.unwrap();
    assert_eq!(games.len(), 3);
    assert_eq!(games[0].id, 2);
    assert_eq!(games[1].name, "a");
    assert_eq!(games[2], Game::minimal(2, String::from("3030-2"), String::from("b")));
}

#[test]
fn search_reads_the_body_only_after_a_success_status() {
    let (mut flow, _) = search_games("k", "t", "http://h");
    assert_eq!(flow.step(Event::Status(200)), Action::Decode(Shape::Search));
    assert_eq!(flow, Search { phase: SearchPhase::Fetch, awaiting: Awaiting::Body });

    for status in [199u16, 300, 403, 429, 500] {
        assert_eq!(run_search(vec![Event::Status(status)]), Err(Failure::UpstreamStatus(status)));
    }
}

#[test]
fn search_fails_on_transport_and_on_a_malformed_body() {
    assert_eq!(run_search(vec![Event::Unreachable]), Err(Failure::Transport));
    assert_eq!(run_search(vec![Event::Status(200), Event::Unreachable]), Err(Failure::Transport));
    assert_eq!(run_search(vec![Event::Status(200), Event::Undecodable]), Err(Failure::Decode));
}

#[test]
fn search_fails_on_what_it_did_not_ask_for() {
    assert_eq!(run_search(vec![Event::Undecodable]), Err(Failure::Unexpected));
    assert_eq!(
        run_search(vec![Event::Search(found(Vec::new()))]),
        Err(Failure::Unexpected)
    );
    assert_eq!(
        run_search(vec![Event::Status(200), Event::Status(200)]),
        Err(Failure::Unexpected)
    );
    let list = GiantBombResponse {
        error: String::from("OK"),
        version: String::from("1.0"),
        limit: 1,
        offset: 0,
        number_of_page_results: 0,
        number_of_total_results: 0,
        status_code: 1,
        results: Vec::new(),
    };
    assert_eq!(run_search(vec![Event::Status(200), Event::List(list)]), Err(Failure::Unexpected));
}

#[test]
fn ended_search_stays_ended() {
    let (mut flow, _) = search_games("k", "t", "http://h");
    flow.step(Event::Status(404));
    assert!(flow.is_over());
    assert_eq!(flow.phase, SearchPhase::Failed);
    assert_eq!(flow.step(Event::Status(200)), Action::Idle);
    assert_eq!(flow.step(Event::Search(found(Vec::new()))), Action::Idle);
    assert_eq!(flow.phase, SearchPhase::Failed);

    let (mut flow, _) = search_games("k", "t", "http://h");
    flow.step(Event::Status(200));
    flow.step(Event::Search(found(Vec::new())));
    assert_eq!(flow, Search { phase: SearchPhase::Done, awaiting: Awaiting::Status });
    assert_eq!(flow.step(Event::Unreachable), Action::Idle);
    assert_eq!(flow.phase, SearchPhase::Done);
}
