//! What the inbound caller is answered: a status and an envelope for each
//! of the three endpoints.
//!
//! A failure of the catalog is answered with 502, which names a fault
//! upstream and not one of the caller. The caller never sees the status
//! or the body that the catalog sent; the cause goes to the log, once.

use crate::failure::Failure;
use crate::model::Game;
use vstd::prelude::*;
use vstd::string::*;

verus! {

/// The status of an answer that carries what was asked for.
pub const OK: u16 = 200;

/// The status of an answer without a body.
pub const NO_CONTENT: u16 = 204;

/// The status of an answer to a call that failed upstream.
pub const BAD_GATEWAY: u16 = 502;

/// The envelope around one game.
#[derive(Debug, PartialEq)]
pub struct GameResponse {
    pub game: Option<Game>,
    pub message: String,
}

/// The envelope around the games of a search.
#[derive(Debug, PartialEq)]
pub struct SearchResponse {
    pub games: Vec<Game>,
    pub message: String,
}

/// The body of an answer to a search: the games where the search came
/// through, and the envelope of a single game, without a game, where it
/// did not.
#[derive(Debug, PartialEq)]
pub enum SearchBody {
    Found(SearchResponse),
    Failed(GameResponse),
}

/// An answer to an inbound call: its status, its body, and the line that
/// goes to the error log, if there is one.
#[derive(Debug, PartialEq)]
pub struct Answer<B> {
    pub status: u16,
    pub body: B,
    pub log: Option<String>,
}

/// The line logged when no random game could be fetched.
pub open spec fn fetch_log_text(failure: Failure) -> Seq<char> {
    "Error fetching game: "@ + failure.message_text()
}

/// The line logged when a search failed.
pub open spec fn search_log_text(failure: Failure) -> Seq<char> {
    "Error searching for game: "@ + failure.message_text()
}

/// Whether `answer` is the answer to a call for a random game that ended
/// in `outcome`.
pub open spec fn answers_random_game(
    outcome: Result<Game, Failure>,
    answer: Answer<GameResponse>,
) -> bool {
    match outcome {
        Ok(game) => {
            &&& answer.status == OK
            &&& answer.body.game == Some(game)
            &&& answer.body.message@ == "OK"@
            &&& answer.log is None
        },
        Err(failure) => {
            &&& answer.status == BAD_GATEWAY
            &&& answer.body.game is None
            &&& answer.body.message@ == "Failed to get random game"@
            &&& answer.log matches Some(line)
            &&& line@ == fetch_log_text(failure)
        },
    }
}

/// Whether `answer` is the answer to a search that ended in `outcome`.
pub open spec fn answers_search(outcome: Result<Vec<Game>, Failure>, answer: Answer<SearchBody>) -> bool {
    match outcome {
        Ok(games) => {
            &&& answer.status == OK
            &&& answer.body matches SearchBody::Found(found)
            &&& found.games == games
            &&& found.message@ == "OK"@
            &&& answer.log is None
        },
        Err(failure) => {
            &&& answer.status == BAD_GATEWAY
            &&& answer.body matches SearchBody::Failed(failed)
            &&& failed.game is None
            &&& failed.message@ == "Failed to search for game"@
            &&& answer.log matches Some(line)
            &&& line@ == search_log_text(failure)
        },
    }
}

/// Answers a call for a random game: the game with 200 and the message
/// "OK", or no game with 502 and a message that says what failed.
pub fn random_game(outcome: Result<Game, Failure>) -> (answer: Answer<GameResponse>)
    ensures
        answers_random_game(outcome, answer),
{
    match outcome {
        Ok(game) => Answer {
            status: OK,
            body: GameResponse { game: Some(game), message: String::from_str("OK") },
            log: None,
        },
        Err(failure) => {
            let mut line = String::from_str("Error fetching game: ");
            let cause = failure.message();
            line.append(cause.as_str());
            Answer {
                status: BAD_GATEWAY,
                body: GameResponse {
                    game: None,
                    message: String::from_str("Failed to get random game"),
                },
                log: Some(line),
            }
        },
    }
}

/// Answers a search: the games found with 200 and the message "OK", an
/// empty list too, or no game with 502 and a message that says what
/// failed.
pub fn search_game_name(outcome: Result<Vec<Game>, Failure>) -> (answer: Answer<SearchBody>)
    ensures
        answers_search(outcome, answer),
{
    match outcome {
        Ok(games) => Answer {
            status: OK,
            body: SearchBody::Found(SearchResponse { games, message: String::from_str("OK") }),
            log: None,
        },
        Err(failure) => {
            let mut line = String::from_str("Error searching for game: ");
            let cause = failure.message();
            line.append(cause.as_str());
            Answer {
                status: BAD_GATEWAY,
                body: SearchBody::Failed(
                    GameResponse {
                        game: None,
                        message: String::from_str("Failed to search for game"),
                    },
                ),
                log: Some(line),
            }
        },
    }
}

/// Answers a call that asks whether the service is alive: 204, and a
/// body of no bytes.
pub fn ping() -> (answer: Answer<Vec<u8>>)
    ensures
        answer.status == NO_CONTENT,
        answer.body@.len() == 0,
        answer.log is None,
{
    Answer { status: NO_CONTENT, body: Vec::new(), log: None }
}

} // verus!
