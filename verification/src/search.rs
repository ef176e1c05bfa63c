//! Searching the catalog for games by name: one call, whose list of games
//! is delivered as it came, an empty list too. The term is searched for as
//! it was given; it is percent-encoded on its way into the address.

use crate::exchange::{Action, ActionView, Awaiting, Event, Shape};
use crate::failure::Failure;
use crate::http::{check_status, get_of, success_status, Request};
use crate::model::Game;
use crate::query::{search_url, search_url_text, CATALOG};
use vstd::prelude::*;

verus! {

/// Where a search stands.
#[derive(Debug, Clone, Copy, PartialEq, Eq, Structural)]
pub enum SearchPhase {
    /// The search has been asked for.
    Fetch,
    /// The games have been delivered.
    Done,
    /// The search has failed.
    Failed,
}

/// The flow of a search.
#[derive(Debug, Clone, Copy, PartialEq, Eq, Structural)]
pub struct Search {
    pub phase: SearchPhase,
    pub awaiting: Awaiting,
}

impl Search {
    /// A search that has just been asked for.
    pub open spec fn begin() -> Search {
        Search { phase: SearchPhase::Fetch, awaiting: Awaiting::Status }
    }

    /// The request of a search for `term` in the catalog at `api`.
    pub open spec fn request(api: Seq<char>, token: Seq<char>, term: Seq<char>) -> ActionView<
        Vec<Game>,
    > {
        ActionView::Send(get_of(search_url_text(api, token, term)))
    }

    /// Whether the search has ended.
    pub open spec fn ended(self) -> bool {
        self.phase != SearchPhase::Fetch
    }

    /// The end of a search in failure.
    pub open spec fn fail(failure: Failure) -> (Search, ActionView<Vec<Game>>) {
        (
            Search { phase: SearchPhase::Failed, awaiting: Awaiting::Status },
            ActionView::Fail(failure),
        )
    }

    /// The next state of a search and what it asks for, when it is told of
    /// `event`.
    pub open spec fn next(self, event: Event) -> (Search, ActionView<Vec<Game>>) {
        if self.ended() {
            (self, ActionView::Idle)
        } else if self.awaiting == Awaiting::Status {
            match event {
                Event::Unreachable => Self::fail(Failure::Transport),
                Event::Status(status) => if success_status(status) {
                    (
                        Search { phase: SearchPhase::Fetch, awaiting: Awaiting::Body },
                        ActionView::Decode(Shape::Search),
                    )
                } else {
                    Self::fail(Failure::UpstreamStatus(status))
                },
                _ => Self::fail(Failure::Unexpected),
            }
        } else {
            match event {
                Event::Unreachable => Self::fail(Failure::Transport),
                Event::Undecodable => Self::fail(Failure::Decode),
                Event::Search(envelope) => (
                    Search { phase: SearchPhase::Done, awaiting: Awaiting::Status },
                    ActionView::Deliver(envelope.results),
                ),
                _ => Self::fail(Failure::Unexpected),
            }
        }
    }

    /// Whether the search has ended, in delivery or in failure.
    pub fn is_over(&self) -> (over: bool)
        ensures
            over == self.ended(),
    {
        match self.phase {
            SearchPhase::Fetch => false,
            _ => true,
        }
    }

    fn end_in(&mut self, failure: Failure) -> (action: Action<Vec<Game>>)
        ensures
            (*final(self), action@) == Self::fail(failure),
    {
        self.phase = SearchPhase::Failed;
        self.awaiting = Awaiting::Status;
        Action::Fail(failure)
    }

    /// Tells the search of `event`. The search moves on and says what is
    /// to be done next.
    pub fn step(&mut self, event: Event) -> (action: Action<Vec<Game>>)
        ensures
            (*final(self), action@) == old(self).next(event),
    {
        if self.is_over() {
            return Action::Idle;
        }
        match self.awaiting {
            Awaiting::Status => match event {
                Event::Unreachable => self.end_in(Failure::Transport),
                Event::Status(status) => match check_status(status) {
                    Ok(()) => {
                        self.awaiting = Awaiting::Body;
                        Action::Decode(Shape::Search)
                    },
                    Err(failure) => self.end_in(failure),
                },
                _ => self.end_in(Failure::Unexpected),
            },
            Awaiting::Body => match event {
                Event::Unreachable => self.end_in(Failure::Transport),
                Event::Undecodable => self.end_in(Failure::Decode),
                Event::Search(envelope) => {
                    self.phase = SearchPhase::Done;
                    self.awaiting = Awaiting::Status;
                    Action::Deliver(envelope.results)
                },
                _ => self.end_in(Failure::Unexpected),
            },
        }
    }
}

/// Starts a search for `search_term` in the catalog at `gb_api_url`, and
/// asks for its one call.
pub fn search_games(token: &str, search_term: &str, gb_api_url: &str) -> (start: (
    Search,
    Action<Vec<Game>>,
))
    ensures
        start.0 == Search::begin(),
        start.1@ == Search::request(gb_api_url@, token@, search_term@),
{
    let url = search_url(gb_api_url, token, search_term);
    (Search { phase: SearchPhase::Fetch, awaiting: Awaiting::Status }, Action::Send(Request::get(url)))
}

/// Starts a search for `search_term` in the catalog.
pub fn search_by_game_name(token: &str, search_term: &str) -> (start: (Search, Action<Vec<Game>>))
    ensures
        start.0 == Search::begin(),
        start.1@ == Search::request(CATALOG@, token@, search_term@),
{
    search_games(token, search_term, CATALOG)
}

/// A search whose call succeeds delivers the list of the answer as it
/// was decoded, whatever its length: a term that matches no game gives an
/// empty list, not a failure.
pub proof fn law_search_delivers_what_was_found(status: Event, body: Event)
    requires
        status matches Event::Status(code) && success_status(code),
        body is Search,
    ensures
        Search::begin().next(status).1 == ActionView::<Vec<Game>>::Decode(Shape::Search),
        Search::begin().next(status).0.next(body).1 == ActionView::Deliver(
            body->Search_0.results,
        ),
        Search::begin().next(status).0.next(body).0.phase == SearchPhase::Done,
{
}

/// A search whose call is refused, or does not get through, fails, and
/// its body is never asked for.
pub proof fn law_search_failure_ends_the_search(event: Event, later: Event)
    requires
        (event matches Event::Status(code) && !success_status(code)) || event is Unreachable,
    ensures
        Search::begin().next(event).1 is Fail,
        Search::begin().next(event).0.phase == SearchPhase::Failed,
        Search::begin().next(event).0.next(later).1 == ActionView::<Vec<Game>>::Idle,
{
}

} // verus!
