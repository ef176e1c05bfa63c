//! Getting a random game: count the catalog, draw a position, resolve the
//! position to the address of a game, fetch the game.
//!
//! The flow runs through its phases in one direction only. The first
//! failure ends it, and nothing is tried again. A catalog that counts no
//! game ends it too: there is no position to draw.

use crate::draw::{draw_index, in_catalog};
use crate::exchange::{Action, ActionView, Awaiting, Event, Shape};
use crate::failure::Failure;
use crate::http::{check_status, get_of, success_status, Request};
use crate::model::Game;
use crate::query::{detail_url, detail_url_text, list_url, list_url_text, CATALOG};
use vstd::prelude::*;
use vstd::string::*;

verus! {

/// Where a flow stands.
#[derive(Debug, Clone, Copy, PartialEq, Eq, Structural)]
pub enum Phase {
    /// The size of the catalog is being asked for.
    CountFetch,
    /// The drawn position is being resolved to the address of a game.
    IndexResolve,
    /// The game at that address is being fetched.
    DetailFetch,
    /// The game has been delivered.
    Done,
    /// The flow has failed.
    Failed,
}

impl Phase {
    /// Whether nothing follows this phase.
    pub open spec fn is_terminal(self) -> bool {
        self == Phase::Done || self == Phase::Failed
    }

    /// The place of a phase in the order in which a flow passes through
    /// them. The two ends share the last place.
    pub open spec fn rank(self) -> int {
        match self {
            Phase::CountFetch => 0,
            Phase::IndexResolve => 1,
            Phase::DetailFetch => 2,
            Phase::Done => 3,
            Phase::Failed => 3,
        }
    }

    /// The shape of the body that answers the call of this phase.
    pub open spec fn shape(self) -> Shape {
        match self {
            Phase::DetailFetch => Shape::Detail,
            _ => Shape::List,
        }
    }
}

/// The flow that gets a random game.
#[derive(Debug, PartialEq)]
pub struct RandomGame {
    pub phase: Phase,
    pub awaiting: Awaiting,
    pub token: String,
    pub api: String,
}

/// A flow as plain values.
pub struct RandomGameView {
    pub phase: Phase,
    pub awaiting: Awaiting,
    pub token: Seq<char>,
    pub api: Seq<char>,
}

impl View for RandomGame {
    type V = RandomGameView;

    open spec fn view(&self) -> RandomGameView {
        RandomGameView {
            phase: self.phase,
            awaiting: self.awaiting,
            token: self.token@,
            api: self.api@,
        }
    }
}

impl RandomGameView {
    /// The flow as it starts against the catalog at `api`.
    pub open spec fn begin(token: Seq<char>, api: Seq<char>) -> RandomGameView {
        RandomGameView { phase: Phase::CountFetch, awaiting: Awaiting::Status, token, api }
    }

    /// The request that counts the catalog: a list query for one game,
    /// from the first position.
    pub open spec fn count_request(self) -> ActionView<Game> {
        ActionView::Send(get_of(list_url_text(self.api, self.token, 1, 0)))
    }

    /// This flow in another phase, waiting for a status.
    pub open spec fn at(self, phase: Phase) -> RandomGameView {
        RandomGameView { phase, awaiting: Awaiting::Status, token: self.token, api: self.api }
    }

    /// This flow, waiting for the body of the answer whose status it has
    /// accepted.
    pub open spec fn reading(self) -> RandomGameView {
        RandomGameView {
            phase: self.phase,
            awaiting: Awaiting::Body,
            token: self.token,
            api: self.api,
        }
    }

    /// The end of this flow in failure.
    pub open spec fn fail(self, failure: Failure) -> (RandomGameView, ActionView<Game>) {
        (self.at(Phase::Failed), ActionView::Fail(failure))
    }

    /// The size of the catalog that `event` reports, where it is a list.
    pub open spec fn counted(event: Event) -> int {
        match event {
            Event::List(envelope) => envelope.number_of_total_results as int,
            _ => 0,
        }
    }

    /// Whether the flow, told of `event`, draws a position: it does when
    /// it reads the answer that counts the catalog, and the catalog holds
    /// a game.
    pub open spec fn draws(self, event: Event) -> bool {
        &&& self.phase == Phase::CountFetch
        &&& self.awaiting == Awaiting::Body
        &&& event is List
        &&& Self::counted(event) >= 1
    }

    /// Whether the flow, told of `event`, finds the catalog empty: it reads
    /// the answer that counts the catalog, and the count is below one.
    pub open spec fn finds_empty(self, event: Event) -> bool {
        &&& self.phase == Phase::CountFetch
        &&& self.awaiting == Awaiting::Body
        &&& event is List
        &&& Self::counted(event) < 1
    }

    /// Whether `idx` can be the position drawn when the flow is told of
    /// `event`: it lies in the catalog that the event counts.
    pub open spec fn may_draw(self, event: Event, idx: int) -> bool {
        self.draws(event) ==> in_catalog(idx, Self::counted(event))
    }

    /// What the flow makes of the status of an answer.
    pub open spec fn on_status(self, event: Event) -> (RandomGameView, ActionView<Game>) {
        match event {
            Event::Unreachable => self.fail(Failure::Transport),
            Event::Status(status) => if success_status(status) {
                (self.reading(), ActionView::Decode(self.phase.shape()))
            } else {
                self.fail(Failure::UpstreamStatus(status))
            },
            _ => self.fail(Failure::Unexpected),
        }
    }

    /// What the flow makes of the body of an answer, where `idx` is the
    /// position that is drawn if one is. A count below one fails the flow,
    /// whatever `idx` is.
    pub open spec fn on_body(self, event: Event, idx: int) -> (RandomGameView, ActionView<Game>) {
        match event {
            Event::Unreachable => self.fail(Failure::Transport),
            Event::Undecodable => self.fail(Failure::Decode),
            Event::List(envelope) => if self.phase == Phase::CountFetch {
                if envelope.number_of_total_results >= 1 {
                    (
                        self.at(Phase::IndexResolve),
                        ActionView::Send(get_of(list_url_text(self.api, self.token, 1, idx))),
                    )
                } else {
                    self.fail(Failure::EmptyCatalog)
                }
            } else if self.phase == Phase::IndexResolve {
                (
                    self.at(Phase::DetailFetch),
                    ActionView::Send(get_of(detail_url_text(envelope.first_uri(), self.token))),
                )
            } else {
                self.fail(Failure::Unexpected)
            },
            Event::Detail(envelope) => if self.phase == Phase::DetailFetch {
                (self.at(Phase::Done), ActionView::Deliver(envelope.results))
            } else {
                self.fail(Failure::Unexpected)
            },
            _ => self.fail(Failure::Unexpected),
        }
    }

    /// The next state of the flow and what it asks for, when it is told of
    /// `event` and `idx` is the position that is drawn if one is.
    pub open spec fn step(self, event: Event, idx: int) -> (RandomGameView, ActionView<Game>) {
        if self.phase.is_terminal() {
            (self, ActionView::Idle)
        } else if self.awaiting == Awaiting::Status {
            self.on_status(event)
        } else {
            self.on_body(event, idx)
        }
    }
}

impl RandomGame {
    /// Whether the flow has ended, in delivery or in failure.
    pub fn is_over(&self) -> (over: bool)
        ensures
            over == self@.phase.is_terminal(),
    {
        match self.phase {
            Phase::Done | Phase::Failed => true,
            _ => false,
        }
    }

    /// Whether the flow, told of `event`, draws a position.
    pub fn draws(&self, event: &Event) -> (yes: bool)
        ensures
            yes == self@.draws(*event),
    {
        let counting = match self.phase {
            Phase::CountFetch => true,
            _ => false,
        };
        let reading = match self.awaiting {
            Awaiting::Body => true,
            Awaiting::Status => false,
        };
        let stocked = match event {
            Event::List(envelope) => envelope.total() >= 1,
            _ => false,
        };
        counting && reading && stocked
    }

    fn end_in(&mut self, failure: Failure) -> (action: Action<Game>)
        ensures
            (final(self)@, action@) == old(self)@.fail(failure),
    {
        self.phase = Phase::Failed;
        self.awaiting = Awaiting::Status;
        Action::Fail(failure)
    }

    fn move_to(&mut self, phase: Phase)
        ensures
            final(self)@ == old(self)@.at(phase),
    {
        self.phase = phase;
        self.awaiting = Awaiting::Status;
    }

    fn take_status(&mut self, event: Event) -> (action: Action<Game>)
        ensures
            (final(self)@, action@) == old(self)@.on_status(event),
    {
        match event {
            Event::Unreachable => self.end_in(Failure::Transport),
            Event::Status(status) => match check_status(status) {
                Ok(()) => {
                    self.awaiting = Awaiting::Body;
                    match self.phase {
                        Phase::DetailFetch => Action::Decode(Shape::Detail),
                        _ => Action::Decode(Shape::List),
                    }
                },
                Err(failure) => self.end_in(failure),
            },
            _ => self.end_in(Failure::Unexpected),
        }
    }

    fn take_body(&mut self, event: Event, idx: i64) -> (action: Action<Game>)
        ensures
            (final(self)@, action@) == old(self)@.on_body(event, idx as int),
    {
        match event {
            Event::Unreachable => self.end_in(Failure::Transport),
            Event::Undecodable => self.end_in(Failure::Decode),
            Event::List(envelope) => {
                match self.phase {
                    Phase::CountFetch => {
                        if envelope.total() >= 1 {
                            let url = list_url(self.api.as_str(), self.token.as_str(), 1, idx);
                            self.move_to(Phase::IndexResolve);
                            Action::Send(Request::get(url))
                        } else {
                            self.end_in(Failure::EmptyCatalog)
                        }
                    },
                    Phase::IndexResolve => {
                        let uri = envelope.detail_uri();
                        let url = detail_url(uri.as_str(), self.token.as_str());
                        self.move_to(Phase::DetailFetch);
                        Action::Send(Request::get(url))
                    },
                    _ => self.end_in(Failure::Unexpected),
                }
            },
            Event::Detail(envelope) => {
                match self.phase {
                    Phase::DetailFetch => {
                        self.move_to(Phase::Done);
                        Action::Deliver(envelope.results)
                    },
                    _ => self.end_in(Failure::Unexpected),
                }
            },
            _ => self.end_in(Failure::Unexpected),
        }
    }

    /// Tells the flow of `event`, with `idx` as the position that is drawn
    /// if the flow draws one. The flow moves on and says what is to be
    /// done next.
    pub fn advance(&mut self, event: Event, idx: i64) -> (action: Action<Game>)
        ensures
            (final(self)@, action@) == old(self)@.step(event, idx as int),
    {
        if self.is_over() {
            return Action::Idle;
        }
        match self.awaiting {
            Awaiting::Status => self.take_status(event),
            Awaiting::Body => self.take_body(event, idx),
        }
    }

    /// Tells the flow of `event`. Where the event counts a catalog that
    /// holds a game, the flow draws a position in it at random, each with
    /// the same chance; whichever position came out, the flow has moved as
    /// `advance` moves it with that position. Where the event counts a
    /// catalog without a game, nothing is drawn and the flow fails.
    pub fn step(&mut self, event: Event) -> (action: Action<Game>)
        ensures
            old(self)@.finds_empty(event) ==> (final(self)@, action@) == old(self)@.fail(
                Failure::EmptyCatalog,
            ),
            exists|idx: int|
                old(self)@.may_draw(event, idx) && (final(self)@, action@) == #[trigger] old(
                    self,
                )@.step(event, idx),
    {
        let idx: i64 = if self.draws(&event) {
            match &event {
                Event::List(envelope) => draw_index(envelope.total()),
                _ => 0,
            }
        } else {
            0
        };
        let action = self.advance(event, idx);
        assert(old(self)@.may_draw(event, idx as int) && (self@, action@) == old(self)@.step(
            event,
            idx as int,
        ));
        action
    }
}

/// Starts the flow that gets a random game from the catalog at
/// `gb_api_url`, and asks for the call that counts the catalog.
pub fn fetch_game(token: &str, gb_api_url: &str) -> (start: (RandomGame, Action<Game>))
    ensures
        start.0@ == RandomGameView::begin(token@, gb_api_url@),
        start.1@ == start.0@.count_request(),
{
    let url = list_url(gb_api_url, token, 1, 0);
    let flow = RandomGame {
        phase: Phase::CountFetch,
        awaiting: Awaiting::Status,
        token: String::from_str(token),
        api: String::from_str(gb_api_url),
    };
    (flow, Action::Send(Request::get(url)))
}

/// Starts the flow that gets a random game from the catalog.
pub fn get_random_game(token: &str) -> (start: (RandomGame, Action<Game>))
    ensures
        start.0@ == RandomGameView::begin(token@, CATALOG@),
        start.1@ == start.0@.count_request(),
{
    fetch_game(token, CATALOG)
}

} // verus!
